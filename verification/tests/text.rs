use brane::text::{last_line, push_decimal};

#[test]
fn last_line_of_plain_text() {
    assert_eq!(last_line(""), "");
    assert_eq!(last_line("single"), "single");
    assert_eq!(last_line("first\nsecond"), "second");
    assert_eq!(last_line("first\nsecond\n"), "second");
    assert_eq!(last_line("\n"), "");
    assert_eq!(last_line("first\n\n"), "");
}

#[test]
fn last_line_handles_carriage_returns() {
    assert_eq!(last_line("first\r\nsecond\r\n"), "second");
    assert_eq!(last_line("first\nsecond\r"), "second\r");
    assert_eq!(last_line("a\r\r\n"), "a\r");
}

#[test]
fn last_line_agrees_with_std_lines() {
    let samples = [
        "", "x", "x\n", "x\ny", "x\ny\n", "\n\n", "x\r\n", "x\r", "\r\n", "é\nü", "a\n\nb",
    ];
    for sample in samples {
        let expected = sample.lines().last().unwrap_or_default().to_string();
        assert_eq!(last_line(sample), expected, "for {:?}", sample);
    }
}

#[test]
fn final_line_ending_is_optional() {
    for sample in ["", "x", "x\ny", "first\nsecond"] {
        let ended = format!("{}\n", sample);
        assert_eq!(last_line(&ended), last_line(sample));
    }
}

#[test]
fn decimal_rendering() {
    for value in [0, 7, 10, 99, 100, 12345, -1, -10, i32::MAX, i32::MIN] {
        let mut out = String::from("n=");
        push_decimal(&mut out, value);
        assert_eq!(out, format!("n={}", value));
    }
}
