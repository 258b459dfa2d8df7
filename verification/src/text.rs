//! Character-level text helpers: decimal rendering of integers and the last
//! line of a block of text.

use vstd::prelude::*;
use vstd::utf8::{encode_scalar, encode_utf8};

verus! {

/// `String::push` appends one character to the end of the string.
pub assume_specification[ std::string::String::push ](string: &mut std::string::String, ch: char)
    ensures
        final(string)@ == old(string)@.push(ch),
;

/// The ASCII digit for `d` (which is below ten).
pub open spec fn digit_char(d: nat) -> char {
    (48 + d) as char
}

/// Decimal digits of a natural number, most significant first, without
/// leading zeros (zero itself is "0").
pub open spec fn decimal_digits(n: nat) -> Seq<char>
    decreases n,
{
    if n < 10 {
        seq![digit_char(n)]
    } else {
        decimal_digits(n / 10).push(digit_char(n % 10))
    }
}

/// Decimal rendering of an integer, as `Display` writes it: a leading `-`
/// for negative numbers, then the digits of its magnitude.
pub open spec fn decimal(i: int) -> Seq<char> {
    if i < 0 {
        seq!['-'] + decimal_digits((-i) as nat)
    } else {
        decimal_digits(i as nat)
    }
}

/// A decimal digit character, `0` to `9`.
pub open spec fn is_digit(c: char) -> bool {
    '0' <= c <= '9'
}

/// The number a numeral denotes in base ten: each digit weighs ten times
/// the digit after it.
pub open spec fn numeral_value(numeral: Seq<char>) -> int
    decreases numeral.len(),
{
    if numeral.len() == 0 {
        0
    } else {
        numeral_value(numeral.drop_last()) * 10 + ((numeral.last() as int) - ('0' as int))
    }
}

/// The decimal digits of a number are its standard numeral: one or more
/// digit characters, without a leading zero unless the number is zero,
/// that read back in base ten as the number itself.
pub proof fn decimal_digits_are_the_numeral(n: nat)
    ensures
        decimal_digits(n).len() > 0,
        forall|k: int| 0 <= k < decimal_digits(n).len() ==> is_digit(#[trigger] decimal_digits(n)[k]),
        numeral_value(decimal_digits(n)) == n,
        decimal_digits(n)[0] == '0' ==> n == 0,
    decreases n,
{
    let digits = decimal_digits(n);
    let last = digit_char(n % 10);
    assert(((48 + (n % 10)) as char) as int == 48 + (n % 10));
    assert(('0' as int) == 48);
    assert((last as int) - ('0' as int) == n % 10);
    if n < 10 {
        assert(digits.drop_last() =~= Seq::<char>::empty());
        assert(numeral_value(digits) == numeral_value(digits.drop_last()) * 10 + ((digits.last() as int) - ('0' as int)));
    } else {
        decimal_digits_are_the_numeral(n / 10);
        let front = decimal_digits(n / 10);
        assert(digits.drop_last() =~= front);
        assert(digits.last() == last);
        assert(n == (n / 10) * 10 + n % 10) by (nonlinear_arith);
        assert(numeral_value(digits) == numeral_value(front) * 10 + ((last as int) - ('0' as int)));
        assert forall|k: int| 0 <= k < digits.len() implies is_digit(#[trigger] digits[k]) by {
            if k < front.len() {
                assert(digits[k] == front[k]);
            }
        }
        assert(digits[0] == front[0]);
    }
}

/// The decimal rendering of an integer is its sign, when negative, and
/// then the standard numeral of its magnitude; so distinct integers are
/// rendered differently.
pub proof fn decimal_is_signed_numeral(i: int, j: int)
    ensures
        (decimal(i)[0] == '-') <==> i < 0,
        i < 0 ==> numeral_value(decimal(i).drop_first()) == -i,
        i >= 0 ==> numeral_value(decimal(i)) == i,
        forall|k: int| (if i < 0 { 1int } else { 0int }) <= k < decimal(i).len() ==> is_digit(#[trigger] decimal(i)[k]),
        decimal(i) == decimal(j) ==> i == j,
{
    decimal_digits_are_the_numeral(if i < 0 { (-i) as nat } else { i as nat });
    decimal_digits_are_the_numeral(if j < 0 { (-j) as nat } else { j as nat });
    if i < 0 {
        assert(decimal(i).drop_first() =~= decimal_digits((-i) as nat));
        assert forall|k: int| 1 <= k < decimal(i).len() implies is_digit(#[trigger] decimal(i)[k]) by {
            assert(decimal(i)[k] == decimal_digits((-i) as nat)[k - 1]);
        }
    } else {
        assert(is_digit(decimal(i)[0]));
    }
    if j < 0 {
        assert(decimal(j).drop_first() =~= decimal_digits((-j) as nat));
    } else {
        assert(is_digit(decimal(j)[0]));
    }
}

fn digit(d: u32) -> (c: char)
    requires
        d < 10,
    ensures
        c == digit_char(d as nat),
{
    let b: u8 = 48u8 + d as u8;
    b as char
}

/// Appends the decimal digits of `n` to `out`.
pub fn push_decimal_digits(out: &mut String, n: u32)
    ensures
        final(out)@ == old(out)@ + decimal_digits(n as nat),
    decreases n,
{
    if n >= 10 {
        push_decimal_digits(out, n / 10);
    }
    let c = digit(n % 10);
    out.push(c);
    proof {
        assert(old(out)@ + decimal_digits(n as nat) =~= (old(out)@ + (if n >= 10 {
            decimal_digits((n / 10) as nat)
        } else {
            Seq::empty()
        })).push(digit_char((n % 10) as nat)));
    }
}

/// Appends the decimal rendering of `i` to `out`.
pub fn push_decimal(out: &mut String, i: i32)
    ensures
        final(out)@ == old(out)@ + decimal(i as int),
{
    if i < 0 {
        out.push('-');
        let magnitude: u32 = (-(i as i64)) as u32;
        push_decimal_digits(out, magnitude);
        assert(old(out)@ + decimal(i as int) =~= old(out)@.push('-') + decimal_digits(
            magnitude as nat,
        ));
    } else {
        push_decimal_digits(out, i as u32);
    }
}

/// The characters of `s`, in order.
pub fn chars_of(s: &str) -> (chars: Vec<char>)
    ensures
        chars@ == s@,
{
    let mut chars: Vec<char> = Vec::new();
    for c in it: s.chars()
        invariant
            chars@ == it.seq().take(it.index()),
    {
        chars.push(c);
    }
    chars
}

/// Index just past the last line feed in `s`; zero when there is none.
pub open spec fn line_start(s: Seq<char>) -> int
    decreases s.len(),
{
    if s.len() == 0 {
        0
    } else if s.last() == '\n' {
        s.len() as int
    } else {
        line_start(s.drop_last())
    }
}

/// The last of the lines of `text`, as `str::lines` splits it, or empty
/// text when it has none.
///
/// Lines end at a line feed, and a carriage return just before that line
/// feed belongs to the line ending; the line ending of the final line is
/// optional, so text that ends in one has no empty line after it.
pub open spec fn final_line(text: Seq<char>) -> Seq<char> {
    if text.len() == 0 {
        Seq::empty()
    } else {
        let ended = text.last() == '\n';
        let body = if ended {
            text.drop_last()
        } else {
            text
        };
        let line = body.subrange(line_start(body), body.len() as int);
        if ended && line.len() > 0 && line.last() == '\r' {
            line.drop_last()
        } else {
            line
        }
    }
}

proof fn lemma_line_start_bounds(s: Seq<char>)
    ensures
        0 <= line_start(s) <= s.len(),
        line_start(s) > 0 ==> s[line_start(s) - 1] == '\n',
    decreases s.len(),
{
    if s.len() > 0 && s.last() != '\n' {
        lemma_line_start_bounds(s.drop_last());
    }
}

/// The characters `chars[from..to]` as a string.
pub fn string_of_chars(chars: &Vec<char>, from: usize, to: usize) -> (s: String)
    requires
        from <= to <= chars.len(),
    ensures
        s@ == chars@.subrange(from as int, to as int),
{
    let mut s = String::new();
    let mut i = from;
    while i < to
        invariant
            from <= i <= to <= chars.len(),
            s@ == chars@.subrange(from as int, i as int),
        decreases to - i,
    {
        s.push(chars[i]);
        i = i + 1;
        assert(s@ =~= chars@.subrange(from as int, i as int));
    }
    s
}

/// UTF-8 encodes a concatenation piece by piece.
pub proof fn lemma_encode_utf8_append(a: Seq<char>, b: Seq<char>)
    ensures
        encode_utf8(a + b) == encode_utf8(a) + encode_utf8(b),
    decreases a.len(),
{
    if a.len() == 0 {
        assert(a + b =~= b);
        assert(encode_utf8(a) =~= Seq::<u8>::empty());
        assert(encode_utf8(a) + encode_utf8(b) =~= encode_utf8(b));
    } else {
        assert((a + b).drop_first() =~= a.drop_first() + b);
        assert((a + b)[0] == a[0]);
        lemma_encode_utf8_append(a.drop_first(), b);
        assert(encode_utf8(a + b) =~= encode_scalar(a[0] as u32) + encode_utf8(a.drop_first() + b));
        assert(encode_utf8(a) + encode_utf8(b) =~= encode_scalar(a[0] as u32) + (encode_utf8(
            a.drop_first(),
        ) + encode_utf8(b)));
    }
}

/// A piece of a text takes no more bytes in UTF-8 than the whole text.
pub proof fn lemma_encode_utf8_subrange(s: Seq<char>, i: int, j: int)
    requires
        0 <= i <= j <= s.len(),
    ensures
        encode_utf8(s.subrange(i, j)).len() <= encode_utf8(s).len(),
{
    let pre = s.subrange(0, i);
    let mid = s.subrange(i, j);
    let post = s.subrange(j, s.len() as int);
    assert(s =~= pre + mid + post);
    lemma_encode_utf8_append(pre + mid, post);
    lemma_encode_utf8_append(pre, mid);
}

/// The last line of `text` (see [`final_line`]); empty when it has none.
pub fn last_line(text: &str) -> (line: String)
    ensures
        line@ == final_line(text@),
        encode_utf8(line@).len() <= encode_utf8(text@).len(),
{
    let chars = chars_of(text);
    let n = chars.len();
    if n == 0 {
        let empty = String::new();
        assert(encode_utf8(empty@) =~= Seq::<u8>::empty());
        return empty;
    }
    let ended = chars[n - 1] == '\n';
    let end = if ended {
        n - 1
    } else {
        n
    };
    let ghost body = chars@.take(end as int);
    let mut start = end;
    while start > 0 && chars[start - 1] != '\n'
        invariant
            start <= end <= n == chars@.len(),
            body == chars@.take(end as int),
            line_start(body) == line_start(chars@.take(start as int)),
        decreases start,
    {
        assert(chars@.take(start as int).drop_last() =~= chars@.take(start - 1));
        start = start - 1;
    }
    proof {
        if start > 0 {
            assert(chars@.take(start as int).last() == '\n');
        } else {
            assert(chars@.take(0) =~= Seq::<char>::empty());
        }
        lemma_line_start_bounds(body);
    }
    let mut stop = end;
    if ended && stop > start && chars[stop - 1] == '\r' {
        stop = stop - 1;
    }
    let line = string_of_chars(&chars, start, stop);
    proof {
        let full = chars@.take(n as int);
        assert(full =~= text@);
        if ended {
            assert(text@.drop_last() =~= body);
        } else {
            assert(text@ =~= body);
        }
        let piece = body.subrange(line_start(body), body.len() as int);
        if ended && piece.len() > 0 && piece.last() == '\r' {
            assert(piece.drop_last() =~= chars@.subrange(start as int, stop as int));
        } else {
            assert(piece =~= chars@.subrange(start as int, stop as int));
        }
        lemma_encode_utf8_subrange(text@, start as int, stop as int);
    }
    line
}

/// A final line ending is optional: adding one to text that ends neither
/// in a line feed nor in a carriage return leaves its last line unchanged.
pub proof fn lemma_final_line_ending_optional(text: Seq<char>)
    requires
        text.len() == 0 || (text.last() != '\n' && text.last() != '\r'),
    ensures
        final_line(text.push('\n')) == final_line(text),
{
    let ended = text.push('\n');
    assert(ended.drop_last() =~= text);
    lemma_line_start_bounds(text);
    if text.len() == 0 {
        assert(text.subrange(line_start(text), text.len() as int) =~= Seq::<char>::empty());
    }
}

/// With no line feed in `rest`, the last line of `start + rest` begins
/// where `start` ends, when `start` is empty or ends in a line feed.
pub proof fn lemma_line_start_after(start: Seq<char>, rest: Seq<char>)
    requires
        start.len() == 0 || start.last() == '\n',
        forall|i: int| 0 <= i < rest.len() ==> rest[i] != '\n',
    ensures
        line_start(start + rest) == start.len(),
    decreases rest.len(),
{
    if rest.len() == 0 {
        assert(start + rest =~= start);
        if start.len() == 0 {
        }
    } else {
        assert((start + rest).drop_last() =~= start + rest.drop_last());
        lemma_line_start_after(start, rest.drop_last());
    }
}

/// A line written after a line ending, and ended itself, is the last line:
/// `final_line(start + line + "\n")` is `line` when `line` holds no line
/// feed and does not end in a carriage return.
pub proof fn lemma_final_line_of_written_line(start: Seq<char>, line: Seq<char>)
    requires
        start.len() == 0 || start.last() == '\n',
        forall|i: int| 0 <= i < line.len() ==> line[i] != '\n',
        line.len() == 0 || line.last() != '\r',
    ensures
        final_line((start + line).push('\n')) == line,
{
    let text = (start + line).push('\n');
    assert(text.drop_last() =~= start + line);
    lemma_line_start_after(start, line);
    assert((start + line).subrange(start.len() as int, (start + line).len() as int) =~= line);
}

} // verus!
