use brane::values::{Class, Function, SpecValue, Value};

#[test]
fn scalars_convert_both_ways() {
    let cases = vec![
        (Value::String(String::from("hi")), "hi"),
        (Value::Boolean(true), ""),
        (Value::Integer(-9), ""),
        (Value::Real(1.5f64.to_bits()), ""),
        (Value::Unit, ""),
    ];
    for (value, _) in cases {
        let spec = value.as_spec_value();
        let back = Value::from_spec_value(spec);
        assert_eq!(format!("{:?}", back), format!("{:?}", value));
    }
}

#[test]
fn as_spec_value_maps_each_scalar() {
    assert!(matches!(Value::String(String::from("a")).as_spec_value(), SpecValue::Unicode(s) if s == "a"));
    assert!(matches!(Value::Boolean(false).as_spec_value(), SpecValue::Boolean(false)));
    assert!(matches!(Value::Integer(42).as_spec_value(), SpecValue::Integer(42)));
    assert!(matches!(Value::Real(7).as_spec_value(), SpecValue::Real(7)));
    assert!(matches!(Value::Unit.as_spec_value(), SpecValue::Unit));
}

#[test]
fn from_spec_value_maps_each_scalar() {
    assert!(matches!(Value::from_spec_value(SpecValue::Unicode(String::from("b"))), Value::String(s) if s == "b"));
    assert!(matches!(Value::from_spec_value(SpecValue::Boolean(true)), Value::Boolean(true)));
    assert!(matches!(Value::from_spec_value(SpecValue::Integer(-3)), Value::Integer(-3)));
    assert!(matches!(Value::from_spec_value(SpecValue::Real(11)), Value::Real(11)));
    assert!(matches!(Value::from_spec_value(SpecValue::Unit), Value::Unit));
}

#[test]
fn from_impls_wrap_their_argument() {
    assert!(matches!(Value::from(String::from("s")), Value::String(s) if s == "s"));
    assert!(matches!(Value::from(true), Value::Boolean(true)));
    assert!(matches!(Value::from(5i64), Value::Integer(5)));
    assert!(matches!(Value::from(()), Value::Unit));
    let function = Function { name: String::from("f"), arity: 2 };
    assert!(matches!(Value::from(function), Value::Function(f) if f.name == "f" && f.arity == 2));
}

#[test]
fn classes_are_values() {
    let value = Value::Class(Class { name: String::from("Point") });
    assert!(matches!(value.clone(), Value::Class(c) if c.name == "Point"));
}
