//! Values of the Brane virtual machine, and their exchange form.

use vstd::prelude::*;
use vstd::std_specs::convert::FromSpecImpl;

verus! {

/// A compiled function, as a value: it is known by its name and arity.
#[derive(Debug, Clone)]
pub struct Function {
    pub name: String,
    pub arity: u8,
}

/// A class, as a value: it is known by its name.
#[derive(Debug, Clone)]
pub struct Class {
    pub name: String,
}

/// A value on the stack of the virtual machine.
///
/// A real number is held as the bit pattern of its IEEE-754 binary64
/// representation (what `f64::to_bits` gives).
#[derive(Debug, Clone)]
pub enum Value {
    String(String),
    Boolean(bool),
    Integer(i64),
    Real(u64),
    Unit,
    Function(Function),
    Class(Class),
}

/// A value in the form in which it is exchanged with packages (arguments and
/// results of function calls). Reals are held as in [`Value`].
#[derive(Debug)]
pub enum SpecValue {
    Array { data_type: String, entries: Vec<SpecValue> },
    Boolean(bool),
    Integer(i64),
    Pointer { data_type: String, variable: String, secret: bool },
    Real(u64),
    Struct { data_type: String, properties: Vec<(String, SpecValue)> },
    Unicode(String),
    Unit,
}

/// Whether a machine value has an exchange form: functions and classes
/// have none.
pub open spec fn is_exchangeable(value: Value) -> bool {
    !(value is Function) && !(value is Class)
}

/// Whether an exchanged value is a scalar (text, boolean, integer, real or
/// unit), the only kinds that become machine values directly.
pub open spec fn is_scalar(value: SpecValue) -> bool {
    ||| value is Boolean
    ||| value is Integer
    ||| value is Real
    ||| value is Unicode
    ||| value is Unit
}

/// The exchange form of an exchangeable machine value.
pub open spec fn exchange_form(value: Value) -> SpecValue
    recommends
        is_exchangeable(value),
{
    match value {
        Value::String(s) => SpecValue::Unicode(s),
        Value::Boolean(b) => SpecValue::Boolean(b),
        Value::Integer(i) => SpecValue::Integer(i),
        Value::Real(r) => SpecValue::Real(r),
        _ => SpecValue::Unit,
    }
}

/// The machine value of a scalar exchanged value.
pub open spec fn machine_form(value: SpecValue) -> Value
    recommends
        is_scalar(value),
{
    match value {
        SpecValue::Unicode(s) => Value::String(s),
        SpecValue::Boolean(b) => Value::Boolean(b),
        SpecValue::Integer(i) => Value::Integer(i),
        SpecValue::Real(r) => Value::Real(r),
        _ => Value::Unit,
    }
}

impl Value {
    /// The exchange form of this value. Functions and classes have none and
    /// are not accepted.
    pub fn as_spec_value(&self) -> (spec_value: SpecValue)
        requires
            is_exchangeable(*self),
        ensures
            spec_value == exchange_form(*self),
            *self matches Value::String(text) ==> spec_value == SpecValue::Unicode(text),
            *self matches Value::Boolean(b) ==> spec_value == SpecValue::Boolean(b),
            *self matches Value::Integer(i) ==> spec_value == SpecValue::Integer(i),
            *self matches Value::Real(r) ==> spec_value == SpecValue::Real(r),
            *self is Unit ==> spec_value is Unit,
    {
        match self {
            Value::String(value) => SpecValue::Unicode(value.clone()),
            Value::Boolean(value) => SpecValue::Boolean(*value),
            Value::Integer(value) => SpecValue::Integer(*value),
            Value::Real(value) => SpecValue::Real(*value),
            Value::Unit => SpecValue::Unit,
            _ => vstd::pervasive::unreached(),
        }
    }

    /// The machine value of a scalar exchanged value. Arrays, pointers and
    /// structs are not accepted.
    pub fn from_spec_value(value: SpecValue) -> (result: Value)
        requires
            is_scalar(value),
        ensures
            result == machine_form(value),
            value matches SpecValue::Unicode(text) ==> result == Value::String(text),
            value matches SpecValue::Boolean(b) ==> result == Value::Boolean(b),
            value matches SpecValue::Integer(i) ==> result == Value::Integer(i),
            value matches SpecValue::Real(r) ==> result == Value::Real(r),
            value is Unit ==> result is Unit,
    {
        match value {
            SpecValue::Unicode(value) => Value::String(value),
            SpecValue::Boolean(value) => Value::Boolean(value),
            SpecValue::Integer(value) => Value::Integer(value),
            SpecValue::Real(value) => Value::Real(value),
            SpecValue::Unit => Value::Unit,
            _ => vstd::pervasive::unreached(),
        }
    }
}

/// A machine value and its exchange form give each other back: converting
/// an exchangeable value to its exchange form and back yields the value,
/// and converting a scalar to a machine value and back yields the scalar.
pub proof fn exchange_round_trip(value: Value, spec_value: SpecValue)
    ensures
        is_exchangeable(value) ==> is_scalar(exchange_form(value)) && machine_form(
            exchange_form(value),
        ) == value,
        is_scalar(spec_value) ==> is_exchangeable(machine_form(spec_value)) && exchange_form(
            machine_form(spec_value),
        ) == spec_value,
{
}

/// Both conversions keep what a scalar holds: text stays the same text,
/// and booleans, integers (of any size) and reals (bit for bit) stay the
/// same; unit stays unit.
pub proof fn conversions_keep_payloads(text: String, b: bool, i: i64, r: u64)
    ensures
        exchange_form(Value::String(text)) == SpecValue::Unicode(text),
        exchange_form(Value::Boolean(b)) == SpecValue::Boolean(b),
        exchange_form(Value::Integer(i)) == SpecValue::Integer(i),
        exchange_form(Value::Real(r)) == SpecValue::Real(r),
        exchange_form(Value::Unit) is Unit,
        machine_form(SpecValue::Unicode(text)) == Value::String(text),
        machine_form(SpecValue::Boolean(b)) == Value::Boolean(b),
        machine_form(SpecValue::Integer(i)) == Value::Integer(i),
        machine_form(SpecValue::Real(r)) == Value::Real(r),
        machine_form(SpecValue::Unit) is Unit,
{
}

/// Wrapping a native value as a machine value keeps it: a string becomes
/// that string, a boolean that boolean, any `i64` that same integer, unit
/// the unit value, and a function that function.
pub proof fn wrapping_keeps_the_value(text: String, b: bool, i: i64, function: Function)
    ensures
        <Value as vstd::std_specs::convert::FromSpec<String>>::obeys_from_spec(),
        <Value as vstd::std_specs::convert::FromSpec<String>>::from_spec(text) == Value::String(text),
        <Value as vstd::std_specs::convert::FromSpec<bool>>::obeys_from_spec(),
        <Value as vstd::std_specs::convert::FromSpec<bool>>::from_spec(b) == Value::Boolean(b),
        <Value as vstd::std_specs::convert::FromSpec<i64>>::obeys_from_spec(),
        <Value as vstd::std_specs::convert::FromSpec<i64>>::from_spec(i) == Value::Integer(i),
        <Value as vstd::std_specs::convert::FromSpec<()>>::obeys_from_spec(),
        <Value as vstd::std_specs::convert::FromSpec<()>>::from_spec(()) is Unit,
        <Value as vstd::std_specs::convert::FromSpec<Function>>::obeys_from_spec(),
        <Value as vstd::std_specs::convert::FromSpec<Function>>::from_spec(function)
            == Value::Function(function),
{
}

impl From<Function> for Value {
    fn from(function: Function) -> (value: Self)
        ensures
            value == Value::Function(function),
    {
        Value::Function(function)
    }
}

impl FromSpecImpl<Function> for Value {
    open spec fn obeys_from_spec() -> bool {
        true
    }

    open spec fn from_spec(function: Function) -> Value {
        Value::Function(function)
    }
}

impl From<String> for Value {
    fn from(string: String) -> (value: Self)
        ensures
            value == Value::String(string),
    {
        Value::String(string)
    }
}

impl FromSpecImpl<String> for Value {
    open spec fn obeys_from_spec() -> bool {
        true
    }

    open spec fn from_spec(string: String) -> Value {
        Value::String(string)
    }
}

impl From<bool> for Value {
    fn from(boolean: bool) -> (value: Self)
        ensures
            value == Value::Boolean(boolean),
    {
        Value::Boolean(boolean)
    }
}

impl FromSpecImpl<bool> for Value {
    open spec fn obeys_from_spec() -> bool {
        true
    }

    open spec fn from_spec(boolean: bool) -> Value {
        Value::Boolean(boolean)
    }
}

impl From<i64> for Value {
    fn from(integer: i64) -> (value: Self)
        ensures
            value == Value::Integer(integer),
    {
        Value::Integer(integer)
    }
}

impl FromSpecImpl<i64> for Value {
    open spec fn obeys_from_spec() -> bool {
        true
    }

    open spec fn from_spec(integer: i64) -> Value {
        Value::Integer(integer)
    }
}

impl From<()> for Value {
    fn from(unit: ()) -> (value: Self)
        ensures
            value is Unit,
    {
        Value::Unit
    }
}

impl FromSpecImpl<()> for Value {
    open spec fn obeys_from_spec() -> bool {
        true
    }

    open spec fn from_spec(unit: ()) -> Value {
        Value::Unit
    }
}

} // verus!
