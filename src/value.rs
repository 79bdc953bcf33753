//! Dynamic values, as the expression resolver hands them to helpers, and
//! their truthiness.
use vstd::prelude::*;

verus! {

/// A number as a dynamic value holds it: a finite decimal
/// `mantissa * 10^exponent`, an infinity, or not-a-number.
#[derive(Clone, Copy, Debug)]
pub enum Number {
    Finite { mantissa: i64, exponent: i32 },
    Infinite { negative: bool },
    NaN,
}

impl Number {
    /// The number is zero (of either sign, at any exponent).
    pub open spec fn spec_is_zero(&self) -> bool {
        self matches Number::Finite { mantissa, .. } && mantissa == 0
    }

    pub open spec fn spec_is_nan(&self) -> bool {
        self is NaN
    }

    /// An integer as a number.
    pub fn from_i64(n: i64) -> (r: Number)
        ensures
            r == (Number::Finite { mantissa: n, exponent: 0 }),
    {
        Number::Finite { mantissa: n, exponent: 0 }
    }

    /// Not-a-number.
    pub fn nan() -> (r: Number)
        ensures
            r is NaN,
    {
        Number::NaN
    }

    #[verifier::when_used_as_spec(spec_is_zero)]
    pub fn is_zero(&self) -> (r: bool)
        ensures
            r == self.spec_is_zero(),
    {
        match self {
            Number::Finite { mantissa, .. } => *mantissa == 0,
            _ => false,
        }
    }

    #[verifier::when_used_as_spec(spec_is_nan)]
    pub fn is_nan(&self) -> (r: bool)
        ensures
            r == self.spec_is_nan(),
    {
        match self {
            Number::NaN => true,
            _ => false,
        }
    }
}

/// A dynamic value: null, a boolean, a number, a string, an array of values,
/// or an object given as its entries in order.
#[derive(Debug)]
pub enum Value {
    Null,
    Bool(bool),
    Number(Number),
    String(String),
    Array(Vec<Value>),
    Object(Vec<(String, Value)>),
}

/// Truthiness of a number: NaN is false; zero is false unless
/// `include_zero`; every other number is true.
pub open spec fn number_truthy(n: Number, include_zero: bool) -> bool {
    if n.spec_is_nan() {
        false
    } else if n.spec_is_zero() {
        include_zero
    } else {
        true
    }
}

/// Truthiness of a value, defined for every value.
pub open spec fn spec_truthy(v: Value, include_zero: bool) -> bool {
    match v {
        Value::Null => false,
        Value::Bool(b) => b,
        Value::Number(n) => number_truthy(n, include_zero),
        Value::String(s) => s@.len() > 0,
        Value::Array(a) => a@.len() > 0,
        Value::Object(o) => o@.len() > 0,
    }
}

impl Value {
    /// Truthiness of this value; `include_zero` makes zero count as true.
    pub fn is_truthy(&self, include_zero: bool) -> (r: bool)
        ensures
            r == spec_truthy(*self, include_zero),
    {
        match self {
            Value::Null => false,
            Value::Bool(b) => *b,
            Value::Number(n) => {
                if n.is_nan() {
                    false
                } else if n.is_zero() {
                    include_zero
                } else {
                    true
                }
            },
            Value::String(s) => !s.as_str().is_empty(),
            Value::Array(a) => a.len() > 0,
            Value::Object(o) => o.len() > 0,
        }
    }
}

/// NaN is false whether or not zero counts as true.
pub proof fn lemma_nan_is_falsy(include_zero: bool)
    ensures
        !spec_truthy(Value::Number(Number::NaN), include_zero),
{
}

/// Zero is true exactly when `include_zero` is set; any other number that is
/// not NaN is true under either setting.
pub proof fn lemma_zero_rule(n: Number, include_zero: bool)
    ensures
        n.spec_is_zero() ==> spec_truthy(Value::Number(n), include_zero) == include_zero,
        !n.spec_is_zero() && !n.spec_is_nan() ==> spec_truthy(Value::Number(n), include_zero),
{
}

} // verus!
