//! Closed numeric literals.

use vstd::prelude::*;

use crate::assignment::Assignment;
use crate::expression::Expression;
use crate::value::Value;

verus! {

/// A value without an associated variable.
///
/// `Int` and `Decimal` carry an exact value — a `Decimal` as the IEEE-754
/// bit pattern of the double it denotes, since Verus does not take machine
/// floats.  `E` and `Pi` are tag-only and resolve to machine constants only
/// when the evaluation result is folded to a double.
#[derive(Clone, Copy, Debug, PartialEq, Eq, Structural)]
pub enum Constant {
    E,
    Pi,
    Decimal(u64),
    Int(i32),
}

impl Constant {
    /// The numeric form this literal evaluates to.
    pub open spec fn spec_value(self) -> Value {
        match self {
            Constant::E => Value::E,
            Constant::Pi => Value::Pi,
            Constant::Decimal(bits) => Value::Decimal(bits),
            Constant::Int(n) => Value::Int(n),
        }
    }

    /// Convert into an expression, copying to keep ownership.
    pub fn as_expression(&self) -> (e: Expression)
        ensures
            e == Expression::Constant(*self),
    {
        Expression::Constant(*self)
    }

    /// Convert into an expression.
    pub fn to_expression(self) -> (e: Expression)
        ensures
            e == Expression::Constant(self),
    {
        Expression::Constant(self)
    }

    /// Evaluation of a constant never fails and ignores the assignment
    /// list: the result is the literal's own numeric form.
    pub fn evaluate(&self, _assignments: &Vec<Assignment>) -> (r: Result<Value, String>)
        ensures
            r == Ok::<Value, String>(self.spec_value()),
    {
        match *self {
            Constant::E => Ok(Value::E),
            Constant::Pi => Ok(Value::Pi),
            Constant::Decimal(bits) => Ok(Value::Decimal(bits)),
            Constant::Int(n) => Ok(Value::Int(n)),
        }
    }
}

impl From<i32> for Constant {
    fn from(c: i32) -> (r: Constant) {
        Constant::Int(c)
    }
}

impl vstd::std_specs::convert::FromSpecImpl<i32> for Constant {
    open spec fn obeys_from_spec() -> bool {
        true
    }

    open spec fn from_spec(c: i32) -> Constant {
        Constant::Int(c)
    }
}

} // verus!
