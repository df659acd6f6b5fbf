//! The closed numeric form an evaluation reduces to.

use vstd::prelude::*;

verus! {

/// A closed numeric value: no variables remain, only literals and the
/// arithmetic the evaluator performed on them.
///
/// Evaluation is defined over IEEE-754 doubles, which Verus cannot reason
/// about; the evaluator therefore returns this form instead of a machine
/// float.  Each constructor stands for one double-precision operation, so a
/// caller recovers the numeric answer by folding the tree
/// bottom-up: `E` and `Pi` become the doubles nearest Euler's number and π,
/// `Decimal(bits)` is read back with `f64::from_bits`, `Int(n)` is `n`
/// widened to a double, and `Pow`, `Mul` and `Add` are `powf`, `*` and `+`.
#[derive(Debug, PartialEq)]
pub enum Value {
    /// The double nearest Euler's number.
    E,
    /// The double nearest π.
    Pi,
    /// An exact double, carried as its IEEE-754 bit pattern.
    Decimal(u64),
    /// An integer literal, widened to a double when folded.
    Int(i32),
    /// Real-exponent exponentiation of the first value by the second.
    Pow(Box<Value>, Box<Value>),
    /// The product of the two values.
    Mul(Box<Value>, Box<Value>),
    /// The sum of the two values.
    Add(Box<Value>, Box<Value>),
}

impl Clone for Value {
    fn clone(&self) -> (res: Self)
        ensures
            res == *self,
        decreases *self,
    {
        match self {
            Value::E => Value::E,
            Value::Pi => Value::Pi,
            Value::Decimal(bits) => Value::Decimal(*bits),
            Value::Int(n) => Value::Int(*n),
            Value::Pow(a, b) => Value::Pow(Box::new((**a).clone()), Box::new((**b).clone())),
            Value::Mul(a, b) => Value::Mul(Box::new((**a).clone()), Box::new((**b).clone())),
            Value::Add(a, b) => Value::Add(Box::new((**a).clone()), Box::new((**b).clone())),
        }
    }
}

} // verus!
