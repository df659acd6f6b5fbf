//! Two expressions set equal.

use vstd::prelude::*;

use crate::expression::Expression;
use crate::expression::expression_equal;

verus! {

/// Two expressions related by equality.  A data holder only: no solving or
/// normalisation is performed.
#[derive(Debug, PartialEq)]
pub struct Equation {
    pub left: Expression,
    pub right: Expression,
}

impl Clone for Equation {
    fn clone(&self) -> (res: Self)
        ensures
            expression_equal(res.left, self.left),
            expression_equal(res.right, self.right),
    {
        Equation { left: self.left.clone(), right: self.right.clone() }
    }
}

impl Equation {
    pub fn new(left: Expression, right: Expression) -> (r: Equation)
        ensures
            r.left == left,
            r.right == right,
    {
        Equation { left, right }
    }

    pub fn left(&self) -> (r: &Expression)
        ensures
            *r == self.left,
    {
        &self.left
    }

    pub fn right(&self) -> (r: &Expression)
        ensures
            *r == self.right,
    {
        &self.right
    }
}

} // verus!
