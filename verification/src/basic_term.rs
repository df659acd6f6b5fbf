//! An expression raised to a power.

use vstd::prelude::*;

use crate::assignment::Assignment;
use crate::concat_string_err;
use crate::constant::Constant;
use crate::expression::Expression;
use crate::spec_concat_err;
use crate::value::Value;
use crate::view_eval_result;

verus! {

/// An expression raised to a power (for example `x^2`): `base` and `power`
/// are both full expressions.
#[derive(Debug, PartialEq)]
pub struct BasicTerm {
    pub base: Box<Expression>,
    pub power: Box<Expression>,
}

/// Every variable occurring in the basic term is bound by the assignment
/// list: both the base and the power are fully bound.
pub open spec fn basic_term_all_bound(b: BasicTerm, assignments: Seq<Assignment>) -> bool
    decreases b,
{
    crate::expression::expression_all_bound(*b.base, assignments)
        && crate::expression::expression_all_bound(*b.power, assignments)
}

/// Evaluating a basic term succeeds exactly when every variable occurring
/// in it is bound.
pub proof fn lemma_basic_term_evaluate_ok_iff_all_bound(b: BasicTerm, assignments: Seq<Assignment>)
    ensures
        b.spec_evaluate(assignments) is Ok <==> basic_term_all_bound(b, assignments),
    decreases b,
{
    crate::expression::lemma_evaluate_ok_iff_all_bound(*b.base, assignments);
    crate::expression::lemma_evaluate_ok_iff_all_bound(*b.power, assignments);
}

/// Structural equality of two basic terms: equal bases and equal powers.
///
/// Spec-level `==` cannot serve here: the trees hold `Vec`s, whose ghost
/// identity is finer than their contents, so structural equality is spelled
/// out recursively with each `Vec` compared through its view.
pub open spec fn basic_term_equal(a: BasicTerm, b: BasicTerm) -> bool
    decreases a,
{
    crate::expression::expression_equal(*a.base, *b.base) && crate::expression::expression_equal(
        *a.power,
        *b.power,
    )
}

impl Clone for BasicTerm {
    fn clone(&self) -> (res: Self)
        ensures
            basic_term_equal(res, *self),
        decreases *self,
    {
        BasicTerm { base: Box::new((*self.base).clone()), power: Box::new((*self.power).clone()) }
    }
}

impl BasicTerm {
    pub fn new(base: Expression, power: Expression) -> (r: BasicTerm)
        ensures
            r.base == base,
            r.power == power,
    {
        BasicTerm { base: Box::new(base), power: Box::new(power) }
    }

    /// What evaluating `base^power` yields.  Base and power are evaluated
    /// independently: when both succeed the result is the power form of the
    /// two values; a single failure is passed through unchanged; when both
    /// fail, the two messages are joined into one combined failure.
    pub open spec fn spec_evaluate(self, assignments: Seq<Assignment>) -> Result<Value, Seq<char>>
        decreases self,
    {
        let base_r = self.base.spec_evaluate(assignments);
        let power_r = self.power.spec_evaluate(assignments);
        match (base_r, power_r) {
            (Ok(base_v), Ok(power_v)) => Ok(Value::Pow(Box::new(base_v), Box::new(power_v))),
            (Ok(_), Err(e)) => Err(e),
            (Err(e), Ok(_)) => Err(e),
            (Err(e1), Err(e2)) => Err(spec_concat_err(e1, e2)),
        }
    }

    /// Evaluate `base` and `power` and combine the outcomes as
    /// [`BasicTerm::spec_evaluate`] describes.
    pub fn evaluate(&self, assignments: &Vec<Assignment>) -> (r: Result<Value, String>)
        ensures
            view_eval_result(r) == self.spec_evaluate(assignments@),
        decreases *self,
    {
        let base_eval = self.base.evaluate(assignments);
        let power_eval = self.power.evaluate(assignments);
        match (base_eval, power_eval) {
            (Ok(base), Ok(power)) => Ok(Value::Pow(Box::new(base), Box::new(power))),
            (a, b) => concat_string_err(a, b),
        }
    }
}

impl From<Expression> for BasicTerm {
    /// Wrap a bare expression as a basic term, with the power defaulting to
    /// the literal 1.
    fn from(exp: Expression) -> (r: BasicTerm) {
        BasicTerm {
            base: Box::new(exp),
            power: Box::new(Expression::Constant(Constant::Int(1))),
        }
    }
}

impl vstd::std_specs::convert::FromSpecImpl<Expression> for BasicTerm {
    open spec fn obeys_from_spec() -> bool {
        true
    }

    open spec fn from_spec(exp: Expression) -> BasicTerm {
        BasicTerm {
            base: Box::new(exp),
            power: Box::new(Expression::Constant(Constant::Int(1))),
        }
    }
}

/// All three outcomes of evaluating `base^power`, stated over the parts: a
/// power form when both sub-evaluations succeed, the single failure
/// unchanged when exactly one fails, and the two messages joined by a line
/// break when both fail.
pub proof fn lemma_basic_term_evaluate_cases(b: BasicTerm, assignments: Seq<Assignment>)
    ensures
        b.base.spec_evaluate(assignments) matches Ok(base_v) ==> b.power.spec_evaluate(
            assignments,
        ) matches Ok(power_v) ==> b.spec_evaluate(assignments) == Ok::<Value, Seq<char>>(
            Value::Pow(Box::new(base_v), Box::new(power_v)),
        ),
        b.base.spec_evaluate(assignments) is Ok && b.power.spec_evaluate(assignments) is Err
            ==> b.spec_evaluate(assignments) == b.power.spec_evaluate(assignments),
        b.base.spec_evaluate(assignments) is Err && b.power.spec_evaluate(assignments) is Ok
            ==> b.spec_evaluate(assignments) == b.base.spec_evaluate(assignments),
        b.base.spec_evaluate(assignments) matches Err(e1) ==> b.power.spec_evaluate(
            assignments,
        ) matches Err(e2) ==> b.spec_evaluate(assignments) == Err::<Value, Seq<char>>(
            e1 + "\n"@ + e2,
        ),
{
}

} // verus!
