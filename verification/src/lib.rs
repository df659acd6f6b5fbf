//! An in-memory representation of algebraic expressions — constants,
//! variables, powers, products and sums — together with an evaluator that
//! substitutes variable assignments and reduces an expression tree to a
//! single closed numeric value.
//!
//! Verus does not reason about machine floating point, so the evaluator
//! returns a [`value::Value`]: the closed arithmetic form recording exactly
//! which operations the evaluation performed, with every variable replaced
//! by its assigned constant.  Folding that form into an IEEE-754 double is a
//! few lines of unverified arithmetic left to the caller.

use vstd::prelude::*;
use vstd::string::StringExecFns;

mod assignment;
mod basic_term;
mod constant;
mod equation;
mod expression;
mod term;
mod term_sum;
mod value;
mod variable;

pub use assignment::Assignment;
pub use basic_term::BasicTerm;
pub use constant::Constant;
pub use equation::Equation;
pub use expression::Expression;
pub use term::Term;
pub use term_sum::TermSum;
pub use value::Value;
pub use variable::Variable;

verus! {

/// The ghost content of an evaluation result: the numeric form on success,
/// the text of the error message on failure.
pub open spec fn view_eval_result(r: Result<crate::value::Value, String>) -> Result<
    crate::value::Value,
    Seq<char>,
> {
    match r {
        Ok(v) => Ok(v),
        Err(s) => Err(s@),
    }
}

/// The text of a combined error: the two messages joined by a line break.
pub open spec fn spec_concat_err(a: Seq<char>, b: Seq<char>) -> Seq<char> {
    a + "\n"@ + b
}

/// Takes two results, at least one of which is an error, and keeps every
/// error: a single error is returned unchanged, and two errors are joined
/// into one whose text is both messages concatenated with a line break
/// between them.  Combining two successes would be a programming error and
/// is ruled out by the precondition.
pub fn concat_string_err<T>(a: Result<T, String>, b: Result<T, String>) -> (r: Result<T, String>)
    requires
        a is Err || b is Err,
    ensures
        a is Ok ==> r == b,
        b is Ok ==> r == a,
        a matches Err(ea) ==> b matches Err(eb) ==> r matches Err(er) && er@ == spec_concat_err(
            ea@,
            eb@,
        ),
{
    match (a, b) {
        (Ok(_), Ok(_)) => unreached(),
        (Ok(_), Err(eb)) => Err(eb),
        (Err(ea), Ok(_)) => Err(ea),
        (Err(ea), Err(eb)) => {
            let mut combined = ea;
            combined.append("\n");
            combined.append(eb.as_str());
            Err(combined)
        },
    }
}

} // verus!
