//! Named symbolic placeholders.

use vstd::prelude::*;
use vstd::string::StringExecFns;

use crate::assignment::Assignment;
use crate::assignment::spec_lookup;
use crate::expression::Expression;
use crate::value::Value;
use crate::view_eval_result;

verus! {

/// A symbolic placeholder; its name is its sole identity.
#[derive(Debug, PartialEq, Eq)]
pub struct Variable {
    pub name: String,
}

/// The text of the failure reported when no assignment binds `name`.
pub open spec fn unbound_message(name: Seq<char>) -> Seq<char> {
    "Unbound variable: "@ + name
}

impl Clone for Variable {
    fn clone(&self) -> (res: Self)
        ensures
            res == *self,
    {
        Variable { name: self.name.clone() }
    }
}

impl Variable {
    /// Convert into an expression, cloning to keep ownership.
    pub fn as_expression(&self) -> (e: Expression)
        ensures
            e == Expression::Variable(*self),
    {
        Expression::Variable(self.clone())
    }

    /// Convert into an expression.
    pub fn to_expression(self) -> (e: Expression)
        ensures
            e == Expression::Variable(self),
    {
        Expression::Variable(self)
    }

    /// What evaluating this variable yields: the numeric form of the first
    /// constant bound to its name, or an unbound-variable failure naming it.
    pub open spec fn spec_evaluate(self, assignments: Seq<Assignment>) -> Result<Value, Seq<char>> {
        match spec_lookup(assignments, self.name@) {
            Some(c) => Ok(c.spec_value()),
            None => Err(unbound_message(self.name@)),
        }
    }

    /// Scan the assignment list in order; the first assignment whose
    /// variable name equals this variable's name decides the result, and
    /// its constant is itself evaluated.  When the whole list is scanned
    /// without a match, fail with an error naming the variable.
    pub fn evaluate(&self, assignments: &Vec<Assignment>) -> (r: Result<Value, String>)
        ensures
            view_eval_result(r) == self.spec_evaluate(assignments@),
    {
        let n = assignments.len();
        let mut i: usize = 0;
        proof {
            assert(assignments@.skip(0) =~= assignments@);
        }
        while i < n
            invariant
                n == assignments@.len(),
                0 <= i <= n,
                spec_lookup(assignments@, self.name@) == spec_lookup(
                    assignments@.skip(i as int),
                    self.name@,
                ),
            decreases n - i,
        {
            proof {
                assert(assignments@.skip(i as int)[0] == assignments@[i as int]);
                assert(assignments@.skip(i as int).skip(1) =~= assignments@.skip(i + 1));
            }
            if self.name == assignments[i].var.name {
                return assignments[i].constant.evaluate(assignments);
            }
            i = i + 1;
        }
        let mut message = "Unbound variable: ".to_owned();
        message.append(self.name.as_str());
        Err(message)
    }
}

/// Both outcomes of evaluating a variable, stated over the lookup: when
/// some assignment in the list binds the variable's name, the result is the
/// first such assignment's constant, itself evaluated; when none does, the
/// result is a failure whose message names the variable.
/// [`crate::assignment::lemma_spec_lookup_first_match`] pins down which
/// assignment the lookup finds.
pub proof fn lemma_variable_evaluate_cases(v: Variable, assignments: Seq<Assignment>)
    ensures
        spec_lookup(assignments, v.name@) matches Some(c) ==> v.spec_evaluate(assignments)
            == Ok::<Value, Seq<char>>(c.spec_value()),
        spec_lookup(assignments, v.name@) is None ==> v.spec_evaluate(assignments) == Err::<
            Value,
            Seq<char>,
        >(unbound_message(v.name@)),
{
}

} // verus!
