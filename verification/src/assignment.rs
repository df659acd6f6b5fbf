//! Bindings of variables to constants, and lookup over a binding list.

use vstd::prelude::*;

use crate::constant::Constant;
use crate::variable::Variable;

verus! {

/// Binds one variable to one constant.  A list of assignments may bind the
/// same name more than once; lookup takes the first match.
#[derive(Debug, PartialEq, Eq)]
pub struct Assignment {
    pub var: Variable,
    pub constant: Constant,
}

impl Clone for Assignment {
    fn clone(&self) -> (res: Self)
        ensures
            res == *self,
    {
        Assignment { var: self.var.clone(), constant: self.constant }
    }
}

impl Assignment {
    pub fn new(var: Variable, c: Constant) -> (r: Assignment)
        ensures
            r.var == var,
            r.constant == c,
    {
        Assignment { var, constant: c }
    }

    pub fn variable(&self) -> (r: &Variable)
        ensures
            *r == self.var,
    {
        &self.var
    }

    pub fn constant(&self) -> (r: &Constant)
        ensures
            *r == self.constant,
    {
        &self.constant
    }
}

/// The constant bound to `name` by the first matching assignment in the
/// list, scanned in order; `None` when no assignment matches.
pub open spec fn spec_lookup(assignments: Seq<Assignment>, name: Seq<char>) -> Option<Constant>
    decreases assignments.len(),
{
    if assignments.len() == 0 {
        None
    } else if assignments[0].var.name@ == name {
        Some(assignments[0].constant)
    } else {
        spec_lookup(assignments.skip(1), name)
    }
}

/// Lookup finds exactly the first match: it returns `None` just when no
/// assignment in the list binds `name`, and otherwise the constant of the
/// earliest assignment binding `name` — later duplicates never decide.
pub proof fn lemma_spec_lookup_first_match(assignments: Seq<Assignment>, name: Seq<char>)
    ensures
        spec_lookup(assignments, name) is None <==> (forall|i: int|
            0 <= i < assignments.len() ==> assignments[i].var.name@ != name),
        spec_lookup(assignments, name) matches Some(c) ==> exists|i: int|
            0 <= i < assignments.len() && assignments[i].var.name@ == name
                && assignments[i].constant == c && (forall|j: int|
                0 <= j < i ==> assignments[j].var.name@ != name),
    decreases assignments.len(),
{
    if assignments.len() == 0 {
    } else if assignments[0].var.name@ == name {
        assert(assignments[0].var.name@ == name);
    } else {
        let rest = assignments.skip(1);
        lemma_spec_lookup_first_match(rest, name);
        assert(forall|i: int| 0 <= i < rest.len() ==> #[trigger] rest[i] == assignments[i + 1]);
        match spec_lookup(assignments, name) {
            Some(c) => {
                let i = choose|i: int|
                    0 <= i < rest.len() && rest[i].var.name@ == name && rest[i].constant == c
                        && (forall|j: int| 0 <= j < i ==> rest[j].var.name@ != name);
                assert(assignments[i + 1].var.name@ == name && assignments[i + 1].constant == c);
                assert forall|j: int| 0 <= j < i + 1 implies assignments[j].var.name@ != name by {
                    if j > 0 {
                        assert(rest[j - 1] == assignments[j]);
                        assert(rest[j - 1].var.name@ != name);
                    }
                }
            },
            None => {
                assert forall|i: int|
                    0 <= i < assignments.len() implies assignments[i].var.name@ != name by {
                    if i > 0 {
                        assert(rest[i - 1] == assignments[i]);
                    }
                }
            },
        }
    }
}

} // verus!
