//! The universal expression node.

use vstd::prelude::*;

use crate::assignment::Assignment;
use crate::basic_term::BasicTerm;
use crate::constant::Constant;
use crate::term::Term;
use crate::term_sum::TermSum;
use crate::value::Value;
use crate::variable::Variable;
use crate::view_eval_result;

verus! {

/// Any mathematical expression: exactly one variant is active at a time,
/// and evaluation dispatches on it.
#[derive(Debug, PartialEq)]
pub enum Expression {
    Constant(Constant),
    Variable(Variable),
    TermSum(TermSum),
    Term(Term),
    BasicTerm(BasicTerm),
}

/// Every variable occurring in the expression is bound by the assignment
/// list.
pub open spec fn expression_all_bound(e: Expression, assignments: Seq<Assignment>) -> bool
    decreases e,
{
    match e {
        Expression::Constant(_) => true,
        Expression::Variable(v) => crate::assignment::spec_lookup(assignments, v.name@) is Some,
        Expression::BasicTerm(b) => crate::basic_term::basic_term_all_bound(b, assignments),
        Expression::TermSum(t) => crate::term_sum::term_sum_all_bound(t, assignments),
        Expression::Term(t) => crate::term::term_all_bound(t, assignments),
    }
}

/// When evaluation is owed success: it succeeds exactly when every
/// variable occurring in the expression is bound by some assignment in the
/// list — the only failure source is an unbound variable, and no failure
/// is ever swallowed.
pub proof fn lemma_evaluate_ok_iff_all_bound(e: Expression, assignments: Seq<Assignment>)
    ensures
        e.spec_evaluate(assignments) is Ok <==> expression_all_bound(e, assignments),
    decreases e,
{
    match e {
        Expression::Constant(_) => {},
        Expression::Variable(_) => {},
        Expression::BasicTerm(b) => {
            crate::basic_term::lemma_basic_term_evaluate_ok_iff_all_bound(b, assignments);
        },
        Expression::TermSum(t) => {
            crate::term_sum::lemma_term_sum_evaluate_ok_iff_all_bound(t, assignments);
        },
        Expression::Term(t) => {
            crate::term::lemma_term_evaluate_ok_iff_all_bound(t, assignments);
        },
    }
}

/// Structural equality of two expressions: the same active variant with
/// structurally equal contents.
///
/// Spec-level `==` cannot serve here: the trees hold `Vec`s, whose ghost
/// identity is finer than their contents, so structural equality is spelled
/// out recursively with each `Vec` compared through its view.
pub open spec fn expression_equal(a: Expression, b: Expression) -> bool
    decreases a,
{
    match (a, b) {
        (Expression::Constant(ca), Expression::Constant(cb)) => ca == cb,
        (Expression::Variable(va), Expression::Variable(vb)) => va.name@ == vb.name@,
        (Expression::TermSum(ta), Expression::TermSum(tb)) => crate::term_sum::term_sum_equal(
            ta,
            tb,
        ),
        (Expression::Term(ta), Expression::Term(tb)) => crate::term::term_equal(ta, tb),
        (Expression::BasicTerm(ba), Expression::BasicTerm(bb)) => crate::basic_term::basic_term_equal(
            ba,
            bb,
        ),
        _ => false,
    }
}

impl Clone for Expression {
    fn clone(&self) -> (res: Self)
        ensures
            expression_equal(res, *self),
        decreases *self,
    {
        match self {
            Expression::Constant(c) => Expression::Constant(*c),
            Expression::Variable(v) => Expression::Variable(v.clone()),
            Expression::TermSum(t) => Expression::TermSum(t.clone()),
            Expression::Term(t) => Expression::Term(t.clone()),
            Expression::BasicTerm(b) => Expression::BasicTerm(b.clone()),
        }
    }
}

impl Expression {
    /// What evaluating this node yields: the matching variant's own
    /// evaluation rule.
    pub open spec fn spec_evaluate(self, assignments: Seq<Assignment>) -> Result<Value, Seq<char>>
        decreases self,
    {
        match self {
            Expression::Constant(c) => Ok(c.spec_value()),
            Expression::Variable(v) => v.spec_evaluate(assignments),
            Expression::BasicTerm(b) => b.spec_evaluate(assignments),
            Expression::TermSum(t) => t.spec_evaluate(assignments),
            Expression::Term(t) => t.spec_evaluate(assignments),
        }
    }

    /// Dispatch to the active variant's evaluation rule.
    pub fn evaluate(&self, assignments: &Vec<Assignment>) -> (r: Result<Value, String>)
        ensures
            view_eval_result(r) == self.spec_evaluate(assignments@),
        decreases *self,
    {
        match self {
            Expression::Variable(v) => v.evaluate(assignments),
            Expression::Constant(c) => c.evaluate(assignments),
            Expression::BasicTerm(b) => b.evaluate(assignments),
            Expression::TermSum(t) => t.evaluate(assignments),
            Expression::Term(t) => t.evaluate(assignments),
        }
    }

    /// The smallest equivalent variant under the one implemented collapse
    /// rule: a sum of zero terms is the constant 0, and a sum of exactly
    /// one term is that term's own simplified form (which, terms having no
    /// collapse rule of their own, is the term itself).  Every other node
    /// is left as it stands.
    pub open spec fn spec_simplify(self) -> Expression {
        match self {
            Expression::TermSum(t) => if t.terms@.len() == 0 {
                Expression::Constant(Constant::Int(0))
            } else if t.terms@.len() == 1 {
                Expression::Term(t.terms@[0])
            } else {
                self
            },
            _ => self,
        }
    }

    /// Convert to the smallest type possible, where a sum is larger than a
    /// term and a term larger than the leaf kinds.  Only the sum-collapse
    /// rule is applied; no other reduction is performed.
    pub fn simplify_type(&self) -> (r: Expression)
        ensures
            expression_equal(r, self.spec_simplify()),
    {
        match self {
            Expression::TermSum(t) => {
                if t.terms.len() == 0 {
                    Expression::Constant(Constant::Int(0))
                } else if t.terms.len() == 1 {
                    Expression::Term(t.terms[0].clone())
                } else {
                    self.clone()
                }
            },
            _ => self.clone(),
        }
    }
}

impl From<Constant> for Expression {
    fn from(c: Constant) -> (r: Expression) {
        Expression::Constant(c)
    }
}

impl vstd::std_specs::convert::FromSpecImpl<Constant> for Expression {
    open spec fn obeys_from_spec() -> bool {
        true
    }

    open spec fn from_spec(c: Constant) -> Expression {
        Expression::Constant(c)
    }
}

impl From<Variable> for Expression {
    fn from(v: Variable) -> (r: Expression) {
        Expression::Variable(v)
    }
}

impl vstd::std_specs::convert::FromSpecImpl<Variable> for Expression {
    open spec fn obeys_from_spec() -> bool {
        true
    }

    open spec fn from_spec(v: Variable) -> Expression {
        Expression::Variable(v)
    }
}

impl From<TermSum> for Expression {
    fn from(t: TermSum) -> (r: Expression) {
        Expression::TermSum(t)
    }
}

impl vstd::std_specs::convert::FromSpecImpl<TermSum> for Expression {
    open spec fn obeys_from_spec() -> bool {
        true
    }

    open spec fn from_spec(t: TermSum) -> Expression {
        Expression::TermSum(t)
    }
}

impl From<Term> for Expression {
    fn from(t: Term) -> (r: Expression) {
        Expression::Term(t)
    }
}

impl vstd::std_specs::convert::FromSpecImpl<Term> for Expression {
    open spec fn obeys_from_spec() -> bool {
        true
    }

    open spec fn from_spec(t: Term) -> Expression {
        Expression::Term(t)
    }
}

impl From<BasicTerm> for Expression {
    fn from(b: BasicTerm) -> (r: Expression) {
        Expression::BasicTerm(b)
    }
}

impl vstd::std_specs::convert::FromSpecImpl<BasicTerm> for Expression {
    open spec fn obeys_from_spec() -> bool {
        true
    }

    open spec fn from_spec(b: BasicTerm) -> Expression {
        Expression::BasicTerm(b)
    }
}

/// Evaluation is a pure function of the tree and the assignment list: two
/// evaluations of the same immutable tree against the same assignments
/// yield identical observable results — the same numeric form on success
/// and the same message text on failure.
pub proof fn lemma_evaluate_deterministic(
    e: Expression,
    assignments: Seq<Assignment>,
    r1: Result<Value, String>,
    r2: Result<Value, String>,
)
    requires
        view_eval_result(r1) == e.spec_evaluate(assignments),
        view_eval_result(r2) == e.spec_evaluate(assignments),
    ensures
        view_eval_result(r1) == view_eval_result(r2),
{
}

/// The collapse rule, stated in full: a sum of zero terms simplifies to
/// the constant 0; a sum of exactly one term simplifies to that term's own
/// simplified form; every other expression simplifies to itself.
pub proof fn lemma_simplify_type_cases(e: Expression)
    ensures
        e matches Expression::TermSum(t) && t.terms@.len() == 0 ==> e.spec_simplify()
            == Expression::Constant(Constant::Int(0)),
        e matches Expression::TermSum(t) ==> t.terms@.len() == 1 ==> e.spec_simplify()
            == Expression::Term(t.terms@[0]).spec_simplify(),
        e matches Expression::TermSum(t) && t.terms@.len() > 1 ==> e.spec_simplify() == e,
        !(e is TermSum) ==> e.spec_simplify() == e,
{
}

} // verus!
