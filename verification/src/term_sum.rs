//! Sums of terms.

use vstd::prelude::*;

use crate::assignment::Assignment;
use crate::term::Term;
use crate::value::Value;
use crate::view_eval_result;

verus! {

/// An ordered sum of terms.  The sequence may be empty; an empty sum
/// evaluates to 0.
#[derive(Debug, PartialEq)]
pub struct TermSum {
    pub terms: Vec<Term>,
}

/// Every variable occurring in the sum is bound by the assignment list:
/// each term is fully bound.
pub open spec fn term_sum_all_bound(ts: TermSum, assignments: Seq<Assignment>) -> bool
    decreases ts,
{
    forall|i: int|
        0 <= i < ts.terms@.len() ==> crate::term::term_all_bound(
            #[trigger] ts.terms@[i],
            assignments,
        )
}

/// A running sum succeeds exactly when every one of its terms is fully
/// bound, whatever value the sum started from.
pub proof fn lemma_sum_ok_iff_all_bound(ts: Seq<Term>, assignments: Seq<Assignment>, acc: Value)
    ensures
        spec_eval_sum(ts, assignments, acc) is Ok <==> (forall|i: int|
            0 <= i < ts.len() ==> crate::term::term_all_bound(#[trigger] ts[i], assignments)),
    decreases ts,
{
    if ts.len() == 0 {
    } else {
        crate::term::lemma_term_evaluate_ok_iff_all_bound(ts[0], assignments);
        let rest = ts.subrange(1, ts.len() as int);
        assert(forall|i: int| 0 <= i < rest.len() ==> #[trigger] rest[i] == ts[i + 1]);
        match ts[0].spec_evaluate(assignments) {
            Err(_) => {
                assert(!crate::term::term_all_bound(ts[0], assignments));
            },
            Ok(x) => {
                lemma_sum_ok_iff_all_bound(
                    rest,
                    assignments,
                    Value::Add(Box::new(acc), Box::new(x)),
                );
                if forall|i: int|
                    0 <= i < rest.len() ==> crate::term::term_all_bound(
                        #[trigger] rest[i],
                        assignments,
                    ) {
                    assert forall|i: int|
                        0 <= i < ts.len() implies crate::term::term_all_bound(
                        #[trigger] ts[i],
                        assignments,
                    ) by {
                        if i > 0 {
                            assert(rest[i - 1] == ts[i]);
                        }
                    }
                }
            },
        }
    }
}

/// Evaluating a sum succeeds exactly when every variable occurring in it
/// is bound (an empty sum has none, and always succeeds).
pub proof fn lemma_term_sum_evaluate_ok_iff_all_bound(ts: TermSum, assignments: Seq<Assignment>)
    ensures
        ts.spec_evaluate(assignments) is Ok <==> term_sum_all_bound(ts, assignments),
    decreases ts,
{
    lemma_sum_ok_iff_all_bound(ts.terms@, assignments, Value::Int(0));
}

/// Structural equality of two sums: the same number of terms, equal
/// position by position.
pub open spec fn term_sum_equal(a: TermSum, b: TermSum) -> bool
    decreases a,
{
    a.terms@.len() == b.terms@.len() && (forall|i: int|
        0 <= i < a.terms@.len() ==> crate::term::term_equal(
            #[trigger] a.terms@[i],
            b.terms@[i],
        ))
}

impl Clone for TermSum {
    fn clone(&self) -> (res: Self)
        ensures
            term_sum_equal(res, *self),
        decreases *self,
    {
        let mut terms: Vec<Term> = Vec::new();
        let n = self.terms.len();
        let mut i: usize = 0;
        while i < n
            invariant
                n == self.terms@.len(),
                0 <= i <= n,
                terms@.len() == i,
                forall|j: int|
                    0 <= j < i ==> crate::term::term_equal(
                        #[trigger] terms@[j],
                        self.terms@[j],
                    ),
            decreases n - i,
        {
            proof {
                assert(decreases_to!(self => self.terms));
                assert(decreases_to!(self.terms => self.terms@));
                assert(decreases_to!(self.terms@ => self.terms@[i as int]));
            }
            terms.push(self.terms[i].clone());
            i = i + 1;
        }
        TermSum { terms }
    }
}

/// The result of adding the values of the terms of `ts`, in order, into a
/// running total seeded with `acc`; the first failing term aborts the scan
/// and its failure is the result.
pub open spec fn spec_eval_sum(
    ts: Seq<Term>,
    assignments: Seq<Assignment>,
    acc: Value,
) -> Result<Value, Seq<char>>
    decreases ts,
{
    if ts.len() == 0 {
        Ok(acc)
    } else {
        match ts[0].spec_evaluate(assignments) {
            Err(e) => Err(e),
            Ok(x) => spec_eval_sum(
                ts.subrange(1, ts.len() as int),
                assignments,
                Value::Add(Box::new(acc), Box::new(x)),
            ),
        }
    }
}

impl TermSum {
    pub fn new(terms: Vec<Term>) -> (r: TermSum)
        ensures
            r.terms == terms,
    {
        TermSum { terms }
    }

    /// Wrap a single term as a one-element sum.
    pub fn from(term: Term) -> (r: TermSum)
        ensures
            r.terms@ =~= seq![term],
    {
        let mut terms: Vec<Term> = Vec::new();
        terms.push(term);
        TermSum::new(terms)
    }

    /// What evaluating a sum yields: the terms' values added in order into
    /// a total seeded with 0, stopping at the first failure; an empty sum
    /// is 0.
    pub open spec fn spec_evaluate(self, assignments: Seq<Assignment>) -> Result<Value, Seq<char>>
        decreases self,
    {
        spec_eval_sum(self.terms@, assignments, Value::Int(0))
    }

    /// Evaluate every term in sequence order, adding into a running total;
    /// return the first failure unchanged.
    pub fn evaluate(&self, assignments: &Vec<Assignment>) -> (r: Result<Value, String>)
        ensures
            view_eval_result(r) == self.spec_evaluate(assignments@),
        decreases *self,
    {
        let ghost ts = self.terms@;
        let n = self.terms.len();
        let mut result = Value::Int(0);
        let mut i: usize = 0;
        proof {
            assert(ts.subrange(0, n as int) =~= ts);
        }
        while i < n
            invariant
                n == ts.len(),
                ts == self.terms@,
                0 <= i <= n,
                spec_eval_sum(ts.subrange(i as int, n as int), assignments@, result)
                    == spec_eval_sum(ts, assignments@, Value::Int(0)),
            decreases n - i,
        {
            proof {
                assert(decreases_to!(self => self.terms));
                assert(decreases_to!(self.terms => self.terms@));
                assert(decreases_to!(self.terms@ => self.terms@[i as int]));
            }
            let ghost rest = ts.subrange(i as int, n as int);
            let eval = self.terms[i].evaluate(assignments);
            proof {
                assert(rest[0] == ts[i as int]);
                assert(rest.subrange(1, rest.len() as int) =~= ts.subrange(i + 1, n as int));
            }
            match eval {
                Ok(x) => {
                    result = Value::Add(Box::new(result), Box::new(x));
                    i = i + 1;
                },
                Err(e) => {
                    return Err(e);
                },
            }
        }
        proof {
            assert(ts.subrange(n as int, n as int) =~= Seq::<Term>::empty());
        }
        Ok(result)
    }
}

/// A sum with no terms evaluates to 0.
pub proof fn lemma_empty_term_sum_evaluates_to_zero(ts: TermSum, assignments: Seq<Assignment>)
    requires
        ts.terms@.len() == 0,
    ensures
        ts.spec_evaluate(assignments) == Ok::<Value, Seq<char>>(Value::Int(0)),
{
}

} // verus!
