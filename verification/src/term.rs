//! Products of basic terms.

use vstd::prelude::*;

use crate::assignment::Assignment;
use crate::basic_term::BasicTerm;
use crate::value::Value;
use crate::view_eval_result;

verus! {

/// An ordered product of basic terms.  The sequence may be empty; an empty
/// product evaluates to 0, not 1 — the additive rather than the
/// multiplicative identity, a deliberate and observable quirk of the
/// design.
#[derive(Debug, PartialEq)]
pub struct Term {
    pub basic_terms: Vec<BasicTerm>,
}

/// Every variable occurring in the product is bound by the assignment
/// list: each basic term is fully bound.
pub open spec fn term_all_bound(t: Term, assignments: Seq<Assignment>) -> bool
    decreases t,
{
    forall|i: int|
        0 <= i < t.basic_terms@.len() ==> crate::basic_term::basic_term_all_bound(
            #[trigger] t.basic_terms@[i],
            assignments,
        )
}

/// A running product succeeds exactly when every one of its basic terms is
/// fully bound, whatever value the product started from.
pub proof fn lemma_product_ok_iff_all_bound(
    bts: Seq<BasicTerm>,
    assignments: Seq<Assignment>,
    acc: Value,
)
    ensures
        spec_eval_product(bts, assignments, acc) is Ok <==> (forall|i: int|
            0 <= i < bts.len() ==> crate::basic_term::basic_term_all_bound(
                #[trigger] bts[i],
                assignments,
            )),
    decreases bts,
{
    if bts.len() == 0 {
    } else {
        crate::basic_term::lemma_basic_term_evaluate_ok_iff_all_bound(bts[0], assignments);
        let rest = bts.subrange(1, bts.len() as int);
        assert(forall|i: int| 0 <= i < rest.len() ==> #[trigger] rest[i] == bts[i + 1]);
        match bts[0].spec_evaluate(assignments) {
            Err(_) => {
                assert(!crate::basic_term::basic_term_all_bound(bts[0], assignments));
            },
            Ok(x) => {
                lemma_product_ok_iff_all_bound(
                    rest,
                    assignments,
                    Value::Mul(Box::new(acc), Box::new(x)),
                );
                if forall|i: int|
                    0 <= i < rest.len() ==> crate::basic_term::basic_term_all_bound(
                        #[trigger] rest[i],
                        assignments,
                    ) {
                    assert forall|i: int|
                        0 <= i < bts.len() implies crate::basic_term::basic_term_all_bound(
                        #[trigger] bts[i],
                        assignments,
                    ) by {
                        if i > 0 {
                            assert(rest[i - 1] == bts[i]);
                        }
                    }
                }
            },
        }
    }
}

/// Evaluating a product succeeds exactly when every variable occurring in
/// it is bound (an empty product has none, and always succeeds).
pub proof fn lemma_term_evaluate_ok_iff_all_bound(t: Term, assignments: Seq<Assignment>)
    ensures
        t.spec_evaluate(assignments) is Ok <==> term_all_bound(t, assignments),
    decreases t,
{
    if t.basic_terms@.len() > 0 {
        lemma_product_ok_iff_all_bound(t.basic_terms@, assignments, Value::Int(1));
    }
}

/// Structural equality of two products: the same number of basic terms,
/// equal position by position.
pub open spec fn term_equal(a: Term, b: Term) -> bool
    decreases a,
{
    a.basic_terms@.len() == b.basic_terms@.len() && (forall|i: int|
        0 <= i < a.basic_terms@.len() ==> crate::basic_term::basic_term_equal(
            #[trigger] a.basic_terms@[i],
            b.basic_terms@[i],
        ))
}

impl Clone for Term {
    fn clone(&self) -> (res: Self)
        ensures
            term_equal(res, *self),
        decreases *self,
    {
        let mut basic_terms: Vec<BasicTerm> = Vec::new();
        let n = self.basic_terms.len();
        let mut i: usize = 0;
        while i < n
            invariant
                n == self.basic_terms@.len(),
                0 <= i <= n,
                basic_terms@.len() == i,
                forall|j: int|
                    0 <= j < i ==> crate::basic_term::basic_term_equal(
                        #[trigger] basic_terms@[j],
                        self.basic_terms@[j],
                    ),
            decreases n - i,
        {
            proof {
                assert(decreases_to!(self => self.basic_terms));
                assert(decreases_to!(self.basic_terms => self.basic_terms@));
                assert(decreases_to!(self.basic_terms@ => self.basic_terms@[i as int]));
            }
            basic_terms.push(self.basic_terms[i].clone());
            i = i + 1;
        }
        Term { basic_terms }
    }
}

/// The result of multiplying the values of the basic terms of `bts`, in
/// order, into a running product seeded with `acc`; the first failing basic
/// term aborts the scan and its failure is the result.
pub open spec fn spec_eval_product(
    bts: Seq<BasicTerm>,
    assignments: Seq<Assignment>,
    acc: Value,
) -> Result<Value, Seq<char>>
    decreases bts,
{
    if bts.len() == 0 {
        Ok(acc)
    } else {
        match bts[0].spec_evaluate(assignments) {
            Err(e) => Err(e),
            Ok(x) => spec_eval_product(
                bts.subrange(1, bts.len() as int),
                assignments,
                Value::Mul(Box::new(acc), Box::new(x)),
            ),
        }
    }
}

impl Term {
    pub fn new(basic_terms: Vec<BasicTerm>) -> (r: Term)
        ensures
            r.basic_terms == basic_terms,
    {
        Term { basic_terms }
    }

    /// What evaluating a product yields: 0 for an empty sequence, and
    /// otherwise the basic terms' values multiplied in order into a product
    /// seeded with 1, stopping at the first failure.
    pub open spec fn spec_evaluate(self, assignments: Seq<Assignment>) -> Result<Value, Seq<char>>
        decreases self,
    {
        if self.basic_terms@.len() == 0 {
            Ok(Value::Int(0))
        } else {
            spec_eval_product(self.basic_terms@, assignments, Value::Int(1))
        }
    }

    /// Evaluate every basic term in sequence order, multiplying into a
    /// running product; return the first failure unchanged, and 0 for an
    /// empty sequence.
    pub fn evaluate(&self, assignments: &Vec<Assignment>) -> (r: Result<Value, String>)
        ensures
            view_eval_result(r) == self.spec_evaluate(assignments@),
        decreases *self,
    {
        let ghost bts = self.basic_terms@;
        let n = self.basic_terms.len();
        if n == 0 {
            return Ok(Value::Int(0));
        }
        let mut result = Value::Int(1);
        let mut i: usize = 0;
        proof {
            assert(bts.subrange(0, n as int) =~= bts);
        }
        while i < n
            invariant
                n == bts.len(),
                bts == self.basic_terms@,
                0 <= i <= n,
                spec_eval_product(bts.subrange(i as int, n as int), assignments@, result)
                    == spec_eval_product(bts, assignments@, Value::Int(1)),
            decreases n - i,
        {
            proof {
                assert(decreases_to!(self => self.basic_terms));
                assert(decreases_to!(self.basic_terms => self.basic_terms@));
                assert(decreases_to!(self.basic_terms@ => self.basic_terms@[i as int]));
            }
            let ghost rest = bts.subrange(i as int, n as int);
            let eval = self.basic_terms[i].evaluate(assignments);
            proof {
                assert(rest[0] == bts[i as int]);
                assert(rest.subrange(1, rest.len() as int) =~= bts.subrange(i + 1, n as int));
            }
            match eval {
                Ok(x) => {
                    result = Value::Mul(Box::new(result), Box::new(x));
                    i = i + 1;
                },
                Err(e) => {
                    return Err(e);
                },
            }
        }
        proof {
            assert(bts.subrange(n as int, n as int) =~= Seq::<BasicTerm>::empty());
        }
        Ok(result)
    }
}

impl Term {
    /// Wrap a single basic term as a one-element product.
    pub fn from(b: BasicTerm) -> (r: Term)
        ensures
            r.basic_terms@ =~= seq![b],
    {
        let mut basic_terms: Vec<BasicTerm> = Vec::new();
        basic_terms.push(b);
        Term::new(basic_terms)
    }
}

/// A product with no basic terms evaluates to 0, not 1.
pub proof fn lemma_empty_term_evaluates_to_zero(t: Term, assignments: Seq<Assignment>)
    requires
        t.basic_terms@.len() == 0,
    ensures
        t.spec_evaluate(assignments) == Ok::<Value, Seq<char>>(Value::Int(0)),
{
}

} // verus!
