//! Structural behaviour: type simplification, conversions, accessors, and
//! error concatenation.

use math_engine::Assignment;
use math_engine::BasicTerm;
use math_engine::Constant;
use math_engine::Equation;
use math_engine::Expression;
use math_engine::Term;
use math_engine::TermSum;
use math_engine::Variable;
use math_engine::concat_string_err;

#[test]
fn simplify_empty_term_sum_is_zero_constant() {
    let e = Expression::TermSum(TermSum::new(vec![]));
    assert_eq!(e.simplify_type(), Expression::Constant(Constant::Int(0)));
}

#[test]
fn simplify_single_term_sum_is_that_term() {
    let term = Term::new(vec![BasicTerm::new(
        Constant::Int(3).as_expression(),
        Constant::Int(2).as_expression(),
    )]);
    let e = Expression::TermSum(TermSum::new(vec![term.clone()]));
    assert_eq!(e.simplify_type(), Expression::Term(term));
}

#[test]
fn simplify_leaves_other_variants_unchanged() {
    let c = Expression::Constant(Constant::Pi);
    assert_eq!(c.simplify_type(), c);

    let v = Expression::Variable(Variable { name: "x".to_string() });
    assert_eq!(v.simplify_type(), v);

    let b = Expression::BasicTerm(BasicTerm::new(
        Constant::Int(2).as_expression(),
        Constant::Int(3).as_expression(),
    ));
    assert_eq!(b.simplify_type(), b);

    // A term is not collapsed, even with a single basic term.
    let t = Expression::Term(Term::from(BasicTerm::new(
        Constant::Int(2).as_expression(),
        Constant::Int(1).as_expression(),
    )));
    assert_eq!(t.simplify_type(), t);

    // A sum of two or more terms is left as it stands.
    let two_terms = Expression::TermSum(TermSum::new(vec![
        Term::new(vec![]),
        Term::new(vec![]),
    ]));
    assert_eq!(two_terms.simplify_type(), two_terms);
}

#[test]
fn concat_string_err_joins_two_errors() {
    let a: Result<i32, String> = Err("first".to_string());
    let b: Result<i32, String> = Err("second".to_string());
    assert_eq!(concat_string_err(a, b).unwrap_err(), "first\nsecond");
}

#[test]
fn concat_string_err_keeps_single_error() {
    let ok: Result<i32, String> = Ok(1);
    let err: Result<i32, String> = Err("only".to_string());
    assert_eq!(concat_string_err(ok, err).unwrap_err(), "only");

    let ok: Result<i32, String> = Ok(1);
    let err: Result<i32, String> = Err("only".to_string());
    assert_eq!(concat_string_err(err, ok).unwrap_err(), "only");
}

#[test]
fn constant_from_int() {
    assert_eq!(Constant::from(5), Constant::Int(5));
}

#[test]
fn expression_from_each_kind() {
    assert_eq!(
        Expression::from(Constant::Int(1)),
        Expression::Constant(Constant::Int(1))
    );
    let v = Variable { name: "x".to_string() };
    assert_eq!(Expression::from(v.clone()), Expression::Variable(v));
    let b = BasicTerm::new(
        Constant::Int(2).as_expression(),
        Constant::Int(3).as_expression(),
    );
    let e = Expression::from(b);
    assert!(matches!(e, Expression::BasicTerm(_)));
    let t = Term::new(vec![]);
    assert!(matches!(Expression::from(t), Expression::Term(_)));
    let ts = TermSum::new(vec![]);
    assert!(matches!(Expression::from(ts), Expression::TermSum(_)));
}

#[test]
fn basic_term_from_expression_defaults_power_to_one() {
    let e = Constant::Int(9).as_expression();
    let b = BasicTerm::from(e.clone());
    assert_eq!(*b.base, e);
    assert_eq!(*b.power, Expression::Constant(Constant::Int(1)));
}

#[test]
fn term_from_basic_term_is_singleton() {
    let b = BasicTerm::new(
        Constant::Int(2).as_expression(),
        Constant::Int(1).as_expression(),
    );
    let t = Term::from(b.clone());
    assert_eq!(t.basic_terms, vec![b]);
}

#[test]
fn term_sum_from_term_is_singleton() {
    let t = Term::new(vec![]);
    let ts = TermSum::from(t.clone());
    assert_eq!(ts.terms, vec![t]);
}

#[test]
fn assignment_accessors() {
    let x = Variable { name: "x".to_string() };
    let a = Assignment::new(x.clone(), Constant::Int(3));
    assert_eq!(*a.variable(), x);
    assert_eq!(*a.constant(), Constant::Int(3));
}

#[test]
fn equation_accessors() {
    let left = Constant::Int(1).as_expression();
    let right = Variable { name: "x".to_string() }.as_expression();
    let eq = Equation::new(left.clone(), right.clone());
    assert_eq!(*eq.left(), left);
    assert_eq!(*eq.right(), right);
}

#[test]
fn conversions_into_expression() {
    let x = Variable { name: "x".to_string() };
    assert_eq!(x.as_expression(), Expression::Variable(x.clone()));
    assert_eq!(x.clone().to_expression(), Expression::Variable(x));
    let c = Constant::Decimal(1.25f64.to_bits());
    assert_eq!(c.as_expression(), Expression::Constant(c));
    assert_eq!(c.to_expression(), Expression::Constant(c));
}

#[test]
fn clone_preserves_structure() {
    let x = Variable { name: "x".to_string() };
    let e = Expression::TermSum(TermSum::new(vec![
        Term::new(vec![
            BasicTerm::new(Constant::Int(2).as_expression(), Constant::Int(1).as_expression()),
            BasicTerm::new(x.as_expression(), Constant::E.as_expression()),
        ]),
        Term::from(BasicTerm::from(Constant::Int(5).as_expression())),
    ]));
    assert_eq!(e.clone(), e);
}
