//! Evaluation behaviour: constants, variable lookup, powers, products,
//! sums, and the error model.

use math_engine::Assignment;
use math_engine::BasicTerm;
use math_engine::Constant;
use math_engine::Expression;
use math_engine::Term;
use math_engine::TermSum;
use math_engine::Value;
use math_engine::Variable;

/// Fold a closed numeric form into the double it denotes.
fn value_to_f64(v: &Value) -> f64 {
    match v {
        Value::E => std::f64::consts::E,
        Value::Pi => std::f64::consts::PI,
        Value::Decimal(bits) => f64::from_bits(*bits),
        Value::Int(n) => *n as f64,
        Value::Pow(a, b) => value_to_f64(a).powf(value_to_f64(b)),
        Value::Mul(a, b) => value_to_f64(a) * value_to_f64(b),
        Value::Add(a, b) => value_to_f64(a) + value_to_f64(b),
    }
}

#[test]
fn float_eval() {
    let x_var = Variable { name: "x".to_string() };
    let pow = Constant::E;
    let two = Constant::Int(2);
    let one = Constant::Int(1);
    let five = Constant::Int(5);

    let two = BasicTerm::new(two.as_expression(), one.as_expression());
    let five = BasicTerm::new(five.as_expression(), one.as_expression());
    let x_squared = BasicTerm::new(x_var.as_expression(), pow.as_expression());
    let two_x_squared = Term::new(vec![two, x_squared]);
    let five = Term::new(vec![five]);
    let two_x_squared_plus_five = TermSum::new(vec![two_x_squared, five]);

    // Eval at x = pi
    let pi = Constant::Pi;
    let assignment = Assignment { var: x_var, constant: pi };
    let ans = two_x_squared_plus_five.evaluate(&vec![assignment]);
    match ans {
        Ok(ans) => {
            let ans = value_to_f64(&ans);
            assert!((ans - 49.91831543f64).abs() < 1.0e-6);
        }
        Err(err) => panic!("{}", err),
    }
}

#[test]
fn constant_e_evaluates_to_euler() {
    let c = Constant::E;
    let r = c.evaluate(&vec![]).unwrap();
    assert_eq!(r, Value::E);
    assert_eq!(value_to_f64(&r), std::f64::consts::E);
}

#[test]
fn constant_pi_evaluates_to_pi() {
    let c = Constant::Pi;
    let r = c.evaluate(&vec![]).unwrap();
    assert_eq!(r, Value::Pi);
    assert_eq!(value_to_f64(&r), std::f64::consts::PI);
}

#[test]
fn constant_decimal_evaluates_to_itself() {
    let c = Constant::Decimal(2.5f64.to_bits());
    let r = c.evaluate(&vec![]).unwrap();
    assert_eq!(value_to_f64(&r), 2.5);
}

#[test]
fn constant_int_evaluates_widened() {
    let c = Constant::Int(7);
    let r = c.evaluate(&vec![]).unwrap();
    assert_eq!(r, Value::Int(7));
    assert_eq!(value_to_f64(&r), 7.0);
}

#[test]
fn constant_ignores_assignments() {
    let c = Constant::Int(7);
    let unrelated = vec![
        Assignment::new(Variable { name: "x".to_string() }, Constant::Pi),
        Assignment::new(Variable { name: "y".to_string() }, Constant::Int(3)),
    ];
    assert_eq!(c.evaluate(&unrelated).unwrap(), c.evaluate(&vec![]).unwrap());
}

#[test]
fn variable_bound_evaluates_to_constant() {
    let x = Variable { name: "x".to_string() };
    let a = vec![Assignment::new(x.clone(), Constant::Int(3))];
    assert_eq!(x.evaluate(&a).unwrap(), Value::Int(3));
}

#[test]
fn variable_bound_to_symbolic_constant() {
    // The bound constant is itself evaluated, so a symbolic binding still
    // resolves to its machine constant when folded.
    let x = Variable { name: "x".to_string() };
    let a = vec![Assignment::new(x.clone(), Constant::E)];
    let r = x.evaluate(&a).unwrap();
    assert_eq!(r, Value::E);
    assert_eq!(value_to_f64(&r), std::f64::consts::E);
}

#[test]
fn variable_first_match_wins() {
    let x = Variable { name: "x".to_string() };
    let a = vec![
        Assignment::new(x.clone(), Constant::Int(1)),
        Assignment::new(x.clone(), Constant::Int(2)),
    ];
    assert_eq!(x.evaluate(&a).unwrap(), Value::Int(1));
}

#[test]
fn variable_unbound_error_names_variable() {
    let x = Variable { name: "x".to_string() };
    let a = vec![Assignment::new(Variable { name: "y".to_string() }, Constant::Int(3))];
    let err = x.evaluate(&a).unwrap_err();
    assert_eq!(err, "Unbound variable: x");
    assert!(err.contains("x"));
}

#[test]
fn basic_term_power_evaluates() {
    let b = BasicTerm::new(
        Constant::Int(2).as_expression(),
        Constant::Int(3).as_expression(),
    );
    let r = b.evaluate(&vec![]).unwrap();
    assert_eq!(
        r,
        Value::Pow(Box::new(Value::Int(2)), Box::new(Value::Int(3)))
    );
    assert_eq!(value_to_f64(&r), 8.0);
}

#[test]
fn basic_term_single_failure_unchanged() {
    let x = Variable { name: "x".to_string() };
    let base_fails = BasicTerm::new(x.as_expression(), Constant::Int(2).as_expression());
    assert_eq!(base_fails.evaluate(&vec![]).unwrap_err(), "Unbound variable: x");

    let power_fails = BasicTerm::new(Constant::Int(2).as_expression(), x.as_expression());
    assert_eq!(power_fails.evaluate(&vec![]).unwrap_err(), "Unbound variable: x");
}

#[test]
fn basic_term_combined_error_holds_both_messages() {
    let a = Variable { name: "a".to_string() };
    let b = Variable { name: "b".to_string() };
    let both_fail = BasicTerm::new(a.as_expression(), b.as_expression());
    let err = both_fail.evaluate(&vec![]).unwrap_err();
    assert_eq!(err, "Unbound variable: a\nUnbound variable: b");
    assert!(err.contains("Unbound variable: a"));
    assert!(err.contains("Unbound variable: b"));
}

#[test]
fn empty_term_evaluates_to_zero() {
    let t = Term::new(vec![]);
    let r = t.evaluate(&vec![]).unwrap();
    assert_eq!(r, Value::Int(0));
    assert_eq!(value_to_f64(&r), 0.0);
}

#[test]
fn empty_term_sum_evaluates_to_zero() {
    let ts = TermSum::new(vec![]);
    let r = ts.evaluate(&vec![]).unwrap();
    assert_eq!(r, Value::Int(0));
    assert_eq!(value_to_f64(&r), 0.0);
}

#[test]
fn term_short_circuits_on_first_failure() {
    let x = Variable { name: "x".to_string() };
    let y = Variable { name: "y".to_string() };
    let one = Constant::Int(1).as_expression();
    let t = Term::new(vec![
        BasicTerm::new(Constant::Int(2).as_expression(), one.clone()),
        BasicTerm::new(x.as_expression(), one.clone()),
        BasicTerm::new(y.as_expression(), one),
    ]);
    // Only the first failing basic term is reported; the later unbound
    // variable is never mentioned.
    assert_eq!(t.evaluate(&vec![]).unwrap_err(), "Unbound variable: x");
}

#[test]
fn term_sum_short_circuits_on_first_failure() {
    let x = Variable { name: "x".to_string() };
    let y = Variable { name: "y".to_string() };
    let one = Constant::Int(1).as_expression();
    let ts = TermSum::new(vec![
        Term::from(BasicTerm::new(x.as_expression(), one.clone())),
        Term::from(BasicTerm::new(y.as_expression(), one)),
    ]);
    assert_eq!(ts.evaluate(&vec![]).unwrap_err(), "Unbound variable: x");
}

#[test]
fn zero_power_zero_folds_to_one() {
    // No special-casing of power = 0 or base = 0: the folded result is
    // whatever floating-point `powf` yields, here 1.
    let b = BasicTerm::new(
        Constant::Int(0).as_expression(),
        Constant::Int(0).as_expression(),
    );
    assert_eq!(value_to_f64(&b.evaluate(&vec![]).unwrap()), 1.0);
}

#[test]
fn negative_base_fractional_power_folds_to_nan() {
    // A NaN is a successful numeric result, not an error.
    let b = BasicTerm::new(
        Constant::Int(-2).as_expression(),
        Constant::Decimal(0.5f64.to_bits()).as_expression(),
    );
    let r = b.evaluate(&vec![]).unwrap();
    assert!(value_to_f64(&r).is_nan());
}

#[test]
fn evaluate_twice_yields_identical_results() {
    let x = Variable { name: "x".to_string() };
    let e = Expression::BasicTerm(BasicTerm::new(
        x.as_expression(),
        Constant::Int(2).as_expression(),
    ));
    let a = vec![Assignment::new(x, Constant::Pi)];
    assert_eq!(e.evaluate(&a), e.evaluate(&a));

    let unbound = Expression::Variable(Variable { name: "q".to_string() });
    assert_eq!(unbound.evaluate(&a), unbound.evaluate(&a));
}

#[test]
fn nested_unbound_variable_fails_from_any_depth() {
    // x sits two container levels down; its failure still surfaces, and
    // binding it makes the whole tree evaluate.
    let x = Variable { name: "x".to_string() };
    let one = Constant::Int(1).as_expression();
    let inner = Term::new(vec![BasicTerm::new(x.as_expression(), one)]);
    let b = BasicTerm::new(
        Expression::Term(inner),
        Constant::Int(2).as_expression(),
    );
    let e = Expression::TermSum(TermSum::new(vec![Term::from(b)]));

    assert_eq!(e.evaluate(&vec![]).unwrap_err(), "Unbound variable: x");

    let bound = vec![Assignment::new(Variable { name: "x".to_string() }, Constant::Int(3))];
    let r = e.evaluate(&bound).unwrap();
    // ((0 + (1 * (1 * 3)^2))) = 9
    assert_eq!(value_to_f64(&r), 9.0);
}

#[test]
fn expression_dispatches_to_each_variant() {
    let a: Vec<Assignment> = vec![];
    assert_eq!(
        Expression::Constant(Constant::Int(4)).evaluate(&a).unwrap(),
        Value::Int(4)
    );
    let t = Term::new(vec![BasicTerm::new(
        Constant::Int(3).as_expression(),
        Constant::Int(1).as_expression(),
    )]);
    let r = Expression::Term(t).evaluate(&a).unwrap();
    assert_eq!(value_to_f64(&r), 3.0);
    let ts = TermSum::new(vec![]);
    assert_eq!(Expression::TermSum(ts).evaluate(&a).unwrap(), Value::Int(0));
}
