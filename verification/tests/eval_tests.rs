use expr_parser::expression::{Expression, Rational};
use expr_parser::parser::parse;

fn eval_of(input: &str) -> Rational {
    parse(input).expect("input should parse").eval().expect("value should fit")
}

#[test]
fn evaluates_the_sample_inputs() {
    assert_eq!(eval_of("1 + 2"), Rational { num: 3, den: 1 });
    assert_eq!(eval_of("(1 + -2)"), Rational { num: -1, den: 1 });
    assert_eq!(eval_of("(1 + 2) * 3"), Rational { num: 9, den: 1 });
    assert_eq!(eval_of("1 * (2 - 3)"), Rational { num: -1, den: 1 });
    assert_eq!(eval_of("1 * -2 + 3 * 4"), Rational { num: 10, den: 1 });
    assert_eq!(eval_of("(1 * 2 + (-3 + -4))"), Rational { num: -5, den: 1 });
}

#[test]
fn grouping_changes_the_value() {
    assert_eq!(eval_of("(1 + 2) * 3"), Rational { num: 9, den: 1 });
    assert_eq!(eval_of("1 + (2 + 3)"), Rational { num: 6, den: 1 });
}

#[test]
fn subtraction_chains_evaluate_right_associatively() {
    // 1 - (2 - 3), not (1 - 2) - 3.
    assert_eq!(eval_of("1 - 2 - 3"), Rational { num: 2, den: 1 });
}

#[test]
fn division_keeps_the_exact_quotient() {
    assert_eq!(eval_of("1 / 2"), Rational { num: 1, den: 2 });
    // Right-associative: 1 / (2 / 3) = 3 / 2, without normalization.
    assert_eq!(eval_of("1 / 2 / 3"), Rational { num: 3, den: 2 });
    assert_eq!(eval_of("1 + 1 / 2"), Rational { num: 3, den: 2 });
}

#[test]
fn division_by_zero_yields_a_zero_denominator() {
    assert_eq!(eval_of("1 / 0"), Rational { num: 1, den: 0 });
    assert_eq!(eval_of("0 / 0"), Rational { num: 0, den: 0 });
}

#[test]
fn negation_negates_the_operand() {
    assert_eq!(eval_of("-5"), Rational { num: -5, den: 1 });
    assert_eq!(eval_of("--5"), Rational { num: 5, den: 1 });
}

#[test]
fn evaluation_fails_only_on_i64_overflow() {
    // A product of twenty nines exceeds the i64 range.
    let mut chain = String::from("9");
    for _ in 0..19 {
        chain.push_str(" * 9");
    }
    let tree = parse(&chain).expect("the chain should parse");
    assert_eq!(tree.eval(), None);

    // A product of nineteen nines still fits.
    let mut shorter = String::from("9");
    for _ in 0..18 {
        shorter.push_str(" * 9");
    }
    let tree = parse(&shorter).expect("the chain should parse");
    assert_eq!(tree.eval(), Some(Rational { num: 9_i64.pow(19), den: 1 }));
}

#[test]
fn evaluates_a_hand_built_tree() {
    let tree = Expression::Operator {
        op: Box::new(Expression::Token('/')),
        left: Box::new(Expression::Number(7)),
        right: Box::new(Expression::Negate(Box::new(Expression::Number(2)))),
    };
    assert_eq!(tree.eval(), Some(Rational { num: 7, den: -2 }));
}
