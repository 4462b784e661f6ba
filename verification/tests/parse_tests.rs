use expr_parser::expression::Expression;
use expr_parser::lexer::Lexer;
use expr_parser::parser::{expr, num, parse, token};

fn number(v: u8) -> Box<Expression> {
    Box::new(Expression::Number(v))
}

fn operator(op: char, left: Box<Expression>, right: Box<Expression>) -> Box<Expression> {
    Box::new(Expression::Operator { op: Box::new(Expression::Token(op)), left, right })
}

#[test]
fn parses_single_number() {
    assert_eq!(parse("7"), Some(Expression::Number(7)));
    assert_eq!(parse("  0  "), Some(Expression::Number(0)));
}

#[test]
fn parses_simple_sum() {
    assert_eq!(parse("1 + 2"), Some(*operator('+', number(1), number(2))));
}

#[test]
fn parse_is_deterministic() {
    let first = parse("1 * -2 + 3 * 4");
    let second = parse("1 * -2 + 3 * 4");
    assert_eq!(first, second);
    let first_failure = parse("x + 1");
    let second_failure = parse("x + 1");
    assert_eq!(first_failure, None);
    assert_eq!(second_failure, None);
}

#[test]
fn same_precedence_chains_associate_to_the_right() {
    let expected = operator('-', number(1), operator('-', number(2), number(3)));
    assert_eq!(parse("1 - 2 - 3"), Some(*expected));

    let expected_sum = operator('+', number(4), operator('+', number(5), number(6)));
    assert_eq!(parse("4 + 5 + 6"), Some(*expected_sum));
}

#[test]
fn leading_minus_before_an_atom_builds_a_negate_node() {
    let expected = operator('+', number(1), Box::new(Expression::Negate(number(2))));
    assert_eq!(parse("(1 + -2)"), Some(*expected));
}

#[test]
fn rejects_unrecognized_characters_at_the_start() {
    assert_eq!(parse("x + 1"), None);
    assert_eq!(parse("a"), None);
    assert_eq!(parse("+1"), None);
    assert_eq!(parse("*"), None);
    assert_eq!(parse(")1("), None);
}

#[test]
fn rejects_unbalanced_parentheses() {
    assert_eq!(parse("(1 + 2"), None);
    assert_eq!(parse("("), None);
    assert_eq!(parse("(()"), None);
}

#[test]
fn rejects_empty_and_blank_input() {
    assert_eq!(parse(""), None);
    assert_eq!(parse("   "), None);
}

#[test]
fn multi_digit_literal_is_not_one_number() {
    // Only the first digit is consumed as a complete atom; the second digit
    // stays unconsumed on the cursor.
    assert_eq!(parse("12"), Some(Expression::Number(1)));

    let mut lexer = Lexer::new("12");
    let tree = expr(&mut lexer);
    assert_eq!(tree, Some(Expression::Number(1)));
    assert_eq!(lexer.position(), 1);
}

#[test]
fn trailing_unconsumed_input_is_not_an_error() {
    assert_eq!(parse("1 x"), Some(Expression::Number(1)));
    assert_eq!(parse("1)"), Some(Expression::Number(1)));
}

#[test]
fn grouping_discards_the_parentheses() {
    assert_eq!(parse("(5)"), Some(Expression::Number(5)));
    let expected = operator('*', operator('+', number(1), number(2)), number(3));
    assert_eq!(parse("(1 + 2) * 3"), Some(*expected));
}

#[test]
fn failed_recognizer_rolls_the_cursor_back() {
    let mut lexer = Lexer::new("  x");
    assert_eq!(num(&mut lexer), None);
    assert_eq!(lexer.position(), 0);
    assert_eq!(token(&mut lexer, '('), None);
    assert_eq!(lexer.position(), 0);

    // On success the cursor stands just past the matched character.
    assert_eq!(token(&mut lexer, 'x'), Some(Expression::Token('x')));
    assert_eq!(lexer.position(), 3);
}

#[test]
fn failed_rule_rolls_the_cursor_back() {
    // `(1 + 2` makes the parenthesized alternative consume and then fail;
    // the whole parse fails with the cursor back at the entry offset.
    let mut lexer = Lexer::new("(1 + 2");
    assert_eq!(expr(&mut lexer), None);
    assert_eq!(lexer.position(), 0);
}

#[test]
fn lexer_skips_spaces_and_reports_exhaustion() {
    let mut lexer = Lexer::new(" a  b ");
    assert_eq!(lexer.next(), Some('a'));
    assert_eq!(lexer.next(), Some('b'));
    assert_eq!(lexer.next(), None);

    lexer.rollback(0);
    assert_eq!(lexer.next(), Some('a'));
}
