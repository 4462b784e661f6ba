//! The grammar, as mutually recursive parsing rules over the cursor:
//!
//! ```text
//! expr = sum
//! sum  = mul '+' sum | mul '-' sum | mul
//! mul  = atom '*' mul | atom '/' mul | atom
//! atom = '(' expr ')' | number | neg
//! neg  = '-' atom
//! ```
//!
//! Alternatives are ordered choice: the first candidate to succeed wins, and
//! the cursor is rolled back to the shared entry offset between attempts.
//! A sequence rolls back to its entry offset as soon as one part fails.
//!
//! Each executable rule is specified against a specification-level parser
//! (`spec_expr` and companions) that maps the input sequence and an offset to
//! the exact result the rule returns, so parsing is a function of the input
//! alone: the same input always yields the same tree or the same failure.

use vstd::prelude::*;

use crate::expression::Expression;
use crate::lexer::{Lexer, next_char};

verus! {

/// Whether `c` is a decimal digit.
pub open spec fn is_digit(c: char) -> bool {
    '0' <= c && c <= '9'
}

/// The numeric value of a decimal digit character.
pub open spec fn digit_value(c: char) -> u8
    recommends
        is_digit(c),
{
    (c as u8 - '0' as u8) as u8
}

/// An operator node labelled by the operator character `c`.
pub open spec fn op_node(c: char, left: Expression, right: Expression) -> Expression {
    Expression::Operator {
        op: Box::new(Expression::Token(c)),
        left: Box::new(left),
        right: Box::new(right),
    }
}

/// What `num` returns on `s` at offset `pos`: a `Number` leaf when the next
/// non-space character is a digit, failure otherwise.
pub open spec fn spec_num(s: Seq<char>, pos: nat) -> Option<(Expression, nat)> {
    match next_char(s, pos) {
        Some((c, p)) => {
            if is_digit(c) {
                Some((Expression::Number(digit_value(c)), p))
            } else {
                None
            }
        },
        None => None,
    }
}

/// What `token` returns on `s` at offset `pos`: a `Token` leaf when the next
/// non-space character equals `t`, failure otherwise.
pub open spec fn spec_token(s: Seq<char>, pos: nat, t: char) -> Option<(Expression, nat)> {
    match next_char(s, pos) {
        Some((c, p)) => {
            if c == t {
                Some((Expression::Token(c), p))
            } else {
                None
            }
        },
        None => None,
    }
}

/// What `expr` returns on `s` at offset `pos`.
pub open spec fn spec_expr(s: Seq<char>, pos: nat) -> Option<(Expression, nat)>
    decreases s.len() - pos, 4int,
{
    spec_sum(s, pos)
}

/// What `sum` returns on `s` at offset `pos`. The offset-bound guards before
/// each recursion hold of every successful sub-parse — a rule that succeeds
/// consumes at least one character and never runs past the end — so they
/// never alter the result; they only exhibit the decrease of the remaining
/// input.
pub open spec fn spec_sum(s: Seq<char>, pos: nat) -> Option<(Expression, nat)>
    decreases s.len() - pos, 3int,
{
    match spec_mul(s, pos) {
        Some((left, p1)) => {
            match next_char(s, p1) {
                Some((c, p2)) => {
                    if (c == '+' || c == '-') && pos < p2 <= s.len() {
                        match spec_sum(s, p2) {
                            Some((right, p3)) => Some((op_node(c, left, right), p3)),
                            None => Some((left, p1)),
                        }
                    } else {
                        Some((left, p1))
                    }
                },
                None => Some((left, p1)),
            }
        },
        None => None,
    }
}

/// What `mul` returns on `s` at offset `pos`.
pub open spec fn spec_mul(s: Seq<char>, pos: nat) -> Option<(Expression, nat)>
    decreases s.len() - pos, 2int,
{
    match spec_atom(s, pos) {
        Some((left, p1)) => {
            match next_char(s, p1) {
                Some((c, p2)) => {
                    if (c == '*' || c == '/') && pos < p2 <= s.len() {
                        match spec_mul(s, p2) {
                            Some((right, p3)) => Some((op_node(c, left, right), p3)),
                            None => Some((left, p1)),
                        }
                    } else {
                        Some((left, p1))
                    }
                },
                None => Some((left, p1)),
            }
        },
        None => None,
    }
}

/// What `atom` returns on `s` at offset `pos`: the first of a parenthesized
/// sub-expression (which yields the inner tree alone), a number, or a
/// negation to succeed.
pub open spec fn spec_atom(s: Seq<char>, pos: nat) -> Option<(Expression, nat)>
    decreases s.len() - pos, 1int,
{
    let parenthesized = match spec_token(s, pos, '(') {
        Some((_, p1)) => {
            if pos < p1 <= s.len() {
                match spec_expr(s, p1) {
                    Some((inner, p2)) => {
                        match spec_token(s, p2, ')') {
                            Some((_, p3)) => Some((inner, p3)),
                            None => None,
                        }
                    },
                    None => None,
                }
            } else {
                None
            }
        },
        None => None,
    };
    match parenthesized {
        Some(r) => Some(r),
        None => {
            match spec_num(s, pos) {
                Some(r) => Some(r),
                None => spec_neg(s, pos),
            }
        },
    }
}

/// What `neg` returns on `s` at offset `pos`: a `Negate` node around the atom
/// after a `-`.
pub open spec fn spec_neg(s: Seq<char>, pos: nat) -> Option<(Expression, nat)>
    decreases s.len() - pos, 0int,
{
    match spec_token(s, pos, '-') {
        Some((_, p1)) => {
            if pos < p1 <= s.len() {
                match spec_atom(s, p1) {
                    Some((operand, p2)) => Some((Expression::Negate(Box::new(operand)), p2)),
                    None => None,
                }
            } else {
                None
            }
        },
        None => None,
    }
}

/// What `parse` returns on the input `s`.
pub open spec fn spec_parse(s: Seq<char>) -> Option<Expression> {
    match spec_expr(s, 0) {
        Some((e, _)) => Some(e),
        None => None,
    }
}

/// The contract every recognizer and rule obeys, tying its result to the
/// specification-level parser `sp` evaluated at the entry state: on success
/// the cursor stands exactly past the characters consumed, strictly beyond
/// the entry offset; on failure the cursor is rolled back to the entry
/// offset.
pub open spec fn rule_post(
    entry: Lexer,
    exit: Lexer,
    r: Option<Expression>,
    sp: Option<(Expression, nat)>,
) -> bool {
    &&& exit.wf()
    &&& exit.chars() == entry.chars()
    &&& match sp {
        Some((e, p)) => r == Some(e) && exit.offset() == p && entry.offset() < p,
        None => r == None::<Expression> && exit.offset() == entry.offset(),
    }
}

/// Matches one digit character and converts it to a `Number` leaf; otherwise
/// rolls back and fails.
pub fn num(lexer: &mut Lexer) -> (result: Option<Expression>)
    requires
        old(lexer).wf(),
    ensures
        rule_post(
            *old(lexer),
            *final(lexer),
            result,
            spec_num(old(lexer).chars(), old(lexer).offset()),
        ),
{
    proof {
        crate::lexer::lemma_next_char_advances(old(lexer).chars(), old(lexer).offset());
    }
    let parser_pos = lexer.position();

    match lexer.next() {
        Some(c) => {
            if '0' <= c && c <= '9' {
                let value: u32 = c as u32;
                Some(Expression::Number((value - 48) as u8))
            } else {
                lexer.rollback(parser_pos);
                None
            }
        },
        None => {
            lexer.rollback(parser_pos);
            None
        },
    }
}

/// Matches one literal character `token_char` and returns it as a `Token`
/// leaf; otherwise rolls back and fails.
pub fn token(lexer: &mut Lexer, token_char: char) -> (result: Option<Expression>)
    requires
        old(lexer).wf(),
    ensures
        rule_post(
            *old(lexer),
            *final(lexer),
            result,
            spec_token(old(lexer).chars(), old(lexer).offset(), token_char),
        ),
{
    proof {
        crate::lexer::lemma_next_char_advances(old(lexer).chars(), old(lexer).offset());
    }
    let parser_pos = lexer.position();

    match lexer.next() {
        Some(c) => {
            if c == token_char {
                Some(Expression::Token(c))
            } else {
                lexer.rollback(parser_pos);
                None
            }
        },
        None => {
            lexer.rollback(parser_pos);
            None
        },
    }
}

/// Assembles an `Operator` node from the three results of a sequence: left
/// operand, operator token, right operand.
pub fn make_operator(left: Expression, op: Expression, right: Expression) -> (result: Option<
    Expression,
>)
    ensures
        result matches Some(e) && e == (Expression::Operator {
            op: Box::new(op),
            left: Box::new(left),
            right: Box::new(right),
        }),
{
    Some(Expression::Operator { op: Box::new(op), left: Box::new(left), right: Box::new(right) })
}

/// Wraps the operand of a parsed negation in a `Negate` node; the matched
/// `-` token itself is discarded.
pub fn negate(_neg_token: Expression, number: Expression) -> (result: Option<Expression>)
    ensures
        result matches Some(e) && e == Expression::Negate(Box::new(number)),
{
    Some(Expression::Negate(Box::new(number)))
}

/// The top rule: `expr = sum`.
pub fn expr(lexer: &mut Lexer) -> (result: Option<Expression>)
    requires
        old(lexer).wf(),
    ensures
        rule_post(
            *old(lexer),
            *final(lexer),
            result,
            spec_expr(old(lexer).chars(), old(lexer).offset()),
        ),
    decreases lexer.chars().len() - lexer.offset(), 4int,
{
    sum(lexer)
}

/// `sum = mul '+' sum | mul '-' sum | mul`.
pub fn sum(lexer: &mut Lexer) -> (result: Option<Expression>)
    requires
        old(lexer).wf(),
    ensures
        rule_post(
            *old(lexer),
            *final(lexer),
            result,
            spec_sum(old(lexer).chars(), old(lexer).offset()),
        ),
    decreases lexer.chars().len() - lexer.offset(), 3int,
{
    let parser_pos = lexer.position();

    if let Some(left) = crate::parser::mul(lexer) {
        if let Some(op) = token(lexer, '+') {
            if let Some(right) = sum(lexer) {
                return make_operator(left, op, right);
            }
        }
    }
    lexer.rollback(parser_pos);

    if let Some(left) = crate::parser::mul(lexer) {
        if let Some(op) = token(lexer, '-') {
            if let Some(right) = sum(lexer) {
                return make_operator(left, op, right);
            }
        }
    }
    lexer.rollback(parser_pos);

    if let Some(left) = crate::parser::mul(lexer) {
        return Some(left);
    }
    lexer.rollback(parser_pos);

    None
}

/// `mul = atom '*' mul | atom '/' mul | atom`.
pub fn mul(lexer: &mut Lexer) -> (result: Option<Expression>)
    requires
        old(lexer).wf(),
    ensures
        rule_post(
            *old(lexer),
            *final(lexer),
            result,
            spec_mul(old(lexer).chars(), old(lexer).offset()),
        ),
    decreases lexer.chars().len() - lexer.offset(), 2int,
{
    let parser_pos = lexer.position();

    if let Some(left) = atom(lexer) {
        if let Some(op) = token(lexer, '*') {
            if let Some(right) = crate::parser::mul(lexer) {
                return make_operator(left, op, right);
            }
        }
    }
    lexer.rollback(parser_pos);

    if let Some(left) = atom(lexer) {
        if let Some(op) = token(lexer, '/') {
            if let Some(right) = crate::parser::mul(lexer) {
                return make_operator(left, op, right);
            }
        }
    }
    lexer.rollback(parser_pos);

    if let Some(left) = atom(lexer) {
        return Some(left);
    }
    lexer.rollback(parser_pos);

    None
}

/// `atom = '(' expr ')' | number | neg`; the parenthesized alternative
/// discards the two punctuation leaves and yields the inner tree alone.
pub fn atom(lexer: &mut Lexer) -> (result: Option<Expression>)
    requires
        old(lexer).wf(),
    ensures
        rule_post(
            *old(lexer),
            *final(lexer),
            result,
            spec_atom(old(lexer).chars(), old(lexer).offset()),
        ),
    decreases lexer.chars().len() - lexer.offset(), 1int,
{
    let parser_pos = lexer.position();

    if let Some(_lparen) = token(lexer, '(') {
        if let Some(inner) = expr(lexer) {
            if let Some(_rparen) = token(lexer, ')') {
                return Some(inner);
            }
        }
    }
    lexer.rollback(parser_pos);

    if let Some(number) = num(lexer) {
        return Some(number);
    }
    lexer.rollback(parser_pos);

    if let Some(negation) = neg(lexer) {
        return Some(negation);
    }
    lexer.rollback(parser_pos);

    None
}

/// `neg = '-' atom`.
pub fn neg(lexer: &mut Lexer) -> (result: Option<Expression>)
    requires
        old(lexer).wf(),
    ensures
        rule_post(
            *old(lexer),
            *final(lexer),
            result,
            spec_neg(old(lexer).chars(), old(lexer).offset()),
        ),
    decreases lexer.chars().len() - lexer.offset(), 0int,
{
    let parser_pos = lexer.position();

    if let Some(neg_token) = token(lexer, '-') {
        if let Some(operand) = atom(lexer) {
            return negate(neg_token, operand);
        }
    }
    lexer.rollback(parser_pos);

    None
}

/// The parse entry point: runs the top rule over a fresh cursor on `input`.
/// The result is a function of the input characters alone, so parsing the
/// same input twice yields identical results. A structurally complete match
/// need not consume the whole input; trailing unconsumed characters are the
/// caller's concern.
pub fn parse(input: &str) -> (result: Option<Expression>)
    ensures
        result == spec_parse(input@),
{
    let mut lexer = Lexer::new(input);
    expr(&mut lexer)
}

} // verus!
