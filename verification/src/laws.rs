//! Properties of the grammar, proved once and for all over the
//! specification-level parser: every tree a successful parse emits can be
//! evaluated; chains of same-precedence operators associate to the right; and
//! an input whose first significant character can start no atom is rejected.

use vstd::prelude::*;

use crate::expression::{Expression, eval_den, eval_num, evaluable, single_digit_numbers};
use crate::lexer::next_char;
use crate::parser::{
    digit_value, is_digit, op_node, spec_atom, spec_expr, spec_mul, spec_neg, spec_num, spec_parse,
    spec_sum, spec_token,
};

verus! {

/// A successful `expr` yields an evaluable tree of single-digit numbers.
pub proof fn lemma_expr_evaluable(s: Seq<char>, pos: nat)
    ensures
        spec_expr(s, pos) matches Some((e, _)) ==> evaluable(e) && single_digit_numbers(e),
    decreases s.len() - pos, 4int,
{
    lemma_sum_evaluable(s, pos);
}

/// A successful `sum` yields an evaluable tree of single-digit numbers.
pub proof fn lemma_sum_evaluable(s: Seq<char>, pos: nat)
    ensures
        spec_sum(s, pos) matches Some((e, _)) ==> evaluable(e) && single_digit_numbers(e),
    decreases s.len() - pos, 3int,
{
    lemma_mul_evaluable(s, pos);
    match spec_mul(s, pos) {
        Some((_, p1)) => {
            match next_char(s, p1) {
                Some((c, p2)) => {
                    if (c == '+' || c == '-') && pos < p2 <= s.len() {
                        lemma_sum_evaluable(s, p2);
                    }
                },
                None => {},
            }
        },
        None => {},
    }
}

/// A successful `mul` yields an evaluable tree of single-digit numbers.
pub proof fn lemma_mul_evaluable(s: Seq<char>, pos: nat)
    ensures
        spec_mul(s, pos) matches Some((e, _)) ==> evaluable(e) && single_digit_numbers(e),
    decreases s.len() - pos, 2int,
{
    lemma_atom_evaluable(s, pos);
    match spec_atom(s, pos) {
        Some((_, p1)) => {
            match next_char(s, p1) {
                Some((c, p2)) => {
                    if (c == '*' || c == '/') && pos < p2 <= s.len() {
                        lemma_mul_evaluable(s, p2);
                    }
                },
                None => {},
            }
        },
        None => {},
    }
}

/// A successful `atom` yields an evaluable tree of single-digit numbers.
pub proof fn lemma_atom_evaluable(s: Seq<char>, pos: nat)
    ensures
        spec_atom(s, pos) matches Some((e, _)) ==> evaluable(e) && single_digit_numbers(e),
    decreases s.len() - pos, 1int,
{
    match spec_token(s, pos, '(') {
        Some((_, p1)) => {
            if pos < p1 <= s.len() {
                lemma_expr_evaluable(s, p1);
            }
        },
        None => {},
    }
    lemma_neg_evaluable(s, pos);
}

/// A successful `neg` yields an evaluable tree of single-digit numbers.
pub proof fn lemma_neg_evaluable(s: Seq<char>, pos: nat)
    ensures
        spec_neg(s, pos) matches Some((e, _)) ==> evaluable(e) && single_digit_numbers(e),
    decreases s.len() - pos, 0int,
{
    match spec_token(s, pos, '-') {
        Some((_, p1)) => {
            if pos < p1 <= s.len() {
                lemma_atom_evaluable(s, p1);
            }
        },
        None => {},
    }
}

/// The tree invariant of the grammar: whatever tree `parse` returns is
/// evaluable — no bare `Token`, and no `Operator` labelled outside the four
/// operator characters, can ever reach the evaluator through a parse — and
/// every `Number` leaf holds a single-digit magnitude, since each is built
/// from exactly one numeral character.
pub proof fn lemma_parse_evaluable(s: Seq<char>)
    ensures
        spec_parse(s) matches Some(e) ==> evaluable(e) && single_digit_numbers(e),
{
    lemma_expr_evaluable(s, 0);
}

/// Chains of same-precedence operators associate to the right: for any
/// digits `a`, `b`, `c`, the input `a - b - c` parses as
/// `a - (b - c)`, and the tree's exact value is `a - (b - c)`,
/// not `(a - b) - c`. This falls out of `sum` recursing into itself on the
/// right operand, and holds of `+`, `*` and `/` chains for the same reason.
pub proof fn lemma_right_associative(a: char, b: char, c: char)
    ensures
        is_digit(a) && is_digit(b) && is_digit(c) ==> ({
            let s = seq![a, ' ', '-', ' ', b, ' ', '-', ' ', c];
            let inner = op_node(
                '-',
                Expression::Number(digit_value(b)),
                Expression::Number(digit_value(c)),
            );
            let tree = op_node('-', Expression::Number(digit_value(a)), inner);
            &&& spec_parse(s) == Some(tree)
            &&& eval_num(tree) == digit_value(a) - (digit_value(b) - digit_value(c))
            &&& eval_den(tree) == 1
        }),
{
    if is_digit(a) && is_digit(b) && is_digit(c) {
        let s = seq![a, ' ', '-', ' ', b, ' ', '-', ' ', c];
        let na = Expression::Number(digit_value(a));
        let nb = Expression::Number(digit_value(b));
        let nc = Expression::Number(digit_value(c));

        assert(next_char(s, 0) == Some((a, 1nat)));
        assert(next_char(s, 2) == Some(('-', 3nat)));
        assert(next_char(s, 1) == Some(('-', 3nat)));
        assert(next_char(s, 4) == Some((b, 5nat)));
        assert(next_char(s, 3) == Some((b, 5nat)));
        assert(next_char(s, 6) == Some(('-', 7nat)));
        assert(next_char(s, 5) == Some(('-', 7nat)));
        assert(next_char(s, 8) == Some((c, 9nat)));
        assert(next_char(s, 7) == Some((c, 9nat)));
        assert(next_char(s, 9) == None::<(char, nat)>);

        assert(spec_atom(s, 7) == Some((nc, 9nat)));
        assert(spec_mul(s, 7) == Some((nc, 9nat)));
        assert(spec_sum(s, 7) == Some((nc, 9nat)));

        assert(spec_atom(s, 3) == Some((nb, 5nat)));
        assert(spec_mul(s, 3) == Some((nb, 5nat)));
        assert(spec_sum(s, 3) == Some((op_node('-', nb, nc), 9nat)));

        assert(spec_atom(s, 0) == Some((na, 1nat)));
        assert(spec_mul(s, 0) == Some((na, 1nat)));
        assert(spec_sum(s, 0) == Some((op_node('-', na, op_node('-', nb, nc)), 9nat)));
        assert(spec_expr(s, 0) == Some((op_node('-', na, op_node('-', nb, nc)), 9nat)));

        assert(eval_num(na) == digit_value(a) && eval_den(na) == 1);
        assert(eval_num(nb) == digit_value(b) && eval_den(nb) == 1);
        assert(eval_num(nc) == digit_value(c) && eval_den(nc) == 1);
        let folded = op_node('-', nb, nc);
        let tree = op_node('-', na, folded);
        assert(eval_num(folded) == digit_value(b) - digit_value(c));
        assert(eval_den(folded) == 1);
        assert(eval_num(tree) == eval_num(na) * eval_den(folded) - eval_num(folded) * eval_den(
            na,
        ));
        assert(eval_num(tree) == digit_value(a) - (digit_value(b) - digit_value(c)));
        assert(eval_den(tree) == 1);
    }
}

/// Rejection: when the next significant character of the input cannot start
/// an atom — it is not a digit, not `(` and not `-` — or the input holds only
/// spaces, the parse yields nothing. In particular an input whose first
/// significant character lies outside the recognized alphabet is rejected.
pub proof fn lemma_rejects_bad_start(s: Seq<char>)
    requires
        match next_char(s, 0) {
            Some((c, _)) => !is_digit(c) && c != '(' && c != '-',
            None => true,
        },
    ensures
        spec_parse(s) == None::<Expression>,
{
    assert(spec_token(s, 0, '(') == None::<(Expression, nat)>);
    assert(spec_num(s, 0) == None::<(Expression, nat)>);
    assert(spec_neg(s, 0) == None::<(Expression, nat)>);
    assert(spec_atom(s, 0) == None::<(Expression, nat)>);
    assert(spec_mul(s, 0) == None::<(Expression, nat)>);
    assert(spec_sum(s, 0) == None::<(Expression, nat)>);
    assert(spec_expr(s, 0) == None::<(Expression, nat)>);
}

} // verus!
