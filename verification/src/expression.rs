//! The expression tree produced by a successful parse, and an evaluator that
//! reduces such a tree to an exact rational value.
//!
//! The grammar builds every `Number` leaf from exactly one numeral character,
//! so leaf values are single-digit magnitudes; `Token` leaves label operators
//! and punctuation and never stand for a value of their own.

use vstd::prelude::*;

verus! {

/// The parse output: a closed sum type owning its children.
#[derive(Debug, PartialEq, Eq)]
pub enum Expression {
    /// An operator identity (a `Token` leaf holding one of `+ - * /`) with its
    /// two operands in source order.
    Operator { op: Box<Expression>, left: Box<Expression>, right: Box<Expression> },
    /// A numeric leaf, built from a single numeral character.
    Number(u8),
    /// A single matched literal character; transient, never a value.
    Token(char),
    /// Unary minus around one operand.
    Negate(Box<Expression>),
}

/// One of the four supported operator characters.
pub open spec fn is_op_char(c: char) -> bool {
    c == '+' || c == '-' || c == '*' || c == '/'
}

/// Trees the evaluator is defined on: every `Operator` node carries a `Token`
/// with one of the four operator characters, and no bare `Token` stands where
/// a value is needed. Every tree the grammar emits satisfies this.
pub open spec fn evaluable(e: Expression) -> bool
    decreases e,
{
    match e {
        Expression::Operator { op, left, right } => {
            &&& (*op) matches Expression::Token(c) && is_op_char(c)
            &&& evaluable(*left)
            &&& evaluable(*right)
        },
        Expression::Number(_) => true,
        Expression::Token(_) => false,
        Expression::Negate(inner) => evaluable(*inner),
    }
}

/// Every `Number` leaf of `e` holds a single-digit magnitude. The grammar
/// builds each `Number` from exactly one numeral character, so every tree it
/// emits satisfies this.
pub open spec fn single_digit_numbers(e: Expression) -> bool
    decreases e,
{
    match e {
        Expression::Operator { op, left, right } => single_digit_numbers(*left)
            && single_digit_numbers(*right),
        Expression::Number(v) => v <= 9,
        Expression::Token(_) => true,
        Expression::Negate(inner) => single_digit_numbers(*inner),
    }
}

/// An exact rational value: `num / den`. The evaluator does not normalize;
/// a zero denominator records a division by zero (the quotient of the two
/// fields is then undefined, as an infinite or indeterminate result).
#[derive(Debug, Clone, Copy, PartialEq, Eq, Structural)]
pub struct Rational {
    pub num: i64,
    pub den: i64,
}

/// The numerator of the exact value of `e`, computed over unbounded integers
/// alongside `eval_den`: a `Number` leaf is `value / 1`, negation flips the
/// numerator, and the four operators follow ordinary fraction arithmetic
/// without normalization.
pub open spec fn eval_num(e: Expression) -> int
    decreases e,
{
    match e {
        Expression::Operator { op, left, right } => {
            match *op {
                Expression::Token(c) => {
                    if c == '+' {
                        eval_num(*left) * eval_den(*right) + eval_num(*right) * eval_den(*left)
                    } else if c == '-' {
                        eval_num(*left) * eval_den(*right) - eval_num(*right) * eval_den(*left)
                    } else if c == '*' {
                        eval_num(*left) * eval_num(*right)
                    } else {
                        eval_num(*left) * eval_den(*right)
                    }
                },
                _ => 0,
            }
        },
        Expression::Number(v) => v as int,
        Expression::Token(_) => 0,
        Expression::Negate(inner) => -eval_num(*inner),
    }
}

/// The denominator of the exact value of `e`; see `eval_num`.
pub open spec fn eval_den(e: Expression) -> int
    decreases e,
{
    match e {
        Expression::Operator { op, left, right } => {
            match *op {
                Expression::Token(c) => {
                    if c == '/' {
                        eval_den(*left) * eval_num(*right)
                    } else {
                        eval_den(*left) * eval_den(*right)
                    }
                },
                _ => 0,
            }
        },
        Expression::Number(_) => 1,
        Expression::Token(_) => 0,
        Expression::Negate(inner) => eval_den(*inner),
    }
}

/// Whether `x` is representable as an `i64`.
pub open spec fn in_i64(x: int) -> bool {
    i64::MIN <= x <= i64::MAX
}

/// Whether the checked evaluation of `e` succeeds: at every node, each
/// product the node forms and the node's resulting numerator and denominator
/// fit in an `i64`.
pub open spec fn eval_fits(e: Expression) -> bool
    decreases e,
{
    match e {
        Expression::Operator { op, left, right } => {
            &&& eval_fits(*left)
            &&& eval_fits(*right)
            &&& {
                let n1 = eval_num(*left);
                let d1 = eval_den(*left);
                let n2 = eval_num(*right);
                let d2 = eval_den(*right);
                match *op {
                    Expression::Token(c) => {
                        if c == '+' {
                            in_i64(n1 * d2) && in_i64(n2 * d1) && in_i64(n1 * d2 + n2 * d1)
                                && in_i64(d1 * d2)
                        } else if c == '-' {
                            in_i64(n1 * d2) && in_i64(n2 * d1) && in_i64(n1 * d2 - n2 * d1)
                                && in_i64(d1 * d2)
                        } else if c == '*' {
                            in_i64(n1 * n2) && in_i64(d1 * d2)
                        } else {
                            in_i64(n1 * d2) && in_i64(d1 * n2)
                        }
                    },
                    _ => true,
                }
            }
        },
        Expression::Number(_) => true,
        Expression::Token(_) => true,
        Expression::Negate(inner) => eval_fits(*inner) && in_i64(-eval_num(*inner)),
    }
}

impl Expression {
    /// Reduces the tree to its exact rational value with checked `i64`
    /// arithmetic; `None` exactly when some intermediate value falls outside
    /// the `i64` range.
    pub fn eval(self) -> (result: Option<Rational>)
        requires
            evaluable(self),
        ensures
            result is Some <==> eval_fits(self),
            result matches Some(q) ==> q.num == eval_num(self) && q.den == eval_den(self),
        decreases self,
    {
        match self {
            Expression::Number(v) => Some(Rational { num: v as i64, den: 1 }),
            Expression::Negate(inner) => {
                match inner.eval() {
                    Some(q) => {
                        match (0i64).checked_sub(q.num) {
                            Some(n) => Some(Rational { num: n, den: q.den }),
                            None => None,
                        }
                    },
                    None => None,
                }
            },
            Expression::Operator { op, left, right } => {
                match *op {
                    Expression::Token(c) => {
                        match (left.eval(), right.eval()) {
                            (Some(l), Some(r)) => eval_op(c, l, r),
                            _ => None,
                        }
                    },
                    _ => {
                        proof {
                            assert(false);
                        }
                        None
                    },
                }
            },
            Expression::Token(_) => {
                proof {
                    assert(false);
                }
                None
            },
        }
    }
}

/// Combines the exact values of the two operands of an operator node with the
/// arithmetic operator that `c` names, with checked `i64` arithmetic.
fn eval_op(c: char, l: Rational, r: Rational) -> (result: Option<Rational>)
    requires
        is_op_char(c),
    ensures
        ({
            let n1 = l.num as int;
            let d1 = l.den as int;
            let n2 = r.num as int;
            let d2 = r.den as int;
            if c == '+' {
                &&& result is Some <==> in_i64(n1 * d2) && in_i64(n2 * d1) && in_i64(
                    n1 * d2 + n2 * d1,
                ) && in_i64(d1 * d2)
                &&& result matches Some(q) ==> q.num == n1 * d2 + n2 * d1 && q.den == d1 * d2
            } else if c == '-' {
                &&& result is Some <==> in_i64(n1 * d2) && in_i64(n2 * d1) && in_i64(
                    n1 * d2 - n2 * d1,
                ) && in_i64(d1 * d2)
                &&& result matches Some(q) ==> q.num == n1 * d2 - n2 * d1 && q.den == d1 * d2
            } else if c == '*' {
                &&& result is Some <==> in_i64(n1 * n2) && in_i64(d1 * d2)
                &&& result matches Some(q) ==> q.num == n1 * n2 && q.den == d1 * d2
            } else {
                &&& result is Some <==> in_i64(n1 * d2) && in_i64(d1 * n2)
                &&& result matches Some(q) ==> q.num == n1 * d2 && q.den == d1 * n2
            }
        }),
{
    if c == '*' {
        match (l.num.checked_mul(r.num), l.den.checked_mul(r.den)) {
            (Some(num), Some(den)) => Some(Rational { num, den }),
            _ => None,
        }
    } else if c == '/' {
        match (l.num.checked_mul(r.den), l.den.checked_mul(r.num)) {
            (Some(num), Some(den)) => Some(Rational { num, den }),
            _ => None,
        }
    } else {
        match (l.num.checked_mul(r.den), r.num.checked_mul(l.den), l.den.checked_mul(r.den)) {
            (Some(a), Some(b), Some(den)) => {
                let combined = if c == '+' {
                    a.checked_add(b)
                } else {
                    a.checked_sub(b)
                };
                match combined {
                    Some(num) => Some(Rational { num, den }),
                    None => None,
                }
            },
            _ => None,
        }
    }
}

} // verus!
