//! A backtracking recursive-descent parser for infix arithmetic expressions
//! (single-digit numbers, `+ - * /`, unary negation, parenthesized grouping),
//! together with an exact evaluator for the trees it produces.

pub mod expression;
pub mod laws;
pub mod lexer;
pub mod parser;
