//! An expression pipeline for a small dynamically typed language: a scanner
//! that turns source text into tokens, a recursive-descent parser that turns
//! tokens into an expression tree, and a tree-walking interpreter that reduces
//! a tree to a value.
//!
//! Numbers are decimal numerals. The interpreter settles every type question,
//! every string and every truth value that does not hang on arithmetic; what
//! does is handed back as an exact arithmetic term (`NumTerm`, `BoolTerm`)
//! whose numerals a host reads as 64-bit floats.

mod expression;
mod interpreter;
mod lexer;
mod pipeline;
mod token;

pub use expression::{parse, Expression, ParseError, ParseErrorKind, Parser};
pub use interpreter::{
    interpret, ArithOp, BoolTerm, CompareOp, NumTerm, Requirement, RuntimeError, Value,
};
pub use lexer::{scan, scan_tokens, LexError, LexErrorKind, Scan};
pub use pipeline::{evaluate_source, Failure};
pub use token::{Literal, Token, TokenType};
