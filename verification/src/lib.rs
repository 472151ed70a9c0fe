//! A lexer for ESIL, the evaluable string intermediate language of radare2.
//!
//! An ESIL expression is a comma separated list of words. Each word becomes
//! one or more [`Token`]s: operators and keywords through a fixed table,
//! compound assignments through their expansion into simpler tokens, and
//! the remaining words as internal variables, constants or identifiers.

pub mod keywords;
pub mod lexer;
pub mod number;
pub mod token;

pub use lexer::{Tokenize, Tokenizer};
pub use token::{Token, TokenView};
