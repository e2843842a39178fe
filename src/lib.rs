//! A single-pass lexer for a small statically typed language.
//!
//! The scanner in [`lexer`] turns source text into a sequence of classified
//! [`token::Token`] values. Its behaviour is stated as a character-level state
//! machine over the source's characters (`lexer::scan_prefix`), and the
//! executable scanner is proved to follow that machine step by step.

pub mod token;
pub mod lexer;
pub mod laws;
pub mod diagnostic;

pub use lexer::{LexError, LexicalError, Lexer};
pub use token::{Assign, Operator, Statement, Symbol, Token, TypeName, TypeValue};
