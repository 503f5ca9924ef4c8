//! Tokenizes SQL text: splits it into keywords, identifiers, literals,
//! operators, punctuation, whitespace and comments.
//!
//! The tokenizer never fails. Text that fits no rule comes out as tokens of
//! the kinds `Illegal` and `UnclosedString`, and every byte of the text
//! belongs to exactly one token.
//!
//! The text ends before its first zero byte, the terminator, if it holds one:
//! what follows the terminator is never read and never part of a token.
//!
//! # Example
//!
//! ```ignore
//! let mut tokenizer = Tokenizer::new("SELECT * FROM t");
//! while let Some(token) = tokenizer.next() {
//!     println!("Token of kind {:?} is written {:?}", token.kind, token.text);
//! }
//! ```
//!
//! prints
//!
//! ```text
//! Token of kind Select is written "SELECT"
//! Token of kind Space is written " "
//! Token of kind Star is written "*"
//! Token of kind Space is written " "
//! Token of kind From is written "FROM"
//! Token of kind Space is written " "
//! Token of kind Id is written "t"
//! ```
//!
//! # Modules
//!
//! - [`kind`]: the kinds of tokens and their numeric codes.
//! - [`chars`]: the classes of bytes.
//! - [`keyword`]: the table of reserved words.
//! - [`grammar`]: the rules that say which token starts at a position.
//! - [`scan`]: the scanners, which compute what the grammar states.
//! - [`stream`]: the sequence of the tokens of a text.
//! - [`tokenizer`]: the cursor that hands the tokens out one by one.
//! - [`laws`]: what holds of every token.
pub mod chars;
pub mod grammar;
pub mod keyword;
pub mod kind;
pub mod laws;
pub mod scan;
pub mod stream;
pub mod tokenizer;

pub use kind::TokenKind;
pub use tokenizer::{Token, Tokenizer};
