//! A streaming HTML5 tokenizer with verified contracts.
//!
//! The input is held as a sequence of characters; every scan, slice and
//! decision of the tokenizer is stated over that sequence. Tokens are pulled
//! one at a time with `RustTokenizer::next_token`.
pub mod attributes;
pub mod chars;
pub mod entities;
pub mod laws;
mod entity_data;
pub mod token;
pub mod tokenizer;

pub use token::{HTMLToken, PendingBuffer, TokenKind};
pub use tokenizer::{RustTokenizer, TokenizerState};
