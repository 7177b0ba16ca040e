//! Inline lexical core of a CommonMark-style markdown engine: a resumable,
//! backtracking, byte-oriented tokenizer with two construct recognizers
//! (autolinks and character references), a named-reference table, and the
//! numeric decode used downstream of the character-reference recognizer.

pub mod char_class;
pub mod construct;
pub mod decode;
pub mod driver;
pub mod entity;
pub mod grammar;
pub mod laws;
pub mod state;
pub mod token;
pub mod tokenizer;
