//! The construct recognizers: chains of state functions plugged into the
//! tokenizer engine.

pub mod autolink;
pub mod character_reference;
