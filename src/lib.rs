//! Structured reading and canonical rendering of feed event sentences.

pub mod feed_event;
pub mod parse;
pub mod text;
pub mod time;
pub mod vocab;
