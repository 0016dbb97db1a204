//! A four-symbol code-breaking game: codes read from text, the feedback a
//! guess gets against the hidden code, and the board that records each round.

pub mod board;
pub mod code;
pub mod color;
pub mod score;
mod text;
