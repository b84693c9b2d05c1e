//! Speech-to-text results.
pub mod whisper;
