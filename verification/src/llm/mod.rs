//! Talking to the LLM server.
pub mod ollama;
