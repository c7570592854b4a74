//! Request building from LLM messages that may carry attached files.

pub mod anthropic;
pub mod ollama;
