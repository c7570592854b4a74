//! Ollama requests from LLM messages.

pub mod request;
