//! Anthropic requests from LLM messages.

pub mod request;
