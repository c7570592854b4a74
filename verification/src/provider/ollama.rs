//! Ollama LLM provider: request building and response parsing.

pub mod request;
pub mod response;

use vstd::prelude::*;

verus! {

/// Path of the Ollama chat API.
pub const CHAT_API_URL: &'static str = "/api/chat";

} // verus!
