//! OpenAI (and OpenAI compatible) LLM provider: request building and response parsing.

pub mod request;
pub mod response;

use vstd::prelude::*;

verus! {

/// Base URL of the official OpenAI API.
pub const OPENAI_API_BASE_URL: &'static str = "https://api.openai.com/v1";

/// Base URL of the OpenRouter API.
pub const OPENROUTER_API_BASE_URL: &'static str = "https://openrouter.ai/api/v1";

} // verus!
