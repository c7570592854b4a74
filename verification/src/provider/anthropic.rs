//! Anthropic LLM provider: request building and response parsing.

pub mod request;
pub mod response;

use vstd::prelude::*;

verus! {

/// URL of the Anthropic messages API.
pub const MESSAGES_API_URL: &'static str = "https://api.anthropic.com/v1/messages";

/// Version of the Anthropic API.
pub const API_VERSION: &'static str = "2023-06-01";

} // verus!
