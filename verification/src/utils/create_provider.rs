//! Provider configurations given by users, and which API key and endpoint each one uses.

use crate::provider::lorem::{LoremConfig, LoremProvider, DEFAULT_INTERVAL_MS};
use vstd::prelude::*;

verus! {

/// Base URL of the OpenRouter API.
pub const OPENROUTER_API_BASE_URL: &'static str = "https://openrouter.ai/api/v1";

/// Provider configuration input from the API. Temperatures are the IEEE-754 bits of `f32`s.
#[derive(Debug)]
pub enum ProviderConfigInput {
    Lorem,
    Anthropic(AnthropicConfig),
    OpenAI(OpenAIConfig),
    OpenRouter(OpenRouterConfig),
    Llm(LLMConfig),
}

#[derive(Debug)]
pub struct AnthropicConfig {
    pub model: String,
    pub temperature: Option<u32>,
    pub max_tokens: Option<u32>,
}

#[derive(Debug)]
pub struct OpenAIConfig {
    pub model: String,
    pub temperature: Option<u32>,
    pub max_tokens: Option<u32>,
    pub base_url: Option<String>,
}

#[derive(Debug)]
pub struct OpenRouterConfig {
    pub model: String,
    pub temperature: Option<u32>,
    pub max_tokens: Option<u32>,
}

#[derive(Debug)]
pub struct LLMConfig {
    pub backend: LLMBackendInput,
    pub model: String,
    pub temperature: Option<u32>,
    pub max_tokens: Option<u32>,
}

/// Backends of the generic LLM provider.
#[derive(Debug, Clone, Copy, PartialEq, Eq, Structural)]
pub enum LLMBackendInput {
    OpenAI,
    Anthropic,
    Deepseek,
    Google,
}

/// Kinds of API keys that users save.
#[derive(Debug, Clone, Copy, PartialEq, Eq, Structural)]
pub enum ChatRsProviderKeyType {
    Openai,
    Anthropic,
    Openrouter,
    Deepseek,
    Google,
}

/// The kind of API key of a backend.
pub open spec fn backend_key_type(b: LLMBackendInput) -> ChatRsProviderKeyType {
    match b {
        LLMBackendInput::OpenAI => ChatRsProviderKeyType::Openai,
        LLMBackendInput::Anthropic => ChatRsProviderKeyType::Anthropic,
        LLMBackendInput::Deepseek => ChatRsProviderKeyType::Deepseek,
        LLMBackendInput::Google => ChatRsProviderKeyType::Google,
    }
}

impl LLMBackendInput {
    /// The kind of API key of the backend.
    pub fn key_type(&self) -> (r: ChatRsProviderKeyType)
        ensures
            r == backend_key_type(*self),
    {
        match self {
            LLMBackendInput::OpenAI => ChatRsProviderKeyType::Openai,
            LLMBackendInput::Anthropic => ChatRsProviderKeyType::Anthropic,
            LLMBackendInput::Deepseek => ChatRsProviderKeyType::Deepseek,
            LLMBackendInput::Google => ChatRsProviderKeyType::Google,
        }
    }
}

/// The kind of API key that a provider configuration needs; the lorem provider needs none.
pub open spec fn config_key_type(c: ProviderConfigInput) -> Option<ChatRsProviderKeyType> {
    match c {
        ProviderConfigInput::Lorem => None,
        ProviderConfigInput::Anthropic(_) => Some(ChatRsProviderKeyType::Anthropic),
        ProviderConfigInput::OpenAI(_) => Some(ChatRsProviderKeyType::Openai),
        ProviderConfigInput::OpenRouter(_) => Some(ChatRsProviderKeyType::Openrouter),
        ProviderConfigInput::Llm(l) => Some(backend_key_type(l.backend)),
    }
}

/// The kind of API key that a provider configuration needs.
pub fn key_type_for(config: &ProviderConfigInput) -> (r: Option<ChatRsProviderKeyType>)
    ensures
        r == config_key_type(*config),
{
    match config {
        ProviderConfigInput::Lorem => None,
        ProviderConfigInput::Anthropic(_) => Some(ChatRsProviderKeyType::Anthropic),
        ProviderConfigInput::OpenAI(_) => Some(ChatRsProviderKeyType::Openai),
        ProviderConfigInput::OpenRouter(_) => Some(ChatRsProviderKeyType::Openrouter),
        ProviderConfigInput::Llm(l) => Some(l.backend.key_type()),
    }
}

/// The base URL that an OpenAI-compatible configuration talks to: OpenRouter's for OpenRouter, the
/// configured one (if any) for OpenAI; `None` for the other providers and for OpenAI's default.
pub fn openai_base_url(config: &ProviderConfigInput) -> (r: Option<&str>)
    ensures
        match *config {
            ProviderConfigInput::OpenRouter(_) => r matches Some(u) && u@ == OPENROUTER_API_BASE_URL@,
            ProviderConfigInput::OpenAI(c) => match c.base_url {
                Some(b) => r matches Some(u) && u@ == b@,
                None => r is None,
            },
            _ => r is None,
        },
{
    match config {
        ProviderConfigInput::OpenRouter(_) => Some(OPENROUTER_API_BASE_URL),
        ProviderConfigInput::OpenAI(c) => match &c.base_url {
            Some(b) => Some(b.as_str()),
            None => None,
        },
        _ => None,
    }
}

/// The lorem provider that a lorem configuration makes.
pub fn lorem_provider() -> (r: LoremProvider)
    ensures
        r.config.interval == DEFAULT_INTERVAL_MS,
{
    LoremProvider { config: LoremConfig { interval: DEFAULT_INTERVAL_MS } }
}

} // verus!
