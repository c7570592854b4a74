//! Provider-independent types of LLM chats: tools, tool calls, usage and stream chunks.


pub mod anthropic;
pub mod llm;
pub mod lorem;
pub mod ollama;
pub mod openai;
pub mod openrouter;
pub mod providers;
pub mod sse;

use crate::ids::Uuid;
use crate::text::push_str;
use vstd::prelude::*;

verus! {

/// Default maximum number of tokens to generate.
pub const DEFAULT_MAX_TOKENS: u32 = 2000;

/// Kind of a tool offered to the LLM.
#[derive(Clone, Copy, Debug, PartialEq, Eq, Structural)]
pub enum LlmToolType {
    System,
    ExternalApi,
}

/// A tool offered to the LLM. `input_schema` is the JSON schema of the tool's input, as JSON text.
#[derive(Debug)]
pub struct LlmTool {
    pub name: String,
    pub description: String,
    pub input_schema: String,
    pub tool_id: Uuid,
    pub tool_type: LlmToolType,
}

impl Clone for LlmTool {
    fn clone(&self) -> (r: Self)
        ensures
            r == *self,
    {
        LlmTool {
            name: self.name.clone(),
            description: self.description.clone(),
            input_schema: self.input_schema.clone(),
            tool_id: self.tool_id,
            tool_type: self.tool_type,
        }
    }
}

/// A complete tool call requested by the LLM. `parameters` is the canonical JSON text of the
/// call's input object.
#[derive(Debug)]
pub struct ChatRsToolCall {
    pub id: String,
    pub tool_id: Uuid,
    pub tool_name: String,
    pub tool_type: LlmToolType,
    pub parameters: String,
}

impl Clone for ChatRsToolCall {
    fn clone(&self) -> (r: Self)
        ensures
            r == *self,
    {
        ChatRsToolCall {
            id: self.id.clone(),
            tool_id: self.tool_id,
            tool_name: self.tool_name.clone(),
            tool_type: self.tool_type,
            parameters: self.parameters.clone(),
        }
    }
}

/// A tool call that the LLM has started to stream but not yet completed.
#[derive(Debug)]
pub struct LlmPendingToolCall {
    pub index: usize,
    pub tool_name: String,
}

impl Clone for LlmPendingToolCall {
    fn clone(&self) -> (r: Self)
        ensures
            r == *self,
    {
        LlmPendingToolCall { index: self.index, tool_name: self.tool_name.clone() }
    }
}

/// Token usage reported by a provider. `cost` holds the IEEE-754 bits of the `f32` cost.
#[derive(Clone, Copy, Debug, PartialEq, Eq, Structural)]
pub struct LlmUsage {
    pub input_tokens: Option<u32>,
    pub output_tokens: Option<u32>,
    pub cost: Option<u32>,
}

impl LlmUsage {
    /// Usage with no field set.
    pub fn empty() -> (r: LlmUsage)
        ensures
            r.input_tokens is None,
            r.output_tokens is None,
            r.cost is None,
    {
        LlmUsage { input_tokens: None, output_tokens: None, cost: None }
    }
}

/// A chunk of a provider's response stream.
#[derive(Debug)]
pub enum LlmStreamChunk {
    Text(String),
    ToolCalls(Vec<ChatRsToolCall>),
    PendingToolCall(LlmPendingToolCall),
    Usage(LlmUsage),
}

/// An error in a provider's response stream.
#[derive(Debug)]
pub enum LlmStreamError {
    ProviderError(String),
    Parsing(String),
    Decoding(String),
    StreamTimeout,
    StreamCancelled,
    Transport(String),
}

/// An item of a provider's response stream.
pub type LlmStreamChunkResult = Result<LlmStreamChunk, LlmStreamError>;

/// The message of a stream error.
pub open spec fn error_message(e: LlmStreamError) -> Seq<char> {
    match e {
        LlmStreamError::ProviderError(s) => "Provider error: "@ + s@,
        LlmStreamError::Parsing(s) => "Failed to parse event: "@ + s@,
        LlmStreamError::Decoding(s) => "Failed to decode stream: "@ + s@,
        LlmStreamError::StreamTimeout => "Timeout waiting for provider response"@,
        LlmStreamError::StreamCancelled => "Stream cancelled"@,
        LlmStreamError::Transport(s) => "Stream transport error: "@ + s@,
    }
}

impl LlmStreamError {
    /// The message of the error.
    pub fn message(&self) -> (r: String)
        ensures
            r@ == error_message(*self),
    {
        match self {
            LlmStreamError::ProviderError(s) => {
                let mut r = "Provider error: ".to_string();
                push_str(&mut r, s.as_str());
                r
            },
            LlmStreamError::Parsing(s) => {
                let mut r = "Failed to parse event: ".to_string();
                push_str(&mut r, s.as_str());
                r
            },
            LlmStreamError::Decoding(s) => {
                let mut r = "Failed to decode stream: ".to_string();
                push_str(&mut r, s.as_str());
                r
            },
            LlmStreamError::StreamTimeout => "Timeout waiting for provider response".to_string(),
            LlmStreamError::StreamCancelled => "Stream cancelled".to_string(),
            LlmStreamError::Transport(s) => {
                let mut r = "Stream transport error: ".to_string();
                push_str(&mut r, s.as_str());
                r
            },
        }
    }

    pub fn is_cancelled(&self) -> (r: bool)
        ensures
            r == (*self is StreamCancelled),
    {
        match self {
            LlmStreamError::StreamCancelled => true,
            _ => false,
        }
    }
}

/// The content of a stream item, with texts taken by their characters.
pub enum ChunkView {
    Text(Seq<char>),
    ToolCalls(Seq<ChatRsToolCall>),
    PendingToolCall(usize, Seq<char>),
    Usage(LlmUsage),
    Error(LlmStreamError),
}

pub open spec fn chunk_view(c: LlmStreamChunkResult) -> ChunkView {
    match c {
        Ok(LlmStreamChunk::Text(t)) => ChunkView::Text(t@),
        Ok(LlmStreamChunk::ToolCalls(v)) => ChunkView::ToolCalls(v@),
        Ok(LlmStreamChunk::PendingToolCall(p)) => ChunkView::PendingToolCall(p.index, p.tool_name@),
        Ok(LlmStreamChunk::Usage(u)) => ChunkView::Usage(u),
        Err(e) => ChunkView::Error(e),
    }
}

pub open spec fn chunk_views(cs: Seq<LlmStreamChunkResult>) -> Seq<ChunkView> {
    cs.map_values(|c: LlmStreamChunkResult| chunk_view(c))
}

/// Errors of LLM provider requests.
#[derive(Debug)]
pub enum LlmError {
    ProviderError(String),
    NoResponse,
    ModelsDevError(String),
    NoStreamEvent,
    StreamNotFound,
    Redis(String),
}

/// Role of a chat message.
#[derive(Clone, Copy, Debug, PartialEq, Eq, Structural)]
pub enum ChatRsMessageRole {
    User,
    Assistant,
    System,
    Tool,
}

/// The options of a provider request: the model, and the temperature and maximum number of
/// tokens when set. The temperature is the bits of an `f32`.
#[derive(Debug)]
pub struct LlmProviderOptions {
    pub model: String,
    pub temperature: Option<u32>,
    pub max_tokens: Option<u32>,
}

impl Clone for LlmProviderOptions {
    fn clone(&self) -> (r: Self)
        ensures
            r == *self,
    {
        LlmProviderOptions {
            model: self.model.clone(),
            temperature: self.temperature,
            max_tokens: self.max_tokens,
        }
    }
}

/// Metadata of an assistant message.
#[derive(Debug)]
pub struct AssistantMeta {
    pub provider_id: i32,
    /// The options that the response was requested with.
    pub provider_options: Option<LlmProviderOptions>,
    pub tool_calls: Option<Vec<ChatRsToolCall>>,
    pub usage: Option<LlmUsage>,
    pub errors: Option<Vec<String>>,
    /// IDs of the files that the assistant generated.
    pub files: Option<Vec<Uuid>>,
    pub partial: Option<bool>,
}

/// Metadata of a chat message.
#[derive(Debug)]
pub struct ChatRsMessageMeta {
    /// Metadata of an assistant message.
    pub assistant: Option<AssistantMeta>,
    /// The executed tool call that a tool message answers.
    pub tool_call: Option<ChatRsToolCall>,
}

/// A stored chat message.
#[derive(Debug)]
pub struct ChatRsMessage {
    pub role: ChatRsMessageRole,
    pub content: String,
    pub meta: ChatRsMessageMeta,
}

/// The tool calls of an assistant message's metadata, if any.
pub open spec fn assistant_tool_calls(m: ChatRsMessage) -> Option<Seq<ChatRsToolCall>> {
    match m.meta.assistant {
        Some(a) => match a.tool_calls {
            Some(tcs) => Some(tcs@),
            None => None,
        },
        None => None,
    }
}

/// The tool calls of an assistant message's metadata, if any.
pub fn message_tool_calls(m: &ChatRsMessage) -> (r: Option<&Vec<ChatRsToolCall>>)
    ensures
        match r {
            Some(v) => assistant_tool_calls(*m) == Some(v@),
            None => assistant_tool_calls(*m) is None,
        },
{
    match &m.meta.assistant {
        Some(a) => match &a.tool_calls {
            Some(tcs) => Some(tcs),
            None => None,
        },
        None => None,
    }
}

/// Type of a file attached to a message.
#[derive(Clone, Copy, Debug, PartialEq, Eq, Structural)]
pub enum ChatRsFileType {
    Text,
    Image,
    Pdf,
}

/// A file attached to a user message, with its content (text, or base64 data).
#[derive(Debug)]
pub struct LlmFile {
    pub name: String,
    pub content: String,
    pub content_type: String,
    pub file_type: ChatRsFileType,
}

/// A user message.
#[derive(Debug)]
pub struct LlmUserMessage {
    pub text: String,
    pub files: Option<Vec<LlmFile>>,
}

/// An assistant message.
#[derive(Debug)]
pub struct LlmAssistantMessage {
    pub text: String,
    pub tool_calls: Option<Vec<ChatRsToolCall>>,
}

/// The result of a tool call.
#[derive(Debug)]
pub struct LlmToolResult {
    pub tool_call_id: String,
    pub tool_name: String,
    pub content: String,
}

/// A message sent to an LLM.
#[derive(Debug)]
pub enum LlmMessage {
    System(String),
    User(LlmUserMessage),
    Assistant(LlmAssistantMessage),
    Tool(LlmToolResult),
}

} // verus!
