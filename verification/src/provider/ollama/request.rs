//! Ollama chat requests, built from stored chat messages.

use crate::provider::{
    assistant_tool_calls, message_tool_calls, ChatRsMessage, ChatRsMessageRole, ChatRsToolCall,
    LlmTool,
};
use vstd::prelude::*;

verus! {

/// Ollama chat request. Sampling parameters given as floats are added where the request is sent.
#[derive(Debug)]
pub struct OllamaChatRequest<'a> {
    pub model: &'a str,
    pub messages: Vec<OllamaMessage<'a>>,
    pub tools: Option<Vec<OllamaTool<'a>>>,
    pub stream: Option<bool>,
    pub options: Option<OllamaOptions>,
}

/// Ollama completion request.
#[derive(Debug)]
pub struct OllamaCompletionRequest<'a> {
    pub model: &'a str,
    pub prompt: &'a str,
    pub stream: Option<bool>,
    pub options: Option<OllamaOptions>,
}

/// Ollama chat message.
#[derive(Debug)]
pub struct OllamaMessage<'a> {
    pub role: &'a str,
    pub content: &'a str,
    pub tool_calls: Option<Vec<OllamaToolCall<'a>>>,
    pub tool_name: Option<&'a str>,
}

/// Ollama tool call in a message.
#[derive(Debug)]
pub struct OllamaToolCall<'a> {
    pub function: OllamaToolFunction<'a>,
}

/// Ollama tool call function; `arguments` is the JSON text of the call's input.
#[derive(Debug)]
pub struct OllamaToolFunction<'a> {
    pub name: &'a str,
    pub arguments: &'a str,
}

/// Ollama tool definition.
#[derive(Debug)]
pub struct OllamaTool<'a> {
    pub tool_type: &'a str,
    pub function: OllamaToolSpec<'a>,
}

/// Ollama tool specification; `parameters` is the JSON schema of the input, as JSON text.
#[derive(Debug)]
pub struct OllamaToolSpec<'a> {
    pub name: &'a str,
    pub description: &'a str,
    pub parameters: &'a str,
}

/// Ollama model options with integer values (`num_predict` is Ollama's maximum number of tokens).
#[derive(Debug)]
pub struct OllamaOptions {
    pub num_predict: Option<u32>,
    pub top_k: Option<i32>,
    pub seed: Option<i32>,
}

impl Default for OllamaOptions {
    fn default() -> (r: Self)
        ensures
            r.num_predict is None,
            r.top_k is None,
            r.seed is None,
    {
        OllamaOptions { num_predict: None, top_k: None, seed: None }
    }
}

impl<'a> Default for OllamaChatRequest<'a> {
    fn default() -> (r: Self)
        ensures
            r.model@ == ""@,
            r.messages@.len() == 0,
            r.tools is None,
            r.stream is None,
            r.options is None,
    {
        OllamaChatRequest { model: "", messages: Vec::new(), tools: None, stream: None, options: None }
    }
}

/// The name of a message role in the Ollama API.
pub open spec fn role_name(r: ChatRsMessageRole) -> Seq<char> {
    match r {
        ChatRsMessageRole::User => "user"@,
        ChatRsMessageRole::Assistant => "assistant"@,
        ChatRsMessageRole::System => "system"@,
        ChatRsMessageRole::Tool => "tool"@,
    }
}

/// Whether a request tool call carries the name and arguments of a tool call.
pub open spec fn carries_call(c: OllamaToolCall, tc: ChatRsToolCall) -> bool {
    c.function.name@ == tc.tool_name@ && c.function.arguments@ == tc.parameters@
}

/// Whether request tool calls carry the given tool calls, one for one and in order.
pub open spec fn carries_calls(cs: Seq<OllamaToolCall>, tcs: Seq<ChatRsToolCall>) -> bool {
    cs.len() == tcs.len() && forall|i: int| 0 <= i < tcs.len() ==> carries_call(#[trigger] cs[i], tcs[i])
}

/// Whether a request message is the one for a chat message: its role and content; an assistant
/// message's tool calls; a tool message's tool name.
pub open spec fn is_request_message(o: OllamaMessage, m: ChatRsMessage) -> bool {
    &&& o.role@ == role_name(m.role)
    &&& o.content@ == m.content@
    &&& match (m.role, assistant_tool_calls(m)) {
        (ChatRsMessageRole::Assistant, Some(tcs)) => o.tool_calls matches Some(cs) && carries_calls(cs@, tcs),
        _ => o.tool_calls is None,
    }
    &&& match (m.role, m.meta.tool_call) {
        (ChatRsMessageRole::Tool, Some(tc)) => o.tool_name matches Some(n) && n@ == tc.tool_name@,
        _ => o.tool_name is None,
    }
}

/// Each request message carries its chat message's role under the Ollama name: `user`,
/// `assistant`, `system` or `tool`; different roles get different names.
pub proof fn law_ollama_message_role<'a>(o: OllamaMessage<'a>, m: ChatRsMessage)
    requires
        is_request_message(o, m),
    ensures
        m.role == ChatRsMessageRole::User ==> o.role@ == "user"@,
        m.role == ChatRsMessageRole::Assistant ==> o.role@ == "assistant"@,
        m.role == ChatRsMessageRole::System ==> o.role@ == "system"@,
        m.role == ChatRsMessageRole::Tool ==> o.role@ == "tool"@,
{
}

/// Different roles have different names.
pub proof fn law_ollama_role_names_distinct(a: ChatRsMessageRole, b: ChatRsMessageRole)
    ensures
        a != b ==> role_name(a) != role_name(b),
{
    reveal_strlit("user");
    reveal_strlit("assistant");
    reveal_strlit("system");
    reveal_strlit("tool");
    if a != b && role_name(a) == role_name(b) {
        assert(role_name(a).len() == role_name(b).len());
        assert(role_name(a)[0] == role_name(b)[0]);
    }
}

fn role_str(r: ChatRsMessageRole) -> (s: &'static str)
    ensures
        s@ == role_name(r),
{
    match r {
        ChatRsMessageRole::User => "user",
        ChatRsMessageRole::Assistant => "assistant",
        ChatRsMessageRole::System => "system",
        ChatRsMessageRole::Tool => "tool",
    }
}

fn request_tool_calls<'a>(tool_calls: &'a Vec<ChatRsToolCall>) -> (r: Vec<OllamaToolCall<'a>>)
    ensures
        carries_calls(r@, tool_calls@),
{
    let mut out: Vec<OllamaToolCall<'a>> = Vec::new();
    for i in 0..tool_calls.len()
        invariant
            out@.len() == i,
            forall|k: int| 0 <= k < i ==> carries_call(#[trigger] out@[k], tool_calls@[k]),
    {
        let tc = &tool_calls[i];
        out.push(
            OllamaToolCall {
                function: OllamaToolFunction {
                    name: tc.tool_name.as_str(),
                    arguments: tc.parameters.as_str(),
                },
            },
        );
    }
    out
}

fn request_message<'a>(m: &'a ChatRsMessage) -> (r: OllamaMessage<'a>)
    ensures
        is_request_message(r, *m),
{
    let mut tool_calls: Option<Vec<OllamaToolCall<'a>>> = None;
    if m.role == ChatRsMessageRole::Assistant {
        if let Some(tcs) = message_tool_calls(m) {
            tool_calls = Some(request_tool_calls(tcs));
        }
    }
    let mut tool_name: Option<&'a str> = None;
    if m.role == ChatRsMessageRole::Tool {
        if let Some(tc) = &m.meta.tool_call {
            tool_name = Some(tc.tool_name.as_str());
        }
    }
    OllamaMessage { role: role_str(m.role), content: m.content.as_str(), tool_calls, tool_name }
}

/// Build the Ollama messages of a conversation, one for each message, in order.
pub fn build_ollama_messages<'a>(messages: &'a [ChatRsMessage]) -> (r: Vec<OllamaMessage<'a>>)
    ensures
        r@.len() == messages@.len(),
        forall|i: int| 0 <= i < messages@.len() ==> is_request_message(#[trigger] r@[i], messages@[i]),
{
    let mut out: Vec<OllamaMessage<'a>> = Vec::new();
    for i in 0..messages.len()
        invariant
            out@.len() == i,
            forall|k: int| 0 <= k < i ==> is_request_message(#[trigger] out@[k], messages@[k]),
    {
        out.push(request_message(&messages[i]));
    }
    out
}

/// Whether a request tool describes the given tool, as a function.
pub open spec fn describes_tool(t: OllamaTool, tool: LlmTool) -> bool {
    &&& t.tool_type@ == "function"@
    &&& t.function.name@ == tool.name@
    &&& t.function.description@ == tool.description@
    &&& t.function.parameters@ == tool.input_schema@
}

/// Build the Ollama tool definitions, one for each tool, in order.
pub fn build_ollama_tools<'a>(tools: &'a [LlmTool]) -> (r: Vec<OllamaTool<'a>>)
    ensures
        r@.len() == tools@.len(),
        forall|i: int| 0 <= i < tools@.len() ==> describes_tool(#[trigger] r@[i], tools@[i]),
{
    let mut out: Vec<OllamaTool<'a>> = Vec::new();
    for i in 0..tools.len()
        invariant
            out@.len() == i,
            forall|k: int| 0 <= k < i ==> describes_tool(#[trigger] out@[k], tools@[k]),
    {
        let tool = &tools[i];
        out.push(
            OllamaTool {
                tool_type: "function",
                function: OllamaToolSpec {
                    name: tool.name.as_str(),
                    description: tool.description.as_str(),
                    parameters: tool.input_schema.as_str(),
                },
            },
        );
    }
    out
}

/// The streaming chat request for a conversation: the model, the messages, the tools if any, and
/// the maximum number of tokens as `num_predict`.
pub fn build_chat_request<'a>(
    model: &'a str,
    max_tokens: Option<u32>,
    messages: &'a [ChatRsMessage],
    tools: Option<&'a Vec<LlmTool>>,
) -> (r: OllamaChatRequest<'a>)
    ensures
        r.model@ == model@,
        r.messages@.len() == messages@.len(),
        forall|i: int| 0 <= i < messages@.len() ==> is_request_message(#[trigger] r.messages@[i], messages@[i]),
        match tools {
            Some(ts) => r.tools matches Some(v) && v@.len() == ts@.len() && forall|i: int|
                0 <= i < ts@.len() ==> describes_tool(#[trigger] v@[i], ts@[i]),
            None => r.tools is None,
        },
        r.stream == Some(true),
        r.options matches Some(o) && o.num_predict == max_tokens && o.top_k is None && o.seed is None,
{
    let ollama_tools = match tools {
        Some(ts) => Some(build_ollama_tools(ts.as_slice())),
        None => None,
    };
    OllamaChatRequest {
        model,
        messages: build_ollama_messages(messages),
        tools: ollama_tools,
        stream: Some(true),
        options: Some(OllamaOptions { num_predict: max_tokens, top_k: None, seed: None }),
    }
}

/// The single-prompt completion request, not streamed.
pub fn build_completion_request<'a>(model: &'a str, max_tokens: Option<u32>, prompt: &'a str) -> (r:
    OllamaCompletionRequest<'a>)
    ensures
        r.model@ == model@,
        r.prompt@ == prompt@,
        r.stream == Some(false),
        r.options matches Some(o) && o.num_predict == max_tokens && o.top_k is None && o.seed is None,
{
    OllamaCompletionRequest {
        model,
        prompt,
        stream: Some(false),
        options: Some(OllamaOptions { num_predict: max_tokens, top_k: None, seed: None }),
    }
}

} // verus!
