//! OpenAI (and OpenAI compatible) chat requests, built from stored chat messages.

use crate::provider::openai::OPENAI_API_BASE_URL;
use crate::provider::{
    assistant_tool_calls, message_tool_calls, ChatRsMessage, ChatRsMessageRole, ChatRsToolCall,
    LlmTool,
};
use crate::text::str_eq;
use vstd::prelude::*;

verus! {

/// OpenAI API request body. The sampling temperature is added where the request is sent.
#[derive(Debug)]
pub struct OpenAIRequest<'a> {
    pub model: &'a str,
    pub messages: Vec<OpenAIMessage<'a>>,
    pub max_tokens: Option<u32>,
    pub max_completion_tokens: Option<u32>,
    pub store: Option<bool>,
    pub stream: Option<bool>,
    pub stream_options: Option<OpenAIStreamOptions>,
    pub tools: Option<Vec<OpenAITool<'a>>>,
}

impl<'a> Default for OpenAIRequest<'a> {
    fn default() -> (r: Self)
        ensures
            r.model@ == ""@,
            r.messages@.len() == 0,
            r.max_tokens is None,
            r.max_completion_tokens is None,
            r.store is None,
            r.stream is None,
            r.stream_options is None,
            r.tools is None,
    {
        OpenAIRequest {
            model: "",
            messages: Vec::new(),
            max_tokens: None,
            max_completion_tokens: None,
            store: None,
            stream: None,
            stream_options: None,
            tools: None,
        }
    }
}

/// OpenAI API request stream options
#[derive(Debug)]
pub struct OpenAIStreamOptions {
    pub include_usage: bool,
}

/// OpenAI API request message
#[derive(Debug)]
pub struct OpenAIMessage<'a> {
    pub role: &'a str,
    pub content: Option<&'a str>,
    pub tool_call_id: Option<&'a str>,
    pub tool_calls: Option<Vec<OpenAIToolCall<'a>>>,
}

impl<'a> Default for OpenAIMessage<'a> {
    fn default() -> (r: Self)
        ensures
            r.role@ == ""@,
            r.content is None,
            r.tool_call_id is None,
            r.tool_calls is None,
    {
        OpenAIMessage { role: "", content: None, tool_call_id: None, tool_calls: None }
    }
}

/// OpenAI tool definition
#[derive(Debug)]
pub struct OpenAITool<'a> {
    pub tool_type: &'a str,
    pub function: OpenAIToolFunction<'a>,
}

/// OpenAI tool function definition; `parameters` is the JSON schema of the input, as JSON text.
#[derive(Debug)]
pub struct OpenAIToolFunction<'a> {
    pub name: &'a str,
    pub description: &'a str,
    pub parameters: &'a str,
    pub strict: bool,
}

/// OpenAI tool call in messages
#[derive(Debug)]
pub struct OpenAIToolCall<'a> {
    pub id: &'a str,
    pub tool_type: &'a str,
    pub function: OpenAIToolCallFunction<'a>,
}

/// OpenAI tool call function in messages; `arguments` is the JSON text of the call's input.
#[derive(Debug)]
pub struct OpenAIToolCallFunction<'a> {
    pub name: &'a str,
    pub arguments: String,
}

/// The name of a message role in the OpenAI API.
pub open spec fn role_name(r: ChatRsMessageRole) -> Seq<char> {
    match r {
        ChatRsMessageRole::User => "user"@,
        ChatRsMessageRole::Assistant => "assistant"@,
        ChatRsMessageRole::System => "system"@,
        ChatRsMessageRole::Tool => "tool"@,
    }
}

/// Whether a request tool call carries a tool call: its ID, its name and its JSON arguments.
pub open spec fn carries_call(c: OpenAIToolCall, tc: ChatRsToolCall) -> bool {
    &&& c.id@ == tc.id@
    &&& c.tool_type@ == "function"@
    &&& c.function.name@ == tc.tool_name@
    &&& c.function.arguments@ == tc.parameters@
}

/// Whether request tool calls carry the given tool calls, one for one and in order.
pub open spec fn carries_calls(cs: Seq<OpenAIToolCall>, tcs: Seq<ChatRsToolCall>) -> bool {
    cs.len() == tcs.len() && forall|i: int| 0 <= i < tcs.len() ==> carries_call(#[trigger] cs[i], tcs[i])
}

/// Whether a request message is the one for a chat message: its role and content, the ID of the
/// tool call that it answers, and the tool calls that it made.
pub open spec fn is_request_message(o: OpenAIMessage, m: ChatRsMessage) -> bool {
    &&& o.role@ == role_name(m.role)
    &&& o.content matches Some(c) && c@ == m.content@
    &&& match m.meta.tool_call {
        Some(tc) => o.tool_call_id matches Some(id) && id@ == tc.id@,
        None => o.tool_call_id is None,
    }
    &&& match assistant_tool_calls(m) {
        Some(tcs) => o.tool_calls matches Some(cs) && carries_calls(cs@, tcs),
        None => o.tool_calls is None,
    }
}

/// Each request message carries its chat message's role under the OpenAI name: `user`,
/// `assistant`, `system` or `tool`; different roles get different names.
pub proof fn law_openai_message_role<'a>(o: OpenAIMessage<'a>, m: ChatRsMessage)
    requires
        is_request_message(o, m),
    ensures
        m.role == ChatRsMessageRole::User ==> o.role@ == "user"@,
        m.role == ChatRsMessageRole::Assistant ==> o.role@ == "assistant"@,
        m.role == ChatRsMessageRole::System ==> o.role@ == "system"@,
        m.role == ChatRsMessageRole::Tool ==> o.role@ == "tool"@,
{
}

/// Different roles have different names.
pub proof fn law_openai_role_names_distinct(a: ChatRsMessageRole, b: ChatRsMessageRole)
    ensures
        a != b ==> role_name(a) != role_name(b),
{
    reveal_strlit("user");
    reveal_strlit("assistant");
    reveal_strlit("system");
    reveal_strlit("tool");
    if a != b && role_name(a) == role_name(b) {
        assert(role_name(a).len() == role_name(b).len());
        assert(role_name(a)[0] == role_name(b)[0]);
    }
}

fn role_str(r: ChatRsMessageRole) -> (s: &'static str)
    ensures
        s@ == role_name(r),
{
    match r {
        ChatRsMessageRole::User => "user",
        ChatRsMessageRole::Assistant => "assistant",
        ChatRsMessageRole::System => "system",
        ChatRsMessageRole::Tool => "tool",
    }
}

fn request_tool_calls<'a>(tool_calls: &'a Vec<ChatRsToolCall>) -> (r: Vec<OpenAIToolCall<'a>>)
    ensures
        carries_calls(r@, tool_calls@),
{
    let mut out: Vec<OpenAIToolCall<'a>> = Vec::new();
    for i in 0..tool_calls.len()
        invariant
            out@.len() == i,
            forall|k: int| 0 <= k < i ==> carries_call(#[trigger] out@[k], tool_calls@[k]),
    {
        let tc = &tool_calls[i];
        out.push(
            OpenAIToolCall {
                id: tc.id.as_str(),
                tool_type: "function",
                function: OpenAIToolCallFunction {
                    name: tc.tool_name.as_str(),
                    arguments: tc.parameters.clone(),
                },
            },
        );
    }
    out
}

fn request_message<'a>(m: &'a ChatRsMessage) -> (r: OpenAIMessage<'a>)
    ensures
        is_request_message(r, *m),
{
    let tool_call_id = match &m.meta.tool_call {
        Some(tc) => Some(tc.id.as_str()),
        None => None,
    };
    let tool_calls = match message_tool_calls(m) {
        Some(tcs) => Some(request_tool_calls(tcs)),
        None => None,
    };
    OpenAIMessage { role: role_str(m.role), content: Some(m.content.as_str()), tool_call_id, tool_calls }
}

/// Build the OpenAI messages of a conversation, one for each message, in order.
pub fn build_openai_messages<'a>(messages: &'a [ChatRsMessage]) -> (r: Vec<OpenAIMessage<'a>>)
    ensures
        r@.len() == messages@.len(),
        forall|i: int| 0 <= i < messages@.len() ==> is_request_message(#[trigger] r@[i], messages@[i]),
{
    let mut out: Vec<OpenAIMessage<'a>> = Vec::new();
    for i in 0..messages.len()
        invariant
            out@.len() == i,
            forall|k: int| 0 <= k < i ==> is_request_message(#[trigger] out@[k], messages@[k]),
    {
        out.push(request_message(&messages[i]));
    }
    out
}

/// Whether a request tool describes the given tool, as a strict function.
pub open spec fn describes_tool(t: OpenAITool, tool: LlmTool) -> bool {
    &&& t.tool_type@ == "function"@
    &&& t.function.name@ == tool.name@
    &&& t.function.description@ == tool.description@
    &&& t.function.parameters@ == tool.input_schema@
    &&& t.function.strict
}

/// Build the OpenAI tool definitions, one for each tool, in order.
pub fn build_openai_tools<'a>(tools: &'a [LlmTool]) -> (r: Vec<OpenAITool<'a>>)
    ensures
        r@.len() == tools@.len(),
        forall|i: int| 0 <= i < tools@.len() ==> describes_tool(#[trigger] r@[i], tools@[i]),
{
    let mut out: Vec<OpenAITool<'a>> = Vec::new();
    for i in 0..tools.len()
        invariant
            out@.len() == i,
            forall|k: int| 0 <= k < i ==> describes_tool(#[trigger] out@[k], tools@[k]),
    {
        let tool = &tools[i];
        out.push(
            OpenAITool {
                tool_type: "function",
                function: OpenAIToolFunction {
                    name: tool.name.as_str(),
                    description: tool.description.as_str(),
                    parameters: tool.input_schema.as_str(),
                    strict: true,
                },
            },
        );
    }
    out
}

/// The streaming chat request for a conversation. The official OpenAI API takes the maximum number
/// of tokens as `max_completion_tokens` and is asked not to store the conversation; other APIs take
/// it as `max_tokens`. Usage is asked for at the end of the stream.
pub fn build_chat_request<'a>(
    base_url: &str,
    model: &'a str,
    max_tokens: Option<u32>,
    messages: &'a [ChatRsMessage],
    tools: Option<&'a Vec<LlmTool>>,
) -> (r: OpenAIRequest<'a>)
    ensures
        r.model@ == model@,
        r.messages@.len() == messages@.len(),
        forall|i: int| 0 <= i < messages@.len() ==> is_request_message(#[trigger] r.messages@[i], messages@[i]),
        base_url@ == OPENAI_API_BASE_URL@ ==> r.max_tokens is None && r.max_completion_tokens == max_tokens
            && r.store == Some(false),
        base_url@ != OPENAI_API_BASE_URL@ ==> r.max_tokens == max_tokens && r.max_completion_tokens is None
            && r.store is None,
        r.stream == Some(true),
        r.stream_options matches Some(o) && o.include_usage,
        match tools {
            Some(ts) => r.tools matches Some(v) && v@.len() == ts@.len() && forall|i: int|
                0 <= i < ts@.len() ==> describes_tool(#[trigger] v@[i], ts@[i]),
            None => r.tools is None,
        },
{
    let official = str_eq(base_url, OPENAI_API_BASE_URL);
    let openai_tools = match tools {
        Some(ts) => Some(build_openai_tools(ts.as_slice())),
        None => None,
    };
    OpenAIRequest {
        model,
        messages: build_openai_messages(messages),
        max_tokens: if official { None } else { max_tokens },
        max_completion_tokens: if official { max_tokens } else { None },
        store: if official { Some(false) } else { None },
        stream: Some(true),
        stream_options: Some(OpenAIStreamOptions { include_usage: true }),
        tools: openai_tools,
    }
}

/// The single-prompt request: one user message holding the prompt's text, not streamed.
pub fn build_prompt_request<'a>(model: &'a str, max_tokens: Option<u32>, message: &'a str) -> (r:
    OpenAIRequest<'a>)
    ensures
        r.model@ == model@,
        r.messages@.len() == 1,
        r.messages@[0].role@ == "user"@,
        r.messages@[0].content matches Some(c) && c@ == message@,
        r.messages@[0].tool_call_id is None,
        r.messages@[0].tool_calls is None,
        r.max_tokens == max_tokens,
        r.max_completion_tokens is None,
        r.store is None,
        r.stream is None,
        r.stream_options is None,
        r.tools is None,
{
    let mut messages: Vec<OpenAIMessage<'a>> = Vec::new();
    messages.push(OpenAIMessage { role: "user", content: Some(message), tool_call_id: None, tool_calls: None });
    OpenAIRequest {
        model,
        messages,
        max_tokens,
        max_completion_tokens: None,
        store: None,
        stream: None,
        stream_options: None,
        tools: None,
    }
}

} // verus!
