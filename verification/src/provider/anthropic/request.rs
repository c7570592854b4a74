//! Anthropic API requests, built from stored chat messages.

use crate::provider::anthropic::response::{AnthropicResponse, AnthropicResponseContentBlock};
use crate::provider::{
    assistant_tool_calls, message_tool_calls, ChatRsMessage, ChatRsMessageRole, ChatRsToolCall,
    LlmError, LlmTool, DEFAULT_MAX_TOKENS,
};
use vstd::prelude::*;

verus! {

/// Anthropic API request message
#[derive(Debug)]
pub struct AnthropicMessage<'a> {
    pub role: &'a str,
    pub content: Vec<AnthropicContentBlock<'a>>,
}

/// Anthropic API request body. The sampling temperature is added where the request is sent.
#[derive(Debug)]
pub struct AnthropicRequest<'a> {
    pub model: &'a str,
    pub messages: Vec<AnthropicMessage<'a>>,
    pub max_tokens: u32,
    pub system: Option<&'a str>,
    pub stream: Option<bool>,
    pub tools: Option<Vec<AnthropicTool<'a>>>,
}

/// Anthropic tool definition. `input_schema` is JSON text.
#[derive(Debug)]
pub struct AnthropicTool<'a> {
    pub name: &'a str,
    pub description: &'a str,
    pub input_schema: &'a str,
}

/// Anthropic content block for messages. A tool use's `input` is the JSON text of its
/// parameters.
#[derive(Debug)]
pub enum AnthropicContentBlock<'a> {
    Text { text: &'a str },
    ToolUse { id: &'a str, name: &'a str, input: &'a str },
    ToolResult { tool_use_id: &'a str, content: &'a str },
}

/// A content block, with texts taken by their characters.
pub enum BlockView {
    Text(Seq<char>),
    ToolUse(Seq<char>, Seq<char>, Seq<char>),
    ToolResult(Seq<char>, Seq<char>),
}

pub open spec fn block_view(b: AnthropicContentBlock) -> BlockView {
    match b {
        AnthropicContentBlock::Text { text } => BlockView::Text(text@),
        AnthropicContentBlock::ToolUse { id, name, input } => BlockView::ToolUse(id@, name@, input@),
        AnthropicContentBlock::ToolResult { tool_use_id, content } => BlockView::ToolResult(
            tool_use_id@,
            content@,
        ),
    }
}

pub open spec fn blocks_view(bs: Seq<AnthropicContentBlock>) -> Seq<BlockView> {
    bs.map_values(|b: AnthropicContentBlock| block_view(b))
}

/// A request message, with texts taken by their characters.
pub struct MessageView {
    pub role: Seq<char>,
    pub content: Seq<BlockView>,
}

pub open spec fn message_view(m: AnthropicMessage) -> MessageView {
    MessageView { role: m.role@, content: blocks_view(m.content@) }
}

pub open spec fn messages_view(ms: Seq<AnthropicMessage>) -> Seq<MessageView> {
    ms.map_values(|m: AnthropicMessage| message_view(m))
}

/// The role of a message in the Anthropic API; system messages are sent apart.
pub open spec fn anthropic_role(r: ChatRsMessageRole) -> Option<Seq<char>> {
    match r {
        ChatRsMessageRole::User => Some("user"@),
        ChatRsMessageRole::Tool => Some("user"@),
        ChatRsMessageRole::Assistant => Some("assistant"@),
        ChatRsMessageRole::System => None,
    }
}

/// In the Anthropic API, assistant messages are sent as `assistant`, user and tool messages as
/// `user`, and system messages are not sent among the messages.
pub proof fn law_anthropic_roles()
    ensures
        anthropic_role(ChatRsMessageRole::Assistant) == Some("assistant"@),
        anthropic_role(ChatRsMessageRole::User) == Some("user"@),
        anthropic_role(ChatRsMessageRole::Tool) == Some("user"@),
        anthropic_role(ChatRsMessageRole::System) is None,
        "assistant"@ != "user"@,
{
    reveal_strlit("assistant");
    reveal_strlit("user");
    assert("assistant"@.len() != "user"@.len());
}

pub open spec fn tool_use_view(tc: ChatRsToolCall) -> BlockView {
    BlockView::ToolUse(tc.id@, tc.tool_name@, tc.parameters@)
}

/// The content blocks of a message: a tool message carries the result of the tool call it
/// answers; other messages carry their text (when not empty) and the tool calls they made.
pub open spec fn anthropic_blocks(m: ChatRsMessage) -> Seq<BlockView> {
    if m.role == ChatRsMessageRole::Tool {
        match m.meta.tool_call {
            Some(tc) => seq![BlockView::ToolResult(tc.id@, m.content@)],
            None => Seq::empty(),
        }
    } else {
        let text: Seq<BlockView> = if m.content@.len() > 0 {
            seq![BlockView::Text(m.content@)]
        } else {
            Seq::empty()
        };
        let uses: Seq<BlockView> = match assistant_tool_calls(m) {
            Some(tcs) => tcs.map_values(|tc: ChatRsToolCall| tool_use_view(tc)),
            None => Seq::empty(),
        };
        text + uses
    }
}

/// The request message for a chat message; system messages and messages without content are
/// left out.
pub open spec fn anthropic_message(m: ChatRsMessage) -> Option<MessageView> {
    match anthropic_role(m.role) {
        Some(role) => if anthropic_blocks(m).len() > 0 {
            Some(MessageView { role, content: anthropic_blocks(m) })
        } else {
            None
        },
        None => None,
    }
}

/// The request messages for a conversation, in order.
pub open spec fn anthropic_messages(ms: Seq<ChatRsMessage>) -> Seq<MessageView>
    decreases ms.len(),
{
    if ms.len() == 0 {
        Seq::empty()
    } else {
        anthropic_messages(ms.drop_last()) + match anthropic_message(ms.last()) {
            Some(v) => seq![v],
            None => Seq::empty(),
        }
    }
}

/// The content of the last system message, if any.
pub open spec fn last_system_prompt(ms: Seq<ChatRsMessage>) -> Option<Seq<char>>
    decreases ms.len(),
{
    if ms.len() == 0 {
        None
    } else if ms.last().role == ChatRsMessageRole::System {
        Some(ms.last().content@)
    } else {
        last_system_prompt(ms.drop_last())
    }
}

fn message_blocks<'a>(m: &'a ChatRsMessage) -> (r: Vec<AnthropicContentBlock<'a>>)
    ensures
        blocks_view(r@) == anthropic_blocks(*m),
{
    let mut blocks: Vec<AnthropicContentBlock<'a>> = Vec::new();
    if m.role == ChatRsMessageRole::Tool {
        if let Some(executed_call) = &m.meta.tool_call {
            blocks.push(
                AnthropicContentBlock::ToolResult {
                    tool_use_id: executed_call.id.as_str(),
                    content: m.content.as_str(),
                },
            );
        }
        assert(blocks_view(blocks@) =~= anthropic_blocks(*m));
    } else {
        if !m.content.as_str().is_empty() {
            blocks.push(AnthropicContentBlock::Text { text: m.content.as_str() });
        }
        let ghost text_part = blocks_view(blocks@);
        if let Some(tool_calls) = message_tool_calls(m) {
            for i in 0..tool_calls.len()
                invariant
                    blocks_view(blocks@) == text_part + tool_calls@.take(i as int).map_values(
                        |tc: ChatRsToolCall| tool_use_view(tc),
                    ),
            {
                let tc = &tool_calls[i];
                let ghost before = blocks@;
                blocks.push(
                    AnthropicContentBlock::ToolUse {
                        id: tc.id.as_str(),
                        name: tc.tool_name.as_str(),
                        input: tc.parameters.as_str(),
                    },
                );
                assert(blocks@ =~= before.push(blocks@.last()));
                assert(blocks_view(blocks@) =~= blocks_view(before).push(tool_use_view(tool_calls@[i as int])));
                assert(tool_calls@.take(i + 1) =~= tool_calls@.take(i as int).push(tool_calls@[i as int]));
                assert(tool_calls@.take(i + 1).map_values(|tc: ChatRsToolCall| tool_use_view(tc))
                    =~= tool_calls@.take(i as int).map_values(|tc: ChatRsToolCall| tool_use_view(tc)).push(tool_use_view(tool_calls@[i as int])));
                assert(blocks_view(blocks@) =~= text_part + tool_calls@.take(i + 1).map_values(
                    |tc: ChatRsToolCall| tool_use_view(tc),
                ));
            }
            assert(tool_calls@.take(tool_calls@.len() as int) =~= tool_calls@);
        }
        assert(blocks_view(blocks@) =~= anthropic_blocks(*m));
    }
    blocks
}

/// Build the Anthropic request messages for a conversation, together with its system prompt
/// (the content of its last system message).
pub fn build_anthropic_messages<'a>(messages: &'a [ChatRsMessage]) -> (r: (
    Vec<AnthropicMessage<'a>>,
    Option<&'a str>,
))
    ensures
        messages_view(r.0@) == anthropic_messages(messages@),
        match r.1 {
            Some(s) => last_system_prompt(messages@) == Some(s@),
            None => last_system_prompt(messages@) is None,
        },
{
    let mut system_prompt: Option<&'a str> = None;
    let mut out: Vec<AnthropicMessage<'a>> = Vec::new();
    for i in 0..messages.len()
        invariant
            messages_view(out@) == anthropic_messages(messages@.take(i as int)),
            match system_prompt {
                Some(s) => last_system_prompt(messages@.take(i as int)) == Some(s@),
                None => last_system_prompt(messages@.take(i as int)) is None,
            },
    {
        let m = &messages[i];
        assert(messages@.take(i + 1).drop_last() =~= messages@.take(i as int));
        let role: Option<&'a str> = match m.role {
            ChatRsMessageRole::User => Some("user"),
            ChatRsMessageRole::Tool => Some("user"),
            ChatRsMessageRole::Assistant => Some("assistant"),
            ChatRsMessageRole::System => None,
        };
        if m.role == ChatRsMessageRole::System {
            system_prompt = Some(m.content.as_str());
        }
        if let Some(role) = role {
            let content = message_blocks(m);
            if content.len() > 0 {
                let ghost before = messages_view(out@);
                out.push(AnthropicMessage { role, content });
                assert(messages_view(out@) =~= before.push(anthropic_message(*m).unwrap()));
            } else {
                assert(messages_view(out@) =~= anthropic_messages(messages@.take(i + 1)));
            }
        } else {
            assert(messages_view(out@) =~= anthropic_messages(messages@.take(i + 1)));
        }
    }
    assert(messages@.take(messages@.len() as int) =~= messages@);
    (out, system_prompt)
}

/// Whether a request tool describes the given tool.
pub open spec fn describes_tool(t: AnthropicTool, tool: LlmTool) -> bool {
    t.name@ == tool.name@ && t.description@ == tool.description@ && t.input_schema@
        == tool.input_schema@
}

/// Build the Anthropic tool definitions, one for each tool, in order.
pub fn build_anthropic_tools<'a>(tools: &'a [LlmTool]) -> (r: Vec<AnthropicTool<'a>>)
    ensures
        r@.len() == tools@.len(),
        forall|i: int| 0 <= i < tools@.len() ==> describes_tool(#[trigger] r@[i], tools@[i]),
{
    let mut out: Vec<AnthropicTool<'a>> = Vec::new();
    for i in 0..tools.len()
        invariant
            out@.len() == i,
            forall|k: int| 0 <= k < i ==> describes_tool(#[trigger] out@[k], tools@[k]),
    {
        let tool = &tools[i];
        out.push(
            AnthropicTool {
                name: tool.name.as_str(),
                description: tool.description.as_str(),
                input_schema: tool.input_schema.as_str(),
            },
        );
    }
    out
}

/// The streaming chat request for a conversation: the model, the messages, the maximum number of
/// tokens (by default `DEFAULT_MAX_TOKENS`), the system prompt, and the tools, if any.
pub fn build_chat_request<'a>(
    model: &'a str,
    max_tokens: Option<u32>,
    messages: &'a [ChatRsMessage],
    tools: Option<&'a Vec<LlmTool>>,
) -> (r: AnthropicRequest<'a>)
    ensures
        r.model@ == model@,
        messages_view(r.messages@) == anthropic_messages(messages@),
        r.max_tokens == match max_tokens {
            Some(m) => m,
            None => DEFAULT_MAX_TOKENS,
        },
        match r.system {
            Some(s) => last_system_prompt(messages@) == Some(s@),
            None => last_system_prompt(messages@) is None,
        },
        r.stream == Some(true),
        match tools {
            Some(ts) => r.tools matches Some(v) && v@.len() == ts@.len() && forall|i: int|
                0 <= i < ts@.len() ==> describes_tool(#[trigger] v@[i], ts@[i]),
            None => r.tools is None,
        },
{
    let (anthropic_messages, system) = build_anthropic_messages(messages);
    let anthropic_tools = match tools {
        Some(ts) => Some(build_anthropic_tools(ts.as_slice())),
        None => None,
    };
    AnthropicRequest {
        model,
        messages: anthropic_messages,
        max_tokens: match max_tokens {
            Some(m) => m,
            None => DEFAULT_MAX_TOKENS,
        },
        system,
        stream: Some(true),
        tools: anthropic_tools,
    }
}

/// The single-prompt request: one user message holding the prompt's text, not streamed.
pub fn build_prompt_request<'a>(model: &'a str, max_tokens: Option<u32>, message: &'a str) -> (r:
    AnthropicRequest<'a>)
    ensures
        r.model@ == model@,
        messages_view(r.messages@) == seq![
            MessageView { role: "user"@, content: seq![BlockView::Text(message@)] },
        ],
        r.max_tokens == match max_tokens {
            Some(m) => m,
            None => DEFAULT_MAX_TOKENS,
        },
        r.system is None,
        r.stream is None,
        r.tools is None,
{
    let mut content: Vec<AnthropicContentBlock<'a>> = Vec::new();
    content.push(AnthropicContentBlock::Text { text: message });
    assert(blocks_view(content@) =~= seq![BlockView::Text(message@)]);
    let mut messages: Vec<AnthropicMessage<'a>> = Vec::new();
    messages.push(AnthropicMessage { role: "user", content });
    assert(messages_view(messages@)[0] == MessageView { role: "user"@, content: seq![BlockView::Text(message@)] });
    assert(messages_view(messages@) =~= seq![
        MessageView { role: "user"@, content: seq![BlockView::Text(message@)] },
    ]);
    AnthropicRequest {
        model,
        messages,
        max_tokens: match max_tokens {
            Some(m) => m,
            None => DEFAULT_MAX_TOKENS,
        },
        system: None,
        stream: None,
        tools: None,
    }
}

/// The text of a prompt response: its first content block, which must be text.
pub fn prompt_text(response: AnthropicResponse) -> (r: Result<String, LlmError>)
    ensures
        match r {
            Ok(t) => response.content@.len() > 0 && (response.content@[0] matches AnthropicResponseContentBlock::Text { text } && text == t),
            Err(e) => e is NoResponse && !(response.content@.len() > 0 && response.content@[0] is Text),
        },
{
    let mut content = response.content;
    if content.len() == 0 {
        return Err(LlmError::NoResponse);
    }
    match content.swap_remove(0) {
        AnthropicResponseContentBlock::Text { text } => Ok(text),
        _ => Err(LlmError::NoResponse),
    }
}

} // verus!
