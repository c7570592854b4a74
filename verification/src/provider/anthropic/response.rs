//! Anthropic API responses and streaming events.

use crate::json::{json_object_text, parse_json_object};
use crate::provider::{
    ChatRsToolCall, LlmPendingToolCall, LlmStreamChunk, LlmStreamChunkResult, LlmStreamError,
    LlmTool, LlmUsage,
};
use crate::text::{all_white_space, is_blank, push_str, str_eq};
use vstd::prelude::*;

verus! {

/// Anthropic API response content block
#[derive(Debug)]
pub enum AnthropicResponseContentBlock {
    Text { text: String },
    ToolUse { id: String, name: String },
}

/// Anthropic API response usage
#[derive(Debug, Clone, Copy, PartialEq, Eq, Structural)]
pub struct AnthropicUsage {
    pub input_tokens: Option<u32>,
    pub output_tokens: Option<u32>,
}

pub open spec fn anthropic_usage(u: AnthropicUsage) -> LlmUsage {
    LlmUsage { input_tokens: u.input_tokens, output_tokens: u.output_tokens, cost: None }
}

impl AnthropicUsage {
    /// The provider-independent usage: token counts, and no cost.
    pub fn to_llm_usage(&self) -> (r: LlmUsage)
        ensures
            r == anthropic_usage(*self),
    {
        LlmUsage { input_tokens: self.input_tokens, output_tokens: self.output_tokens, cost: None }
    }
}

/// Anthropic API response
#[derive(Debug)]
pub struct AnthropicResponse {
    pub content: Vec<AnthropicResponseContentBlock>,
    pub usage: Option<AnthropicUsage>,
}

/// Anthropic stream response (message start)
#[derive(Debug)]
pub struct AnthropicStreamResponse {
    pub usage: Option<AnthropicUsage>,
}

/// Anthropic streaming event types
#[derive(Debug)]
pub enum AnthropicStreamEvent {
    MessageStart { message: AnthropicStreamResponse },
    ContentBlockStart { index: usize, content_block: AnthropicResponseContentBlock },
    ContentBlockDelta { index: usize, delta: AnthropicDelta },
    ContentBlockStop { index: usize },
    MessageDelta { usage: Option<AnthropicUsage> },
    MessageStop,
    Ping,
    Error { error: AnthropicError },
}

#[derive(Debug)]
pub enum AnthropicDelta {
    TextDelta { text: String },
    InputJsonDelta { partial_json: String },
}

#[derive(Debug)]
pub struct AnthropicMessageDelta {}

#[derive(Debug)]
pub struct AnthropicError {
    pub error_type: String,
    pub message: String,
}

/// Helper struct for tracking streaming tool calls
#[derive(Debug)]
pub struct AnthropicStreamToolCall {
    /// Anthropic tool call ID
    pub id: String,
    /// Index of the tool call in the message
    pub index: usize,
    /// Name of the tool
    pub name: String,
    /// Partial input parameters (JSON stringified)
    pub input: String,
}

/// Position of the first tracked tool call with the given index.
pub open spec fn first_with_index(calls: Seq<AnthropicStreamToolCall>, index: usize) -> Option<int> {
    if exists|i: int| 0 <= i < calls.len() && #[trigger] calls[i].index == index {
        Some(
            choose|i: int|
                0 <= i < calls.len() && #[trigger] calls[i].index == index && forall|j: int|
                    0 <= j < i ==> calls[j].index != index,
        )
    } else {
        None
    }
}

/// Position of the first tool with the given name.
pub open spec fn first_tool_named(tools: Seq<LlmTool>, name: Seq<char>) -> Option<int> {
    if exists|i: int| 0 <= i < tools.len() && #[trigger] tools[i].name@ == name {
        Some(
            choose|i: int|
                0 <= i < tools.len() && #[trigger] tools[i].name@ == name && forall|j: int|
                    0 <= j < i ==> tools[j].name@ != name,
        )
    } else {
        None
    }
}

/// The JSON input of a tracked tool call: an empty object when nothing but whitespace came.
pub open spec fn call_input(c: AnthropicStreamToolCall) -> Seq<char> {
    if all_white_space(c.input@) {
        "{}"@
    } else {
        c.input@
    }
}

/// The complete tool call made of a tracked one, when its input is a JSON object and a tool of
/// its name is offered.
pub open spec fn converted_call(
    c: AnthropicStreamToolCall,
    tools: Seq<LlmTool>,
    r: Option<ChatRsToolCall>,
) -> bool {
    match r {
        Some(tc) => {
            &&& first_tool_named(tools, c.name@) matches Some(t)
            &&& tc.id == c.id
            &&& tc.tool_name == c.name
            &&& tc.tool_id == tools[t].tool_id
            &&& tc.tool_type == tools[t].tool_type
            &&& json_object_text(call_input(c)) == Some(tc.parameters@)
        },
        None => json_object_text(call_input(c)) is None || first_tool_named(tools, c.name@) is None,
    }
}

/// Position of the first tool with the given name.
pub fn find_tool(tools: &Vec<LlmTool>, name: &str) -> (r: Option<usize>)
    ensures
        match r {
            Some(i) => i < tools@.len() && first_tool_named(tools@, name@) == Some(i as int),
            None => first_tool_named(tools@, name@) is None,
        },
{
    for i in 0..tools.len()
        invariant
            forall|j: int| 0 <= j < i ==> tools@[j].name@ != name@,
    {
        if str_eq(tools[i].name.as_str(), name) {
            proof {
                let k = choose|k: int|
                    0 <= k < tools@.len() && #[trigger] tools@[k].name@ == name@ && forall|j: int|
                        0 <= j < k ==> tools@[j].name@ != name@;
                if k < i {
                } else if k > i {
                    assert(tools@[i as int].name@ == name@);
                }
            }
            return Some(i);
        }
    }
    None
}

impl AnthropicStreamToolCall {
    /// Convert Anthropic tool call format to ChatRsToolCall
    pub fn convert(self, llm_tools: &Vec<LlmTool>) -> (r: Option<ChatRsToolCall>)
        ensures
            converted_call(self, llm_tools@, r),
    {
        let parsed = if is_blank(self.input.as_str()) {
            proof {
                reveal_strlit("{}");
            }
            parse_json_object("{}")
        } else {
            parse_json_object(self.input.as_str())
        };
        let parameters = match parsed {
            Some(p) => p,
            None => return None,
        };
        match find_tool(llm_tools, self.name.as_str()) {
            Some(i) => Some(
                ChatRsToolCall {
                    id: self.id,
                    tool_id: llm_tools[i].tool_id,
                    tool_name: self.name,
                    tool_type: llm_tools[i].tool_type,
                    parameters,
                },
            ),
            None => None,
        }
    }
}

/// Position of the first tracked tool call with the given index.
fn find_call(calls: &Vec<AnthropicStreamToolCall>, index: usize) -> (r: Option<usize>)
    ensures
        match r {
            Some(i) => i < calls@.len() && first_with_index(calls@, index) == Some(i as int),
            None => first_with_index(calls@, index) is None,
        },
{
    for i in 0..calls.len()
        invariant
            forall|j: int| 0 <= j < i ==> calls@[j].index != index,
    {
        if calls[i].index == index {
            proof {
                let k = choose|k: int|
                    0 <= k < calls@.len() && #[trigger] calls@[k].index == index && forall|j: int|
                        0 <= j < k ==> calls@[j].index != index;
                if k > i {
                    assert(calls@[i as int].index == index);
                }
            }
            return Some(i);
        }
    }
    None
}

/// The outcome of an Anthropic stream event: the chunk it yields, if any, and the tool calls
/// tracked afterwards.
pub open spec fn anthropic_event_outcome(
    event: AnthropicStreamEvent,
    tools: Option<Seq<LlmTool>>,
    calls0: Seq<AnthropicStreamToolCall>,
    calls1: Seq<AnthropicStreamToolCall>,
    r: Option<LlmStreamChunkResult>,
) -> bool {
    match event {
        AnthropicStreamEvent::MessageStart { message } => calls1 == calls0 && match message.usage {
            Some(u) => r == Some(Ok::<LlmStreamChunk, LlmStreamError>(LlmStreamChunk::Usage(anthropic_usage(u)))),
            None => r is None,
        },
        AnthropicStreamEvent::ContentBlockStart { index, content_block } => match content_block {
            AnthropicResponseContentBlock::Text { text } => calls1 == calls0 && r == Some(
                Ok::<LlmStreamChunk, LlmStreamError>(LlmStreamChunk::Text(text)),
            ),
            AnthropicResponseContentBlock::ToolUse { id, name } => {
                &&& r is None
                &&& calls1.len() == calls0.len() + 1
                &&& calls1.drop_last() == calls0
                &&& calls1.last().id == id
                &&& calls1.last().index == index
                &&& calls1.last().name == name
                &&& calls1.last().input@ == Seq::<char>::empty()
            },
        },
        AnthropicStreamEvent::ContentBlockDelta { index, delta } => match delta {
            AnthropicDelta::TextDelta { text } => calls1 == calls0 && r == Some(
                Ok::<LlmStreamChunk, LlmStreamError>(LlmStreamChunk::Text(text)),
            ),
            AnthropicDelta::InputJsonDelta { partial_json } => match first_with_index(calls0, index) {
                Some(p) => {
                    &&& calls1.len() == calls0.len()
                    &&& forall|j: int| 0 <= j < calls0.len() && j != p ==> calls1[j] == calls0[j]
                    &&& calls1[p].id == calls0[p].id
                    &&& calls1[p].index == calls0[p].index
                    &&& calls1[p].name == calls0[p].name
                    &&& calls1[p].input@ == calls0[p].input@ + partial_json@
                    &&& r matches Some(Ok(LlmStreamChunk::PendingToolCall(pc)))
                    &&& pc.index == index
                    &&& pc.tool_name == calls0[p].name
                },
                None => calls1 == calls0 && r is None,
            },
        },
        AnthropicStreamEvent::ContentBlockStop { index } => match (tools, first_with_index(calls0, index)) {
            (Some(ts), Some(p)) => {
                &&& calls1 == calls0.update(p, calls0.last()).drop_last()
                &&& match r {
                    Some(Ok(LlmStreamChunk::ToolCalls(v))) => v@.len() == 1 && converted_call(
                        calls0[p],
                        ts,
                        Some(v@[0]),
                    ),
                    None => converted_call(calls0[p], ts, None),
                    _ => false,
                }
            },
            _ => calls1 == calls0 && r is None,
        },
        AnthropicStreamEvent::MessageDelta { usage } => calls1 == calls0 && match usage {
            Some(u) => r == Some(Ok::<LlmStreamChunk, LlmStreamError>(LlmStreamChunk::Usage(anthropic_usage(u)))),
            None => r is None,
        },
        AnthropicStreamEvent::Error { error } => calls1 == calls0 && (r matches Some(
            Err(LlmStreamError::ProviderError(msg)),
        ) && msg@ == error.error_type@ + ": "@ + error.message@),
        _ => calls1 == calls0 && r is None,
    }
}

/// The usage that an Anthropic usage report becomes carries the reported input and output token
/// counts, and no cost.
pub proof fn law_anthropic_usage_counts(u: AnthropicUsage)
    ensures
        anthropic_usage(u).input_tokens == u.input_tokens,
        anthropic_usage(u).output_tokens == u.output_tokens,
        anthropic_usage(u).cost is None,
{
}

/// A usage report in a message start or message delta event yields one usage chunk with the
/// reported input and output token counts, and leaves the tracked tool calls alone.
pub proof fn law_anthropic_usage_chunk(
    event: AnthropicStreamEvent,
    tools: Option<Seq<LlmTool>>,
    calls0: Seq<AnthropicStreamToolCall>,
    calls1: Seq<AnthropicStreamToolCall>,
    r: Option<LlmStreamChunkResult>,
    u: AnthropicUsage,
)
    requires
        anthropic_event_outcome(event, tools, calls0, calls1, r),
        (event matches AnthropicStreamEvent::MessageDelta { usage } && usage == Some(u)) || (
        event matches AnthropicStreamEvent::MessageStart { message } && message.usage == Some(u)),
    ensures
        calls1 == calls0,
        r matches Some(Ok(LlmStreamChunk::Usage(lu))) && lu.input_tokens == u.input_tokens
            && lu.output_tokens == u.output_tokens && lu.cost is None,
{
}

/// Parse an Anthropic SSE event.
pub fn parse_anthropic_event(
    event: AnthropicStreamEvent,
    tools: Option<&Vec<LlmTool>>,
    tool_calls: &mut Vec<AnthropicStreamToolCall>,
) -> (r: Option<LlmStreamChunkResult>)
    ensures
        anthropic_event_outcome(
            event,
            match tools {
                Some(ts) => Some(ts@),
                None => None,
            },
            old(tool_calls)@,
            final(tool_calls)@,
            r,
        ),
{
    match event {
        AnthropicStreamEvent::MessageStart { message } => {
            if let Some(usage) = message.usage {
                return Some(Ok(LlmStreamChunk::Usage(usage.to_llm_usage())));
            }
        },
        AnthropicStreamEvent::ContentBlockStart { content_block, index } => match content_block {
            AnthropicResponseContentBlock::Text { text } => {
                return Some(Ok(LlmStreamChunk::Text(text)));
            },
            AnthropicResponseContentBlock::ToolUse { id, name } => {
                tool_calls.push(AnthropicStreamToolCall { id, index, name, input: String::new() });
                assert(tool_calls@.drop_last() =~= old(tool_calls)@);
            },
        },
        AnthropicStreamEvent::ContentBlockDelta { delta, index } => match delta {
            AnthropicDelta::TextDelta { text } => {
                return Some(Ok(LlmStreamChunk::Text(text)));
            },
            AnthropicDelta::InputJsonDelta { partial_json } => {
                if let Some(p) = find_call(tool_calls, index) {
                    let mut tool_call = tool_calls.remove(p);
                    push_str(&mut tool_call.input, partial_json.as_str());
                    let tool_name = tool_call.name.clone();
                    tool_calls.insert(p, tool_call);
                    let chunk = LlmStreamChunk::PendingToolCall(
                        LlmPendingToolCall { index, tool_name },
                    );
                    return Some(Ok(chunk));
                }
            },
        },
        AnthropicStreamEvent::ContentBlockStop { index } => {
            if let Some(llm_tools) = tools {
                if let Some(p) = find_call(tool_calls, index) {
                    let tc = tool_calls.swap_remove(p);
                    if let Some(tool_call) = tc.convert(llm_tools) {
                        let mut v = Vec::new();
                        v.push(tool_call);
                        return Some(Ok(LlmStreamChunk::ToolCalls(v)));
                    }
                }
            }
        },
        AnthropicStreamEvent::MessageDelta { usage } => {
            if let Some(usage) = usage {
                return Some(Ok(LlmStreamChunk::Usage(usage.to_llm_usage())));
            }
        },
        AnthropicStreamEvent::Error { error } => {
            let mut error_msg = error.error_type;
            push_str(&mut error_msg, ": ");
            push_str(&mut error_msg, error.message.as_str());
            return Some(Err(LlmStreamError::ProviderError(error_msg)));
        },
        _ => {},
    }
    None
}

} // verus!
