//! Ollama API response structures

use crate::ids::Uuid;
use crate::json::{json_object_text, parse_json_object};
use crate::provider::anthropic::response::{find_tool, first_tool_named};
use crate::provider::{
    chunk_views, ChatRsToolCall, ChunkView, LlmError, LlmPendingToolCall, LlmStreamChunk,
    LlmStreamChunkResult, LlmTool, LlmUsage,
};
use vstd::prelude::*;

verus! {

/// Ollama chat response (streaming)
#[derive(Debug)]
pub struct OllamaStreamResponse {
    pub model: String,
    pub created_at: String,
    pub message: OllamaMessage,
    pub done: bool,
    pub done_reason: Option<String>,
    pub total_duration: Option<u64>,
    pub load_duration: Option<u64>,
    pub prompt_eval_count: Option<u32>,
    pub prompt_eval_duration: Option<u64>,
    pub eval_count: Option<u32>,
    pub eval_duration: Option<u64>,
}

/// Ollama completion response (non-streaming)
#[derive(Debug)]
pub struct OllamaCompletionResponse {
    pub model: String,
    pub created_at: String,
    pub response: String,
    pub done: bool,
    pub done_reason: Option<String>,
    pub total_duration: Option<u64>,
    pub load_duration: Option<u64>,
    pub prompt_eval_count: Option<u32>,
    pub prompt_eval_duration: Option<u64>,
    pub eval_count: Option<u32>,
    pub eval_duration: Option<u64>,
}

/// Ollama message in response
#[derive(Debug)]
pub struct OllamaMessage {
    pub role: String,
    pub content: String,
    pub tool_calls: Vec<OllamaToolCall>,
}

/// Ollama tool call in response
#[derive(Debug)]
pub struct OllamaToolCall {
    pub function: OllamaToolFunction,
}

/// Ollama tool function in response. `arguments` is the JSON text of the arguments value.
#[derive(Debug)]
pub struct OllamaToolFunction {
    pub name: String,
    pub arguments: String,
}

/// The usage in Ollama's token counts, when it reports any.
pub open spec fn ollama_usage(prompt_eval_count: Option<u32>, eval_count: Option<u32>) -> Option<LlmUsage> {
    if prompt_eval_count is Some || eval_count is Some {
        Some(LlmUsage { input_tokens: prompt_eval_count, output_tokens: eval_count, cost: None })
    } else {
        None
    }
}

/// An Ollama report yields a usage exactly when it reports a token count, with the prompt
/// evaluation count as input tokens, the evaluation count as output tokens, and no cost.
pub proof fn law_ollama_usage_counts(prompt_eval_count: Option<u32>, eval_count: Option<u32>)
    ensures
        ollama_usage(prompt_eval_count, eval_count) is Some <==> (prompt_eval_count is Some || eval_count is Some),
        ollama_usage(prompt_eval_count, eval_count) matches Some(u) ==> u.input_tokens == prompt_eval_count
            && u.output_tokens == eval_count && u.cost is None,
{
}

fn usage_from_counts(prompt_eval_count: Option<u32>, eval_count: Option<u32>) -> (r: Option<LlmUsage>)
    ensures
        r == ollama_usage(prompt_eval_count, eval_count),
{
    if prompt_eval_count.is_some() || eval_count.is_some() {
        Some(LlmUsage { input_tokens: prompt_eval_count, output_tokens: eval_count, cost: None })
    } else {
        None
    }
}

impl OllamaCompletionResponse {
    /// Convert Ollama usage to LlmUsage
    pub fn usage(&self) -> (r: Option<LlmUsage>)
        ensures
            r == ollama_usage(self.prompt_eval_count, self.eval_count),
    {
        usage_from_counts(self.prompt_eval_count, self.eval_count)
    }

    /// The completion text; an empty response is no response.
    pub fn into_text(self) -> (r: Result<String, LlmError>)
        ensures
            match r {
                Ok(t) => t == self.response && self.response@.len() > 0,
                Err(e) => e is NoResponse && self.response@.len() == 0,
            },
    {
        if self.response.as_str().is_empty() {
            Err(LlmError::NoResponse)
        } else {
            Ok(self.response)
        }
    }
}

impl OllamaStreamResponse {
    /// Convert Ollama usage to LlmUsage
    pub fn usage(&self) -> (r: Option<LlmUsage>)
        ensures
            r == ollama_usage(self.prompt_eval_count, self.eval_count),
    {
        usage_from_counts(self.prompt_eval_count, self.eval_count)
    }
}

/// The chunks of an Ollama stream event: the usage of the final event (when reported), an
/// announcement of each tool call (by its position in the message), then the text, if any.
pub open spec fn ollama_event_chunks(event: OllamaStreamResponse) -> Seq<ChunkView> {
    let usage: Seq<ChunkView> = if event.done && ollama_usage(event.prompt_eval_count, event.eval_count) is Some {
        seq![ChunkView::Usage(ollama_usage(event.prompt_eval_count, event.eval_count).unwrap())]
    } else {
        Seq::empty()
    };
    let calls = event.message.tool_calls@;
    let pending = Seq::new(
        calls.len(),
        |i: int| ChunkView::PendingToolCall(i as usize, calls[i].function.name@),
    );
    let text: Seq<ChunkView> = if event.message.content@.len() > 0 {
        seq![ChunkView::Text(event.message.content@)]
    } else {
        Seq::empty()
    };
    usage + pending + text
}

/// Parse Ollama streaming event into LlmStreamChunks, and track tool calls
pub fn parse_ollama_event(event: OllamaStreamResponse, tool_calls: &mut Vec<OllamaToolCall>) -> (r:
    Vec<Result<LlmStreamChunk, crate::provider::LlmStreamError>>)
    ensures
        chunk_views(r@) == ollama_event_chunks(event),
        final(tool_calls)@ == old(tool_calls)@ + event.message.tool_calls@,
{
    let ghost ev = event;
    let mut chunks: Vec<LlmStreamChunkResult> = Vec::new();
    if event.done {
        if let Some(usage) = event.usage() {
            chunks.push(Ok(LlmStreamChunk::Usage(usage)));
        }
    }
    assert(chunk_views(chunks@) =~= (if ev.done && ollama_usage(ev.prompt_eval_count, ev.eval_count) is Some {
        seq![ChunkView::Usage(ollama_usage(ev.prompt_eval_count, ev.eval_count).unwrap())]
    } else {
        Seq::<ChunkView>::empty()
    }));
    let OllamaStreamResponse { message, .. } = event;
    let OllamaMessage { content, tool_calls: calls, .. } = message;
    let ghost usage_part = chunk_views(chunks@);
    let n = calls.len();
    for index in 0..n
        invariant
            n == calls@.len(),
            chunks@.len() == usage_part.len() + index,
            forall|k: int| 0 <= k < usage_part.len() ==> chunk_views(chunks@)[k] == usage_part[k],
            forall|k: int|
                0 <= k < index ==> chunk_views(chunks@)[usage_part.len() + k]
                    == ChunkView::PendingToolCall(k as usize, calls@[k].function.name@),
    {
        let tool_call = LlmPendingToolCall { index, tool_name: calls[index].function.name.clone() };
        chunks.push(Ok(LlmStreamChunk::PendingToolCall(tool_call)));
    }
    let ghost pending_part = chunk_views(chunks@);
    let mut calls = calls;
    tool_calls.append(&mut calls);
    if !content.as_str().is_empty() {
        chunks.push(Ok(LlmStreamChunk::Text(content)));
        assert(chunk_views(chunks@) =~= pending_part + seq![ChunkView::Text(ev.message.content@)]);
    } else {
        assert(chunk_views(chunks@) =~= pending_part + Seq::<ChunkView>::empty());
    }
    proof {
        let calls_s = ev.message.tool_calls@;
        let pending = Seq::new(
            calls_s.len(),
            |i: int| ChunkView::PendingToolCall(i as usize, calls_s[i].function.name@),
        );
        assert(pending_part =~= usage_part + pending);
        assert(chunk_views(chunks@) =~= ollama_event_chunks(ev));
    }
    chunks
}

/// The complete tool call made of an Ollama one: a fresh ID, an offered tool of its name, and
/// arguments that hold a JSON object.
pub open spec fn converted_ollama_call(
    f: OllamaToolFunction,
    tools: Seq<LlmTool>,
    r: Option<ChatRsToolCall>,
) -> bool {
    match r {
        Some(tc) => {
            &&& first_tool_named(tools, f.name@) matches Some(t)
            &&& tc.tool_name == f.name
            &&& tc.tool_id == tools[t].tool_id
            &&& tc.tool_type == tools[t].tool_type
            &&& json_object_text(f.arguments@) == Some(tc.parameters@)
            &&& tc.id@.len() == 36
        },
        None => first_tool_named(tools, f.name@) is None || json_object_text(f.arguments@) is None,
    }
}

impl OllamaToolFunction {
    /// Convert to ChatRsToolCall if the tool exists in the provided tools
    pub fn convert(self, tools: &Vec<LlmTool>) -> (r: Option<ChatRsToolCall>)
        ensures
            converted_ollama_call(self, tools@, r),
    {
        let t = match find_tool(tools, self.name.as_str()) {
            Some(t) => t,
            None => return None,
        };
        let parameters = match parse_json_object(self.arguments.as_str()) {
            Some(p) => p,
            None => return None,
        };
        let id = Uuid::new_v4().to_string();
        Some(
            ChatRsToolCall {
                id,
                parameters,
                tool_id: tools[t].tool_id,
                tool_name: self.name,
                tool_type: tools[t].tool_type,
            },
        )
    }
}

/// Whether an Ollama tool call can be converted with the offered tools.
pub open spec fn convertible(f: OllamaToolFunction, tools: Seq<LlmTool>) -> bool {
    first_tool_named(tools, f.name@) is Some && json_object_text(f.arguments@) is Some
}

/// The complete tool calls gathered at the end of an Ollama stream: those that can be converted,
/// in order (each listed by its source position in `src`).
pub open spec fn converted_calls(
    calls: Seq<OllamaToolCall>,
    tools: Seq<LlmTool>,
    r: Seq<ChatRsToolCall>,
    src: Seq<int>,
) -> bool {
    &&& src.len() == r.len()
    &&& forall|k: int| 0 <= k < src.len() ==> 0 <= #[trigger] src[k] < calls.len()
    &&& forall|k: int, l: int| 0 <= k < l < src.len() ==> src[k] < src[l]
    &&& forall|k: int|
        0 <= k < src.len() ==> converted_ollama_call(calls[src[k]].function, tools, Some(#[trigger] r[k]))
    &&& forall|j: int| 0 <= j < calls.len() ==> (convertible(calls[j].function, tools) <==> src.contains(j))
}

/// Converts the tool calls gathered at the end of an Ollama stream, in order, dropping those
/// that cannot be converted.
pub fn convert_tool_calls(tool_calls: Vec<OllamaToolCall>, tools: &Vec<LlmTool>) -> (r: Vec<ChatRsToolCall>)
    ensures
        exists|src: Seq<int>| converted_calls(tool_calls@, tools@, r@, src),
{
    let ghost all = tool_calls@;
    let ghost mut src: Seq<int> = Seq::empty();
    let mut r: Vec<ChatRsToolCall> = Vec::new();
    let mut calls = tool_calls;
    let n = calls.len();
    let mut i: usize = 0;
    while i < n
        invariant
            all.len() == n,
            calls@ == all.skip(i as int),
            i <= n,
            src.len() == r@.len(),
            forall|k: int| 0 <= k < src.len() ==> 0 <= #[trigger] src[k] < i,
            forall|k: int, l: int| 0 <= k < l < src.len() ==> src[k] < src[l],
            forall|k: int|
                0 <= k < src.len() ==> converted_ollama_call(all[src[k]].function, tools@, Some(#[trigger] r@[k])),
            forall|j: int| 0 <= j < i ==> (convertible(all[j].function, tools@) <==> src.contains(j)),
        decreases n - i,
    {
        let tc = calls.remove(0);
        assert(tc == all[i as int]);
        assert(calls@ =~= all.skip(i + 1));
        let ghost old_src = src;
        if let Some(c) = tc.function.convert(tools) {
            r.push(c);
            proof {
                src = src.push(i as int);
                assert forall|j: int| 0 <= j < i + 1 implies (convertible(all[j].function, tools@) <==> src.contains(j)) by {
                    if j < i {
                        if old_src.contains(j) {
                            let k = choose|k: int| 0 <= k < old_src.len() && old_src[k] == j;
                            assert(src[k] == j);
                        }
                        if src.contains(j) {
                            let k = choose|k: int| 0 <= k < src.len() && src[k] == j;
                            if k < old_src.len() {
                                assert(old_src[k] == j);
                            }
                        }
                    } else {
                        assert(src[src.len() - 1] == j);
                    }
                }
            }
        } else {
            proof {
                assert(!src.contains(i as int));
            }
        }
        i += 1;
    }
    assert(converted_calls(all, tools@, r@, src));
    r
}

/// Ollama models list response
#[derive(Debug)]
pub struct OllamaModelsResponse {
    pub models: Vec<OllamaModelInfo>,
}

/// Ollama model information
#[derive(Debug)]
pub struct OllamaModelInfo {
    pub name: String,
    pub modified_at: String,
    pub details: OllamaModelDetails,
}

/// Ollama model details
#[derive(Debug)]
pub struct OllamaModelDetails {
    pub format: String,
    pub family: String,
}

} // verus!
