//! OpenAI (and OpenAI compatible) API responses and streaming events.

use crate::json::{json_object_text, parse_json_object};
use crate::provider::anthropic::response::{find_tool, first_tool_named};
use crate::provider::{
    chunk_views, ChatRsToolCall, ChunkView, LlmPendingToolCall, LlmStreamChunk,
    LlmError, LlmStreamChunkResult, LlmTool, LlmUsage,
};
use crate::text::push_str;
use vstd::prelude::*;

verus! {

/// OpenAI API response
#[derive(Debug)]
pub struct OpenAIResponse {
    pub choices: Vec<OpenAIChoice>,
    pub usage: Option<OpenAIUsage>,
}

/// OpenAI API streaming response
#[derive(Debug)]
pub struct OpenAIStreamResponse {
    pub choices: Vec<OpenAIChoice>,
    pub usage: Option<OpenAIUsage>,
}

/// OpenAI API response choice
#[derive(Debug)]
pub struct OpenAIChoice {
    pub message: Option<OpenAIResponseMessage>,
    pub delta: Option<OpenAIResponseDelta>,
}

/// OpenAI API response message
#[derive(Debug)]
pub struct OpenAIResponseMessage {
    pub content: Option<String>,
}

/// OpenAI API streaming delta
#[derive(Debug)]
pub struct OpenAIResponseDelta {
    pub content: Option<String>,
    pub tool_calls: Option<Vec<OpenAIStreamToolCall>>,
}

/// OpenAI streaming tool call
#[derive(Debug)]
pub struct OpenAIStreamToolCall {
    pub id: Option<String>,
    pub index: usize,
    pub function: OpenAIStreamToolCallFunction,
}

/// OpenAI streaming tool call function
#[derive(Debug)]
pub struct OpenAIStreamToolCallFunction {
    pub name: Option<String>,
    pub arguments: Option<String>,
}

/// OpenAI API response usage. `cost` holds the IEEE-754 bits of the `f32` cost.
#[derive(Debug, Clone, Copy, PartialEq, Eq, Structural)]
pub struct OpenAIUsage {
    pub prompt_tokens: Option<u32>,
    pub completion_tokens: Option<u32>,
    pub cost: Option<u32>,
}

pub open spec fn openai_usage(u: OpenAIUsage) -> LlmUsage {
    LlmUsage { input_tokens: u.prompt_tokens, output_tokens: u.completion_tokens, cost: u.cost }
}

/// The usage that an OpenAI usage report becomes carries the prompt tokens as input tokens, the
/// completion tokens as output tokens, and the reported cost.
pub proof fn law_openai_usage_counts(u: OpenAIUsage)
    ensures
        openai_usage(u).input_tokens == u.prompt_tokens,
        openai_usage(u).output_tokens == u.completion_tokens,
        openai_usage(u).cost == u.cost,
{
}

impl OpenAIUsage {
    /// The provider-independent usage.
    pub fn to_llm_usage(&self) -> (r: LlmUsage)
        ensures
            r == openai_usage(*self),
    {
        LlmUsage {
            input_tokens: self.prompt_tokens,
            output_tokens: self.completion_tokens,
            cost: self.cost,
        }
    }
}

pub open spec fn opt_text(o: Option<String>) -> Option<Seq<char>> {
    match o {
        Some(s) => Some(s@),
        None => None,
    }
}

/// A streaming tool call, with texts taken by their characters.
pub struct ToolCallView {
    pub id: Option<Seq<char>>,
    pub index: usize,
    pub name: Option<Seq<char>>,
    pub arguments: Option<Seq<char>>,
}

pub open spec fn call_view(c: OpenAIStreamToolCall) -> ToolCallView {
    ToolCallView {
        id: opt_text(c.id),
        index: c.index,
        name: opt_text(c.function.name),
        arguments: opt_text(c.function.arguments),
    }
}

pub open spec fn calls_view(cs: Seq<OpenAIStreamToolCall>) -> Seq<ToolCallView> {
    cs.map_values(|c: OpenAIStreamToolCall| call_view(c))
}

/// Position of the first tracked call with the given index.
pub open spec fn first_call_with_index(calls: Seq<ToolCallView>, index: usize) -> Option<int> {
    if exists|i: int| 0 <= i < calls.len() && #[trigger] calls[i].index == index {
        Some(
            choose|i: int|
                0 <= i < calls.len() && #[trigger] calls[i].index == index && forall|j: int|
                    0 <= j < i ==> calls[j].index != index,
        )
    } else {
        None
    }
}

/// The effect of one tool call delta on the tracked calls, and the chunks it yields: a delta
/// for a tracked call appends its arguments to the call's and announces the call when its name
/// is known; a delta for a new index announces the call when it names it, and is tracked.
pub open spec fn delta_step(
    state: (Seq<ToolCallView>, Seq<ChunkView>),
    d: ToolCallView,
) -> (Seq<ToolCallView>, Seq<ChunkView>) {
    let (calls, chunks) = state;
    match first_call_with_index(calls, d.index) {
        Some(p) => {
            let c = calls[p];
            let args = match d.arguments {
                Some(a) => Some(
                    match c.arguments {
                        Some(x) => x + a,
                        None => a,
                    },
                ),
                None => c.arguments,
            };
            let calls2 = calls.update(p, ToolCallView { arguments: args, ..c });
            match c.name {
                Some(n) => (calls2, chunks.push(ChunkView::PendingToolCall(d.index, n))),
                None => (calls2, chunks),
            }
        },
        None => match d.name {
            Some(n) => (calls.push(d), chunks.push(ChunkView::PendingToolCall(d.index, n))),
            None => (calls.push(d), chunks),
        },
    }
}

/// The deltas, applied one after the other.
pub open spec fn deltas_fold(
    state: (Seq<ToolCallView>, Seq<ChunkView>),
    ds: Seq<ToolCallView>,
) -> (Seq<ToolCallView>, Seq<ChunkView>)
    decreases ds.len(),
{
    if ds.len() == 0 {
        state
    } else {
        delta_step(deltas_fold(state, ds.drop_last()), ds.last())
    }
}

/// The outcome of an OpenAI stream event: the delta of the last choice yields its text, then the
/// announcements of its tool call deltas; the usage, if any, comes last.
pub open spec fn openai_event_outcome(
    event: OpenAIStreamResponse,
    calls0: Seq<ToolCallView>,
) -> (Seq<ToolCallView>, Seq<ChunkView>) {
    let after_delta = if event.choices@.len() > 0 && event.choices@.last().delta is Some {
        let delta = event.choices@.last().delta.unwrap();
        let text: Seq<ChunkView> = match delta.content {
            Some(t) => seq![ChunkView::Text(t@)],
            None => Seq::empty(),
        };
        match delta.tool_calls {
            Some(ds) => deltas_fold((calls0, text), calls_view(ds@)),
            None => (calls0, text),
        }
    } else {
        (calls0, Seq::<ChunkView>::empty())
    };
    match event.usage {
        Some(u) => (after_delta.0, after_delta.1.push(ChunkView::Usage(openai_usage(u)))),
        None => after_delta,
    }
}

/// An event with a usage report ends its chunks with one usage chunk carrying the prompt tokens
/// as input tokens, the completion tokens as output tokens, and the reported cost.
pub proof fn law_openai_usage_chunk(event: OpenAIStreamResponse, calls0: Seq<ToolCallView>, u: OpenAIUsage)
    requires
        event.usage == Some(u),
    ensures
        openai_event_outcome(event, calls0).1.len() > 0,
        openai_event_outcome(event, calls0).1.last() matches ChunkView::Usage(lu) && lu.input_tokens
            == u.prompt_tokens && lu.output_tokens == u.completion_tokens && lu.cost == u.cost,
{
}

fn find_tracked(calls: &Vec<OpenAIStreamToolCall>, index: usize) -> (r: Option<usize>)
    ensures
        match r {
            Some(i) => i < calls@.len() && first_call_with_index(calls_view(calls@), index) == Some(
                i as int,
            ),
            None => first_call_with_index(calls_view(calls@), index) is None,
        },
{
    let ghost cv = calls_view(calls@);
    for i in 0..calls.len()
        invariant
            cv == calls_view(calls@),
            forall|j: int| 0 <= j < i ==> cv[j].index != index,
    {
        if calls[i].index == index {
            proof {
                let k = choose|k: int|
                    0 <= k < cv.len() && #[trigger] cv[k].index == index && forall|j: int|
                        0 <= j < k ==> cv[j].index != index;
                if k > i {
                    assert(cv[i as int].index == index);
                }
            }
            return Some(i);
        }
    }
    proof {
        if exists|k: int| 0 <= k < cv.len() && #[trigger] cv[k].index == index {
            let k = choose|k: int| 0 <= k < cv.len() && #[trigger] cv[k].index == index;
            assert(cv[k].index != index);
        }
    }
    None
}

/// Applies one tool call delta to the tracked calls, adding the chunks it yields.
fn apply_delta(
    tool_calls: &mut Vec<OpenAIStreamToolCall>,
    chunks: &mut Vec<LlmStreamChunkResult>,
    d: OpenAIStreamToolCall,
)
    ensures
        (calls_view(final(tool_calls)@), chunk_views(final(chunks)@)) == delta_step(
            (calls_view(old(tool_calls)@), chunk_views(old(chunks)@)),
            call_view(d),
        ),
{
    let ghost calls_before = calls_view(tool_calls@);
    let ghost chunks_before = chunk_views(chunks@);
    let ghost dv = call_view(d);
    match find_tracked(tool_calls, d.index) {
        Some(p) => {
            let mut tc = tool_calls.remove(p);
            if let Some(args) = d.function.arguments {
                let mut a = match tc.function.arguments.take() {
                    Some(a) => a,
                    None => String::new(),
                };
                push_str(&mut a, args.as_str());
                tc.function.arguments = Some(a);
            }
            let name = match &tc.function.name {
                Some(n) => Some(n.clone()),
                None => None,
            };
            tool_calls.insert(p, tc);
            assert(calls_view(tool_calls@) =~= delta_step((calls_before, chunks_before), dv).0);
            if let Some(tool_name) = name {
                chunks.push(
                    Ok(LlmStreamChunk::PendingToolCall(LlmPendingToolCall { index: d.index, tool_name })),
                );
            }
        },
        None => {
            if let Some(tool_name) = &d.function.name {
                chunks.push(
                    Ok(
                        LlmStreamChunk::PendingToolCall(
                            LlmPendingToolCall { index: d.index, tool_name: tool_name.clone() },
                        ),
                    ),
                );
            }
            tool_calls.push(d);
            assert(calls_view(tool_calls@) =~= calls_before.push(dv));
        },
    }
    assert(chunk_views(chunks@) =~= delta_step((calls_before, chunks_before), dv).1);
}

/// Parse chunks from an OpenAI SSE event
pub fn parse_openai_event(
    event: OpenAIStreamResponse,
    tool_calls: &mut Vec<OpenAIStreamToolCall>,
) -> (r: Vec<LlmStreamChunkResult>)
    ensures
        (calls_view(final(tool_calls)@), chunk_views(r@)) == openai_event_outcome(
            event,
            calls_view(old(tool_calls)@),
        ),
{
    let ghost ev = event;
    let OpenAIStreamResponse { choices, usage } = event;
    let mut choices = choices;
    let mut chunks: Vec<LlmStreamChunkResult> = Vec::new();
    let last = choices.pop();
    if let Some(choice) = last {
        if let Some(delta) = choice.delta {
            let OpenAIResponseDelta { content, tool_calls: deltas } = delta;
            if let Some(text) = content {
                chunks.push(Ok(LlmStreamChunk::Text(text)));
            }
            assert(chunk_views(chunks@) =~= match ev.choices@.last().delta.unwrap().content {
                Some(t) => seq![ChunkView::Text(t@)],
                None => Seq::<ChunkView>::empty(),
            });
            if let Some(deltas) = deltas {
                let ghost ds = calls_view(deltas@);
                let ghost start = (calls_view(old(tool_calls)@), chunk_views(chunks@));
                let mut deltas = deltas;
                let ghost all = deltas@;
                let n = deltas.len();
                let mut i: usize = 0;
                while i < n
                    invariant
                        n == ds.len(),
                        i <= n,
                        deltas@.len() == n - i,
                        ds == calls_view(all),
                        all.len() == n,
                        deltas@ == all.skip(i as int),
                        (calls_view(tool_calls@), chunk_views(chunks@)) == deltas_fold(start, ds.take(i as int)),
                    decreases n - i,
                {
                    let d = deltas.remove(0);
                    assert(d == all[i as int]);
                    assert(deltas@ =~= all.skip(i + 1));
                    assert(ds.take(i + 1).drop_last() =~= ds.take(i as int));
                    apply_delta(tool_calls, &mut chunks, d);
                    i += 1;
                }
                assert(ds.take(n as int) =~= ds);
            }
        }
    }
    if let Some(usage) = usage {
        let ghost before = chunk_views(chunks@);
        chunks.push(Ok(LlmStreamChunk::Usage(usage.to_llm_usage())));
        assert(chunk_views(chunks@) =~= before.push(ChunkView::Usage(openai_usage(usage))));
    }
    chunks
}

/// The complete tool call made of a tracked one: it needs an ID, a name, arguments that hold a
/// JSON object, and an offered tool of that name.
pub open spec fn converted_openai_call(
    c: OpenAIStreamToolCall,
    tools: Seq<LlmTool>,
    r: Option<ChatRsToolCall>,
) -> bool {
    match r {
        Some(tc) => {
            &&& c.id == Some(tc.id)
            &&& c.function.name == Some(tc.tool_name)
            &&& c.function.arguments matches Some(a) && json_object_text(a@) == Some(
                tc.parameters@,
            )
            &&& first_tool_named(tools, tc.tool_name@) matches Some(t)
            &&& tc.tool_id == tools[t].tool_id
            &&& tc.tool_type == tools[t].tool_type
        },
        None => {
            ||| c.id is None
            ||| c.function.name is None
            ||| c.function.arguments is None
            ||| json_object_text(c.function.arguments.unwrap()@) is None
            ||| first_tool_named(tools, c.function.name.unwrap()@) is None
        },
    }
}

impl OpenAIStreamToolCall {
    /// Convert OpenAI tool call format to ChatRsToolCall, add tool ID
    pub fn convert(self, rs_chat_tools: &Vec<LlmTool>) -> (r: Option<ChatRsToolCall>)
        ensures
            converted_openai_call(self, rs_chat_tools@, r),
    {
        let id = match self.id {
            Some(id) => id,
            None => return None,
        };
        let tool_name = match self.function.name {
            Some(n) => n,
            None => return None,
        };
        let arguments = match self.function.arguments {
            Some(a) => a,
            None => return None,
        };
        let parameters = match parse_json_object(arguments.as_str()) {
            Some(p) => p,
            None => return None,
        };
        match find_tool(rs_chat_tools, tool_name.as_str()) {
            Some(i) => Some(
                ChatRsToolCall {
                    id,
                    tool_id: rs_chat_tools[i].tool_id,
                    tool_name,
                    tool_type: rs_chat_tools[i].tool_type,
                    parameters,
                },
            ),
            None => None,
        }
    }
}


/// Whether a tracked tool call can be converted with the offered tools.
pub open spec fn openai_convertible(c: OpenAIStreamToolCall, tools: Seq<LlmTool>) -> bool {
    &&& c.id is Some
    &&& c.function.name is Some
    &&& c.function.arguments matches Some(a) && json_object_text(a@) is Some
    &&& first_tool_named(tools, c.function.name.unwrap()@) is Some
}

/// The complete tool calls gathered at the end of an OpenAI stream: those that can be converted,
/// in order (each listed by its source position in `src`).
pub open spec fn converted_openai_calls(
    calls: Seq<OpenAIStreamToolCall>,
    tools: Seq<LlmTool>,
    r: Seq<ChatRsToolCall>,
    src: Seq<int>,
) -> bool {
    &&& src.len() == r.len()
    &&& forall|k: int| 0 <= k < src.len() ==> 0 <= #[trigger] src[k] < calls.len()
    &&& forall|k: int, l: int| 0 <= k < l < src.len() ==> src[k] < src[l]
    &&& forall|k: int|
        0 <= k < src.len() ==> converted_openai_call(calls[src[k]], tools, Some(#[trigger] r[k]))
    &&& forall|j: int| 0 <= j < calls.len() ==> (openai_convertible(calls[j], tools) <==> src.contains(j))
}

/// Converts the tool calls gathered at the end of an OpenAI stream, in order, dropping those that
/// cannot be converted.
pub fn convert_tool_calls(tool_calls: Vec<OpenAIStreamToolCall>, tools: &Vec<LlmTool>) -> (r: Vec<
    ChatRsToolCall,
>)
    ensures
        exists|src: Seq<int>| converted_openai_calls(tool_calls@, tools@, r@, src),
{
    let ghost all = tool_calls@;
    let ghost mut src: Seq<int> = Seq::empty();
    let mut r: Vec<ChatRsToolCall> = Vec::new();
    let mut calls = tool_calls;
    let n = calls.len();
    let mut i: usize = 0;
    while i < n
        invariant
            all.len() == n,
            calls@ == all.skip(i as int),
            i <= n,
            src.len() == r@.len(),
            forall|k: int| 0 <= k < src.len() ==> 0 <= #[trigger] src[k] < i,
            forall|k: int, l: int| 0 <= k < l < src.len() ==> src[k] < src[l],
            forall|k: int|
                0 <= k < src.len() ==> converted_openai_call(all[src[k]], tools@, Some(#[trigger] r@[k])),
            forall|j: int| 0 <= j < i ==> (openai_convertible(all[j], tools@) <==> src.contains(j)),
        decreases n - i,
    {
        let tc = calls.remove(0);
        assert(tc == all[i as int]);
        assert(calls@ =~= all.skip(i + 1));
        let ghost old_src = src;
        if let Some(c) = tc.convert(tools) {
            r.push(c);
            proof {
                src = src.push(i as int);
                assert forall|j: int| 0 <= j < i + 1 implies (openai_convertible(all[j], tools@) <==> src.contains(j)) by {
                    if j < i {
                        if old_src.contains(j) {
                            let k = choose|k: int| 0 <= k < old_src.len() && old_src[k] == j;
                            assert(src[k] == j);
                        }
                        if src.contains(j) {
                            let k = choose|k: int| 0 <= k < src.len() && src[k] == j;
                            if k < old_src.len() {
                                assert(old_src[k] == j);
                            }
                        }
                    } else {
                        assert(src[src.len() - 1] == j);
                    }
                }
            }
        } else {
            proof {
                assert(!src.contains(i as int));
            }
        }
        i += 1;
    }
    assert(converted_openai_calls(all, tools@, r@, src));
    r
}

/// The text of a prompt response: the content of its first choice's message.
pub fn prompt_text(response: OpenAIResponse) -> (r: Result<String, LlmError>)
    ensures
        match r {
            Ok(t) => response.choices@.len() > 0 && (response.choices@[0].message matches Some(m)
                && m.content == Some(t)),
            Err(e) => e is NoResponse && !(response.choices@.len() > 0 && (response.choices@[0].message matches Some(m)
                && m.content is Some)),
        },
{
    let mut choices = response.choices;
    if choices.len() == 0 {
        return Err(LlmError::NoResponse);
    }
    match choices.swap_remove(0).message {
        Some(message) => match message.content {
            Some(text) => Ok(text),
            None => Err(LlmError::NoResponse),
        },
        None => Err(LlmError::NoResponse),
    }
}

} // verus!
