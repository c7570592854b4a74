//! Accumulation of a provider's response stream into chunks that are flushed to a stream
//! store, and into the complete response that is saved at the end.

use crate::provider::{
    error_message, ChatRsToolCall, LlmPendingToolCall, LlmStreamChunk, LlmStreamChunkResult,
    LlmStreamError, LlmUsage,
};
use crate::text::push_str;
use vstd::prelude::*;

verus! {

/// Max accumulated size (in bytes) of the text chunk before it is flushed.
pub const MAX_CHUNK_SIZE: usize = 200;

/// An entry of the stream store.
#[derive(Debug)]
pub enum RedisStreamChunk {
    Start,
    Ping,
    Text(String),
    ToolCall(ChatRsToolCall),
    PendingToolCall(LlmPendingToolCall),
    Error(String),
    Cancel,
    End,
}

/// The content of a stream store entry.
pub enum ChunkEntry {
    Start,
    Ping,
    Text(Seq<char>),
    ToolCall(ChatRsToolCall),
    PendingToolCall(LlmPendingToolCall),
    Error(Seq<char>),
    Cancel,
    End,
}

impl View for RedisStreamChunk {
    type V = ChunkEntry;

    open spec fn view(&self) -> ChunkEntry {
        match self {
            RedisStreamChunk::Start => ChunkEntry::Start,
            RedisStreamChunk::Ping => ChunkEntry::Ping,
            RedisStreamChunk::Text(s) => ChunkEntry::Text(s@),
            RedisStreamChunk::ToolCall(c) => ChunkEntry::ToolCall(*c),
            RedisStreamChunk::PendingToolCall(p) => ChunkEntry::PendingToolCall(*p),
            RedisStreamChunk::Error(s) => ChunkEntry::Error(s@),
            RedisStreamChunk::Cancel => ChunkEntry::Cancel,
            RedisStreamChunk::End => ChunkEntry::End,
        }
    }
}

/// The data gathered since the last flush.
pub struct ChunkModel {
    pub text: Option<Seq<char>>,
    pub tool_calls: Option<Seq<ChatRsToolCall>>,
    pub pending_tool_calls: Option<Seq<LlmPendingToolCall>>,
    pub error: Option<Seq<char>>,
}

/// Everything gathered from the stream so far.
pub struct StreamModel {
    pub chunk: ChunkModel,
    pub complete_text: Option<Seq<char>>,
    pub tool_calls: Option<Seq<ChatRsToolCall>>,
    pub errors: Option<Seq<LlmStreamError>>,
    pub usage: Option<LlmUsage>,
    pub cancelled: bool,
}

pub open spec fn empty_chunk() -> ChunkModel {
    ChunkModel { text: None, tool_calls: None, pending_tool_calls: None, error: None }
}

pub open spec fn initial_model() -> StreamModel {
    StreamModel {
        chunk: empty_chunk(),
        complete_text: None,
        tool_calls: None,
        errors: None,
        usage: None,
        cancelled: false,
    }
}

/// Appends to an optional sequence, starting from the empty sequence when there is none.
pub open spec fn append_opt<T>(o: Option<Seq<T>>, s: Seq<T>) -> Option<Seq<T>> {
    match o {
        Some(x) => Some(x + s),
        None => Some(s),
    }
}

/// Usage fields that the new report sets replace the old ones; the others are kept.
pub open spec fn merge_usage(old: Option<LlmUsage>, u: LlmUsage) -> LlmUsage {
    let b = match old {
        Some(b) => b,
        None => LlmUsage { input_tokens: None, output_tokens: None, cost: None },
    };
    LlmUsage {
        input_tokens: if u.input_tokens is Some { u.input_tokens } else { b.input_tokens },
        output_tokens: if u.output_tokens is Some { u.output_tokens } else { b.output_tokens },
        cost: if u.cost is Some { u.cost } else { b.cost },
    }
}

pub open spec fn has_pending_index(ps: Seq<LlmPendingToolCall>, index: usize) -> bool {
    exists|i: int| 0 <= i < ps.len() && #[trigger] ps[i].index == index
}

/// A pending tool call is added unless one with the same index is already in the chunk.
pub open spec fn add_pending(
    o: Option<Seq<LlmPendingToolCall>>,
    p: LlmPendingToolCall,
) -> Option<Seq<LlmPendingToolCall>> {
    let ps = match o {
        Some(ps) => ps,
        None => Seq::empty(),
    };
    if has_pending_index(ps, p.index) {
        Some(ps)
    } else {
        Some(ps.push(p))
    }
}

pub open spec fn with_text(m: StreamModel, t: Seq<char>) -> StreamModel {
    StreamModel {
        chunk: ChunkModel { text: append_opt(m.chunk.text, t), ..m.chunk },
        complete_text: append_opt(m.complete_text, t),
        ..m
    }
}

pub open spec fn with_tool_calls(m: StreamModel, calls: Seq<ChatRsToolCall>) -> StreamModel {
    StreamModel {
        chunk: ChunkModel { tool_calls: append_opt(m.chunk.tool_calls, calls), ..m.chunk },
        tool_calls: append_opt(m.tool_calls, calls),
        ..m
    }
}

pub open spec fn with_pending(m: StreamModel, p: LlmPendingToolCall) -> StreamModel {
    StreamModel {
        chunk: ChunkModel {
            pending_tool_calls: add_pending(m.chunk.pending_tool_calls, p),
            ..m.chunk
        },
        ..m
    }
}

pub open spec fn with_usage(m: StreamModel, u: LlmUsage) -> StreamModel {
    StreamModel { usage: Some(merge_usage(m.usage, u)), ..m }
}

pub open spec fn with_error(m: StreamModel, e: LlmStreamError) -> StreamModel {
    StreamModel {
        chunk: ChunkModel { error: Some(error_message(e)), ..m.chunk },
        errors: append_opt(m.errors, seq![e]),
        ..m
    }
}

/// The effect of one item of the provider's stream.
pub open spec fn apply_item(m: StreamModel, item: LlmStreamChunkResult) -> StreamModel {
    match item {
        Ok(LlmStreamChunk::Text(t)) => with_text(m, t@),
        Ok(LlmStreamChunk::ToolCalls(calls)) => with_tool_calls(m, calls@),
        Ok(LlmStreamChunk::PendingToolCall(p)) => with_pending(m, p),
        Ok(LlmStreamChunk::Usage(u)) => with_usage(m, u),
        Err(e) => with_error(m, e),
    }
}

/// The entries that a chunk is flushed as: its text, each tool call, each pending tool call,
/// then its error.
pub open spec fn chunk_entries(c: ChunkModel) -> Seq<ChunkEntry> {
    let text: Seq<ChunkEntry> = match c.text {
        Some(t) => seq![ChunkEntry::Text(t)],
        None => Seq::empty(),
    };
    let calls: Seq<ChunkEntry> = match c.tool_calls {
        Some(cs) => cs.map_values(|tc: ChatRsToolCall| ChunkEntry::ToolCall(tc)),
        None => Seq::empty(),
    };
    let pending: Seq<ChunkEntry> = match c.pending_tool_calls {
        Some(ps) => ps.map_values(|p: LlmPendingToolCall| ChunkEntry::PendingToolCall(p)),
        None => Seq::empty(),
    };
    let error: Seq<ChunkEntry> = match c.error {
        Some(e) => seq![ChunkEntry::Error(e)],
        None => Seq::empty(),
    };
    text + calls + pending + error
}

/// Number of bytes of the UTF-8 encoding of a text, as `str::len` reports it.
pub open spec fn utf8_len(t: Seq<char>) -> usize {
    vstd::utf8::encode_utf8(t).len() as usize
}

/// Whether a chunk is flushed: tool calls and errors are flushed at once, text when the flush
/// interval has passed or the text exceeds the maximum chunk size.
pub open spec fn flush_due(c: ChunkModel, elapsed_ms: u64, interval_ms: u64) -> bool {
    ||| c.tool_calls is Some
    ||| c.error is Some
    ||| elapsed_ms > interval_ms
    ||| (c.text matches Some(t) && utf8_len(t) > MAX_CHUNK_SIZE)
}

/// The data of the current chunk.
#[derive(Debug)]
struct ChunkState {
    text: Option<String>,
    tool_calls: Option<Vec<ChatRsToolCall>>,
    pending_tool_calls: Option<Vec<LlmPendingToolCall>>,
    error: Option<String>,
}

/// Accumulates a provider's response stream, chunk by chunk.
#[derive(Debug)]
pub struct StreamAccumulator {
    current_chunk: ChunkState,
    complete_text: Option<String>,
    tool_calls: Option<Vec<ChatRsToolCall>>,
    errors: Option<Vec<LlmStreamError>>,
    usage: Option<LlmUsage>,
    cancelled: bool,
}

pub open spec fn opt_view(o: Option<String>) -> Option<Seq<char>> {
    match o {
        Some(s) => Some(s@),
        None => None,
    }
}

pub open spec fn opt_vec_view<T>(o: Option<Vec<T>>) -> Option<Seq<T>> {
    match o {
        Some(v) => Some(v@),
        None => None,
    }
}

impl View for StreamAccumulator {
    type V = StreamModel;

    closed spec fn view(&self) -> StreamModel {
        StreamModel {
            chunk: ChunkModel {
                text: opt_view(self.current_chunk.text),
                tool_calls: opt_vec_view(self.current_chunk.tool_calls),
                pending_tool_calls: opt_vec_view(self.current_chunk.pending_tool_calls),
                error: opt_view(self.current_chunk.error),
            },
            complete_text: opt_view(self.complete_text),
            tool_calls: opt_vec_view(self.tool_calls),
            errors: opt_vec_view(self.errors),
            usage: self.usage,
            cancelled: self.cancelled,
        }
    }
}

pub(crate) fn append_text(slot: &mut Option<String>, text: &str)
    ensures
        opt_view(*final(slot)) == append_opt(opt_view(*old(slot)), text@),
{
    let mut s = match slot.take() {
        Some(s) => s,
        None => String::new(),
    };
    push_str(&mut s, text);
    *slot = Some(s);
}

pub(crate) fn append_calls(slot: &mut Option<Vec<ChatRsToolCall>>, calls: &Vec<ChatRsToolCall>)
    ensures
        opt_vec_view(*final(slot)) == append_opt(opt_vec_view(*old(slot)), calls@),
{
    let mut v = match slot.take() {
        Some(v) => v,
        None => Vec::new(),
    };
    let ghost start = v@;
    for i in 0..calls.len()
        invariant
            v@ == start + calls@.take(i as int),
    {
        v.push(calls[i].clone());
        assert(calls@.take(i as int).push(calls@[i as int]) =~= calls@.take(i + 1));
    }
    assert(calls@.take(calls.len() as int) =~= calls@);
    *slot = Some(v);
}

fn contains_index(ps: &Vec<LlmPendingToolCall>, index: usize) -> (r: bool)
    ensures
        r == has_pending_index(ps@, index),
{
    for i in 0..ps.len()
        invariant
            forall|j: int| 0 <= j < i ==> ps@[j].index != index,
    {
        if ps[i].index == index {
            return true;
        }
    }
    false
}

impl StreamAccumulator {
    /// An accumulator that has seen nothing yet.
    pub fn new() -> (r: StreamAccumulator)
        ensures
            r@ == initial_model(),
    {
        StreamAccumulator {
            current_chunk: ChunkState {
                text: None,
                tool_calls: None,
                pending_tool_calls: None,
                error: None,
            },
            complete_text: None,
            tool_calls: None,
            errors: None,
            usage: None,
            cancelled: false,
        }
    }

    /// Adds text to the current chunk and to the complete response.
    pub fn process_text(&mut self, text: &str)
        ensures
            final(self)@ == with_text(old(self)@, text@),
    {
        append_text(&mut self.current_chunk.text, text);
        append_text(&mut self.complete_text, text);
    }

    /// Adds complete tool calls to the current chunk and to the complete response.
    pub fn process_tool_calls(&mut self, tool_calls: Vec<ChatRsToolCall>)
        ensures
            final(self)@ == with_tool_calls(old(self)@, tool_calls@),
    {
        append_calls(&mut self.current_chunk.tool_calls, &tool_calls);
        append_calls(&mut self.tool_calls, &tool_calls);
    }

    /// Adds a pending tool call to the current chunk, unless one with the same index is there.
    pub fn process_pending_tool_call(&mut self, tool_call: LlmPendingToolCall)
        ensures
            final(self)@ == with_pending(old(self)@, tool_call),
    {
        let mut ps = match self.current_chunk.pending_tool_calls.take() {
            Some(ps) => ps,
            None => Vec::new(),
        };
        if !contains_index(&ps, tool_call.index) {
            ps.push(tool_call);
        }
        self.current_chunk.pending_tool_calls = Some(ps);
    }

    /// Merges a usage report into the usage gathered so far.
    pub fn process_usage(&mut self, usage_chunk: LlmUsage)
        ensures
            final(self)@ == with_usage(old(self)@, usage_chunk),
    {
        let mut usage = match self.usage {
            Some(u) => u,
            None => LlmUsage::empty(),
        };
        if let Some(input_tokens) = usage_chunk.input_tokens {
            usage.input_tokens = Some(input_tokens);
        }
        if let Some(output_tokens) = usage_chunk.output_tokens {
            usage.output_tokens = Some(output_tokens);
        }
        if let Some(cost) = usage_chunk.cost {
            usage.cost = Some(cost);
        }
        self.usage = Some(usage);
    }

    /// Records an error, in the current chunk and in the list of errors.
    pub fn process_error(&mut self, err: LlmStreamError)
        ensures
            final(self)@ == with_error(old(self)@, err),
    {
        self.current_chunk.error = Some(err.message());
        let mut errors = match self.errors.take() {
            Some(e) => e,
            None => Vec::new(),
        };
        errors.push(err);
        self.errors = Some(errors);
        assert(errors@ =~= append_opt(opt_vec_view(old(self).errors), seq![err]).unwrap());
    }

    /// Processes one item of the provider's stream.
    pub fn process_item(&mut self, item: LlmStreamChunkResult)
        ensures
            final(self)@ == apply_item(old(self)@, item),
    {
        match item {
            Ok(LlmStreamChunk::Text(text)) => self.process_text(text.as_str()),
            Ok(LlmStreamChunk::ToolCalls(calls)) => self.process_tool_calls(calls),
            Ok(LlmStreamChunk::PendingToolCall(p)) => self.process_pending_tool_call(p),
            Ok(LlmStreamChunk::Usage(u)) => self.process_usage(u),
            Err(e) => self.process_error(e),
        }
    }

    /// Whether the current chunk should be flushed, `elapsed_ms` after the last flush.
    pub fn should_flush(&self, elapsed_ms: u64, interval_ms: u64) -> (r: bool)
        ensures
            r == flush_due(self@.chunk, elapsed_ms, interval_ms),
    {
        if self.current_chunk.tool_calls.is_some() || self.current_chunk.error.is_some() {
            return true;
        }
        match &self.current_chunk.text {
            Some(t) => elapsed_ms > interval_ms || t.as_str().len() > MAX_CHUNK_SIZE,
            None => elapsed_ms > interval_ms,
        }
    }

    /// Takes the current chunk, leaving an empty one, and returns the entries to write.
    pub fn take_chunk(&mut self) -> (r: Vec<RedisStreamChunk>)
        ensures
            r@.map_values(|e: RedisStreamChunk| e@) == chunk_entries(old(self)@.chunk),
            final(self)@ == (StreamModel { chunk: empty_chunk(), ..old(self)@ }),
    {
        let text = self.current_chunk.text.take();
        let tool_calls = self.current_chunk.tool_calls.take();
        let pending = self.current_chunk.pending_tool_calls.take();
        let error = self.current_chunk.error.take();
        let ghost c = old(self)@.chunk;
        let mut r: Vec<RedisStreamChunk> = Vec::new();
        if let Some(t) = text {
            r.push(RedisStreamChunk::Text(t));
        }
        let ghost text_part = r@.map_values(|e: RedisStreamChunk| e@);
        proof {
            let t: Seq<ChunkEntry> = match c.text {
                Some(t) => seq![ChunkEntry::Text(t)],
                None => Seq::empty(),
            };
            assert(text_part =~= t);
        }
        if let Some(calls) = tool_calls {
            let ghost before = r@;
            let mut i: usize = 0;
            let n = calls.len();
            while i < n
                invariant
                    n == calls@.len(),
                    i <= n,
                    r@.len() == before.len() + i,
                    forall|k: int| 0 <= k < before.len() ==> r@[k] == before[k],
                    forall|k: int|
                        0 <= k < i ==> r@[before.len() + k]@ == ChunkEntry::ToolCall(calls@[k]),
                decreases n - i,
            {
                r.push(RedisStreamChunk::ToolCall(calls[i].clone()));
                i += 1;
            }
            assert(r@.map_values(|e: RedisStreamChunk| e@) =~= text_part + calls@.map_values(
                |tc: ChatRsToolCall| ChunkEntry::ToolCall(tc),
            ));
        }
        let ghost calls_part = r@.map_values(|e: RedisStreamChunk| e@);
        if let Some(ps) = pending {
            let ghost before = r@;
            let n = ps.len();
            let mut i: usize = 0;
            while i < n
                invariant
                    n == ps@.len(),
                    i <= n,
                    r@.len() == before.len() + i,
                    forall|k: int| 0 <= k < before.len() ==> r@[k] == before[k],
                    forall|k: int|
                        0 <= k < i ==> r@[before.len() + k]@ == ChunkEntry::PendingToolCall(ps@[k]),
                decreases n - i,
            {
                r.push(RedisStreamChunk::PendingToolCall(ps[i].clone()));
                i += 1;
            }
            assert(r@.map_values(|e: RedisStreamChunk| e@) =~= calls_part + ps@.map_values(
                |p: LlmPendingToolCall| ChunkEntry::PendingToolCall(p),
            ));
        }
        let ghost pending_part = r@.map_values(|e: RedisStreamChunk| e@);
        if let Some(e) = error {
            r.push(RedisStreamChunk::Error(e));
            assert(r@.map_values(|e: RedisStreamChunk| e@) =~= pending_part + seq![
                ChunkEntry::Error(c.error.unwrap()),
            ]);
        }
        proof {
            let entries = chunk_entries(c);
            assert(r@.map_values(|e: RedisStreamChunk| e@) =~= entries);
        }
        r
    }

    /// Takes note of the outcome of a flush. A cancelled stream stops the processing; other
    /// failures are recorded as errors. Returns whether processing goes on.
    pub fn on_flush_result(&mut self, result: Result<(), LlmStreamError>) -> (go_on: bool)
        ensures
            flush_outcome(old(self)@, result, final(self)@, go_on),
    {
        match result {
            Ok(()) => true,
            Err(e) => {
                if e.is_cancelled() {
                    let mut errors = match self.errors.take() {
                        Some(v) => v,
                        None => Vec::new(),
                    };
                    errors.push(e);
                    self.errors = Some(errors);
                    self.cancelled = true;
                    assert(errors@ =~= append_opt(opt_vec_view(old(self).errors), seq![e]).unwrap());
                    false
                } else {
                    self.process_error(e);
                    true
                }
            },
        }
    }
}


/// What the stream processing receives next.
#[derive(Debug)]
pub enum StreamEvent {
    /// An item of the provider's stream.
    Item(LlmStreamChunkResult),
    /// The provider's stream has ended.
    Ended,
    /// No item came from the provider within the timeout.
    TimedOut,
}

/// What the stream processing does next.
#[derive(Debug)]
pub enum StreamAction {
    /// Wait for the next event.
    Continue,
    /// Write these entries, report the outcome with `on_flush_result`, then go on.
    Flush(Vec<RedisStreamChunk>),
    /// Write these entries, ignore the outcome, and finish.
    FinalFlush(Vec<RedisStreamChunk>),
}

/// The next model and action after an event, `elapsed_ms` after the last flush: an item is
/// processed and the chunk is flushed when due; at the end of the stream, or when the provider
/// timed out (which is recorded as an error), the chunk is flushed one last time.
pub open spec fn event_outcome(
    m0: StreamModel,
    event: StreamEvent,
    elapsed_ms: u64,
    interval_ms: u64,
    m1: StreamModel,
    r: StreamAction,
) -> bool {
    match event {
        StreamEvent::Item(item) => {
            let m = apply_item(m0, item);
            if flush_due(m.chunk, elapsed_ms, interval_ms) {
                &&& r matches StreamAction::Flush(es)
                &&& es@.map_values(|e: RedisStreamChunk| e@) == chunk_entries(m.chunk)
                &&& m1 == (StreamModel { chunk: empty_chunk(), ..m })
            } else {
                r is Continue && m1 == m
            }
        },
        StreamEvent::Ended => {
            &&& r matches StreamAction::FinalFlush(es)
            &&& es@.map_values(|e: RedisStreamChunk| e@) == chunk_entries(m0.chunk)
            &&& m1 == (StreamModel { chunk: empty_chunk(), ..m0 })
        },
        StreamEvent::TimedOut => {
            let m = with_error(m0, LlmStreamError::StreamTimeout);
            &&& r matches StreamAction::FinalFlush(es)
            &&& es@.map_values(|e: RedisStreamChunk| e@) == chunk_entries(m.chunk)
            &&& m1 == (StreamModel { chunk: empty_chunk(), ..m })
        },
    }
}

/// The next model after the outcome of a flush: a cancelled stream stops the processing,
/// other failures are recorded as errors.
pub open spec fn flush_outcome(
    m0: StreamModel,
    result: Result<(), LlmStreamError>,
    m1: StreamModel,
    go_on: bool,
) -> bool {
    match result {
        Ok(()) => go_on && m1 == m0,
        Err(e) => if e is StreamCancelled {
            &&& !go_on
            &&& m1 == (StreamModel {
                errors: append_opt(m0.errors, seq![e]),
                cancelled: true,
                ..m0
            })
        } else {
            go_on && m1 == with_error(m0, e)
        },
    }
}

/// The accumulated response handed out at the end: complete text, tool calls, usage, error
/// messages and whether the stream was cancelled; the model no longer holds them.
pub open spec fn finish_outcome(
    m0: StreamModel,
    r: (Option<String>, Option<Vec<ChatRsToolCall>>, Option<LlmUsage>, Option<Vec<String>>, bool),
    m1: StreamModel,
) -> bool {
    &&& opt_view(r.0) == m0.complete_text
    &&& opt_vec_view(r.1) == m0.tool_calls
    &&& r.2 == m0.usage
    &&& match r.3 {
        Some(msgs) => m0.errors matches Some(es) && msgs@.map_values(|m: String| m@)
            == es.map_values(|e: LlmStreamError| error_message(e)),
        None => m0.errors is None,
    }
    &&& r.4 == m0.cancelled
    &&& m1 == (StreamModel {
        complete_text: None,
        tool_calls: None,
        errors: None,
        usage: None,
        ..m0
    })
}

impl StreamAccumulator {
    /// Decides the next action after an event, `elapsed_ms` after the last flush.
    pub fn on_event(&mut self, event: StreamEvent, elapsed_ms: u64, interval_ms: u64) -> (r:
        StreamAction)
        ensures
            event_outcome(old(self)@, event, elapsed_ms, interval_ms, final(self)@, r),
    {
        match event {
            StreamEvent::Item(item) => {
                self.process_item(item);
                if self.should_flush(elapsed_ms, interval_ms) {
                    StreamAction::Flush(self.take_chunk())
                } else {
                    StreamAction::Continue
                }
            },
            StreamEvent::Ended => StreamAction::FinalFlush(self.take_chunk()),
            StreamEvent::TimedOut => {
                self.process_error(LlmStreamError::StreamTimeout);
                StreamAction::FinalFlush(self.take_chunk())
            },
        }
    }

    /// Hands out the accumulated response: the complete text, the tool calls, the usage, the
    /// error messages, and whether the stream was cancelled.
    pub fn finish(&mut self) -> (r: (
        Option<String>,
        Option<Vec<ChatRsToolCall>>,
        Option<LlmUsage>,
        Option<Vec<String>>,
        bool,
    ))
        ensures
            finish_outcome(old(self)@, r, final(self)@),
    {
        let complete_text = self.complete_text.take();
        let tool_calls = self.tool_calls.take();
        let usage = self.usage.take();
        let errors = match self.errors.take() {
            Some(es) => {
                let mut msgs: Vec<String> = Vec::new();
                for i in 0..es.len()
                    invariant
                        msgs@.len() == i,
                        forall|k: int| 0 <= k < i ==> msgs@[k]@ == error_message(es@[k]),
                {
                    msgs.push(es[i].message());
                }
                assert(msgs@.map_values(|m: String| m@) =~= es@.map_values(
                    |e: LlmStreamError| error_message(e),
                ));
                Some(msgs)
            },
            None => None,
        };
        (complete_text, tool_calls, usage, errors, self.cancelled)
    }
}

/// The model after a sequence of stream items, one after the other.
pub open spec fn apply_items(m: StreamModel, items: Seq<LlmStreamChunkResult>) -> StreamModel
    decreases items.len(),
{
    if items.len() == 0 {
        m
    } else {
        apply_item(apply_items(m, items.drop_last()), items.last())
    }
}

/// Whether any item is a text chunk.
pub open spec fn has_text(items: Seq<LlmStreamChunkResult>) -> bool {
    exists|i: int| 0 <= i < items.len() && #[trigger] items[i] matches Ok(LlmStreamChunk::Text(_))
}

/// The texts of the text chunks, concatenated in order.
pub open spec fn items_text(items: Seq<LlmStreamChunkResult>) -> Seq<char>
    decreases items.len(),
{
    if items.len() == 0 {
        Seq::empty()
    } else {
        items_text(items.drop_last()) + match items.last() {
            Ok(LlmStreamChunk::Text(t)) => t@,
            _ => Seq::empty(),
        }
    }
}

/// Whether any item is a tool-calls chunk.
pub open spec fn has_tool_calls(items: Seq<LlmStreamChunkResult>) -> bool {
    exists|i: int|
        0 <= i < items.len() && #[trigger] items[i] matches Ok(LlmStreamChunk::ToolCalls(_))
}

/// The tool calls of the tool-calls chunks, in order.
pub open spec fn items_tool_calls(items: Seq<LlmStreamChunkResult>) -> Seq<ChatRsToolCall>
    decreases items.len(),
{
    if items.len() == 0 {
        Seq::empty()
    } else {
        items_tool_calls(items.drop_last()) + match items.last() {
            Ok(LlmStreamChunk::ToolCalls(cs)) => cs@,
            _ => Seq::empty(),
        }
    }
}

/// The errors among the items, in order.
pub open spec fn items_errors(items: Seq<LlmStreamChunkResult>) -> Seq<LlmStreamError>
    decreases items.len(),
{
    if items.len() == 0 {
        Seq::empty()
    } else {
        items_errors(items.drop_last()) + match items.last() {
            Err(e) => seq![e],
            _ => Seq::empty(),
        }
    }
}

/// Whether any item is a usage report.
pub open spec fn has_usage(items: Seq<LlmStreamChunkResult>) -> bool {
    exists|i: int| 0 <= i < items.len() && #[trigger] items[i] matches Ok(LlmStreamChunk::Usage(_))
}

/// The input token count of the last usage report that sets one.
pub open spec fn last_input_tokens(items: Seq<LlmStreamChunkResult>) -> Option<u32>
    decreases items.len(),
{
    if items.len() == 0 {
        None
    } else {
        match items.last() {
            Ok(LlmStreamChunk::Usage(u)) if u.input_tokens is Some => u.input_tokens,
            _ => last_input_tokens(items.drop_last()),
        }
    }
}

/// The output token count of the last usage report that sets one.
pub open spec fn last_output_tokens(items: Seq<LlmStreamChunkResult>) -> Option<u32>
    decreases items.len(),
{
    if items.len() == 0 {
        None
    } else {
        match items.last() {
            Ok(LlmStreamChunk::Usage(u)) if u.output_tokens is Some => u.output_tokens,
            _ => last_output_tokens(items.drop_last()),
        }
    }
}

/// The cost of the last usage report that sets one.
pub open spec fn last_cost(items: Seq<LlmStreamChunkResult>) -> Option<u32>
    decreases items.len(),
{
    if items.len() == 0 {
        None
    } else {
        match items.last() {
            Ok(LlmStreamChunk::Usage(u)) if u.cost is Some => u.cost,
            _ => last_cost(items.drop_last()),
        }
    }
}

/// The complete text of the response is the concatenation of all text chunks, in the order in
/// which they arrived; there is none when no text chunk arrived.
pub proof fn law_complete_text_is_concatenation(items: Seq<LlmStreamChunkResult>)
    ensures
        apply_items(initial_model(), items).complete_text == (if has_text(items) {
            Some(items_text(items))
        } else {
            None
        }),
    decreases items.len(),
{
    if items.len() > 0 {
        let init = items.drop_last();
        law_complete_text_is_concatenation(init);
        if has_text(init) {
            let i = choose|i: int| 0 <= i < init.len() && #[trigger] init[i] matches Ok(LlmStreamChunk::Text(_));
            assert(items[i] == init[i]);
        }
        match items.last() {
            Ok(LlmStreamChunk::Text(t)) => {
                assert(items[items.len() - 1] matches Ok(LlmStreamChunk::Text(_)));
                if !has_text(init) {
                    assert(items_text(init) =~= Seq::<char>::empty()) by {
                        lemma_no_text_empty(init);
                    }
                    assert(items_text(items) =~= t@);
                }
            },
            _ => {
                if has_text(items) {
                    let i = choose|i: int| 0 <= i < items.len() && #[trigger] items[i] matches Ok(LlmStreamChunk::Text(_));
                    assert(init[i] == items[i]);
                }
                assert(items_text(items) =~= items_text(init));
            },
        }
    }
}

proof fn lemma_no_text_empty(items: Seq<LlmStreamChunkResult>)
    requires
        !has_text(items),
    ensures
        items_text(items) == Seq::<char>::empty(),
    decreases items.len(),
{
    if items.len() > 0 {
        let init = items.drop_last();
        assert(!has_text(init)) by {
            if has_text(init) {
                let i = choose|i: int| 0 <= i < init.len() && #[trigger] init[i] matches Ok(LlmStreamChunk::Text(_));
                assert(items[i] == init[i]);
            }
        }
        lemma_no_text_empty(init);
        assert(!(items[items.len() - 1] matches Ok(LlmStreamChunk::Text(_))));
        assert(items_text(items) =~= Seq::<char>::empty());
    }
}

proof fn lemma_no_tool_calls_empty(items: Seq<LlmStreamChunkResult>)
    requires
        !has_tool_calls(items),
    ensures
        items_tool_calls(items) == Seq::<ChatRsToolCall>::empty(),
    decreases items.len(),
{
    if items.len() > 0 {
        let init = items.drop_last();
        assert(!has_tool_calls(init)) by {
            if has_tool_calls(init) {
                let i = choose|i: int| 0 <= i < init.len() && #[trigger] init[i] matches Ok(LlmStreamChunk::ToolCalls(_));
                assert(items[i] == init[i]);
            }
        }
        lemma_no_tool_calls_empty(init);
        assert(!(items[items.len() - 1] matches Ok(LlmStreamChunk::ToolCalls(_))));
        assert(items_tool_calls(items) =~= Seq::<ChatRsToolCall>::empty());
    }
}

/// The tool calls of the response are those of all tool-calls chunks, in the order in which
/// they arrived; there are none when no tool-calls chunk arrived.
pub proof fn law_tool_calls_are_concatenation(items: Seq<LlmStreamChunkResult>)
    ensures
        apply_items(initial_model(), items).tool_calls == (if has_tool_calls(items) {
            Some(items_tool_calls(items))
        } else {
            None
        }),
    decreases items.len(),
{
    if items.len() > 0 {
        let init = items.drop_last();
        law_tool_calls_are_concatenation(init);
        if has_tool_calls(init) {
            let i = choose|i: int| 0 <= i < init.len() && #[trigger] init[i] matches Ok(LlmStreamChunk::ToolCalls(_));
            assert(items[i] == init[i]);
        }
        match items.last() {
            Ok(LlmStreamChunk::ToolCalls(cs)) => {
                assert(items[items.len() - 1] matches Ok(LlmStreamChunk::ToolCalls(_)));
                if !has_tool_calls(init) {
                    lemma_no_tool_calls_empty(init);
                    assert(items_tool_calls(items) =~= cs@);
                }
            },
            _ => {
                if has_tool_calls(items) {
                    let i = choose|i: int| 0 <= i < items.len() && #[trigger] items[i] matches Ok(LlmStreamChunk::ToolCalls(_));
                    assert(init[i] == items[i]);
                }
                assert(items_tool_calls(items) =~= items_tool_calls(init));
            },
        }
    }
}

/// Whether any item is an error.
pub open spec fn has_error(items: Seq<LlmStreamChunkResult>) -> bool {
    exists|i: int| 0 <= i < items.len() && #[trigger] items[i] is Err
}

proof fn lemma_no_errors_empty(items: Seq<LlmStreamChunkResult>)
    requires
        !has_error(items),
    ensures
        items_errors(items) == Seq::<LlmStreamError>::empty(),
    decreases items.len(),
{
    if items.len() > 0 {
        let init = items.drop_last();
        assert(!has_error(init)) by {
            if has_error(init) {
                let i = choose|i: int| 0 <= i < init.len() && #[trigger] init[i] is Err;
                assert(items[i] == init[i]);
            }
        }
        lemma_no_errors_empty(init);
        assert(!(items[items.len() - 1] is Err));
        assert(items_errors(items) =~= Seq::<LlmStreamError>::empty());
    }
}

/// Every error of the provider's stream is kept, in the order in which it arrived; there are
/// none when no error arrived.
pub proof fn law_errors_are_kept_in_order(items: Seq<LlmStreamChunkResult>)
    ensures
        apply_items(initial_model(), items).errors == (if has_error(items) {
            Some(items_errors(items))
        } else {
            None
        }),
    decreases items.len(),
{
    if items.len() > 0 {
        let init = items.drop_last();
        law_errors_are_kept_in_order(init);
        if has_error(init) {
            let i = choose|i: int| 0 <= i < init.len() && #[trigger] init[i] is Err;
            assert(items[i] == init[i]);
        }
        match items.last() {
            Err(e) => {
                assert(items[items.len() - 1] is Err);
                if !has_error(init) {
                    lemma_no_errors_empty(init);
                    assert(items_errors(items) =~= seq![e]);
                }
            },
            _ => {
                if has_error(items) {
                    let i = choose|i: int| 0 <= i < items.len() && #[trigger] items[i] is Err;
                    assert(init[i] == items[i]);
                }
                assert(items_errors(items) =~= items_errors(init));
            },
        }
    }
}

/// The usage of the response holds, field by field, the last value that any usage report set;
/// there is none when no usage report arrived.
pub proof fn law_usage_keeps_last_reported_values(items: Seq<LlmStreamChunkResult>)
    ensures
        apply_items(initial_model(), items).usage is Some == has_usage(items),
        has_usage(items) ==> apply_items(initial_model(), items).usage == Some(
            LlmUsage {
                input_tokens: last_input_tokens(items),
                output_tokens: last_output_tokens(items),
                cost: last_cost(items),
            },
        ),
    decreases items.len(),
{
    if items.len() > 0 {
        let init = items.drop_last();
        law_usage_keeps_last_reported_values(init);
        if has_usage(init) {
            let i = choose|i: int| 0 <= i < init.len() && #[trigger] init[i] matches Ok(LlmStreamChunk::Usage(_));
            assert(items[i] == init[i]);
        }
        match items.last() {
            Ok(LlmStreamChunk::Usage(u)) => {
                assert(items[items.len() - 1] matches Ok(LlmStreamChunk::Usage(_)));
                if !has_usage(init) {
                    lemma_no_usage_none(init);
                }
            },
            _ => {
                if has_usage(items) {
                    let i = choose|i: int| 0 <= i < items.len() && #[trigger] items[i] matches Ok(LlmStreamChunk::Usage(_));
                    assert(init[i] == items[i]);
                }
            },
        }
    }
}

proof fn lemma_no_usage_none(items: Seq<LlmStreamChunkResult>)
    requires
        !has_usage(items),
    ensures
        last_input_tokens(items) is None,
        last_output_tokens(items) is None,
        last_cost(items) is None,
    decreases items.len(),
{
    if items.len() > 0 {
        let init = items.drop_last();
        assert(!has_usage(init)) by {
            if has_usage(init) {
                let i = choose|i: int| 0 <= i < init.len() && #[trigger] init[i] matches Ok(LlmStreamChunk::Usage(_));
                assert(items[i] == init[i]);
            }
        }
        lemma_no_usage_none(init);
        assert(!(items[items.len() - 1] matches Ok(LlmStreamChunk::Usage(_))));
    }
}

/// No two pending tool calls of a chunk have the same index.
pub open spec fn pending_indices_distinct(c: ChunkModel) -> bool {
    c.pending_tool_calls matches Some(ps) ==> forall|i: int, j: int|
        0 <= i < j < ps.len() ==> #[trigger] ps[i].index != #[trigger] ps[j].index
}

/// Processing stream items never puts two pending tool calls with the same index in a chunk.
pub proof fn law_pending_tool_calls_distinct(m: StreamModel, item: LlmStreamChunkResult)
    requires
        pending_indices_distinct(m.chunk),
    ensures
        pending_indices_distinct(apply_item(m, item).chunk),
{
    if let Ok(LlmStreamChunk::PendingToolCall(p)) = item {
        let ps = match m.chunk.pending_tool_calls {
            Some(ps) => ps,
            None => Seq::<LlmPendingToolCall>::empty(),
        };
        if !has_pending_index(ps, p.index) {
            let qs = ps.push(p);
            assert forall|i: int, j: int| 0 <= i < j < qs.len() implies #[trigger] qs[i].index
                != #[trigger] qs[j].index by {
                if j == qs.len() - 1 {
                    assert(ps[i].index == qs[i].index);
                } else {
                    assert(ps[i] == qs[i] && ps[j] == qs[j]);
                }
            }
        }
    }
}
} // verus!
