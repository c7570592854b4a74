//! Writer of a provider's response stream into a Redis stream that clients read from.

use crate::ids::Uuid;
use crate::provider::{ChatRsToolCall, LlmUsage};
use crate::stream::chat_stream_key;
use crate::stream::chat_stream_key_text;
use crate::stream::chunks::{
    event_outcome, finish_outcome, flush_outcome, initial_model, RedisStreamChunk, StreamAccumulator,
    StreamAction, StreamEvent, StreamModel,
};
use crate::provider::LlmStreamError;
use vstd::prelude::*;

verus! {

/// Interval (in milliseconds) at which chunks are flushed to the chat stream.
pub const FLUSH_INTERVAL_MS: u64 = 300;

/// Expiration in seconds set on the Redis stream.
pub const STREAM_EXPIRE_SECS: i64 = 30;

/// Interval (in milliseconds) at which ping entries are written to the Redis stream.
pub const PING_INTERVAL_MS: u64 = 5_000;

/// Timeout (in milliseconds) waiting for data from the LLM stream.
pub const LLM_TIMEOUT_MS: u64 = 60_000;

/// Processes an incoming LLM response stream, deciding when chunks are written to the Redis
/// stream, and gathers the complete response.
#[derive(Debug)]
pub struct LlmStreamWriter {
    key: String,
    acc: StreamAccumulator,
}

impl LlmStreamWriter {
    pub closed spec fn key_view(&self) -> Seq<char> {
        self.key@
    }

    pub closed spec fn model(&self) -> StreamModel {
        self.acc@
    }

    pub fn new(user_id: &Uuid, session_id: &Uuid) -> (r: LlmStreamWriter)
        ensures
            r.key_view() == chat_stream_key_text(*user_id, *session_id),
            r.model() == initial_model(),
    {
        LlmStreamWriter { key: chat_stream_key(user_id, session_id), acc: StreamAccumulator::new() }
    }

    /// Key of the chat stream.
    pub fn key(&self) -> (r: &str)
        ensures
            r@ == self.key_view(),
    {
        self.key.as_str()
    }

    /// Decides the next action after an event, `elapsed_ms` after the last flush; chunks are
    /// flushed every `FLUSH_INTERVAL_MS` milliseconds.
    pub fn on_event(&mut self, event: StreamEvent, elapsed_ms: u64) -> (r: StreamAction)
        ensures
            final(self).key_view() == old(self).key_view(),
            event_outcome(
                old(self).model(),
                event,
                elapsed_ms,
                FLUSH_INTERVAL_MS,
                final(self).model(),
                r,
            ),
    {
        self.acc.on_event(event, elapsed_ms, FLUSH_INTERVAL_MS)
    }

    /// Takes note of the outcome of a flush; returns whether processing goes on.
    pub fn on_flush_result(&mut self, result: Result<(), LlmStreamError>) -> (go_on: bool)
        ensures
            final(self).key_view() == old(self).key_view(),
            flush_outcome(old(self).model(), result, final(self).model(), go_on),
    {
        self.acc.on_flush_result(result)
    }

    /// Hands out the accumulated response: complete text, tool calls, usage, error messages,
    /// and whether the stream was cancelled.
    pub fn finish(&mut self) -> (r: (
        Option<String>,
        Option<Vec<ChatRsToolCall>>,
        Option<LlmUsage>,
        Option<Vec<String>>,
        bool,
    ))
        ensures
            final(self).key_view() == old(self).key_view(),
            finish_outcome(old(self).model(), r, final(self).model()),
    {
        self.acc.finish()
    }
}

/// The outcome of writing entries to the Redis stream, from whether each reply of the write
/// pipeline was `nil`: a `nil` reply means that the stream was deleted or cancelled.
pub fn write_outcome(nil_replies: &Vec<bool>) -> (r: Result<(), LlmStreamError>)
    ensures
        (exists|i: int| 0 <= i < nil_replies@.len() && nil_replies@[i]) ==> r matches Err(
            LlmStreamError::StreamCancelled,
        ),
        (forall|i: int| 0 <= i < nil_replies@.len() ==> !nil_replies@[i]) ==> r is Ok,
{
    for i in 0..nil_replies.len()
        invariant
            forall|j: int| 0 <= j < i ==> !nil_replies@[j],
    {
        if nil_replies[i] {
            return Err(LlmStreamError::StreamCancelled);
        }
    }
    Ok(())
}

/// Whether the ping task goes on after a ping: it stops when the write failed or a reply was
/// `nil` (the stream is gone).
pub fn ping_goes_on(write_failed: bool, nil_replies: &Vec<bool>) -> (r: bool)
    ensures
        r == (!write_failed && forall|i: int| 0 <= i < nil_replies@.len() ==> !nil_replies@[i]),
{
    if write_failed {
        return false;
    }
    write_outcome(nil_replies).is_ok()
}

impl LlmStreamWriter {
    /// The entry that creates the stream.
    pub fn start_entry(&self) -> (r: RedisStreamChunk)
        ensures
            r is Start,
    {
        RedisStreamChunk::Start
    }

    /// The entry that tells clients that the stream has ended, before it is deleted.
    pub fn end_entry(&self) -> (r: RedisStreamChunk)
        ensures
            r is End,
    {
        RedisStreamChunk::End
    }
}

} // verus!
