//! Writer of a provider's response stream into a chat stream that clients read over a
//! WebSocket connection.

use crate::ids::Uuid;
use crate::provider::{ChatRsToolCall, LlmUsage};
use crate::stream::chat_stream_key;
use crate::stream::chat_stream_key_text;
use crate::stream::chunks::{
    event_outcome, finish_outcome, flush_outcome, initial_model, StreamAccumulator, StreamAction,
    StreamEvent, StreamModel,
};
use crate::provider::LlmStreamError;
use vstd::prelude::*;

verus! {

/// Interval (in milliseconds) at which chunks are flushed to the chat stream.
pub const FLUSH_INTERVAL_MS: u64 = 500;

/// Timeout (in milliseconds) waiting for data from the LLM stream.
pub const LLM_TIMEOUT_MS: u64 = 60_000;

/// Processes an incoming LLM response stream, deciding when chunks are written to the chat
/// stream, and gathers the complete response.
#[derive(Debug)]
pub struct LlmStreamWriter {
    key: String,
    acc: StreamAccumulator,
}

impl LlmStreamWriter {
    pub closed spec fn key_view(&self) -> Seq<char> {
        self.key@
    }

    pub closed spec fn model(&self) -> StreamModel {
        self.acc@
    }

    pub fn new(user_id: &Uuid, session_id: &Uuid) -> (r: LlmStreamWriter)
        ensures
            r.key_view() == chat_stream_key_text(*user_id, *session_id),
            r.model() == initial_model(),
    {
        LlmStreamWriter { key: chat_stream_key(user_id, session_id), acc: StreamAccumulator::new() }
    }

    /// Key of the chat stream.
    pub fn key(&self) -> (r: &str)
        ensures
            r@ == self.key_view(),
    {
        self.key.as_str()
    }

    /// Decides the next action after an event, `elapsed_ms` after the last flush; chunks are
    /// flushed every `FLUSH_INTERVAL_MS` milliseconds.
    pub fn on_event(&mut self, event: StreamEvent, elapsed_ms: u64) -> (r: StreamAction)
        ensures
            final(self).key_view() == old(self).key_view(),
            event_outcome(
                old(self).model(),
                event,
                elapsed_ms,
                FLUSH_INTERVAL_MS,
                final(self).model(),
                r,
            ),
    {
        self.acc.on_event(event, elapsed_ms, FLUSH_INTERVAL_MS)
    }

    /// Takes note of the outcome of a flush; returns whether processing goes on.
    pub fn on_flush_result(&mut self, result: Result<(), LlmStreamError>) -> (go_on: bool)
        ensures
            final(self).key_view() == old(self).key_view(),
            flush_outcome(old(self).model(), result, final(self).model(), go_on),
    {
        self.acc.on_flush_result(result)
    }

    /// Hands out the accumulated response: complete text, tool calls, usage, error messages,
    /// and whether the stream was cancelled.
    pub fn finish(&mut self) -> (r: (
        Option<String>,
        Option<Vec<ChatRsToolCall>>,
        Option<LlmUsage>,
        Option<Vec<String>>,
        bool,
    ))
        ensures
            final(self).key_view() == old(self).key_view(),
            finish_outcome(old(self).model(), r, final(self).model()),
    {
        self.acc.finish()
    }
}

} // verus!
