//! A chat response stream that caches its text while it streams, and saves the assistant's
//! response when it ends or is interrupted.

use crate::ids::{hyphenated_text, nibble, Uuid};
use crate::provider::{
    AssistantMeta, ChatRsMessage, ChatRsMessageMeta, LlmProviderOptions, ChatRsMessageRole, ChatRsToolCall, LlmUsage,
};
use crate::stream::chunks::{append_opt, opt_vec_view};
use crate::text::push_str;
use vstd::prelude::*;

verus! {

/// Prefix of the cache key of a session's streaming response.
pub const CACHE_KEY_PREFIX: &'static str = "chat_session:";

/// Interval (in milliseconds) at which the streaming response is cached.
pub const CACHE_INTERVAL_MS: u64 = 1000;

/// Expiration (in seconds) of the cached response.
pub const CACHE_EXPIRY_SECS: i64 = 3600;

/// The cache key of a session's streaming response.
pub open spec fn cache_key_text(session_id: Uuid) -> Seq<char> {
    CACHE_KEY_PREFIX@ + hyphenated_text(session_id.bits)
}

/// The cache key of a session's streaming response: `chat_session:{session_id}`.
pub fn cache_key(session_id: &Uuid) -> (r: String)
    ensures
        r@ == cache_key_text(*session_id),
{
    proof {
        reveal_strlit("chat_session:");
    }
    let mut r = CACHE_KEY_PREFIX.to_string();
    let id = session_id.to_string();
    push_str(&mut r, id.as_str());
    r
}

/// The concatenation of the buffered texts, in order.
pub open spec fn joined(b: Seq<Seq<char>>) -> Seq<char>
    decreases b.len(),
{
    if b.len() == 0 {
        Seq::empty()
    } else {
        joined(b.drop_last()) + b.last()
    }
}

/// The texts of a buffer of strings.
pub open spec fn texts(b: Seq<String>) -> Seq<Seq<char>> {
    b.map_values(|s: String| s@)
}

/// Concatenates the buffered texts.
pub fn join_all(b: &Vec<String>) -> (r: String)
    ensures
        r@ == joined(texts(b@)),
{
    let mut r = String::new();
    for i in 0..b.len()
        invariant
            r@ == joined(texts(b@.take(i as int))),
    {
        assert(texts(b@.take(i + 1)).drop_last() =~= texts(b@.take(i as int)));
        push_str(&mut r, b[i].as_str());
    }
    assert(b@.take(b.len() as int) =~= b@);
    r
}

/// A write of the streaming response to the cache.
#[derive(Debug)]
pub struct CacheWrite {
    pub key: String,
    pub content: String,
}

/// What the stream does with a chunk: the text it yields, if the chunk had text, and the cache
/// write that is due, if any.
#[derive(Debug)]
pub struct ChunkOutcome {
    pub output: Option<String>,
    pub cache: Option<CacheWrite>,
}

/// A response to save: the assistant message, and the cache key to delete once it is saved.
#[derive(Debug)]
pub struct SavedResponse {
    pub message: ChatRsMessage,
    pub cache_key: String,
}

/// The state of the stream: what was streamed since the last save.
pub struct StoredStreamModel {
    pub session_id: Uuid,
    pub provider_id: i32,
    /// The provider options, until the first save takes them.
    pub provider_options: Option<LlmProviderOptions>,
    pub buffer: Seq<Seq<char>>,
    pub tool_calls: Option<Seq<ChatRsToolCall>>,
    pub input_tokens: u32,
    pub output_tokens: u32,
    pub cost: Option<u32>,
}

/// A chat response stream, as its consumer sees it, that caches its text every `CACHE_INTERVAL_MS`
/// milliseconds and saves the response at the end of the stream, or marked partial when the
/// stream is dropped before its end.
#[derive(Debug)]
pub struct StoredChatRsStream {
    provider_id: i32,
    provider_options: Option<LlmProviderOptions>,
    session_id: Uuid,
    buffer: Vec<String>,
    tool_calls: Option<Vec<ChatRsToolCall>>,
    input_tokens: u32,
    output_tokens: u32,
    cost: Option<u32>,
}

impl View for StoredChatRsStream {
    type V = StoredStreamModel;

    closed spec fn view(&self) -> StoredStreamModel {
        StoredStreamModel {
            session_id: self.session_id,
            provider_id: self.provider_id,
            provider_options: self.provider_options,
            buffer: texts(self.buffer@),
            tool_calls: opt_vec_view(self.tool_calls),
            input_tokens: self.input_tokens,
            output_tokens: self.output_tokens,
            cost: self.cost,
        }
    }
}

/// Whether the cache is written after a chunk, `since_cache_ms` milliseconds after the last
/// write.
pub open spec fn cache_due(since_cache_ms: u64) -> bool {
    since_cache_ms >= CACHE_INTERVAL_MS
}

/// Whether there is a response to save.
pub open spec fn has_response(m: StoredStreamModel) -> bool {
    m.buffer.len() > 0 || m.tool_calls is Some
}

/// The state after a chunk: its text is buffered, its tool calls are appended, and the token
/// counts and cost that it reports replace the former ones.
pub open spec fn after_chunk(
    m: StoredStreamModel,
    text: Option<Seq<char>>,
    tool_calls: Option<Seq<ChatRsToolCall>>,
    usage: Option<LlmUsage>,
) -> StoredStreamModel {
    StoredStreamModel {
        buffer: match text {
            Some(t) => m.buffer.push(t),
            None => m.buffer,
        },
        tool_calls: match tool_calls {
            Some(cs) => append_opt(m.tool_calls, cs),
            None => m.tool_calls,
        },
        input_tokens: match usage {
            Some(u) => match u.input_tokens {
                Some(n) => n,
                None => m.input_tokens,
            },
            None => m.input_tokens,
        },
        output_tokens: match usage {
            Some(u) => match u.output_tokens {
                Some(n) => n,
                None => m.output_tokens,
            },
            None => m.output_tokens,
        },
        cost: match usage {
            Some(u) => match u.cost {
                Some(c) => Some(c),
                None => m.cost,
            },
            None => m.cost,
        },
        ..m
    }
}

/// The message that saves the response; `partial` is `Some(true)` for an interrupted stream.
pub open spec fn saved_message(m: StoredStreamModel, partial: Option<bool>, r: SavedResponse) -> bool {
    &&& r.message.role == ChatRsMessageRole::Assistant
    &&& r.message.content@ == joined(m.buffer)
    &&& r.message.meta.tool_call is None
    &&& r.message.meta.assistant matches Some(a) && {
        &&& a.provider_id == m.provider_id
        &&& a.provider_options == m.provider_options
        &&& opt_vec_view(a.tool_calls) == m.tool_calls
        &&& a.usage == Some(
            LlmUsage {
                input_tokens: Some(m.input_tokens),
                output_tokens: Some(m.output_tokens),
                cost: m.cost,
            },
        )
        &&& a.errors is None
        &&& a.files is None
        &&& a.partial == partial
    }
    &&& r.cache_key@ == cache_key_text(m.session_id)
}

/// The state after a save: the buffer is cleared, and the tool calls and the provider options are
/// taken.
pub open spec fn after_save(m: StoredStreamModel) -> StoredStreamModel {
    StoredStreamModel { buffer: Seq::empty(), tool_calls: None, provider_options: None, ..m }
}

impl StoredChatRsStream {
    /// A stream of the given session, or of a fresh random session when none is given, for a
    /// response requested from a provider with the given options.
    pub fn new(provider_id: i32, provider_options: LlmProviderOptions, session_id: Option<Uuid>) -> (r:
        StoredChatRsStream)
        ensures
            r@.provider_id == provider_id,
            r@.provider_options == Some(provider_options),
            session_id matches Some(id) ==> r@.session_id == id,
            session_id is None ==> nibble(r@.session_id.bits, 12) == 4,
            r@.buffer.len() == 0,
            r@.tool_calls is None,
            r@.input_tokens == 0,
            r@.output_tokens == 0,
            r@.cost is None,
    {
        let session_id = match session_id {
            Some(id) => id,
            None => Uuid::new_v4(),
        };
        StoredChatRsStream {
            provider_id,
            provider_options: Some(provider_options),
            session_id,
            buffer: Vec::new(),
            tool_calls: None,
            input_tokens: 0,
            output_tokens: 0,
            cost: None,
        }
    }

    /// The ID of the session.
    pub fn session_id(&self) -> (r: &Uuid)
        ensures
            *r == self@.session_id,
    {
        &self.session_id
    }

    /// Whether the cache is due, `since_cache_ms` milliseconds after the last cache write.
    pub fn should_cache(&self, since_cache_ms: u64) -> (r: bool)
        ensures
            r == cache_due(since_cache_ms),
    {
        since_cache_ms >= CACHE_INTERVAL_MS
    }

    /// Records a chunk of the response, `since_cache_ms` milliseconds after the last cache
    /// write. The chunk's text is yielded; the cache holds the concatenated text so far.
    pub fn on_chunk(
        &mut self,
        text: Option<String>,
        tool_calls: Option<Vec<ChatRsToolCall>>,
        usage: Option<LlmUsage>,
        since_cache_ms: u64,
    ) -> (r: ChunkOutcome)
        ensures
            final(self)@ == after_chunk(
                old(self)@,
                match text {
                    Some(t) => Some(t@),
                    None => None,
                },
                opt_vec_view(tool_calls),
                usage,
            ),
            match text {
                Some(t) => r.output matches Some(o) && o@ == t@,
                None => r.output is None,
            },
            match r.cache {
                Some(w) => cache_due(since_cache_ms) && w.key@ == cache_key_text(
                    final(self)@.session_id,
                ) && w.content@ == joined(final(self)@.buffer),
                None => !cache_due(since_cache_ms),
            },
    {
        let output = match &text {
            Some(t) => {
                self.buffer.push(t.clone());
                Some(t.clone())
            },
            None => None,
        };
        if let Some(calls) = tool_calls {
            let mut v = match self.tool_calls.take() {
                Some(v) => v,
                None => Vec::new(),
            };
            let ghost start = v@;
            for i in 0..calls.len()
                invariant
                    v@ == start + calls@.take(i as int),
            {
                v.push(calls[i].clone());
                assert(calls@.take(i as int).push(calls@[i as int]) =~= calls@.take(i + 1));
            }
            assert(calls@.take(calls.len() as int) =~= calls@);
            self.tool_calls = Some(v);
        }
        if let Some(u) = usage {
            if let Some(n) = u.input_tokens {
                self.input_tokens = n;
            }
            if let Some(n) = u.output_tokens {
                self.output_tokens = n;
            }
            if let Some(c) = u.cost {
                self.cost = Some(c);
            }
        }
        proof {
            assert(texts(self.buffer@) =~= after_chunk(
                old(self)@,
                match text {
                    Some(t) => Some(t@),
                    None => None,
                },
                opt_vec_view(tool_calls),
                usage,
            ).buffer);
        }
        let cache = if self.should_cache(since_cache_ms) {
            Some(CacheWrite { key: cache_key(&self.session_id), content: join_all(&self.buffer) })
        } else {
            None
        };
        ChunkOutcome { output, cache }
    }

    /// Builds the response to save, and clears the buffer and the tool calls.
    fn save_response(&mut self, partial: Option<bool>) -> (r: SavedResponse)
        ensures
            saved_message(old(self)@, partial, r),
            final(self)@ == after_save(old(self)@),
    {
        let content = join_all(&self.buffer);
        let tool_calls = self.tool_calls.take();
        let provider_options = self.provider_options.take();
        let usage = LlmUsage {
            input_tokens: Some(self.input_tokens),
            output_tokens: Some(self.output_tokens),
            cost: self.cost,
        };
        self.buffer = Vec::new();
        proof {
            assert(texts(self.buffer@) =~= Seq::<Seq<char>>::empty());
        }
        let message = ChatRsMessage {
            role: ChatRsMessageRole::Assistant,
            content,
            meta: ChatRsMessageMeta {
                assistant: Some(
                    AssistantMeta {
                        provider_id: self.provider_id,
                        provider_options,
                        tool_calls,
                        usage: Some(usage),
                        errors: None,
                        files: None,
                        partial,
                    },
                ),
                tool_call: None,
            },
        };
        SavedResponse { message, cache_key: cache_key(&self.session_id) }
    }

    /// At the end of the stream: the response to save, if anything was streamed since the last
    /// save.
    pub fn on_end(&mut self) -> (r: Option<SavedResponse>)
        ensures
            has_response(old(self)@) ==> (r matches Some(s) && saved_message(old(self)@, None, s)
                && final(self)@ == after_save(old(self)@)),
            !has_response(old(self)@) ==> r is None && final(self)@ == old(self)@,
    {
        if self.buffer.len() > 0 || self.tool_calls.is_some() {
            Some(self.save_response(None))
        } else {
            None
        }
    }

    /// When the stream is dropped before its end: the response to save, marked partial, if
    /// anything was streamed since the last save.
    pub fn on_drop(&mut self) -> (r: Option<SavedResponse>)
        ensures
            has_response(old(self)@) ==> (r matches Some(s) && saved_message(old(self)@, Some(true), s)
                && final(self)@ == after_save(old(self)@)),
            !has_response(old(self)@) ==> r is None && final(self)@ == old(self)@,
    {
        if self.buffer.len() > 0 || self.tool_calls.is_some() {
            Some(self.save_response(Some(true)))
        } else {
            None
        }
    }
}

/// A chunk of the response as the stream records it: its text, tool calls and usage.
pub type ChunkParts = (Option<Seq<char>>, Option<Seq<ChatRsToolCall>>, Option<LlmUsage>);

/// The state after a sequence of chunks.
pub open spec fn after_chunks(m: StoredStreamModel, chunks: Seq<ChunkParts>) -> StoredStreamModel
    decreases chunks.len(),
{
    if chunks.len() == 0 {
        m
    } else {
        let c = chunks.last();
        after_chunk(after_chunks(m, chunks.drop_last()), c.0, c.1, c.2)
    }
}

/// The concatenated text of a sequence of chunks.
pub open spec fn chunks_text(chunks: Seq<ChunkParts>) -> Seq<char>
    decreases chunks.len(),
{
    if chunks.len() == 0 {
        Seq::empty()
    } else {
        chunks_text(chunks.drop_last()) + match chunks.last().0 {
            Some(t) => t,
            None => Seq::empty(),
        }
    }
}

/// The response that is saved (and the text that is cached) after a sequence of chunks is the
/// text buffered before them followed by the chunks' texts, in order.
pub proof fn law_saved_text_is_concatenation(m: StoredStreamModel, chunks: Seq<ChunkParts>)
    ensures
        joined(after_chunks(m, chunks).buffer) == joined(m.buffer) + chunks_text(chunks),
    decreases chunks.len(),
{
    if chunks.len() > 0 {
        law_saved_text_is_concatenation(m, chunks.drop_last());
        let prev = after_chunks(m, chunks.drop_last());
        let c = chunks.last();
        match c.0 {
            Some(t) => {
                assert(prev.buffer.push(t).drop_last() =~= prev.buffer);
            },
            None => {},
        }
    }
}

/// A response that was saved at the end of the stream is not saved again when the stream is
/// dropped.
pub proof fn law_saved_once(m: StoredStreamModel)
    ensures
        !has_response(after_save(m)),
{
}

} // verus!
