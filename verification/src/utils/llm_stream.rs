//! Processing of a provider's response stream into a Redis stream of data entries, flushed
//! by time and size, with the complete response gathered for saving.

use crate::provider::{ChatRsToolCall, LlmError, LlmUsage};
use crate::stream::chunks::{
    append_calls, append_opt, append_text, merge_usage, opt_vec_view, opt_view, utf8_len,
};
use vstd::prelude::*;

verus! {

/// Max accumulated size (in bytes) of the text chunk before it is flushed.
pub const MAX_CHUNK_SIZE: usize = 1000;

/// Interval (in milliseconds) after which a chunk with text is flushed.
pub const MAX_FLUSH_TIME_MS: u64 = 500;

/// The data of a Redis stream entry.
#[derive(Debug)]
pub struct RedisStreamChunkData {
    pub text: Option<String>,
    pub tool_calls: Option<Vec<ChatRsToolCall>>,
    pub error: Option<String>,
}

/// The data gathered since the last flush.
pub struct DataModel {
    pub text: Option<Seq<char>>,
    pub tool_calls: Option<Seq<ChatRsToolCall>>,
    pub error: Option<Seq<char>>,
}

impl View for RedisStreamChunkData {
    type V = DataModel;

    open spec fn view(&self) -> DataModel {
        DataModel {
            text: opt_view(self.text),
            tool_calls: opt_vec_view(self.tool_calls),
            error: opt_view(self.error),
        }
    }
}

/// Everything the processor has gathered.
pub struct ProcessorModel {
    pub chunk: DataModel,
    pub complete_text: Option<Seq<char>>,
    pub tool_calls: Option<Seq<ChatRsToolCall>>,
    pub errors: Option<Seq<LlmError>>,
    pub usage: Option<LlmUsage>,
}

pub open spec fn empty_data() -> DataModel {
    DataModel { text: None, tool_calls: None, error: None }
}

/// Processes a provider's response stream: keeps the chunk to flush next and the complete
/// response.
#[derive(Debug)]
pub struct LlmStreamProcessor {
    current_chunk: RedisStreamChunkData,
    complete_text: Option<String>,
    tool_calls: Option<Vec<ChatRsToolCall>>,
    errors: Option<Vec<LlmError>>,
    usage: Option<LlmUsage>,
}

impl View for LlmStreamProcessor {
    type V = ProcessorModel;

    closed spec fn view(&self) -> ProcessorModel {
        ProcessorModel {
            chunk: self.current_chunk@,
            complete_text: opt_view(self.complete_text),
            tool_calls: opt_vec_view(self.tool_calls),
            errors: opt_vec_view(self.errors),
            usage: self.usage,
        }
    }
}

/// Whether the chunk is flushed `elapsed_ms` after the last flush: at once when it holds tool
/// calls or an error; never when it holds no text; otherwise once the flush time has passed or
/// the text is larger than the maximum chunk size.
pub open spec fn flush_due(c: DataModel, elapsed_ms: u64) -> bool {
    if c.tool_calls is Some || c.error is Some {
        true
    } else {
        match c.text {
            None => false,
            Some(t) => elapsed_ms > MAX_FLUSH_TIME_MS || utf8_len(t) > MAX_CHUNK_SIZE,
        }
    }
}

/// The fields of a data entry: its type, then its text, tool calls (as JSON text) and error,
/// those that it has.
pub open spec fn data_fields_spec(d: DataModel, tool_calls_json: Seq<char>) -> Seq<(Seq<char>, Seq<char>)> {
    seq![("type"@, "data"@)] + match d.text {
        Some(t) => seq![("text"@, t)],
        None => Seq::empty(),
    } + match d.tool_calls {
        Some(_) => seq![("tool_calls"@, tool_calls_json)],
        None => Seq::empty(),
    } + match d.error {
        Some(e) => seq![("error"@, e)],
        None => Seq::empty(),
    }
}

pub open spec fn pair_views(v: Seq<(String, String)>) -> Seq<(Seq<char>, Seq<char>)> {
    v.map_values(|p: (String, String)| (p.0@, p.1@))
}

fn push_pair(v: &mut Vec<(String, String)>, k: &str, val: String)
    ensures
        pair_views(final(v)@) == pair_views(old(v)@).push((k@, val@)),
{
    v.push((k.to_string(), val));
    assert(pair_views(v@) =~= pair_views(old(v)@).push((k@, val@)));
}

/// The fields of a data entry. The tool calls are given as JSON text; when the data has tool
/// calls and their JSON text is missing (it could not be written), there is no entry.
pub fn data_fields(data: RedisStreamChunkData, tool_calls_json: Option<String>) -> (r: Option<
    Vec<(String, String)>,
>)
    ensures
        (data.tool_calls is Some && tool_calls_json is None) <==> r is None,
        r matches Some(v) ==> pair_views(v@) == data_fields_spec(
            data@,
            match tool_calls_json {
                Some(j) => j@,
                None => Seq::empty(),
            },
        ),
{
    if data.tool_calls.is_some() && tool_calls_json.is_none() {
        return None;
    }
    let ghost d = data@;
    let ghost j = match &tool_calls_json {
        Some(j) => j@,
        None => Seq::<char>::empty(),
    };
    let mut v: Vec<(String, String)> = Vec::new();
    push_pair(&mut v, "type", "data".to_string());
    proof {
        reveal_strlit("type");
        reveal_strlit("data");
    }
    if let Some(text) = data.text {
        push_pair(&mut v, "text", text);
    }
    if data.tool_calls.is_some() {
        if let Some(json) = tool_calls_json {
            push_pair(&mut v, "tool_calls", json);
        }
    }
    if let Some(error) = data.error {
        push_pair(&mut v, "error", error);
    }
    proof {
        reveal_strlit("text");
        reveal_strlit("tool_calls");
        reveal_strlit("error");
        assert(pair_views(v@) =~= data_fields_spec(d, j));
    }
    Some(v)
}

/// The fields of the entry that marks the end of the stream.
pub fn end_fields() -> (r: Vec<(String, String)>)
    ensures
        pair_views(r@) == seq![("type"@, "end"@)],
{
    let mut v: Vec<(String, String)> = Vec::new();
    push_pair(&mut v, "type", "end".to_string());
    v
}

impl LlmStreamProcessor {
    pub fn new() -> (r: LlmStreamProcessor)
        ensures
            r@ == (ProcessorModel {
                chunk: empty_data(),
                complete_text: None,
                tool_calls: None,
                errors: None,
                usage: None,
            }),
    {
        LlmStreamProcessor {
            current_chunk: RedisStreamChunkData { text: None, tool_calls: None, error: None },
            complete_text: None,
            tool_calls: None,
            errors: None,
            usage: None,
        }
    }

    /// Adds text to the current chunk and to the complete response.
    pub fn process_text(&mut self, text: &str)
        ensures
            final(self)@ == (ProcessorModel {
                chunk: DataModel { text: append_opt(old(self)@.chunk.text, text@), ..old(self)@.chunk },
                complete_text: append_opt(old(self)@.complete_text, text@),
                ..old(self)@
            }),
    {
        append_text(&mut self.current_chunk.text, text);
        append_text(&mut self.complete_text, text);
    }

    /// Adds tool calls to the current chunk and to the complete response.
    pub fn process_tool_calls(&mut self, tool_calls: Vec<ChatRsToolCall>)
        ensures
            final(self)@ == (ProcessorModel {
                chunk: DataModel {
                    tool_calls: append_opt(old(self)@.chunk.tool_calls, tool_calls@),
                    ..old(self)@.chunk
                },
                tool_calls: append_opt(old(self)@.tool_calls, tool_calls@),
                ..old(self)@
            }),
    {
        append_calls(&mut self.current_chunk.tool_calls, &tool_calls);
        append_calls(&mut self.tool_calls, &tool_calls);
    }

    /// Merges a usage report: the fields it sets replace the former ones.
    pub fn process_usage(&mut self, usage_chunk: LlmUsage)
        ensures
            final(self)@ == (ProcessorModel {
                usage: Some(merge_usage(old(self)@.usage, usage_chunk)),
                ..old(self)@
            }),
    {
        let mut usage = match self.usage {
            Some(u) => u,
            None => LlmUsage::empty(),
        };
        if let Some(n) = usage_chunk.input_tokens {
            usage.input_tokens = Some(n);
        }
        if let Some(n) = usage_chunk.output_tokens {
            usage.output_tokens = Some(n);
        }
        if let Some(c) = usage_chunk.cost {
            usage.cost = Some(c);
        }
        self.usage = Some(usage);
    }

    /// Processes a chunk of the stream: its text, tool calls and usage, those it has.
    pub fn process_chunk(
        &mut self,
        text: Option<String>,
        tool_calls: Option<Vec<ChatRsToolCall>>,
        usage: Option<LlmUsage>,
    )
        ensures
            final(self)@.chunk.text == match text {
                Some(t) => append_opt(old(self)@.chunk.text, t@),
                None => old(self)@.chunk.text,
            },
            final(self)@.complete_text == match text {
                Some(t) => append_opt(old(self)@.complete_text, t@),
                None => old(self)@.complete_text,
            },
            final(self)@.chunk.tool_calls == match tool_calls {
                Some(cs) => append_opt(old(self)@.chunk.tool_calls, cs@),
                None => old(self)@.chunk.tool_calls,
            },
            final(self)@.tool_calls == match tool_calls {
                Some(cs) => append_opt(old(self)@.tool_calls, cs@),
                None => old(self)@.tool_calls,
            },
            final(self)@.usage == match usage {
                Some(u) => Some(merge_usage(old(self)@.usage, u)),
                None => old(self)@.usage,
            },
            final(self)@.chunk.error == old(self)@.chunk.error,
            final(self)@.errors == old(self)@.errors,
    {
        if let Some(t) = text {
            self.process_text(t.as_str());
        }
        if let Some(cs) = tool_calls {
            self.process_tool_calls(cs);
        }
        if let Some(u) = usage {
            self.process_usage(u);
        }
    }

    /// Records an error of the stream; `message` is how the error reads, which the current
    /// chunk carries.
    pub fn process_error(&mut self, err: LlmError, message: String)
        ensures
            final(self)@ == (ProcessorModel {
                chunk: DataModel { error: Some(message@), ..old(self)@.chunk },
                errors: append_opt(old(self)@.errors, seq![err]),
                ..old(self)@
            }),
    {
        self.current_chunk.error = Some(message);
        let mut errors = match self.errors.take() {
            Some(e) => e,
            None => Vec::new(),
        };
        errors.push(err);
        self.errors = Some(errors);
        assert(errors@ =~= append_opt(opt_vec_view(old(self).errors), seq![err]).unwrap());
    }

    /// Whether the current chunk is flushed, `elapsed_ms` after the last flush.
    pub fn should_flush(&self, elapsed_ms: u64) -> (r: bool)
        ensures
            r == flush_due(self@.chunk, elapsed_ms),
    {
        if self.current_chunk.tool_calls.is_some() || self.current_chunk.error.is_some() {
            return true;
        }
        match &self.current_chunk.text {
            None => false,
            Some(t) => elapsed_ms > MAX_FLUSH_TIME_MS || t.as_str().len() > MAX_CHUNK_SIZE,
        }
    }

    /// Takes the current chunk to flush, leaving an empty one.
    pub fn take_chunk(&mut self) -> (r: RedisStreamChunkData)
        ensures
            r@ == old(self)@.chunk,
            final(self)@ == (ProcessorModel { chunk: empty_data(), ..old(self)@ }),
    {
        let mut chunk = RedisStreamChunkData { text: None, tool_calls: None, error: None };
        std::mem::swap(&mut chunk, &mut self.current_chunk);
        chunk
    }

    /// Takes note of the outcome of writing the end entry: a failed write is recorded as an
    /// error.
    pub fn on_end_result(&mut self, result: Result<(), String>)
        ensures
            match result {
                Ok(()) => final(self)@ == old(self)@,
                Err(e) => final(self)@ == (ProcessorModel {
                    errors: append_opt(old(self)@.errors, seq![LlmError::Redis(e)]),
                    ..old(self)@
                }),
            },
    {
        if let Err(e) = result {
            let mut errors = match self.errors.take() {
                Some(v) => v,
                None => Vec::new(),
            };
            let ghost err = LlmError::Redis(e);
            errors.push(LlmError::Redis(e));
            self.errors = Some(errors);
            assert(errors@ =~= append_opt(opt_vec_view(old(self).errors), seq![err]).unwrap());
        }
    }

    /// The accumulated response: complete text, tool calls, usage and errors.
    pub fn finish(self) -> (r: (
        Option<String>,
        Option<Vec<ChatRsToolCall>>,
        Option<LlmUsage>,
        Option<Vec<LlmError>>,
    ))
        ensures
            opt_view(r.0) == self@.complete_text,
            opt_vec_view(r.1) == self@.tool_calls,
            r.2 == self@.usage,
            opt_vec_view(r.3) == self@.errors,
    {
        (self.complete_text, self.tool_calls, self.usage, self.errors)
    }
}

} // verus!
