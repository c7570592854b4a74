//! Reading chat stream events and turning them into server-sent events.

use crate::text::{push_str, str_eq};
use vstd::prelude::*;

verus! {

/// Timeout in milliseconds for the blocking read of the next stream event.
pub const XREAD_BLOCK_TIMEOUT_MS: u64 = 10_000;

/// A server-sent event.
#[derive(Debug)]
pub struct SseEvent {
    pub data: String,
    pub event: String,
    pub id: Option<String>,
}

/// The value of the last field with the given name.
pub open spec fn field_value(fields: Seq<(String, String)>, name: Seq<char>) -> Option<Seq<char>>
    decreases fields.len(),
{
    if fields.len() == 0 {
        None
    } else if fields.last().0@ == name {
        Some(fields.last().1@)
    } else {
        field_value(fields.drop_last(), name)
    }
}

/// The value of the last field with the given name.
pub fn get_field<'a>(fields: &'a Vec<(String, String)>, name: &str) -> (r: Option<&'a String>)
    ensures
        match r {
            Some(v) => field_value(fields@, name@) == Some(v@),
            None => field_value(fields@, name@) is None,
        },
{
    let mut r: Option<&'a String> = None;
    for i in 0..fields.len()
        invariant
            match r {
                Some(v) => field_value(fields@.take(i as int), name@) == Some(v@),
                None => field_value(fields@.take(i as int), name@) is None,
            },
    {
        assert(fields@.take(i + 1).drop_last() =~= fields@.take(i as int));
        if str_eq(fields[i].0.as_str(), name) {
            r = Some(&fields[i].1);
        }
    }
    assert(fields@.take(fields@.len() as int) =~= fields@);
    r
}

/// An event ends the stream when its type is `end` or `cancel`.
pub open spec fn is_end_fields(fields: Seq<(String, String)>) -> bool {
    field_value(fields, "type"@) matches Some(t) && (t == "end"@ || t == "cancel"@)
}

/// Check if this event is an ending event.
pub fn is_end_event(data: &Vec<(String, String)>) -> (r: bool)
    ensures
        r == is_end_fields(data@),
{
    match get_field(data, "type") {
        Some(t) => str_eq(t.as_str(), "end") || str_eq(t.as_str(), "cancel"),
        None => false,
    }
}

/// The server-sent event for a stream event: its type (or `unknown`), its data preceded by a
/// space (or nothing), and its ID.
pub open spec fn sse_event_of(id: Seq<char>, fields: Seq<(String, String)>, e: SseEvent) -> bool {
    &&& e.event@ == match field_value(fields, "type"@) {
        Some(t) => t,
        None => "unknown"@,
    }
    &&& e.data@ == match field_value(fields, "data"@) {
        Some(d) => " "@ + d,
        None => Seq::<char>::empty(),
    }
    &&& e.id matches Some(i) && i@ == id
}

/// Convert a stream event into a server-sent event. Expects the event fields to contain a
/// `type` and a `data` field.
pub fn convert_redis_event_to_sse(id: String, fields: &Vec<(String, String)>) -> (r: SseEvent)
    ensures
        sse_event_of(id@, fields@, r),
{
    let event = match get_field(fields, "type") {
        Some(t) => t.clone(),
        None => "unknown".to_string(),
    };
    let data = match get_field(fields, "data") {
        Some(d) => {
            let mut s = " ".to_string();
            push_str(&mut s, d.as_str());
            s
        },
        None => String::new(),
    };
    SseEvent { data, event, id: Some(id) }
}

/// The events already in a stream, as server-sent events, with the ID of the last one (or the
/// ID the reading started from) and whether the last one ended the stream.
pub fn prev_events_summary(start_event_id: Option<&str>, events: &Vec<(String, Vec<(String, String)>)>) -> (r: (Vec<SseEvent>, String, bool))
    ensures
        r.0@.len() == events@.len(),
        forall|i: int|
            0 <= i < events@.len() ==> sse_event_of(events@[i].0@, events@[i].1@, #[trigger] r.0@[i]),
        events@.len() > 0 ==> r.1@ == events@.last().0@ && r.2 == is_end_fields(events@.last().1@),
        events@.len() == 0 ==> r.1@ == (match start_event_id {
            Some(s) => s@,
            None => "0-0"@,
        }) && !r.2,
{
    let mut out: Vec<SseEvent> = Vec::new();
    for i in 0..events.len()
        invariant
            out@.len() == i,
            forall|k: int| 0 <= k < i ==> sse_event_of(events@[k].0@, events@[k].1@, #[trigger] out@[k]),
    {
        out.push(convert_redis_event_to_sse(events[i].0.clone(), &events[i].1));
    }
    if events.len() > 0 {
        let last = events.len() - 1;
        let is_end = is_end_event(&events[last].1);
        (out, events[last].0.clone(), is_end)
    } else {
        let id = match start_event_id {
            Some(s) => s.to_string(),
            None => "0-0".to_string(),
        };
        (out, id, false)
    }
}

/// Utility for reading server-sent events from a chat stream.
#[derive(Debug)]
pub struct SseStreamReader {
    block_timeout_ms: u64,
}

/// What the reading loop does with the outcome of waiting for the next event.
#[derive(Debug)]
pub enum ReadStep {
    /// Send this event to the client, then stop if the flag is set.
    Send(SseEvent, bool),
    /// Send this error event to the client, then stop.
    Fail(SseEvent),
}

impl SseStreamReader {
    pub fn new() -> (r: SseStreamReader)
        ensures
            r.block_timeout() == XREAD_BLOCK_TIMEOUT_MS,
    {
        SseStreamReader { block_timeout_ms: XREAD_BLOCK_TIMEOUT_MS }
    }

    pub closed spec fn block_timeout(&self) -> u64 {
        self.block_timeout_ms
    }

    /// How long to block waiting for the next event, in milliseconds.
    pub fn block_timeout_ms(&self) -> (r: u64)
        ensures
            r == self.block_timeout(),
    {
        self.block_timeout_ms
    }

    /// The step after waiting for the next event: a received event is sent on, and stops the
    /// reading when it ends the stream; a failure is reported as an `error` event whose data is
    /// `Error: ` and the failure's message, and stops the reading.
    pub fn next_step(&self, outcome: Result<(String, Vec<(String, String)>), String>) -> (r: ReadStep)
        ensures
            match outcome {
                Ok((id, fields)) => r matches ReadStep::Send(e, stop) && sse_event_of(id@, fields@, e)
                    && stop == is_end_fields(fields@),
                Err(msg) => r matches ReadStep::Fail(e) && e.data@ == "Error: "@ + msg@
                    && e.event@ == "error"@ && e.id is None,
            },
    {
        match outcome {
            Ok((id, fields)) => {
                let stop = is_end_event(&fields);
                ReadStep::Send(convert_redis_event_to_sse(id, &fields), stop)
            },
            Err(msg) => {
                let mut data = "Error: ".to_string();
                push_str(&mut data, msg.as_str());
                ReadStep::Fail(SseEvent { data, event: "error".to_string(), id: None })
            },
        }
    }
}

} // verus!
