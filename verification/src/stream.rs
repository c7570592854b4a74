//! Chat streams: stream keys, accumulation of provider output, and reading stream events.

pub mod chunks;
pub mod llm_writer;
pub mod reader;
pub mod streamer;
pub mod tinistream;
pub mod writer;

use crate::ids::{hyphenated_text, Uuid};
use crate::text::{push_str, str_eq};
use vstd::prelude::*;

verus! {

/// The key prefix of a user's chat streams: `user:{user_id}:chat:`.
pub open spec fn chat_stream_prefix_text(user_id: Uuid) -> Seq<char> {
    "user:"@ + hyphenated_text(user_id.bits) + ":chat:"@
}

/// The key of the chat stream of a user's session: the user's prefix followed by the session ID.
pub open spec fn chat_stream_key_text(user_id: Uuid, session_id: Uuid) -> Seq<char> {
    chat_stream_prefix_text(user_id) + hyphenated_text(session_id.bits)
}

/// Get the key prefix for the user's chat streams.
pub fn chat_stream_prefix(user_id: &Uuid) -> (r: String)
    ensures
        r@ == chat_stream_prefix_text(*user_id),
{
    let mut r = "user:".to_string();
    let id = user_id.to_string();
    push_str(&mut r, id.as_str());
    push_str(&mut r, ":chat:");
    r
}

/// Get the key of the chat stream for the given user and session ID.
pub fn chat_stream_key(user_id: &Uuid, session_id: &Uuid) -> (r: String)
    ensures
        r@ == chat_stream_key_text(*user_id, *session_id),
{
    let mut r = chat_stream_prefix(user_id);
    let id = session_id.to_string();
    push_str(&mut r, id.as_str());
    r
}

/// The `Last-Event-ID` of a request: the ID of the last stream event that the client received.
#[derive(Debug)]
pub struct LastEventId(pub String);

impl LastEventId {
    /// The header's value, if the request has one; a request without it is refused.
    pub fn from_header(value: Option<&str>) -> (r: Option<LastEventId>)
        ensures
            match value {
                Some(v) => r matches Some(id) && id.0@ == v@,
                None => r is None,
            },
    {
        match value {
            Some(v) => Some(LastEventId(v.to_string())),
            None => None,
        }
    }

    /// The event ID.
    pub fn as_str(&self) -> (r: &str)
        ensures
            r@ == self.0@,
    {
        self.0.as_str()
    }
}

} // verus!
