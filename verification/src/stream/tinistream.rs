//! Chat streams kept by a tinistream server: which of a user's streams are active, and the
//! server's errors.

use crate::text::{decimal_text, push_str, starts_with, suffix_from, write_decimal};
use vstd::string::StrSliceExecFns;
use vstd::prelude::*;

verus! {

/// An error answered by the tinistream server: HTTP status, error code and message.
#[derive(Debug)]
pub struct TiniError {
    pub status: u16,
    pub code: String,
    pub message: String,
}

impl TiniError {
    /// The error's text: `<status> <code>: <message>`.
    pub fn to_text(&self) -> (r: String)
        ensures
            r@ == decimal_text(self.status as nat) + " "@ + self.code@ + ": "@ + self.message@,
    {
        let mut r = String::new();
        write_decimal(&mut r, self.status as u64);
        push_str(&mut r, " ");
        push_str(&mut r, self.code.as_str());
        push_str(&mut r, ": ");
        push_str(&mut r, self.message.as_str());
        r
    }

    /// The error of an event that could not be converted for the server.
    pub fn invalid_event(message: String) -> (r: TiniError)
        ensures
            r.status == 400,
            r.code@ == "invalid_event"@,
            r.message == message,
    {
        TiniError { status: 400, code: "invalid_event".to_string(), message }
    }

    /// The error of an answer that is not an error response: its status, or 500 without one.
    pub fn unexpected(status: Option<u16>, message: String) -> (r: TiniError)
        ensures
            r.status == match status {
                Some(s) => s,
                None => 500,
            },
            r.code@ == "unexpected"@,
            r.message == message,
    {
        TiniError {
            status: match status {
                Some(s) => s,
                None => 500,
            },
            code: "unexpected".to_string(),
            message,
        }
    }
}

/// The pattern that lists the streams under a key prefix.
pub fn streams_pattern(prefix: &str) -> (r: String)
    ensures
        r@ == prefix@ + seq!['*'],
{
    let mut r = prefix.to_string();
    crate::text::push_char(&mut r, '*');
    r
}

/// Whether a key starts with a prefix.
pub open spec fn has_prefix(key: Seq<char>, prefix: Seq<char>) -> bool {
    prefix.len() <= key.len() && key.subrange(0, prefix.len() as int) == prefix
}

/// The rest of each key after the prefix, for the keys that start with it, in order.
pub open spec fn active_ids(keys: Seq<String>, prefix: Seq<char>) -> Seq<Seq<char>>
    decreases keys.len(),
{
    if keys.len() == 0 {
        Seq::empty()
    } else {
        let k = keys.last()@;
        if has_prefix(k, prefix) {
            active_ids(keys.drop_last(), prefix).push(k.skip(prefix.len() as int))
        } else {
            active_ids(keys.drop_last(), prefix)
        }
    }
}

/// The active chat streams of a prefix: the keys of the listed streams with the prefix taken off,
/// leaving out keys that do not start with it.
pub fn active_chat_streams(prefix: &str, keys: &Vec<String>) -> (r: Vec<String>)
    ensures
        r@.map_values(|s: String| s@) == active_ids(keys@, prefix@),
{
    let mut out: Vec<String> = Vec::new();
    for i in 0..keys.len()
        invariant
            out@.map_values(|s: String| s@) == active_ids(keys@.take(i as int), prefix@),
    {
        assert(keys@.take(i + 1).drop_last() =~= keys@.take(i as int));
        assert(keys@.take(i + 1).last() == keys@[i as int]);
        let ghost before = out@;
        if starts_with(keys[i].as_str(), prefix) {
            out.push(suffix_from(keys[i].as_str(), prefix.unicode_len()));
            assert(out@.map_values(|s: String| s@) =~= before.map_values(|s: String| s@).push(keys@[i as int]@.skip(prefix@.len() as int)));
        } else {
            assert(out@.map_values(|s: String| s@) =~= before.map_values(|s: String| s@));
        }
    }
    assert(keys@.take(keys@.len() as int) =~= keys@);
    out
}

} // verus!
