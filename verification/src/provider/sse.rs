//! Lines of a provider's server-sent event stream.

use crate::text::{all_white_space, is_blank, starts_with, str_eq, suffix_from};
use vstd::prelude::*;

verus! {

/// The data of an SSE line that carries an event: the text after a `data: ` prefix, unless it is
/// blank or the `[DONE]` end marker.
pub open spec fn sse_payload(line: Seq<char>) -> Option<Seq<char>> {
    if line.len() >= 6 && line.subrange(0, 6) == "data: "@ {
        let data = line.skip(6);
        if all_white_space(data) || data == "[DONE]"@ {
            None
        } else {
            Some(data)
        }
    } else {
        None
    }
}

/// The event data carried by a line of a provider's SSE stream, if any: non-data lines, blank
/// data and the `[DONE]` termination marker carry none.
pub fn sse_data_payload(line: &str) -> (r: Option<String>)
    ensures
        match r {
            Some(d) => sse_payload(line@) == Some(d@),
            None => sse_payload(line@) is None,
        },
{
    proof {
        reveal_strlit("data: ");
    }
    if !starts_with(line, "data: ") {
        return None;
    }
    let data = suffix_from(line, 6);
    if is_blank(data.as_str()) || str_eq(data.as_str(), "[DONE]") {
        None
    } else {
        Some(data)
    }
}

} // verus!
