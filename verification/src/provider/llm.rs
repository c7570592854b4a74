//! The chat messages that the generic LLM API provider sends: the user and assistant
//! messages of the history, then the new user message.

use crate::provider::{ChatRsMessage, ChatRsMessageRole};
use vstd::prelude::*;

verus! {

/// Role of a message sent through the generic LLM API.
#[derive(Clone, Copy, Debug, PartialEq, Eq, Structural)]
pub enum LlmApiRole {
    User,
    Assistant,
}

/// The role under which a stored message is sent, if it is sent: system and tool messages are
/// left out.
pub open spec fn llm_api_role(role: ChatRsMessageRole) -> Option<LlmApiRole> {
    match role {
        ChatRsMessageRole::User => Some(LlmApiRole::User),
        ChatRsMessageRole::Assistant => Some(LlmApiRole::Assistant),
        _ => None,
    }
}

/// The messages of the history that are sent, with their roles and texts.
pub open spec fn kept_messages(context: Seq<ChatRsMessage>) -> Seq<(LlmApiRole, Seq<char>)>
    decreases context.len(),
{
    if context.len() == 0 {
        Seq::empty()
    } else {
        let m = context.last();
        kept_messages(context.drop_last()) + match llm_api_role(m.role) {
            Some(r) => seq![(r, m.content@)],
            None => Seq::empty(),
        }
    }
}

pub open spec fn message_views(v: Seq<(LlmApiRole, String)>) -> Seq<(LlmApiRole, Seq<char>)> {
    v.map_values(|p: (LlmApiRole, String)| (p.0, p.1@))
}

/// Builds the messages sent through the generic LLM API: the user and assistant messages of
/// the history, in order, then the new user message, if any.
pub fn llm_api_messages(context: Option<&Vec<ChatRsMessage>>, input: Option<&str>) -> (r: Vec<
    (LlmApiRole, String),
>)
    ensures
        message_views(r@) == match context {
            Some(c) => kept_messages(c@),
            None => Seq::empty(),
        } + match input {
            Some(i) => seq![(LlmApiRole::User, i@)],
            None => Seq::empty(),
        },
{
    let mut r: Vec<(LlmApiRole, String)> = Vec::new();
    if let Some(c) = context {
        for k in 0..c.len()
            invariant
                message_views(r@) == kept_messages(c@.take(k as int)),
        {
            let m = &c[k];
            assert(c@.take(k + 1).drop_last() =~= c@.take(k as int));
            let ghost before = r@;
            match m.role {
                ChatRsMessageRole::User => r.push((LlmApiRole::User, m.content.clone())),
                ChatRsMessageRole::Assistant => r.push((LlmApiRole::Assistant, m.content.clone())),
                _ => {},
            }
            assert(message_views(r@) =~= kept_messages(c@.take(k + 1)));
        }
        assert(c@.take(c.len() as int) =~= c@);
    }
    let ghost before = r@;
    if let Some(i) = input {
        r.push((LlmApiRole::User, i.to_string()));
    }
    assert(message_views(r@) =~= message_views(before) + match input {
        Some(i) => seq![(LlmApiRole::User, i@)],
        None => Seq::empty(),
    });
    r
}

} // verus!
