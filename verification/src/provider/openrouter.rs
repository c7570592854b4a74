//! The chat messages and limits of requests to OpenRouter.

use crate::provider::{ChatRsMessage, ChatRsMessageRole};
use vstd::prelude::*;

verus! {

/// Maximum number of tokens to generate when the provider options set none.
pub const OPENROUTER_DEFAULT_MAX_TOKENS: u32 = 1000;

/// The maximum number of tokens of a request: the configured one, or the default.
pub fn openrouter_max_tokens(max_tokens: Option<u32>) -> (r: u32)
    ensures
        r == match max_tokens {
            Some(n) => n,
            None => OPENROUTER_DEFAULT_MAX_TOKENS,
        },
{
    match max_tokens {
        Some(n) => n,
        None => OPENROUTER_DEFAULT_MAX_TOKENS,
    }
}

/// The roles and texts of stored messages.
pub open spec fn history_views(c: Seq<ChatRsMessage>) -> Seq<(ChatRsMessageRole, Seq<char>)> {
    c.map_values(|m: ChatRsMessage| (m.role, m.content@))
}

pub open spec fn role_views(v: Seq<(ChatRsMessageRole, String)>) -> Seq<(ChatRsMessageRole, Seq<char>)> {
    v.map_values(|p: (ChatRsMessageRole, String)| (p.0, p.1@))
}

/// Builds the messages of a chat request to OpenRouter: every message of the history with its
/// role, in order, then the new user message, if any.
pub fn openrouter_messages(context: Option<&Vec<ChatRsMessage>>, input: Option<&str>) -> (r: Vec<
    (ChatRsMessageRole, String),
>)
    ensures
        role_views(r@) == match context {
            Some(c) => history_views(c@),
            None => Seq::empty(),
        } + match input {
            Some(i) => seq![(ChatRsMessageRole::User, i@)],
            None => Seq::empty(),
        },
{
    let mut r: Vec<(ChatRsMessageRole, String)> = Vec::new();
    if let Some(c) = context {
        for k in 0..c.len()
            invariant
                role_views(r@) == history_views(c@.take(k as int)),
        {
            let m = &c[k];
            let ghost before = r@;
            r.push((m.role, m.content.clone()));
            assert(r@ == before.push((m.role, m.content)));
            assert(c@.take(k + 1) =~= c@.take(k as int).push(c@[k as int]));
            assert(role_views(r@) =~= role_views(before).push((m.role, m.content@)));
            assert(history_views(c@.take(k + 1)) =~= history_views(c@.take(k as int)).push(
                (m.role, m.content@),
            ));
        }
        assert(c@.take(c.len() as int) =~= c@);
    }
    let ghost before = r@;
    if let Some(i) = input {
        r.push((ChatRsMessageRole::User, i.to_string()));
    }
    assert(role_views(r@) =~= role_views(before) + match input {
        Some(i) => seq![(ChatRsMessageRole::User, i@)],
        None => Seq::empty(),
    });
    r
}

} // verus!
