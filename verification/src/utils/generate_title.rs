//! Titles of chat sessions, generated by the LLM from the first message.

use crate::text::{is_trimmed, push_str, trim};
use vstd::prelude::*;

verus! {

/// Maximum number of tokens of a generated title.
pub const TITLE_TOKENS: u32 = 20;

/// The instruction given to the LLM to generate a title.
pub const TITLE_PROMPT: &'static str = "This is the first message sent by a human in a chat session with an AI chatbot. Please generate a short title for the session (3-7 words) in plain text (no quotes or prefixes)";

/// The prompt for a title: the instruction, then the user's message in quotes.
pub open spec fn title_prompt_text(user_message: Seq<char>) -> Seq<char> {
    TITLE_PROMPT@ + ": \""@ + user_message + "\""@
}

/// The prompt that asks the LLM for a title of the session.
pub fn title_prompt(user_message: &str) -> (r: String)
    ensures
        r@ == title_prompt_text(user_message@),
{
    let mut m = TITLE_PROMPT.to_string();
    push_str(&mut m, ": \"");
    push_str(&mut m, user_message);
    push_str(&mut m, "\"");
    m
}

/// The title saved for the session: the LLM's answer without leading and trailing white space.
pub fn session_title(answer: &str) -> (r: String)
    ensures
        is_trimmed(r@, answer@),
{
    trim(answer)
}

} // verus!
