//! What happens to a provider's response once it has been streamed to clients: the images it
//! generated are stored under fresh paths, the assistant message is saved, and the stream is
//! ended unless it was cancelled.

use crate::ids::{hyphenated_text, Uuid};
use crate::provider::{
    AssistantMeta, ChatRsMessage, LlmProviderOptions, ChatRsMessageMeta, ChatRsMessageRole, ChatRsToolCall, LlmUsage,
};
use crate::stream::chunks::{opt_vec_view, opt_view};
use crate::text::push_str;
use vstd::prelude::*;

verus! {

/// The storage path of a generated image: `generated/{id}.png`.
pub open spec fn generated_image_path_text(id: Uuid) -> Seq<char> {
    "generated/"@ + hyphenated_text(id.bits) + ".png"@
}

/// The storage path of a generated image with the given (fresh) ID.
pub fn generated_image_path(id: &Uuid) -> (r: String)
    ensures
        r@ == generated_image_path_text(*id),
{
    let mut r = "generated/".to_string();
    let s = id.to_string();
    push_str(&mut r, s.as_str());
    push_str(&mut r, ".png");
    r
}

/// Records the ID of a generated image whose file was saved.
pub fn record_image(ids: &mut Option<Vec<Uuid>>, id: Uuid)
    ensures
        opt_vec_view(*final(ids)) == Some(
            match *old(ids) {
                Some(v) => v@,
                None => Seq::empty(),
            }.push(id),
        ),
{
    let mut v = match ids.take() {
        Some(v) => v,
        None => Vec::new(),
    };
    v.push(id);
    *ids = Some(v);
}

/// The assistant message that saves a streamed response: its text (empty when there was
/// none), and the metadata: provider, tool calls, generated files, usage, errors, and
/// `partial` set when the stream was cancelled.
pub open spec fn response_message_spec(
    provider_id: i32,
    provider_options: LlmProviderOptions,
    text: Option<Seq<char>>,
    tool_calls: Option<Seq<ChatRsToolCall>>,
    usage: Option<LlmUsage>,
    errors: Option<Seq<String>>,
    cancelled: bool,
    image_ids: Option<Seq<Uuid>>,
    m: ChatRsMessage,
) -> bool {
    &&& m.role == ChatRsMessageRole::Assistant
    &&& m.content@ == match text {
        Some(t) => t,
        None => Seq::empty(),
    }
    &&& m.meta.tool_call is None
    &&& m.meta.assistant matches Some(a) && {
        &&& a.provider_id == provider_id
        &&& a.provider_options == Some(provider_options)
        &&& opt_vec_view(a.tool_calls) == tool_calls
        &&& opt_vec_view(a.files) == image_ids
        &&& a.usage == usage
        &&& opt_vec_view(a.errors) == errors
        &&& a.partial == if cancelled {
            Some(true)
        } else {
            None
        }
    }
}

/// Builds the assistant message of a streamed response, and whether the stream is then ended
/// (it is, unless it was cancelled).
pub fn response_message(
    provider_id: i32,
    provider_options: LlmProviderOptions,
    text: Option<String>,
    tool_calls: Option<Vec<ChatRsToolCall>>,
    usage: Option<LlmUsage>,
    errors: Option<Vec<String>>,
    cancelled: bool,
    image_ids: Option<Vec<Uuid>>,
) -> (r: (ChatRsMessage, bool))
    ensures
        response_message_spec(
            provider_id,
            provider_options,
            opt_view(text),
            opt_vec_view(tool_calls),
            usage,
            opt_vec_view(errors),
            cancelled,
            opt_vec_view(image_ids),
            r.0,
        ),
        r.1 == !cancelled,
{
    let content = match text {
        Some(t) => t,
        None => String::new(),
    };
    let partial = if cancelled {
        Some(true)
    } else {
        None
    };
    let message = ChatRsMessage {
        role: ChatRsMessageRole::Assistant,
        content,
        meta: ChatRsMessageMeta {
            assistant: Some(
                AssistantMeta {
                    provider_id,
                    provider_options: Some(provider_options),
                    tool_calls,
                    usage,
                    errors,
                    files: image_ids,
                    partial,
                },
            ),
            tool_call: None,
        },
    };
    (message, !cancelled)
}

} // verus!
