//! Ollama chat requests, built from LLM messages with attached files.

use crate::provider::{ChatRsFileType, ChatRsToolCall, LlmFile, LlmMessage, LlmTool};
use vstd::prelude::*;

verus! {

/// Ollama chat request. Sampling parameters given as floats are added where the request is sent.
#[derive(Debug)]
pub struct OllamaChatRequest<'a> {
    pub model: &'a str,
    pub messages: Vec<OllamaMessage<'a>>,
    pub tools: Option<Vec<OllamaTool<'a>>>,
    pub stream: Option<bool>,
    pub options: Option<OllamaOptions>,
}

/// Ollama completion request.
#[derive(Debug)]
pub struct OllamaCompletionRequest<'a> {
    pub model: &'a str,
    pub prompt: &'a str,
    pub stream: Option<bool>,
    pub options: Option<OllamaOptions>,
}

/// Ollama chat message; `images` are the base64 contents of attached images.
#[derive(Debug)]
pub struct OllamaMessage<'a> {
    pub role: &'a str,
    pub content: &'a str,
    pub images: Option<Vec<&'a str>>,
    pub tool_calls: Option<Vec<OllamaToolCall<'a>>>,
    pub tool_name: Option<&'a str>,
}

impl<'a> Default for OllamaMessage<'a> {
    fn default() -> (r: Self)
        ensures
            r.role@ == ""@,
            r.content@ == ""@,
            r.images is None,
            r.tool_calls is None,
            r.tool_name is None,
    {
        OllamaMessage { role: "", content: "", images: None, tool_calls: None, tool_name: None }
    }
}

/// Ollama tool call in a message.
#[derive(Debug)]
pub struct OllamaToolCall<'a> {
    pub function: OllamaFunction<'a>,
}

/// Ollama tool call function; `arguments` is the JSON text of the call's input.
#[derive(Debug)]
pub struct OllamaFunction<'a> {
    pub name: &'a str,
    pub arguments: &'a str,
}

/// Ollama tool definition.
#[derive(Debug)]
pub struct OllamaTool<'a> {
    pub tool_type: &'a str,
    pub function: OllamaToolSpec<'a>,
}

/// Ollama tool specification; `parameters` is the JSON schema of the input, as JSON text.
#[derive(Debug)]
pub struct OllamaToolSpec<'a> {
    pub name: &'a str,
    pub description: &'a str,
    pub parameters: &'a str,
}

/// Ollama model options with integer values (`num_predict` is Ollama's maximum number of tokens).
#[derive(Debug)]
pub struct OllamaOptions {
    pub num_predict: Option<u32>,
    pub top_k: Option<i32>,
    pub seed: Option<i32>,
}

impl Default for OllamaOptions {
    fn default() -> (r: Self)
        ensures
            r.num_predict is None,
            r.top_k is None,
            r.seed is None,
    {
        OllamaOptions { num_predict: None, top_k: None, seed: None }
    }
}

impl<'a> Default for OllamaChatRequest<'a> {
    fn default() -> (r: Self)
        ensures
            r.model@ == ""@,
            r.messages@.len() == 0,
            r.tools is None,
            r.stream is None,
            r.options is None,
    {
        OllamaChatRequest { model: "", messages: Vec::new(), tools: None, stream: None, options: None }
    }
}

/// The contents of the image files among the given files, in order.
pub open spec fn image_contents(fs: Seq<LlmFile>) -> Seq<Seq<char>>
    decreases fs.len(),
{
    if fs.len() == 0 {
        Seq::empty()
    } else {
        image_contents(fs.drop_last()) + if fs.last().file_type == ChatRsFileType::Image {
            seq![fs.last().content@]
        } else {
            Seq::empty()
        }
    }
}

pub open spec fn strs_view(v: Seq<&str>) -> Seq<Seq<char>> {
    v.map_values(|s: &str| s@)
}

/// Whether a request tool call carries the name and arguments of a tool call.
pub open spec fn carries_call(c: OllamaToolCall, tc: ChatRsToolCall) -> bool {
    c.function.name@ == tc.tool_name@ && c.function.arguments@ == tc.parameters@
}

/// Whether request tool calls carry the given tool calls, one for one and in order.
pub open spec fn carries_calls(cs: Seq<OllamaToolCall>, tcs: Seq<ChatRsToolCall>) -> bool {
    cs.len() == tcs.len() && forall|i: int| 0 <= i < tcs.len() ==> carries_call(#[trigger] cs[i], tcs[i])
}

/// Whether a request message is the one for an LLM message: a user message with the images among
/// its files, an assistant message with its tool calls, a system message, or a tool message with
/// the result's content and the tool's name.
pub open spec fn is_request_message(o: OllamaMessage, m: LlmMessage) -> bool {
    match m {
        LlmMessage::User(u) => {
            &&& o.role@ == "user"@
            &&& o.content@ == u.text@
            &&& match u.files {
                Some(fs) => o.images matches Some(imgs) && strs_view(imgs@) == image_contents(fs@),
                None => o.images is None,
            }
            &&& o.tool_calls is None
            &&& o.tool_name is None
        },
        LlmMessage::Assistant(a) => {
            &&& o.role@ == "assistant"@
            &&& o.content@ == a.text@
            &&& o.images is None
            &&& match a.tool_calls {
                Some(tcs) => o.tool_calls matches Some(cs) && carries_calls(cs@, tcs@),
                None => o.tool_calls is None,
            }
            &&& o.tool_name is None
        },
        LlmMessage::System(text) => {
            &&& o.role@ == "system"@
            &&& o.content@ == text@
            &&& o.images is None
            &&& o.tool_calls is None
            &&& o.tool_name is None
        },
        LlmMessage::Tool(result) => {
            &&& o.role@ == "tool"@
            &&& o.content@ == result.content@
            &&& o.images is None
            &&& o.tool_calls is None
            &&& o.tool_name matches Some(n) && n@ == result.tool_name@
        },
    }
}

fn images_of<'a>(files: &'a Vec<LlmFile>) -> (r: Vec<&'a str>)
    ensures
        strs_view(r@) == image_contents(files@),
{
    let mut out: Vec<&'a str> = Vec::new();
    for i in 0..files.len()
        invariant
            strs_view(out@) == image_contents(files@.take(i as int)),
    {
        let f = &files[i];
        assert(files@.take(i + 1).drop_last() =~= files@.take(i as int));
        let ghost before = out@;
        if f.file_type == ChatRsFileType::Image {
            out.push(f.content.as_str());
            assert(strs_view(out@) =~= strs_view(before) + seq![f.content@]);
        } else {
            assert(strs_view(out@) =~= strs_view(before) + Seq::<Seq<char>>::empty());
        }
    }
    assert(files@.take(files@.len() as int) =~= files@);
    out
}

fn request_tool_calls<'a>(tool_calls: &'a Vec<ChatRsToolCall>) -> (r: Vec<OllamaToolCall<'a>>)
    ensures
        carries_calls(r@, tool_calls@),
{
    let mut out: Vec<OllamaToolCall<'a>> = Vec::new();
    for i in 0..tool_calls.len()
        invariant
            out@.len() == i,
            forall|k: int| 0 <= k < i ==> carries_call(#[trigger] out@[k], tool_calls@[k]),
    {
        let tc = &tool_calls[i];
        out.push(
            OllamaToolCall {
                function: OllamaFunction { name: tc.tool_name.as_str(), arguments: tc.parameters.as_str() },
            },
        );
    }
    out
}

fn request_message<'a>(m: &'a LlmMessage) -> (r: OllamaMessage<'a>)
    ensures
        is_request_message(r, *m),
{
    match m {
        LlmMessage::User(user_message) => {
            let images = match &user_message.files {
                Some(files) => Some(images_of(files)),
                None => None,
            };
            OllamaMessage {
                role: "user",
                content: user_message.text.as_str(),
                images,
                tool_calls: None,
                tool_name: None,
            }
        },
        LlmMessage::Assistant(assistant_message) => {
            let tool_calls = match &assistant_message.tool_calls {
                Some(tcs) => Some(request_tool_calls(tcs)),
                None => None,
            };
            OllamaMessage {
                role: "assistant",
                content: assistant_message.text.as_str(),
                images: None,
                tool_calls,
                tool_name: None,
            }
        },
        LlmMessage::System(text) => OllamaMessage {
            role: "system",
            content: text.as_str(),
            images: None,
            tool_calls: None,
            tool_name: None,
        },
        LlmMessage::Tool(result) => OllamaMessage {
            role: "tool",
            content: result.content.as_str(),
            images: None,
            tool_calls: None,
            tool_name: Some(result.tool_name.as_str()),
        },
    }
}

/// Build the Ollama messages of a conversation, one for each message, in order.
pub fn build_ollama_messages<'a>(messages: &'a [LlmMessage]) -> (r: Vec<OllamaMessage<'a>>)
    ensures
        r@.len() == messages@.len(),
        forall|i: int| 0 <= i < messages@.len() ==> is_request_message(#[trigger] r@[i], messages@[i]),
{
    let mut out: Vec<OllamaMessage<'a>> = Vec::new();
    for i in 0..messages.len()
        invariant
            out@.len() == i,
            forall|k: int| 0 <= k < i ==> is_request_message(#[trigger] out@[k], messages@[k]),
    {
        out.push(request_message(&messages[i]));
    }
    out
}

/// Whether a request tool describes the given tool, as a function.
pub open spec fn describes_tool(t: OllamaTool, tool: LlmTool) -> bool {
    &&& t.tool_type@ == "function"@
    &&& t.function.name@ == tool.name@
    &&& t.function.description@ == tool.description@
    &&& t.function.parameters@ == tool.input_schema@
}

/// Build the Ollama tool definitions, one for each tool, in order.
pub fn build_ollama_tools<'a>(tools: &'a [LlmTool]) -> (r: Vec<OllamaTool<'a>>)
    ensures
        r@.len() == tools@.len(),
        forall|i: int| 0 <= i < tools@.len() ==> describes_tool(#[trigger] r@[i], tools@[i]),
{
    let mut out: Vec<OllamaTool<'a>> = Vec::new();
    for i in 0..tools.len()
        invariant
            out@.len() == i,
            forall|k: int| 0 <= k < i ==> describes_tool(#[trigger] out@[k], tools@[k]),
    {
        let tool = &tools[i];
        out.push(
            OllamaTool {
                tool_type: "function",
                function: OllamaToolSpec {
                    name: tool.name.as_str(),
                    description: tool.description.as_str(),
                    parameters: tool.input_schema.as_str(),
                },
            },
        );
    }
    out
}

} // verus!
