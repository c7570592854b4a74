//! Anthropic API requests, built from LLM messages with attached files.

use crate::provider::{
    ChatRsFileType, ChatRsToolCall, LlmFile, LlmMessage, LlmTool,
};
use vstd::prelude::*;

verus! {

/// Anthropic API request message
#[derive(Debug)]
pub struct AnthropicMessage<'a> {
    pub role: &'a str,
    pub content: Vec<AnthropicContentBlock<'a>>,
}

/// Anthropic API request body. The sampling temperature is added where the request is sent.
#[derive(Debug)]
pub struct AnthropicRequest<'a> {
    pub model: &'a str,
    pub messages: Vec<AnthropicMessage<'a>>,
    pub max_tokens: u32,
    pub system: Option<&'a str>,
    pub stream: Option<bool>,
    pub tools: Option<Vec<AnthropicTool<'a>>>,
}

/// Anthropic tool definition. `input_schema` is JSON text.
#[derive(Debug)]
pub struct AnthropicTool<'a> {
    pub name: &'a str,
    pub description: &'a str,
    pub input_schema: &'a str,
}

/// Anthropic content block for messages. A tool use's `input` is the JSON text of its
/// parameters.
#[derive(Debug)]
pub enum AnthropicContentBlock<'a> {
    Text { text: &'a str },
    Image { title: &'a str, source: AnthropicSource<'a> },
    Document { title: &'a str, source: AnthropicSource<'a> },
    ToolUse { id: &'a str, name: &'a str, input: &'a str },
    ToolResult { tool_use_id: &'a str, content: &'a str },
}

/// Source of an image or document block.
#[derive(Debug)]
pub enum AnthropicSource<'a> {
    Base64 { data: &'a str, media_type: &'a str },
    Text { data: &'a str, media_type: &'a str },
}

/// A source, with texts taken by their characters: whether it is base64 data, the data, and the
/// media type.
pub struct SourceView {
    pub base64: bool,
    pub data: Seq<char>,
    pub media_type: Seq<char>,
}

pub open spec fn source_view(s: AnthropicSource) -> SourceView {
    match s {
        AnthropicSource::Base64 { data, media_type } => SourceView { base64: true, data: data@, media_type: media_type@ },
        AnthropicSource::Text { data, media_type } => SourceView { base64: false, data: data@, media_type: media_type@ },
    }
}

/// A content block, with texts taken by their characters.
pub enum BlockView {
    Text(Seq<char>),
    Image(Seq<char>, SourceView),
    Document(Seq<char>, SourceView),
    ToolUse(Seq<char>, Seq<char>, Seq<char>),
    ToolResult(Seq<char>, Seq<char>),
}

pub open spec fn block_view(b: AnthropicContentBlock) -> BlockView {
    match b {
        AnthropicContentBlock::Text { text } => BlockView::Text(text@),
        AnthropicContentBlock::Image { title, source } => BlockView::Image(title@, source_view(source)),
        AnthropicContentBlock::Document { title, source } => BlockView::Document(title@, source_view(source)),
        AnthropicContentBlock::ToolUse { id, name, input } => BlockView::ToolUse(id@, name@, input@),
        AnthropicContentBlock::ToolResult { tool_use_id, content } => BlockView::ToolResult(
            tool_use_id@,
            content@,
        ),
    }
}

pub open spec fn blocks_view(bs: Seq<AnthropicContentBlock>) -> Seq<BlockView> {
    bs.map_values(|b: AnthropicContentBlock| block_view(b))
}

/// A request message, with texts taken by their characters.
pub struct MessageView {
    pub role: Seq<char>,
    pub content: Seq<BlockView>,
}

pub open spec fn message_view(m: AnthropicMessage) -> MessageView {
    MessageView { role: m.role@, content: blocks_view(m.content@) }
}

pub open spec fn messages_view(ms: Seq<AnthropicMessage>) -> Seq<MessageView> {
    ms.map_values(|m: AnthropicMessage| message_view(m))
}

/// The block of an attached file: text files are plain-text documents, images are base64 images
/// of their content type, PDF files are base64 PDF documents.
pub open spec fn file_block(f: LlmFile) -> BlockView {
    match f.file_type {
        ChatRsFileType::Text => BlockView::Document(
            f.name@,
            SourceView { base64: false, data: f.content@, media_type: "text/plain"@ },
        ),
        ChatRsFileType::Image => BlockView::Image(
            f.name@,
            SourceView { base64: true, data: f.content@, media_type: f.content_type@ },
        ),
        ChatRsFileType::Pdf => BlockView::Document(
            f.name@,
            SourceView { base64: true, data: f.content@, media_type: "application/pdf"@ },
        ),
    }
}

pub open spec fn tool_use_view(tc: ChatRsToolCall) -> BlockView {
    BlockView::ToolUse(tc.id@, tc.tool_name@, tc.parameters@)
}

pub open spec fn text_block(t: Seq<char>) -> Seq<BlockView> {
    if t.len() > 0 {
        seq![BlockView::Text(t)]
    } else {
        Seq::empty()
    }
}

/// The request message for an LLM message; system messages are sent apart.
pub open spec fn anthropic_message(m: LlmMessage) -> Option<MessageView> {
    match m {
        LlmMessage::User(u) => Some(
            MessageView {
                role: "user"@,
                content: text_block(u.text@) + match u.files {
                    Some(fs) => fs@.map_values(|f: LlmFile| file_block(f)),
                    None => Seq::empty(),
                },
            },
        ),
        LlmMessage::Assistant(a) => Some(
            MessageView {
                role: "assistant"@,
                content: text_block(a.text@) + match a.tool_calls {
                    Some(tcs) => tcs@.map_values(|tc: ChatRsToolCall| tool_use_view(tc)),
                    None => Seq::empty(),
                },
            },
        ),
        LlmMessage::Tool(t) => Some(
            MessageView {
                role: "user"@,
                content: seq![BlockView::ToolResult(t.tool_call_id@, t.content@)],
            },
        ),
        LlmMessage::System(_) => None,
    }
}

/// The request messages for a conversation, in order.
pub open spec fn anthropic_messages(ms: Seq<LlmMessage>) -> Seq<MessageView>
    decreases ms.len(),
{
    if ms.len() == 0 {
        Seq::empty()
    } else {
        anthropic_messages(ms.drop_last()) + match anthropic_message(ms.last()) {
            Some(v) => seq![v],
            None => Seq::empty(),
        }
    }
}

/// The text of the last system message, if any.
pub open spec fn last_system_prompt(ms: Seq<LlmMessage>) -> Option<Seq<char>>
    decreases ms.len(),
{
    if ms.len() == 0 {
        None
    } else {
        match ms.last() {
            LlmMessage::System(s) => Some(s@),
            _ => last_system_prompt(ms.drop_last()),
        }
    }
}

fn file_content_block<'a>(file: &'a LlmFile) -> (r: AnthropicContentBlock<'a>)
    ensures
        block_view(r) == file_block(*file),
{
    match file.file_type {
        ChatRsFileType::Text => AnthropicContentBlock::Document {
            title: file.name.as_str(),
            source: AnthropicSource::Text { data: file.content.as_str(), media_type: "text/plain" },
        },
        ChatRsFileType::Image => AnthropicContentBlock::Image {
            title: file.name.as_str(),
            source: AnthropicSource::Base64 {
                data: file.content.as_str(),
                media_type: file.content_type.as_str(),
            },
        },
        ChatRsFileType::Pdf => AnthropicContentBlock::Document {
            title: file.name.as_str(),
            source: AnthropicSource::Base64 {
                data: file.content.as_str(),
                media_type: "application/pdf",
            },
        },
    }
}

fn text_blocks<'a>(text: &'a String) -> (r: Vec<AnthropicContentBlock<'a>>)
    ensures
        blocks_view(r@) == text_block(text@),
{
    let mut blocks: Vec<AnthropicContentBlock<'a>> = Vec::new();
    if !text.as_str().is_empty() {
        blocks.push(AnthropicContentBlock::Text { text: text.as_str() });
    }
    assert(blocks_view(blocks@) =~= text_block(text@));
    blocks
}

fn add_file_blocks<'a>(blocks: &mut Vec<AnthropicContentBlock<'a>>, files: &'a Vec<LlmFile>)
    ensures
        blocks_view(final(blocks)@) == blocks_view(old(blocks)@) + files@.map_values(
            |f: LlmFile| file_block(f),
        ),
{
    let ghost start = blocks_view(blocks@);
    for i in 0..files.len()
        invariant
            blocks_view(blocks@) == start + files@.take(i as int).map_values(|f: LlmFile| file_block(f)),
    {
        let ghost before = blocks@;
        blocks.push(file_content_block(&files[i]));
        assert(blocks_view(blocks@) =~= blocks_view(before).push(file_block(files@[i as int])));
        assert(files@.take(i + 1).map_values(|f: LlmFile| file_block(f)) =~= files@.take(
            i as int,
        ).map_values(|f: LlmFile| file_block(f)).push(file_block(files@[i as int])));
    }
    assert(files@.take(files@.len() as int) =~= files@);
}

fn add_tool_use_blocks<'a>(blocks: &mut Vec<AnthropicContentBlock<'a>>, tool_calls: &'a Vec<ChatRsToolCall>)
    ensures
        blocks_view(final(blocks)@) == blocks_view(old(blocks)@) + tool_calls@.map_values(
            |tc: ChatRsToolCall| tool_use_view(tc),
        ),
{
    let ghost start = blocks_view(blocks@);
    for i in 0..tool_calls.len()
        invariant
            blocks_view(blocks@) == start + tool_calls@.take(i as int).map_values(
                |tc: ChatRsToolCall| tool_use_view(tc),
            ),
    {
        let tc = &tool_calls[i];
        let ghost before = blocks@;
        blocks.push(
            AnthropicContentBlock::ToolUse {
                id: tc.id.as_str(),
                name: tc.tool_name.as_str(),
                input: tc.parameters.as_str(),
            },
        );
        assert(blocks_view(blocks@) =~= blocks_view(before).push(tool_use_view(tool_calls@[i as int])));
        assert(tool_calls@.take(i + 1).map_values(|tc: ChatRsToolCall| tool_use_view(tc))
            =~= tool_calls@.take(i as int).map_values(|tc: ChatRsToolCall| tool_use_view(tc)).push(
            tool_use_view(tool_calls@[i as int]),
        ));
    }
    assert(tool_calls@.take(tool_calls@.len() as int) =~= tool_calls@);
}

fn request_message<'a>(message: &'a LlmMessage) -> (r: Option<AnthropicMessage<'a>>)
    ensures
        match r {
            Some(m) => anthropic_message(*message) == Some(message_view(m)),
            None => anthropic_message(*message) is None,
        },
{
    match message {
        LlmMessage::User(user_message) => {
            let mut content = text_blocks(&user_message.text);
            let ghost t = blocks_view(content@);
            if let Some(files) = &user_message.files {
                add_file_blocks(&mut content, files);
            } else {
                assert(blocks_view(content@) =~= t + Seq::<BlockView>::empty());
            }
            Some(AnthropicMessage { role: "user", content })
        },
        LlmMessage::Assistant(assistant_message) => {
            let mut content = text_blocks(&assistant_message.text);
            let ghost t = blocks_view(content@);
            if let Some(tool_calls) = &assistant_message.tool_calls {
                add_tool_use_blocks(&mut content, tool_calls);
            } else {
                assert(blocks_view(content@) =~= t + Seq::<BlockView>::empty());
            }
            Some(AnthropicMessage { role: "assistant", content })
        },
        LlmMessage::Tool(result) => {
            let mut content: Vec<AnthropicContentBlock<'a>> = Vec::new();
            content.push(
                AnthropicContentBlock::ToolResult {
                    tool_use_id: result.tool_call_id.as_str(),
                    content: result.content.as_str(),
                },
            );
            assert(blocks_view(content@) =~= seq![BlockView::ToolResult(result.tool_call_id@, result.content@)]);
            Some(AnthropicMessage { role: "user", content })
        },
        LlmMessage::System(_) => None,
    }
}

/// Build the Anthropic request messages for a conversation, together with its system prompt
/// (the text of its last system message).
pub fn build_anthropic_messages<'a>(messages: &'a [LlmMessage]) -> (r: (
    Vec<AnthropicMessage<'a>>,
    Option<&'a str>,
))
    ensures
        messages_view(r.0@) == anthropic_messages(messages@),
        match r.1 {
            Some(s) => last_system_prompt(messages@) == Some(s@),
            None => last_system_prompt(messages@) is None,
        },
{
    let mut system_prompt: Option<&'a str> = None;
    let mut out: Vec<AnthropicMessage<'a>> = Vec::new();
    for i in 0..messages.len()
        invariant
            messages_view(out@) == anthropic_messages(messages@.take(i as int)),
            match system_prompt {
                Some(s) => last_system_prompt(messages@.take(i as int)) == Some(s@),
                None => last_system_prompt(messages@.take(i as int)) is None,
            },
    {
        let m = &messages[i];
        assert(messages@.take(i + 1).drop_last() =~= messages@.take(i as int));
        if let LlmMessage::System(s) = m {
            system_prompt = Some(s.as_str());
        }
        let ghost before = messages_view(out@);
        match request_message(m) {
            Some(am) => {
                out.push(am);
                assert(messages_view(out@) =~= before.push(anthropic_message(*m).unwrap()));
            },
            None => {
                assert(messages_view(out@) =~= anthropic_messages(messages@.take(i + 1)));
            },
        }
    }
    assert(messages@.take(messages@.len() as int) =~= messages@);
    (out, system_prompt)
}

/// Whether a request tool describes the given tool.
pub open spec fn describes_tool(t: AnthropicTool, tool: LlmTool) -> bool {
    t.name@ == tool.name@ && t.description@ == tool.description@ && t.input_schema@
        == tool.input_schema@
}

/// Build the Anthropic tool definitions, one for each tool, in order.
pub fn build_anthropic_tools<'a>(tools: &'a [LlmTool]) -> (r: Vec<AnthropicTool<'a>>)
    ensures
        r@.len() == tools@.len(),
        forall|i: int| 0 <= i < tools@.len() ==> describes_tool(#[trigger] r@[i], tools@[i]),
{
    let mut out: Vec<AnthropicTool<'a>> = Vec::new();
    for i in 0..tools.len()
        invariant
            out@.len() == i,
            forall|k: int| 0 <= k < i ==> describes_tool(#[trigger] out@[k], tools@[k]),
    {
        let tool = &tools[i];
        out.push(
            AnthropicTool {
                name: tool.name.as_str(),
                description: tool.description.as_str(),
                input_schema: tool.input_schema.as_str(),
            },
        );
    }
    out
}

} // verus!
