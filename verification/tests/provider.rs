use rs_chat::ids::Uuid;
use rs_chat::provider::anthropic::request as anthropic_request;
use rs_chat::provider::anthropic::response::{
    parse_anthropic_event, AnthropicDelta, AnthropicError, AnthropicResponseContentBlock, AnthropicStreamEvent,
    AnthropicStreamResponse, AnthropicStreamToolCall, AnthropicUsage,
};
use rs_chat::provider::ollama::request as ollama_request;
use rs_chat::provider::ollama::response::{
    convert_tool_calls as ollama_convert, OllamaCompletionResponse, OllamaToolCall, OllamaToolFunction,
};
use rs_chat::provider::openai::request::{build_chat_request, build_openai_messages, build_prompt_request};
use rs_chat::provider::openai::response::{
    convert_tool_calls, parse_openai_event, prompt_text, OpenAIChoice, OpenAIResponse, OpenAIResponseDelta,
    OpenAIResponseMessage, OpenAIStreamResponse, OpenAIStreamToolCall, OpenAIStreamToolCallFunction, OpenAIUsage,
};
use rs_chat::provider::openai::OPENAI_API_BASE_URL;
use rs_chat::provider::providers::ollama::request as llm_ollama_request;
use rs_chat::provider::sse::sse_data_payload;
use rs_chat::provider::{
    AssistantMeta, ChatRsFileType, ChatRsMessage, ChatRsMessageMeta, ChatRsMessageRole, ChatRsToolCall, LlmFile,
    LlmMessage, LlmStreamChunk, LlmStreamError, LlmTool, LlmToolType, LlmUserMessage,
};

fn tool(name: &str) -> LlmTool {
    LlmTool {
        name: name.to_string(),
        description: "d".to_string(),
        input_schema: "{}".to_string(),
        tool_id: Uuid::from_u128(7),
        tool_type: LlmToolType::System,
    }
}

fn call(id: &str, name: &str, params: &str) -> ChatRsToolCall {
    ChatRsToolCall {
        id: id.to_string(),
        tool_id: Uuid::from_u128(7),
        tool_name: name.to_string(),
        tool_type: LlmToolType::System,
        parameters: params.to_string(),
    }
}

fn message(role: ChatRsMessageRole, content: &str, meta: ChatRsMessageMeta) -> ChatRsMessage {
    ChatRsMessage { role, content: content.to_string(), meta }
}

fn no_meta() -> ChatRsMessageMeta {
    ChatRsMessageMeta { assistant: None, tool_call: None }
}

#[test]
fn uuid_text_is_hyphenated_lower_case() {
    let id = Uuid::from_u128(0x0123_4567_89AB_CDEF_0123_4567_89AB_CDEF);
    assert_eq!(id.to_string(), "01234567-89ab-cdef-0123-456789abcdef");
    let v4 = Uuid::new_v4();
    let t = v4.to_string();
    assert_eq!(t.len(), 36);
    assert_eq!(&t[14..15], "4");
}

#[test]
fn sse_lines() {
    assert_eq!(sse_data_payload("data: {\"a\":1}").as_deref(), Some("{\"a\":1}"));
    assert_eq!(sse_data_payload("data: [DONE]"), None);
    assert_eq!(sse_data_payload("data:   "), None);
    assert_eq!(sse_data_payload("event: ping"), None);
}

#[test]
fn anthropic_stream_events() {
    let tools = vec![tool("search")];
    let mut calls: Vec<AnthropicStreamToolCall> = Vec::new();
    let r = parse_anthropic_event(
        AnthropicStreamEvent::MessageStart {
            message: AnthropicStreamResponse { usage: Some(AnthropicUsage { input_tokens: Some(3), output_tokens: Some(1) }) },
        },
        Some(&tools),
        &mut calls,
    );
    assert!(matches!(r, Some(Ok(LlmStreamChunk::Usage(u))) if u.input_tokens == Some(3) && u.cost.is_none()));
    let r = parse_anthropic_event(
        AnthropicStreamEvent::ContentBlockDelta { index: 0, delta: AnthropicDelta::TextDelta { text: "Hi".to_string() } },
        Some(&tools),
        &mut calls,
    );
    assert!(matches!(r, Some(Ok(LlmStreamChunk::Text(t))) if t == "Hi"));
    let r = parse_anthropic_event(
        AnthropicStreamEvent::ContentBlockStart {
            index: 1,
            content_block: AnthropicResponseContentBlock::ToolUse { id: "tu_1".to_string(), name: "search".to_string() },
        },
        Some(&tools),
        &mut calls,
    );
    assert!(r.is_none());
    assert_eq!(calls.len(), 1);
    for part in ["{\"q\":", "\"rust\"}"] {
        let r = parse_anthropic_event(
            AnthropicStreamEvent::ContentBlockDelta {
                index: 1,
                delta: AnthropicDelta::InputJsonDelta { partial_json: part.to_string() },
            },
            Some(&tools),
            &mut calls,
        );
        assert!(matches!(r, Some(Ok(LlmStreamChunk::PendingToolCall(p))) if p.index == 1 && p.tool_name == "search"));
    }
    let r = parse_anthropic_event(AnthropicStreamEvent::ContentBlockStop { index: 1 }, Some(&tools), &mut calls);
    match r {
        Some(Ok(LlmStreamChunk::ToolCalls(v))) => {
            assert_eq!(v.len(), 1);
            assert_eq!(v[0].id, "tu_1");
            assert_eq!(v[0].tool_name, "search");
            assert_eq!(v[0].parameters, "{\"q\":\"rust\"}");
            assert_eq!(v[0].tool_id, Uuid::from_u128(7));
        }
        other => panic!("unexpected {:?}", other),
    }
    assert!(calls.is_empty());
    let r = parse_anthropic_event(
        AnthropicStreamEvent::Error { error: AnthropicError { error_type: "overloaded".to_string(), message: "busy".to_string() } },
        None,
        &mut calls,
    );
    assert!(matches!(r, Some(Err(LlmStreamError::ProviderError(m))) if m == "overloaded: busy"));
    assert!(parse_anthropic_event(AnthropicStreamEvent::Ping, None, &mut calls).is_none());
}

#[test]
fn anthropic_tool_call_with_empty_input_is_an_empty_object() {
    let tools = vec![tool("now")];
    let mut calls = vec![AnthropicStreamToolCall { id: "x".to_string(), index: 0, name: "now".to_string(), input: " ".to_string() }];
    let r = parse_anthropic_event(AnthropicStreamEvent::ContentBlockStop { index: 0 }, Some(&tools), &mut calls);
    assert!(matches!(r, Some(Ok(LlmStreamChunk::ToolCalls(v))) if v[0].parameters == "{}"));
    let mut calls = vec![AnthropicStreamToolCall { id: "x".to_string(), index: 0, name: "other".to_string(), input: String::new() }];
    let r = parse_anthropic_event(AnthropicStreamEvent::ContentBlockStop { index: 0 }, Some(&tools), &mut calls);
    assert!(r.is_none());
}

#[test]
fn anthropic_requests() {
    let messages = vec![
        message(ChatRsMessageRole::System, "be brief", no_meta()),
        message(ChatRsMessageRole::User, "hello", no_meta()),
        message(
            ChatRsMessageRole::Assistant,
            "",
            ChatRsMessageMeta {
                assistant: Some(AssistantMeta {
                    provider_id: 1,
                    provider_options: None,
                    tool_calls: Some(vec![call("c1", "search", "{\"q\":1}")]),
                    usage: None,
                    errors: None,
                    files: None,
                    partial: None,
                }),
                tool_call: None,
            },
        ),
        message(ChatRsMessageRole::Tool, "result", ChatRsMessageMeta { assistant: None, tool_call: Some(call("c1", "search", "{}")) }),
    ];
    let tools = vec![tool("search")];
    let req = anthropic_request::build_chat_request("sonnet-4", None, &messages, Some(&tools));
    assert_eq!(req.max_tokens, 2000);
    assert_eq!(req.system, Some("be brief"));
    assert_eq!(req.messages.len(), 3);
    assert_eq!(req.messages[0].role, "user");
    assert_eq!(req.messages[1].role, "assistant");
    assert_eq!(req.messages[1].content.len(), 1);
    assert_eq!(req.messages[2].role, "user");
    assert_eq!(req.tools.as_ref().unwrap().len(), 1);
    let req = anthropic_request::build_prompt_request("sonnet-4", Some(50), "hi");
    assert_eq!(req.max_tokens, 50);
    assert_eq!(req.messages.len(), 1);
    assert!(req.stream.is_none());
}

#[test]
fn openai_requests() {
    let messages = vec![
        message(ChatRsMessageRole::User, "hello", no_meta()),
        message(ChatRsMessageRole::Tool, "42", ChatRsMessageMeta { assistant: None, tool_call: Some(call("c9", "calc", "{}")) }),
    ];
    let built = build_openai_messages(&messages);
    assert_eq!(built[0].role, "user");
    assert_eq!(built[0].content, Some("hello"));
    assert!(built[0].tool_call_id.is_none());
    assert_eq!(built[1].role, "tool");
    assert_eq!(built[1].tool_call_id, Some("c9"));

    let official = build_chat_request(OPENAI_API_BASE_URL, "gpt", Some(100), &messages, None);
    assert_eq!(official.max_tokens, None);
    assert_eq!(official.max_completion_tokens, Some(100));
    assert_eq!(official.store, Some(false));
    assert!(official.stream_options.as_ref().unwrap().include_usage);
    let other = build_chat_request("https://openrouter.ai/api/v1", "gpt", Some(100), &messages, None);
    assert_eq!(other.max_tokens, Some(100));
    assert_eq!(other.max_completion_tokens, None);
    assert_eq!(other.store, None);
    let prompt = build_prompt_request("gpt", None, "hi");
    assert_eq!(prompt.messages.len(), 1);
    assert_eq!(prompt.messages[0].content, Some("hi"));
}

fn delta_call(id: Option<&str>, index: usize, name: Option<&str>, args: Option<&str>) -> OpenAIStreamToolCall {
    OpenAIStreamToolCall {
        id: id.map(String::from),
        index,
        function: OpenAIStreamToolCallFunction { name: name.map(String::from), arguments: args.map(String::from) },
    }
}

#[test]
fn openai_stream_events_and_tool_calls() {
    let mut calls: Vec<OpenAIStreamToolCall> = Vec::new();
    let event = OpenAIStreamResponse {
        choices: vec![OpenAIChoice {
            message: None,
            delta: Some(OpenAIResponseDelta {
                content: Some("Hi".to_string()),
                tool_calls: Some(vec![delta_call(Some("call_1"), 0, Some("search"), Some("{\"q\""))]),
            }),
        }],
        usage: None,
    };
    let chunks = parse_openai_event(event, &mut calls);
    assert!(matches!(&chunks[0], Ok(LlmStreamChunk::Text(t)) if t == "Hi"));
    assert!(matches!(&chunks[1], Ok(LlmStreamChunk::PendingToolCall(p)) if p.index == 0 && p.tool_name == "search"));
    let event = OpenAIStreamResponse {
        choices: vec![OpenAIChoice {
            message: None,
            delta: Some(OpenAIResponseDelta { content: None, tool_calls: Some(vec![delta_call(None, 0, None, Some(":1}"))]) }),
        }],
        usage: Some(OpenAIUsage { prompt_tokens: Some(4), completion_tokens: Some(2), cost: None }),
    };
    let chunks = parse_openai_event(event, &mut calls);
    assert!(matches!(chunks.last(), Some(Ok(LlmStreamChunk::Usage(u))) if u.input_tokens == Some(4) && u.output_tokens == Some(2)));
    assert_eq!(calls.len(), 1);
    assert_eq!(calls[0].function.arguments.as_deref(), Some("{\"q\":1}"));
    let converted = convert_tool_calls(calls, &vec![tool("search")]);
    assert_eq!(converted.len(), 1);
    assert_eq!(converted[0].id, "call_1");
    assert_eq!(converted[0].parameters, "{\"q\":1}");
    let dropped = convert_tool_calls(vec![delta_call(Some("x"), 0, Some("nope"), Some("{}"))], &vec![tool("search")]);
    assert!(dropped.is_empty());
}

#[test]
fn openai_prompt_text() {
    let ok = OpenAIResponse {
        choices: vec![OpenAIChoice { message: Some(OpenAIResponseMessage { content: Some("answer".to_string()) }), delta: None }],
        usage: None,
    };
    assert_eq!(prompt_text(ok).unwrap(), "answer");
    let empty = OpenAIResponse { choices: vec![], usage: None };
    assert!(prompt_text(empty).is_err());
}

#[test]
fn ollama_requests_and_results() {
    let messages = vec![
        message(ChatRsMessageRole::Tool, "out", ChatRsMessageMeta { assistant: None, tool_call: Some(call("c", "calc", "{}")) }),
        message(
            ChatRsMessageRole::Assistant,
            "",
            ChatRsMessageMeta {
                assistant: Some(AssistantMeta {
                    provider_id: 2,
                    provider_options: None,
                    tool_calls: Some(vec![call("c", "calc", "{\"x\":1}")]),
                    usage: None,
                    errors: None,
                    files: None,
                    partial: None,
                }),
                tool_call: None,
            },
        ),
    ];
    let built = ollama_request::build_ollama_messages(&messages);
    assert_eq!(built[0].role, "tool");
    assert_eq!(built[0].tool_name, Some("calc"));
    assert_eq!(built[1].tool_calls.as_ref().unwrap()[0].function.arguments, "{\"x\":1}");
    let req = ollama_request::build_chat_request("llama", Some(64), &messages, None);
    assert_eq!(req.stream, Some(true));
    assert_eq!(req.options.as_ref().unwrap().num_predict, Some(64));

    let calls = vec![
        OllamaToolCall { function: OllamaToolFunction { name: "calc".to_string(), arguments: "{\"x\":1}".to_string() } },
        OllamaToolCall { function: OllamaToolFunction { name: "calc".to_string(), arguments: "[1]".to_string() } },
    ];
    let converted = ollama_convert(calls, &vec![tool("calc")]);
    assert_eq!(converted.len(), 1);
    assert_eq!(converted[0].parameters, "{\"x\":1}");

    let resp = OllamaCompletionResponse {
        model: "m".to_string(),
        created_at: "t".to_string(),
        response: String::new(),
        done: true,
        done_reason: None,
        total_duration: None,
        load_duration: None,
        prompt_eval_count: Some(3),
        prompt_eval_duration: None,
        eval_count: None,
        eval_duration: None,
    };
    assert_eq!(resp.usage().unwrap().input_tokens, Some(3));
    assert!(resp.into_text().is_err());
}

#[test]
fn ollama_llm_messages_keep_images_only() {
    let files = vec![
        LlmFile { name: "a.png".to_string(), content: "AAA".to_string(), content_type: "image/png".to_string(), file_type: ChatRsFileType::Image },
        LlmFile { name: "b.txt".to_string(), content: "text".to_string(), content_type: "text/plain".to_string(), file_type: ChatRsFileType::Text },
    ];
    let messages = vec![LlmMessage::User(LlmUserMessage { text: "look".to_string(), files: Some(files) })];
    let built = llm_ollama_request::build_ollama_messages(&messages);
    assert_eq!(built[0].images.as_ref().unwrap(), &vec!["AAA"]);
}
