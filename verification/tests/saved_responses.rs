use rs_chat::ids::Uuid;
use rs_chat::provider::llm::{llm_api_messages, LlmApiRole};
use rs_chat::provider::openrouter::{openrouter_max_tokens, openrouter_messages};
use rs_chat::provider::{
    ChatRsMessage, ChatRsMessageMeta, ChatRsMessageRole, ChatRsToolCall, LlmError, LlmProviderOptions,
    LlmToolType, LlmUsage,
};
use rs_chat::provider_models::{provider_entry_positions, ModelsDevServiceProvider};
use rs_chat::stream::streamer::{generated_image_path, record_image, response_message};
use rs_chat::utils::llm_stream::{data_fields, end_fields, LlmStreamProcessor, RedisStreamChunkData};
use rs_chat::utils::stored_stream::{cache_key, StoredChatRsStream};

fn session() -> Uuid {
    Uuid::from_u128(0x0123_4567_89ab_cdef_0123_4567_89ab_cdef)
}

fn call(id: &str) -> ChatRsToolCall {
    ChatRsToolCall {
        id: id.to_string(),
        tool_id: Uuid::from_u128(7),
        tool_name: "search".to_string(),
        tool_type: LlmToolType::ExternalApi,
        parameters: "{}".to_string(),
    }
}

fn message(role: ChatRsMessageRole, content: &str) -> ChatRsMessage {
    ChatRsMessage {
        role,
        content: content.to_string(),
        meta: ChatRsMessageMeta { assistant: None, tool_call: None },
    }
}

fn options() -> LlmProviderOptions {
    LlmProviderOptions { model: "m1".to_string(), temperature: Some(0.5f32.to_bits()), max_tokens: Some(100) }
}

fn usage(i: Option<u32>, o: Option<u32>) -> LlmUsage {
    LlmUsage { input_tokens: i, output_tokens: o, cost: None }
}

#[test]
fn stored_stream_cache_key() {
    assert_eq!(cache_key(&session()), "chat_session:01234567-89ab-cdef-0123-456789abcdef");
}

#[test]
fn stored_stream_yields_text_and_caches_every_second() {
    let mut s = StoredChatRsStream::new(3, options(), Some(session()));
    assert_eq!(*s.session_id(), session());
    let out = s.on_chunk(Some("Hello".to_string()), None, None, 200);
    assert_eq!(out.output.as_deref(), Some("Hello"));
    assert!(out.cache.is_none());
    let out = s.on_chunk(None, None, Some(usage(Some(5), None)), 500);
    assert!(out.output.is_none());
    assert!(out.cache.is_none());
    let out = s.on_chunk(Some(", world".to_string()), None, Some(usage(None, Some(9))), 1000);
    let cache = out.cache.expect("cache write after a second");
    assert_eq!(cache.key, "chat_session:01234567-89ab-cdef-0123-456789abcdef");
    assert_eq!(cache.content, "Hello, world");
    assert!(!s.should_cache(999));
    assert!(s.should_cache(1000));
}

#[test]
fn stored_stream_saves_once_at_the_end() {
    let mut s = StoredChatRsStream::new(3, options(), Some(session()));
    s.on_chunk(Some("a".to_string()), Some(vec![call("c1")]), Some(usage(Some(5), Some(2))), 0);
    s.on_chunk(Some("b".to_string()), Some(vec![call("c2")]), Some(usage(None, Some(4))), 0);
    let saved = s.on_end().expect("a response to save");
    assert_eq!(saved.message.role, ChatRsMessageRole::Assistant);
    assert_eq!(saved.message.content, "ab");
    assert_eq!(saved.cache_key, "chat_session:01234567-89ab-cdef-0123-456789abcdef");
    let meta = saved.message.meta.assistant.expect("assistant metadata");
    assert_eq!(meta.provider_id, 3);
    let opts = meta.provider_options.expect("options on the first save");
    assert_eq!(opts.model, "m1");
    assert_eq!(opts.max_tokens, Some(100));
    assert_eq!(meta.partial, None);
    assert_eq!(meta.usage, Some(usage(Some(5), Some(4))));
    let calls = meta.tool_calls.expect("tool calls");
    assert_eq!(calls.len(), 2);
    assert_eq!(calls[1].id, "c2");
    assert!(s.on_drop().is_none());
    assert!(s.on_end().is_none());
    s.on_chunk(Some("c".to_string()), None, None, 0);
    let later = s.on_drop().expect("a later response");
    assert!(later.message.meta.assistant.unwrap().provider_options.is_none());
}

#[test]
fn stored_stream_dropped_early_is_partial() {
    let mut s = StoredChatRsStream::new(1, options(), None);
    assert!(s.on_drop().is_none());
    s.on_chunk(Some(String::new()), None, None, 0);
    let saved = s.on_drop().expect("an empty text still counts as streamed");
    assert_eq!(saved.message.content, "");
    let meta = saved.message.meta.assistant.unwrap();
    assert_eq!(meta.partial, Some(true));
    assert_eq!(meta.usage, Some(usage(Some(0), Some(0))));
    assert!(meta.tool_calls.is_none());
}

#[test]
fn llm_stream_processor_flush_rules() {
    let mut p = LlmStreamProcessor::new();
    assert!(!p.should_flush(10_000));
    p.process_chunk(Some("hi".to_string()), None, None);
    assert!(!p.should_flush(500));
    assert!(p.should_flush(501));
    p.process_text(&"x".repeat(1000));
    assert!(p.should_flush(0));
    let chunk = p.take_chunk();
    assert_eq!(chunk.text.as_ref().map(|t| t.len()), Some(1002));
    assert!(!p.should_flush(10_000));
    p.process_tool_calls(vec![call("c1")]);
    assert!(p.should_flush(0));
    p.take_chunk();
    p.process_error(LlmError::NoResponse, "No response".to_string());
    assert!(p.should_flush(0));
    p.process_usage(usage(Some(1), None));
    p.process_usage(usage(None, Some(2)));
    p.on_end_result(Err("connection lost".to_string()));
    let (text, calls, u, errors) = p.finish();
    assert_eq!(text.as_deref(), Some(&*format!("hi{}", "x".repeat(1000))));
    assert_eq!(calls.map(|c| c.len()), Some(1));
    assert_eq!(u, Some(usage(Some(1), Some(2))));
    let errors = errors.unwrap();
    assert_eq!(errors.len(), 2);
    assert!(matches!(errors[1], LlmError::Redis(ref m) if m == "connection lost"));
}

#[test]
fn llm_stream_entry_fields() {
    let data = RedisStreamChunkData {
        text: Some("t".to_string()),
        tool_calls: Some(vec![call("c1")]),
        error: Some("e".to_string()),
    };
    let fields = data_fields(data, Some("[..]".to_string())).unwrap();
    let expected: Vec<(String, String)> = vec![
        ("type".into(), "data".into()),
        ("text".into(), "t".into()),
        ("tool_calls".into(), "[..]".into()),
        ("error".into(), "e".into()),
    ];
    assert_eq!(fields, expected);
    let data = RedisStreamChunkData { text: None, tool_calls: Some(vec![call("c1")]), error: None };
    assert!(data_fields(data, None).is_none());
    let data = RedisStreamChunkData { text: None, tool_calls: None, error: None };
    assert_eq!(data_fields(data, None).unwrap(), vec![("type".to_string(), "data".to_string())]);
    assert_eq!(end_fields(), vec![("type".to_string(), "end".to_string())]);
}

#[test]
fn streamer_paths_and_message() {
    assert_eq!(
        generated_image_path(&session()),
        "generated/01234567-89ab-cdef-0123-456789abcdef.png"
    );
    let mut ids = None;
    record_image(&mut ids, Uuid::from_u128(1));
    record_image(&mut ids, Uuid::from_u128(2));
    assert_eq!(ids.as_ref().map(|v| v.len()), Some(2));
    let (m, end) = response_message(4, options(), None, None, None, Some(vec!["oops".to_string()]), true, ids);
    assert!(!end);
    assert_eq!(m.content, "");
    let meta = m.meta.assistant.unwrap();
    assert_eq!(meta.partial, Some(true));
    assert_eq!(meta.provider_options.map(|o| o.model), Some("m1".to_string()));
    assert_eq!(meta.files.map(|f| f.len()), Some(2));
    assert_eq!(meta.errors, Some(vec!["oops".to_string()]));
    let (m, end) = response_message(4, options(), Some("done".to_string()), None, None, None, false, None);
    assert!(end);
    assert_eq!(m.content, "done");
    assert_eq!(m.meta.assistant.unwrap().partial, None);
}

#[test]
fn models_dev_entry_positions() {
    let names: Vec<String> = vec!["anthropic", "x", "openrouter", "openai", "openai"]
        .into_iter()
        .map(String::from)
        .collect();
    assert_eq!(provider_entry_positions(&names).unwrap(), vec![3, 0, 2]);
    assert_eq!(ModelsDevServiceProvider::OpenRouter.position(), 2);
    let names: Vec<String> = vec!["openai".to_string()];
    match provider_entry_positions(&names) {
        Err(LlmError::ModelsDevError(m)) => assert_eq!(m, "Provider 'anthropic' not found"),
        _ => panic!("expected a missing provider"),
    }
}

#[test]
fn llm_api_and_openrouter_messages() {
    let history = vec![
        message(ChatRsMessageRole::System, "sys"),
        message(ChatRsMessageRole::User, "q"),
        message(ChatRsMessageRole::Assistant, "a"),
    ];
    let m = llm_api_messages(Some(&history), Some("next"));
    assert_eq!(
        m,
        vec![
            (LlmApiRole::User, "q".to_string()),
            (LlmApiRole::Assistant, "a".to_string()),
            (LlmApiRole::User, "next".to_string()),
        ]
    );
    assert!(llm_api_messages(None, None).is_empty());
    let m = openrouter_messages(Some(&history), Some("next"));
    assert_eq!(m.len(), 4);
    assert_eq!(m[0], (ChatRsMessageRole::System, "sys".to_string()));
    assert_eq!(m[3], (ChatRsMessageRole::User, "next".to_string()));
    assert_eq!(openrouter_max_tokens(None), 1000);
    assert_eq!(openrouter_max_tokens(Some(42)), 42);
}
