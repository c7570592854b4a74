use rs_chat::ids::Uuid;
use rs_chat::provider::lorem::{LoremProvider, LoremStream};
use rs_chat::provider::{LlmStreamChunk, LlmStreamError, LlmUsage};
use rs_chat::stream::chunks::{RedisStreamChunk, StreamAction, StreamEvent};
use rs_chat::stream::llm_writer::{ping_goes_on, write_outcome, LlmStreamWriter};
use rs_chat::stream::reader::{convert_redis_event_to_sse, is_end_event, prev_events_summary, ReadStep, SseStreamReader};
use rs_chat::stream::tinistream::{active_chat_streams, streams_pattern, TiniError};
use rs_chat::stream::{chat_stream_key, chat_stream_prefix, LastEventId};

fn ids() -> (Uuid, Uuid) {
    (
        Uuid::from_u128(0x0123_4567_89ab_cdef_0123_4567_89ab_cdef),
        Uuid::from_u128(0xfedc_ba98_7654_3210_fedc_ba98_7654_3210),
    )
}

/// Runs items through a writer the way its driver does, flushing successfully, and returns the
/// entries written and the finished response.
fn run(
    items: Vec<Result<LlmStreamChunk, LlmStreamError>>,
    elapsed_ms: u64,
) -> (
    Vec<RedisStreamChunk>,
    (Option<String>, Option<Vec<rs_chat::provider::ChatRsToolCall>>, Option<LlmUsage>, Option<Vec<String>>, bool),
) {
    let (u, s) = ids();
    let mut writer = LlmStreamWriter::new(&u, &s);
    let mut written = Vec::new();
    for item in items {
        match writer.on_event(StreamEvent::Item(item), elapsed_ms) {
            StreamAction::Continue => {}
            StreamAction::Flush(es) => {
                written.extend(es);
                assert!(writer.on_flush_result(Ok(())));
            }
            StreamAction::FinalFlush(_) => panic!("no final flush for an item"),
        }
    }
    match writer.on_event(StreamEvent::Ended, elapsed_ms) {
        StreamAction::FinalFlush(es) => written.extend(es),
        _ => panic!("end of stream flushes"),
    }
    (written, writer.finish())
}

fn text(t: &str) -> Result<LlmStreamChunk, LlmStreamError> {
    Ok(LlmStreamChunk::Text(t.to_string()))
}

#[test]
fn stream_writer_batching() {
    let chunks = vec!["Hello", " ", "world", "!", " ", "This", " ", "is", " ", "a", " ", "test"];
    let (written, (text_out, _, _, _, cancelled)) = run(chunks.into_iter().map(text).collect(), 0);
    assert_eq!(text_out.as_deref(), Some("Hello world! This is a test"));
    assert!(!cancelled);
    // Small chunks within the interval are written together, once, at the end.
    assert_eq!(written.len(), 1);
    match &written[0] {
        RedisStreamChunk::Text(t) => assert_eq!(t, "Hello world! This is a test"),
        other => panic!("unexpected entry {:?}", other),
    }
}

#[test]
fn stream_writer_flushes_after_interval() {
    let (written, (text_out, _, _, _, _)) = run(vec![text("a"), text("b")], 301);
    assert_eq!(text_out.as_deref(), Some("ab"));
    assert_eq!(written.len(), 2);
}

#[test]
fn stream_writer_error_handling() {
    let items = vec![text("Hello"), Err(LlmStreamError::ProviderError("Test error".into())), text(" World")];
    let (written, (text_out, _, _, errors, cancelled)) = run(items, 0);
    assert_eq!(text_out.as_deref(), Some("Hello World"));
    let errors = errors.expect("errors");
    assert!(!errors.is_empty());
    assert!(errors.iter().any(|e| e.contains("Test error")));
    assert_eq!(errors, vec!["Provider error: Test error".to_string()]);
    assert!(!cancelled);
    // The error is flushed at once, with the text gathered before it.
    assert!(matches!(written[0], RedisStreamChunk::Text(ref t) if t == "Hello"));
    assert!(matches!(written[1], RedisStreamChunk::Error(ref e) if e == "Provider error: Test error"));
}

#[test]
fn stream_writer_timeout() {
    let (u, s) = ids();
    let mut writer = LlmStreamWriter::new(&u, &s);
    match writer.on_event(StreamEvent::TimedOut, 0) {
        StreamAction::FinalFlush(es) => {
            assert!(matches!(es[0], RedisStreamChunk::Error(ref e) if e == "Timeout waiting for provider response"));
        }
        _ => panic!("timeout flushes"),
    }
    let (text_out, _, _, errors, cancelled) = writer.finish();
    assert!(text_out.is_none());
    assert!(errors.expect("errors").iter().any(|e| e.contains("Timeout")));
    assert!(!cancelled);
}

#[test]
fn stream_writer_cancel() {
    let (u, s) = ids();
    let mut writer = LlmStreamWriter::new(&u, &s);
    let action = writer.on_event(StreamEvent::Item(Err(LlmStreamError::ProviderError("x".into()))), 0);
    assert!(matches!(action, StreamAction::Flush(_)));
    assert!(!writer.on_flush_result(Err(LlmStreamError::StreamCancelled)));
    let (_, _, _, errors, cancelled) = writer.finish();
    assert!(cancelled);
    assert_eq!(errors.unwrap(), vec!["Provider error: x".to_string(), "Stream cancelled".to_string()]);
}

#[test]
fn stream_writer_usage_tracking() {
    let items = vec![
        text("Hello"),
        Ok(LlmStreamChunk::Usage(LlmUsage { input_tokens: Some(10), output_tokens: Some(5), cost: Some(0.001f32.to_bits()) })),
        text(" World"),
        Ok(LlmStreamChunk::Usage(LlmUsage { input_tokens: None, output_tokens: Some(7), cost: Some(0.002f32.to_bits()) })),
    ];
    let (_, (text_out, _, usage, _, cancelled)) = run(items, 0);
    assert_eq!(text_out.as_deref(), Some("Hello World"));
    let usage = usage.expect("usage");
    assert_eq!(usage.input_tokens, Some(10));
    assert_eq!(usage.output_tokens, Some(7));
    assert_eq!(usage.cost.map(f32::from_bits), Some(0.002));
    assert!(!cancelled);
}

#[test]
fn stream_keys() {
    let (u, s) = ids();
    assert_eq!(chat_stream_prefix(&u), "user:01234567-89ab-cdef-0123-456789abcdef:chat:");
    assert_eq!(
        chat_stream_key(&u, &s),
        "user:01234567-89ab-cdef-0123-456789abcdef:chat:fedcba98-7654-3210-fedc-ba9876543210"
    );
    let writer = LlmStreamWriter::new(&u, &s);
    assert_eq!(writer.key(), chat_stream_key(&u, &s));
}

#[test]
fn write_outcomes() {
    assert!(write_outcome(&vec![false, false]).is_ok());
    assert!(matches!(write_outcome(&vec![false, true]), Err(LlmStreamError::StreamCancelled)));
    assert!(ping_goes_on(false, &vec![false]));
    assert!(!ping_goes_on(true, &vec![false]));
    assert!(!ping_goes_on(false, &vec![true]));
}

fn fields(pairs: &[(&str, &str)]) -> Vec<(String, String)> {
    pairs.iter().map(|(k, v)| (k.to_string(), v.to_string())).collect()
}

#[test]
fn reader_converts_events() {
    let f = fields(&[("type", "text"), ("data", "Hello, world!")]);
    let e = convert_redis_event_to_sse("1-0".to_string(), &f);
    assert_eq!(e.event, "text");
    assert_eq!(e.data, " Hello, world!");
    assert_eq!(e.id.as_deref(), Some("1-0"));
    assert!(!is_end_event(&f));
    assert!(is_end_event(&fields(&[("type", "end")])));
    let e = convert_redis_event_to_sse("2-0".to_string(), &fields(&[]));
    assert_eq!(e.event, "unknown");
    assert_eq!(e.data, "");

    let events = vec![
        ("0-1".to_string(), fields(&[("type", "start")])),
        ("0-2".to_string(), fields(&[("type", "end")])),
    ];
    let (sse, last, ended) = prev_events_summary(None, &events);
    assert_eq!(sse.len(), 2);
    assert_eq!(last, "0-2");
    assert!(ended);
    let (sse, last, ended) = prev_events_summary(Some("5-0"), &vec![]);
    assert!(sse.is_empty());
    assert_eq!(last, "5-0");
    assert!(!ended);
    let (_, last, _) = prev_events_summary(None, &vec![]);
    assert_eq!(last, "0-0");

    let reader = SseStreamReader::new();
    assert_eq!(reader.block_timeout_ms(), 10_000);
    match reader.next_step(Err("boom".to_string())) {
        ReadStep::Fail(e) => {
            assert_eq!(e.data, "Error: boom");
            assert_eq!(e.event, "error");
        }
        _ => panic!("failure"),
    }
    match reader.next_step(Ok(("3-0".to_string(), fields(&[("type", "end")])))) {
        ReadStep::Send(_, stop) => assert!(stop),
        _ => panic!("send"),
    }
}

#[test]
fn lorem_stream_sends_words_and_test_errors() {
    let provider = LoremProvider::new();
    assert_eq!(provider.config.interval, 400);
    assert_eq!(provider.prompt(), "Lorem ipsum");
    let mut stream = LoremStream::new();
    let mut items = Vec::new();
    while let Some(item) = stream.next_item() {
        items.push(item);
    }
    assert_eq!(items.len(), 26);
    assert!(matches!(&items[0], Ok(LlmStreamChunk::Text(t)) if t == "Lorem ipsum "));
    assert!(matches!(&items[1], Ok(LlmStreamChunk::Text(t)) if t == "dolor sit "));
    assert!(matches!(&items[9], Err(LlmStreamError::ProviderError(m)) if m == "Test error"));
    assert!(matches!(&items[19], Err(LlmStreamError::ProviderError(m)) if m == "Test error"));
    assert!(matches!(&items[25], Ok(LlmStreamChunk::Text(t)) if t == "nulla pariatur."));
    assert!(stream.next_item().is_none());
}

#[test]
fn tinistream_helpers() {
    assert_eq!(streams_pattern("user:1:chat:"), "user:1:chat:*");
    let keys = vec!["user:1:chat:abc".to_string(), "other".to_string(), "user:1:chat:def".to_string()];
    assert_eq!(active_chat_streams("user:1:chat:", &keys), vec!["abc".to_string(), "def".to_string()]);
    let e = TiniError { status: 404, code: "not_found".to_string(), message: "no stream".to_string() };
    assert_eq!(e.to_text(), "404 not_found: no stream");
    assert_eq!(TiniError::unexpected(None, "x".to_string()).status, 500);
    assert_eq!(TiniError::invalid_event("bad".to_string()).code, "invalid_event");
}

#[test]
fn last_event_id_from_header() {
    assert!(LastEventId::from_header(None).is_none());
    assert_eq!(LastEventId::from_header(Some("1-2")).unwrap().as_str(), "1-2");
}

/// The items of the lorem provider's stream, in order.
fn lorem_items() -> Vec<Result<LlmStreamChunk, LlmStreamError>> {
    let mut stream = LoremStream::new();
    let mut items = Vec::new();
    while let Some(item) = stream.next_item() {
        items.push(item);
    }
    items
}

#[test]
fn stream_writer_basic_functionality() {
    let (u, s) = ids();
    let mut writer = rs_chat::stream::writer::LlmStreamWriter::new(&u, &s);
    assert_eq!(writer.key(), chat_stream_key(&u, &s));
    for item in lorem_items() {
        match writer.on_event(StreamEvent::Item(item), 0) {
            StreamAction::Continue => {}
            StreamAction::Flush(_) => assert!(writer.on_flush_result(Ok(()))),
            StreamAction::FinalFlush(_) => panic!("no final flush for an item"),
        }
    }
    assert!(matches!(writer.on_event(StreamEvent::Ended, 0), StreamAction::FinalFlush(_)));
    let (text, tool_calls, usage, errors, cancelled) = writer.finish();
    let text = text.expect("text");
    assert!(!text.is_empty());
    assert!(text.contains("Lorem ipsum"));
    assert!(text.contains("dolor sit"));
    assert!(tool_calls.is_none());
    assert!(usage.is_none());
    assert!(errors.is_some());
    assert!(!cancelled);
}

#[test]
fn test_stream_writer_basic_functionality() {
    let (written, (text, tool_calls, usage, errors, cancelled)) = run(lorem_items(), 0);
    let text = text.expect("text");
    assert!(text.contains("Lorem ipsum"));
    assert!(text.contains("dolor sit"));
    assert!(tool_calls.is_none());
    assert!(usage.is_none());
    // Every tenth item of the lorem stream is a test error.
    assert_eq!(errors.expect("errors").len(), 2);
    assert!(!cancelled);
    assert!(written.iter().any(|e| matches!(e, RedisStreamChunk::Error(m) if m.contains("Test error"))));
}

#[test]
fn redis_stream_entries() {
    let (u, s) = ids();
    let mut writer = LlmStreamWriter::new(&u, &s);
    let mut entries = vec![writer.start_entry()];
    assert_eq!(entries.len(), 1);
    assert!(matches!(
        writer.on_event(StreamEvent::Item(text("Test chunk")), 0),
        StreamAction::Continue
    ));
    match writer.on_event(StreamEvent::Ended, 0) {
        StreamAction::FinalFlush(es) => entries.extend(es),
        _ => panic!("end of stream flushes"),
    }
    assert!(entries.len() >= 2);
    assert!(matches!(entries[0], RedisStreamChunk::Start));
    assert!(matches!(entries[1], RedisStreamChunk::Text(ref t) if t == "Test chunk"));
    entries.push(writer.end_entry());
    assert!(matches!(entries[2], RedisStreamChunk::End));
}

#[test]
fn test_stream_writer_batching() {
    let chunks = vec!["Hello", " ", "world", "!", " ", "This", " ", "is", " ", "a", " ", "test"];
    let (_, (text_out, _, _, _, cancelled)) = run(chunks.into_iter().map(text).collect(), 0);
    assert_eq!(text_out.as_deref(), Some("Hello world! This is a test"));
    assert!(!cancelled);
}

#[test]
fn test_stream_writer_error_handling() {
    let items = vec![text("Hello"), Err(LlmStreamError::ProviderError("Test error".into())), text(" World")];
    let (_, (text_out, _, _, errors, cancelled)) = run(items, 0);
    assert_eq!(text_out.as_deref(), Some("Hello World"));
    let errors = errors.expect("errors");
    assert!(!errors.is_empty());
    assert!(errors.iter().any(|e| e.contains("Test error")));
    assert!(!cancelled);
}

#[test]
fn test_stream_writer_timeout() {
    let (u, s) = ids();
    let mut writer = LlmStreamWriter::new(&u, &s);
    assert!(matches!(writer.on_event(StreamEvent::TimedOut, 0), StreamAction::FinalFlush(_)));
    let (text_out, _, _, errors, cancelled) = writer.finish();
    assert!(text_out.is_none());
    assert!(errors.expect("errors").iter().any(|e| e.contains("Timeout")));
    assert!(!cancelled);
}

#[test]
fn test_stream_writer_cancel() {
    let (u, s) = ids();
    let mut writer = LlmStreamWriter::new(&u, &s);
    assert!(matches!(writer.start_entry(), RedisStreamChunk::Start));
    assert!(matches!(
        writer.on_event(StreamEvent::Item(text("x".repeat(201).as_str())), 0),
        StreamAction::Flush(_)
    ));
    // A `nil` reply of the write means that the stream was cancelled (deleted).
    let outcome = write_outcome(&vec![false, true]);
    assert!(!writer.on_flush_result(outcome));
    let (_, _, _, _, cancelled) = writer.finish();
    assert!(cancelled);
}

#[test]
fn test_stream_writer_usage_tracking() {
    let items = vec![
        text("Hello"),
        Ok(LlmStreamChunk::Usage(LlmUsage { input_tokens: Some(10), output_tokens: Some(5), cost: Some(0.001f32.to_bits()) })),
        text(" World"),
        Ok(LlmStreamChunk::Usage(LlmUsage { input_tokens: None, output_tokens: Some(7), cost: Some(0.002f32.to_bits()) })),
    ];
    let (_, (text_out, _, usage, _, cancelled)) = run(items, 0);
    assert_eq!(text_out.as_deref(), Some("Hello World"));
    let usage = usage.expect("usage");
    assert_eq!(usage.input_tokens, Some(10));
    assert_eq!(usage.output_tokens, Some(7));
    assert_eq!(usage.cost.map(f32::from_bits), Some(0.002));
    assert!(!cancelled);
}

#[test]
fn test_redis_stream_entries() {
    let (written, _) = run(vec![text("Test chunk")], 0);
    let (u, s) = ids();
    let writer = LlmStreamWriter::new(&u, &s);
    let mut entries = vec![writer.start_entry()];
    entries.extend(written);
    assert!(entries.len() >= 2);
    assert!(matches!(entries[1], RedisStreamChunk::Text(ref t) if t == "Test chunk"));
}
