use kode_core::anthropic_stream::AnthropicStreamHandler;
use kode_core::error::KodeError;
use kode_core::messages::{ContentBlock, Role};
use kode_core::openai_stream::OpenAIStreamHandler;
use kode_core::stream_events::{
    AnthropicStreamEvent, ContentBlockStart, ContentDelta, ErrorData, FunctionDelta, MessageDeltaData, MessageMetadata,
    OpenAIChoice, OpenAIDelta, OpenAIStreamChunk, ToolCallDelta, Usage, UsageDelta,
};

fn value(s: &str) -> serde_json::Value {
    serde_json::from_str(s).unwrap()
}

fn start() -> AnthropicStreamEvent {
    AnthropicStreamEvent::MessageStart {
        message: MessageMetadata {
            id: "msg_1".into(),
            model: "m".into(),
            role: "assistant".into(),
            message_type: "message".into(),
            usage: Usage { input_tokens: 7, output_tokens: 1, cache_creation_input_tokens: None, cache_read_input_tokens: None },
        },
    }
}

fn tool_stream(a: &str, b: &str) -> (AnthropicStreamHandler, Result<bool, KodeError>) {
    let mut h = AnthropicStreamHandler::new();
    h.process_event(start()).unwrap();
    h.process_event(AnthropicStreamEvent::ContentBlockStart {
        index: 1,
        content_block: ContentBlockStart::ToolUse { id: "t1".into(), name: "Bash".into() },
    })
    .unwrap();
    for part in [a, b] {
        h.process_event(AnthropicStreamEvent::ContentBlockDelta {
            index: 1,
            delta: ContentDelta::InputJsonDelta { partial_json: part.into() },
        })
        .unwrap();
    }
    let r = h.process_event(AnthropicStreamEvent::ContentBlockStop { index: 1 });
    (h, r)
}

#[test]
fn tool_arguments_are_parsed_once_at_stop() {
    let (h, r) = tool_stream("{\"command\":", "\"ls\"}");
    assert_eq!(r.unwrap(), false);
    let blocks = h.get_current_content();
    assert_eq!(blocks.len(), 2);
    assert!(matches!(&blocks[0], ContentBlock::Text { text } if text.is_empty()));
    match &blocks[1] {
        ContentBlock::ToolUse { id, name, input } => {
            assert_eq!(id, "t1");
            assert_eq!(name, "Bash");
            assert_eq!(input, &value("{\"command\":\"ls\"}"));
        }
        _ => panic!("expected a tool use"),
    }
}

#[test]
fn invalid_tool_arguments_fail_the_stream() {
    let (h, r) = tool_stream("{\"command\":", "");
    assert!(matches!(r, Err(KodeError::MalformedPayload { .. })));
    match &h.get_current_content()[1] {
        ContentBlock::ToolUse { input, .. } => assert_eq!(input, &value("{}")),
        _ => panic!("expected a tool use"),
    }
}

#[test]
fn assembled_message_and_idempotent_finalization() {
    let mut h = AnthropicStreamHandler::new();
    assert!(matches!(h.get_message(), Err(KodeError::IncompleteStream { .. })));
    h.process_event(start()).unwrap();
    h.process_event(AnthropicStreamEvent::ContentBlockStart { index: 0, content_block: ContentBlockStart::Text { text: "He".into() } }).unwrap();
    h.process_event(AnthropicStreamEvent::ContentBlockDelta { index: 0, delta: ContentDelta::TextDelta { text: "llo".into() } }).unwrap();
    h.process_event(AnthropicStreamEvent::ContentBlockDelta { index: 2, delta: ContentDelta::ThinkingDelta { thinking: "hm".into() } }).unwrap();
    h.process_event(AnthropicStreamEvent::Ping).unwrap();
    h.process_event(AnthropicStreamEvent::MessageDelta {
        delta: MessageDeltaData { stop_reason: Some("end_turn".into()), stop_sequence: None },
        usage: Some(UsageDelta { output_tokens: Some(12) }),
    })
    .unwrap();
    assert_eq!(h.process_event(AnthropicStreamEvent::MessageStop).unwrap(), true);
    let m1 = h.get_message().unwrap();
    let m2 = h.get_message().unwrap();
    assert_eq!(m1.role, Role::Assistant);
    assert_eq!(m1.uuid.as_deref(), Some("msg_1"));
    assert_eq!(m1.content, m2.content);
    assert_eq!(m1.uuid, m2.uuid);
    assert_eq!(m1.content.len(), 3);
    assert!(matches!(&m1.content[0], ContentBlock::Text { text } if text == "Hello"));
    assert!(matches!(&m1.content[2], ContentBlock::Thinking { thinking } if thinking == "hm"));
    assert_eq!(h.stop_reason().as_deref(), Some("end_turn"));
    assert_eq!(h.usage().output_tokens, 12);
    assert_eq!(h.usage().input_tokens, 7);
}

#[test]
fn provider_error_event_fails() {
    let mut h = AnthropicStreamHandler::new();
    let r = h.process_event(AnthropicStreamEvent::Error { error: ErrorData { error_type: "overloaded".into(), message: "busy".into() } });
    match r {
        Err(KodeError::ApiError { provider, message }) => {
            assert_eq!(provider, "Anthropic");
            assert_eq!(message, "Stream error: overloaded - busy");
        }
        _ => panic!("expected an API error"),
    }
}

fn chunk(content: Option<&str>, reasoning: Option<&str>, calls: Option<Vec<ToolCallDelta>>, finish: Option<&str>) -> OpenAIStreamChunk {
    OpenAIStreamChunk {
        id: "chatcmpl-123".into(),
        object: "chat.completion.chunk".into(),
        created: 1234567890,
        model: "gpt-4".into(),
        choices: vec![OpenAIChoice {
            index: 0,
            delta: OpenAIDelta {
                role: None,
                content: content.map(String::from),
                tool_calls: calls,
                reasoning: reasoning.map(String::from),
            },
            finish_reason: finish.map(String::from),
        }],
        usage: None,
    }
}

fn call(index: usize, id: Option<&str>, name: Option<&str>, args: Option<&str>) -> ToolCallDelta {
    ToolCallDelta {
        index,
        id: id.map(String::from),
        call_type: None,
        function: Some(FunctionDelta { name: name.map(String::from), arguments: args.map(String::from) }),
    }
}

#[test]
fn chunk_dialect_accumulates_text_and_calls() {
    let mut h = OpenAIStreamHandler::new();
    h.process_event(chunk(Some("Hello"), None, None, None));
    h.process_event(chunk(Some(" world"), Some("think"), None, None));
    h.process_event(chunk(None, None, Some(vec![call(3, Some("c3"), Some("late"), Some(""))]), None));
    h.process_event(chunk(None, None, Some(vec![call(0, Some("c0"), Some("get_weather"), Some("{\"location\":"))]), None));
    h.process_event(chunk(None, None, Some(vec![call(0, None, None, Some("\"Boston\"}"))]), Some("tool_calls")));
    assert_eq!(h.get_current_text(), "Hello world");
    let m = h.get_message().unwrap();
    assert_eq!(m.content.len(), 4);
    assert!(matches!(&m.content[0], ContentBlock::Text { text } if text == "Hello world"));
    assert!(matches!(&m.content[1], ContentBlock::Thinking { thinking } if thinking == "think"));
    match &m.content[2] {
        ContentBlock::ToolUse { id, name, input } => {
            assert_eq!(id, "c0");
            assert_eq!(name, "get_weather");
            assert_eq!(input["location"], "Boston");
        }
        _ => panic!("expected a tool use"),
    }
    match &m.content[3] {
        ContentBlock::ToolUse { name, input, .. } => {
            assert_eq!(name, "late");
            assert_eq!(input, &value("{}"));
        }
        _ => panic!("expected a tool use"),
    }
}

#[test]
fn chunk_dialect_failures() {
    let empty = OpenAIStreamHandler::new();
    assert!(matches!(empty.get_message(), Err(KodeError::IncompleteStream { .. })));
    let mut h = OpenAIStreamHandler::new();
    h.process_event(chunk(None, None, Some(vec![call(0, Some("c"), Some("f"), Some("{oops"))]), None));
    assert!(matches!(h.get_message(), Err(KodeError::MalformedPayload { .. })));
}

#[test]
fn chunk_dialect_frames_until_done_marker() {
    let mut h = OpenAIStreamHandler::new();
    let (payloads, done) = h.process_chunk("data: {\"a\":1}\n\ndata: [DO");
    assert_eq!(payloads, vec!["{\"a\":1}".to_string()]);
    assert!(!done);
    let (payloads, done) = h.process_chunk("NE]\n\ndata: {\"b\":2}\n\n");
    assert!(payloads.is_empty());
    assert!(done);
}

#[test]
fn typed_dialect_frames_payloads_in_order() {
    let mut h = AnthropicStreamHandler::new();
    let first = h.process_chunk("event: ping\ndata: {\"type\":\"ping\"}\n\nevent: message_stop\ndata: {\"ty");
    assert_eq!(first, vec!["{\"type\":\"ping\"}".to_string()]);
    let second = h.process_chunk("pe\":\"message_stop\"}\n\n");
    assert_eq!(second, vec!["{\"type\":\"message_stop\"}".to_string()]);
}
