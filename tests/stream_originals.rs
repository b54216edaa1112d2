use kode_core::anthropic_stream::AnthropicStreamHandler;
use kode_core::messages::{ContentBlock, Message, Role};
use kode_core::openai_stream::OpenAIStreamHandler;
use kode_core::stream_events::{
    AnthropicStreamEvent, ContentBlockStart, ContentDelta, ErrorData, FunctionDelta, MessageDeltaData, MessageMetadata,
    OpenAIChoice, OpenAIDelta, OpenAIStreamChunk, ToolCallDelta, Usage, UsageDelta,
};
use kode_core::tools::ValidationResult;
use kode_core::url_fetcher::UrlCache;
use serde_json::Value;

fn text(v: &Value, key: &str) -> String {
    v[key].as_str().unwrap_or_default().to_string()
}

fn opt_text(v: &Value, key: &str) -> Option<String> {
    v.get(key).and_then(|x| x.as_str()).map(str::to_string)
}

fn usage(v: &Value) -> Usage {
    Usage {
        input_tokens: v["input_tokens"].as_u64().unwrap_or(0) as u32,
        output_tokens: v["output_tokens"].as_u64().unwrap_or(0) as u32,
        cache_creation_input_tokens: v.get("cache_creation_input_tokens").and_then(|x| x.as_u64()).map(|x| x as u32),
        cache_read_input_tokens: v.get("cache_read_input_tokens").and_then(|x| x.as_u64()).map(|x| x as u32),
    }
}

/// Decodes one typed-event payload, as the provider encodes it.
fn anthropic_event(payload: &str) -> AnthropicStreamEvent {
    let v: Value = serde_json::from_str(payload).unwrap();
    let index = v["index"].as_u64().unwrap_or(0) as usize;
    match v["type"].as_str().unwrap() {
        "message_start" => {
            let m = &v["message"];
            AnthropicStreamEvent::MessageStart {
                message: MessageMetadata {
                    id: text(m, "id"),
                    model: text(m, "model"),
                    role: text(m, "role"),
                    message_type: text(m, "type"),
                    usage: usage(&m["usage"]),
                },
            }
        }
        "content_block_start" => {
            let b = &v["content_block"];
            let content_block = match b["type"].as_str().unwrap() {
                "tool_use" => ContentBlockStart::ToolUse { id: text(b, "id"), name: text(b, "name") },
                "thinking" => ContentBlockStart::Thinking { thinking: text(b, "thinking") },
                _ => ContentBlockStart::Text { text: text(b, "text") },
            };
            AnthropicStreamEvent::ContentBlockStart { index, content_block }
        }
        "content_block_delta" => {
            let d = &v["delta"];
            let delta = match d["type"].as_str().unwrap() {
                "input_json_delta" => ContentDelta::InputJsonDelta { partial_json: text(d, "partial_json") },
                "thinking_delta" => ContentDelta::ThinkingDelta { thinking: text(d, "thinking") },
                _ => ContentDelta::TextDelta { text: text(d, "text") },
            };
            AnthropicStreamEvent::ContentBlockDelta { index, delta }
        }
        "content_block_stop" => AnthropicStreamEvent::ContentBlockStop { index },
        "message_delta" => AnthropicStreamEvent::MessageDelta {
            delta: MessageDeltaData { stop_reason: opt_text(&v["delta"], "stop_reason"), stop_sequence: opt_text(&v["delta"], "stop_sequence") },
            usage: v.get("usage").map(|u| UsageDelta { output_tokens: u["output_tokens"].as_u64().map(|x| x as u32) }),
        },
        "message_stop" => AnthropicStreamEvent::MessageStop,
        "error" => AnthropicStreamEvent::Error {
            error: ErrorData { error_type: text(&v["error"], "type"), message: text(&v["error"], "message") },
        },
        _ => AnthropicStreamEvent::Ping,
    }
}

/// Frames a piece of a typed-event stream and applies its events; true
/// once the stream is complete.
fn feed_anthropic(h: &mut AnthropicStreamHandler, chunk: &str) -> bool {
    for payload in h.process_chunk(chunk) {
        if h.process_event(anthropic_event(&payload)).unwrap() {
            return true;
        }
    }
    false
}

/// Decodes one chunk-accumulation payload, as the provider encodes it.
fn openai_chunk(payload: &str) -> OpenAIStreamChunk {
    let v: Value = serde_json::from_str(payload).unwrap();
    let choices = v["choices"]
        .as_array()
        .unwrap()
        .iter()
        .map(|c| {
            let d = &c["delta"];
            OpenAIChoice {
                index: c["index"].as_u64().unwrap_or(0) as usize,
                delta: OpenAIDelta {
                    role: opt_text(d, "role"),
                    content: opt_text(d, "content"),
                    tool_calls: d.get("tool_calls").and_then(|t| t.as_array()).map(|calls| {
                        calls
                            .iter()
                            .map(|t| ToolCallDelta {
                                index: t["index"].as_u64().unwrap_or(0) as usize,
                                id: opt_text(t, "id"),
                                call_type: opt_text(t, "type"),
                                function: t.get("function").map(|f| FunctionDelta {
                                    name: opt_text(f, "name"),
                                    arguments: opt_text(f, "arguments"),
                                }),
                            })
                            .collect()
                    }),
                    reasoning: opt_text(d, "reasoning"),
                },
                finish_reason: opt_text(c, "finish_reason"),
            }
        })
        .collect();
    OpenAIStreamChunk {
        id: text(&v, "id"),
        object: text(&v, "object"),
        created: v["created"].as_u64().unwrap_or(0),
        model: text(&v, "model"),
        choices,
        usage: v.get("usage").filter(|u| !u.is_null()).map(usage),
    }
}

/// Frames a piece of a chunk-accumulation stream and applies its chunks;
/// true once the done marker came.
fn feed_openai(h: &mut OpenAIStreamHandler, chunk: &str) -> bool {
    let (payloads, done) = h.process_chunk(chunk);
    for p in payloads {
        h.process_event(openai_chunk(&p));
    }
    done
}

#[test]
fn anthropic_stream_test_simple_text_stream() {
    let mut handler = AnthropicStreamHandler::new();
    let chunk1 = r#"event: message_start
data: {"type":"message_start","message":{"id":"msg_123","model":"model-3","role":"assistant","type":"message","usage":{"input_tokens":10,"output_tokens":0}}}

"#;
    assert!(!feed_anthropic(&mut handler, chunk1));
    let chunk2 = r#"event: content_block_start
data: {"type":"content_block_start","index":0,"content_block":{"type":"text","text":""}}

"#;
    assert!(!feed_anthropic(&mut handler, chunk2));
    let chunk3 = r#"event: content_block_delta
data: {"type":"content_block_delta","index":0,"delta":{"type":"text_delta","text":"Hello"}}

"#;
    assert!(!feed_anthropic(&mut handler, chunk3));
    let chunk4 = r#"event: message_stop
data: {"type":"message_stop"}

"#;
    assert!(feed_anthropic(&mut handler, chunk4));
    let message = handler.get_message().unwrap();
    assert_eq!(message.content.len(), 1);
    if let ContentBlock::Text { text } = &message.content[0] {
        assert_eq!(text, "Hello");
    } else {
        panic!("Expected text block");
    }
}

#[test]
fn test_tool_use_stream() {
    let mut handler = AnthropicStreamHandler::new();
    let chunks = [
        r#"event: message_start
data: {"type":"message_start","message":{"id":"msg_123","model":"model-3","role":"assistant","type":"message","usage":{"input_tokens":10,"output_tokens":0}}}

"#,
        r#"event: content_block_start
data: {"type":"content_block_start","index":0,"content_block":{"type":"tool_use","id":"tool_1","name":"test_tool"}}

"#,
        r#"event: content_block_delta
data: {"type":"content_block_delta","index":0,"delta":{"type":"input_json_delta","partial_json":"{\"arg\":"}}

"#,
        r#"event: content_block_delta
data: {"type":"content_block_delta","index":0,"delta":{"type":"input_json_delta","partial_json":"\"value\"}"}}

"#,
        r#"event: content_block_stop
data: {"type":"content_block_stop","index":0}

"#,
        r#"event: message_stop
data: {"type":"message_stop"}

"#,
    ];
    for c in chunks {
        feed_anthropic(&mut handler, c);
    }
    let message = handler.get_message().unwrap();
    if let ContentBlock::ToolUse { name, input, .. } = &message.content[0] {
        assert_eq!(name, "test_tool");
        assert_eq!(input["arg"], "value");
    } else {
        panic!("Expected tool_use block");
    }
}

#[test]
fn openai_stream_test_simple_text_stream() {
    let mut handler = OpenAIStreamHandler::new();
    let chunk1 = r#"data: {"id":"chatcmpl-123","object":"chat.completion.chunk","created":1234567890,"model":"gpt-4","choices":[{"index":0,"delta":{"role":"assistant","content":"Hello"},"finish_reason":null}]}

"#;
    assert!(!feed_openai(&mut handler, chunk1));
    let chunk2 = r#"data: {"id":"chatcmpl-123","object":"chat.completion.chunk","created":1234567890,"model":"gpt-4","choices":[{"index":0,"delta":{"content":" world"},"finish_reason":null}]}

"#;
    assert!(!feed_openai(&mut handler, chunk2));
    let chunk3 = r#"data: {"id":"chatcmpl-123","object":"chat.completion.chunk","created":1234567890,"model":"gpt-4","choices":[{"index":0,"delta":{},"finish_reason":"stop"}]}

"#;
    assert!(!feed_openai(&mut handler, chunk3));
    let chunk4 = "data: [DONE]\n\n";
    assert!(feed_openai(&mut handler, chunk4));
    let message = handler.get_message().unwrap();
    assert_eq!(message.content.len(), 1);
    if let ContentBlock::Text { text } = &message.content[0] {
        assert_eq!(text, "Hello world");
    } else {
        panic!("Expected text block");
    }
}

#[test]
fn test_tool_call_stream() {
    let mut handler = OpenAIStreamHandler::new();
    let chunk1 = r#"data: {"id":"chatcmpl-123","object":"chat.completion.chunk","created":1234567890,"model":"gpt-4","choices":[{"index":0,"delta":{"role":"assistant","tool_calls":[{"index":0,"id":"call_abc","type":"function","function":{"name":"get_weather","arguments":""}}]},"finish_reason":null}]}

"#;
    feed_openai(&mut handler, chunk1);
    let chunk2 = r#"data: {"id":"chatcmpl-123","object":"chat.completion.chunk","created":1234567890,"model":"gpt-4","choices":[{"index":0,"delta":{"tool_calls":[{"index":0,"function":{"arguments":"{\"location\":"}}]},"finish_reason":null}]}

"#;
    feed_openai(&mut handler, chunk2);
    let chunk3 = r#"data: {"id":"chatcmpl-123","object":"chat.completion.chunk","created":1234567890,"model":"gpt-4","choices":[{"index":0,"delta":{"tool_calls":[{"index":0,"function":{"arguments":"\"Boston\"}"}}]},"finish_reason":null}]}

"#;
    feed_openai(&mut handler, chunk3);
    let chunk4 = "data: [DONE]\n\n";
    feed_openai(&mut handler, chunk4);
    let message = handler.get_message().unwrap();
    assert_eq!(message.content.len(), 1);
    if let ContentBlock::ToolUse { name, input, .. } = &message.content[0] {
        assert_eq!(name, "get_weather");
        assert_eq!(input["location"], "Boston");
    } else {
        panic!("Expected tool_use block");
    }
}

#[test]
fn test_reasoning_stream() {
    let mut handler = OpenAIStreamHandler::new();
    let chunk1 = r#"data: {"id":"chatcmpl-123","object":"chat.completion.chunk","created":1234567890,"model":"o1-preview","choices":[{"index":0,"delta":{"reasoning":"Let me think..."},"finish_reason":null}]}

"#;
    feed_openai(&mut handler, chunk1);
    let chunk2 = "data: [DONE]\n\n";
    feed_openai(&mut handler, chunk2);
    let message = handler.get_message().unwrap();
    assert_eq!(message.content.len(), 1);
    if let ContentBlock::Thinking { thinking, .. } = &message.content[0] {
        assert_eq!(thinking, "Let me think...");
    } else {
        panic!("Expected thinking block");
    }
}

#[test]
fn test_cache() {
    let mut cache = UrlCache::new();
    cache.set("https://example.com".to_string(), "test content".to_string(), 1_000);
    assert_eq!(cache.get("https://example.com", 1_000), Some("test content".to_string()));
    assert_eq!(cache.get("https://other.com", 1_000), None);
}

#[test]
fn test_create_user_message() {
    let msg = Message::user("Hello".into());
    assert_eq!(msg.role, Role::User);
    assert_eq!(msg.text_content(), "Hello");
    assert!(msg.uuid.is_some());
}

#[test]
fn test_create_assistant_message() {
    let msg = Message::assistant("Hi there".into());
    assert_eq!(msg.role, Role::Assistant);
    assert_eq!(msg.text_content(), "Hi there");
}

#[test]
fn test_tool_use_detection() {
    let msg = Message {
        role: Role::Assistant,
        content: vec![
            ContentBlock::Text { text: "Let me help".into() },
            ContentBlock::ToolUse {
                id: "tool_1".into(),
                name: "bash".into(),
                input: serde_json::from_str("{\"command\": \"ls\"}").unwrap(),
            },
        ],
        uuid: None,
    };
    assert!(msg.has_tool_use());
    assert_eq!(msg.tool_uses().len(), 1);
}

#[test]
fn mod_test_validation_result() {
    let ok = ValidationResult::ok();
    assert!(ok.is_valid);
    assert!(ok.message.is_none());
    let error = ValidationResult::error("something went wrong".into());
    assert!(!error.is_valid);
    assert_eq!(error.message, Some("something went wrong".to_string()));
}

#[test]
fn tool_trait_test_validation_result() {
    let valid = ValidationResult::valid();
    assert!(valid.is_valid);
    assert!(valid.message.is_none());
    let invalid = ValidationResult::invalid("Bad input".into());
    assert!(!invalid.is_valid);
    assert_eq!(invalid.message.as_deref(), Some("Bad input"));
}
