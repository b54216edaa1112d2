use kode_core::adapters::{
    provider_label, AnthropicContentBlock, ModelAdapterFactory, OpenAIFunction, OpenAIMessage, OpenAIToolCall, ToolSchema,
};
use kode_core::anthropic_stream::AnthropicStreamHandler;
use kode_core::bash::BashTool;
use kode_core::completion::{
    anthropic_request, anthropic_response, openai_request, openai_response, stream_chunks, AnthropicResponse,
    AnthropicUsage, CompletionChunk, CompletionOptions, OpenAIResponse, OpenAIResponseChoice, OpenAIUsage,
};
use kode_core::config::{ModelProfile, ProviderType};
use kode_core::error::KodeError;
use kode_core::file_edit::{FileEditInput, FileEditTool};
use kode_core::file_write::{FileWriteInput, FileWriteTool};
use kode_core::memory::MemoryReadTool;
use kode_core::messages::{ContentBlock, Message, Role};
use kode_core::search::GrepTool;
use kode_core::stream_events::{AnthropicStreamEvent, ErrorData, Usage};
use kode_core::tools::ToolContext;

fn schema() -> ToolSchema {
    ToolSchema { name: "Bash".into(), description: "run".into(), input_schema: serde_json::from_str("{}").unwrap() }
}

#[test]
fn chunk_dialect_request() {
    let msgs = vec![Message::user("hi".into())];
    let r = openai_request(&"gpt-4".to_string(), &msgs, &vec![], Some("be brief".into()), &CompletionOptions::default());
    assert_eq!(r.model, "gpt-4");
    assert_eq!(r.messages.len(), 2);
    assert_eq!(r.messages[0].role, "system");
    assert_eq!(r.messages[0].content.as_deref(), Some("be brief"));
    assert_eq!(r.messages[1].content.as_deref(), Some("hi"));
    assert!(r.tools.is_none());
    assert_eq!(r.stream, Some(false));
    assert_eq!(r.max_tokens, Some(8192));
    let with_tools = openai_request(&"m".to_string(), &msgs, &vec![schema()], None, &CompletionOptions::default());
    assert_eq!(with_tools.messages.len(), 1);
    assert_eq!(with_tools.tools.unwrap()[0].function.name, "Bash");
}

#[test]
fn typed_dialect_request() {
    let msgs = vec![Message::system("s".into()), Message::user("hi".into())];
    let mut opts = CompletionOptions::default();
    opts.max_tokens = None;
    opts.stop_sequences = Some(vec!["END".into()]);
    let r = anthropic_request(&"model-a".to_string(), &msgs, &vec![schema()], Some("sys".into()), &opts);
    assert_eq!(r.max_tokens, 8192);
    assert_eq!(r.system.as_deref(), Some("sys"));
    assert_eq!(r.messages[0].role, "user");
    assert_eq!(r.stop_sequences, Some(vec!["END".to_string()]));
    assert_eq!(r.tools.unwrap().len(), 1);
    assert_eq!(r.stream, Some(false));
}

fn reply(choices: Vec<OpenAIResponseChoice>) -> OpenAIResponse {
    OpenAIResponse {
        id: "c".into(),
        object: "chat.completion".into(),
        created: 1,
        model: "gpt-4".into(),
        choices,
        usage: Some(OpenAIUsage { prompt_tokens: 5, completion_tokens: 7, total_tokens: 12 }),
    }
}

#[test]
fn chunk_dialect_response() {
    let body = "oops".to_string();
    match openai_response(404, &body, None) {
        Err(KodeError::ApiError { provider, message }) => {
            assert_eq!(provider, "openai");
            assert_eq!(message, "HTTP 404: oops");
        }
        _ => panic!("expected an API error"),
    }
    match openai_response(200, &body, Some(reply(vec![]))) {
        Err(KodeError::ApiError { message, .. }) => assert_eq!(message, "No choices in response"),
        _ => panic!("expected an API error"),
    }
    assert!(matches!(openai_response(200, &body, None), Err(KodeError::MalformedPayload { .. })));
    let call = |args: &str| OpenAIToolCall {
        id: "t".into(),
        call_type: "function".into(),
        function: OpenAIFunction { name: "f".into(), arguments: args.into() },
    };
    let msg = OpenAIMessage {
        role: "assistant".into(),
        content: Some("done".into()),
        tool_calls: Some(vec![call("{\"a\":1}"), call("not json")]),
        tool_call_id: None,
        name: None,
    };
    let r = openai_response(200, &body, Some(reply(vec![OpenAIResponseChoice { index: 0, message: msg, finish_reason: "stop".into() }])))
        .unwrap();
    assert_eq!(r.content.len(), 3);
    assert!(matches!(&r.content[0], ContentBlock::Text { text } if text == "done"));
    assert!(matches!(&r.content[1], ContentBlock::ToolUse { input, .. } if input["a"] == 1));
    assert!(matches!(&r.content[2], ContentBlock::ToolUse { input, .. } if input.is_null()));
    assert_eq!(r.stop_reason.as_deref(), Some("stop"));
    assert_eq!(r.usage.unwrap().output_tokens, 7);
    assert_eq!(r.model.as_deref(), Some("gpt-4"));
}

#[test]
fn typed_dialect_response() {
    let body = "{}".to_string();
    assert!(matches!(anthropic_response(500, &body, None), Err(KodeError::ApiError { .. })));
    let resp = AnthropicResponse {
        id: "m".into(),
        response_type: "message".into(),
        role: "assistant".into(),
        content: vec![
            AnthropicContentBlock::Text { text: "hi".into() },
            AnthropicContentBlock::ToolResult { tool_use_id: "t".into(), content: "x".into(), is_error: false },
        ],
        model: "model-a".into(),
        stop_reason: None,
        usage: Some(AnthropicUsage { input_tokens: 1, output_tokens: 2, cache_creation_input_tokens: Some(3), cache_read_input_tokens: None }),
    };
    let r = anthropic_response(201, &body, Some(resp)).unwrap();
    assert!(matches!(&r.content[1], ContentBlock::ToolResult { is_error: Some(false), .. }));
    assert_eq!(r.stop_reason, None);
    assert_eq!(r.usage.unwrap().cache_creation_input_tokens, Some(3));
}

#[test]
fn stream_results() {
    let u = Usage { input_tokens: 1, output_tokens: 2, cache_creation_input_tokens: None, cache_read_input_tokens: None };
    let err = stream_chunks(Err(KodeError::IncompleteStream { message: "x".into() }), None, u);
    assert_eq!(err.len(), 1);
    assert!(err[0].is_err());
    let m = Message {
        role: Role::Assistant,
        content: vec![
            ContentBlock::Text { text: "a".into() },
            ContentBlock::ToolResult { tool_use_id: "t".into(), content: "c".into(), is_error: None },
            ContentBlock::Thinking { thinking: "b".into() },
        ],
        uuid: None,
    };
    let chunks = stream_chunks(Ok(m), None, u);
    assert_eq!(chunks.len(), 3);
    assert!(matches!(&chunks[0], Ok(CompletionChunk::TextDelta { text }) if text == "a"));
    assert!(matches!(&chunks[1], Ok(CompletionChunk::ThinkingDelta { thinking }) if thinking == "b"));
    assert!(matches!(&chunks[2], Ok(CompletionChunk::Done { stop_reason, .. }) if stop_reason == "end_turn"));
}

#[test]
fn provider_names_and_error_event() {
    assert_eq!(provider_label(ProviderType::BaiduQianfan), "BaiduQianfan");
    let p = ModelProfile::new("n".into(), ProviderType::Mistral, "m".into(), String::new(), 1, 1);
    match ModelAdapterFactory::create(&p) {
        Err(KodeError::UnsupportedProvider { provider }) => assert_eq!(provider, "Mistral"),
        _ => panic!("expected an unsupported provider"),
    }
    let mut h = AnthropicStreamHandler::new();
    let r = h.process_event(AnthropicStreamEvent::Error { error: ErrorData { error_type: "T".into(), message: "M".into() } });
    assert!(matches!(r, Err(KodeError::ApiError { message, .. }) if message == "Stream error: T - M"));
}

#[test]
fn shell_ceiling_counts_bytes() {
    let wide = "é".repeat(20000);
    let (cut, _) = BashTool::format_output(wide);
    assert!(cut.starts_with(&"é".repeat(15000)));
    assert!(!cut.starts_with(&"é".repeat(15001)));
    assert!(cut.ends_with("<output truncated - showed first 30000 of 40000 chars>"));
    let odd = format!("a{}", "é".repeat(15000));
    let (cut, _) = BashTool::format_output(odd);
    assert!(cut.starts_with(&format!("a{}...", "é".repeat(14999))));
    let (small, _) = BashTool::format_output("é".repeat(15000));
    assert_eq!(small, "é".repeat(15000));
}

#[test]
fn edit_and_write_refusal_texts() {
    let mut ctx = ToolContext::default();
    let content: Result<String, String> = Ok("x".into());
    let e = |old: &str, new: &str| FileEditInput { file_path: "/f".into(), old_string: old.into(), new_string: new.into() };
    let msg = |r: kode_core::tools::ValidationResult| r.message.unwrap();
    assert!(msg(FileEditTool::validate_input(&e("a", "a"), true, None, &content, &ctx)).starts_with("No changes to make"));
    assert_eq!(msg(FileEditTool::validate_input(&e("", "b"), true, None, &content, &ctx)), "Cannot create new file - file already exists.");
    assert!(msg(FileEditTool::validate_input(&e("x", "b"), true, Some(1), &content, &ctx)).contains("has not been read yet"));
    ctx.read_file_timestamps.record("/f", 1);
    assert!(msg(FileEditTool::validate_input(&e("x", "b"), true, Some(2), &content, &ctx)).contains("modified since read"));
    assert_eq!(msg(FileEditTool::validate_input(&e("q", "b"), true, Some(1), &content, &ctx)), "String to replace not found in file.");
    let rel = FileEditInput { file_path: "f".into(), old_string: "a".into(), new_string: "b".into() };
    assert_eq!(msg(FileEditTool::validate_input(&rel, true, None, &content, &ctx)), "file_path must be an absolute path, not relative");
    let w = FileWriteInput { file_path: "/g".into(), content: "c".into() };
    assert!(msg(FileWriteTool::validate_input(&w, true, Some(1), &ctx)).contains("has not been read yet"));
}

#[test]
fn grep_results_are_capped() {
    let files: Vec<(String, u64)> = (0..150).map(|i| (format!("/src/f{i:03}"), i as u64)).collect();
    let out = GrepTool::collect_results(files, 9);
    assert_eq!(out.num_files, 100);
    assert_eq!(out.filenames.len(), 100);
    assert!(out.truncated);
    assert_eq!(out.filenames[0], "/src/f149");
    let few = GrepTool::collect_results(vec![("/b".into(), 1), ("/a".into(), 1)], 0);
    assert_eq!(few.filenames, vec!["/a".to_string(), "/b".to_string()]);
    assert!(!few.truncated);
}

#[test]
fn memory_listing_text() {
    let empty = MemoryReadTool::listing("/m/index.md", "", &vec![]);
    assert_eq!(
        empty,
        "Here are the contents of the agent memory file, `/m/index.md`:\n```\n\n```\n\nFiles in the agent memory directory:\nNo memory files found."
    );
    let two = MemoryReadTool::listing("/m/index.md", "idx", &vec!["/m/a.md".into(), "/m/b.md".into()]);
    assert!(two.ends_with("directory:\n- /m/a.md\n- /m/b.md"));
}
