use kode_core::adapters::{
    convert_messages_anthropic, convert_messages_openai, AnthropicContentBlock, BedrockAdapter, Dialect,
    ModelAdapterFactory, VertexAdapter,
};
use kode_core::config::{ModelProfile, ProviderType};
use kode_core::error::KodeError;
use kode_core::file_edit::FileEditTool;
use kode_core::file_read::{extension, FileReadInput, FileReadTool};
use kode_core::file_write::{FileWriteOutput, FileWriteTool, OperationType};
use kode_core::lines::{number_lines, split_lines};
use kode_core::messages::{ContentBlock, Message, Role};
use kode_core::search::{GlobOutput, GlobTool, GrepOutput, GrepTool};

fn profile(p: ProviderType) -> ModelProfile {
    ModelProfile::new("n".into(), p, "m-1".into(), "k".into(), 4096, 1000)
}

#[test]
fn factory_selects_dialect_or_refuses() {
    let a = ModelAdapterFactory::create(&profile(ProviderType::Anthropic)).unwrap();
    assert_eq!(a.dialect, Dialect::Anthropic);
    assert_eq!(a.provider_id(), "anthropic");
    assert_eq!(a.max_context_tokens(), 200000);
    assert_eq!(a.max_output_tokens(), 4096);
    assert_eq!(a.model_id(), "m-1");
    assert_eq!(a.count_tokens("abcdefghi"), 2);
    let o = ModelAdapterFactory::create(&profile(ProviderType::Ollama)).unwrap();
    assert_eq!(o.dialect, Dialect::OpenAICompatible);
    assert_eq!(o.max_context_tokens(), 128000);
    assert!(matches!(
        ModelAdapterFactory::create(&profile(ProviderType::Gemini)),
        Err(KodeError::UnsupportedProvider { .. })
    ));
    let b = BedrockAdapter::new(profile(ProviderType::Anthropic)).unwrap();
    assert!(matches!(b.complete(), Err(KodeError::NotImplemented { .. })));
    let v = VertexAdapter::new(profile(ProviderType::Anthropic)).unwrap();
    assert!(matches!(v.complete(), Err(KodeError::NotImplemented { .. })));
}

fn sample_messages() -> Vec<Message> {
    vec![
        Message::system("be brief".into()),
        Message {
            role: Role::Assistant,
            content: vec![
                ContentBlock::Text { text: "one".into() },
                ContentBlock::Thinking { thinking: "hm".into() },
                ContentBlock::ToolUse { id: "t1".into(), name: "Bash".into(), input: serde_json::from_str("{\"a\":1}").unwrap() },
            ],
            uuid: None,
        },
        Message {
            role: Role::User,
            content: vec![
                ContentBlock::ToolResult { tool_use_id: "t1".into(), content: "ok".into(), is_error: None },
                ContentBlock::Text { text: "two".into() },
            ],
            uuid: None,
        },
    ]
}

#[test]
fn typed_dialect_translation() {
    let w = convert_messages_anthropic(&sample_messages());
    assert_eq!(w.len(), 3);
    assert_eq!(w[0].role, "user");
    assert_eq!(w[1].role, "assistant");
    assert_eq!(w[1].content[1], AnthropicContentBlock::Text { text: "<thinking>hm</thinking>".into() });
    assert_eq!(
        w[2].content[0],
        AnthropicContentBlock::ToolResult { tool_use_id: "t1".into(), content: "ok".into(), is_error: false }
    );
}

#[test]
fn chunk_dialect_translation() {
    let w = convert_messages_openai(&sample_messages());
    assert_eq!(w[0].role, "system");
    assert_eq!(w[0].content.as_deref(), Some("be brief"));
    assert!(w[0].tool_calls.is_none());
    assert_eq!(w[1].content.as_deref(), Some("one"));
    let calls = w[1].tool_calls.as_ref().unwrap();
    assert_eq!(calls.len(), 1);
    assert_eq!(calls[0].function.arguments, "{\"a\":1}");
    assert_eq!(calls[0].call_type, "function");
    assert_eq!(w[2].content.as_deref(), Some("Tool result for t1: ok\ntwo"));
}

#[test]
fn message_helpers() {
    let u = Message::user("hi".into());
    assert_eq!(u.role, Role::User);
    assert!(u.uuid.is_some());
    assert_ne!(u.uuid, Message::assistant("hi".into()).uuid);
    let m = &sample_messages()[2];
    assert_eq!(m.text_content(), "two");
    assert!(sample_messages()[1].has_tool_use());
    assert!(!m.has_tool_use());
    assert_eq!(sample_messages()[1].tool_uses().len(), 1);
    assert!(Message::system("s".into()).uuid.is_none());
}

#[test]
fn lines_and_numbering() {
    assert_eq!(split_lines("a\r\nb\n\nc\r"), vec!["a".to_string(), "b".into(), "".into(), "c\r".into()]);
    assert!(split_lines("").is_empty());
    assert_eq!(number_lines("x\ny", 9, 6), "     9\tx\n    10\ty");
    assert_eq!(number_lines("x", 1234567, 6), "1234567\tx");
}

#[test]
fn read_windows_and_images() {
    let content = "l1\nl2\nl3\nl4\n";
    let t = FileReadTool::read_text_content("/f", content, 1, Some(2));
    assert_eq!(t.content, "l2\nl3");
    assert_eq!(t.num_lines, 2);
    assert_eq!(t.start_line, 2);
    assert_eq!(t.total_lines, 4);
    let past = FileReadTool::read_text_content("/f", content, 10, None);
    assert_eq!(past.num_lines, 0);
    assert_eq!(past.content, "");
    let long = "y".repeat(2005);
    let cut = FileReadTool::read_text_content("/f", &long, 0, None);
    assert_eq!(cut.content, format!("{}... [truncated]", "y".repeat(2000)));
    assert_eq!(FileReadTool::line_offset(Some(5)), 4);
    assert_eq!(FileReadTool::line_offset(None), 0);
    assert_eq!(FileReadTool::add_line_numbers(&t), "    2\tl2\n    3\tl3");
    assert!(FileReadTool::is_image("/a/b.PNG"));
    assert!(!FileReadTool::is_image("/a/.png"));
    assert!(!FileReadTool::is_image("/a.png/b"));
    assert_eq!(extension("/x/y.tar.gz"), Some("gz".to_string()));
    let img = FileReadTool::read_image_content("/p.jpeg", &vec![104, 105]);
    assert_eq!(img.base64, "aGk=");
    assert_eq!(img.media_type, "image/jpeg");
    let big = FileReadInput { file_path: "/big.txt".into(), offset: None, limit: None };
    let r = FileReadTool::validate_input(&big, true, true, Some(300 * 1024));
    assert_eq!(
        r.message.as_deref(),
        Some("File content (300KB) exceeds maximum allowed size (256KB). Please use offset and limit parameters to read specific portions of the file.")
    );
    assert!(FileReadTool::validate_input(&big, true, true, Some(10)).is_valid);
    assert!(!FileReadTool::validate_input(&big, true, false, None).is_valid);
}

#[test]
fn edit_snippet_and_report() {
    let original = "a\nb\nc\nd\ne\nf\ng\nh\ni\nj\n";
    let (snippet, start) = FileEditTool::get_snippet(original, "f", "F");
    assert_eq!(start, 2);
    assert_eq!(snippet, "b\nc\nd\ne\nF\ng\nh\ni\nj");
    let (created, one) = FileEditTool::get_snippet("", "", "1\n2\n3\n4\n5\n6\n7\n8\n9\n10");
    assert_eq!(one, 1);
    assert_eq!(created, "1\n2\n3\n4\n5\n6\n7\n8");
    let report = FileEditTool::result_for_assistant("/f", "x", 3);
    assert_eq!(
        report,
        "The file /f has been updated. Here's the result of running `cat -n` on a snippet of the edited file:\n     3\tx"
    );
}

#[test]
fn write_reports() {
    let created = FileWriteOutput { operation_type: OperationType::Create, file_path: "/n".into(), content: "x".into(), lines_written: 1 };
    assert_eq!(FileWriteTool::render_result_for_assistant(&created), "File created successfully at: /n");
    let updated = FileWriteOutput { operation_type: OperationType::Update, file_path: "/u".into(), content: "p\nq".into(), lines_written: 2 };
    assert!(FileWriteTool::render_result_for_assistant(&updated).ends_with("\n     1\tp\n     2\tq"));
}

#[test]
fn grep_scenario_two_files_under_src() {
    let found = GrepTool::sort_by_mtime(vec![("/w/src/lib.rs".into(), 100), ("/w/src/main.rs".into(), 200)]);
    let names: Vec<String> = found.into_iter().map(|(n, _)| n).collect();
    assert_eq!(names.len(), 2);
    assert!(names.iter().all(|n| n.contains("/src/")));
    let out = GrepOutput { duration_ms: 1, num_files: 2, filenames: names, truncated: false };
    assert_eq!(GrepTool::render_result(&out), "Found 2 files\n/w/src/main.rs\n/w/src/lib.rs");
}

#[test]
fn search_reports() {
    let none = GrepOutput { duration_ms: 0, num_files: 0, filenames: vec![], truncated: false };
    assert_eq!(GrepTool::render_result(&none), "No files found");
    let many: Vec<String> = (0..101).map(|i| format!("/f{i}")).collect();
    let out = GrepOutput { duration_ms: 0, num_files: 101, filenames: many, truncated: false };
    let text = GrepTool::render_result(&out);
    assert!(text.starts_with("Found 101 files\n/f0\n"));
    assert!(text.contains("/f99\n(Results are truncated."));
    assert!(!text.contains("/f100"));
    let g = GlobOutput { duration_ms: 0, num_files: 1, filenames: vec!["/a".into()], truncated: true };
    assert_eq!(GlobTool::render_result(&g), "/a\n(Results are truncated. Consider using a more specific path or pattern.)");
}

#[test]
fn short_renderings() {
    let out = kode_core::file_edit::FileEditOutput {
        file_path: "/f".into(),
        old_string: "é".into(),
        new_string: "abc".into(),
        original_file: String::new(),
        snippet: String::new(),
        start_line: 1,
    };
    assert_eq!(FileEditTool::render_result(&out), "Edited file /f (replaced 2 chars with 3 chars)");
    let w = FileWriteOutput { operation_type: OperationType::Update, file_path: "/g".into(), content: "a".into(), lines_written: 7 };
    assert_eq!(FileWriteTool::render_result(&w), "Wrote 7 lines to /g");
    let fetch = kode_core::url_fetcher::UrlFetcherInput { url: "https://x".into(), prompt: "p".into() };
    assert_eq!(
        kode_core::url_fetcher::UrlFetcherTool::render_tool_use(&fetch),
        "Fetching content from https://x and analyzing with prompt: \"p\""
    );
    let blank = kode_core::url_fetcher::UrlFetcherOutput { url: "https://x".into(), from_cache: false, ai_analysis: " ".into() };
    assert_eq!(kode_core::url_fetcher::UrlFetcherTool::render_result(&blank), "No content could be analyzed from URL: https://x");
    let schema = kode_core::adapters::ToolSchema {
        name: "Bash".into(),
        description: "run".into(),
        input_schema: serde_json::from_str("{\"type\":\"object\"}").unwrap(),
    };
    let a = kode_core::adapters::convert_tools_anthropic(&vec![schema.clone()]);
    assert_eq!(a[0].name, "Bash");
    assert_eq!(a[0].input_schema, schema.input_schema);
    let o = kode_core::adapters::convert_tools_openai(&vec![schema.clone()]);
    assert_eq!(o[0].tool_type, "function");
    assert_eq!(o[0].function.parameters, schema.input_schema);
}
