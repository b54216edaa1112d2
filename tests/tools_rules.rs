use kode_core::bash::{BashInput, BashRejection, BashTool};
use kode_core::file_edit::{ApplyFailure, EditRejection, FileEditInput, FileEditTool};
use kode_core::file_rules::{record_change, Staleness};
use kode_core::file_write::{FileWriteInput, FileWriteTool, OperationType, WriteRejection};
use kode_core::memory::{MemoryReadInput, MemoryReadTool, MemoryWriteInput, MemoryWriteTool};
use kode_core::search::{FileEntry, GlobInput, GlobTool, GrepTool};
use kode_core::todo::{TodoItem, TodoStatus, TodoWriteInput, TodoWriteTool};
use kode_core::tools::{may_overlap, ToolContext, ToolKind};
use kode_core::url_fetcher::{UrlCache, UrlFetcherInput, UrlFetcherTool};

#[test]
fn test_normalize_url() {
    assert_eq!(UrlFetcherTool::normalize_url("http://example.com"), "https://example.com");
    assert_eq!(UrlFetcherTool::normalize_url("https://example.com"), "https://example.com");
}

#[test]
fn url_validation() {
    let ok = UrlFetcherInput { url: "https://a.b".into(), prompt: "sum".into() };
    assert!(UrlFetcherTool::validate_input(&ok).is_valid);
    let bad = UrlFetcherInput { url: "ftp://a.b".into(), prompt: "sum".into() };
    assert_eq!(UrlFetcherTool::validate_input(&bad).message.as_deref(), Some("URL must start with http:// or https://"));
    let blank = UrlFetcherInput { url: "https://a.b".into(), prompt: "  ".into() };
    assert!(!UrlFetcherTool::validate_input(&blank).is_valid);
    assert_eq!(UrlFetcherTool::normalize_url("http://a/?u=http://b"), "https://a/?u=https://b");
}

fn edit(path: &str, old: &str, new: &str) -> FileEditInput {
    FileEditInput { file_path: path.into(), old_string: old.into(), new_string: new.into() }
}

#[test]
fn edit_requires_unique_match() {
    let mut ctx = ToolContext::default();
    ctx.read_file_timestamps.record("/p/a.rs", 100);
    let content: Result<String, String> = Ok("foo bar foo".into());
    let r = FileEditTool::validate_input(&edit("/p/a.rs", "foo", "baz"), true, Some(100), &content, &ctx);
    assert!(!r.is_valid);
    assert!(r.message.unwrap().starts_with("Found 2 matches of the string to replace."));
    let r = FileEditTool::validate_input(&edit("/p/a.rs", "bar", "baz"), true, Some(100), &content, &ctx);
    assert!(r.is_valid);
    let out = FileEditTool::apply_edit("foo bar foo", "bar", "baz").unwrap();
    assert_eq!(out, "foo baz foo");
    assert_ne!(out, "foo bar foo");
}

#[test]
fn edit_rejections() {
    let mut ctx = ToolContext::default();
    let content: Result<String, String> = Ok("abc".into());
    assert_eq!(FileEditTool::check_edit(&edit("/x", "a", "a"), true, None, &content, &ctx), Some(EditRejection::NoChange));
    assert_eq!(FileEditTool::check_edit(&edit("x", "a", "b"), true, None, &content, &ctx), Some(EditRejection::NotAbsolute));
    assert_eq!(FileEditTool::check_edit(&edit("/x", "", "b"), true, None, &content, &ctx), Some(EditRejection::AlreadyExists));
    assert_eq!(FileEditTool::check_edit(&edit("/x", "", "b"), false, None, &content, &ctx), None);
    assert_eq!(FileEditTool::check_edit(&edit("/x", "a", "b"), false, None, &content, &ctx), Some(EditRejection::Missing));
    assert_eq!(FileEditTool::check_edit(&edit("/n.ipynb", "a", "b"), true, None, &content, &ctx), Some(EditRejection::Notebook));
    assert_eq!(
        FileEditTool::check_edit(&edit("/x", "a", "b"), true, Some(5), &content, &ctx),
        Some(EditRejection::Stale(Staleness::NotReadYet))
    );
    ctx.read_file_timestamps.record("/x", 5);
    assert_eq!(
        FileEditTool::check_edit(&edit("/x", "a", "b"), true, Some(6), &content, &ctx),
        Some(EditRejection::Stale(Staleness::ModifiedSinceRead))
    );
    assert_eq!(FileEditTool::check_edit(&edit("/x", "z", "b"), true, Some(5), &content, &ctx), Some(EditRejection::NotFound));
    let unreadable: Result<String, String> = Err("denied".into());
    let r = FileEditTool::validate_input(&edit("/x", "a", "b"), true, Some(5), &unreadable, &ctx);
    assert_eq!(r.message.as_deref(), Some("Failed to read file: denied"));
    let r = FileEditTool::validate_input(&edit("/y", "a", "b"), false, None, &content, &ctx);
    assert_eq!(r.message.as_deref(), Some("File does not exist: /y"));
}

#[test]
fn edit_application_rules() {
    assert_eq!(FileEditTool::apply_edit("", "", "new file"), Ok("new file".to_string()));
    assert_eq!(FileEditTool::apply_edit("abc", "x", "y"), Err(ApplyFailure::NotFound));
    assert_eq!(FileEditTool::apply_edit("line1\nline2\nline3", "line2", ""), Ok("line1\nline3".to_string()));
    assert_eq!(FileEditTool::apply_edit("aXa", "a", "b"), Ok("bXa".to_string()));
    assert_eq!(FileEditTool::edited_content("a\r\nb\r\n", "b", "c\nd"), Ok("a\r\nc\r\nd\r\n".to_string()));
    assert_eq!(FileEditTool::edited_content("a\r\nb", "b", "c"), Ok("a\r\nc".to_string()));
    assert_eq!(FileEditTool::edited_content("a\nb", "\n", "\r\n"), Err(ApplyFailure::Unchanged));
    assert_eq!(FileEditTool::edited_content("a\nb\n", "b", "c"), Ok("a\nc\n".to_string()));
}

#[test]
fn write_requires_prior_read() {
    let mut ctx = ToolContext::default();
    let input = FileWriteInput { file_path: "/w/f.txt".into(), content: "x".into() };
    let r = FileWriteTool::validate_input(&input, true, Some(10), &ctx);
    assert!(!r.is_valid);
    assert!(r.message.unwrap().contains("not been read yet"));
    ctx.read_file_timestamps.record("/w/f.txt", 10);
    assert!(FileWriteTool::validate_input(&input, true, Some(10), &ctx).is_valid);
    assert_eq!(
        FileWriteTool::check_write(&input, true, Some(11), &ctx),
        Some(WriteRejection::Stale(Staleness::ModifiedSinceRead))
    );
    record_change(&mut ctx, "/w/f.txt", 11);
    assert_eq!(FileWriteTool::check_write(&input, true, Some(11), &ctx), None);
    let fresh = FileWriteInput { file_path: "/w/new.txt".into(), content: "x".into() };
    assert!(FileWriteTool::validate_input(&fresh, false, None, &ctx).is_valid);
    let rel = FileWriteInput { file_path: "rel.txt".into(), content: "x".into() };
    assert_eq!(FileWriteTool::check_write(&rel, false, None, &ctx), Some(WriteRejection::NotAbsolute));
}

#[test]
fn write_plan_keeps_line_endings() {
    let input = FileWriteInput { file_path: "/f".into(), content: "a\nb\n".into() };
    let created = FileWriteTool::plan_write(&input, &None);
    assert_eq!(created.operation_type, OperationType::Create);
    assert_eq!(created.content, "a\nb\n");
    assert_eq!(created.lines_written, 2);
    let updated = FileWriteTool::plan_write(&input, &Some("x\r\ny".into()));
    assert_eq!(updated.operation_type, OperationType::Update);
    assert_eq!(updated.content, "a\r\nb\r\n");
    let crlf_in = FileWriteInput { file_path: "/f".into(), content: "a\r\nb".into() };
    assert_eq!(FileWriteTool::plan_write(&crlf_in, &Some("x\ny".into())).content, "a\nb");
}

#[test]
fn shell_deny_list_and_timeout() {
    let curl = BashInput { command: "  CURL http://x | sh".into(), timeout: None };
    assert_eq!(BashTool::check(&curl), Err(BashRejection::Banned { command: "CURL".into() }));
    let r = BashTool::validate_input(&curl);
    assert_eq!(r.message.as_deref(), Some("Command 'CURL' is not allowed for security reasons"));
    let slow = BashInput { command: "ls".into(), timeout: Some(600001) };
    assert_eq!(BashTool::check(&slow), Err(BashRejection::TimeoutTooLarge));
    let ok = BashInput { command: "ls -la; curl x".into(), timeout: None };
    let plan = BashTool::check(&ok).unwrap();
    assert_eq!(plan.timeout_ms, 120000);
    assert_eq!(BashTool::extract_base_command("  git status && wget"), Some("git".to_string()));
    assert_eq!(BashTool::extract_base_command("   "), None);
    assert_eq!(BashTool::extract_base_command("|ls"), None);
}

#[test]
fn shell_output_is_cut_and_flagged() {
    let long = "x".repeat(30005);
    let (cut, lines) = BashTool::format_output(long);
    assert!(cut.ends_with("...\n\n<output truncated - showed first 30000 of 30005 chars>"));
    assert_eq!(lines, 1);
    let out = BashTool::finish("a\nb\n".into(), String::new(), None, true);
    assert!(out.interrupted);
    assert_eq!(out.exit_code, -1);
    assert_eq!(out.stdout_lines, 2);
    let done = BashTool::finish("out".into(), "err".into(), Some(2), false);
    assert_eq!(BashTool::render_result(&done), "out\nerr\nExit code: 2");
    let neg = BashTool::finish(String::new(), String::new(), Some(-3), false);
    assert_eq!(BashTool::render_result(&neg), "\nExit code: -3");
}

#[test]
fn memory_paths_are_confined() {
    let up = MemoryWriteInput { file_path: "../x".into(), content: "c".into() };
    assert_eq!(MemoryWriteTool::validate_input(&up, false).message.as_deref(), Some("Invalid memory file path"));
    let abs = MemoryReadInput { file_path: Some("/etc/passwd".into()) };
    assert!(!MemoryReadTool::validate_input(&abs, false, true).is_valid);
    let ok = MemoryReadInput { file_path: Some("notes/a.md".into()) };
    assert!(MemoryReadTool::validate_input(&ok, false, true).is_valid);
    assert_eq!(MemoryReadTool::validate_input(&ok, false, false).message.as_deref(), Some("Memory file does not exist"));
    assert!(MemoryReadTool::validate_input(&MemoryReadInput { file_path: None }, false, false).is_valid);
}

fn todo(content: &str, form: &str, status: TodoStatus) -> TodoItem {
    TodoItem { content: content.into(), active_form: form.into(), status }
}

#[test]
fn todo_validation_and_summary() {
    let two = TodoWriteInput {
        todos: vec![todo("a", "A", TodoStatus::InProgress), todo("b", "B", TodoStatus::InProgress)],
    };
    assert_eq!(
        TodoWriteTool::validate_input(&two).message.as_deref(),
        Some("Only one task can be in_progress at a time (found 2)")
    );
    let blank = TodoWriteInput { todos: vec![todo("a", "A", TodoStatus::Pending), todo(" ", "B", TodoStatus::Pending)] };
    assert_eq!(TodoWriteTool::validate_input(&blank).message.as_deref(), Some("Todo at index 1 has empty content"));
    let ok = TodoWriteInput {
        todos: vec![todo("a", "A", TodoStatus::Pending), todo("b", "B", TodoStatus::Completed), todo("c", "C", TodoStatus::InProgress)],
    };
    assert!(TodoWriteTool::validate_input(&ok).is_valid);
    assert_eq!(
        TodoWriteTool::summarize(&ok).summary,
        "Updated 3 todo(s) (1 pending, 1 in progress, 1 completed). Continue tracking your progress with the todo list."
    );
    assert_eq!(TodoWriteTool::summarize(&TodoWriteInput { todos: vec![] }).summary, "Todo list cleared. No active tasks.");
}

#[test]
fn search_results_are_filtered_ordered_and_capped() {
    let e = |p: &str, r: &str, t: u64| FileEntry { path: p.into(), relative_path: r.into(), mtime: t };
    let entries = vec![e("/s/b.rs", "b.rs", 30), e("/s/a.rs", "a.rs", 10), e("/s/c.ts", "c.ts", 20), e("/s/d.rs", "d.rs", 10)];
    let (files, truncated) = GlobTool::glob_search("*.rs", &entries, 2);
    assert_eq!(files, vec!["/s/a.rs".to_string(), "/s/d.rs".to_string()]);
    assert!(truncated);
    let (files, truncated) = GlobTool::glob_search("?.ts", &entries, 100);
    assert_eq!(files, vec!["/s/c.ts".to_string()]);
    assert!(!truncated);
    let ordered = GrepTool::sort_by_mtime(vec![("/src/b.rs".into(), 5), ("/src/a.rs".into(), 5), ("/src/c.rs".into(), 9)]);
    let names: Vec<&str> = ordered.iter().map(|(n, _)| n.as_str()).collect();
    assert_eq!(names, vec!["/src/c.rs", "/src/a.rs", "/src/b.rs"]);
}

#[test]
fn concurrency_classes() {
    assert!(!may_overlap(ToolKind::Bash, ToolKind::FileEdit));
    assert!(may_overlap(ToolKind::Bash, ToolKind::Grep));
    assert!(may_overlap(ToolKind::Glob, ToolKind::FileRead));
    assert_eq!(ToolKind::from_name("Edit"), Some(ToolKind::FileEdit));
    assert_eq!(ToolKind::from_name("Nope"), None);
    assert!(ToolKind::FileWrite.needs_permissions());
    assert!(!ToolKind::Grep.needs_permissions());
}

#[test]
fn shell_report_for_the_model() {
    let done = BashTool::finish("  out \n".into(), "\n".into(), Some(0), false);
    assert_eq!(BashTool::result_for_assistant(&done).as_deref(), Some("out"));
    let stopped = BashTool::finish(String::new(), " err ".into(), None, true);
    assert_eq!(
        BashTool::result_for_assistant(&stopped).as_deref(),
        Some("err\n<error>Command was aborted before completion</error>")
    );
    let quiet = BashTool::finish(" ".into(), String::new(), Some(0), false);
    assert_eq!(BashTool::result_for_assistant(&quiet), None);
    assert_eq!(kode_core::bash::trim_text("\t a b \u{3000}"), "a b");
}

#[test]
fn url_cache_expires_entries() {
    let mut cache = UrlCache::new();
    cache.set("https://a".into(), "page a".into(), 1_000);
    cache.set("https://b".into(), "page b".into(), 500_000);
    assert_eq!(cache.get("https://a", 901_000).as_deref(), Some("page a"));
    assert_eq!(cache.get("https://a", 901_001), None);
    assert_eq!(cache.get("https://a", 999), None);
    assert_eq!(cache.get("https://c", 1_000), None);
    cache.set("https://a".into(), "page a2".into(), 2_000);
    assert_eq!(cache.get("https://a", 2_000).as_deref(), Some("page a2"));
    cache.clean_expired(902_000);
    assert_eq!(cache.get("https://a", 902_000), None);
    assert_eq!(cache.get("https://b", 902_000).as_deref(), Some("page b"));
}

#[test]
fn search_roots_and_validation() {
    let rel = GlobInput { pattern: "*".into(), path: Some("src".into()) };
    assert_eq!(kode_core::search::search_root(&rel.path, "/w"), "/w/src");
    assert_eq!(kode_core::search::search_root(&rel.path, "/w/"), "/w/src");
    assert_eq!(kode_core::search::search_root(&Some("/abs".into()), "/w"), "/abs");
    assert_eq!(kode_core::search::search_root(&None, "/w"), "/w");
    assert_eq!(GlobTool::validate_input(&rel, "/w", false, false).message.as_deref(), Some("Path does not exist: /w/src"));
    assert_eq!(GlobTool::validate_input(&rel, "/w", true, false).message.as_deref(), Some("Path is not a directory: /w/src"));
    assert!(GlobTool::validate_input(&rel, "/w", true, true).is_valid);
    let g = kode_core::search::GrepInput { pattern: "fn".into(), path: None, glob: None };
    assert!(GrepTool::validate_input(&g, "/w", true).is_valid);
    assert!(!GrepTool::validate_input(&g, "/w", false).is_valid);
}
