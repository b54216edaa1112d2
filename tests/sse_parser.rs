use kode_core::sse::{SseEvent, SseParser};

#[test]
fn test_parse_simple_event() {
    let mut parser = SseParser::new();
    let chunk = "event: message\ndata: {\"text\":\"hello\"}\n\n";
    let events = parser.parse_chunk(chunk);
    assert_eq!(events.len(), 1);
    assert_eq!(events[0].event_type, Some("message".to_string()));
    assert_eq!(events[0].data, r#"{"text":"hello"}"#);
}

#[test]
fn test_parse_multi_line_data() {
    let mut parser = SseParser::new();
    let chunk = "event: test\ndata: line1\ndata: line2\n\n";
    let events = parser.parse_chunk(chunk);
    assert_eq!(events.len(), 1);
    assert_eq!(events[0].data, "line1\nline2");
}

#[test]
fn test_parse_multiple_events() {
    let mut parser = SseParser::new();
    let chunk = "event: msg1\ndata: data1\n\nevent: msg2\ndata: data2\n\n";
    let events = parser.parse_chunk(chunk);
    assert_eq!(events.len(), 2);
    assert_eq!(events[0].event_type, Some("msg1".to_string()));
    assert_eq!(events[1].event_type, Some("msg2".to_string()));
}

#[test]
fn test_parse_with_id() {
    let mut parser = SseParser::new();
    let chunk = "event: message\nid: 123\ndata: test\n\n";
    let events = parser.parse_chunk(chunk);
    assert_eq!(events.len(), 1);
    assert_eq!(events[0].id, Some("123".to_string()));
}

#[test]
fn test_parse_done_marker() {
    let mut parser = SseParser::new();
    let chunk = "data: [DONE]\n\n";
    let events = parser.parse_chunk(chunk);
    assert_eq!(events.len(), 1);
    assert!(events[0].is_done_marker());
}

#[test]
fn test_parse_incomplete_event() {
    let mut parser = SseParser::new();
    let chunk1 = "event: message\ndata: partial";
    let events = parser.parse_chunk(chunk1);
    assert_eq!(events.len(), 0);
    let chunk2 = "\n\n";
    let events = parser.parse_chunk(chunk2);
    assert_eq!(events.len(), 1);
    assert_eq!(events[0].data, "partial");
}

#[test]
fn test_ignore_comments() {
    let mut parser = SseParser::new();
    let chunk = ": this is a comment\nevent: message\ndata: test\n\n";
    let events = parser.parse_chunk(chunk);
    assert_eq!(events.len(), 1);
    assert_eq!(events[0].event_type, Some("message".to_string()));
}

#[test]
fn test_flush() {
    let mut parser = SseParser::new();
    let events = parser.parse_chunk("event: message\ndata: test");
    assert_eq!(events.len(), 0);
    let event = parser.flush();
    assert!(event.is_some());
    assert_eq!(event.unwrap().data, "test");
}

fn parse_in_pieces(stream: &str, cuts: &[usize]) -> Vec<SseEvent> {
    let chars: Vec<char> = stream.chars().collect();
    let mut parser = SseParser::new();
    let mut out = Vec::new();
    let mut start = 0;
    for &cut in cuts.iter().chain(std::iter::once(&chars.len())) {
        let piece: String = chars[start..cut].iter().collect();
        out.extend(parser.parse_chunk(&piece));
        start = cut;
    }
    out
}

#[test]
fn chunk_boundaries_do_not_change_events() {
    let stream = "event: a\r\nid: 7\ndata: one\ndata: two\n\n: note\nretry: 1500\ndata: three\n\n";
    let whole = parse_in_pieces(stream, &[]);
    assert_eq!(whole.len(), 2);
    assert_eq!(whole[0].event_type, Some("a".to_string()));
    assert_eq!(whole[0].id, Some("7".to_string()));
    assert_eq!(whole[0].data, "one\ntwo");
    assert_eq!(whole[1].retry, Some(1500));
    assert_eq!(whole[1].data, "three");
    for cuts in [vec![1], vec![5, 9, 10], vec![8, 9], vec![20, 21, 22, 40, 60]] {
        assert_eq!(parse_in_pieces(stream, &cuts), whole);
    }
}

#[test]
fn invalid_retry_is_ignored_and_bare_field_is_empty() {
    let mut parser = SseParser::new();
    let events = parser.parse_chunk("retry: 12x\nretry: +\nid\ndata\ndata: x\nunknown: y\n\n");
    assert_eq!(events.len(), 1);
    assert_eq!(events[0].retry, None);
    assert_eq!(events[0].id, Some(String::new()));
    assert_eq!(events[0].data, "x");
}

#[test]
fn retry_overflow_is_ignored() {
    let mut parser = SseParser::new();
    let events = parser.parse_chunk("retry: 18446744073709551616\ndata: z\n\nretry: 18446744073709551615\ndata: w\n\n");
    assert_eq!(events[0].retry, None);
    assert_eq!(events[1].retry, Some(u64::MAX));
}

#[test]
fn blank_line_without_data_emits_nothing() {
    let mut parser = SseParser::new();
    assert!(parser.parse_chunk("event: x\n\n\n").is_empty());
    assert!(parser.flush().is_none());
}

#[test]
fn done_marker_is_exact() {
    let mut parser = SseParser::new();
    let events = parser.parse_chunk("data: [DONE] \n\n");
    assert!(!events[0].is_done_marker());
    assert!(SseEvent { event_type: None, data: "[DONE]".to_string(), id: None, retry: None }.is_done_marker());
}
