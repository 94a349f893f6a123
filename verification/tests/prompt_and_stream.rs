use meeting_chat::lines::SseLineBuffer;
use meeting_chat::prompt::{build_chat_system_prompt, tail_chars};
use meeting_chat::sse::{parse_claude_sse_line, parse_openai_sse_line, SseEvent};
use meeting_chat::turns::{merge_consecutive_roles, ChatTurn};

#[test]
fn tail_chars_no_truncation_when_within_budget() {
    let (out, truncated) = tail_chars("hello", 10);
    assert_eq!(out, "hello");
    assert!(!truncated);
}

#[test]
fn tail_chars_keeps_most_recent_text() {
    let (out, truncated) = tail_chars("abcdef", 3);
    assert_eq!(out, "def");
    assert!(truncated);
}

#[test]
fn tail_chars_is_utf8_safe() {
    // Multi-byte characters must not be split mid-codepoint
    let text = "héllo wörld 日本語テキスト";
    let (out, truncated) = tail_chars(text, 5);
    assert_eq!(out.chars().count(), 5);
    assert!(truncated);
}

#[test]
fn system_prompt_includes_truncation_note() {
    let long_text = "x".repeat(100);
    let prompt = build_chat_system_prompt(&long_text, 10);
    assert!(prompt.contains("[earlier transcript truncated]"));
}

#[test]
fn line_buffer_handles_split_lines() {
    let mut buf = SseLineBuffer::new();
    // A data line split across two network chunks
    let lines = buf.push(b"data: {\"choices\":[{\"delta\":{\"con");
    assert!(lines.is_empty());
    let lines = buf.push(b"tent\":\"hi\"}}]}\n\n");
    assert_eq!(lines.len(), 2);
    assert_eq!(
        parse_openai_sse_line(&lines[0]),
        SseEvent::Delta("hi".to_string())
    );
    assert_eq!(parse_openai_sse_line(&lines[1]), SseEvent::Ignore);
}

#[test]
fn openai_done_marker() {
    assert_eq!(parse_openai_sse_line("data: [DONE]"), SseEvent::Done);
}

#[test]
fn claude_delta_and_stop() {
    assert_eq!(
        parse_claude_sse_line(
            r#"data: {"type":"content_block_delta","index":0,"delta":{"type":"text_delta","text":"Hello"}}"#
        ),
        SseEvent::Delta("Hello".to_string())
    );
    assert_eq!(
        parse_claude_sse_line(r#"data: {"type":"message_stop"}"#),
        SseEvent::Done
    );
    assert_eq!(
        parse_claude_sse_line(r#"data: {"type":"ping"}"#),
        SseEvent::Ignore
    );
    assert_eq!(
        parse_claude_sse_line("event: content_block_delta"),
        SseEvent::Ignore
    );
}

#[test]
fn merges_consecutive_same_role_messages() {
    let messages = vec![
        ChatTurn { role: "user".into(), content: "a".into() },
        ChatTurn { role: "user".into(), content: "b".into() },
        ChatTurn { role: "assistant".into(), content: "c".into() },
    ];
    let merged = merge_consecutive_roles(&messages);
    assert_eq!(merged.len(), 2);
    assert_eq!(merged[0].content, "a\n\nb");
}
