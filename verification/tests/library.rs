use meeting_chat::commands::{
    api_key_from_lookup, error_with_detail, finalize_response, ollama_endpoint_for, select_history,
    validate_message, ChatStreamChunk, MAX_HISTORY_TURNS,
};
use meeting_chat::lines::SseLineBuffer;
use meeting_chat::prompt::{build_chat_system_prompt, tail_chars};
use meeting_chat::provider::{
    bearer_auth_value, char_budget_for_context, claude_max_tokens, provider_requires_api_key,
    resolve_chat_url, transcript_char_budget, uses_model_context, LLMProvider,
};
use meeting_chat::registry::{cancel_chat_token, cleanup_chat_token, try_register_chat_token, ChatRegistry};
use meeting_chat::repository::{ChatMessageModel, ChatMessagesRepository};
use meeting_chat::request::{
    header_value_accepts, plan_chat_request, request_failed_error, send_failed_error, ChatRoute,
};
use meeting_chat::sse::{
    claude_event_from_lookups, openai_event_from_lookups, parse_claude_sse_line,
    parse_openai_sse_line, sse_line_data, SseEvent,
};
use meeting_chat::stream::{StreamDecoder, StreamOutcome};
use meeting_chat::text::{
    char_is_white_space, is_blank, same_text, strip_prefix_str, trim_end_line_breaks_str, trim_end_slashes_str,
    trim_end_str, trim_str,
};
use meeting_chat::turns::{chat_request_messages, flatten_conversation, merge_consecutive_roles, ChatTurn};

fn turn(role: &str, content: &str) -> ChatTurn {
    ChatTurn { role: role.to_string(), content: content.to_string() }
}

fn message(id: &str, role: &str, content: &str) -> ChatMessageModel {
    ChatMessageModel {
        id: id.to_string(),
        meeting_id: "m1".to_string(),
        role: role.to_string(),
        content: content.to_string(),
        created_at: "2024-01-01T00:00:00+00:00".to_string(),
    }
}

// ---- text helpers ----

#[test]
fn blank_texts() {
    assert!(is_blank(" \n\t "));
    assert!(is_blank(""));
    assert!(is_blank("\u{3000}\u{a0}"));
    assert!(!is_blank(" x "));
    assert_eq!(validate_message("\u{3000}x\u{a0}"), Ok("x".to_string()));
}

#[test]
fn strips_prefix_and_trailing_characters() {
    assert_eq!(trim_end_line_breaks_str("abc\r\n\r\n"), "abc");
    assert_eq!(trim_end_line_breaks_str("a\nb"), "a\nb");
    assert_eq!(trim_end_slashes_str("http://h/v1///"), "http://h/v1");
    assert!(same_text("é", "é"));
    assert!(!same_text("a", "ab"));
}

// ---- prompt ----

#[test]
fn prompt_without_truncation_is_exact() {
    let prompt = build_chat_system_prompt("Alice: hi", 100);
    let expected = "You are a helpful meeting assistant. Answer the user's questions using ONLY the meeting transcript below. If the answer is not in the transcript, say so. The meeting may still be in progress, so the transcript may be incomplete.\n\n--- MEETING TRANSCRIPT ---\nAlice: hi\n--- END TRANSCRIPT ---";
    assert_eq!(prompt, expected);
}

#[test]
fn prompt_with_truncation_keeps_latest_text() {
    let prompt = build_chat_system_prompt("0123456789", 4);
    assert!(prompt.ends_with("--- MEETING TRANSCRIPT ---\n[earlier transcript truncated]\n6789\n--- END TRANSCRIPT ---"));
}

#[test]
fn tail_chars_edges() {
    assert_eq!(tail_chars("abc", 3), ("abc", false));
    assert_eq!(tail_chars("abc", 0), ("", true));
    assert_eq!(tail_chars("", 0), ("", false));
    assert_eq!(tail_chars("日本語", 2), ("本語", true));
}

// ---- server-sent events ----

#[test]
fn openai_errors_and_ignored_lines() {
    assert_eq!(
        parse_openai_sse_line(r#"data: {"error":{"message":"boom"}}"#),
        SseEvent::Error("boom".to_string())
    );
    assert_eq!(
        parse_openai_sse_line(r#"data: {"error":{"code":1}}"#),
        SseEvent::Error("Unknown streaming error".to_string())
    );
    assert_eq!(
        parse_openai_sse_line(r#"data: {"error":null}"#),
        SseEvent::Error("Unknown streaming error".to_string())
    );
    assert_eq!(parse_openai_sse_line("data: not json"), SseEvent::Ignore);
    assert_eq!(
        parse_openai_sse_line(r#"data: {"choices":[{"delta":{"content":""}}]}"#),
        SseEvent::Ignore
    );
    assert_eq!(parse_openai_sse_line(": keep-alive"), SseEvent::Ignore);
    assert_eq!(parse_openai_sse_line("data:   [DONE]  "), SseEvent::Done);
    assert_eq!(
        parse_openai_sse_line(r#"data:{"choices":[{"delta":{"content":"x y"}}]}"#),
        SseEvent::Delta("x y".to_string())
    );
}

#[test]
fn claude_error_and_other_events() {
    assert_eq!(
        parse_claude_sse_line(r#"data: {"type":"error","error":{"type":"overloaded_error","message":"Overloaded"}}"#),
        SseEvent::Error("Overloaded".to_string())
    );
    assert_eq!(
        parse_claude_sse_line(r#"data: {"type":"error"}"#),
        SseEvent::Error("Unknown streaming error".to_string())
    );
    assert_eq!(
        parse_claude_sse_line(r#"data: {"type":"content_block_delta","delta":{"text":""}}"#),
        SseEvent::Ignore
    );
    assert_eq!(parse_claude_sse_line("data: [DONE]"), SseEvent::Ignore);
    assert_eq!(parse_claude_sse_line(r#"data: {"type":"message_start"}"#), SseEvent::Ignore);
}

#[test]
fn events_from_lookups() {
    assert_eq!(
        openai_event_from_lookups(true, None, Some("x".to_string())),
        SseEvent::Error("Unknown streaming error".to_string())
    );
    assert_eq!(
        openai_event_from_lookups(false, Some("e".to_string()), Some("x".to_string())),
        SseEvent::Delta("x".to_string())
    );
    assert_eq!(openai_event_from_lookups(false, None, None), SseEvent::Ignore);
    assert_eq!(
        claude_event_from_lookups(Some("message_stop".to_string()), None, None),
        SseEvent::Done
    );
    assert_eq!(
        claude_event_from_lookups(Some("error".to_string()), None, Some("bad".to_string())),
        SseEvent::Error("bad".to_string())
    );
    assert_eq!(claude_event_from_lookups(None, Some("t".to_string()), None), SseEvent::Ignore);
    assert_eq!(sse_line_data("data:  x  "), Some("x"));
    assert_eq!(sse_line_data("id: 1"), None);
}

#[test]
fn line_buffer_split_point_does_not_matter() {
    let stream: &[u8] = b"data: a\r\n\ndata: b\nrest";
    let mut whole = SseLineBuffer::new();
    let expected = whole.push(stream);
    assert_eq!(expected, vec!["data: a".to_string(), "".to_string(), "data: b".to_string()]);
    for cut in 0..=stream.len() {
        let mut buf = SseLineBuffer::new();
        let mut lines = buf.push(&stream[..cut]);
        lines.extend(buf.push(&stream[cut..]));
        assert_eq!(lines, expected);
        let tail = buf.push(b"\n");
        assert_eq!(tail, vec!["rest".to_string()]);
    }
}

#[test]
fn line_buffer_decodes_lossily() {
    let mut buf = SseLineBuffer::new();
    let lines = buf.push(b"caf\xc3\xa9 \xff\n");
    assert_eq!(lines, vec!["café \u{fffd}".to_string()]);
    assert!(buf.push(b"").is_empty());
}

// ---- stream decoding ----

#[test]
fn decoder_accumulates_and_stops_at_done() {
    let mut d = StreamDecoder::new(false);
    let step = d.on_bytes(b"data: {\"choices\":[{\"delta\":{\"content\":\"Hel\"}}]}\n\ndata: {\"choices\":[{\"delta\":{\"con");
    assert_eq!(step.deltas, vec!["Hel".to_string()]);
    assert_eq!(step.outcome, StreamOutcome::Continue);
    let step = d.on_bytes(b"tent\":\"lo\"}}]}\ndata: [DONE]\ndata: {\"choices\":[{\"delta\":{\"content\":\"!\"}}]}\n");
    assert_eq!(step.deltas, vec!["lo".to_string()]);
    assert_eq!(step.outcome, StreamOutcome::Done("Hello".to_string()));
    assert_eq!(d.full_text(), "Hello");
}

#[test]
fn decoder_reports_stream_errors() {
    let mut d = StreamDecoder::new(true);
    let step = d.on_bytes(b"event: content_block_delta\ndata: {\"type\":\"content_block_delta\",\"delta\":{\"text\":\"Hi\"}}\n\ndata: {\"type\":\"error\",\"error\":{\"message\":\"Overloaded\"}}\n");
    assert_eq!(step.deltas, vec!["Hi".to_string()]);
    assert_eq!(step.outcome, StreamOutcome::Failed("LLM streaming error: Overloaded".to_string()));
}

#[test]
fn decoder_without_end_marker_keeps_text() {
    let mut d = StreamDecoder::new(false);
    let step = d.on_bytes(b"data: {\"choices\":[{\"delta\":{\"content\":\"partial\"}}]}\n");
    assert_eq!(step.outcome, StreamOutcome::Continue);
    assert_eq!(d.full_text(), "partial");
}

// ---- conversation shaping ----

#[test]
fn merge_laws_on_examples() {
    let alternating = vec![turn("user", "a"), turn("assistant", "b"), turn("user", "c")];
    let merged = merge_consecutive_roles(&alternating);
    assert_eq!(merged.len(), 3);
    assert_eq!(merged[2].content, "c");
    let runs = vec![turn("user", "a"), turn("user", "b"), turn("user", "c"), turn("assistant", "d"), turn("assistant", "e")];
    let once = merge_consecutive_roles(&runs);
    assert_eq!(once.len(), 2);
    assert_eq!(once[0].content, "a\n\nb\n\nc");
    assert_eq!(once[1].content, "d\n\ne");
    let twice = merge_consecutive_roles(&once);
    assert_eq!(twice.len(), 2);
    assert_eq!(twice[0].content, once[0].content);
    assert_eq!(twice[1].role, "assistant");
    assert!(merge_consecutive_roles(&[]).is_empty());
}

#[test]
fn flattens_conversation_for_single_prompt_models() {
    let turns = vec![turn("user", "What was decided?"), turn("assistant", "Ship it.  "), turn("system", "x")];
    assert_eq!(
        flatten_conversation(&turns),
        "User: What was decided?\n\nAssistant: Ship it.  \n\nUser: x"
    );
    assert_eq!(flatten_conversation(&[]), "");
}

#[test]
fn request_messages_by_format() {
    let turns = vec![turn("user", "a"), turn("user", "b")];
    let openai = chat_request_messages(false, "SYS", &turns);
    assert_eq!(openai.len(), 3);
    assert_eq!(openai[0].role, "system");
    assert_eq!(openai[0].content, "SYS");
    assert_eq!(openai[2].content, "b");
    let claude = chat_request_messages(true, "SYS", &turns);
    assert_eq!(claude.len(), 1);
    assert_eq!(claude[0].content, "a\n\nb");
}

// ---- providers ----

#[test]
fn chat_urls() {
    assert_eq!(resolve_chat_url(LLMProvider::OpenAI, None, None).unwrap(), "https://api.openai.com/v1/chat/completions");
    assert_eq!(resolve_chat_url(LLMProvider::Groq, None, None).unwrap(), "https://api.groq.com/openai/v1/chat/completions");
    assert_eq!(resolve_chat_url(LLMProvider::OpenRouter, None, None).unwrap(), "https://openrouter.ai/api/v1/chat/completions");
    assert_eq!(resolve_chat_url(LLMProvider::Claude, None, None).unwrap(), "https://api.anthropic.com/v1/messages");
    assert_eq!(resolve_chat_url(LLMProvider::Ollama, None, None).unwrap(), "http://localhost:11434/v1/chat/completions");
    assert_eq!(resolve_chat_url(LLMProvider::Ollama, Some("http://box:1"), None).unwrap(), "http://box:1/v1/chat/completions");
    assert_eq!(resolve_chat_url(LLMProvider::CustomOpenAI, None, Some("https://llm.local/v1//")).unwrap(), "https://llm.local/v1/chat/completions");
    assert_eq!(resolve_chat_url(LLMProvider::CustomOpenAI, None, None), Err("Custom OpenAI endpoint not configured".to_string()));
}

#[test]
fn provider_rules() {
    assert_eq!(bearer_auth_value("k1"), "Bearer k1");
    assert_eq!(claude_max_tokens(None), 2048);
    assert_eq!(claude_max_tokens(Some(10)), 10);
    assert!(provider_requires_api_key(LLMProvider::OpenAI));
    assert!(!provider_requires_api_key(LLMProvider::Ollama));
    assert!(!provider_requires_api_key(LLMProvider::BuiltInAI));
    assert!(!provider_requires_api_key(LLMProvider::CustomOpenAI));
}

#[test]
fn transcript_budgets() {
    assert_eq!(transcript_char_budget(LLMProvider::Ollama, Some(8192)), 28_768);
    assert_eq!(transcript_char_budget(LLMProvider::Ollama, Some(500)), 0);
    assert_eq!(transcript_char_budget(LLMProvider::Ollama, None), 12_000);
    assert_eq!(transcript_char_budget(LLMProvider::BuiltInAI, Some(4096)), 12_384);
    assert_eq!(transcript_char_budget(LLMProvider::BuiltInAI, None), 12_000);
    assert_eq!(transcript_char_budget(LLMProvider::OpenAI, Some(8192)), 120_000);
    assert_eq!(transcript_char_budget(LLMProvider::Claude, None), 120_000);
    assert_eq!(char_budget_for_context(usize::MAX), usize::MAX);
}

#[test]
fn request_plans() {
    let turns = vec![turn("user", "q")];
    assert_eq!(
        plan_chat_request(true, LLMProvider::OpenAI, false, "k", "S", &turns, None, None, None).err(),
        Some("Chat was cancelled".to_string())
    );
    assert_eq!(
        plan_chat_request(false, LLMProvider::BuiltInAI, false, "", "S", &turns, None, None, None).err(),
        Some("app_data_dir is required for BuiltInAI provider".to_string())
    );
    match plan_chat_request(false, LLMProvider::BuiltInAI, true, "", "S", &turns, None, None, None) {
        Ok(ChatRoute::Builtin { user_prompt }) => assert_eq!(user_prompt, "User: q"),
        _ => panic!("expected the built-in route"),
    }
    assert_eq!(
        plan_chat_request(false, LLMProvider::Claude, false, "bad\nkey", "S", &turns, None, None, None).err(),
        Some("Invalid API key format".to_string())
    );
    assert_eq!(
        plan_chat_request(false, LLMProvider::OpenAI, false, "bad\u{7f}", "S", &turns, None, None, None).err(),
        Some("Invalid authorization header".to_string())
    );
    assert_eq!(
        plan_chat_request(false, LLMProvider::CustomOpenAI, false, "", "S", &turns, None, None, None).err(),
        Some("Custom OpenAI endpoint not configured".to_string())
    );
    match plan_chat_request(false, LLMProvider::Claude, false, "sk-ant", "S", &turns, None, None, Some(99)) {
        Ok(ChatRoute::Http(r)) => {
            assert_eq!(r.url, "https://api.anthropic.com/v1/messages");
            assert_eq!(r.authorization, None);
            assert_eq!(r.api_key_header, Some("sk-ant".to_string()));
            assert!(r.is_claude);
            assert_eq!(r.messages.len(), 1);
            assert_eq!(r.claude_max_tokens, 99);
        }
        _ => panic!("expected an HTTP route"),
    }
    match plan_chat_request(false, LLMProvider::Ollama, false, "", "S", &turns, Some("http://h:1"), None, None) {
        Ok(ChatRoute::Http(r)) => {
            assert_eq!(r.url, "http://h:1/v1/chat/completions");
            assert_eq!(r.authorization, Some("Bearer ".to_string()));
            assert_eq!(r.messages[0].role, "system");
            assert_eq!(r.claude_max_tokens, 2048);
        }
        _ => panic!("expected an HTTP route"),
    }
}

// ---- stream registry ----

#[test]
fn one_stream_per_meeting() {
    let mut reg = ChatRegistry::new();
    let token = try_register_chat_token(&mut reg, "m1").expect("first stream");
    assert!(reg.is_active("m1"));
    assert!(try_register_chat_token(&mut reg, "m1").is_none());
    assert!(try_register_chat_token(&mut reg, "m2").is_some());
    assert!(!token.is_cancelled());
    assert!(cancel_chat_token(&reg, "m1"));
    assert!(token.is_cancelled());
    assert!(!cancel_chat_token(&reg, "m3"));
    cleanup_chat_token(&mut reg, "m1");
    assert!(!reg.is_active("m1"));
    assert!(reg.is_active("m2"));
    assert!(!cancel_chat_token(&reg, "m1"));
    assert!(try_register_chat_token(&mut reg, "m1").is_some());
    cleanup_chat_token(&mut reg, "unknown");
    assert!(reg.is_active("m1"));
}

// ---- stored messages ----

#[test]
fn message_rows() {
    let m = ChatMessagesRepository::message_model("abc", "m9", "user", "hello", "2024-05-01T10:00:00+00:00");
    assert_eq!(m.id, "chatmsg-abc");
    assert_eq!(m.meeting_id, "m9");
    assert_eq!(m.role, "user");
    assert_eq!(m.content, "hello");
    assert_eq!(m.created_at, "2024-05-01T10:00:00+00:00");
    let fresh = ChatMessagesRepository::new_message("m9", "assistant", "");
    assert!(fresh.id.starts_with("chatmsg-"));
    assert_eq!(fresh.id.len(), "chatmsg-".len() + 36);
    assert_eq!(fresh.role, "assistant");
    assert!(!fresh.created_at.is_empty());
    let other = ChatMessagesRepository::new_message("m9", "assistant", "");
    assert_ne!(fresh.id, other.id);
}

// ---- command decisions ----

#[test]
fn message_checks() {
    assert_eq!(validate_message("  hi there \n"), Ok("hi there".to_string()));
    assert_eq!(validate_message(" \t "), Err("Message cannot be empty".to_string()));
}

#[test]
fn api_key_outcomes() {
    assert_eq!(api_key_from_lookup("openai", Ok(Some("sk".to_string()))), Ok("sk".to_string()));
    assert_eq!(api_key_from_lookup("openai", Ok(Some(String::new()))), Err("API key not found for openai".to_string()));
    assert_eq!(api_key_from_lookup("groq", Ok(None)), Err("API key not found for groq".to_string()));
    assert_eq!(
        api_key_from_lookup("groq", Err("db locked".to_string())),
        Err("Failed to retrieve API key for groq: db locked".to_string())
    );
    assert_eq!(ollama_endpoint_for(LLMProvider::Ollama, Some("h".to_string())), Some("h".to_string()));
    assert_eq!(ollama_endpoint_for(LLMProvider::Groq, Some("h".to_string())), None);
    assert_eq!(error_with_detail("Failed to load chat history: ", "gone"), "Failed to load chat history: gone");
}

#[test]
fn history_keeps_last_non_blank_turns() {
    let mut stored = vec![message("0", "user", "  "), message("1", "assistant", "")];
    for i in 0..25 {
        let role = if i % 2 == 0 { "user" } else { "assistant" };
        stored.push(message(&format!("m{}", i), role, &format!("turn {}", i)));
    }
    stored.push(message("x", "assistant", "\n"));
    let history = select_history(&stored);
    assert_eq!(history.len(), MAX_HISTORY_TURNS);
    assert_eq!(history[0].content, "turn 5");
    assert_eq!(history[0].role, "assistant");
    assert_eq!(history[19].content, "turn 24");
    let short = select_history(&stored[..4]);
    assert_eq!(short.len(), 2);
    assert_eq!(short[0].content, "turn 0");
}

#[test]
fn final_answers() {
    assert_eq!(finalize_response(Ok("done".to_string()), false, "do"), ("done".to_string(), None));
    assert_eq!(finalize_response(Ok("done".to_string()), true, "do"), ("done".to_string(), None));
    assert_eq!(
        finalize_response(Err("x".to_string()), true, ""),
        ("_[response cancelled]_".to_string(), Some("cancelled".to_string()))
    );
    assert_eq!(
        finalize_response(Err("x".to_string()), true, "half"),
        ("half\n\n_[response cancelled]_".to_string(), Some("cancelled".to_string()))
    );
    assert_eq!(
        finalize_response(Err("Stream error: reset".to_string()), false, "half"),
        ("⚠️ Stream error: reset".to_string(), Some("Stream error: reset".to_string()))
    );
}

#[test]
fn stream_chunks() {
    let c = ChatStreamChunk::delta("m", "a", "hi");
    assert_eq!((c.meeting_id.as_str(), c.message_id.as_str(), c.delta.as_str(), c.done, c.error), ("m", "a", "hi", false, None));
    let d = ChatStreamChunk::done("m", "a", Some("cancelled".to_string()));
    assert_eq!((d.delta.as_str(), d.done, d.error), ("", true, Some("cancelled".to_string())));
}

#[test]
fn decoder_split_point_does_not_change_the_answer() {
    let stream: &[u8] = "data: {\"choices\":[{\"delta\":{\"content\":\"Bon\"}}]}\r\n\r\ndata: {\"choices\":[{\"delta\":{\"content\":\"jour é\"}}]}\n\ndata: [DONE]\n".as_bytes();
    let mut whole = StreamDecoder::new(false);
    let all = whole.on_bytes(stream);
    assert_eq!(all.deltas, vec!["Bon".to_string(), "jour é".to_string()]);
    assert_eq!(all.outcome, StreamOutcome::Done("Bonjour é".to_string()));
    for cut in 0..=stream.len() {
        let mut d = StreamDecoder::new(false);
        let first = d.on_bytes(&stream[..cut]);
        let mut deltas = first.deltas;
        let outcome = if first.outcome == StreamOutcome::Continue {
            let second = d.on_bytes(&stream[cut..]);
            deltas.extend(second.deltas);
            second.outcome
        } else {
            first.outcome
        };
        assert_eq!(deltas, all.deltas);
        assert_eq!(outcome, all.outcome);
    }
}

#[test]
fn trimming_twice_is_trimming_once() {
    let once = validate_message(" \u{2003} keep  this \n").unwrap();
    assert_eq!(once, "keep  this");
    assert_eq!(validate_message(&once).unwrap(), once);
}

#[test]
fn trimming_matches_std() {
    let samples = [
        "", "   ", " a b ", "\t\n x \r\n", "\u{3000}日本\u{a0}", "\u{85}x\u{2028}", "\u{200b}y\u{200b}",
        "\u{1680}\u{2000}\u{200a}\u{202f}\u{205f}z\u{2029}", "data:  [DONE] ",
    ];
    for s in samples {
        assert_eq!(trim_str(s), s.trim());
        assert_eq!(trim_end_str(s), s.trim_end());
        assert_eq!(is_blank(s), s.trim().is_empty());
    }
    for c in ['\u{0}', '\u{8}', '\u{e}', '\u{1f}', 'a', '\u{180e}', '\u{200b}', '\u{feff}', '\u{2060}'] {
        assert_eq!(char_is_white_space(c), c.is_whitespace());
    }
    for u in 0u32..0x3100 {
        if let Some(c) = char::from_u32(u) {
            assert_eq!(char_is_white_space(c), c.is_whitespace(), "U+{:04X}", u);
        }
    }
    assert_eq!(strip_prefix_str("data: x", "data:"), Some(" x"));
    assert_eq!(strip_prefix_str("data", "data:"), None);
    assert_eq!(strip_prefix_str("event: x", "data:"), None);
    assert_eq!(strip_prefix_str("é", ""), Some("é"));
}

#[test]
fn context_lookup_only_for_local_models() {
    assert!(uses_model_context(LLMProvider::Ollama));
    assert!(uses_model_context(LLMProvider::BuiltInAI));
    assert!(!uses_model_context(LLMProvider::OpenAI));
    assert!(!uses_model_context(LLMProvider::CustomOpenAI));
}

#[test]
fn new_message_timestamp_shape() {
    let m = ChatMessagesRepository::new_message("m", "user", "x");
    assert!(m.created_at.len() >= 25);
    assert!(m.created_at.ends_with("+00:00"));
    assert_eq!(&m.created_at[10..11], "T");
}

#[test]
fn new_message_id_is_a_v4_uuid() {
    let m = ChatMessagesRepository::new_message("m", "user", "x");
    let uuid: Vec<char> = m.id["chatmsg-".len()..].chars().collect();
    assert_eq!(uuid.len(), 36);
    for (i, c) in uuid.iter().enumerate() {
        if i == 8 || i == 13 || i == 18 || i == 23 {
            assert_eq!(*c, '-');
        } else {
            assert!(c.is_ascii_digit() || ('a'..='f').contains(c));
        }
    }
    assert_eq!(uuid[14], '4');
    assert!(matches!(uuid[19], '8' | '9' | 'a' | 'b'));
}

#[test]
fn request_error_messages() {
    assert_eq!(request_failed_error(Some("quota".to_string())), "LLM API request failed: quota");
    assert_eq!(request_failed_error(None), "LLM API request failed: Unknown error");
    assert_eq!(send_failed_error(true, "ignored"), "Chat request timed out");
    assert_eq!(send_failed_error(false, "refused"), "Failed to send chat request: refused");
}

#[test]
fn header_values() {
    assert!(header_value_accepts("Bearer sk-1\tx"));
    assert!(header_value_accepts("caf\u{e9}"));
    assert!(!header_value_accepts("a\nb"));
    assert!(!header_value_accepts("a\u{7f}"));
    assert!(header_value_accepts(""));
}

#[test]
fn lossy_lines_hold_no_newline() {
    let mut buf = SseLineBuffer::new();
    let lines = buf.push(b"\xff\xfe a\r\n\x80\n");
    assert_eq!(lines.len(), 2);
    for l in &lines {
        assert!(!l.contains('\n'));
    }
    assert_eq!(lines[0], "\u{fffd}\u{fffd} a");
    assert_eq!(lines[1], "\u{fffd}");
}

#[test]
fn registry_keeps_each_meetings_token() {
    let mut reg = ChatRegistry::new();
    let first = try_register_chat_token(&mut reg, "a").unwrap();
    let other = try_register_chat_token(&mut reg, "b").unwrap();
    assert!(try_register_chat_token(&mut reg, "a").is_none());
    let third = try_register_chat_token(&mut reg, "c").unwrap();
    cleanup_chat_token(&mut reg, "b");
    assert!(cancel_chat_token(&reg, "a"));
    assert!(first.is_cancelled());
    assert!(!other.is_cancelled());
    assert!(!third.is_cancelled());
    assert!(cancel_chat_token(&reg, "c"));
    assert!(third.is_cancelled());
    assert!(!cancel_chat_token(&reg, "b"));
    assert!(!other.is_cancelled());
}
