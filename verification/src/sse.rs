use vstd::prelude::*;
use crate::json::{found, found_str, found_string, json_lookup, lookup_json, JsonLookup};
use crate::text::{opt_string_view, same_text, starts_with, strip_prefix_str, trim_str, trim_ws};

verus! {

/// Result of reading one server-sent-event line.
#[derive(Debug, PartialEq)]
pub enum SseEvent {
    /// A fragment of the answer text.
    Delta(String),
    /// The stream announced its end.
    Done,
    /// Nothing to act on (keep-alives, bookkeeping events, other lines).
    Ignore,
    /// The provider reported an error in the stream.
    Error(String),
}

/// The mathematical value of an [`SseEvent`].
pub enum SseEventView {
    Delta(Seq<char>),
    Done,
    Ignore,
    Error(Seq<char>),
}

impl View for SseEvent {
    type V = SseEventView;

    open spec fn view(&self) -> SseEventView {
        match self {
            SseEvent::Delta(s) => SseEventView::Delta(s@),
            SseEvent::Done => SseEventView::Done,
            SseEvent::Ignore => SseEventView::Ignore,
            SseEvent::Error(s) => SseEventView::Error(s@),
        }
    }
}

/// Field name that starts a data line.
pub const DATA_PREFIX: &'static str = "data:";

/// The pointer of a whole JSON document.
pub const WHOLE_DOCUMENT_POINTER: &'static str = "";

/// Data that OpenAI-compatible servers send as the last event.
pub const DONE_MARKER: &'static str = "[DONE]";

/// Message used when a stream error carries no message of its own.
pub const UNKNOWN_STREAM_ERROR: &'static str = "Unknown streaming error";

/// Where an OpenAI-compatible error event keeps its error object.
pub const OPENAI_ERROR_POINTER: &'static str = "/error";

/// Where an OpenAI-compatible error event keeps its message.
pub const OPENAI_ERROR_MESSAGE_POINTER: &'static str = "/error/message";

/// Where an OpenAI-compatible chunk keeps the new text.
pub const OPENAI_CONTENT_POINTER: &'static str = "/choices/0/delta/content";

/// Where an Anthropic event keeps its type.
pub const CLAUDE_TYPE_POINTER: &'static str = "/type";

/// Where an Anthropic `content_block_delta` event keeps the new text.
pub const CLAUDE_TEXT_POINTER: &'static str = "/delta/text";

/// Where an Anthropic `error` event keeps its message.
pub const CLAUDE_ERROR_MESSAGE_POINTER: &'static str = "/error/message";

/// Anthropic event type carrying new text.
pub const CLAUDE_CONTENT_BLOCK_DELTA: &'static str = "content_block_delta";

/// Anthropic event type ending the message.
pub const CLAUDE_MESSAGE_STOP: &'static str = "message_stop";

/// Anthropic event type reporting an error.
pub const CLAUDE_ERROR: &'static str = "error";

/// The trimmed data of a `data:` line; `None` for any other line.
pub open spec fn sse_data(line: Seq<char>) -> Option<Seq<char>> {
    if starts_with(line, DATA_PREFIX@) {
        Some(trim_ws(line.skip(DATA_PREFIX@.len() as int)))
    } else {
        None
    }
}

/// The message of an error event, or the generic one when it has none.
pub open spec fn error_message_or_default(message: Option<Seq<char>>) -> Seq<char> {
    match message {
        Some(m) => m,
        None => UNKNOWN_STREAM_ERROR@,
    }
}

/// A text fragment when there is a non-empty one.
pub open spec fn delta_or_ignore(text: Option<Seq<char>>) -> SseEventView {
    match text {
        Some(t) => if t.len() > 0 {
            SseEventView::Delta(t)
        } else {
            SseEventView::Ignore
        },
        None => SseEventView::Ignore,
    }
}

/// The event of an OpenAI-compatible JSON chunk, from what was found in it.
pub open spec fn openai_event_for(
    has_error: bool,
    error_message: Option<Seq<char>>,
    content: Option<Seq<char>>,
) -> SseEventView {
    if has_error {
        SseEventView::Error(error_message_or_default(error_message))
    } else {
        delta_or_ignore(content)
    }
}

/// The event of one line of an OpenAI-compatible stream.
pub open spec fn openai_event(line: Seq<char>) -> SseEventView {
    match sse_data(line) {
        None => SseEventView::Ignore,
        Some(data) => if data == DONE_MARKER@ {
            SseEventView::Done
        } else if json_lookup(data, WHOLE_DOCUMENT_POINTER@) is NotJson {
            SseEventView::Ignore
        } else {
            openai_event_for(
                found(json_lookup(data, OPENAI_ERROR_POINTER@)),
                found_str(json_lookup(data, OPENAI_ERROR_MESSAGE_POINTER@)),
                found_str(json_lookup(data, OPENAI_CONTENT_POINTER@)),
            )
        },
    }
}

/// The event of an Anthropic JSON event, from what was found in it.
pub open spec fn claude_event_for(
    event_type: Option<Seq<char>>,
    text: Option<Seq<char>>,
    error_message: Option<Seq<char>>,
) -> SseEventView {
    match event_type {
        Some(t) => if t == CLAUDE_CONTENT_BLOCK_DELTA@ {
            delta_or_ignore(text)
        } else if t == CLAUDE_MESSAGE_STOP@ {
            SseEventView::Done
        } else if t == CLAUDE_ERROR@ {
            SseEventView::Error(error_message_or_default(error_message))
        } else {
            SseEventView::Ignore
        },
        None => SseEventView::Ignore,
    }
}

/// The event of one line of an Anthropic stream.
pub open spec fn claude_event(line: Seq<char>) -> SseEventView {
    match sse_data(line) {
        None => SseEventView::Ignore,
        Some(data) => if json_lookup(data, WHOLE_DOCUMENT_POINTER@) is NotJson {
            SseEventView::Ignore
        } else {
            claude_event_for(
                found_str(json_lookup(data, CLAUDE_TYPE_POINTER@)),
                found_str(json_lookup(data, CLAUDE_TEXT_POINTER@)),
                found_str(json_lookup(data, CLAUDE_ERROR_MESSAGE_POINTER@)),
            )
        },
    }
}

/// Only `data:` lines carry events: any other line is ignored, in both
/// formats.
pub proof fn law_non_data_lines_are_ignored(line: Seq<char>)
    requires
        !starts_with(line, DATA_PREFIX@),
    ensures
        openai_event(line) == SseEventView::Ignore,
        claude_event(line) == SseEventView::Ignore,
{
}

/// A text fragment is never empty: an event either carries some text or
/// is not a fragment.
pub proof fn law_fragments_are_not_empty(line: Seq<char>)
    ensures
        openai_event(line) matches SseEventView::Delta(t) ==> t.len() > 0,
        claude_event(line) matches SseEventView::Delta(t) ==> t.len() > 0,
{
}

/// The end marker of an OpenAI-compatible stream ends it, whatever the
/// white space around it.
pub proof fn law_done_marker_ends_the_stream(line: Seq<char>)
    requires
        sse_data(line) == Some(DONE_MARKER@),
    ensures
        openai_event(line) == SseEventView::Done,
{
}

/// A chunk of an OpenAI-compatible stream hands on its new text exactly as
/// the server sent it, white space included; a chunk that carries an error
/// member reports that error, with its message when it has one.
pub proof fn law_openai_chunk_events(line: Seq<char>, data: Seq<char>, text: Seq<char>)
    requires
        sse_data(line) == Some(data),
        data != DONE_MARKER@,
        !(json_lookup(data, WHOLE_DOCUMENT_POINTER@) is NotJson),
    ensures
        !found(json_lookup(data, OPENAI_ERROR_POINTER@)) && found_str(
            json_lookup(data, OPENAI_CONTENT_POINTER@),
        ) == Some(text) && text.len() > 0 ==> openai_event(line) == SseEventView::Delta(text),
        found(json_lookup(data, OPENAI_ERROR_POINTER@)) && found_str(
            json_lookup(data, OPENAI_ERROR_MESSAGE_POINTER@),
        ) == Some(text) ==> openai_event(line) == SseEventView::Error(text),
        found(json_lookup(data, OPENAI_ERROR_POINTER@)) && found_str(
            json_lookup(data, OPENAI_ERROR_MESSAGE_POINTER@),
        ) is None ==> openai_event(line) == SseEventView::Error(UNKNOWN_STREAM_ERROR@),
{
}

/// The new text of an OpenAI-compatible chunk is handed on as it is: a
/// non-empty content string becomes the fragment, unchanged.
pub proof fn law_openai_fragment_is_the_content(error_message: Option<Seq<char>>, content: Seq<char>)
    requires
        content.len() > 0,
    ensures
        openai_event_for(false, error_message, Some(content)) == SseEventView::Delta(content),
{
}

/// A `content_block_delta` event of an Anthropic stream hands on its text
/// exactly as the server sent it, white space included; an `error` event
/// reports its message, and `message_stop` ends the stream.
pub proof fn law_claude_event_kinds(line: Seq<char>, data: Seq<char>, text: Seq<char>)
    requires
        sse_data(line) == Some(data),
        !(json_lookup(data, WHOLE_DOCUMENT_POINTER@) is NotJson),
    ensures
        found_str(json_lookup(data, CLAUDE_TYPE_POINTER@)) == Some(CLAUDE_CONTENT_BLOCK_DELTA@)
            && found_str(json_lookup(data, CLAUDE_TEXT_POINTER@)) == Some(text) && text.len() > 0
            ==> claude_event(line) == SseEventView::Delta(text),
        found_str(json_lookup(data, CLAUDE_TYPE_POINTER@)) == Some(CLAUDE_ERROR@) && found_str(
            json_lookup(data, CLAUDE_ERROR_MESSAGE_POINTER@),
        ) == Some(text) ==> claude_event(line) == SseEventView::Error(text),
        found_str(json_lookup(data, CLAUDE_TYPE_POINTER@)) == Some(CLAUDE_MESSAGE_STOP@)
            ==> claude_event(line) == SseEventView::Done,
{
    reveal_strlit("content_block_delta");
    reveal_strlit("message_stop");
    reveal_strlit("error");
    assert(CLAUDE_CONTENT_BLOCK_DELTA@.len() == 19);
    assert(CLAUDE_MESSAGE_STOP@.len() == 12);
    assert(CLAUDE_ERROR@.len() == 5);
}

/// The text of an Anthropic `content_block_delta` event is handed on as it
/// is: a non-empty text string becomes the fragment, unchanged.
pub proof fn law_claude_fragment_is_the_text(error_message: Option<Seq<char>>, text: Seq<char>)
    requires
        text.len() > 0,
    ensures
        claude_event_for(Some(CLAUDE_CONTENT_BLOCK_DELTA@), Some(text), error_message)
            == SseEventView::Delta(text),
{
}

fn error_event(message: Option<String>) -> (r: SseEvent)
    ensures
        r@ == SseEventView::Error(error_message_or_default(opt_string_view(message))),
{
    match message {
        Some(m) => SseEvent::Error(m),
        None => SseEvent::Error(String::from_str(UNKNOWN_STREAM_ERROR)),
    }
}

fn delta_event(text: Option<String>) -> (r: SseEvent)
    ensures
        r@ == delta_or_ignore(opt_string_view(text)),
{
    match text {
        Some(t) => if t.as_str().is_empty() {
            SseEvent::Ignore
        } else {
            SseEvent::Delta(t)
        },
        None => SseEvent::Ignore,
    }
}

/// Decides the event of an OpenAI-compatible JSON chunk from what its
/// lookups found: whether it has an `error` member, the error's `message`
/// string, and the string at `choices[0].delta.content`.
pub fn openai_event_from_lookups(
    has_error: bool,
    error_message: Option<String>,
    content: Option<String>,
) -> (r: SseEvent)
    ensures
        r@ == openai_event_for(has_error, opt_string_view(error_message), opt_string_view(content)),
{
    if has_error {
        error_event(error_message)
    } else {
        delta_event(content)
    }
}

/// Decides the event of an Anthropic JSON event from what its lookups found:
/// the `type` string, the string at `delta.text` and the string at
/// `error.message`.
pub fn claude_event_from_lookups(
    event_type: Option<String>,
    text: Option<String>,
    error_message: Option<String>,
) -> (r: SseEvent)
    ensures
        r@ == claude_event_for(opt_string_view(event_type), opt_string_view(text), opt_string_view(error_message)),
{
    match event_type {
        Some(t) => {
            if same_text(t.as_str(), CLAUDE_CONTENT_BLOCK_DELTA) {
                delta_event(text)
            } else if same_text(t.as_str(), CLAUDE_MESSAGE_STOP) {
                SseEvent::Done
            } else if same_text(t.as_str(), CLAUDE_ERROR) {
                error_event(error_message)
            } else {
                SseEvent::Ignore
            }
        },
        None => SseEvent::Ignore,
    }
}

/// The trimmed data of a `data:` line, or `None` for any other line.
pub fn sse_line_data(line: &str) -> (r: Option<&str>)
    ensures
        r is Some <==> sse_data(line@) is Some,
        r is Some ==> r->0@ == sse_data(line@)->0,
{
    match strip_prefix_str(line, DATA_PREFIX) {
        Some(rest) => Some(trim_str(rest)),
        None => None,
    }
}

/// Parses one SSE line from an OpenAI-compatible streaming response.
pub fn parse_openai_sse_line(line: &str) -> (r: SseEvent)
    ensures
        r@ == openai_event(line@),
{
    let data = match sse_line_data(line) {
        Some(d) => d,
        None => return SseEvent::Ignore,
    };
    if same_text(data, DONE_MARKER) {
        return SseEvent::Done;
    }
    if matches!(lookup_json(data, WHOLE_DOCUMENT_POINTER), JsonLookup::NotJson) {
        return SseEvent::Ignore;
    }
    let has_error = matches!(lookup_json(data, OPENAI_ERROR_POINTER), JsonLookup::Found(_));
    let error_message = found_string(lookup_json(data, OPENAI_ERROR_MESSAGE_POINTER));
    let content = found_string(lookup_json(data, OPENAI_CONTENT_POINTER));
    openai_event_from_lookups(has_error, error_message, content)
}

/// Parses one SSE line from an Anthropic streaming response.
pub fn parse_claude_sse_line(line: &str) -> (r: SseEvent)
    ensures
        r@ == claude_event(line@),
{
    let data = match sse_line_data(line) {
        Some(d) => d,
        None => return SseEvent::Ignore,
    };
    if matches!(lookup_json(data, WHOLE_DOCUMENT_POINTER), JsonLookup::NotJson) {
        return SseEvent::Ignore;
    }
    let event_type = found_string(lookup_json(data, CLAUDE_TYPE_POINTER));
    let text = found_string(lookup_json(data, CLAUDE_TEXT_POINTER));
    let error_message = found_string(lookup_json(data, CLAUDE_ERROR_MESSAGE_POINTER));
    claude_event_from_lookups(event_type, text, error_message)
}

} // verus!
