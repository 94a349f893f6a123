use vstd::prelude::*;
use crate::repository::{ChatMessageModel, MessageView};
use crate::text::{is_blank, is_blank_text, opt_string_view, trim_str, trim_ws};
use crate::turns::{ChatTurn, TurnView, turns_view};
use crate::provider::LLMProvider;

verus! {

/// Streaming event emitted to the frontend as `chat-stream-chunk`.
#[derive(Debug, Clone)]
pub struct ChatStreamChunk {
    pub meeting_id: String,
    pub message_id: String,
    pub delta: String,
    pub done: bool,
    pub error: Option<String>,
}

/// Name of the event that carries [`ChatStreamChunk`]s.
pub const CHAT_STREAM_EVENT: &'static str = "chat-stream-chunk";

/// Max chat history turns sent to the LLM (leaves room for the transcript).
pub const MAX_HISTORY_TURNS: usize = 20usize;

/// Error for a message with nothing but white space.
pub const EMPTY_MESSAGE_ERROR: &'static str = "Message cannot be empty";

/// Error when neither the frontend nor the database has a transcript.
pub const NO_TRANSCRIPT_ERROR: &'static str = "No transcript available for this meeting yet";

/// Error when no model is configured.
pub const NO_MODEL_ERROR: &'static str = "No AI model configured. Choose a model in settings.";

/// Error when a second stream is started for a meeting.
pub const STREAM_IN_PROGRESS_ERROR: &'static str = "A chat response is already in progress for this meeting";

/// Error when a custom provider is selected without its configuration.
pub const CUSTOM_CONFIG_MISSING_ERROR: &'static str = "Custom OpenAI provider selected but no configuration found";

/// Prefixes of the errors that wrap a failure of the storage or settings.
pub const LOAD_TRANSCRIPT_FAILED: &'static str = "Failed to load transcript: ";
pub const LOAD_MODEL_CONFIG_FAILED: &'static str = "Failed to load model config: ";
pub const CUSTOM_CONFIG_FAILED: &'static str = "Failed to retrieve custom OpenAI config: ";
pub const SAVE_MESSAGE_FAILED: &'static str = "Failed to save chat message: ";
pub const LOAD_HISTORY_FAILED: &'static str = "Failed to load chat history: ";
pub const CREATE_ASSISTANT_FAILED: &'static str = "Failed to create assistant message: ";
pub const CLEAR_HISTORY_FAILED: &'static str = "Failed to clear chat history: ";
pub const REASSIGN_HISTORY_FAILED: &'static str = "Failed to reassign chat history: ";

/// Start of the error for a provider without a stored API key.
pub const API_KEY_NOT_FOUND: &'static str = "API key not found for ";

/// Start of the error when the API key could not be read.
pub const API_KEY_READ_FAILED: &'static str = "Failed to retrieve API key for ";

/// Between the provider name and the cause of a failed key read.
pub const DETAIL_SEPARATOR: &'static str = ": ";

/// Marker stored after the partial answer of a cancelled stream.
pub const CANCELLED_NOTE: &'static str = "_[response cancelled]_";

/// Between the partial answer and the cancellation marker.
pub const PARAGRAPH_BREAK: &'static str = "\n\n";

/// Error code reported for a cancelled stream.
pub const CANCELLED_CODE: &'static str = "cancelled";

/// What starts the stored answer of a failed stream.
pub const FAILURE_MARK: &'static str = "\u{26a0}\u{fe0f} ";

/// Role of the messages written by the user.
pub const USER_MESSAGE_ROLE: &'static str = "user";

/// Role of the messages written by the model.
pub const ASSISTANT_MESSAGE_ROLE: &'static str = "assistant";

/// The view of a string result.
pub open spec fn string_result_view(r: Result<String, String>) -> Result<Seq<char>, Seq<char>> {
    match r {
        Ok(x) => Ok(x@),
        Err(e) => Err(e@),
    }
}

/// An error made of a fixed prefix and a detail.
pub fn error_with_detail(prefix: &str, detail: &str) -> (r: String)
    ensures
        r@ == prefix@ + detail@,
{
    let mut s = String::from_str(prefix);
    s.append(detail);
    s
}

/// The message to send: the user's text without surrounding white space;
/// an error when nothing is left.
pub fn validate_message(message: &str) -> (r: Result<String, String>)
    ensures
        string_result_view(r) == if trim_ws(message@).len() == 0 {
            Err::<Seq<char>, Seq<char>>(EMPTY_MESSAGE_ERROR@)
        } else {
            Ok(trim_ws(message@))
        },
{
    let trimmed = trim_str(message);
    if trimmed.is_empty() {
        Err(String::from_str(EMPTY_MESSAGE_ERROR))
    } else {
        Ok(String::from_str(trimmed))
    }
}

/// The API key a provider's request uses, from the result of reading it
/// from the settings: a stored non-empty key, else an error naming the
/// provider (and the cause, when the read failed).
pub open spec fn api_key_outcome(
    provider_name: Seq<char>,
    lookup: Result<Option<Seq<char>>, Seq<char>>,
) -> Result<Seq<char>, Seq<char>> {
    match lookup {
        Ok(Some(key)) => if key.len() > 0 {
            Ok(key)
        } else {
            Err(API_KEY_NOT_FOUND@ + provider_name)
        },
        Ok(None) => Err(API_KEY_NOT_FOUND@ + provider_name),
        Err(cause) => Err(API_KEY_READ_FAILED@ + provider_name + DETAIL_SEPARATOR@ + cause),
    }
}

/// The view of a key lookup.
pub open spec fn lookup_view(lookup: Result<Option<String>, String>) -> Result<
    Option<Seq<char>>,
    Seq<char>,
> {
    match lookup {
        Ok(k) => Ok(opt_string_view(k)),
        Err(e) => Err(e@),
    }
}

/// Decides the API key from the result of reading it (see [`api_key_outcome`]).
pub fn api_key_from_lookup(provider_name: &str, lookup: Result<Option<String>, String>) -> (r:
    Result<String, String>)
    ensures
        string_result_view(r) == api_key_outcome(provider_name@, lookup_view(lookup)),
{
    match lookup {
        Ok(Some(key)) => if key.as_str().is_empty() {
            Err(error_with_detail(API_KEY_NOT_FOUND, provider_name))
        } else {
            Ok(key)
        },
        Ok(None) => Err(error_with_detail(API_KEY_NOT_FOUND, provider_name)),
        Err(cause) => {
            let mut e = error_with_detail(API_KEY_READ_FAILED, provider_name);
            e.append(DETAIL_SEPARATOR);
            e.append(cause.as_str());
            Err(e)
        },
    }
}

/// The Ollama host to use: the configured one, for Ollama only.
pub fn ollama_endpoint_for(provider: LLMProvider, configured: Option<String>) -> (r: Option<String>)
    ensures
        r == (if provider == LLMProvider::Ollama {
            configured
        } else {
            None
        }),
{
    if provider == LLMProvider::Ollama {
        configured
    } else {
        None
    }
}

/// The turn that a stored message becomes.
pub open spec fn message_turn(m: MessageView) -> TurnView {
    TurnView { role: m.role, content: m.content }
}

/// The turns of the stored messages whose content is not blank, in order.
pub open spec fn non_blank_turns(messages: Seq<MessageView>) -> Seq<TurnView>
    decreases messages.len(),
{
    if messages.len() == 0 {
        Seq::empty()
    } else {
        let init = non_blank_turns(messages.drop_last());
        if is_blank_text(messages.last().content) {
            init
        } else {
            init.push(message_turn(messages.last()))
        }
    }
}

/// The last `n` elements of `s` (all of it when it is shorter).
pub open spec fn last_n<A>(s: Seq<A>, n: nat) -> Seq<A> {
    if s.len() <= n {
        s
    } else {
        s.skip(s.len() - n)
    }
}

/// The history sent to the model: the most recent non-blank turns, at most
/// [`MAX_HISTORY_TURNS`] of them.
pub open spec fn history_turns(messages: Seq<MessageView>) -> Seq<TurnView> {
    last_n(non_blank_turns(messages), MAX_HISTORY_TURNS as nat)
}

/// The views of a sequence of stored messages.
pub open spec fn messages_view(messages: Seq<ChatMessageModel>) -> Seq<MessageView> {
    messages.map_values(|m: ChatMessageModel| m@)
}

/// Builds the history sent to the model from the stored messages of the
/// meeting (oldest first): blank messages are left out and only the last
/// [`MAX_HISTORY_TURNS`] turns are kept.
pub fn select_history(messages: &[ChatMessageModel]) -> (r: Vec<ChatTurn>)
    ensures
        turns_view(r@) == history_turns(messages_view(messages@)),
{
    let mut turns: Vec<ChatTurn> = Vec::new();
    let n = messages.len();
    assert(messages_view(messages@).take(0) =~= Seq::<MessageView>::empty());
    for i in 0..n
        invariant
            n == messages@.len(),
            turns_view(turns@) == non_blank_turns(messages_view(messages@).take(i as int)),
    {
        let m = &messages[i];
        assert(messages_view(messages@).take(i + 1).drop_last() =~= messages_view(messages@).take(
            i as int,
        ));
        assert(messages_view(messages@).take(i + 1).last() == m@);
        if !is_blank(m.content.as_str()) {
            let ghost before = turns_view(turns@);
            turns.push(ChatTurn { role: m.role.clone(), content: m.content.clone() });
            assert(turns_view(turns@) =~= before.push(message_turn(m@)));
        }
    }
    assert(messages_view(messages@).take(n as int) =~= messages_view(messages@));
    let total = turns.len();
    if total <= MAX_HISTORY_TURNS {
        return turns;
    }
    let skip = total - MAX_HISTORY_TURNS;
    let ghost all = turns_view(turns@);
    let kept = turns.split_off(skip);
    assert(turns_view(kept@) =~= all.skip(skip as int));
    kept
}

/// The answer stored for the assistant message and the error reported with
/// the final chunk, from how the stream ended.
pub open spec fn final_answer(
    result: Result<Seq<char>, Seq<char>>,
    was_cancelled: bool,
    partial_text: Seq<char>,
) -> (Seq<char>, Option<Seq<char>>) {
    match result {
        Ok(full) => (full, None),
        Err(e) => if was_cancelled {
            (
                if partial_text.len() == 0 {
                    CANCELLED_NOTE@
                } else {
                    partial_text + PARAGRAPH_BREAK@ + CANCELLED_NOTE@
                },
                Some(CANCELLED_CODE@),
            )
        } else {
            (FAILURE_MARK@ + e, Some(e))
        },
    }
}

/// The history holds at most [`MAX_HISTORY_TURNS`] turns, none of them
/// blank, and they are the most recent non-blank ones in their order.
pub proof fn law_history_is_recent_non_blank_turns(messages: Seq<MessageView>)
    ensures
        history_turns(messages).len() <= MAX_HISTORY_TURNS,
        forall|i: int|
            0 <= i < history_turns(messages).len() ==> !is_blank_text(
                #[trigger] history_turns(messages)[i].content,
            ),
        ({
            let all = non_blank_turns(messages);
            let h = history_turns(messages);
            all.subrange(all.len() - h.len(), all.len() as int) == h
        }),
{
    lemma_non_blank_turns_are_not_blank(messages);
    let all = non_blank_turns(messages);
    assert(all.subrange(0, all.len() as int) =~= all);
    assert forall|i: int|
        0 <= i < history_turns(messages).len() implies !is_blank_text(
        #[trigger] history_turns(messages)[i].content,
    ) by {
        if all.len() > MAX_HISTORY_TURNS {
            assert(history_turns(messages)[i] == all[i + all.len() - MAX_HISTORY_TURNS]);
        }
    }
}

proof fn lemma_non_blank_turns_are_not_blank(messages: Seq<MessageView>)
    ensures
        forall|i: int|
            0 <= i < non_blank_turns(messages).len() ==> !is_blank_text(
                #[trigger] non_blank_turns(messages)[i].content,
            ),
    decreases messages.len(),
{
    if messages.len() > 0 {
        lemma_non_blank_turns_are_not_blank(messages.drop_last());
        let init = non_blank_turns(messages.drop_last());
        assert forall|i: int|
            0 <= i < non_blank_turns(messages).len() implies !is_blank_text(
            #[trigger] non_blank_turns(messages)[i].content,
        ) by {
            if i < init.len() {
                assert(non_blank_turns(messages)[i] == init[i]);
            }
        }
    }
}

/// A cancelled stream keeps what it had received: the stored answer starts
/// with the partial text and ends with the cancellation marker.
pub proof fn law_cancelled_answer_keeps_partial_text(error: Seq<char>, partial_text: Seq<char>)
    ensures
        ({
            let (content, code) = final_answer(Err(error), true, partial_text);
            &&& code == Some(CANCELLED_CODE@)
            &&& content.subrange(0, partial_text.len() as int) == partial_text
            &&& content.subrange(content.len() - CANCELLED_NOTE@.len(), content.len() as int)
                == CANCELLED_NOTE@
        }),
{
    let (content, code) = final_answer(Err(error), true, partial_text);
    if partial_text.len() == 0 {
        assert(content.subrange(0, 0) =~= partial_text);
        assert(content.subrange(0, content.len() as int) =~= content);
    } else {
        assert(content.subrange(0, partial_text.len() as int) =~= partial_text);
        assert(content.subrange(content.len() - CANCELLED_NOTE@.len(), content.len() as int)
            =~= CANCELLED_NOTE@);
    }
}

/// Decides what is stored as the answer and what error the last chunk
/// carries: the full text on success; on a cancelled stream, the text
/// received so far with a cancellation marker, and the error `cancelled`;
/// on any other failure, the error marked as such, and the error.
pub fn finalize_response(
    result: Result<String, String>,
    was_cancelled: bool,
    partial_text: &str,
) -> (r: (String, Option<String>))
    ensures
        (r.0@, opt_string_view(r.1)) == final_answer(
            string_result_view(result),
            was_cancelled,
            partial_text@,
        ),
{
    match result {
        Ok(full) => (full, None),
        Err(e) => if was_cancelled {
            let content = if partial_text.is_empty() {
                String::from_str(CANCELLED_NOTE)
            } else {
                let mut c = String::from_str(partial_text);
                c.append(PARAGRAPH_BREAK);
                c.append(CANCELLED_NOTE);
                c
            };
            (content, Some(String::from_str(CANCELLED_CODE)))
        } else {
            let content = error_with_detail(FAILURE_MARK, e.as_str());
            (content, Some(e))
        },
    }
}

impl ChatStreamChunk {
    /// A chunk carrying one fragment of the answer.
    pub fn delta(meeting_id: &str, message_id: &str, delta: &str) -> (r: Self)
        ensures
            r.meeting_id@ == meeting_id@,
            r.message_id@ == message_id@,
            r.delta@ == delta@,
            !r.done,
            r.error is None,
    {
        ChatStreamChunk {
            meeting_id: String::from_str(meeting_id),
            message_id: String::from_str(message_id),
            delta: String::from_str(delta),
            done: false,
            error: None,
        }
    }

    /// The last chunk of a stream, with no text and the stream's error, if any.
    pub fn done(meeting_id: &str, message_id: &str, error: Option<String>) -> (r: Self)
        ensures
            r.meeting_id@ == meeting_id@,
            r.message_id@ == message_id@,
            r.delta@ == Seq::<char>::empty(),
            r.done,
            r.error == error,
    {
        ChatStreamChunk {
            meeting_id: String::from_str(meeting_id),
            message_id: String::from_str(message_id),
            delta: String::new(),
            done: true,
            error,
        }
    }
}

} // verus!
