use vstd::prelude::*;
use crate::provider::{
    bearer_auth_value, chat_url, claude_max_tokens, is_claude_format, opt_str_view, resolve_chat_url,
    LLMProvider, BEARER_PREFIX, CLAUDE_MAX_TOKENS,
};
use crate::turns::{
    chat_request_messages, conversation_text, flatten_conversation, lemma_conversation_text_front,
    lemma_conversation_text_not_blank, request_turns, turn_paragraph, turns_view, ChatTurn, TurnView,
    ASSISTANT_LABEL, ASSISTANT_ROLE, LABEL_SEPARATOR, TURN_SEPARATOR, USER_LABEL,
};
use crate::text::{lemma_trim_end_of_append, opt_string_view, trim_end_ws};
use vstd::utf8::encode_utf8;

verus! {

/// Error when the stream is cancelled before it starts.
pub const CANCELLED_ERROR: &'static str = "Chat was cancelled";

/// Error when the built-in model is asked without its data directory.
pub const APP_DATA_DIR_MISSING: &'static str = "app_data_dir is required for BuiltInAI provider";

/// Error when the API key cannot be an HTTP header value.
pub const INVALID_API_KEY_ERROR: &'static str = "Invalid API key format";

/// Error when the `Authorization` value cannot be an HTTP header value.
pub const INVALID_AUTHORIZATION_ERROR: &'static str = "Invalid authorization header";

/// Error when the request gets no answer in time.
pub const REQUEST_TIMED_OUT_ERROR: &'static str = "Chat request timed out";

/// Prefix of the error when the request cannot be sent.
pub const SEND_FAILED_PREFIX: &'static str = "Failed to send chat request: ";

/// Prefix of the error when the provider answers with a failure status.
pub const REQUEST_FAILED_PREFIX: &'static str = "LLM API request failed: ";

/// What stands for the body of a failed answer that cannot be read.
pub const UNKNOWN_ERROR_BODY: &'static str = "Unknown error";

/// Prefix of the error when the answer's stream breaks off.
pub const STREAM_ERROR_PREFIX: &'static str = "Stream error: ";

/// The error for a request that could not be sent: a time-out has its own
/// message, any other failure is described by `detail`.
pub open spec fn send_failed_text(timed_out: bool, detail: Seq<char>) -> Seq<char> {
    if timed_out {
        REQUEST_TIMED_OUT_ERROR@
    } else {
        SEND_FAILED_PREFIX@ + detail
    }
}

/// The error for an answer with a failure status: the answer's body, or a
/// stand-in when the body could not be read.
pub open spec fn request_failed_text(body: Option<Seq<char>>) -> Seq<char> {
    REQUEST_FAILED_PREFIX@ + match body {
        Some(b) => b,
        None => UNKNOWN_ERROR_BODY@,
    }
}

/// The error for a request that could not be sent.
pub fn send_failed_error(timed_out: bool, detail: &str) -> (r: String)
    ensures
        r@ == send_failed_text(timed_out, detail@),
{
    if timed_out {
        String::from_str(REQUEST_TIMED_OUT_ERROR)
    } else {
        let mut s = String::from_str(SEND_FAILED_PREFIX);
        s.append(detail);
        s
    }
}

/// The error for an answer with a failure status, given its body when it
/// could be read.
pub fn request_failed_error(body: Option<String>) -> (r: String)
    ensures
        r@ == request_failed_text(opt_string_view(body)),
{
    let mut s = String::from_str(REQUEST_FAILED_PREFIX);
    match body {
        Some(b) => s.append(b.as_str()),
        None => s.append(UNKNOWN_ERROR_BODY),
    }
    s
}

/// A byte that an HTTP header value may hold: a tab, or any byte from the
/// space upwards except DEL.
pub open spec fn header_byte_ok(b: u8) -> bool {
    (b >= 32 && b != 127) || b == 9
}

/// Whether text, as UTF-8 bytes, can be an HTTP header value.
pub open spec fn header_text_ok(s: Seq<char>) -> bool {
    forall|i: int| 0 <= i < encode_utf8(s).len() ==> header_byte_ok(#[trigger] encode_utf8(s)[i])
}

/// Whether `s` can be an HTTP header value (the rule `HeaderValue::from_str`
/// of `http` applies): every byte of its UTF-8 encoding is allowed.
pub fn header_value_accepts(s: &str) -> (r: bool)
    ensures
        r == header_text_ok(s@),
{
    let bytes = s.as_bytes();
    let n = bytes.len();
    for i in 0..n
        invariant
            n == bytes@.len(),
            bytes@ == encode_utf8(s@),
            forall|k: int| 0 <= k < i ==> header_byte_ok(#[trigger] bytes@[k]),
    {
        let b = bytes[i];
        if !((b >= 32 && b != 127) || b == 9) {
            assert(!header_byte_ok(encode_utf8(s@)[i as int]));
            return false;
        }
    }
    true
}

/// An HTTP chat completion request, ready to be sent.
pub struct HttpChatRequest {
    /// Endpoint to post to.
    pub url: String,
    /// Value of the `Authorization` header, for providers that take one.
    pub authorization: Option<String>,
    /// Value of the `x-api-key` header, for Anthropic.
    pub api_key_header: Option<String>,
    /// Whether the body and the answer use Anthropic's format.
    pub is_claude: bool,
    /// The conversation turns of the body.
    pub messages: Vec<ChatTurn>,
    /// Answer length asked of Anthropic.
    pub claude_max_tokens: u32,
}

/// How a chat answer is to be produced.
pub enum ChatRoute {
    /// By the built-in model, from one flattened prompt.
    Builtin { user_prompt: String },
    /// By an HTTP provider.
    Http(HttpChatRequest),
}

/// The mathematical value of a planned request.
pub enum RouteView {
    Builtin { user_prompt: Seq<char> },
    Http {
        url: Seq<char>,
        authorization: Option<Seq<char>>,
        api_key_header: Option<Seq<char>>,
        is_claude: bool,
        messages: Seq<TurnView>,
        claude_max_tokens: u32,
    },
}

impl View for ChatRoute {
    type V = RouteView;

    open spec fn view(&self) -> RouteView {
        match self {
            ChatRoute::Builtin { user_prompt } => RouteView::Builtin { user_prompt: user_prompt@ },
            ChatRoute::Http(r) => RouteView::Http {
                url: r.url@,
                authorization: opt_string_view(r.authorization),
                api_key_header: opt_string_view(r.api_key_header),
                is_claude: r.is_claude,
                messages: turns_view(r.messages@),
                claude_max_tokens: r.claude_max_tokens,
            },
        }
    }
}

/// How a chat answer is produced, or why it cannot be: a cancelled stream
/// stops first; the built-in model needs its data directory and takes the
/// conversation flattened into one prompt; an HTTP provider needs an
/// endpoint, authenticates with a bearer header (Anthropic with
/// `x-api-key`) whose value must be a valid header value, and takes the
/// system prompt as a first turn (Anthropic as a separate field, with
/// same-role turns merged).
pub open spec fn chat_route(
    already_cancelled: bool,
    provider: LLMProvider,
    has_app_data_dir: bool,
    api_key: Seq<char>,
    system_prompt: Seq<char>,
    messages: Seq<TurnView>,
    ollama_endpoint: Option<Seq<char>>,
    custom_endpoint: Option<Seq<char>>,
    max_tokens: Option<u32>,
) -> Result<RouteView, Seq<char>> {
    if already_cancelled {
        Err(CANCELLED_ERROR@)
    } else if provider == LLMProvider::BuiltInAI {
        if has_app_data_dir {
            Ok(RouteView::Builtin { user_prompt: trim_end_ws(conversation_text(messages)) })
        } else {
            Err(APP_DATA_DIR_MISSING@)
        }
    } else {
        match chat_url(provider, ollama_endpoint, custom_endpoint) {
            Err(e) => Err(e),
            Ok(url) => {
                let is_claude = provider == LLMProvider::Claude;
                if is_claude && !header_text_ok(api_key) {
                    Err(INVALID_API_KEY_ERROR@)
                } else if !is_claude && !header_text_ok(BEARER_PREFIX@ + api_key) {
                    Err(INVALID_AUTHORIZATION_ERROR@)
                } else {
                Ok(
                    RouteView::Http {
                        url,
                        authorization: if is_claude {
                            None
                        } else {
                            Some(BEARER_PREFIX@ + api_key)
                        },
                        api_key_header: if is_claude {
                            Some(api_key)
                        } else {
                            None
                        },
                        is_claude,
                        messages: request_turns(is_claude, system_prompt, messages),
                        claude_max_tokens: match max_tokens {
                            Some(t) => t,
                            None => CLAUDE_MAX_TOKENS,
                        },
                    },
                )
                }
            },
        }
    }
}

/// The built-in model is sent the whole conversation: its prompt writes out
/// every turn, in order, as a `Label: content` paragraph. A conversation with
/// one more turn in front gets that turn's paragraph in front of the prompt
/// of the rest; one turn alone is its paragraph without the trailing blank
/// line; no turns give an empty prompt.
pub proof fn law_builtin_prompt_writes_every_turn(
    first: TurnView,
    rest: Seq<TurnView>,
    api_key: Seq<char>,
    system_prompt: Seq<char>,
    ollama_endpoint: Option<Seq<char>>,
    custom_endpoint: Option<Seq<char>>,
    max_tokens: Option<u32>,
)
    ensures
        turn_paragraph(first) == (if first.role == ASSISTANT_ROLE@ {
            ASSISTANT_LABEL@
        } else {
            USER_LABEL@
        }) + LABEL_SEPARATOR@ + first.content + TURN_SEPARATOR@,
        chat_route(false, LLMProvider::BuiltInAI, true, api_key, system_prompt, Seq::empty(),
            ollama_endpoint, custom_endpoint, max_tokens)
            == Ok::<RouteView, Seq<char>>(RouteView::Builtin { user_prompt: Seq::empty() }),
        chat_route(false, LLMProvider::BuiltInAI, true, api_key, system_prompt, seq![first],
            ollama_endpoint, custom_endpoint, max_tokens)
            == Ok::<RouteView, Seq<char>>(RouteView::Builtin { user_prompt: trim_end_ws(turn_paragraph(first)) }),
        rest.len() > 0 ==> match (
            chat_route(false, LLMProvider::BuiltInAI, true, api_key, system_prompt, seq![first] + rest,
                ollama_endpoint, custom_endpoint, max_tokens),
            chat_route(false, LLMProvider::BuiltInAI, true, api_key, system_prompt, rest,
                ollama_endpoint, custom_endpoint, max_tokens),
        ) {
            (Ok(RouteView::Builtin { user_prompt: p }), Ok(RouteView::Builtin { user_prompt: q })) =>
                p == turn_paragraph(first) + q,
            _ => false,
        },
{
    assert(conversation_text(Seq::<TurnView>::empty()) =~= Seq::<char>::empty());
    assert(trim_end_ws(Seq::<char>::empty()) =~= Seq::<char>::empty());
    lemma_conversation_text_front(first, Seq::empty());
    assert(seq![first] + Seq::<TurnView>::empty() =~= seq![first]);
    assert(turn_paragraph(first) + Seq::<char>::empty() =~= turn_paragraph(first));
    if rest.len() > 0 {
        lemma_conversation_text_front(first, rest);
        lemma_conversation_text_not_blank(rest);
        lemma_trim_end_of_append(turn_paragraph(first), conversation_text(rest));
    }
}

/// The view of a planned route or its error.
pub open spec fn route_result_view(r: Result<ChatRoute, String>) -> Result<RouteView, Seq<char>> {
    match r {
        Ok(x) => Ok(x@),
        Err(e) => Err(e@),
    }
}

/// Decides how a chat answer is produced (see [`chat_route`]).
pub fn plan_chat_request(
    already_cancelled: bool,
    provider: LLMProvider,
    has_app_data_dir: bool,
    api_key: &str,
    system_prompt: &str,
    messages: &[ChatTurn],
    ollama_endpoint: Option<&str>,
    custom_endpoint: Option<&str>,
    max_tokens: Option<u32>,
) -> (r: Result<ChatRoute, String>)
    ensures
        route_result_view(r) == chat_route(
            already_cancelled,
            provider,
            has_app_data_dir,
            api_key@,
            system_prompt@,
            turns_view(messages@),
            opt_str_view(ollama_endpoint),
            opt_str_view(custom_endpoint),
            max_tokens,
        ),
{
    if already_cancelled {
        return Err(String::from_str(CANCELLED_ERROR));
    }
    if provider == LLMProvider::BuiltInAI {
        if !has_app_data_dir {
            return Err(String::from_str(APP_DATA_DIR_MISSING));
        }
        return Ok(ChatRoute::Builtin { user_prompt: flatten_conversation(messages) });
    }
    let url = match resolve_chat_url(provider, ollama_endpoint, custom_endpoint) {
        Ok(u) => u,
        Err(e) => return Err(e),
    };
    let is_claude = is_claude_format(provider);
    if is_claude && !header_value_accepts(api_key) {
        return Err(String::from_str(INVALID_API_KEY_ERROR));
    }
    let authorization = if is_claude {
        None
    } else {
        let value = bearer_auth_value(api_key);
        if !header_value_accepts(value.as_str()) {
            return Err(String::from_str(INVALID_AUTHORIZATION_ERROR));
        }
        Some(value)
    };
    let api_key_header = if is_claude {
        Some(String::from_str(api_key))
    } else {
        None
    };
    let turns = chat_request_messages(is_claude, system_prompt, messages);
    Ok(
        ChatRoute::Http(
            HttpChatRequest {
                url,
                authorization,
                api_key_header,
                is_claude,
                messages: turns,
                claude_max_tokens: claude_max_tokens(max_tokens),
            },
        ),
    )
}

} // verus!
