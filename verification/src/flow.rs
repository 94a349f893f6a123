use vstd::prelude::*;
use crate::commands::{
    api_key_from_lookup, api_key_outcome, error_with_detail, history_turns, lookup_view,
    messages_view, ollama_endpoint_for, select_history, validate_message, CREATE_ASSISTANT_FAILED,
    CUSTOM_CONFIG_FAILED, CUSTOM_CONFIG_MISSING_ERROR, LOAD_HISTORY_FAILED, LOAD_MODEL_CONFIG_FAILED,
    LOAD_TRANSCRIPT_FAILED, NO_MODEL_ERROR, NO_TRANSCRIPT_ERROR, SAVE_MESSAGE_FAILED,
    STREAM_IN_PROGRESS_ERROR, EMPTY_MESSAGE_ERROR, USER_MESSAGE_ROLE, ASSISTANT_MESSAGE_ROLE,
};
use crate::provider::{provider_requires_api_key, LLMProvider};
use crate::repository::ChatMessageModel;
use crate::text::{is_blank, is_blank_text, law_trim_is_idempotent, opt_string_view, trim_ws};
use crate::turns::{turns_view, ChatTurn, TurnView};

verus! {

/// Where the sending of a chat message stands.
#[derive(Debug, Clone, Copy, PartialEq, Eq, Structural)]
pub enum SendPhase {
    /// Waiting for the saved transcript of the meeting.
    SavedTranscript,
    /// Waiting for the configured model.
    ModelConfig,
    /// Waiting for the provider's API key.
    ApiKey,
    /// Waiting for the custom provider's configuration.
    CustomConfig,
    /// Waiting to know whether the meeting's stream could be registered.
    Register,
    /// Waiting for the user's message to be stored.
    UserMessage,
    /// Waiting for the meeting's stored messages.
    History,
    /// Waiting for the assistant's (empty) message to be created.
    AssistantMessage,
    /// Done: the answer is streaming, or the request failed.
    Finished,
}

/// The configured model, as read from the settings.
pub struct ModelChoice {
    /// The provider the configured name stands for, or why it stands for none.
    pub provider: Result<LLMProvider, String>,
    pub provider_name: String,
    pub model_name: String,
    pub ollama_endpoint: Option<String>,
}

/// The configuration of a custom OpenAI-compatible provider (what the
/// decisions read of it).
pub struct CustomEndpoint {
    pub endpoint: String,
    pub api_key: Option<String>,
    pub max_tokens: Option<u32>,
}

/// Everything the answer stream needs, once both messages are stored.
pub struct ChatJob {
    pub meeting_id: String,
    pub user_message_id: String,
    pub assistant_message_id: String,
    pub transcript: String,
    pub provider: LLMProvider,
    pub model_name: String,
    pub api_key: String,
    pub ollama_endpoint: Option<String>,
    pub custom_endpoint: Option<String>,
    pub max_tokens: Option<u32>,
    pub history: Vec<ChatTurn>,
}

/// What the caller must do next.
pub enum SendAction {
    LoadSavedTranscript { meeting_id: String },
    LoadModelConfig,
    LoadApiKey { provider_name: String },
    LoadCustomConfig,
    RegisterStream { meeting_id: String },
    /// Store the user's message as a row with this role and content.
    SaveUserMessage { meeting_id: String, role: String, content: String },
    LoadHistory { meeting_id: String },
    /// Store the assistant's row, with this role and content, before its
    /// answer is known.
    CreateAssistantMessage { meeting_id: String, role: String, content: String },
    /// Return the ids to the frontend and stream the answer.
    Start(ChatJob),
    /// Return the error; first forget the meeting's stream when asked to.
    Fail { error: String, release_stream: bool },
}

/// The mathematical value of a [`ChatJob`].
pub struct JobView {
    pub meeting_id: Seq<char>,
    pub user_message_id: Seq<char>,
    pub assistant_message_id: Seq<char>,
    pub transcript: Seq<char>,
    pub provider: LLMProvider,
    pub model_name: Seq<char>,
    pub api_key: Seq<char>,
    pub ollama_endpoint: Option<Seq<char>>,
    pub custom_endpoint: Option<Seq<char>>,
    pub max_tokens: Option<u32>,
    pub history: Seq<TurnView>,
}

impl View for ChatJob {
    type V = JobView;

    open spec fn view(&self) -> JobView {
        JobView {
            meeting_id: self.meeting_id@,
            user_message_id: self.user_message_id@,
            assistant_message_id: self.assistant_message_id@,
            transcript: self.transcript@,
            provider: self.provider,
            model_name: self.model_name@,
            api_key: self.api_key@,
            ollama_endpoint: opt_string_view(self.ollama_endpoint),
            custom_endpoint: opt_string_view(self.custom_endpoint),
            max_tokens: self.max_tokens,
            history: turns_view(self.history@),
        }
    }
}

/// The mathematical value of a [`SendAction`].
pub enum ActionView {
    LoadSavedTranscript { meeting_id: Seq<char> },
    LoadModelConfig,
    LoadApiKey { provider_name: Seq<char> },
    LoadCustomConfig,
    RegisterStream { meeting_id: Seq<char> },
    SaveUserMessage { meeting_id: Seq<char>, role: Seq<char>, content: Seq<char> },
    LoadHistory { meeting_id: Seq<char> },
    CreateAssistantMessage { meeting_id: Seq<char>, role: Seq<char>, content: Seq<char> },
    Start(JobView),
    Fail { error: Seq<char>, release_stream: bool },
}

impl View for SendAction {
    type V = ActionView;

    open spec fn view(&self) -> ActionView {
        match self {
            SendAction::LoadSavedTranscript { meeting_id } => ActionView::LoadSavedTranscript {
                meeting_id: meeting_id@,
            },
            SendAction::LoadModelConfig => ActionView::LoadModelConfig,
            SendAction::LoadApiKey { provider_name } => ActionView::LoadApiKey {
                provider_name: provider_name@,
            },
            SendAction::LoadCustomConfig => ActionView::LoadCustomConfig,
            SendAction::RegisterStream { meeting_id } => ActionView::RegisterStream {
                meeting_id: meeting_id@,
            },
            SendAction::SaveUserMessage { meeting_id, role, content } => ActionView::SaveUserMessage {
                meeting_id: meeting_id@,
                role: role@,
                content: content@,
            },
            SendAction::LoadHistory { meeting_id } => ActionView::LoadHistory {
                meeting_id: meeting_id@,
            },
            SendAction::CreateAssistantMessage { meeting_id, role, content } =>
                ActionView::CreateAssistantMessage {
                meeting_id: meeting_id@,
                role: role@,
                content: content@,
            },
            SendAction::Start(job) => ActionView::Start(job@),
            SendAction::Fail { error, release_stream } => ActionView::Fail {
                error: error@,
                release_stream: *release_stream,
            },
        }
    }
}

/// The sending of one chat message: the decisions of the send command,
/// fed with the outcome of each step it asks the caller to perform.
pub struct SendFlow {
    phase: SendPhase,
    meeting_id: String,
    message: String,
    transcript: String,
    provider: LLMProvider,
    provider_name: String,
    model_name: String,
    ollama_endpoint: Option<String>,
    api_key: String,
    custom_endpoint: Option<String>,
    max_tokens: Option<u32>,
    user_message_id: String,
    history: Vec<ChatTurn>,
}

/// The mathematical value of a [`SendFlow`].
pub struct FlowView {
    pub phase: SendPhase,
    pub meeting_id: Seq<char>,
    pub message: Seq<char>,
    pub transcript: Seq<char>,
    pub provider: LLMProvider,
    pub provider_name: Seq<char>,
    pub model_name: Seq<char>,
    pub ollama_endpoint: Option<Seq<char>>,
    pub api_key: Seq<char>,
    pub custom_endpoint: Option<Seq<char>>,
    pub max_tokens: Option<u32>,
    pub user_message_id: Seq<char>,
    pub history: Seq<TurnView>,
}

impl View for SendFlow {
    type V = FlowView;

    closed spec fn view(&self) -> FlowView {
        FlowView {
            phase: self.phase,
            meeting_id: self.meeting_id@,
            message: self.message@,
            transcript: self.transcript@,
            provider: self.provider,
            provider_name: self.provider_name@,
            model_name: self.model_name@,
            ollama_endpoint: opt_string_view(self.ollama_endpoint),
            api_key: self.api_key@,
            custom_endpoint: opt_string_view(self.custom_endpoint),
            max_tokens: self.max_tokens,
            user_message_id: self.user_message_id@,
            history: turns_view(self.history@),
        }
    }
}

/// Whether the meeting's stream is registered while the flow is in `phase`.
pub open spec fn stream_registered(phase: SendPhase) -> bool {
    phase == SendPhase::UserMessage || phase == SendPhase::History || phase
        == SendPhase::AssistantMessage
}

/// What a flow knows in each phase: the message is non-blank; once the
/// transcript is known it is non-blank too.
pub open spec fn flow_inv(f: FlowView) -> bool {
    &&& f.phase != SendPhase::Finished ==> !is_blank_text(f.message)
    &&& (f.phase != SendPhase::Finished && f.phase != SendPhase::SavedTranscript) ==> !is_blank_text(
        f.transcript,
    )
}

/// The failure of a flow in `phase`: the error, and the release of the
/// stream exactly when it was registered.
pub open spec fn fails_with(a: ActionView, phase: SendPhase, error: Seq<char>) -> bool {
    a == ActionView::Fail { error, release_stream: stream_registered(phase) }
}

/// The step after the model is known and, when needed, its key: the custom
/// provider's configuration, or the registration of the stream.
pub open spec fn after_key(f: FlowView) -> (SendPhase, ActionView) {
    if f.provider == LLMProvider::CustomOpenAI {
        (SendPhase::CustomConfig, ActionView::LoadCustomConfig)
    } else {
        (SendPhase::Register, ActionView::RegisterStream { meeting_id: f.meeting_id })
    }
}

/// Whether an action ends the flow.
pub open spec fn is_final(a: ActionView) -> bool {
    a is Start || a is Fail
}

fn fail(error: String, phase: SendPhase) -> (r: SendAction)
    ensures
        r@ == (ActionView::Fail { error: error@, release_stream: stream_registered(phase) }),
{
    let release = phase == SendPhase::UserMessage || phase == SendPhase::History || phase
        == SendPhase::AssistantMessage;
    SendAction::Fail { error, release_stream: release }
}

impl SendFlow {
    /// Where the flow stands.
    pub fn phase(&self) -> (r: SendPhase)
        ensures
            r == self@.phase,
    {
        self.phase
    }

    /// Starts sending `message` for a meeting: the message must not be
    /// blank; a blank transcript from the frontend is replaced by the saved
    /// one, else the model configuration is read next.
    pub fn start(meeting_id: &str, message: &str, transcript_text: String) -> (r: (Self, SendAction))
        ensures
            flow_inv(r.0@),
            r.0@.meeting_id == meeting_id@,
            r.0@.ollama_endpoint is None,
            r.0@.api_key == Seq::<char>::empty(),
            r.0@.custom_endpoint is None,
            r.0@.max_tokens is None,
            r.0@.user_message_id == Seq::<char>::empty(),
            r.0@.history == Seq::<TurnView>::empty(),
            trim_ws(message@).len() == 0 ==> r.0@.phase == SendPhase::Finished && r.1@
                == (ActionView::Fail { error: EMPTY_MESSAGE_ERROR@, release_stream: false }),
            trim_ws(message@).len() > 0 ==> r.0@.message == trim_ws(message@),
            trim_ws(message@).len() > 0 && is_blank_text(transcript_text@) ==> r.0@.phase
                == SendPhase::SavedTranscript && r.1@ == (ActionView::LoadSavedTranscript {
                meeting_id: meeting_id@,
            }),
            trim_ws(message@).len() > 0 && !is_blank_text(transcript_text@) ==> r.0@.phase
                == SendPhase::ModelConfig && r.1@ == ActionView::LoadModelConfig && r.0@.transcript
                == transcript_text@,
    {
        let mut flow = SendFlow {
            phase: SendPhase::Finished,
            meeting_id: String::from_str(meeting_id),
            message: String::new(),
            transcript: String::new(),
            provider: LLMProvider::OpenAI,
            provider_name: String::new(),
            model_name: String::new(),
            ollama_endpoint: None,
            api_key: String::new(),
            custom_endpoint: None,
            max_tokens: None,
            user_message_id: String::new(),
            history: Vec::new(),
        };
        let old_message = message;
        let message = match validate_message(message) {
            Ok(m) => m,
            Err(e) => {
                return (flow, SendAction::Fail { error: e, release_stream: false });
            },
        };
        proof {
            assert(!is_blank_text(message@)) by {
                law_trim_is_idempotent(old_message@);
            }
        }
        flow.message = message;
        if is_blank(transcript_text.as_str()) {
            flow.phase = SendPhase::SavedTranscript;
            (flow, SendAction::LoadSavedTranscript { meeting_id: String::from_str(meeting_id) })
        } else {
            flow.transcript = transcript_text;
            flow.phase = SendPhase::ModelConfig;
            (flow, SendAction::LoadModelConfig)
        }
    }

    /// The saved transcript was read (or could not be): a blank one ends the
    /// flow, as does a failed read.
    pub fn on_saved_transcript(&mut self, result: Result<String, String>) -> (r: SendAction)
        requires
            old(self)@.phase == SendPhase::SavedTranscript,
            flow_inv(old(self)@),
        ensures
            flow_inv(final(self)@),
            match result {
                Err(e) => final(self)@.phase == SendPhase::Finished && fails_with(
                    r@,
                    old(self)@.phase,
                    LOAD_TRANSCRIPT_FAILED@ + e@,
                ),
                Ok(t) => if is_blank_text(t@) {
                    final(self)@.phase == SendPhase::Finished && fails_with(
                        r@,
                        old(self)@.phase,
                        NO_TRANSCRIPT_ERROR@,
                    )
                } else {
                    final(self)@ == (FlowView {
                        phase: SendPhase::ModelConfig,
                        transcript: t@,
                        ..old(self)@
                    }) && r@ == ActionView::LoadModelConfig
                },
            },
    {
        match result {
            Err(e) => {
                self.phase = SendPhase::Finished;
                fail(error_with_detail(LOAD_TRANSCRIPT_FAILED, e.as_str()), SendPhase::SavedTranscript)
            },
            Ok(t) => {
                if is_blank(t.as_str()) {
                    self.phase = SendPhase::Finished;
                    fail(String::from_str(NO_TRANSCRIPT_ERROR), SendPhase::SavedTranscript)
                } else {
                    self.transcript = t;
                    self.phase = SendPhase::ModelConfig;
                    SendAction::LoadModelConfig
                }
            },
        }
    }

    fn next_after_key(&mut self) -> (r: SendAction)
        ensures
            final(self)@ == (FlowView { phase: after_key(old(self)@).0, ..old(self)@ }),
            r@ == after_key(old(self)@).1,
    {
        if self.provider == LLMProvider::CustomOpenAI {
            self.phase = SendPhase::CustomConfig;
            SendAction::LoadCustomConfig
        } else {
            self.phase = SendPhase::Register;
            SendAction::RegisterStream { meeting_id: self.meeting_id.clone() }
        }
    }

    /// The model configuration was read: without one, or with a provider
    /// name that stands for no provider, the flow ends; else the provider's
    /// API key is read when it needs one.
    pub fn on_model_config(&mut self, result: Result<Option<ModelChoice>, String>) -> (r:
        SendAction)
        requires
            old(self)@.phase == SendPhase::ModelConfig,
            flow_inv(old(self)@),
        ensures
            flow_inv(final(self)@),
            match result {
                Err(e) => final(self)@.phase == SendPhase::Finished && fails_with(
                    r@,
                    old(self)@.phase,
                    LOAD_MODEL_CONFIG_FAILED@ + e@,
                ),
                Ok(None) => final(self)@.phase == SendPhase::Finished && fails_with(
                    r@,
                    old(self)@.phase,
                    NO_MODEL_ERROR@,
                ),
                Ok(Some(choice)) => match choice.provider {
                    Err(e) => final(self)@.phase == SendPhase::Finished && fails_with(
                        r@,
                        old(self)@.phase,
                        e@,
                    ),
                    Ok(p) => {
                        &&& final(self)@ == (FlowView {
                            phase: final(self)@.phase,
                            provider: p,
                            provider_name: choice.provider_name@,
                            model_name: choice.model_name@,
                            ollama_endpoint: if p == LLMProvider::Ollama {
                                opt_string_view(choice.ollama_endpoint)
                            } else {
                                None
                            },
                            api_key: Seq::<char>::empty(),
                            ..old(self)@
                        })
                        &&& if !(p == LLMProvider::Ollama || p == LLMProvider::BuiltInAI || p
                            == LLMProvider::CustomOpenAI) {
                            final(self)@.phase == SendPhase::ApiKey && r@ == (ActionView::LoadApiKey {
                                provider_name: choice.provider_name@,
                            })
                        } else {
                            (final(self)@.phase, r@) == after_key(final(self)@)
                        }
                    },
                },
            },
    {
        match result {
            Err(e) => {
                self.phase = SendPhase::Finished;
                fail(error_with_detail(LOAD_MODEL_CONFIG_FAILED, e.as_str()), SendPhase::ModelConfig)
            },
            Ok(None) => {
                self.phase = SendPhase::Finished;
                fail(String::from_str(NO_MODEL_ERROR), SendPhase::ModelConfig)
            },
            Ok(Some(choice)) => match choice.provider {
                Err(e) => {
                    self.phase = SendPhase::Finished;
                    fail(e, SendPhase::ModelConfig)
                },
                Ok(p) => {
                    self.provider = p;
                    self.provider_name = choice.provider_name;
                    self.model_name = choice.model_name;
                    self.ollama_endpoint = ollama_endpoint_for(p, choice.ollama_endpoint);
                    self.api_key = String::new();
                    if provider_requires_api_key(p) {
                        self.phase = SendPhase::ApiKey;
                        SendAction::LoadApiKey { provider_name: self.provider_name.clone() }
                    } else {
                        self.next_after_key()
                    }
                },
            },
        }
    }

    /// The provider's API key was read: a stored non-empty key is kept,
    /// otherwise the flow ends naming the provider.
    pub fn on_api_key(&mut self, lookup: Result<Option<String>, String>) -> (r: SendAction)
        requires
            old(self)@.phase == SendPhase::ApiKey,
            flow_inv(old(self)@),
        ensures
            flow_inv(final(self)@),
            match api_key_outcome(old(self)@.provider_name, lookup_view(lookup)) {
                Err(e) => final(self)@.phase == SendPhase::Finished && fails_with(
                    r@,
                    old(self)@.phase,
                    e,
                ),
                Ok(k) => final(self)@ == (FlowView {
                    phase: after_key(old(self)@).0,
                    api_key: k,
                    ..old(self)@
                }) && r@ == after_key(old(self)@).1,
            },
    {
        match api_key_from_lookup(self.provider_name.as_str(), lookup) {
            Err(e) => {
                self.phase = SendPhase::Finished;
                fail(e, SendPhase::ApiKey)
            },
            Ok(k) => {
                self.api_key = k;
                self.next_after_key()
            },
        }
    }

    /// The custom provider's configuration was read: its endpoint, key (none
    /// gives an empty key) and answer length are kept; without one the flow
    /// ends.
    pub fn on_custom_config(&mut self, result: Result<Option<CustomEndpoint>, String>) -> (r:
        SendAction)
        requires
            old(self)@.phase == SendPhase::CustomConfig,
            flow_inv(old(self)@),
        ensures
            flow_inv(final(self)@),
            match result {
                Err(e) => final(self)@.phase == SendPhase::Finished && fails_with(
                    r@,
                    old(self)@.phase,
                    CUSTOM_CONFIG_FAILED@ + e@,
                ),
                Ok(None) => final(self)@.phase == SendPhase::Finished && fails_with(
                    r@,
                    old(self)@.phase,
                    CUSTOM_CONFIG_MISSING_ERROR@,
                ),
                Ok(Some(c)) => final(self)@ == (FlowView {
                    phase: SendPhase::Register,
                    custom_endpoint: Some(c.endpoint@),
                    api_key: match c.api_key {
                        Some(k) => k@,
                        None => Seq::<char>::empty(),
                    },
                    max_tokens: c.max_tokens,
                    ..old(self)@
                }) && r@ == (ActionView::RegisterStream { meeting_id: old(self)@.meeting_id }),
            },
    {
        match result {
            Err(e) => {
                self.phase = SendPhase::Finished;
                fail(error_with_detail(CUSTOM_CONFIG_FAILED, e.as_str()), SendPhase::CustomConfig)
            },
            Ok(None) => {
                self.phase = SendPhase::Finished;
                fail(String::from_str(CUSTOM_CONFIG_MISSING_ERROR), SendPhase::CustomConfig)
            },
            Ok(Some(c)) => {
                self.custom_endpoint = Some(c.endpoint);
                self.api_key = match c.api_key {
                    Some(k) => k,
                    None => String::new(),
                };
                self.max_tokens = c.max_tokens;
                self.phase = SendPhase::Register;
                SendAction::RegisterStream { meeting_id: self.meeting_id.clone() }
            },
        }
    }

    /// The meeting's stream was registered, or refused because one is in
    /// progress: then the flow ends; else the user's message is stored.
    pub fn on_registered(&mut self, registered: bool) -> (r: SendAction)
        requires
            old(self)@.phase == SendPhase::Register,
            flow_inv(old(self)@),
        ensures
            flow_inv(final(self)@),
            !registered ==> final(self)@.phase == SendPhase::Finished && fails_with(
                r@,
                old(self)@.phase,
                STREAM_IN_PROGRESS_ERROR@,
            ),
            registered ==> final(self)@ == (FlowView { phase: SendPhase::UserMessage, ..old(self)@ })
                && r@ == (ActionView::SaveUserMessage {
                meeting_id: old(self)@.meeting_id,
                role: USER_MESSAGE_ROLE@,
                content: old(self)@.message,
            }),
    {
        if !registered {
            self.phase = SendPhase::Finished;
            return fail(String::from_str(STREAM_IN_PROGRESS_ERROR), SendPhase::Register);
        }
        self.phase = SendPhase::UserMessage;
        SendAction::SaveUserMessage {
            meeting_id: self.meeting_id.clone(),
            role: String::from_str(USER_MESSAGE_ROLE),
            content: self.message.clone(),
        }
    }

    /// The user's message was stored (with its id), or could not be: then
    /// the flow ends and the stream is released; else the history is read.
    pub fn on_user_message_saved(&mut self, result: Result<String, String>) -> (r: SendAction)
        requires
            old(self)@.phase == SendPhase::UserMessage,
            flow_inv(old(self)@),
        ensures
            flow_inv(final(self)@),
            match result {
                Err(e) => final(self)@.phase == SendPhase::Finished && fails_with(
                    r@,
                    old(self)@.phase,
                    SAVE_MESSAGE_FAILED@ + e@,
                ),
                Ok(id) => final(self)@ == (FlowView {
                    phase: SendPhase::History,
                    user_message_id: id@,
                    ..old(self)@
                }) && r@ == (ActionView::LoadHistory { meeting_id: old(self)@.meeting_id }),
            },
    {
        match result {
            Err(e) => {
                self.phase = SendPhase::Finished;
                fail(error_with_detail(SAVE_MESSAGE_FAILED, e.as_str()), SendPhase::UserMessage)
            },
            Ok(id) => {
                self.user_message_id = id;
                self.phase = SendPhase::History;
                SendAction::LoadHistory { meeting_id: self.meeting_id.clone() }
            },
        }
    }

    /// The meeting's messages were read, oldest first, or could not be: then
    /// the flow ends and the stream is released; else the history is taken
    /// from them and the assistant's message is created.
    pub fn on_history(&mut self, result: Result<Vec<ChatMessageModel>, String>) -> (r: SendAction)
        requires
            old(self)@.phase == SendPhase::History,
            flow_inv(old(self)@),
        ensures
            flow_inv(final(self)@),
            match result {
                Err(e) => final(self)@.phase == SendPhase::Finished && fails_with(
                    r@,
                    old(self)@.phase,
                    LOAD_HISTORY_FAILED@ + e@,
                ),
                Ok(ms) => final(self)@ == (FlowView {
                    phase: SendPhase::AssistantMessage,
                    history: history_turns(messages_view(ms@)),
                    ..old(self)@
                }) && r@ == (ActionView::CreateAssistantMessage {
                    meeting_id: old(self)@.meeting_id,
                    role: ASSISTANT_MESSAGE_ROLE@,
                    content: Seq::<char>::empty(),
                }),
            },
    {
        match result {
            Err(e) => {
                self.phase = SendPhase::Finished;
                fail(error_with_detail(LOAD_HISTORY_FAILED, e.as_str()), SendPhase::History)
            },
            Ok(ms) => {
                self.history = select_history(ms.as_slice());
                self.phase = SendPhase::AssistantMessage;
                SendAction::CreateAssistantMessage {
                    meeting_id: self.meeting_id.clone(),
                    role: String::from_str(ASSISTANT_MESSAGE_ROLE),
                    content: String::new(),
                }
            },
        }
    }

    /// The assistant's message was created (with its id), or could not be:
    /// then the flow ends and the stream is released; else the answer starts
    /// with everything gathered.
    pub fn on_assistant_created(&mut self, result: Result<String, String>) -> (r: SendAction)
        requires
            old(self)@.phase == SendPhase::AssistantMessage,
            flow_inv(old(self)@),
        ensures
            final(self)@.phase == SendPhase::Finished,
            match result {
                Err(e) => fails_with(r@, old(self)@.phase, CREATE_ASSISTANT_FAILED@ + e@),
                Ok(id) => r@ == ActionView::Start(
                    JobView {
                        meeting_id: old(self)@.meeting_id,
                        user_message_id: old(self)@.user_message_id,
                        assistant_message_id: id@,
                        transcript: old(self)@.transcript,
                        provider: old(self)@.provider,
                        model_name: old(self)@.model_name,
                        api_key: old(self)@.api_key,
                        ollama_endpoint: old(self)@.ollama_endpoint,
                        custom_endpoint: old(self)@.custom_endpoint,
                        max_tokens: old(self)@.max_tokens,
                        history: old(self)@.history,
                    },
                ),
            },
    {
        self.phase = SendPhase::Finished;
        match result {
            Err(e) => fail(error_with_detail(CREATE_ASSISTANT_FAILED, e.as_str()), SendPhase::AssistantMessage),
            Ok(id) => {
                let mut history: Vec<ChatTurn> = Vec::new();
                std::mem::swap(&mut history, &mut self.history);
                SendAction::Start(
                    ChatJob {
                        meeting_id: self.meeting_id.clone(),
                        user_message_id: self.user_message_id.clone(),
                        assistant_message_id: id,
                        transcript: self.transcript.clone(),
                        provider: self.provider,
                        model_name: self.model_name.clone(),
                        api_key: self.api_key.clone(),
                        ollama_endpoint: self.ollama_endpoint.clone(),
                        custom_endpoint: self.custom_endpoint.clone(),
                        max_tokens: self.max_tokens,
                        history,
                    },
                )
            },
        }
    }
}

} // verus!
