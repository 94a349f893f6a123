use meeting_chat::flow::{CustomEndpoint, ModelChoice, SendAction, SendFlow, SendPhase};
use meeting_chat::provider::LLMProvider;
use meeting_chat::repository::ChatMessageModel;

fn choice(provider: Result<LLMProvider, String>, name: &str) -> ModelChoice {
    ModelChoice {
        provider,
        provider_name: name.to_string(),
        model_name: "model-x".to_string(),
        ollama_endpoint: Some("http://ollama:1".to_string()),
    }
}

fn stored(id: &str, role: &str, content: &str) -> ChatMessageModel {
    ChatMessageModel {
        id: id.to_string(),
        meeting_id: "m1".to_string(),
        role: role.to_string(),
        content: content.to_string(),
        created_at: "2024-01-01T00:00:00+00:00".to_string(),
    }
}

fn fail_of(a: SendAction) -> (String, bool) {
    match a {
        SendAction::Fail { error, release_stream } => (error, release_stream),
        _ => panic!("expected a failure"),
    }
}

#[test]
fn send_flow_happy_path_with_api_key() {
    let (mut flow, a) = SendFlow::start("m1", "  What was decided? ", "Ann: ship it".to_string());
    assert!(matches!(a, SendAction::LoadModelConfig));
    let a = flow.on_model_config(Ok(Some(choice(Ok(LLMProvider::OpenAI), "openai"))));
    match a {
        SendAction::LoadApiKey { provider_name } => assert_eq!(provider_name, "openai"),
        _ => panic!("expected the key to be read"),
    }
    let a = flow.on_api_key(Ok(Some("sk-1".to_string())));
    match a {
        SendAction::RegisterStream { meeting_id } => assert_eq!(meeting_id, "m1"),
        _ => panic!("expected registration"),
    }
    let a = flow.on_registered(true);
    match a {
        SendAction::SaveUserMessage { meeting_id, role, content } => {
            assert_eq!(meeting_id, "m1");
            assert_eq!(role, "user");
            assert_eq!(content, "What was decided?");
        }
        _ => panic!("expected the message to be saved"),
    }
    assert!(matches!(flow.on_user_message_saved(Ok("chatmsg-u".to_string())), SendAction::LoadHistory { .. }));
    let history = vec![stored("1", "user", "What was decided?"), stored("2", "assistant", " ")];
    match flow.on_history(Ok(history)) {
        SendAction::CreateAssistantMessage { meeting_id, role, content } => {
            assert_eq!(meeting_id, "m1");
            assert_eq!(role, "assistant");
            assert_eq!(content, "");
        }
        _ => panic!("expected the answer's row to be created"),
    }
    match flow.on_assistant_created(Ok("chatmsg-a".to_string())) {
        SendAction::Start(job) => {
            assert_eq!(job.user_message_id, "chatmsg-u");
            assert_eq!(job.assistant_message_id, "chatmsg-a");
            assert_eq!(job.transcript, "Ann: ship it");
            assert_eq!(job.provider, LLMProvider::OpenAI);
            assert_eq!(job.api_key, "sk-1");
            assert_eq!(job.ollama_endpoint, None);
            assert_eq!(job.history.len(), 1);
            assert_eq!(job.model_name, "model-x");
        }
        _ => panic!("expected the answer to start"),
    }
    assert_eq!(flow.phase(), SendPhase::Finished);
}

#[test]
fn send_flow_saved_transcript_and_local_provider() {
    let (mut flow, a) = SendFlow::start("m2", "hi", "  \n".to_string());
    match a {
        SendAction::LoadSavedTranscript { meeting_id } => assert_eq!(meeting_id, "m2"),
        _ => panic!("expected the saved transcript to be read"),
    }
    assert!(matches!(flow.on_saved_transcript(Ok("Bo: hey".to_string())), SendAction::LoadModelConfig));
    let a = flow.on_model_config(Ok(Some(choice(Ok(LLMProvider::Ollama), "ollama"))));
    assert!(matches!(a, SendAction::RegisterStream { .. }));
    assert!(matches!(flow.on_registered(true), SendAction::SaveUserMessage { .. }));
    assert!(matches!(flow.on_user_message_saved(Ok("u".to_string())), SendAction::LoadHistory { .. }));
    assert!(matches!(flow.on_history(Ok(vec![])), SendAction::CreateAssistantMessage { .. }));
    match flow.on_assistant_created(Ok("a".to_string())) {
        SendAction::Start(job) => {
            assert_eq!(job.ollama_endpoint, Some("http://ollama:1".to_string()));
            assert_eq!(job.api_key, "");
            assert_eq!(job.transcript, "Bo: hey");
        }
        _ => panic!("expected the answer to start"),
    }
}

#[test]
fn send_flow_custom_provider() {
    let (mut flow, _) = SendFlow::start("m3", "q", "t".to_string());
    assert!(matches!(
        flow.on_model_config(Ok(Some(choice(Ok(LLMProvider::CustomOpenAI), "custom-openai")))),
        SendAction::LoadCustomConfig
    ));
    let cfg = CustomEndpoint { endpoint: "https://x/v1".to_string(), api_key: None, max_tokens: Some(64) };
    assert!(matches!(flow.on_custom_config(Ok(Some(cfg))), SendAction::RegisterStream { .. }));
    assert!(matches!(flow.on_registered(true), SendAction::SaveUserMessage { .. }));
    assert!(matches!(flow.on_user_message_saved(Ok("u".to_string())), SendAction::LoadHistory { .. }));
    assert!(matches!(flow.on_history(Ok(vec![])), SendAction::CreateAssistantMessage { .. }));
    match flow.on_assistant_created(Ok("a".to_string())) {
        SendAction::Start(job) => {
            assert_eq!(job.custom_endpoint, Some("https://x/v1".to_string()));
            assert_eq!(job.api_key, "");
            assert_eq!(job.max_tokens, Some(64));
        }
        _ => panic!("expected the answer to start"),
    }
    let (mut flow, _) = SendFlow::start("m3", "q", "t".to_string());
    flow.on_model_config(Ok(Some(choice(Ok(LLMProvider::CustomOpenAI), "custom-openai"))));
    assert_eq!(
        fail_of(flow.on_custom_config(Ok(None))),
        ("Custom OpenAI provider selected but no configuration found".to_string(), false)
    );
    let (mut flow, _) = SendFlow::start("m3", "q", "t".to_string());
    flow.on_model_config(Ok(Some(choice(Ok(LLMProvider::CustomOpenAI), "custom-openai"))));
    assert_eq!(
        fail_of(flow.on_custom_config(Err("locked".to_string()))),
        ("Failed to retrieve custom OpenAI config: locked".to_string(), false)
    );
}

#[test]
fn send_flow_failures_before_registration_keep_no_stream() {
    let (_, a) = SendFlow::start("m", "   ", "t".to_string());
    assert_eq!(fail_of(a), ("Message cannot be empty".to_string(), false));

    let (mut flow, _) = SendFlow::start("m", "q", "".to_string());
    assert_eq!(
        fail_of(flow.on_saved_transcript(Ok(" ".to_string()))),
        ("No transcript available for this meeting yet".to_string(), false)
    );
    let (mut flow, _) = SendFlow::start("m", "q", "".to_string());
    assert_eq!(
        fail_of(flow.on_saved_transcript(Err("no row".to_string()))),
        ("Failed to load transcript: no row".to_string(), false)
    );

    let (mut flow, _) = SendFlow::start("m", "q", "t".to_string());
    assert_eq!(
        fail_of(flow.on_model_config(Ok(None))),
        ("No AI model configured. Choose a model in settings.".to_string(), false)
    );
    let (mut flow, _) = SendFlow::start("m", "q", "t".to_string());
    assert_eq!(
        fail_of(flow.on_model_config(Err("io".to_string()))),
        ("Failed to load model config: io".to_string(), false)
    );
    let (mut flow, _) = SendFlow::start("m", "q", "t".to_string());
    assert_eq!(
        fail_of(flow.on_model_config(Ok(Some(choice(Err("Unsupported provider".to_string()), "x"))))),
        ("Unsupported provider".to_string(), false)
    );
    let (mut flow, _) = SendFlow::start("m", "q", "t".to_string());
    flow.on_model_config(Ok(Some(choice(Ok(LLMProvider::Claude), "anthropic"))));
    assert_eq!(
        fail_of(flow.on_api_key(Ok(None))),
        ("API key not found for anthropic".to_string(), false)
    );
    let (mut flow, _) = SendFlow::start("m", "q", "t".to_string());
    flow.on_model_config(Ok(Some(choice(Ok(LLMProvider::Groq), "groq"))));
    flow.on_api_key(Ok(Some("k".to_string())));
    assert_eq!(
        fail_of(flow.on_registered(false)),
        ("A chat response is already in progress for this meeting".to_string(), false)
    );
}

#[test]
fn send_flow_failures_after_registration_release_the_stream() {
    fn registered() -> SendFlow {
        let (mut flow, _) = SendFlow::start("m", "q", "t".to_string());
        flow.on_model_config(Ok(Some(choice(Ok(LLMProvider::BuiltInAI), "builtin-ai"))));
        flow.on_registered(true);
        flow
    }
    let mut flow = registered();
    assert_eq!(
        fail_of(flow.on_user_message_saved(Err("disk full".to_string()))),
        ("Failed to save chat message: disk full".to_string(), true)
    );
    let mut flow = registered();
    flow.on_user_message_saved(Ok("u".to_string()));
    assert_eq!(
        fail_of(flow.on_history(Err("gone".to_string()))),
        ("Failed to load chat history: gone".to_string(), true)
    );
    let mut flow = registered();
    flow.on_user_message_saved(Ok("u".to_string()));
    flow.on_history(Ok(vec![]));
    assert_eq!(
        fail_of(flow.on_assistant_created(Err("x".to_string()))),
        ("Failed to create assistant message: x".to_string(), true)
    );
    assert_eq!(flow.phase(), SendPhase::Finished);
}
