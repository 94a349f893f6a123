use vstd::prelude::*;
use crate::text::{trim_end_slashes, trim_end_slashes_str};

verus! {

/// The model providers a chat can be answered by.
#[derive(Debug, Clone, Copy, PartialEq, Eq, Structural)]
pub enum LLMProvider {
    OpenAI,
    Claude,
    Groq,
    Ollama,
    OpenRouter,
    BuiltInAI,
    CustomOpenAI,
}

/// Chat completions endpoint of OpenAI.
pub const OPENAI_CHAT_URL: &'static str = "https://api.openai.com/v1/chat/completions";

/// Chat completions endpoint of Groq.
pub const GROQ_CHAT_URL: &'static str = "https://api.groq.com/openai/v1/chat/completions";

/// Chat completions endpoint of OpenRouter.
pub const OPENROUTER_CHAT_URL: &'static str = "https://openrouter.ai/api/v1/chat/completions";

/// Messages endpoint of Anthropic.
pub const CLAUDE_MESSAGES_URL: &'static str = "https://api.anthropic.com/v1/messages";

/// Where a local Ollama server listens unless configured otherwise.
pub const OLLAMA_DEFAULT_HOST: &'static str = "http://localhost:11434";

/// Path of the OpenAI-compatible chat endpoint on an Ollama host.
pub const OLLAMA_CHAT_PATH: &'static str = "/v1/chat/completions";

/// Path of the chat endpoint below a custom OpenAI-compatible base URL.
pub const CUSTOM_CHAT_PATH: &'static str = "/chat/completions";

/// Error when a custom OpenAI-compatible provider has no endpoint.
pub const CUSTOM_ENDPOINT_MISSING: &'static str = "Custom OpenAI endpoint not configured";

/// Scheme of the `Authorization` header value.
pub const BEARER_PREFIX: &'static str = "Bearer ";

/// Value of the `anthropic-version` header.
pub const ANTHROPIC_VERSION: &'static str = "2023-06-01";

/// Answer length asked of Anthropic when none is configured.
pub const CLAUDE_MAX_TOKENS: u32 = 2048u32;

/// Transcript character budget for cloud providers with large contexts.
pub const CLOUD_TRANSCRIPT_CHAR_BUDGET: usize = 120_000usize;

/// Fallback transcript character budget for local models of unknown context.
pub const LOCAL_FALLBACK_CHAR_BUDGET: usize = 12_000usize;

/// Tokens kept free for the question, the history and the answer.
pub const RESERVED_CONTEXT_TOKENS: usize = 1000usize;

/// Characters counted per token.
pub const CHARS_PER_TOKEN: usize = 4usize;

/// The chat endpoint of a provider, or the error when it has none.
pub open spec fn chat_url(
    provider: LLMProvider,
    ollama_endpoint: Option<Seq<char>>,
    custom_endpoint: Option<Seq<char>>,
) -> Result<Seq<char>, Seq<char>> {
    match provider {
        LLMProvider::OpenAI => Ok(OPENAI_CHAT_URL@),
        LLMProvider::Groq => Ok(GROQ_CHAT_URL@),
        LLMProvider::OpenRouter => Ok(OPENROUTER_CHAT_URL@),
        LLMProvider::Claude => Ok(CLAUDE_MESSAGES_URL@),
        LLMProvider::Ollama => Ok(
            match ollama_endpoint {
                Some(host) => host,
                None => OLLAMA_DEFAULT_HOST@,
            } + OLLAMA_CHAT_PATH@,
        ),
        LLMProvider::CustomOpenAI => match custom_endpoint {
            Some(base) => Ok(trim_end_slashes(base) + CUSTOM_CHAT_PATH@),
            None => Err(CUSTOM_ENDPOINT_MISSING@),
        },
        LLMProvider::BuiltInAI => Err(Seq::empty()),
    }
}

/// The view of an optional string slice.
pub open spec fn opt_str_view(s: Option<&str>) -> Option<Seq<char>> {
    match s {
        Some(x) => Some(x@),
        None => None,
    }
}

/// The view of a string result.
pub open spec fn result_view(r: Result<String, String>) -> Result<Seq<char>, Seq<char>> {
    match r {
        Ok(x) => Ok(x@),
        Err(e) => Err(e@),
    }
}

/// Resolves the chat endpoint of an HTTP provider: a fixed URL for the cloud
/// providers, the configured (or local default) host for Ollama, and the
/// configured base URL without trailing slashes for a custom provider, which
/// must have one.
pub fn resolve_chat_url(
    provider: LLMProvider,
    ollama_endpoint: Option<&str>,
    custom_endpoint: Option<&str>,
) -> (r: Result<String, String>)
    requires
        provider != LLMProvider::BuiltInAI,
    ensures
        result_view(r) == chat_url(provider, opt_str_view(ollama_endpoint), opt_str_view(custom_endpoint)),
{
    match provider {
        LLMProvider::OpenAI => Ok(String::from_str(OPENAI_CHAT_URL)),
        LLMProvider::Groq => Ok(String::from_str(GROQ_CHAT_URL)),
        LLMProvider::OpenRouter => Ok(String::from_str(OPENROUTER_CHAT_URL)),
        LLMProvider::Claude => Ok(String::from_str(CLAUDE_MESSAGES_URL)),
        LLMProvider::Ollama => {
            let mut url = match ollama_endpoint {
                Some(host) => String::from_str(host),
                None => String::from_str(OLLAMA_DEFAULT_HOST),
            };
            url.append(OLLAMA_CHAT_PATH);
            Ok(url)
        },
        LLMProvider::CustomOpenAI => match custom_endpoint {
            Some(base) => {
                let mut url = String::from_str(trim_end_slashes_str(base));
                url.append(CUSTOM_CHAT_PATH);
                Ok(url)
            },
            None => Err(String::from_str(CUSTOM_ENDPOINT_MISSING)),
        },
        LLMProvider::BuiltInAI => Err(String::new()),
    }
}

/// The `Authorization` header value for an API key.
pub fn bearer_auth_value(api_key: &str) -> (r: String)
    ensures
        r@ == BEARER_PREFIX@ + api_key@,
{
    let mut value = String::from_str(BEARER_PREFIX);
    value.append(api_key);
    value
}

/// The answer length asked of Anthropic: the configured one, or the default.
pub fn claude_max_tokens(max_tokens: Option<u32>) -> (r: u32)
    ensures
        r == match max_tokens {
            Some(t) => t,
            None => CLAUDE_MAX_TOKENS,
        },
{
    match max_tokens {
        Some(t) => t,
        None => CLAUDE_MAX_TOKENS,
    }
}

/// Whether the provider answers with Anthropic's event format.
pub fn is_claude_format(provider: LLMProvider) -> (r: bool)
    ensures
        r == (provider == LLMProvider::Claude),
{
    provider == LLMProvider::Claude
}

/// Whether the provider needs an API key from the settings (local and
/// custom providers do not).
pub fn provider_requires_api_key(provider: LLMProvider) -> (r: bool)
    ensures
        r == !(provider == LLMProvider::Ollama || provider == LLMProvider::BuiltInAI || provider
            == LLMProvider::CustomOpenAI),
{
    !(provider == LLMProvider::Ollama || provider == LLMProvider::BuiltInAI || provider
        == LLMProvider::CustomOpenAI)
}

/// The character budget that a context of `context_size` tokens leaves for
/// the transcript: the tokens beyond the reserve, four characters each,
/// saturating at both ends.
pub open spec fn budget_for_context(context_size: nat) -> nat {
    let free = if context_size >= RESERVED_CONTEXT_TOKENS { (context_size
        - RESERVED_CONTEXT_TOKENS) as nat } else { 0 };
    if free * CHARS_PER_TOKEN <= usize::MAX {
        (free * CHARS_PER_TOKEN) as nat
    } else {
        usize::MAX as nat
    }
}

/// The transcript character budget of a provider. `context_size` is the
/// model's context in tokens when it is known (for Ollama, what its metadata
/// reported; for the built-in model, its catalogue entry); the other
/// providers get the cloud budget.
pub open spec fn transcript_budget(provider: LLMProvider, context_size: Option<usize>) -> nat {
    match provider {
        LLMProvider::Ollama | LLMProvider::BuiltInAI => match context_size {
            Some(c) => budget_for_context(c as nat),
            None => LOCAL_FALLBACK_CHAR_BUDGET as nat,
        },
        _ => CLOUD_TRANSCRIPT_CHAR_BUDGET as nat,
    }
}

/// Whether the transcript budget of the provider depends on its model's
/// context size (local models), which must then be looked up.
pub fn uses_model_context(provider: LLMProvider) -> (r: bool)
    ensures
        r == (provider == LLMProvider::Ollama || provider == LLMProvider::BuiltInAI),
        !r ==> forall|c: Option<usize>| #[trigger] transcript_budget(provider, c)
            == CLOUD_TRANSCRIPT_CHAR_BUDGET as nat,
{
    provider == LLMProvider::Ollama || provider == LLMProvider::BuiltInAI
}

/// The transcript character budget for a context of `context_size` tokens.
pub fn char_budget_for_context(context_size: usize) -> (r: usize)
    ensures
        r == budget_for_context(context_size as nat),
{
    let free = context_size.saturating_sub(RESERVED_CONTEXT_TOKENS);
    if free <= usize::MAX / CHARS_PER_TOKEN {
        free * CHARS_PER_TOKEN
    } else {
        usize::MAX
    }
}

/// Resolves the transcript character budget from the provider and, for local
/// models, the context size found for the model (`None` when it could not
/// be found).
pub fn transcript_char_budget(provider: LLMProvider, context_size: Option<usize>) -> (r: usize)
    ensures
        r == transcript_budget(provider, context_size),
{
    match provider {
        LLMProvider::Ollama | LLMProvider::BuiltInAI => match context_size {
            Some(c) => char_budget_for_context(c),
            None => LOCAL_FALLBACK_CHAR_BUDGET,
        },
        _ => CLOUD_TRANSCRIPT_CHAR_BUDGET,
    }
}

} // verus!
