//! Text completion services: which one a configuration names, how it is
//! reached, and how its answer is judged.

use crate::text::{glue, glue3, pair_views, text_of};
use vstd::prelude::*;
use vstd::string::*;

verus! {

/// The services.
#[derive(Debug, Clone, Copy, PartialEq, Eq, Structural)]
pub enum LlmProviderType {
    OpenAI,
    Anthropic,
    Groq,
    Ollama,
}

/// What the caller configures.
#[derive(Debug, Clone, PartialEq, Eq)]
pub struct LlmConfig {
    pub provider: LlmProviderType,
    pub api_key: Option<String>,
    pub model: String,
    pub base_url: Option<String>,
}

/// How a service is reached, as made from a configuration.
#[derive(Debug, Clone, PartialEq, Eq)]
pub struct ProviderSetup {
    pub provider: LlmProviderType,
    /// The address requests are posted to.
    pub endpoint: String,
    /// The key; empty where none was configured.
    pub api_key: String,
    pub model: String,
    /// The bound on a request's duration.
    pub timeout_secs: u64,
}

/// A provider setup, with its texts as sequences of characters.
pub struct ProviderSetupView {
    pub provider: LlmProviderType,
    pub endpoint: Seq<char>,
    pub api_key: Seq<char>,
    pub model: Seq<char>,
    pub timeout_secs: u64,
}

impl View for ProviderSetup {
    type V = ProviderSetupView;

    open spec fn view(&self) -> ProviderSetupView {
        ProviderSetupView {
            provider: self.provider,
            endpoint: self.endpoint@,
            api_key: self.api_key@,
            model: self.model@,
            timeout_secs: self.timeout_secs,
        }
    }
}

/// The address of a service. The local service is reached below the
/// configured base address, or below its usual one where none is
/// configured; the others have fixed addresses.
pub open spec fn endpoint_for(provider: LlmProviderType, base_url: Option<Seq<char>>) -> Seq<char> {
    match provider {
        LlmProviderType::OpenAI => "https://api.openai.com/v1/chat/completions"@,
        LlmProviderType::Anthropic => "https://api.anthropic.com/v1/messages"@,
        LlmProviderType::Groq => "https://api.groq.com/openai/v1/chat/completions"@,
        LlmProviderType::Ollama => match base_url {
            Some(base) => base + "/api/chat"@,
            None => "http://localhost:11434"@ + "/api/chat"@,
        },
    }
}

/// The bound on a request's duration, in seconds.
pub open spec fn timeout_for(provider: LlmProviderType) -> u64 {
    match provider {
        LlmProviderType::Ollama => 60,
        _ => 30,
    }
}

/// The key a service is given: the configured one, or none for the local
/// service, which takes no key.
pub open spec fn key_for(provider: LlmProviderType, api_key: Option<Seq<char>>) -> Seq<char> {
    match provider {
        LlmProviderType::Ollama => Seq::empty(),
        _ => match api_key {
            Some(key) => key,
            None => Seq::empty(),
        },
    }
}

/// The setup that a configuration stands for.
pub open spec fn setup_for(
    provider: LlmProviderType,
    api_key: Option<Seq<char>>,
    model: Seq<char>,
    base_url: Option<Seq<char>>,
) -> ProviderSetupView {
    ProviderSetupView {
        provider,
        endpoint: endpoint_for(provider, base_url),
        api_key: key_for(provider, api_key),
        model,
        timeout_secs: timeout_for(provider),
    }
}

/// The name a service goes by in messages.
pub open spec fn service_name(provider: LlmProviderType) -> Seq<char> {
    match provider {
        LlmProviderType::OpenAI => "OpenAI"@,
        LlmProviderType::Anthropic => "Anthropic"@,
        LlmProviderType::Groq => "Groq"@,
        LlmProviderType::Ollama => "Ollama"@,
    }
}

/// The headers that authorize a request.
pub open spec fn auth_headers_for(provider: LlmProviderType, api_key: Seq<char>) -> Seq<
    (Seq<char>, Seq<char>),
> {
    match provider {
        LlmProviderType::OpenAI => seq![("Authorization"@, "Bearer "@ + api_key)],
        LlmProviderType::Groq => seq![("Authorization"@, "Bearer "@ + api_key)],
        LlmProviderType::Anthropic => seq![
            ("x-api-key"@, api_key),
            ("anthropic-version"@, "2023-06-01"@),
        ],
        LlmProviderType::Ollama => Seq::empty(),
    }
}

/// The message for a request that the service refused.
pub open spec fn refusal_text(
    provider: LlmProviderType,
    status: Seq<char>,
    reason: Option<Seq<char>>,
) -> Seq<char> {
    service_name(provider) + " API error ("@ + status + "): "@ + match reason {
        Some(text) => text,
        None => "Unknown error"@,
    }
}

/// The message for an answer without content.
pub open spec fn no_content_text(provider: LlmProviderType) -> Seq<char> {
    service_name(provider) + " returned no content in response"@
}

/// What is made of a service's answer: a refusal where the status is no
/// success, whatever else the answer holds; else its content; else the
/// complaint that it has none.
pub open spec fn completion_of(
    provider: LlmProviderType,
    success: bool,
    status: Seq<char>,
    reason: Option<Seq<char>>,
    content: Option<Seq<char>>,
) -> Result<Seq<char>, Seq<char>> {
    if !success {
        Err(refusal_text(provider, status, reason))
    } else {
        match content {
            Some(text) => Ok(text),
            None => Err(no_content_text(provider)),
        }
    }
}

/// The texts of a result of strings.
pub open spec fn result_texts(r: Result<String, String>) -> Result<Seq<char>, Seq<char>> {
    match r {
        Ok(s) => Ok(s@),
        Err(s) => Err(s@),
    }
}

/// The name of a service.
pub fn provider_name(provider: LlmProviderType) -> (name: String)
    ensures
        name@ == service_name(provider),
{
    match provider {
        LlmProviderType::OpenAI => String::from_str("OpenAI"),
        LlmProviderType::Anthropic => String::from_str("Anthropic"),
        LlmProviderType::Groq => String::from_str("Groq"),
        LlmProviderType::Ollama => String::from_str("Ollama"),
    }
}

/// Says how the configured service is reached.
pub fn create_provider(config: &LlmConfig) -> (setup: ProviderSetup)
    ensures
        setup@ == setup_for(
            config.provider,
            text_of(config.api_key),
            config.model@,
            text_of(config.base_url),
        ),
{
    let api_key = match &config.api_key {
        Some(key) => key.clone(),
        None => String::new(),
    };
    match config.provider {
        LlmProviderType::OpenAI => ProviderSetup {
            provider: LlmProviderType::OpenAI,
            endpoint: String::from_str("https://api.openai.com/v1/chat/completions"),
            api_key,
            model: config.model.clone(),
            timeout_secs: 30,
        },
        LlmProviderType::Anthropic => ProviderSetup {
            provider: LlmProviderType::Anthropic,
            endpoint: String::from_str("https://api.anthropic.com/v1/messages"),
            api_key,
            model: config.model.clone(),
            timeout_secs: 30,
        },
        LlmProviderType::Groq => ProviderSetup {
            provider: LlmProviderType::Groq,
            endpoint: String::from_str("https://api.groq.com/openai/v1/chat/completions"),
            api_key,
            model: config.model.clone(),
            timeout_secs: 30,
        },
        LlmProviderType::Ollama => {
            let endpoint = match &config.base_url {
                Some(base) => glue(base.as_str(), "/api/chat"),
                None => glue("http://localhost:11434", "/api/chat"),
            };
            ProviderSetup {
                provider: LlmProviderType::Ollama,
                endpoint,
                api_key: String::new(),
                model: config.model.clone(),
                timeout_secs: 60,
            }
        },
    }
}

/// The headers that authorize a request to the service.
pub fn auth_headers(setup: &ProviderSetup) -> (headers: Vec<(String, String)>)
    ensures
        pair_views(headers@) == auth_headers_for(setup.provider, setup.api_key@),
{
    let mut headers: Vec<(String, String)> = Vec::new();
    match setup.provider {
        LlmProviderType::OpenAI => {
            headers.push(
                (String::from_str("Authorization"), glue("Bearer ", setup.api_key.as_str())),
            );
        },
        LlmProviderType::Groq => {
            headers.push(
                (String::from_str("Authorization"), glue("Bearer ", setup.api_key.as_str())),
            );
        },
        LlmProviderType::Anthropic => {
            headers.push((String::from_str("x-api-key"), setup.api_key.clone()));
            headers.push((String::from_str("anthropic-version"), String::from_str("2023-06-01")));
        },
        LlmProviderType::Ollama => {},
    }
    assert(pair_views(headers@) =~= auth_headers_for(
        setup.provider,
        setup.api_key@,
    ));
    headers
}

/// Judges a service's answer. `success` and `status` are the answer's
/// status, `reason` the error message found in its body, `content` the
/// completion found there.
pub fn check_completion(
    provider: LlmProviderType,
    success: bool,
    status: &str,
    reason: Option<String>,
    content: Option<String>,
) -> (completion: Result<String, String>)
    ensures
        result_texts(completion) == completion_of(
            provider,
            success,
            status@,
            text_of(reason),
            text_of(content),
        ),
{
    let name = provider_name(provider);
    if !success {
        let mut message = glue3(name.as_str(), " API error (", status);
        message.append("): ");
        match reason {
            Some(text) => {
                message.append(text.as_str());
            },
            None => {
                message.append("Unknown error");
            },
        }
        return Err(message);
    }
    match content {
        Some(text) => Ok(text),
        None => Err(glue(name.as_str(), " returned no content in response")),
    }
}

} // verus!
