//! Types of the free-LLM router: OpenAI-compatible chat messages and
//! responses, provider configurations and call results.

use vstd::prelude::*;
use crate::text::{concat, decimal, to_owned_string, u64_to_string};

verus! {

broadcast use vstd::string::group_string_axioms;

/// Errors of the free-LLM router.
#[derive(Debug)]
pub enum LlmError {
    /// A non-success HTTP status and the response body.
    Http { status: u16, body: String },
    /// A transport failure, by its message.
    Network(String),
    /// A response body that did not parse, by the parser's message.
    Json(String),
    /// No provider is configured.
    NoProviders,
    /// Every provider failed; the last failure.
    AllFailed(String),
    /// A provider answered unusably.
    Provider { provider: String, message: String },
}

impl LlmError {
    /// The error's message.
    pub open spec fn spec_message(&self) -> Seq<char> {
        match self {
            LlmError::Http { status, body } => "HTTP error "@ + decimal(*status as nat) + ": "@ + body@,
            LlmError::Network(m) => "network error: "@ + m@,
            LlmError::Json(m) => "JSON parse error: "@ + m@,
            LlmError::NoProviders => "no providers available — configure at least one API key or run Ollama locally"@,
            LlmError::AllFailed(m) => "all providers failed: "@ + m@,
            LlmError::Provider { provider, message } => "provider "@ + provider@ + " error: "@
                + message@,
        }
    }

    /// The error's message.
    pub fn message(&self) -> (m: String)
        ensures
            m@ == self.spec_message(),
    {
        match self {
            LlmError::Http { status, body } => {
                let s = concat("HTTP error ", u64_to_string(*status as u64).as_str());
                let s = concat(s.as_str(), ": ");
                concat(s.as_str(), body.as_str())
            },
            LlmError::Network(m) => concat("network error: ", m.as_str()),
            LlmError::Json(m) => concat("JSON parse error: ", m.as_str()),
            LlmError::NoProviders => to_owned_string(
                "no providers available — configure at least one API key or run Ollama locally",
            ),
            LlmError::AllFailed(m) => concat("all providers failed: ", m.as_str()),
            LlmError::Provider { provider, message } => {
                let s = concat("provider ", provider.as_str());
                let s = concat(s.as_str(), " error: ");
                concat(s.as_str(), message.as_str())
            },
        }
    }
}

/// One message in chat form.
#[derive(Debug, Clone)]
pub struct ChatMessage {
    pub role: String,
    pub content: String,
}

impl ChatMessage {
    /// A system message.
    pub fn system(content: &str) -> (m: Self)
        ensures
            m.role@ == "system"@,
            m.content@ == content@,
    {
        ChatMessage { role: to_owned_string("system"), content: to_owned_string(content) }
    }

    /// A user message.
    pub fn user(content: &str) -> (m: Self)
        ensures
            m.role@ == "user"@,
            m.content@ == content@,
    {
        ChatMessage { role: to_owned_string("user"), content: to_owned_string(content) }
    }

    /// An assistant message.
    pub fn assistant(content: &str) -> (m: Self)
        ensures
            m.role@ == "assistant"@,
            m.content@ == content@,
    {
        ChatMessage { role: to_owned_string("assistant"), content: to_owned_string(content) }
    }
}

/// One choice of a chat completion.
#[derive(Debug)]
pub struct ChatChoice {
    pub message: ChatMessage,
    pub finish_reason: Option<String>,
}

/// Token usage of a chat completion.
#[derive(Debug)]
pub struct ChatUsage {
    pub prompt_tokens: Option<u32>,
    pub completion_tokens: Option<u32>,
    pub total_tokens: Option<u32>,
}

/// A chat completion response.
#[derive(Debug)]
pub struct ChatResponse {
    pub choices: Vec<ChatChoice>,
    pub usage: Option<ChatUsage>,
    pub model: Option<String>,
}

impl ChatResponse {
    /// The text of the first answer, empty when there is none.
    pub open spec fn spec_text(&self) -> Seq<char> {
        if self.choices@.len() > 0 {
            self.choices@[0].message.content@
        } else {
            Seq::empty()
        }
    }

    /// The text of the first answer message.
    pub fn text(&self) -> (t: &str)
        ensures
            t@ == self.spec_text(),
    {
        if self.choices.len() > 0 {
            self.choices[0].message.content.as_str()
        } else {
            proof {
                reveal_strlit("");
            }
            ""
        }
    }
}

/// One model of a `/models` listing.
#[derive(Debug)]
pub struct OpenAiModel {
    pub id: String,
}

/// A `/models` listing.
#[derive(Debug)]
pub struct OpenAiModelsResponse {
    pub data: Vec<OpenAiModel>,
}

/// A known free model and its limits.
#[derive(Debug, Clone)]
pub struct FreeModel {
    /// The provider's model id.
    pub id: &'static str,
    /// A readable name.
    pub name: &'static str,
    /// Context window in tokens.
    pub context_window: u32,
    /// Maximal output tokens.
    pub max_tokens: u32,
    /// Whether it is a reasoning model.
    pub reasoning: bool,
}

/// Everything needed to call one provider.
#[derive(Debug, Clone)]
pub struct ProviderConfig {
    /// Readable name, such as "OpenRouter".
    pub name: &'static str,
    /// Base URL of the OpenAI-compatible API.
    pub base_url: &'static str,
    /// API key, where one is needed.
    pub api_key: Option<String>,
    /// The provider's default model.
    pub model: &'static str,
}

/// The result of a successful provider call, with its provenance.
#[derive(Debug)]
pub struct LlmCallResult {
    pub provider: &'static str,
    pub model: String,
    pub text: String,
    pub tokens: Option<u32>,
}

} // verus!
