//! The LLM driver of the runtime: the same free providers and failover as
//! the free-LLM router, with its own response types, its own messages, and
//! a model choice on Ollama that falls back to the default model.

use vstd::prelude::*;
use crate::app_error::AppError;
use crate::llm_providers::{ProviderEnv, provider_view, spec_available_providers};
use crate::llm_router::{any_contains, is_ollama, is_ollama_name, lemma_pick_preferred_order, pick_preferred, preferred_model, preferred_models, step_view, views, StepView};
use crate::search::contains_seq;
use crate::text::{concat, decimal, to_owned_string, u64_to_string};

pub use crate::llm_types::{ChatMessage, OpenAiModel, OpenAiModelsResponse, ProviderConfig};

verus! {

broadcast use vstd::string::group_string_axioms;

/// Errors of the driver's HTTP calls.
#[derive(Debug)]
pub enum LlmError {
    Http { status: u16, body: String },
    Network(String),
    Json(String),
    NoProviders,
    AllFailed(String),
    Provider { provider: String, message: String },
}

impl LlmError {
    /// The error's message.
    pub open spec fn spec_message(&self) -> Seq<char> {
        match self {
            LlmError::Http { status, body } => "HTTP "@ + decimal(*status as nat) + ": "@ + body@,
            LlmError::Network(m) => "Netzwerk: "@ + m@,
            LlmError::Json(m) => "JSON: "@ + m@,
            LlmError::NoProviders => "Kein Provider konfiguriert"@,
            LlmError::AllFailed(m) => "Alle Provider fehlgeschlagen: "@ + m@,
            LlmError::Provider { provider, message } => "Provider "@ + provider@ + ": "@ + message@,
        }
    }

    /// The error's message.
    pub fn message(&self) -> (m: String)
        ensures
            m@ == self.spec_message(),
    {
        match self {
            LlmError::Http { status, body } => {
                let s = concat("HTTP ", u64_to_string(*status as u64).as_str());
                let s = concat(s.as_str(), ": ");
                concat(s.as_str(), body.as_str())
            },
            LlmError::Network(m) => concat("Netzwerk: ", m.as_str()),
            LlmError::Json(m) => concat("JSON: ", m.as_str()),
            LlmError::NoProviders => to_owned_string("Kein Provider konfiguriert"),
            LlmError::AllFailed(m) => concat("Alle Provider fehlgeschlagen: ", m.as_str()),
            LlmError::Provider { provider, message } => {
                let s = concat("Provider ", provider.as_str());
                let s = concat(s.as_str(), ": ");
                concat(s.as_str(), message.as_str())
            },
        }
    }
}

/// One choice of a chat completion.
#[derive(Debug)]
pub struct ChatChoice {
    pub message: ChatMessage,
}

/// Token usage of a chat completion.
#[derive(Debug)]
pub struct ChatUsage {
    pub total_tokens: Option<u32>,
}

/// A chat completion response.
#[derive(Debug)]
pub struct ChatResponse {
    pub choices: Vec<ChatChoice>,
    pub usage: Option<ChatUsage>,
    pub model: Option<String>,
}

impl ChatResponse {
    /// The text of the first answer, empty when there is none.
    pub open spec fn spec_text(&self) -> Seq<char> {
        if self.choices@.len() > 0 {
            self.choices@[0].message.content@
        } else {
            Seq::empty()
        }
    }

    /// The text of the first answer message.
    pub fn text(&self) -> (t: &str)
        ensures
            t@ == self.spec_text(),
    {
        if self.choices.len() > 0 {
            self.choices[0].message.content.as_str()
        } else {
            proof {
                reveal_strlit("");
            }
            ""
        }
    }
}

/// The result of a successful provider call.
#[derive(Debug)]
pub struct DriverCallResult {
    pub provider: &'static str,
    pub model: String,
    pub text: String,
    pub tokens: Option<u32>,
}

/// What a driver answers to the agents.
#[derive(Debug)]
pub struct LlmResponse {
    pub text: String,
    pub provider: String,
    pub model: String,
    pub tokens: Option<u32>,
}

/// All configured providers, in failover order.
pub fn available_providers(env: &ProviderEnv) -> (out: Vec<ProviderConfig>)
    ensures
        out@.map_values(|q: ProviderConfig| provider_view(q)) == spec_available_providers(env),
{
    crate::llm_providers::available_providers(env)
}

/// The model the driver asks for: on Ollama the preferred available model,
/// else (and when Ollama lists none of the preferred ones) the provider's
/// default model.
pub open spec fn spec_driver_model(name: Seq<char>, model: Seq<char>, avail: Seq<Seq<char>>) -> Seq<char> {
    if is_ollama_name(name) {
        match pick_preferred(avail, preferred_models()) {
            Some(m) => m,
            None => model,
        }
    } else {
        model
    }
}

/// The driver asks the local Ollama for a coding model by preference: one
/// containing `qwen2.5-coder`, else `deepseek-coder`, else `codellama`,
/// else `llama3`, else `llama2`, always an available one; when none of them
/// is available, and for any other provider, the default model.
pub proof fn law_driver_model_preference(name: Seq<char>, model: Seq<char>, avail: Seq<Seq<char>>)
    ensures
        !is_ollama_name(name) ==> spec_driver_model(name, model, avail) == model,
        spec_driver_model(name, model, avail) == model || exists|j: int| 0 <= j < avail.len() && avail[j]
            == spec_driver_model(name, model, avail),
        is_ollama_name(name) && any_contains(avail, "qwen2.5-coder"@) ==> contains_seq(spec_driver_model(name, model, avail), "qwen2.5-coder"@),
        is_ollama_name(name) && !any_contains(avail, "qwen2.5-coder"@) && any_contains(avail, "deepseek-coder"@) ==> contains_seq(
            spec_driver_model(name, model, avail),
            "deepseek-coder"@,
        ),
        is_ollama_name(name) && !any_contains(avail, "qwen2.5-coder"@) && !any_contains(avail, "deepseek-coder"@) && any_contains(avail, "codellama"@)
            ==> contains_seq(spec_driver_model(name, model, avail), "codellama"@),
        is_ollama_name(name) && !any_contains(avail, "qwen2.5-coder"@) && !any_contains(avail, "deepseek-coder"@) && !any_contains(avail, "codellama"@)
            && any_contains(avail, "llama3"@) ==> contains_seq(spec_driver_model(name, model, avail), "llama3"@),
        is_ollama_name(name) && !any_contains(avail, "qwen2.5-coder"@) && !any_contains(avail, "deepseek-coder"@) && !any_contains(avail, "codellama"@)
            && !any_contains(avail, "llama3"@) && any_contains(avail, "llama2"@) ==> contains_seq(spec_driver_model(name, model, avail), "llama2"@),
        !any_contains(avail, "qwen2.5-coder"@) && !any_contains(avail, "deepseek-coder"@) && !any_contains(avail, "codellama"@)
            && !any_contains(avail, "llama3"@) && !any_contains(avail, "llama2"@) ==> spec_driver_model(name, model, avail) == model,
{
    lemma_pick_preferred_order(avail);
}

/// The model to request from `provider`, given the models a local Ollama
/// lists.
pub fn resolve_model(provider: &ProviderConfig, available: &Vec<String>) -> (m: String)
    ensures
        m@ == spec_driver_model(provider.name@, provider.model@, views(available@)),
{
    if is_ollama(provider) {
        match preferred_model(available) {
            Some(m) => m,
            None => to_owned_string(provider.model),
        }
    } else {
        to_owned_string(provider.model)
    }
}

/// The error for an unreachable local Ollama.
pub fn ollama_unreachable(provider: &ProviderConfig) -> (e: LlmError)
    ensures
        e matches LlmError::Provider { provider: p, message: m } && p@ == provider.name@ && m@
            == "nicht erreichbar (läuft `ollama serve`?)"@,
{
    LlmError::Provider {
        provider: to_owned_string(provider.name),
        message: to_owned_string("nicht erreichbar (läuft `ollama serve`?)"),
    }
}

/// The result of a provider call from its response: an error when the
/// response has no choices, else the first answer with the response's (or
/// the requested) model and the total token count.
pub fn call_result(provider: &ProviderConfig, requested_model: String, resp: ChatResponse) -> (r: Result<DriverCallResult, LlmError>)
    ensures
        resp.choices@.len() == 0 ==> (r matches Err(LlmError::Provider { provider: p, message: m })
            && p@ == provider.name@ && m@ == "leere Antwort"@),
        resp.choices@.len() > 0 ==> (r matches Ok(res) && res.provider == provider.name
            && res.text@ == resp.spec_text() && res.model@ == (match resp.model {
                Some(m) => m@,
                None => requested_model@,
            }) && res.tokens == (match resp.usage {
                Some(u) => u.total_tokens,
                None => None,
            })),
{
    if resp.choices.len() == 0 {
        return Err(LlmError::Provider {
            provider: to_owned_string(provider.name),
            message: to_owned_string("leere Antwort"),
        });
    }
    let text = to_owned_string(resp.text());
    let tokens = match &resp.usage {
        Some(u) => u.total_tokens,
        None => None,
    };
    let model = match resp.model {
        Some(m) => m,
        None => requested_model,
    };
    Ok(DriverCallResult { provider: provider.name, model, text, tokens })
}

/// What the driver does next.
pub enum DriverStep {
    Try(usize),
    Finished(Result<DriverCallResult, LlmError>),
}

/// A driver step taken after provider `i`, seen abstractly.
pub open spec fn driver_step_of(s: DriverStep, i: int) -> StepView {
    match s {
        DriverStep::Try(j) => StepView::Try(j as int),
        DriverStep::Finished(Ok(_)) => StepView::Answered(i),
        DriverStep::Finished(Err(_)) => StepView::GaveUp(i),
    }
}

/// The first step of a chat: no providers is an error, else try the first.
pub fn failover_start(providers: &Vec<ProviderConfig>) -> (s: DriverStep)
    ensures
        providers@.len() == 0 ==> s matches DriverStep::Finished(Err(LlmError::NoProviders)),
        providers@.len() > 0 ==> s matches DriverStep::Try(0),
{
    if providers.len() == 0 {
        DriverStep::Finished(Err(LlmError::NoProviders))
    } else {
        DriverStep::Try(0)
    }
}

/// The step after trying provider `i`: success ends the chat, a failure
/// moves on, and the last failure ends it naming that provider and error.
pub fn failover_next(providers: &Vec<ProviderConfig>, i: usize, outcome: Result<DriverCallResult, LlmError>) -> (s: DriverStep)
    requires
        i < providers@.len(),
    ensures
        outcome is Ok ==> s == DriverStep::Finished(outcome),
        outcome is Err && i + 1 < providers@.len() ==> s == DriverStep::Try((i + 1) as usize),
        driver_step_of(s, i as int) == step_view(providers@.len() as int, i as int, outcome is Ok),
        outcome is Err && i + 1 == providers@.len() ==> (s matches DriverStep::Finished(Err(LlmError::AllFailed(m)))
            && m@ == providers@[i as int].name@ + ": "@ + outcome->Err_0.spec_message()),
{
    match outcome {
        Ok(r) => DriverStep::Finished(Ok(r)),
        Err(e) => {
            if i < providers.len() - 1 {
                DriverStep::Try(i + 1)
            } else {
                let s = concat(providers[i].name, ": ");
                let m = e.message();
                DriverStep::Finished(Err(LlmError::AllFailed(concat(s.as_str(), m.as_str()))))
            }
        },
    }
}

/// The production LLM driver over the free providers.
pub struct FreeProviderDriver;

impl Default for FreeProviderDriver {
    fn default() -> (d: Self)
        ensures
            d == FreeProviderDriver,
    {
        FreeProviderDriver
    }
}

impl FreeProviderDriver {
    /// Creates the driver.
    pub fn new() -> Self {
        FreeProviderDriver
    }

    /// The driver's name.
    pub fn provider_name(&self) -> (n: &'static str)
        ensures
            n@ == "free-provider-driver"@,
    {
        "free-provider-driver"
    }

    /// The driver's answer for a finished chat: the call's text, provider,
    /// model and tokens, or an agent error with the chat's error message.
    pub fn chat_response(outcome: Result<DriverCallResult, LlmError>) -> (r: Result<LlmResponse, AppError>)
        ensures
            outcome matches Ok(c) ==> (r matches Ok(resp) && resp.text == c.text && resp.provider@
                == c.provider@ && resp.model == c.model && resp.tokens == c.tokens),
            outcome matches Err(e) ==> (r matches Err(AppError::Agent(m)) && m@ == e.spec_message()),
    {
        match outcome {
            Ok(c) => Ok(LlmResponse {
                text: c.text,
                provider: to_owned_string(c.provider),
                model: c.model,
                tokens: c.tokens,
            }),
            Err(e) => Err(AppError::Agent(e.message())),
        }
    }
}

} // verus!
