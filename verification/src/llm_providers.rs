//! The catalogue of free LLM providers and the failover order in which the
//! configured ones are tried: OpenRouter, Groq, Cerebras, SambaNova,
//! Mistral, Google AI Studio, LLM7, and the local Ollama last.

use vstd::prelude::*;
use crate::llm_types::ProviderConfig;

verus! {

broadcast use vstd::string::group_string_axioms;

/// The provider settings read from the environment: one API key per keyed
/// provider, and the Ollama base URL when one is set.
pub struct ProviderEnv {
    pub openrouter_key: Option<String>,
    pub groq_key: Option<String>,
    pub cerebras_key: Option<String>,
    pub sambanova_key: Option<String>,
    pub mistral_key: Option<String>,
    pub google_key: Option<String>,
    pub llm7_key: Option<String>,
    pub ollama_base_url: Option<&'static str>,
}

/// A provider configuration seen as plain values: name, base URL, key and
/// default model.
pub type ProviderView = (Seq<char>, Seq<char>, Option<Seq<char>>, Seq<char>);

/// The view of a provider configuration.
pub open spec fn provider_view(p: ProviderConfig) -> ProviderView {
    (p.name@, p.base_url@, match p.api_key { Some(k) => Some(k@), None => None }, p.model@)
}

/// A key is set when it is present and not empty.
pub open spec fn key_set(key: Option<String>) -> bool {
    key matches Some(k) && k@.len() > 0
}

/// The configuration of a keyed provider: present exactly when its key is set.
pub open spec fn keyed(name: &str, base_url: &str, key: Option<String>, model: &str) -> Seq<ProviderView> {
    if key_set(key) {
        seq![(name@, base_url@, Some(key->0@), model@)]
    } else {
        Seq::empty()
    }
}

/// The Ollama configuration: always present, at the configured base URL
/// when one is set and not empty, else at localhost.
pub open spec fn ollama_view(base_url: Option<&'static str>) -> ProviderView {
    ("Ollama (local)"@, match base_url {
        Some(u) => if u@.len() > 0 { u@ } else { "http://localhost:11434/v1"@ },
        None => "http://localhost:11434/v1"@,
    }, None, "qwen2.5-coder:7b"@)
}

/// All configured providers in failover order.
pub open spec fn spec_available_providers(env: &ProviderEnv) -> Seq<ProviderView> {
    keyed("OpenRouter", "https://openrouter.ai/api/v1", env.openrouter_key, "meta-llama/llama-3.3-70b-instruct:free")
        + keyed("Groq", "https://api.groq.com/openai/v1", env.groq_key, "llama-3.3-70b-versatile")
        + keyed("Cerebras", "https://api.cerebras.ai/v1", env.cerebras_key, "llama-3.3-70b")
        + keyed("SambaNova", "https://api.sambanova.ai/v1", env.sambanova_key, "Qwen2.5-Coder-32B-Instruct")
        + keyed("Mistral", "https://api.mistral.ai/v1", env.mistral_key, "mistral-small-latest")
        + keyed("Google AI Studio", "https://generativelanguage.googleapis.com/v1beta/openai", env.google_key, "gemini-2.0-flash-exp")
        + keyed("LLM7", "https://api.llm7.io/v1", env.llm7_key, "default")
        + seq![ollama_view(env.ollama_base_url)]
}

/// The configuration of a keyed provider, when its key is set.
pub fn keyed_config(name: &'static str, base_url: &'static str, key: &Option<String>, model: &'static str) -> (r: Option<ProviderConfig>)
    ensures
        r matches Some(p) ==> key_set(*key) && provider_view(p) == keyed(name, base_url, *key, model)[0],
        r is None ==> !key_set(*key),
{
    match key {
        Some(k) => {
            if k.as_str().is_empty() {
                None
            } else {
                Some(ProviderConfig { name, base_url, api_key: Some(k.clone()), model })
            }
        },
        None => None,
    }
}

/// The Ollama configuration; Ollama needs no key and is always configured.
pub fn ollama_config(base_url: Option<&'static str>) -> (r: Option<ProviderConfig>)
    ensures
        r matches Some(p) && provider_view(p) == ollama_view(base_url),
{
    let url: &'static str = match base_url {
        Some(u) => if u.is_empty() {
            "http://localhost:11434/v1"
        } else {
            u
        },
        None => "http://localhost:11434/v1",
    };
    Some(ProviderConfig { name: "Ollama (local)", base_url: url, api_key: None, model: "qwen2.5-coder:7b" })
}

/// Appends a configuration, when present, to the list.
fn push_some(out: &mut Vec<ProviderConfig>, p: Option<ProviderConfig>)
    ensures
        final(out)@.map_values(|q: ProviderConfig| provider_view(q)) == old(out)@.map_values(
            |q: ProviderConfig| provider_view(q),
        ) + match p {
            Some(q) => seq![provider_view(q)],
            None => Seq::<ProviderView>::empty(),
        },
{
    let ghost before = out@;
    match p {
        Some(q) => {
            out.push(q);
            assert(out@.map_values(|q: ProviderConfig| provider_view(q)) =~= before.map_values(
                |q: ProviderConfig| provider_view(q),
            ).push(provider_view(q)));
        },
        None => {
            assert(out@.map_values(|q: ProviderConfig| provider_view(q)) =~= before.map_values(
                |q: ProviderConfig| provider_view(q),
            ) + Seq::<ProviderView>::empty());
        },
    }
}

/// All configured providers, in failover order; only providers with a set
/// key, and Ollama always, last.
pub fn available_providers(env: &ProviderEnv) -> (out: Vec<ProviderConfig>)
    ensures
        out@.map_values(|q: ProviderConfig| provider_view(q)) == spec_available_providers(env),
        out@.len() >= 1,
{
    let mut out: Vec<ProviderConfig> = Vec::new();
    assert(out@.map_values(|q: ProviderConfig| provider_view(q)) =~= Seq::<ProviderView>::empty());
    let p = keyed_config("OpenRouter", "https://openrouter.ai/api/v1", &env.openrouter_key, "meta-llama/llama-3.3-70b-instruct:free");
    push_some(&mut out, p);
    let p = keyed_config("Groq", "https://api.groq.com/openai/v1", &env.groq_key, "llama-3.3-70b-versatile");
    push_some(&mut out, p);
    let p = keyed_config("Cerebras", "https://api.cerebras.ai/v1", &env.cerebras_key, "llama-3.3-70b");
    push_some(&mut out, p);
    let p = keyed_config("SambaNova", "https://api.sambanova.ai/v1", &env.sambanova_key, "Qwen2.5-Coder-32B-Instruct");
    push_some(&mut out, p);
    let p = keyed_config("Mistral", "https://api.mistral.ai/v1", &env.mistral_key, "mistral-small-latest");
    push_some(&mut out, p);
    let p = keyed_config("Google AI Studio", "https://generativelanguage.googleapis.com/v1beta/openai", &env.google_key, "gemini-2.0-flash-exp");
    push_some(&mut out, p);
    let p = keyed_config("LLM7", "https://api.llm7.io/v1", &env.llm7_key, "default");
    push_some(&mut out, p);
    let p = ollama_config(env.ollama_base_url);
    push_some(&mut out, p);
    assert(spec_available_providers(env) =~= keyed("OpenRouter", "https://openrouter.ai/api/v1", env.openrouter_key, "meta-llama/llama-3.3-70b-instruct:free")
        + keyed("Groq", "https://api.groq.com/openai/v1", env.groq_key, "llama-3.3-70b-versatile")
        + keyed("Cerebras", "https://api.cerebras.ai/v1", env.cerebras_key, "llama-3.3-70b")
        + keyed("SambaNova", "https://api.sambanova.ai/v1", env.sambanova_key, "Qwen2.5-Coder-32B-Instruct")
        + keyed("Mistral", "https://api.mistral.ai/v1", env.mistral_key, "mistral-small-latest")
        + keyed("Google AI Studio", "https://generativelanguage.googleapis.com/v1beta/openai", env.google_key, "gemini-2.0-flash-exp")
        + keyed("LLM7", "https://api.llm7.io/v1", env.llm7_key, "default")
        + seq![ollama_view(env.ollama_base_url)]);
    out
}

/// Ollama, the keyless local provider, is always the last resort: it is
/// always configured and always tried last.
pub proof fn law_ollama_always_last(env: &ProviderEnv)
    ensures
        spec_available_providers(env).len() >= 1,
        spec_available_providers(env).last() == ollama_view(env.ollama_base_url),
{
}

/// Whether a provider configuration carries the given name.
pub open spec fn named(name: Seq<char>) -> spec_fn(ProviderView) -> bool {
    |p: ProviderView| p.0 == name
}

/// A keyed entry, picked out by a name: itself when the names agree, else nothing.
proof fn lemma_keyed_named(name: &str, base_url: &str, key: Option<String>, model: &str, target: Seq<char>)
    ensures
        keyed(name, base_url, key, model).filter(named(target)) == (if name@ == target {
            keyed(name, base_url, key, model)
        } else {
            Seq::<ProviderView>::empty()
        }),
{
    reveal(Seq::filter);
    let e = Seq::<ProviderView>::empty();
    assert(e.filter(named(target)) =~= e);
    if key_set(key) {
        let x = (name@, base_url@, Some(key->0@), model@);
        e.lemma_filter_push(x, named(target));
        assert(e.push(x) =~= seq![x]);
    }
}

/// The names of the providers, told apart.
proof fn lemma_provider_names_distinct()
    ensures
        "OpenRouter"@.len() == 10 && "Groq"@.len() == 4 && "Cerebras"@.len() == 8 && "SambaNova"@.len() == 9
            && "Mistral"@.len() == 7 && "Google AI Studio"@.len() == 16 && "LLM7"@.len() == 4
            && "Ollama (local)"@.len() == 14,
        "Groq"@[0] == 'G' && "LLM7"@[0] == 'L',
{
    reveal_strlit("OpenRouter");
    reveal_strlit("Groq");
    reveal_strlit("Cerebras");
    reveal_strlit("SambaNova");
    reveal_strlit("Mistral");
    reveal_strlit("Google AI Studio");
    reveal_strlit("LLM7");
    reveal_strlit("Ollama (local)");
}

/// The providers under one name: the keyed entries of that name, then Ollama
/// when the name is its own.
proof fn lemma_available_named(env: &ProviderEnv, t: Seq<char>)
    ensures
        spec_available_providers(env).filter(named(t)) == (if "OpenRouter"@ == t {
            keyed("OpenRouter", "https://openrouter.ai/api/v1", env.openrouter_key, "meta-llama/llama-3.3-70b-instruct:free")
        } else {
            Seq::<ProviderView>::empty()
        })
            + (if "Groq"@ == t {
            keyed("Groq", "https://api.groq.com/openai/v1", env.groq_key, "llama-3.3-70b-versatile")
        } else {
            Seq::<ProviderView>::empty()
        })
            + (if "Cerebras"@ == t {
            keyed("Cerebras", "https://api.cerebras.ai/v1", env.cerebras_key, "llama-3.3-70b")
        } else {
            Seq::<ProviderView>::empty()
        })
            + (if "SambaNova"@ == t {
            keyed("SambaNova", "https://api.sambanova.ai/v1", env.sambanova_key, "Qwen2.5-Coder-32B-Instruct")
        } else {
            Seq::<ProviderView>::empty()
        })
            + (if "Mistral"@ == t {
            keyed("Mistral", "https://api.mistral.ai/v1", env.mistral_key, "mistral-small-latest")
        } else {
            Seq::<ProviderView>::empty()
        })
            + (if "Google AI Studio"@ == t {
            keyed("Google AI Studio", "https://generativelanguage.googleapis.com/v1beta/openai", env.google_key, "gemini-2.0-flash-exp")
        } else {
            Seq::<ProviderView>::empty()
        })
            + (if "LLM7"@ == t {
            keyed("LLM7", "https://api.llm7.io/v1", env.llm7_key, "default")
        } else {
            Seq::<ProviderView>::empty()
        })
            + (if "Ollama (local)"@ == t {
            seq![ollama_view(env.ollama_base_url)]
        } else {
            Seq::<ProviderView>::empty()
        }),
{
    broadcast use Seq::filter_distributes_over_add;
    lemma_keyed_named("OpenRouter", "https://openrouter.ai/api/v1", env.openrouter_key, "meta-llama/llama-3.3-70b-instruct:free", t);
    lemma_keyed_named("Groq", "https://api.groq.com/openai/v1", env.groq_key, "llama-3.3-70b-versatile", t);
    lemma_keyed_named("Cerebras", "https://api.cerebras.ai/v1", env.cerebras_key, "llama-3.3-70b", t);
    lemma_keyed_named("SambaNova", "https://api.sambanova.ai/v1", env.sambanova_key, "Qwen2.5-Coder-32B-Instruct", t);
    lemma_keyed_named("Mistral", "https://api.mistral.ai/v1", env.mistral_key, "mistral-small-latest", t);
    lemma_keyed_named("Google AI Studio", "https://generativelanguage.googleapis.com/v1beta/openai", env.google_key, "gemini-2.0-flash-exp", t);
    lemma_keyed_named("LLM7", "https://api.llm7.io/v1", env.llm7_key, "default", t);
    reveal(Seq::filter);
    let o = ollama_view(env.ollama_base_url);
    let e = Seq::<ProviderView>::empty();
    e.lemma_filter_push(o, named(t));
    assert(e.push(o) =~= seq![o]);
    assert(e.filter(named(t)) =~= e);
}

/// The providers listed under the name OpenRouter.
proof fn lemma_listed_openrouter(env: &ProviderEnv)
    ensures
        spec_available_providers(env).filter(named("OpenRouter"@)) == (if env.openrouter_key is Some
            && env.openrouter_key->0@.len() > 0 {
            seq![("OpenRouter"@, "https://openrouter.ai/api/v1"@, Some(env.openrouter_key->0@), "meta-llama/llama-3.3-70b-instruct:free"@)]
        } else {
            Seq::<ProviderView>::empty()
        }),
{
    assert(spec_available_providers(env).filter(named("OpenRouter"@)) == keyed("OpenRouter", "https://openrouter.ai/api/v1", env.openrouter_key, "meta-llama/llama-3.3-70b-instruct:free")) by {
        broadcast use {Seq::add_empty_left, Seq::add_empty_right};

        lemma_provider_names_distinct();
        lemma_available_named(env, "OpenRouter"@);
    }
}

/// The providers listed under the name Groq.
proof fn lemma_listed_groq(env: &ProviderEnv)
    ensures
        spec_available_providers(env).filter(named("Groq"@)) == (if env.groq_key is Some
            && env.groq_key->0@.len() > 0 {
            seq![("Groq"@, "https://api.groq.com/openai/v1"@, Some(env.groq_key->0@), "llama-3.3-70b-versatile"@)]
        } else {
            Seq::<ProviderView>::empty()
        }),
{
    assert(spec_available_providers(env).filter(named("Groq"@)) == keyed("Groq", "https://api.groq.com/openai/v1", env.groq_key, "llama-3.3-70b-versatile")) by {
        broadcast use {Seq::add_empty_left, Seq::add_empty_right};

        lemma_provider_names_distinct();
        lemma_available_named(env, "Groq"@);
    }
}

/// The providers listed under the name Cerebras.
proof fn lemma_listed_cerebras(env: &ProviderEnv)
    ensures
        spec_available_providers(env).filter(named("Cerebras"@)) == (if env.cerebras_key is Some
            && env.cerebras_key->0@.len() > 0 {
            seq![("Cerebras"@, "https://api.cerebras.ai/v1"@, Some(env.cerebras_key->0@), "llama-3.3-70b"@)]
        } else {
            Seq::<ProviderView>::empty()
        }),
{
    assert(spec_available_providers(env).filter(named("Cerebras"@)) == keyed("Cerebras", "https://api.cerebras.ai/v1", env.cerebras_key, "llama-3.3-70b")) by {
        broadcast use {Seq::add_empty_left, Seq::add_empty_right};

        lemma_provider_names_distinct();
        lemma_available_named(env, "Cerebras"@);
    }
}

/// The providers listed under the name SambaNova.
proof fn lemma_listed_sambanova(env: &ProviderEnv)
    ensures
        spec_available_providers(env).filter(named("SambaNova"@)) == (if env.sambanova_key is Some
            && env.sambanova_key->0@.len() > 0 {
            seq![("SambaNova"@, "https://api.sambanova.ai/v1"@, Some(env.sambanova_key->0@), "Qwen2.5-Coder-32B-Instruct"@)]
        } else {
            Seq::<ProviderView>::empty()
        }),
{
    assert(spec_available_providers(env).filter(named("SambaNova"@)) == keyed("SambaNova", "https://api.sambanova.ai/v1", env.sambanova_key, "Qwen2.5-Coder-32B-Instruct")) by {
        broadcast use {Seq::add_empty_left, Seq::add_empty_right};

        lemma_provider_names_distinct();
        lemma_available_named(env, "SambaNova"@);
    }
}

/// The providers listed under the name Mistral.
proof fn lemma_listed_mistral(env: &ProviderEnv)
    ensures
        spec_available_providers(env).filter(named("Mistral"@)) == (if env.mistral_key is Some
            && env.mistral_key->0@.len() > 0 {
            seq![("Mistral"@, "https://api.mistral.ai/v1"@, Some(env.mistral_key->0@), "mistral-small-latest"@)]
        } else {
            Seq::<ProviderView>::empty()
        }),
{
    assert(spec_available_providers(env).filter(named("Mistral"@)) == keyed("Mistral", "https://api.mistral.ai/v1", env.mistral_key, "mistral-small-latest")) by {
        broadcast use {Seq::add_empty_left, Seq::add_empty_right};

        lemma_provider_names_distinct();
        lemma_available_named(env, "Mistral"@);
    }
}

/// The providers listed under the name Google AI Studio.
proof fn lemma_listed_google(env: &ProviderEnv)
    ensures
        spec_available_providers(env).filter(named("Google AI Studio"@)) == (if env.google_key is Some
            && env.google_key->0@.len() > 0 {
            seq![("Google AI Studio"@, "https://generativelanguage.googleapis.com/v1beta/openai"@, Some(env.google_key->0@), "gemini-2.0-flash-exp"@)]
        } else {
            Seq::<ProviderView>::empty()
        }),
{
    assert(spec_available_providers(env).filter(named("Google AI Studio"@)) == keyed("Google AI Studio", "https://generativelanguage.googleapis.com/v1beta/openai", env.google_key, "gemini-2.0-flash-exp")) by {
        broadcast use {Seq::add_empty_left, Seq::add_empty_right};

        lemma_provider_names_distinct();
        lemma_available_named(env, "Google AI Studio"@);
    }
}

/// The providers listed under the name LLM7.
proof fn lemma_listed_llm7(env: &ProviderEnv)
    ensures
        spec_available_providers(env).filter(named("LLM7"@)) == (if env.llm7_key is Some
            && env.llm7_key->0@.len() > 0 {
            seq![("LLM7"@, "https://api.llm7.io/v1"@, Some(env.llm7_key->0@), "default"@)]
        } else {
            Seq::<ProviderView>::empty()
        }),
{
    assert(spec_available_providers(env).filter(named("LLM7"@)) == keyed("LLM7", "https://api.llm7.io/v1", env.llm7_key, "default")) by {
        broadcast use {Seq::add_empty_left, Seq::add_empty_right};

        lemma_provider_names_distinct();
        lemma_available_named(env, "LLM7"@);
    }
}

/// The providers listed under the name Ollama (local).
proof fn lemma_listed_ollama(env: &ProviderEnv)
    ensures
        spec_available_providers(env).filter(named("Ollama (local)"@)) == seq![
            ("Ollama (local)"@, if env.ollama_base_url is Some && env.ollama_base_url->0@.len() > 0 {
                env.ollama_base_url->0@
            } else {
                "http://localhost:11434/v1"@
            }, None::<Seq<char>>, "qwen2.5-coder:7b"@),
        ],
{
    assert(spec_available_providers(env).filter(named("Ollama (local)"@)) == seq![ollama_view(env.ollama_base_url)]) by {
        broadcast use {Seq::add_empty_left, Seq::add_empty_right};

        lemma_provider_names_distinct();
        lemma_available_named(env, "Ollama (local)"@);
    }
}

/// Each keyed provider is listed exactly when its own key is set and not
/// empty, once, under its own base URL and default model, and carrying that
/// key; the local Ollama is listed exactly once whatever the keys, under the
/// configured base URL when one is set and not empty, else at localhost, and
/// with no key.
pub proof fn law_provider_listed_iff_own_key(env: &ProviderEnv)
    ensures
        spec_available_providers(env).filter(named("OpenRouter"@)) == (if env.openrouter_key is Some
            && env.openrouter_key->0@.len() > 0 {
            seq![("OpenRouter"@, "https://openrouter.ai/api/v1"@, Some(env.openrouter_key->0@), "meta-llama/llama-3.3-70b-instruct:free"@)]
        } else {
            Seq::<ProviderView>::empty()
        }),
        spec_available_providers(env).filter(named("Groq"@)) == (if env.groq_key is Some
            && env.groq_key->0@.len() > 0 {
            seq![("Groq"@, "https://api.groq.com/openai/v1"@, Some(env.groq_key->0@), "llama-3.3-70b-versatile"@)]
        } else {
            Seq::<ProviderView>::empty()
        }),
        spec_available_providers(env).filter(named("Cerebras"@)) == (if env.cerebras_key is Some
            && env.cerebras_key->0@.len() > 0 {
            seq![("Cerebras"@, "https://api.cerebras.ai/v1"@, Some(env.cerebras_key->0@), "llama-3.3-70b"@)]
        } else {
            Seq::<ProviderView>::empty()
        }),
        spec_available_providers(env).filter(named("SambaNova"@)) == (if env.sambanova_key is Some
            && env.sambanova_key->0@.len() > 0 {
            seq![("SambaNova"@, "https://api.sambanova.ai/v1"@, Some(env.sambanova_key->0@), "Qwen2.5-Coder-32B-Instruct"@)]
        } else {
            Seq::<ProviderView>::empty()
        }),
        spec_available_providers(env).filter(named("Mistral"@)) == (if env.mistral_key is Some
            && env.mistral_key->0@.len() > 0 {
            seq![("Mistral"@, "https://api.mistral.ai/v1"@, Some(env.mistral_key->0@), "mistral-small-latest"@)]
        } else {
            Seq::<ProviderView>::empty()
        }),
        spec_available_providers(env).filter(named("Google AI Studio"@)) == (if env.google_key is Some
            && env.google_key->0@.len() > 0 {
            seq![("Google AI Studio"@, "https://generativelanguage.googleapis.com/v1beta/openai"@, Some(env.google_key->0@), "gemini-2.0-flash-exp"@)]
        } else {
            Seq::<ProviderView>::empty()
        }),
        spec_available_providers(env).filter(named("LLM7"@)) == (if env.llm7_key is Some
            && env.llm7_key->0@.len() > 0 {
            seq![("LLM7"@, "https://api.llm7.io/v1"@, Some(env.llm7_key->0@), "default"@)]
        } else {
            Seq::<ProviderView>::empty()
        }),
        spec_available_providers(env).filter(named("Ollama (local)"@)) == seq![
            ("Ollama (local)"@, if env.ollama_base_url is Some && env.ollama_base_url->0@.len() > 0 {
                env.ollama_base_url->0@
            } else {
                "http://localhost:11434/v1"@
            }, None::<Seq<char>>, "qwen2.5-coder:7b"@),
        ],
{
    lemma_listed_openrouter(env);
    lemma_listed_groq(env);
    lemma_listed_cerebras(env);
    lemma_listed_sambanova(env);
    lemma_listed_mistral(env);
    lemma_listed_google(env);
    lemma_listed_llm7(env);
    lemma_listed_ollama(env);
}

/// The place of a provider in the failover order, by its name: OpenRouter,
/// Groq, Cerebras, SambaNova, Mistral, Google AI Studio, LLM7, then Ollama;
/// any other name comes after them all.
pub open spec fn failover_rank(name: Seq<char>) -> int {
    if name == "OpenRouter"@ {
        0
    } else if name == "Groq"@ {
        1
    } else if name == "Cerebras"@ {
        2
    } else if name == "SambaNova"@ {
        3
    } else if name == "Mistral"@ {
        4
    } else if name == "Google AI Studio"@ {
        5
    } else if name == "LLM7"@ {
        6
    } else if name == "Ollama (local)"@ {
        7
    } else {
        8
    }
}

/// The providers of a list stand in strictly rising failover order, each
/// before the place `r`.
pub open spec fn in_failover_order_below(s: Seq<ProviderView>, r: int) -> bool {
    &&& forall|i: int, j: int| 0 <= i < j < s.len() ==> failover_rank(s[i].0) < failover_rank(s[j].0)
    &&& forall|i: int| 0 <= i < s.len() ==> failover_rank(#[trigger] s[i].0) < r
}

/// Appending at most one provider of the place `r` to a list in order below
/// `r` keeps it in order, below `r + 1`.
proof fn lemma_append_in_order(a: Seq<ProviderView>, b: Seq<ProviderView>, r: int)
    requires
        in_failover_order_below(a, r),
        b.len() <= 1,
        forall|i: int| 0 <= i < b.len() ==> failover_rank(#[trigger] b[i].0) == r,
    ensures
        in_failover_order_below(a + b, r + 1),
{
    let s = a + b;
    assert forall|i: int, j: int| 0 <= i < j < s.len() implies failover_rank(s[i].0) < failover_rank(s[j].0) by {
        if j >= a.len() {
            assert(s[j] == b[j - a.len()]);
            assert(failover_rank(s[i].0) < r);
        }
    }
}

/// The entry of a keyed provider, when present, stands at that provider's
/// place.
proof fn lemma_keyed_rank(name: &str, base_url: &str, key: Option<String>, model: &str, r: int)
    requires
        failover_rank(name@) == r,
    ensures
        keyed(name, base_url, key, model).len() <= 1,
        forall|i: int| 0 <= i < keyed(name, base_url, key, model).len() ==> failover_rank(
            #[trigger] keyed(name, base_url, key, model)[i].0,
        ) == r,
{
}

/// The places of the providers' names.
proof fn lemma_failover_ranks()
    ensures
        failover_rank("OpenRouter"@) == 0,
        failover_rank("Groq"@) == 1,
        failover_rank("Cerebras"@) == 2,
        failover_rank("SambaNova"@) == 3,
        failover_rank("Mistral"@) == 4,
        failover_rank("Google AI Studio"@) == 5,
        failover_rank("LLM7"@) == 6,
        failover_rank("Ollama (local)"@) == 7,
{
    lemma_provider_names_distinct();
}

/// The configured providers are tried in the fixed failover order: OpenRouter,
/// Groq, Cerebras, SambaNova, Mistral, Google AI Studio, LLM7, and Ollama
/// last; no other provider is listed, and none twice.
pub proof fn law_failover_order(env: &ProviderEnv)
    ensures
        forall|i: int, j: int|
            0 <= i < j < spec_available_providers(env).len() ==> failover_rank(spec_available_providers(env)[i].0)
                < failover_rank(spec_available_providers(env)[j].0),
        forall|i: int|
            0 <= i < spec_available_providers(env).len() ==> failover_rank(
                #[trigger] spec_available_providers(env)[i].0,
            ) < 8,
{
    lemma_failover_ranks();
    let s0 = Seq::<ProviderView>::empty();
    lemma_keyed_rank("OpenRouter", "https://openrouter.ai/api/v1", env.openrouter_key, "meta-llama/llama-3.3-70b-instruct:free", 0);
    lemma_append_in_order(s0, keyed("OpenRouter", "https://openrouter.ai/api/v1", env.openrouter_key, "meta-llama/llama-3.3-70b-instruct:free"), 0);
    let s1 = s0 + keyed("OpenRouter", "https://openrouter.ai/api/v1", env.openrouter_key, "meta-llama/llama-3.3-70b-instruct:free");
    lemma_keyed_rank("Groq", "https://api.groq.com/openai/v1", env.groq_key, "llama-3.3-70b-versatile", 1);
    lemma_append_in_order(s1, keyed("Groq", "https://api.groq.com/openai/v1", env.groq_key, "llama-3.3-70b-versatile"), 1);
    let s2 = s1 + keyed("Groq", "https://api.groq.com/openai/v1", env.groq_key, "llama-3.3-70b-versatile");
    lemma_keyed_rank("Cerebras", "https://api.cerebras.ai/v1", env.cerebras_key, "llama-3.3-70b", 2);
    lemma_append_in_order(s2, keyed("Cerebras", "https://api.cerebras.ai/v1", env.cerebras_key, "llama-3.3-70b"), 2);
    let s3 = s2 + keyed("Cerebras", "https://api.cerebras.ai/v1", env.cerebras_key, "llama-3.3-70b");
    lemma_keyed_rank("SambaNova", "https://api.sambanova.ai/v1", env.sambanova_key, "Qwen2.5-Coder-32B-Instruct", 3);
    lemma_append_in_order(s3, keyed("SambaNova", "https://api.sambanova.ai/v1", env.sambanova_key, "Qwen2.5-Coder-32B-Instruct"), 3);
    let s4 = s3 + keyed("SambaNova", "https://api.sambanova.ai/v1", env.sambanova_key, "Qwen2.5-Coder-32B-Instruct");
    lemma_keyed_rank("Mistral", "https://api.mistral.ai/v1", env.mistral_key, "mistral-small-latest", 4);
    lemma_append_in_order(s4, keyed("Mistral", "https://api.mistral.ai/v1", env.mistral_key, "mistral-small-latest"), 4);
    let s5 = s4 + keyed("Mistral", "https://api.mistral.ai/v1", env.mistral_key, "mistral-small-latest");
    lemma_keyed_rank("Google AI Studio", "https://generativelanguage.googleapis.com/v1beta/openai", env.google_key, "gemini-2.0-flash-exp", 5);
    lemma_append_in_order(s5, keyed("Google AI Studio", "https://generativelanguage.googleapis.com/v1beta/openai", env.google_key, "gemini-2.0-flash-exp"), 5);
    let s6 = s5 + keyed("Google AI Studio", "https://generativelanguage.googleapis.com/v1beta/openai", env.google_key, "gemini-2.0-flash-exp");
    lemma_keyed_rank("LLM7", "https://api.llm7.io/v1", env.llm7_key, "default", 6);
    lemma_append_in_order(s6, keyed("LLM7", "https://api.llm7.io/v1", env.llm7_key, "default"), 6);
    let s7 = s6 + keyed("LLM7", "https://api.llm7.io/v1", env.llm7_key, "default");
    lemma_append_in_order(s7, seq![ollama_view(env.ollama_base_url)], 7);
    assert(s0 + keyed("OpenRouter", "https://openrouter.ai/api/v1", env.openrouter_key, "meta-llama/llama-3.3-70b-instruct:free")
        =~= keyed("OpenRouter", "https://openrouter.ai/api/v1", env.openrouter_key, "meta-llama/llama-3.3-70b-instruct:free"));
    assert(spec_available_providers(env) == s7 + seq![ollama_view(env.ollama_base_url)]);
}

} // verus!
