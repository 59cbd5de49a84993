//! The decisions of the free-LLM failover router: which model to ask, which
//! provider to try next, how to read a provider's answer, and how requests
//! to an OpenAI-compatible endpoint are addressed.

use vstd::prelude::*;
use crate::llm_types::{ChatResponse, LlmCallResult, LlmError, ProviderConfig};
use crate::search::{contains_seq, contains_in, starts_with, starts_with_in, trim_end_char, trim_end_char_in, replace_char, replace_char_in, remove_char, remove_char_in};
use crate::text::{chars_of, concat, string_from_chars, to_owned_string};
use crate::codec::hex_digit;

verus! {

broadcast use vstd::string::group_string_axioms;

/// The views of a list of strings.
pub open spec fn views(v: Seq<String>) -> Seq<Seq<char>> {
    v.map_values(|s: String| s@)
}

/// Model-name fragments preferred on a local Ollama, best first.
pub open spec fn preferred_models() -> Seq<Seq<char>> {
    seq!["qwen2.5-coder"@, "deepseek-coder"@, "codellama"@, "llama3"@, "llama2"@]
}

/// The first model at or after `j` whose name contains `pat`.
pub open spec fn first_containing_from(avail: Seq<Seq<char>>, pat: Seq<char>, j: int) -> Option<int>
    decreases avail.len() - j,
{
    if j < 0 || j >= avail.len() {
        None
    } else if contains_seq(avail[j], pat) {
        Some(j)
    } else {
        first_containing_from(avail, pat, j + 1)
    }
}

/// The model chosen by preference: for the first preferred fragment that
/// some available model contains, the first such model.
pub open spec fn pick_preferred(avail: Seq<Seq<char>>, prefs: Seq<Seq<char>>) -> Option<Seq<char>>
    decreases prefs.len(),
{
    if prefs.len() == 0 {
        None
    } else {
        match first_containing_from(avail, prefs[0], 0) {
            Some(j) => Some(avail[j]),
            None => pick_preferred(avail, prefs.drop_first()),
        }
    }
}

/// A provider is the local Ollama when its name begins with "Ollama".
pub open spec fn is_ollama_name(name: Seq<char>) -> bool {
    starts_with(name, "Ollama"@)
}

/// The model the router asks for: on Ollama with models available, the
/// preferred one, else the first available; otherwise the provider's
/// default model.
pub open spec fn spec_resolve_model(name: Seq<char>, model: Seq<char>, avail: Seq<Seq<char>>) -> Seq<char> {
    if is_ollama_name(name) && avail.len() > 0 {
        match pick_preferred(avail, preferred_models()) {
            Some(m) => m,
            None => avail[0],
        }
    } else {
        model
    }
}

/// Some model of `avail` contains `pat`.
pub open spec fn any_contains(avail: Seq<Seq<char>>, pat: Seq<char>) -> bool {
    exists|i: int| 0 <= i < avail.len() && #[trigger] contains_seq(avail[i], pat)
}

/// The search from `j` finds the first model at or after `j` that contains
/// `pat`, and finds none exactly when no such model exists.
proof fn lemma_first_containing(avail: Seq<Seq<char>>, pat: Seq<char>, j: int)
    requires
        0 <= j,
    ensures
        first_containing_from(avail, pat, j) matches Some(k) ==> j <= k < avail.len() && contains_seq(avail[k], pat),
        first_containing_from(avail, pat, j) is None ==> forall|i: int| j <= i < avail.len() ==> !#[trigger] contains_seq(avail[i], pat),
    decreases avail.len() - j,
{
    if j < avail.len() && !contains_seq(avail[j], pat) {
        lemma_first_containing(avail, pat, j + 1);
        assert forall|i: int| j <= i < avail.len() implies first_containing_from(avail, pat, j) is None ==> !#[trigger] contains_seq(avail[i], pat) by {
            if i == j {
            }
        }
    }
}

/// The preference among available models, stated with the fragments
/// themselves: a model containing `qwen2.5-coder` first, then
/// `deepseek-coder`, `codellama`, `llama3`, `llama2`; none when no model
/// contains any of them. The chosen model is one of the available ones.
pub proof fn lemma_pick_preferred_order(avail: Seq<Seq<char>>)
    ensures
        pick_preferred(avail, preferred_models()) matches Some(m) ==> exists|j: int| 0 <= j < avail.len() && avail[j] == m,
        any_contains(avail, "qwen2.5-coder"@) ==> (pick_preferred(avail, preferred_models()) matches Some(m) && contains_seq(m, "qwen2.5-coder"@)),
        !any_contains(avail, "qwen2.5-coder"@) && any_contains(avail, "deepseek-coder"@) ==> (pick_preferred(avail, preferred_models()) matches Some(m) && contains_seq(m, "deepseek-coder"@)),
        !any_contains(avail, "qwen2.5-coder"@) && !any_contains(avail, "deepseek-coder"@) && any_contains(avail, "codellama"@)
            ==> (pick_preferred(avail, preferred_models()) matches Some(m) && contains_seq(m, "codellama"@)),
        !any_contains(avail, "qwen2.5-coder"@) && !any_contains(avail, "deepseek-coder"@) && !any_contains(avail, "codellama"@)
            && any_contains(avail, "llama3"@) ==> (pick_preferred(avail, preferred_models()) matches Some(m) && contains_seq(m, "llama3"@)),
        !any_contains(avail, "qwen2.5-coder"@) && !any_contains(avail, "deepseek-coder"@) && !any_contains(avail, "codellama"@)
            && !any_contains(avail, "llama3"@) && any_contains(avail, "llama2"@) ==> (pick_preferred(avail, preferred_models()) matches Some(m) && contains_seq(m, "llama2"@)),
        !any_contains(avail, "qwen2.5-coder"@) && !any_contains(avail, "deepseek-coder"@) && !any_contains(avail, "codellama"@)
            && !any_contains(avail, "llama3"@) && !any_contains(avail, "llama2"@) ==> pick_preferred(avail, preferred_models()) is None,
{
    let p0 = preferred_models();
    let p1 = p0.drop_first();
    let p2 = p1.drop_first();
    let p3 = p2.drop_first();
    let p4 = p3.drop_first();
    let p5 = p4.drop_first();
    assert(p1 =~= seq!["deepseek-coder"@, "codellama"@, "llama3"@, "llama2"@]);
    assert(p2 =~= seq!["codellama"@, "llama3"@, "llama2"@]);
    assert(p3 =~= seq!["llama3"@, "llama2"@]);
    assert(p4 =~= seq!["llama2"@]);
    assert(p5 =~= Seq::<Seq<char>>::empty());
    lemma_first_containing(avail, "qwen2.5-coder"@, 0);
    lemma_first_containing(avail, "deepseek-coder"@, 0);
    lemma_first_containing(avail, "codellama"@, 0);
    lemma_first_containing(avail, "llama3"@, 0);
    lemma_first_containing(avail, "llama2"@, 0);
    assert(pick_preferred(avail, p4) == match first_containing_from(avail, "llama2"@, 0) {
        Some(j) => Some(avail[j]),
        None => pick_preferred(avail, p5),
    });
    assert(pick_preferred(avail, p3) == match first_containing_from(avail, "llama3"@, 0) {
        Some(j) => Some(avail[j]),
        None => pick_preferred(avail, p4),
    });
    assert(pick_preferred(avail, p2) == match first_containing_from(avail, "codellama"@, 0) {
        Some(j) => Some(avail[j]),
        None => pick_preferred(avail, p3),
    });
    assert(pick_preferred(avail, p1) == match first_containing_from(avail, "deepseek-coder"@, 0) {
        Some(j) => Some(avail[j]),
        None => pick_preferred(avail, p2),
    });
    assert(pick_preferred(avail, p0) == match first_containing_from(avail, "qwen2.5-coder"@, 0) {
        Some(j) => Some(avail[j]),
        None => pick_preferred(avail, p1),
    });
}

/// On the local Ollama with models available, the router asks for a
/// coding model by preference: one containing `qwen2.5-coder`, else
/// `deepseek-coder`, else `codellama`, else `llama3`, else `llama2`, else
/// the first available model; the choice is always an available model.
/// Any other provider is asked for its default model.
pub proof fn law_model_preference(name: Seq<char>, model: Seq<char>, avail: Seq<Seq<char>>)
    ensures
        !(is_ollama_name(name) && avail.len() > 0) ==> spec_resolve_model(name, model, avail) == model,
        is_ollama_name(name) && avail.len() > 0 ==> exists|j: int| 0 <= j < avail.len() && avail[j] == spec_resolve_model(name, model, avail),
        is_ollama_name(name) && any_contains(avail, "qwen2.5-coder"@) ==> contains_seq(spec_resolve_model(name, model, avail), "qwen2.5-coder"@),
        is_ollama_name(name) && !any_contains(avail, "qwen2.5-coder"@) && any_contains(avail, "deepseek-coder"@) ==> contains_seq(
            spec_resolve_model(name, model, avail),
            "deepseek-coder"@,
        ),
        is_ollama_name(name) && !any_contains(avail, "qwen2.5-coder"@) && !any_contains(avail, "deepseek-coder"@) && any_contains(avail, "codellama"@)
            ==> contains_seq(spec_resolve_model(name, model, avail), "codellama"@),
        is_ollama_name(name) && !any_contains(avail, "qwen2.5-coder"@) && !any_contains(avail, "deepseek-coder"@) && !any_contains(avail, "codellama"@)
            && any_contains(avail, "llama3"@) ==> contains_seq(spec_resolve_model(name, model, avail), "llama3"@),
        is_ollama_name(name) && !any_contains(avail, "qwen2.5-coder"@) && !any_contains(avail, "deepseek-coder"@) && !any_contains(avail, "codellama"@)
            && !any_contains(avail, "llama3"@) && any_contains(avail, "llama2"@) ==> contains_seq(spec_resolve_model(name, model, avail), "llama2"@),
        is_ollama_name(name) && avail.len() > 0 && !any_contains(avail, "qwen2.5-coder"@) && !any_contains(avail, "deepseek-coder"@)
            && !any_contains(avail, "codellama"@) && !any_contains(avail, "llama3"@) && !any_contains(avail, "llama2"@)
            ==> spec_resolve_model(name, model, avail) == avail[0],
{
    lemma_pick_preferred_order(avail);
    if is_ollama_name(name) && any_contains(avail, "qwen2.5-coder"@) {
        assert(avail.len() > 0);
    }
    if is_ollama_name(name) && any_contains(avail, "deepseek-coder"@) {
        assert(avail.len() > 0);
    }
    if is_ollama_name(name) && any_contains(avail, "codellama"@) {
        assert(avail.len() > 0);
    }
    if is_ollama_name(name) && any_contains(avail, "llama3"@) {
        assert(avail.len() > 0);
    }
    if is_ollama_name(name) && any_contains(avail, "llama2"@) {
        assert(avail.len() > 0);
    }
}

/// Whether the provider is the local Ollama.
pub fn is_ollama(provider: &ProviderConfig) -> (r: bool)
    ensures
        r == is_ollama_name(provider.name@),
{
    starts_with_in(&chars_of(provider.name), &chars_of("Ollama"))
}

/// The first available model at or after `from` whose name contains `pat`.
fn first_containing(avail: &Vec<String>, pat: &str, from: usize) -> (r: Option<usize>)
    requires
        from <= avail@.len(),
    ensures
        r matches Some(j) ==> first_containing_from(views(avail@), pat@, from as int) == Some(j as int) && j < avail@.len(),
        r is None ==> first_containing_from(views(avail@), pat@, from as int) is None,
{
    let p = chars_of(pat);
    let mut j: usize = from;
    while j < avail.len()
        invariant
            from <= j <= avail@.len(),
            p@ == pat@,
            first_containing_from(views(avail@), pat@, from as int) == first_containing_from(views(avail@), pat@, j as int),
        decreases avail@.len() - j,
    {
        assert(views(avail@)[j as int] == avail@[j as int]@);
        if contains_in(&chars_of(avail[j].as_str()), &p) {
            return Some(j);
        }
        j = j + 1;
    }
    None
}

/// The preferred model among `avail`, in the order of `preferred_models`.
pub fn preferred_model(avail: &Vec<String>) -> (r: Option<String>)
    ensures
        r matches Some(m) ==> pick_preferred(views(avail@), preferred_models()) == Some(m@),
        r is None ==> pick_preferred(views(avail@), preferred_models()) is None,
{
    let prefs: [&str; 5] = ["qwen2.5-coder", "deepseek-coder", "codellama", "llama3", "llama2"];
    let ghost all = preferred_models();
    assert(forall|k: int| 0 <= k < 5 ==> #[trigger] prefs@[k]@ == all[k]);
    let mut k: usize = 0;
    assert(all.skip(0) =~= all);
    while k < 5
        invariant
            k <= 5,
            all == preferred_models(),
            forall|q: int| 0 <= q < 5 ==> #[trigger] prefs@[q]@ == all[q],
            pick_preferred(views(avail@), all) == pick_preferred(views(avail@), all.skip(k as int)),
        decreases 5 - k,
    {
        let pref = prefs[k];
        assert(all.skip(k as int)[0] == all[k as int]);
        assert(all.skip(k as int).drop_first() =~= all.skip(k + 1));
        match first_containing(avail, pref, 0) {
            Some(j) => {
                assert(views(avail@)[j as int] == avail@[j as int]@);
                return Some(avail[j].clone());
            },
            None => {},
        }
        k = k + 1;
    }
    assert(all.skip(5) =~= Seq::<Seq<char>>::empty());
    None
}

/// The model to request from `provider`, given the models a local Ollama
/// lists (`available`; the router lists them only for Ollama).
pub fn resolve_model(provider: &ProviderConfig, available: &Vec<String>) -> (m: String)
    ensures
        m@ == spec_resolve_model(provider.name@, provider.model@, views(available@)),
{
    if is_ollama(provider) && available.len() > 0 {
        match preferred_model(available) {
            Some(m) => m,
            None => {
                assert(views(available@)[0] == available@[0]@);
                available[0].clone()
            },
        }
    } else {
        to_owned_string(provider.model)
    }
}

/// A response status counts as success when it lies in 200..=299.
pub open spec fn is_success(status: u16) -> bool {
    200 <= status <= 299
}

/// Ollama counts as reachable when its models endpoint answers a HEAD
/// request with success or 405; a transport failure (`None`) does not.
pub fn reachable_status(status: Option<u16>) -> (r: bool)
    ensures
        r == (status matches Some(s) && (is_success(s) || s == 405)),
{
    match status {
        Some(s) => (200 <= s && s <= 299) || s == 405,
        None => false,
    }
}

/// The URL of an endpoint: the base URL without trailing slashes, then the
/// path.
pub fn endpoint_url(base_url: &str, path: &str) -> (url: String)
    ensures
        url@ == trim_end_char(base_url@, '/') + path@,
{
    let base = string_from_chars(&trim_end_char_in(&chars_of(base_url), '/'));
    concat(base.as_str(), path)
}

/// The bearer token to send: the API key when it is present and not empty.
pub fn bearer_key(api_key: Option<&str>) -> (r: Option<&str>)
    ensures
        r == (match api_key {
            Some(k) => if k@.len() > 0 { Some(k) } else { None },
            None => None,
        }),
{
    match api_key {
        Some(k) => if k.is_empty() {
            None
        } else {
            Some(k)
        },
        None => None,
    }
}

/// Whether a response status counts as success (2xx); a request that
/// failed otherwise becomes `LlmError::Http` with the response body.
pub fn status_ok(status: u16) -> (r: bool)
    ensures
        r == is_success(status),
{
    200 <= status && status <= 299
}

/// The error for an unreachable local Ollama.
pub fn ollama_unreachable(provider: &ProviderConfig) -> (e: LlmError)
    ensures
        e matches LlmError::Provider { provider: p, message: m } && p@ == provider.name@ && m@
            == "Ollama ist nicht erreichbar — läuft `ollama serve`?"@,
{
    LlmError::Provider {
        provider: to_owned_string(provider.name),
        message: to_owned_string("Ollama ist nicht erreichbar — läuft `ollama serve`?"),
    }
}

/// The result of a provider call from its response: an error when the
/// response has no choices; else the first answer's text, the model the
/// response names (the requested one when it names none) and the total
/// token count.
pub fn call_result(provider: &ProviderConfig, requested_model: String, resp: ChatResponse) -> (r: Result<LlmCallResult, LlmError>)
    ensures
        resp.choices@.len() == 0 ==> (r matches Err(LlmError::Provider { provider: p, message: m })
            && p@ == provider.name@ && m@ == "leere Antwort (keine choices)"@),
        resp.choices@.len() > 0 ==> (r matches Ok(res) && res.provider == provider.name
            && res.text@ == resp.spec_text() && res.model@ == (match resp.model {
                Some(m) => m@,
                None => requested_model@,
            }) && res.tokens == (match resp.usage {
                Some(u) => u.total_tokens,
                None => None,
            })),
{
    if resp.choices.len() == 0 {
        return Err(LlmError::Provider {
            provider: to_owned_string(provider.name),
            message: to_owned_string("leere Antwort (keine choices)"),
        });
    }
    let text = to_owned_string(resp.text());
    let tokens = match &resp.usage {
        Some(u) => u.total_tokens,
        None => None,
    };
    let model = match resp.model {
        Some(m) => m,
        None => requested_model,
    };
    Ok(LlmCallResult { provider: provider.name, model, text, tokens })
}

/// What the router does next.
pub enum FailoverStep {
    /// Try the provider at this position.
    Try(usize),
    /// Stop with this result.
    Finished(Result<LlmCallResult, LlmError>),
}

/// The first step of a chat: no providers is an error, else try the first.
pub fn failover_start(providers: &Vec<ProviderConfig>) -> (s: FailoverStep)
    ensures
        providers@.len() == 0 ==> s matches FailoverStep::Finished(Err(LlmError::NoProviders)),
        providers@.len() > 0 ==> s matches FailoverStep::Try(0),
{
    if providers.len() == 0 {
        FailoverStep::Finished(Err(LlmError::NoProviders))
    } else {
        FailoverStep::Try(0)
    }
}

/// The step after trying provider `i`: a success ends the chat; a failure
/// moves on to the next provider, and after the last one ends the chat with
/// `AllFailed`, naming the last provider and its error.
pub fn failover_next(providers: &Vec<ProviderConfig>, i: usize, outcome: Result<LlmCallResult, LlmError>) -> (s: FailoverStep)
    requires
        i < providers@.len(),
    ensures
        outcome is Ok ==> s == FailoverStep::Finished(outcome),
        outcome is Err && i + 1 < providers@.len() ==> s == FailoverStep::Try((i + 1) as usize),
        outcome is Err && i + 1 == providers@.len() ==> (s matches FailoverStep::Finished(Err(LlmError::AllFailed(m)))
            && m@ == providers@[i as int].name@ + ": "@ + outcome->Err_0.spec_message()),
        step_of(s, i as int) == step_view(providers@.len() as int, i as int, outcome is Ok),
{
    match outcome {
        Ok(r) => FailoverStep::Finished(Ok(r)),
        Err(e) => {
            if i < providers.len() - 1 {
                FailoverStep::Try(i + 1)
            } else {
                let s = concat(providers[i].name, ": ");
                let m = e.message();
                FailoverStep::Finished(Err(LlmError::AllFailed(concat(s.as_str(), m.as_str()))))
            }
        },
    }
}

/// A failover step seen abstractly: try a position, succeed with the
/// answer of a position, or give up after the failure of a position.
pub enum StepView {
    Try(int),
    Answered(int),
    GaveUp(int),
}

/// The abstract step after provider `i` answered (`ok`) or failed.
pub open spec fn step_view(n: int, i: int, ok: bool) -> StepView {
    if ok {
        StepView::Answered(i)
    } else if i + 1 < n {
        StepView::Try(i + 1)
    } else {
        StepView::GaveUp(i)
    }
}

/// A router step taken after provider `i`, seen abstractly.
pub open spec fn step_of(s: FailoverStep, i: int) -> StepView {
    match s {
        FailoverStep::Try(j) => StepView::Try(j as int),
        FailoverStep::Finished(Ok(_)) => StepView::Answered(i),
        FailoverStep::Finished(Err(_)) => StepView::GaveUp(i),
    }
}

/// Running the failover from position `i` when provider `k` answers exactly
/// when `oks[k]`.
pub open spec fn run_failover(n: int, oks: Seq<bool>, i: int) -> StepView
    decreases n - i,
{
    if i < 0 || i >= n {
        StepView::GaveUp(n - 1)
    } else {
        match step_view(n, i, oks[i]) {
            StepView::Try(j) => run_failover(n, oks, j),
            other => other,
        }
    }
}

/// Failover answers with the first provider, in failover order, that
/// answers, and gives up (after the last provider) only when none does.
pub proof fn law_failover_first_success(n: int, oks: Seq<bool>, i: int)
    requires
        0 <= i < n,
        oks.len() == n,
    ensures
        (exists|k: int| i <= k < n && #[trigger] oks[k]) ==> (run_failover(n, oks, i) matches StepView::Answered(k)
            && i <= k < n && oks[k] && forall|j: int| i <= j < k ==> !oks[j]),
        !(exists|k: int| i <= k < n && #[trigger] oks[k]) ==> run_failover(n, oks, i) == StepView::GaveUp(n - 1),
    decreases n - i,
{
    if !oks[i] && i + 1 < n {
        law_failover_first_success(n, oks, i + 1);
        if exists|k: int| i <= k < n && #[trigger] oks[k] {
            let k = choose|k: int| i <= k < n && #[trigger] oks[k];
            assert(i + 1 <= k);
        }
    }
}

/// The entry of the free-model listing for a non-Ollama provider: its name
/// lowercased with spaces turned into dashes, a slash, its default model.
pub open spec fn listing_entry(name: Seq<char>, model: Seq<char>) -> Seq<char> {
    replace_char(lowercase(name), ' ', '-') + "/"@ + model
}

/// The listing entry of a provider from its lowercased name: spaces turned
/// into dashes, a slash, the default model.
pub fn listing_entry_from_lowered(lowered_name: &str, model: &str) -> (r: String)
    ensures
        r@ == replace_char(lowered_name@, ' ', '-') + "/"@ + model@,
{
    let slug = string_from_chars(&replace_char_in(&chars_of(lowered_name), ' ', '-'));
    let s = concat(slug.as_str(), "/");
    concat(s.as_str(), model)
}

/// The lowercase form of a text (`str::to_lowercase`, Unicode-aware).
pub uninterp spec fn lowercase(s: Seq<char>) -> Seq<char>;

/// `str::to_lowercase`; its result is named `lowercase`.
#[verifier::external_body]
pub(crate) fn to_lowercase(s: &str) -> (r: String)
    ensures
        r@ == lowercase(s@),
{
    s.to_lowercase()
}

/// The Ollama entries of the listing: each listed model behind `ollama/`.
pub open spec fn ollama_entries(ms: Seq<Seq<char>>) -> Seq<Seq<char>> {
    ms.map_values(|m: Seq<char>| "ollama/"@ + m)
}

/// The listing of all free models: for Ollama each model it lists, as
/// `ollama/<model>`; for every other provider one entry for its default
/// model.
pub open spec fn spec_listing(providers: Seq<ProviderConfig>, ollama_models: Seq<Seq<char>>) -> Seq<Seq<char>>
    decreases providers.len(),
{
    if providers.len() == 0 {
        Seq::empty()
    } else {
        let p = providers.last();
        spec_listing(providers.drop_last(), ollama_models) + if is_ollama_name(p.name@) {
            ollama_entries(ollama_models)
        } else {
            seq![listing_entry(p.name@, p.model@)]
        }
    }
}

/// Lists all free models of the configured providers, given the models the
/// local Ollama lists.
pub fn list_free_models(providers: &Vec<ProviderConfig>, ollama_models: &Vec<String>) -> (out: Vec<String>)
    ensures
        views(out@) == spec_listing(providers@, views(ollama_models@)),
{
    let mut out: Vec<String> = Vec::new();
    let mut i: usize = 0;
    assert(views(out@) =~= spec_listing(providers@.take(0), views(ollama_models@)));
    while i < providers.len()
        invariant
            i <= providers@.len(),
            views(out@) == spec_listing(providers@.take(i as int), views(ollama_models@)),
        decreases providers@.len() - i,
    {
        let p = &providers[i];
        let ghost before = views(out@);
        assert(providers@.take(i + 1).drop_last() =~= providers@.take(i as int));
        if is_ollama(p) {
            let mut j: usize = 0;
            while j < ollama_models.len()
                invariant
                    j <= ollama_models@.len(),
                    views(out@) == before + ollama_entries(views(ollama_models@).take(j as int)),
                decreases ollama_models@.len() - j,
            {
                let entry = concat("ollama/", ollama_models[j].as_str());
                let ghost prev = views(out@);
                out.push(entry);
                assert(views(out@) =~= prev.push(entry@));
                assert(views(ollama_models@).take(j + 1) =~= views(ollama_models@).take(j as int).push(ollama_models@[j as int]@));
                assert(ollama_entries(views(ollama_models@).take(j + 1)) =~= ollama_entries(views(ollama_models@).take(j as int)).push("ollama/"@ + ollama_models@[j as int]@));
                assert(views(out@) =~= before + ollama_entries(views(ollama_models@).take(j + 1)));
                j = j + 1;
            }
            assert(views(ollama_models@).take(ollama_models@.len() as int) =~= views(ollama_models@));
        } else {
            let lower = to_lowercase(p.name);
            let entry = listing_entry_from_lowered(lower.as_str(), p.model);
            out.push(entry);
            assert(views(out@) =~= before + seq![listing_entry(p.name@, p.model@)]);
        }
        i = i + 1;
    }
    assert(providers@.take(providers@.len() as int) =~= providers@);
    out
}

/// One character of a message inside a JSON string: a double quote becomes
/// a single quote, a backslash is escaped, a control character (below
/// U+0020) becomes `\u00XX` with lowercase hex digits; any other character
/// stands as it is.
pub open spec fn json_char(c: char) -> Seq<char> {
    if c == '"' {
        seq!['\'']
    } else if c == '\\' {
        seq!['\\', '\\']
    } else if (c as u32) < 0x20 {
        seq!['\\', 'u', '0', '0', hex_digit((c as u32) as nat / 16), hex_digit((c as u32) as nat % 16)]
    } else {
        seq![c]
    }
}

/// A message made fit for the inside of a JSON string, character by
/// character.
pub open spec fn json_escape(s: Seq<char>) -> Seq<char>
    decreases s.len(),
{
    if s.len() == 0 {
        Seq::empty()
    } else {
        json_escape(s.drop_last()) + json_char(s.last())
    }
}

/// The lowercase hexadecimal digit for `d`.
fn hex_char(d: u32) -> (c: char)
    requires
        d < 16,
    ensures
        c == hex_digit(d as nat),
{
    let c = match d {
        0 => '0',
        1 => '1',
        2 => '2',
        3 => '3',
        4 => '4',
        5 => '5',
        6 => '6',
        7 => '7',
        8 => '8',
        9 => '9',
        10 => 'a',
        11 => 'b',
        12 => 'c',
        13 => 'd',
        14 => 'e',
        _ => 'f',
    };
    c
}

/// The escaped form of a message, ready to stand between the quotes of a
/// JSON string.
pub fn json_escaped(msg: &str) -> (r: String)
    ensures
        r@ == json_escape(msg@),
{
    let v = chars_of(msg);
    let mut out: Vec<char> = Vec::new();
    let mut i: usize = 0;
    while i < v.len()
        invariant
            i <= v@.len(),
            v@ == msg@,
            out@ == json_escape(v@.take(i as int)),
        decreases v@.len() - i,
    {
        let c = v[i];
        assert(v@.take(i + 1).drop_last() =~= v@.take(i as int));
        assert(v@.take(i + 1).last() == c);
        let ghost before = out@;
        let code = c as u32;
        if c == '"' {
            out.push('\'');
        } else if c == '\\' {
            out.push('\\');
            out.push('\\');
        } else if code < 0x20 {
            out.push('\\');
            out.push('u');
            out.push('0');
            out.push('0');
            out.push(hex_char(code / 16));
            out.push(hex_char(code % 16));
        } else {
            out.push(c);
        }
        assert(out@ =~= before + json_char(c));
        i = i + 1;
    }
    assert(v@.take(v@.len() as int) =~= v@);
    string_from_chars(&out)
}

/// The reply text of the C interface for an error message: a JSON object
/// whose only key "error" holds the message as a JSON string, escaped by
/// `json_escape`.
pub fn json_error_text(msg: &str) -> (r: String)
    ensures
        r@ == "{\"error\":\""@ + json_escape(msg@) + "\"}"@,
{
    let escaped = json_escaped(msg);
    let s = concat("{\"error\":\"", escaped.as_str());
    concat(s.as_str(), "\"}")
}

/// A text made fit for a C string: every NUL character removed.
pub fn c_string_text(s: &str) -> (r: String)
    ensures
        r@ == remove_char(s@, '\0'),
{
    string_from_chars(&remove_char_in(&chars_of(s), '\0'))
}

/// The token limit of a request on the C interface: the given one, 4096
/// when none is given.
pub fn request_max_tokens(max_tokens: Option<u32>) -> (r: u32)
    ensures
        r == (match max_tokens {
            Some(m) => m,
            None => 4096,
        }),
{
    match max_tokens {
        Some(m) => m,
        None => 4096,
    }
}

} // verus!
