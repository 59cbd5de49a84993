//! The application's metrics: which counter each event increments, with
//! which labels. The exporter records the samples.

use vstd::prelude::*;
use crate::text::{decimal, to_owned_string, u64_to_string};

verus! {

/// One increment of a named counter.
#[derive(Debug)]
pub struct MetricSample {
    /// The counter's name.
    pub name: &'static str,
    /// Label names and values.
    pub labels: Vec<(&'static str, String)>,
    /// The amount to add.
    pub increment: u64,
}

/// The label pairs as plain values.
pub open spec fn label_views(l: Seq<(&'static str, String)>) -> Seq<(Seq<char>, Seq<char>)> {
    l.map_values(|p: (&'static str, String)| (p.0@, p.1@))
}

/// A served HTTP request: `devstudio_requests_total` by method, path and
/// status.
pub fn record_request(method: &str, path: &str, status: u16) -> (m: MetricSample)
    ensures
        m.name@ == "devstudio_requests_total"@,
        m.increment == 1,
        label_views(m.labels@) == seq![("method"@, method@), ("path"@, path@), ("status"@, decimal(status as nat))],
{
    let mut labels: Vec<(&'static str, String)> = Vec::new();
    labels.push(("method", to_owned_string(method)));
    labels.push(("path", to_owned_string(path)));
    labels.push(("status", u64_to_string(status as u64)));
    assert(label_views(labels@) =~= seq![("method"@, method@), ("path"@, path@), ("status"@, decimal(status as nat))]);
    MetricSample { name: "devstudio_requests_total", labels, increment: 1 }
}

/// A completed task: `devstudio_tasks_completed_total`.
pub fn record_task_completed() -> (m: MetricSample)
    ensures
        m.name@ == "devstudio_tasks_completed_total"@,
        m.increment == 1,
        m.labels@.len() == 0,
{
    MetricSample { name: "devstudio_tasks_completed_total", labels: Vec::new(), increment: 1 }
}

/// A failed task: `devstudio_tasks_failed_total`.
pub fn record_task_failed() -> (m: MetricSample)
    ensures
        m.name@ == "devstudio_tasks_failed_total"@,
        m.increment == 1,
        m.labels@.len() == 0,
{
    MetricSample { name: "devstudio_tasks_failed_total", labels: Vec::new(), increment: 1 }
}

/// A call of an LLM provider: `devstudio_llm_calls_total` by provider.
pub fn record_llm_call(provider: &str) -> (m: MetricSample)
    ensures
        m.name@ == "devstudio_llm_calls_total"@,
        m.increment == 1,
        label_views(m.labels@) == seq![("provider"@, provider@)],
{
    let mut labels: Vec<(&'static str, String)> = Vec::new();
    labels.push(("provider", to_owned_string(provider)));
    assert(label_views(labels@) =~= seq![("provider"@, provider@)]);
    MetricSample { name: "devstudio_llm_calls_total", labels, increment: 1 }
}

/// A failed call of an LLM provider: `devstudio_llm_errors_total` by
/// provider.
pub fn record_llm_error(provider: &str) -> (m: MetricSample)
    ensures
        m.name@ == "devstudio_llm_errors_total"@,
        m.increment == 1,
        label_views(m.labels@) == seq![("provider"@, provider@)],
{
    let mut labels: Vec<(&'static str, String)> = Vec::new();
    labels.push(("provider", to_owned_string(provider)));
    assert(label_views(labels@) =~= seq![("provider"@, provider@)]);
    MetricSample { name: "devstudio_llm_errors_total", labels, increment: 1 }
}

} // verus!
