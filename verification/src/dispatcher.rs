//! The decisions of the task dispatch loop: how long to wait after each
//! poll of the queue, and what becomes of a task after its run.

use vstd::prelude::*;
use vstd::arithmetic::power2::pow2;
use std::sync::Arc;
use crate::agent::{AgentOutput, AgentRole, FreeLlmAgent, OutputMetadata, Task, TaskClaim};
use crate::search::starts_with;
use crate::text::{chars_of, to_owned_string};

verus! {

broadcast use vstd::string::group_string_axioms;

/// Wait after an empty poll, in milliseconds.
pub const IDLE_SLEEP_MS: u64 = 500;
/// First wait after a failed poll, in milliseconds.
pub const BACKOFF_START_MS: u64 = 200;
/// Longest wait after failed polls, in milliseconds.
pub const BACKOFF_MAX_MS: u64 = 30_000;

/// What a poll of the queue gave.
#[derive(Debug, Clone, Copy, PartialEq, Eq)]
pub enum PollOutcome {
    /// The queue reported an error.
    Failed,
    /// The queue was empty.
    Empty,
    /// A task was taken.
    Task,
}

/// The wait after a poll and the back-off for the next one.
pub open spec fn spec_after_poll(outcome: PollOutcome, backoff_ms: u64) -> (u64, u64) {
    match outcome {
        PollOutcome::Failed => (backoff_ms, if backoff_ms * 2 < BACKOFF_MAX_MS { (backoff_ms * 2) as u64 } else { BACKOFF_MAX_MS }),
        PollOutcome::Empty => (IDLE_SLEEP_MS, IDLE_SLEEP_MS),
        PollOutcome::Task => (0, BACKOFF_START_MS),
    }
}

/// After a failed poll the loop waits the current back-off and doubles it
/// up to 30 s; after an empty poll it waits 500 ms (and the back-off
/// becomes 500 ms); after a task it does not wait and the back-off starts
/// over at 200 ms. Returns (wait, next back-off).
pub fn after_poll(outcome: PollOutcome, backoff_ms: u64) -> (r: (u64, u64))
    requires
        backoff_ms <= u64::MAX / 2,
    ensures
        r == spec_after_poll(outcome, backoff_ms),
{
    match outcome {
        PollOutcome::Failed => {
            let doubled = backoff_ms * 2;
            (backoff_ms, if doubled < BACKOFF_MAX_MS { doubled } else { BACKOFF_MAX_MS })
        },
        PollOutcome::Empty => (IDLE_SLEEP_MS, IDLE_SLEEP_MS),
        PollOutcome::Task => (0, BACKOFF_START_MS),
    }
}

/// The loop never waits longer than 30 s: from a back-off within
/// [200 ms, 30 s], every poll leads to a wait of at most 30 s and a
/// back-off within the same bounds.
pub proof fn law_backoff_bounded(outcome: PollOutcome, backoff_ms: u64)
    requires
        BACKOFF_START_MS <= backoff_ms <= BACKOFF_MAX_MS,
    ensures
        spec_after_poll(outcome, backoff_ms).0 <= BACKOFF_MAX_MS,
        BACKOFF_START_MS <= spec_after_poll(outcome, backoff_ms).1 <= BACKOFF_MAX_MS,
{
}

/// The claim of the first agent, in the order given, that takes `task`,
/// made at `now_ms`, with the agent's position; `None` when no agent takes
/// the task.
pub fn claim_for(agents: &Vec<(AgentRole, Arc<FreeLlmAgent>)>, task: &Task, now_ms: i64) -> (r: Option<(usize, TaskClaim)>)
    ensures
        r is None <==> forall|j: int| 0 <= j < agents@.len() ==> !(#[trigger] agents@[j]).1.spec_claims(task),
        r matches Some((i, c)) ==> i < agents@.len() && agents@[i as int].1.spec_claims(task)
            && (forall|j: int| 0 <= j < i ==> !(#[trigger] agents@[j]).1.spec_claims(task))
            && c.task_id == task.id && c.agent_id == agents@[i as int].1.id && c.role
            == agents@[i as int].1.role && c.claimed_at_ms == now_ms,
{
    let mut i: usize = 0;
    while i < agents.len()
        invariant
            i <= agents@.len(),
            forall|j: int| 0 <= j < i ==> !(#[trigger] agents@[j]).1.spec_claims(task),
        decreases agents@.len() - i,
    {
        let agent: &FreeLlmAgent = &agents[i].1;
        match agent.claim_task(task, now_ms) {
            Some(c) => {
                return Some((i, c));
            },
            None => {},
        }
        i = i + 1;
    }
    None
}

/// The back-off after `k` consecutive failed polls, counted from the start
/// of the loop or from a poll that gave a task (back-off 200 ms).
pub open spec fn backoff_after_failures(k: nat) -> u64
    decreases k,
{
    if k == 0 {
        BACKOFF_START_MS
    } else {
        spec_after_poll(PollOutcome::Failed, backoff_after_failures((k - 1) as nat)).1
    }
}

/// `min(200 ms · 2^k, 30 s)`.
pub open spec fn capped_doubling(k: nat) -> int {
    if 200 * pow2(k) < BACKOFF_MAX_MS { (200 * pow2(k)) as int } else { BACKOFF_MAX_MS as int }
}

proof fn lemma_backoff_after_failures(k: nat)
    ensures
        backoff_after_failures(k) == capped_doubling(k),
    decreases k,
{
    if k == 0 {
        vstd::arithmetic::power2::lemma2_to64();
    } else {
        lemma_backoff_after_failures((k - 1) as nat);
        vstd::arithmetic::power2::lemma_pow2_unfold(k);
        vstd::arithmetic::power2::lemma_pow2_pos((k - 1) as nat);
    }
}

/// The back-off doubles from 200 ms up to 30 s: the `i`-th of consecutive
/// failed polls (from the start, or after a poll that gave a task) is
/// followed by a wait of `min(200 ms · 2^(i-1), 30 s)`.
pub proof fn law_backoff_closed_form(i: nat)
    requires
        i >= 1,
    ensures
        spec_after_poll(PollOutcome::Failed, backoff_after_failures((i - 1) as nat)).0 == capped_doubling(
            (i - 1) as nat,
        ),
{
    lemma_backoff_after_failures((i - 1) as nat);
}

/// The status of a task.
#[derive(Debug, Clone, Copy, PartialEq, Eq)]
pub enum TaskStatus {
    Pending,
    Claimed,
    InProgress,
    Completed,
    Failed,
}

/// What the loop records for a task after its run.
#[derive(Debug)]
pub struct RunRecord {
    pub status: TaskStatus,
    /// The error of a failed run.
    pub error: Option<String>,
    /// The summary and number of changes of a completed run.
    pub summary: Option<(String, usize)>,
    /// The output metadata of a completed run.
    pub metadata: Option<OutputMetadata>,
    /// Acknowledge the task (`true`) or hand it back as failed (`false`).
    pub ack: bool,
}

/// No plugin takes the task: it fails and goes back to the queue.
pub fn no_plugin_record() -> (r: RunRecord)
    ensures
        r.status == TaskStatus::Failed,
        r.error matches Some(e) && e@ == "kein passendes Plugin registriert"@,
        r.summary is None,
        r.metadata is None,
        !r.ack,
{
    RunRecord {
        status: TaskStatus::Failed,
        error: Some(to_owned_string("kein passendes Plugin registriert")),
        summary: None,
        metadata: None,
        ack: false,
    }
}

/// The record of a run: a completed run keeps its summary, change count
/// and metadata and is acknowledged; a failed run keeps its error and goes
/// back to the queue.
pub fn run_record(result: Result<AgentOutput, String>) -> (r: RunRecord)
    ensures
        result matches Ok(o) ==> r.status == TaskStatus::Completed && r.error is None && r.ack
            && (r.summary matches Some(s) && s.0 == o.summary && s.1 == o.changes@.len())
            && r.metadata == Some(o.metadata),
        result matches Err(e) ==> r.status == TaskStatus::Failed && r.error == Some(e) && !r.ack
            && r.summary is None && r.metadata is None,
{
    match result {
        Ok(o) => {
            let n = o.changes.len();
            RunRecord {
                status: TaskStatus::Completed,
                error: None,
                summary: Some((o.summary, n)),
                metadata: Some(o.metadata),
                ack: true,
            }
        },
        Err(e) => RunRecord { status: TaskStatus::Failed, error: Some(e), summary: None, metadata: None, ack: false },
    }
}

/// Before a task runs it is marked as in progress: the task as it is, with
/// the status `InProgress`.
pub fn mark_in_progress(task: &Task) -> (t: Task)
    ensures
        t@ == (task@.0, task@.1, task@.2, task@.3, task@.4, task@.5, TaskStatus::InProgress),
{
    let mut t = task.duplicate();
    t.status = TaskStatus::InProgress;
    t
}

/// The free-LLM mode is on when `DEVSTUDIO_USE_FREE_LLM` says `true` (in
/// any case) or `1`, or when one of the provider keys is set and not empty.
pub open spec fn spec_has_free_providers(flag: Option<Seq<char>>, keys: Seq<Option<Seq<char>>>) -> bool {
    (flag matches Some(f) && (crate::llm_router::lowercase(f) == "true"@ || f == "1"@)) || exists|i: int|
        0 <= i < keys.len() && (#[trigger] keys[i] matches Some(k) && k.len() > 0)
}

/// Whether the flag `DEVSTUDIO_USE_FREE_LLM` turns the free-LLM mode on,
/// given the flag and its lowercase form: `true` (in any case) or `1`.
pub fn flag_enables(flag: &str, lowered: &str) -> (r: bool)
    ensures
        r == (lowered@ == "true"@ || flag@ == "1"@),
{
    crate::text::str_eq(lowered, "true") || crate::text::str_eq(flag, "1")
}

/// Whether a free LLM provider is configured, from the flag and the keys
/// the environment holds.
pub fn has_free_providers(flag: Option<&str>, keys: &Vec<Option<String>>) -> (r: bool)
    ensures
        r == spec_has_free_providers(
            match flag {
                Some(f) => Some(f@),
                None => None,
            },
            keys@.map_values(|k: Option<String>| match k {
                Some(s) => Some(s@),
                None => None,
            }),
        ),
{
    let ghost kv = keys@.map_values(|k: Option<String>| match k {
        Some(s) => Some(s@),
        None => None,
    });
    match flag {
        Some(f) => {
            let lower = crate::llm_router::to_lowercase(f);
            if flag_enables(f, lower.as_str()) {
                return true;
            }
        },
        None => {},
    }
    let mut i: usize = 0;
    while i < keys.len()
        invariant
            i <= keys@.len(),
            kv == keys@.map_values(|k: Option<String>| match k {
                Some(s) => Some(s@),
                None => None,
            }),
            forall|j: int| 0 <= j < i ==> !(#[trigger] kv[j] matches Some(k) && k.len() > 0),
        decreases keys@.len() - i,
    {
        match &keys[i] {
            Some(k) => {
                if !k.as_str().is_empty() {
                    assert(kv[i as int] matches Some(q) && q.len() > 0);
                    return true;
                }
            },
            None => {},
        }
        i = i + 1;
    }
    false
}

/// The store is PostgreSQL when the database URL begins with `postgres`.
pub fn uses_postgres(url: &str) -> (r: bool)
    ensures
        r == starts_with(url@, "postgres"@),
{
    crate::search::starts_with_in(&chars_of(url), &chars_of("postgres"))
}

} // verus!
