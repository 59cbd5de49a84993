//! `FreeLlmAgent`: the agent that works every development role with free LLM
//! providers. This module holds its decisions: the system prompt per role,
//! which tasks it claims, the prompts it sends, how it turns an answer into
//! a code change and a review, and how it reads JSON out of an answer.

use vstd::prelude::*;
use vstd::string::StringSliceAdditionalSpecFns;
use std::sync::Arc;
use crate::codec::{hex_bytes, hex_encode, is_v4_uuid, new_uuid_v4, sha256, sha256_digest, uuid_hyphenated, uuid_to_string};
use crate::llm_types::{LlmCallResult, LlmError};
use crate::dispatcher::TaskStatus;
use crate::search::{find, find_in, rfind_char, rfind_char_in, slice_chars, trim, trim_chars};
use crate::text::{chars_of, concat, string_from_chars, to_owned_string};

verus! {

broadcast use vstd::string::group_string_axioms;

/// The six development roles.
#[derive(Debug, Clone, Copy, PartialEq, Eq, Structural)]
pub enum AgentRole {
    Requirements,
    Architecture,
    Coding,
    Testing,
    Security,
    Deployment,
}

/// The system prompt that sets up the model for a role.
pub open spec fn spec_system_prompt(role: AgentRole) -> Seq<char> {
    match role {
        AgentRole::Requirements => "Du bist ein erfahrener Requirements Engineer. Analysiere die Anforderungen und erstelle klare User Stories mit Akzeptanzkriterien. Antworte präzise auf Deutsch oder Englisch."@,
        AgentRole::Architecture => "Du bist ein erfahrener Software-Architekt. Entwirf robuste, skalierbare Systemarchitekturen. Beschreibe Komponenten, Abhängigkeiten und API-Verträge präzise."@,
        AgentRole::Coding => "Du bist ein Senior Software Engineer. Schreibe sauberen, produktionsreifen Code. Halte dich an Rust-Best-Practices: idiomatisch, typsicher, mit Fehlerbehandlung. Gib nur Code ohne Erklärung zurück, sofern nicht explizit anders gefragt."@,
        AgentRole::Testing => "Du bist ein QA Engineer. Schreibe umfassende Tests: Unit-Tests, Integrationstests und Property-based Tests. Strebe ≥80 % Abdeckung an. Verwende das Test-Framework der Zielsprache."@,
        AgentRole::Security => "Du bist ein Security Engineer. Analysiere Code auf Sicherheitsprobleme: Injections, unsichere Deserialisierung, exponierte Secrets, unsichere Krypto und weitere OWASP-Top-10-Risiken. Antworte mit konkreten Findings und Lösungsvorschlägen."@,
        AgentRole::Deployment => "Du bist ein DevOps / Platform Engineer. Erstelle produktionsreife Deployment-Konfigurationen: Dockerfiles, CI/CD-Pipelines, Kubernetes-Manifeste, IaC-Code. Halte dich an aktuelle Best Practices."@,
    }
}

/// The system prompt for a role.
pub fn system_prompt_for(role: &AgentRole) -> (p: &'static str)
    ensures
        p@ == spec_system_prompt(*role),
{
    match role {
        AgentRole::Requirements => "Du bist ein erfahrener Requirements Engineer. Analysiere die Anforderungen und erstelle klare User Stories mit Akzeptanzkriterien. Antworte präzise auf Deutsch oder Englisch.",
        AgentRole::Architecture => "Du bist ein erfahrener Software-Architekt. Entwirf robuste, skalierbare Systemarchitekturen. Beschreibe Komponenten, Abhängigkeiten und API-Verträge präzise.",
        AgentRole::Coding => "Du bist ein Senior Software Engineer. Schreibe sauberen, produktionsreifen Code. Halte dich an Rust-Best-Practices: idiomatisch, typsicher, mit Fehlerbehandlung. Gib nur Code ohne Erklärung zurück, sofern nicht explizit anders gefragt.",
        AgentRole::Testing => "Du bist ein QA Engineer. Schreibe umfassende Tests: Unit-Tests, Integrationstests und Property-based Tests. Strebe ≥80 % Abdeckung an. Verwende das Test-Framework der Zielsprache.",
        AgentRole::Security => "Du bist ein Security Engineer. Analysiere Code auf Sicherheitsprobleme: Injections, unsichere Deserialisierung, exponierte Secrets, unsichere Krypto und weitere OWASP-Top-10-Risiken. Antworte mit konkreten Findings und Lösungsvorschlägen.",
        AgentRole::Deployment => "Du bist ein DevOps / Platform Engineer. Erstelle produktionsreife Deployment-Konfigurationen: Dockerfiles, CI/CD-Pipelines, Kubernetes-Manifeste, IaC-Code. Halte dich an aktuelle Best Practices.",
    }
}

/// The plugin name of a role.
pub open spec fn spec_role_name(role: AgentRole) -> Seq<char> {
    match role {
        AgentRole::Requirements => "requirements"@,
        AgentRole::Architecture => "architecture"@,
        AgentRole::Coding => "coding"@,
        AgentRole::Testing => "testing"@,
        AgentRole::Security => "security"@,
        AgentRole::Deployment => "deployment"@,
    }
}

/// How urgent a task is.
#[derive(Debug, Clone, Copy, PartialEq, Eq, Structural)]
pub enum TaskPriority {
    Low,
    Normal,
    High,
    Critical,
}

impl TaskPriority {
    /// The rank of a priority: the higher, the sooner the task is taken.
    pub open spec fn spec_rank(self) -> u8 {
        match self {
            TaskPriority::Low => 0,
            TaskPriority::Normal => 1,
            TaskPriority::High => 2,
            TaskPriority::Critical => 3,
        }
    }

    /// The rank of the priority.
    pub fn rank(&self) -> (r: u8)
        ensures
            r == self.spec_rank(),
    {
        match self {
            TaskPriority::Low => 0,
            TaskPriority::Normal => 1,
            TaskPriority::High => 2,
            TaskPriority::Critical => 3,
        }
    }
}

impl Default for TaskPriority {
    /// Tasks are of normal priority unless stated otherwise.
    fn default() -> (p: Self)
        ensures
            p == TaskPriority::Normal,
    {
        TaskPriority::Normal
    }
}

/// A development task, as far as an agent and the queue read it.
#[derive(Debug, Clone)]
pub struct Task {
    pub id: u128,
    pub title: String,
    pub description: String,
    /// The role that must work the task, when one is required.
    pub required_role: Option<AgentRole>,
    /// How urgent the task is.
    pub priority: TaskPriority,
    /// The project the task belongs to.
    pub project_id: u128,
    /// Where the task stands.
    pub status: TaskStatus,
}

/// A task as plain values: id, title, description, required role,
/// priority, project, status.
pub type TaskView = (u128, Seq<char>, Seq<char>, Option<AgentRole>, TaskPriority, u128, TaskStatus);

impl View for Task {
    type V = TaskView;

    open spec fn view(&self) -> TaskView {
        (self.id, self.title@, self.description@, self.required_role, self.priority, self.project_id, self.status)
    }
}

impl Task {
    /// A copy of the task.
    pub fn duplicate(&self) -> (t: Task)
        ensures
            t@ == self@,
    {
        Task {
            id: self.id,
            title: self.title.clone(),
            description: self.description.clone(),
            required_role: self.required_role,
            priority: self.priority,
            project_id: self.project_id,
            status: self.status,
        }
    }
}

/// An agent's claim on a task.
#[derive(Debug, Clone)]
pub struct TaskClaim {
    pub task_id: u128,
    pub agent_id: u128,
    pub role: AgentRole,
    /// Time of the claim, in milliseconds since the Unix epoch.
    pub claimed_at_ms: i64,
}

/// How a code change touches its file.
#[derive(Debug, Clone, Copy, PartialEq, Eq, Structural)]
pub enum ChangeKind {
    Created,
    Modified,
    Deleted,
}

/// A change to one file.
#[derive(Debug, Clone)]
pub struct CodeChange {
    pub path: String,
    pub kind: ChangeKind,
    pub content: String,
    /// Lowercase hex SHA-256 of the content.
    pub checksum: String,
}

/// What a run of an agent reports besides its changes.
#[derive(Debug, Clone)]
pub struct OutputMetadata {
    pub agent_role: &'static str,
    pub provider: &'static str,
    pub lines: usize,
    pub plugin_id: &'static str,
}

/// The output of an agent's run on a task.
#[derive(Debug, Clone)]
pub struct AgentOutput {
    pub summary: String,
    pub changes: Vec<CodeChange>,
    pub metadata: OutputMetadata,
}

/// A review of a code change.
#[derive(Debug, Clone)]
pub struct Review {
    pub approved: bool,
    pub comments: Vec<String>,
    pub score: u8,
}

/// The agent that uses only free LLM providers.
#[derive(Debug)]
pub struct FreeLlmAgent {
    pub id: u128,
    pub role: AgentRole,
    pub max_tokens: u32,
}

/// The number of lines of a text as `str::lines` counts them: the line
/// breaks, plus one for a last line without a break.
pub open spec fn count_lines(s: Seq<char>) -> nat {
    s.filter(|c: char| c == '\n').len() + if s.len() > 0 && s.last() != '\n' { 1nat } else { 0nat }
}

/// The file an agent of `role` writes for the task with id `id`.
pub open spec fn spec_output_path(role: AgentRole, id: u128) -> Seq<char> {
    match role {
        AgentRole::Coding => "src/generated/"@ + uuid_hyphenated(id) + ".rs"@,
        AgentRole::Testing => "tests/generated/"@ + uuid_hyphenated(id) + ".rs"@,
        AgentRole::Deployment => "deploy/generated/"@ + uuid_hyphenated(id) + ".yaml"@,
        _ => "docs/generated/"@ + uuid_hyphenated(id) + ".md"@,
    }
}

/// The prompt an agent sends for a task.
pub open spec fn spec_execute_prompt(title: Seq<char>, description: Seq<char>) -> Seq<char> {
    "Aufgabe: "@ + title + "\n\nBeschreibung:\n"@ + description
        + "\n\nErstelle eine vollständige Implementierung."@
}

/// The reply used when every provider failed: a Rust comment block naming
/// the error, and a placeholder function.
pub open spec fn spec_mock_reply(error: Seq<char>) -> Seq<char> {
    "// FreeLlmAgent Mock — kein Provider verfügbar\n// Fehler: "@ + error
        + "\n// Konfiguriere mindestens einen API-Key (GROQ_API_KEY,\n// OPENROUTER_API_KEY, SAMBANOVA_API_KEY, …)\n// oder starte Ollama lokal.\nfn placeholder() {}\n"@
}

/// The review prompt for a change: the file's path and the first 3000
/// characters of its content.
pub open spec fn spec_review_prompt(path: Seq<char>, content: Seq<char>) -> Seq<char> {
    "Reviewe diesen Code-Änderung und antworte als JSON:\n{\"approved\": true/false, \"comments\": [\"...\"], \"score\": 0-100}\n\nDatei: "@
        + path + "\n```\n"@ + content.take(if content.len() < 3000 { content.len() as int } else { 3000 })
        + "\n```"@
}

/// The first `n` characters of `s` (all of them when it is shorter).
pub fn first_chars(s: &str, n: usize) -> (r: String)
    ensures
        r@ == s@.take(if s@.len() < n { s@.len() as int } else { n as int }),
{
    let v = chars_of(s);
    let k = if v.len() < n { v.len() } else { n };
    string_from_chars(&slice_chars(&v, 0, k))
}

/// The number of lines of `s`, as `str::lines().count()`.
pub fn line_count(s: &str) -> (n: usize)
    ensures
        n == count_lines(s@),
{
    let v = chars_of(s);
    let mut n: usize = 0;
    let mut i: usize = 0;
    while i < v.len()
        invariant
            i <= v@.len(),
            n == v@.take(i as int).filter(|c: char| c == '\n').len(),
            n <= i,
            i > 0 && v@[i - 1] != '\n' ==> n < i,
        decreases v@.len() - i,
    {
        proof {
            v@.take(i as int).lemma_filter_push(v@[i as int], |c: char| c == '\n');
            assert(v@.take(i as int).push(v@[i as int]) =~= v@.take(i + 1));
        }
        if v[i] == '\n' {
            n = n + 1;
        }
        i = i + 1;
    }
    assert(v@.take(v@.len() as int) =~= v@);
    if v.len() > 0 && v[v.len() - 1] != '\n' {
        n + 1
    } else {
        n
    }
}

impl FreeLlmAgent {
    /// A new agent for `role`, with a fresh random (version-4) id and a
    /// token limit of 4096.
    pub fn new(role: AgentRole) -> (a: Self)
        ensures
            a.role == role,
            a.max_tokens == 4096,
            is_v4_uuid(a.id),
    {
        FreeLlmAgent { id: new_uuid_v4(), role, max_tokens: 4096 }
    }

    /// The coding agent.
    pub fn coding() -> (a: Self)
        ensures
            a.role == AgentRole::Coding,
            a.max_tokens == 4096,
            is_v4_uuid(a.id),
    {
        Self::new(AgentRole::Coding)
    }

    /// The plugin name of the agent's role.
    pub fn role_name(&self) -> (n: &'static str)
        ensures
            n@ == spec_role_name(self.role),
    {
        match self.role {
            AgentRole::Requirements => "requirements",
            AgentRole::Architecture => "architecture",
            AgentRole::Coding => "coding",
            AgentRole::Testing => "testing",
            AgentRole::Security => "security",
            AgentRole::Deployment => "deployment",
        }
    }

    /// The agent takes tasks that require its own role; a task without a
    /// required role goes to the coding agent only.
    pub open spec fn spec_claims(&self, task: &Task) -> bool {
        match task.required_role {
            Some(r) => r == self.role,
            None => self.role == AgentRole::Coding,
        }
    }

    /// Claims `task` at time `now_ms` when the agent takes it.
    pub fn claim_task(&self, task: &Task, now_ms: i64) -> (c: Option<TaskClaim>)
        ensures
            c is Some == self.spec_claims(task),
            c matches Some(claim) ==> claim.task_id == task.id && claim.agent_id == self.id
                && claim.role == self.role && claim.claimed_at_ms == now_ms,
    {
        let matches = match task.required_role {
            Some(r) => r == self.role,
            None => self.role == AgentRole::Coding,
        };
        if matches {
            Some(TaskClaim { task_id: task.id, agent_id: self.id, role: self.role, claimed_at_ms: now_ms })
        } else {
            None
        }
    }

    /// The prompt the agent sends for `task`.
    pub fn execute_prompt(&self, task: &Task) -> (p: String)
        ensures
            p@ == spec_execute_prompt(task.title@, task.description@),
    {
        let s = concat("Aufgabe: ", task.title.as_str());
        let s = concat(s.as_str(), "\n\nBeschreibung:\n");
        let s = concat(s.as_str(), task.description.as_str());
        concat(s.as_str(), "\n\nErstelle eine vollständige Implementierung.")
    }

    /// The text the agent works with after asking the router: the answer,
    /// or when every provider failed, a placeholder naming the error.
    pub fn reply_text(outcome: Result<LlmCallResult, LlmError>) -> (t: String)
        ensures
            outcome matches Ok(r) ==> t == r.text,
            outcome matches Err(e) ==> t@ == spec_mock_reply(e.spec_message()),
    {
        match outcome {
            Ok(r) => r.text,
            Err(e) => {
                let m = e.message();
                let s = concat("// FreeLlmAgent Mock — kein Provider verfügbar\n// Fehler: ", m.as_str());
                concat(
                    s.as_str(),
                    "\n// Konfiguriere mindestens einen API-Key (GROQ_API_KEY,\n// OPENROUTER_API_KEY, SAMBANOVA_API_KEY, …)\n// oder starte Ollama lokal.\nfn placeholder() {}\n",
                )
            },
        }
    }

    /// The file the agent writes for a task.
    pub fn output_path(&self, task_id: u128) -> (p: String)
        ensures
            p@ == spec_output_path(self.role, task_id),
    {
        let id = uuid_to_string(task_id);
        match self.role {
            AgentRole::Coding => {
                let s = concat("src/generated/", id.as_str());
                concat(s.as_str(), ".rs")
            },
            AgentRole::Testing => {
                let s = concat("tests/generated/", id.as_str());
                concat(s.as_str(), ".rs")
            },
            AgentRole::Deployment => {
                let s = concat("deploy/generated/", id.as_str());
                concat(s.as_str(), ".yaml")
            },
            _ => {
                let s = concat("docs/generated/", id.as_str());
                concat(s.as_str(), ".md")
            },
        }
    }

    /// The output of the agent's run on `task` that produced `code`: one
    /// created file with the code and its checksum, a summary, and the
    /// run's metadata.
    pub fn build_output(&self, task: &Task, code: String) -> (o: AgentOutput)
        ensures
            o.summary@ == "["@ + spec_role_name(self.role) + "] free-llm: "@ + task.title@,
            o.changes@.len() == 1,
            o.changes@[0].path@ == spec_output_path(self.role, task.id),
            o.changes@[0].kind == ChangeKind::Created,
            o.changes@[0].content@ == code@,
            o.changes@[0].checksum@ == hex_bytes(sha256(vstd::utf8::encode_utf8(code@))),
            o.metadata.agent_role@ == spec_role_name(self.role),
            o.metadata.provider@ == "free-llm-router"@,
            o.metadata.lines == count_lines(code@),
            o.metadata.plugin_id@ == "forgefabrik.llm-free"@,
    {
        let digest = sha256_digest(code.as_str().as_bytes());
        let checksum = hex_encode(digest.as_slice());
        let path = self.output_path(task.id);
        let lines = line_count(code.as_str());
        let s = concat("[", self.role_name());
        let s = concat(s.as_str(), "] free-llm: ");
        let summary = concat(s.as_str(), task.title.as_str());
        let mut changes: Vec<CodeChange> = Vec::new();
        changes.push(CodeChange { path, kind: ChangeKind::Created, content: code, checksum });
        AgentOutput {
            summary,
            changes,
            metadata: OutputMetadata {
                agent_role: self.role_name(),
                provider: "free-llm-router",
                lines,
                plugin_id: "forgefabrik.llm-free",
            },
        }
    }

    /// The prompt asking the model to review `change`.
    pub fn review_prompt(&self, change: &CodeChange) -> (p: String)
        ensures
            p@ == spec_review_prompt(change.path@, change.content@),
    {
        let snippet = first_chars(change.content.as_str(), 3000);
        let s = concat(
            "Reviewe diesen Code-Änderung und antworte als JSON:\n{\"approved\": true/false, \"comments\": [\"...\"], \"score\": 0-100}\n\nDatei: ",
            change.path.as_str(),
        );
        let s = concat(s.as_str(), "\n```\n");
        let s = concat(s.as_str(), snippet.as_str());
        concat(s.as_str(), "\n```")
    }

    /// The review from the model's answer: the review it wrote as JSON, when
    /// that parsed (`parsed`), else an approval with score 75 quoting the
    /// first 200 characters of the answer.
    pub fn review_from_reply(parsed: Option<Review>, raw: &str) -> (r: Review)
        ensures
            parsed matches Some(p) ==> r == p,
            parsed is None ==> r.approved && r.score == 75 && r.comments@.len() == 1
                && r.comments@[0]@ == "Review (free-llm): "@ + raw@.take(
                if raw@.len() < 200 { raw@.len() as int } else { 200 },
            ),
    {
        match parsed {
            Some(p) => p,
            None => {
                let head = first_chars(raw, 200);
                let mut comments: Vec<String> = Vec::new();
                comments.push(concat("Review (free-llm): ", head.as_str()));
                Review { approved: true, comments, score: 75 }
            },
        }
    }
}

/// The JSON part of an answer: the trimmed content of the first
/// ```` ```json ```` block when the block is closed; otherwise the text from
/// the first `{` to the last `}` when both occur; otherwise the whole text.
pub open spec fn spec_extract_json(s: Seq<char>) -> Seq<char> {
    match find(s, "```json"@) {
        Some(a) => match find(s.skip(a + 7), "```"@) {
            Some(b) => trim(s.subrange(a + 7, a + 7 + b)),
            None => brace_part(s),
        },
        None => brace_part(s),
    }
}

/// The text from the first `{` to the last `}`, or the whole text.
pub open spec fn brace_part(s: Seq<char>) -> Seq<char> {
    match (find(s, "{"@), rfind_char(s, '}')) {
        (Some(a), Some(b)) => s.subrange(a, b + 1),
        _ => s,
    }
}

/// The fallback to braces applies and the last `}` lies before the first
/// `{` with at least one character between them: the slice is inverted and
/// the extraction panics.
pub open spec fn extract_json_panics(s: Seq<char>) -> bool {
    let braces = match find(s, "```json"@) {
        Some(a) => find(s.skip(a + 7), "```"@) is None,
        None => true,
    };
    braces && match (find(s, "{"@), rfind_char(s, '}')) {
        (Some(a), Some(b)) => b + 1 < a,
        _ => false,
    }
}

/// Whether extracting the JSON part of `text` would slice backwards (the
/// fallback to braces with the last `}` before the first `{`).
pub fn extract_json_would_panic(text: &str) -> (r: bool)
    ensures
        r == extract_json_panics(text@),
{
    let s = chars_of(text);
    let fence = chars_of("```json");
    let close = chars_of("```");
    proof {
        reveal_strlit("```json");
        reveal_strlit("```");
        reveal_strlit("{");
        crate::search::lemma_find_from_props(s@, fence@, 0);
    }
    let n = s.len();
    let braces = match find_in(&s, &fence, 0) {
        Some(a) => {
            let tail = slice_chars(&s, a + 7, n);
            assert(tail@ =~= s@.skip(a + 7));
            find_in(&tail, &close, 0).is_none()
        },
        None => true,
    };
    let open_brace = chars_of("{");
    let inverted = match (find_in(&s, &open_brace, 0), rfind_char_in(&s, '}')) {
        (Some(a), Some(b)) => {
            proof {
                lemma_rfind_char_bound(s@, '}');
            }
            b < n && b + 1 < a
        },
        _ => false,
    };
    braces && inverted
}

/// Extracts the JSON block of an LLM answer.
pub fn extract_json(text: &str) -> (r: String)
    requires
        !extract_json_panics(text@),
    ensures
        r@ == spec_extract_json(text@),
{
    let s = chars_of(text);
    let fence = chars_of("```json");
    let close = chars_of("```");
    proof {
        reveal_strlit("```json");
        reveal_strlit("```");
        reveal_strlit("{");
        crate::search::lemma_find_from_props(s@, fence@, 0);
    }
    assert(fence@.len() == 7);
    let n = s.len();
    match find_in(&s, &fence, 0) {
        Some(a) => {
            assert(a + 7 <= n);
            let tail = slice_chars(&s, a + 7, n);
            match find_in(&tail, &close, 0) {
                Some(b) => {
                    assert(tail@ =~= s@.skip(a + 7));
                    proof {
                        crate::search::lemma_find_from_props(tail@, close@, 0);
                    }
                    let inner = slice_chars(&s, a + 7, a + 7 + b);
                    return string_from_chars(&trim_chars(&inner));
                },
                None => {
                    assert(tail@ =~= s@.skip(a + 7));
                },
            }
        },
        None => {},
    }
    let open_brace = chars_of("{");
    proof {
        crate::search::lemma_find_from_props(s@, open_brace@, 0);
    }
    match (find_in(&s, &open_brace, 0), rfind_char_in(&s, '}')) {
        (Some(a), Some(b)) => {
            proof {
                lemma_rfind_char_bound(s@, '}');
            }
            assert(b < n);
            string_from_chars(&slice_chars(&s, a, b + 1))
        },
        _ => string_from_chars(&s),
    }
}

/// `rfind_char` yields a position inside the text.
proof fn lemma_rfind_char_bound(s: Seq<char>, c: char)
    ensures
        rfind_char(s, c) matches Some(k) ==> 0 <= k < s.len() && s[k] == c,
    decreases s.len(),
{
    if s.len() > 0 && s.last() != c {
        lemma_rfind_char_bound(s.drop_last(), c);
    }
}

/// An answer that is one bare JSON object, without a fenced block, comes
/// back unchanged.
pub proof fn law_extract_json_keeps_bare_object(s: Seq<char>)
    requires
        s.len() >= 2,
        s[0] == '{',
        s.last() == '}',
        find(s, "```json"@) is None,
    ensures
        !extract_json_panics(s),
        spec_extract_json(s) == s,
{
    reveal_strlit("{");
    assert(s.subrange(0, 1) =~= "{"@);
    assert(find(s, "{"@) == Some(0int));
    assert(s.subrange(0, s.len() as int) =~= s);
}

/// One agent for each of the six roles.
pub fn all_roles() -> (v: Vec<(AgentRole, Arc<FreeLlmAgent>)>)
    ensures
        v@.len() == 6,
        v@[0].0 == AgentRole::Requirements && v@[0].1.role == AgentRole::Requirements,
        v@[1].0 == AgentRole::Architecture && v@[1].1.role == AgentRole::Architecture,
        v@[2].0 == AgentRole::Coding && v@[2].1.role == AgentRole::Coding,
        v@[3].0 == AgentRole::Testing && v@[3].1.role == AgentRole::Testing,
        v@[4].0 == AgentRole::Security && v@[4].1.role == AgentRole::Security,
        v@[5].0 == AgentRole::Deployment && v@[5].1.role == AgentRole::Deployment,
        forall|i: int| 0 <= i < 6 ==> (#[trigger] v@[i]).1.max_tokens == 4096 && is_v4_uuid(v@[i].1.id),
{
    let mut v: Vec<(AgentRole, Arc<FreeLlmAgent>)> = Vec::new();
    v.push((AgentRole::Requirements, Arc::new(FreeLlmAgent::new(AgentRole::Requirements))));
    v.push((AgentRole::Architecture, Arc::new(FreeLlmAgent::new(AgentRole::Architecture))));
    v.push((AgentRole::Coding, Arc::new(FreeLlmAgent::new(AgentRole::Coding))));
    v.push((AgentRole::Testing, Arc::new(FreeLlmAgent::new(AgentRole::Testing))));
    v.push((AgentRole::Security, Arc::new(FreeLlmAgent::new(AgentRole::Security))));
    v.push((AgentRole::Deployment, Arc::new(FreeLlmAgent::new(AgentRole::Deployment))));
    v
}

} // verus!
