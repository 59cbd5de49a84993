//! The runtime settings, by area.

use vstd::prelude::*;
use crate::llm_router::{lowercase, to_lowercase};
use crate::text::{parse_u64, spec_parse_u64, str_eq, to_owned_string};

verus! {

/// Where the HTTP server listens.
#[derive(Debug, Clone)]
pub struct ServerSettings {
    pub host: String,
    pub port: u16,
}

/// The store's database.
#[derive(Debug, Clone)]
pub struct DatabaseSettings {
    pub url: String,
}

/// The task queue.
#[derive(Debug, Clone)]
pub struct QueueSettings {
    pub capacity: usize,
    pub redis_url: Option<String>,
}

/// The sandboxes.
#[derive(Debug, Clone)]
pub struct SandboxSettings {
    pub max_concurrent: usize,
    pub timeout_secs: u64,
    pub work_dir: String,
    pub use_docker: bool,
}

/// What the security scan blocks.
#[derive(Debug, Clone)]
pub struct SecuritySettings {
    pub block_on_critical: bool,
    pub block_on_high: bool,
}

/// The deployment pipeline.
#[derive(Debug, Clone)]
pub struct DeploymentSettings {
    pub require_consensus: usize,
    pub staging_url: Option<String>,
    pub production_url: Option<String>,
}

/// Token authentication.
#[derive(Debug, Clone)]
pub struct AuthSettings {
    pub jwt_secret: String,
    pub token_expiry_secs: u64,
}

/// Logging.
#[derive(Debug, Clone)]
pub struct TracingSettings {
    pub level: String,
    pub json: bool,
}

/// The keys and limits of the agents (their temperature, a float, is read
/// by the server itself).
#[derive(Debug, Clone)]
pub struct AgentKeySettings {
    pub anthropic_api_key: Option<String>,
    pub openai_api_key: Option<String>,
    /// The model of the keyed provider; its own default when unset.
    pub model: Option<String>,
    pub max_tokens: u32,
}

/// The raw values of the `DEVSTUDIO_*` (and provider key) environment
/// variables, `None` where a variable is not set.
#[derive(Debug, Clone)]
pub struct EnvValues {
    pub server_host: Option<String>,
    pub server_port: Option<String>,
    pub database_url: Option<String>,
    pub queue_capacity: Option<String>,
    pub redis_url: Option<String>,
    pub sandbox_max: Option<String>,
    pub sandbox_timeout_secs: Option<String>,
    pub sandbox_work_dir: Option<String>,
    pub sandbox_use_docker: Option<String>,
    pub sec_block_critical: Option<String>,
    pub sec_block_high: Option<String>,
    pub deploy_consensus: Option<String>,
    pub deploy_staging_url: Option<String>,
    pub deploy_production_url: Option<String>,
    pub anthropic_api_key: Option<String>,
    pub openai_api_key: Option<String>,
    pub agent_model: Option<String>,
    pub agent_max_tokens: Option<String>,
    pub jwt_secret: Option<String>,
    pub jwt_expiry_secs: Option<String>,
    pub log_level: Option<String>,
    pub log_json: Option<String>,
}

/// All settings but the agents' temperature.
#[derive(Debug, Clone)]
pub struct CoreSettings {
    pub server: ServerSettings,
    pub database: DatabaseSettings,
    pub queue: QueueSettings,
    pub sandbox: SandboxSettings,
    pub security: SecuritySettings,
    pub deployment: DeploymentSettings,
    pub agents: AgentKeySettings,
    pub auth: AuthSettings,
    pub tracing: TracingSettings,
}

/// An optional text as plain values.
pub open spec fn opt_view(o: Option<String>) -> Option<Seq<char>> {
    match o {
        Some(s) => Some(s@),
        None => None,
    }
}

/// A variable counts as set when it holds a non-empty text.
pub open spec fn present(v: Option<Seq<char>>) -> Option<Seq<char>> {
    match v {
        Some(t) => if t.len() > 0 { Some(t) } else { None },
        None => None,
    }
}

/// A text setting: the variable's text, or the default.
pub open spec fn spec_text_or(v: Option<Seq<char>>, default: Seq<char>) -> Seq<char> {
    match present(v) {
        Some(t) => t,
        None => default,
    }
}

/// A number setting: the variable's text read as a decimal number when it
/// is one and at most `max`, else the default.
pub open spec fn spec_number_or(v: Option<Seq<char>>, default: u64, max: u64) -> u64 {
    match present(v) {
        Some(t) => match spec_parse_u64(t) {
            Some(n) => if n <= max { n } else { default },
            None => default,
        },
        None => default,
    }
}

/// A switch: on when the variable says `true`, `1` or `yes` in any case,
/// off for any other text, the default when it is not set.
pub open spec fn spec_flag_or(v: Option<Seq<char>>, default: bool) -> bool {
    match present(v) {
        Some(t) => lowercase(t) == "true"@ || lowercase(t) == "1"@ || lowercase(t) == "yes"@,
        None => default,
    }
}

/// The variable's text, when it is set.
pub fn option_text(v: &Option<String>) -> (r: Option<String>)
    ensures
        opt_view(r) == present(opt_view(*v)),
{
    match v {
        Some(t) => if t.as_str().is_empty() {
            None
        } else {
            Some(t.clone())
        },
        None => None,
    }
}

/// A text setting with its default.
pub fn text_or(v: &Option<String>, default: &str) -> (r: String)
    ensures
        r@ == spec_text_or(opt_view(*v), default@),
{
    match option_text(v) {
        Some(t) => t,
        None => to_owned_string(default),
    }
}

/// A number setting with its default and its largest value.
pub fn number_or(v: &Option<String>, default: u64, max: u64) -> (r: u64)
    ensures
        r == spec_number_or(opt_view(*v), default, max),
{
    match option_text(v) {
        Some(t) => match parse_u64(t.as_str()) {
            Some(n) => if n <= max {
                n
            } else {
                default
            },
            None => default,
        },
        None => default,
    }
}

/// A switch with its default.
pub fn flag_or(v: &Option<String>, default: bool) -> (r: bool)
    ensures
        r == spec_flag_or(opt_view(*v), default),
{
    match option_text(v) {
        Some(t) => {
            let l = to_lowercase(t.as_str());
            str_eq(l.as_str(), "true") || str_eq(l.as_str(), "1") || str_eq(l.as_str(), "yes")
        },
        None => default,
    }
}

/// The settings from the environment's values, each with its default:
/// server 0.0.0.0:8080, database `sqlite::memory:`, a queue of 1024 tasks,
/// 10 sandboxes of at most 300 s in `/tmp/devstudio/sandboxes` without
/// Docker, blocking on critical but not on high findings, a consensus of 3
/// votes, 8192 agent tokens, the development JWT secret with tokens valid
/// for a day, log level `info` in plain-text logs.
pub fn settings_from(v: &EnvValues) -> (s: CoreSettings)
    ensures
        s.server.host@ == spec_text_or(opt_view(v.server_host), "0.0.0.0"@),
        s.server.port == spec_number_or(opt_view(v.server_port), 8080, u16::MAX as u64),
        s.database.url@ == spec_text_or(opt_view(v.database_url), "sqlite::memory:"@),
        s.queue.capacity == spec_number_or(opt_view(v.queue_capacity), 1024, usize::MAX as u64),
        opt_view(s.queue.redis_url) == present(opt_view(v.redis_url)),
        s.sandbox.max_concurrent == spec_number_or(opt_view(v.sandbox_max), 10, usize::MAX as u64),
        s.sandbox.timeout_secs == spec_number_or(opt_view(v.sandbox_timeout_secs), 300, u64::MAX),
        s.sandbox.work_dir@ == spec_text_or(opt_view(v.sandbox_work_dir), "/tmp/devstudio/sandboxes"@),
        s.sandbox.use_docker == spec_flag_or(opt_view(v.sandbox_use_docker), false),
        s.security.block_on_critical == spec_flag_or(opt_view(v.sec_block_critical), true),
        s.security.block_on_high == spec_flag_or(opt_view(v.sec_block_high), false),
        s.deployment.require_consensus == spec_number_or(opt_view(v.deploy_consensus), 3, usize::MAX as u64),
        opt_view(s.deployment.staging_url) == present(opt_view(v.deploy_staging_url)),
        opt_view(s.deployment.production_url) == present(opt_view(v.deploy_production_url)),
        opt_view(s.agents.anthropic_api_key) == present(opt_view(v.anthropic_api_key)),
        opt_view(s.agents.openai_api_key) == present(opt_view(v.openai_api_key)),
        opt_view(s.agents.model) == present(opt_view(v.agent_model)),
        s.agents.max_tokens == spec_number_or(opt_view(v.agent_max_tokens), 8192, u32::MAX as u64),
        s.auth.jwt_secret@ == spec_text_or(opt_view(v.jwt_secret), "change-me-in-production"@),
        s.auth.token_expiry_secs == spec_number_or(opt_view(v.jwt_expiry_secs), 86400, u64::MAX),
        s.tracing.level@ == spec_text_or(opt_view(v.log_level), "info"@),
        s.tracing.json == spec_flag_or(opt_view(v.log_json), false),
{
    CoreSettings {
        server: ServerSettings {
            host: text_or(&v.server_host, "0.0.0.0"),
            port: number_or(&v.server_port, 8080, u16::MAX as u64) as u16,
        },
        database: DatabaseSettings { url: text_or(&v.database_url, "sqlite::memory:") },
        queue: QueueSettings {
            capacity: number_or(&v.queue_capacity, 1024, usize::MAX as u64) as usize,
            redis_url: option_text(&v.redis_url),
        },
        sandbox: SandboxSettings {
            max_concurrent: number_or(&v.sandbox_max, 10, usize::MAX as u64) as usize,
            timeout_secs: number_or(&v.sandbox_timeout_secs, 300, u64::MAX),
            work_dir: text_or(&v.sandbox_work_dir, "/tmp/devstudio/sandboxes"),
            use_docker: flag_or(&v.sandbox_use_docker, false),
        },
        security: SecuritySettings {
            block_on_critical: flag_or(&v.sec_block_critical, true),
            block_on_high: flag_or(&v.sec_block_high, false),
        },
        deployment: DeploymentSettings {
            require_consensus: number_or(&v.deploy_consensus, 3, usize::MAX as u64) as usize,
            staging_url: option_text(&v.deploy_staging_url),
            production_url: option_text(&v.deploy_production_url),
        },
        agents: AgentKeySettings {
            anthropic_api_key: option_text(&v.anthropic_api_key),
            openai_api_key: option_text(&v.openai_api_key),
            model: option_text(&v.agent_model),
            max_tokens: number_or(&v.agent_max_tokens, 8192, u32::MAX as u64) as u32,
        },
        auth: AuthSettings {
            jwt_secret: text_or(&v.jwt_secret, "change-me-in-production"),
            token_expiry_secs: number_or(&v.jwt_expiry_secs, 86400, u64::MAX),
        },
        tracing: TracingSettings { level: text_or(&v.log_level, "info"), json: flag_or(&v.log_json, false) },
    }
}

} // verus!
