//! Verified core of the DevStudio multi-agent runtime: the decision logic of
//! its plugins (token economy, game master, agent roles, voxel world), of the
//! LLM provider failover, of the HTTP layer (errors, auth, rate limiting,
//! metrics), of the task queue, the sandbox naming and the dispatcher.

pub mod arith;
pub mod economy;
pub mod plugin;
pub mod text;
pub mod gm;
pub mod agents_plugin;
pub mod world_plugin;
pub mod rate_limit;
pub mod search;
pub mod llm_types;
pub mod llm_providers;
pub mod llm_router;
pub mod codec;
pub mod agent;
pub mod app_error;
pub mod drivers;
pub mod queue;
pub mod auth;
pub mod metrics;
pub mod sandbox;
pub mod dispatcher;
pub mod config;
pub mod handlers;
