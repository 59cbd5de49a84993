//! The lifecycle that every runtime plugin exposes to its host.

use vstd::prelude::*;

verus! {

/// The context a plugin host hands to a plugin's `init` hook. The plugins of
/// this library read nothing from it.
pub struct FfPluginCtx {
    /// Number of the tick at which the host loaded the plugin.
    pub loaded_at_tick: u64,
}


/// The metadata a plugin exports to its host: identifier, version and
/// kind.
#[derive(Debug, Clone, Copy)]
pub struct PluginMetadata {
    pub id: &'static str,
    pub version: &'static str,
    pub kind: &'static str,
}

/// The metadata of the plugin with identifier `id`, version 0.1.0, kind
/// `runtime-plugin`.
pub open spec fn spec_metadata(id: Seq<char>) -> (Seq<char>, Seq<char>, Seq<char>) {
    (id, "0.1.0"@, "runtime-plugin"@)
}

/// The metadata of the world plugin.
pub fn world_metadata() -> (m: PluginMetadata)
    ensures
        (m.id@, m.version@, m.kind@) == spec_metadata("forgefabrik.world"@),
{
    PluginMetadata { id: "forgefabrik.world", version: "0.1.0", kind: "runtime-plugin" }
}

/// The metadata of the agents plugin.
pub fn agents_metadata() -> (m: PluginMetadata)
    ensures
        (m.id@, m.version@, m.kind@) == spec_metadata("forgefabrik.agents"@),
{
    PluginMetadata { id: "forgefabrik.agents", version: "0.1.0", kind: "runtime-plugin" }
}

/// The metadata of the game-master plugin.
pub fn gm_metadata() -> (m: PluginMetadata)
    ensures
        (m.id@, m.version@, m.kind@) == spec_metadata("forgefabrik.gm"@),
{
    PluginMetadata { id: "forgefabrik.gm", version: "0.1.0", kind: "runtime-plugin" }
}

/// The metadata of the economy plugin.
pub fn economy_metadata() -> (m: PluginMetadata)
    ensures
        (m.id@, m.version@, m.kind@) == spec_metadata("forgefabrik.economy"@),
{
    PluginMetadata { id: "forgefabrik.economy", version: "0.1.0", kind: "runtime-plugin" }
}

/// The metadata of the free-LLM plugin.
pub fn llm_free_metadata() -> (m: PluginMetadata)
    ensures
        (m.id@, m.version@, m.kind@) == spec_metadata("forgefabrik.llm-free"@),
{
    PluginMetadata { id: "forgefabrik.llm-free", version: "0.1.0", kind: "runtime-plugin" }
}

} // verus!
