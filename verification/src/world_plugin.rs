//! `forgefabrik.world`: maps files of a project onto voxel blocks: a block
//! kind per file extension and deterministic coordinates per path.

use vstd::prelude::*;
use vstd::string::StringSliceAdditionalSpecFns;
use crate::plugin::FfPluginCtx;
use crate::text::str_eq;

verus! {

/// A single voxel block in the plugin's own coordinate system.
#[derive(Debug, Clone)]
pub struct VoxelPoint {
    pub x: i32,
    pub y: i32,
    pub z: i32,
}

/// Block kind for a file extension: 1 Rust, 2 TypeScript/JavaScript,
/// 3 Python, 4 Markdown, 5 TOML/YAML/JSON, 6 shell, 0 anything else.
pub open spec fn spec_voxel_kind(ext: Seq<char>) -> u8 {
    if ext == "rs"@ {
        1
    } else if ext == "ts"@ || ext == "tsx"@ || ext == "js"@ || ext == "jsx"@ {
        2
    } else if ext == "py"@ {
        3
    } else if ext == "md"@ {
        4
    } else if ext == "toml"@ || ext == "yaml"@ || ext == "yml"@ || ext == "json"@ {
        5
    } else if ext == "sh"@ || ext == "bash"@ || ext == "zsh"@ {
        6
    } else {
        0
    }
}

/// Maps a file extension (without the dot) to a block kind.
pub fn voxel_kind_for_ext(ext: &str) -> (kind: u8)
    ensures
        kind == spec_voxel_kind(ext@),
{
    if str_eq(ext, "rs") {
        1
    } else if str_eq(ext, "ts") || str_eq(ext, "tsx") || str_eq(ext, "js") || str_eq(ext, "jsx") {
        2
    } else if str_eq(ext, "py") {
        3
    } else if str_eq(ext, "md") {
        4
    } else if str_eq(ext, "toml") || str_eq(ext, "yaml") || str_eq(ext, "yml") || str_eq(
        ext,
        "json",
    ) {
        5
    } else if str_eq(ext, "sh") || str_eq(ext, "bash") || str_eq(ext, "zsh") {
        6
    } else {
        0
    }
}

/// The block kinds by file family: Rust 1; TypeScript and JavaScript
/// (`ts`, `tsx`, `js`, `jsx`) 2; Python 3; Markdown 4; configuration
/// (`toml`, `yaml`, `yml`, `json`) 5; shell (`sh`, `bash`, `zsh`) 6; every
/// other extension 0.
pub proof fn law_voxel_kinds_by_family(ext: Seq<char>)
    ensures
        spec_voxel_kind("rs"@) == 1,
        spec_voxel_kind("ts"@) == 2 && spec_voxel_kind("tsx"@) == 2 && spec_voxel_kind("js"@) == 2
            && spec_voxel_kind("jsx"@) == 2,
        spec_voxel_kind("py"@) == 3,
        spec_voxel_kind("md"@) == 4,
        spec_voxel_kind("toml"@) == 5 && spec_voxel_kind("yaml"@) == 5 && spec_voxel_kind("yml"@) == 5
            && spec_voxel_kind("json"@) == 5,
        spec_voxel_kind("sh"@) == 6 && spec_voxel_kind("bash"@) == 6 && spec_voxel_kind("zsh"@) == 6,
        ext != "rs"@ && ext != "ts"@ && ext != "tsx"@ && ext != "js"@ && ext != "jsx"@ && ext != "py"@ && ext
            != "md"@ && ext != "toml"@ && ext != "yaml"@ && ext != "yml"@ && ext != "json"@ && ext != "sh"@
            && ext != "bash"@ && ext != "zsh"@ ==> spec_voxel_kind(ext) == 0,
        spec_voxel_kind(ext) <= 6,
{
    reveal_strlit("rs");
    reveal_strlit("ts");
    reveal_strlit("tsx");
    reveal_strlit("js");
    reveal_strlit("jsx");
    reveal_strlit("py");
    reveal_strlit("md");
    reveal_strlit("toml");
    reveal_strlit("yaml");
    reveal_strlit("yml");
    reveal_strlit("json");
    reveal_strlit("sh");
    reveal_strlit("bash");
    reveal_strlit("zsh");
    assert("rs"@.len() == 2 && "rs"@[0] == 'r' && "rs"@[1] == 's');
    assert("ts"@.len() == 2 && "ts"@[0] == 't' && "ts"@[1] == 's');
    assert("tsx"@.len() == 3 && "tsx"@[0] == 't' && "tsx"@[1] == 's');
    assert("js"@.len() == 2 && "js"@[0] == 'j' && "js"@[1] == 's');
    assert("jsx"@.len() == 3 && "jsx"@[0] == 'j' && "jsx"@[1] == 's');
    assert("py"@.len() == 2 && "py"@[0] == 'p' && "py"@[1] == 'y');
    assert("md"@.len() == 2 && "md"@[0] == 'm' && "md"@[1] == 'd');
    assert("toml"@.len() == 4 && "toml"@[0] == 't' && "toml"@[1] == 'o');
    assert("yaml"@.len() == 4 && "yaml"@[0] == 'y' && "yaml"@[1] == 'a');
    assert("yml"@.len() == 3 && "yml"@[0] == 'y' && "yml"@[1] == 'm');
    assert("json"@.len() == 4 && "json"@[0] == 'j' && "json"@[1] == 's');
    assert("sh"@.len() == 2 && "sh"@[0] == 's' && "sh"@[1] == 'h');
    assert("bash"@.len() == 4 && "bash"@[0] == 'b' && "bash"@[1] == 'a');
    assert("zsh"@.len() == 3 && "zsh"@[0] == 'z' && "zsh"@[1] == 's');
}

/// djb2 over a byte sequence, with wrapping multiplication and addition.
pub open spec fn djb2(bytes: Seq<u8>) -> u64
    decreases bytes.len(),
{
    if bytes.len() == 0 {
        5381
    } else {
        ((((djb2(bytes.drop_last()) as nat * 33) % 0x1_0000_0000_0000_0000nat) + bytes.last() as nat)
            % 0x1_0000_0000_0000_0000nat) as u64
    }
}

/// The coordinates of a path: the low byte of the path's djb2 hash
/// (over its UTF-8 bytes) as x, the next byte as z; both lie in [0, 255].
pub open spec fn spec_coords(path_bytes: Seq<u8>) -> (i32, i32) {
    let h = djb2(path_bytes);
    ((h % 256) as i32, ((h / 256) % 256) as i32)
}

/// Deterministic voxel coordinates (x, z) for a file path.
pub fn coords_for_path(path: &str) -> (xz: (i32, i32))
    ensures
        xz == spec_coords(path.spec_bytes()),
        0 <= xz.0 <= 255,
        0 <= xz.1 <= 255,
{
    let bytes = path.as_bytes();
    let mut hash: u64 = 5381;
    let mut i: usize = 0;
    while i < bytes.len()
        invariant
            i <= bytes@.len(),
            bytes@ == path.spec_bytes(),
            hash == djb2(bytes@.take(i as int)),
        decreases bytes@.len() - i,
    {
        assert(bytes@.take(i + 1).drop_last() =~= bytes@.take(i as int));
        hash = hash.wrapping_mul(33).wrapping_add(bytes[i] as u64);
        i = i + 1;
    }
    assert(bytes@.take(bytes@.len() as int) =~= bytes@);
    assert(hash & 0xFF == hash % 256) by (bit_vector);
    assert((hash >> 8) & 0xFF == (hash / 256) % 256) by (bit_vector);
    ((hash & 0xFF) as i32, ((hash >> 8) & 0xFF) as i32)
}

/// Lifecycle hooks of the world plugin; it keeps no state.
pub struct WorldPluginLifecycle;

impl WorldPluginLifecycle {
    /// Creates the plugin's lifecycle handle.
    pub fn new() -> Self {
        WorldPluginLifecycle
    }

    /// Called once after loading; always succeeds.
    pub fn init(&mut self, _ctx: &FfPluginCtx) -> (r: Result<(), String>)
        ensures
            r is Ok,
    {
        Ok(())
    }

    /// Called on every host tick; always succeeds.
    pub fn tick(&mut self, _tick: u64) -> (r: Result<(), String>)
        ensures
            r is Ok,
    {
        Ok(())
    }

    /// Called before unloading; always succeeds.
    pub fn shutdown(&mut self) -> (r: Result<(), String>)
        ensures
            r is Ok,
    {
        Ok(())
    }
}

} // verus!
