//! Sandbox bookkeeping: the names of sandbox containers and snapshot
//! images, what an execution reports, and the identifiers of local
//! snapshots.

use vstd::prelude::*;
use vstd::string::StringSliceAdditionalSpecFns;
use crate::codec::{hex_bytes, hex_encode, sha256, sha256_digest, uuid_hyphenated, uuid_to_string};
use crate::gm::le_byte;
use crate::text::{chars_of, concat, string_from_chars, to_owned_string};
use crate::app_error::AppError;
use std::collections::HashMap;

verus! {

broadcast use vstd::string::group_string_axioms;

/// The first eight characters of a sandbox id's text.
pub open spec fn short_id(id: u128) -> Seq<char> {
    uuid_hyphenated(id).take(8)
}

/// The first eight characters of the text of `id`.
fn short_id_text(id: u128) -> (s: String)
    ensures
        s@ == short_id(id),
{
    let full = chars_of(uuid_to_string(id).as_str());
    proof {
        crate::codec::lemma_uuid_len(id);
    }
    string_from_chars(&crate::search::prefix(&full, 8))
}

/// The name of the container of sandbox `id`.
pub fn container_name(id: u128) -> (n: String)
    ensures
        n@ == "devstudio-sb-"@ + short_id(id),
{
    concat("devstudio-sb-", short_id_text(id).as_str())
}

/// The tag of the snapshot image of sandbox `id`.
pub fn snapshot_tag(id: u128) -> (t: String)
    ensures
        t@ == "devstudio-snap-"@ + short_id(id),
{
    concat("devstudio-snap-", short_id_text(id).as_str())
}

/// The snapshot image of sandbox `id`, repository and tag.
pub fn snapshot_image(id: u128) -> (i: String)
    ensures
        i@ == "forgefabrik/devstudio-snapshot:"@ + "devstudio-snap-"@ + short_id(id),
{
    let tag = snapshot_tag(id);
    concat("forgefabrik/devstudio-snapshot:", tag.as_str())
}

/// CPU time a sandbox container may use per period, in microseconds (half
/// a CPU).
pub const CPU_QUOTA: i64 = 50_000;
/// The CPU period of a sandbox container, in microseconds.
pub const CPU_PERIOD: i64 = 100_000;
/// Memory limit of a sandbox container: 128 MiB.
pub const MEMORY_LIMIT: i64 = 134_217_728;

/// The container a sandbox runs in: its name, image and command, and the
/// isolation it gets (no network, CPU and memory limits).
#[derive(Debug)]
pub struct ContainerSpec {
    pub name: String,
    pub image: String,
    pub cmd: Vec<String>,
    pub network_disabled: bool,
    pub cpu_quota: i64,
    pub cpu_period: i64,
    pub memory: i64,
    /// Memory plus swap; equal to `memory` means no swap.
    pub memory_swap: Option<i64>,
    pub oom_kill_disable: Option<bool>,
    pub readonly_rootfs: Option<bool>,
}

/// The command that keeps a sandbox container alive: `sleep 3600`.
pub open spec fn keep_alive_cmd(cmd: Seq<String>) -> bool {
    cmd.len() == 2 && cmd[0]@ == "sleep"@ && cmd[1]@ == "3600"@
}

fn keep_alive() -> (v: Vec<String>)
    ensures
        keep_alive_cmd(v@),
{
    let mut v: Vec<String> = Vec::new();
    v.push(to_owned_string("sleep"));
    v.push(to_owned_string("3600"));
    v
}

/// The container of a new sandbox `id` on `image`: named after the
/// sandbox, running `sleep 3600`, without network, with half a CPU and
/// 128 MiB of memory and no swap, the OOM killer on and a writable root.
pub fn container_spec(image: &str, id: u128) -> (c: ContainerSpec)
    ensures
        c.name@ == "devstudio-sb-"@ + short_id(id),
        c.image@ == image@,
        keep_alive_cmd(c.cmd@),
        c.network_disabled,
        c.cpu_quota == CPU_QUOTA,
        c.cpu_period == CPU_PERIOD,
        c.memory == MEMORY_LIMIT,
        c.memory_swap == Some(MEMORY_LIMIT),
        c.oom_kill_disable == Some(false),
        c.readonly_rootfs == Some(false),
{
    ContainerSpec {
        name: container_name(id),
        image: to_owned_string(image),
        cmd: keep_alive(),
        network_disabled: true,
        cpu_quota: CPU_QUOTA,
        cpu_period: CPU_PERIOD,
        memory: MEMORY_LIMIT,
        memory_swap: Some(MEMORY_LIMIT),
        oom_kill_disable: Some(false),
        readonly_rootfs: Some(false),
    }
}

/// The container that restores sandbox `id` from `snapshot_image`: the
/// same name and command, without network, with half a CPU and 128 MiB of
/// memory; swap, OOM killer and root file system are left to Docker.
pub fn restore_spec(snapshot_image: &str, id: u128) -> (c: ContainerSpec)
    ensures
        c.name@ == "devstudio-sb-"@ + short_id(id),
        c.image@ == snapshot_image@,
        keep_alive_cmd(c.cmd@),
        c.network_disabled,
        c.cpu_quota == CPU_QUOTA,
        c.cpu_period == CPU_PERIOD,
        c.memory == MEMORY_LIMIT,
        c.memory_swap is None,
        c.oom_kill_disable is None,
        c.readonly_rootfs is None,
{
    ContainerSpec {
        name: container_name(id),
        image: to_owned_string(snapshot_image),
        cmd: keep_alive(),
        network_disabled: true,
        cpu_quota: CPU_QUOTA,
        cpu_period: CPU_PERIOD,
        memory: MEMORY_LIMIT,
        memory_swap: None,
        oom_kill_disable: None,
        readonly_rootfs: None,
    }
}

/// The state of a sandbox.
#[derive(Debug, Clone, Copy, PartialEq, Eq, Structural)]
pub enum SandboxStatus {
    Creating,
    Ready,
}

/// A sandbox as the managers hand it out.
#[derive(Debug)]
pub struct Sandbox {
    pub id: u128,
    pub project_id: u128,
    pub status: SandboxStatus,
    /// The container, for a Docker sandbox.
    pub runtime_id: Option<String>,
    pub work_dir: String,
}

/// The sandbox record of a started container for sandbox `id` of project
/// `project_id`: ready, run by its container, working in
/// `/workspace/<id>`.
pub fn docker_sandbox(id: u128, project_id: u128) -> (sb: Sandbox)
    ensures
        sb.id == id,
        sb.project_id == project_id,
        sb.status == SandboxStatus::Ready,
        sb.runtime_id matches Some(n) && n@ == "devstudio-sb-"@ + short_id(id),
        sb.work_dir@ == "/workspace/"@ + uuid_hyphenated(id),
{
    Sandbox {
        id,
        project_id,
        status: SandboxStatus::Ready,
        runtime_id: Some(container_name(id)),
        work_dir: container_work_dir(id),
    }
}

/// The sandbox record of a local sandbox working in `work_dir`: ready, no
/// container.
pub fn local_sandbox(id: u128, project_id: u128, work_dir: String) -> (sb: Sandbox)
    ensures
        sb.id == id,
        sb.project_id == project_id,
        sb.status == SandboxStatus::Ready,
        sb.runtime_id is None,
        sb.work_dir == work_dir,
{
    Sandbox { id, project_id, status: SandboxStatus::Ready, runtime_id: None, work_dir }
}

/// The work directories of the local sandboxes, by sandbox id.
pub struct LocalSandboxes {
    dirs: HashMap<u128, String>,
}

impl LocalSandboxes {
    /// The work directory of each registered sandbox.
    pub closed spec fn dirs(&self) -> Map<u128, String> {
        self.dirs@
    }

    /// No sandbox registered.
    pub fn new() -> (r: Self)
        ensures
            r.dirs() == Map::<u128, String>::empty(),
    {
        LocalSandboxes { dirs: HashMap::new() }
    }

    /// Registers a created sandbox with its work directory.
    pub fn register(&mut self, sb: &Sandbox)
        ensures
            final(self).dirs() == old(self).dirs().insert(sb.id, sb.work_dir),
    {
        broadcast use vstd::std_specs::hash::group_hash_axioms;

        self.dirs.insert(sb.id, sb.work_dir.clone());
    }

    /// The work directory of sandbox `id`; an unknown sandbox is not found.
    pub fn work_dir(&self, id: u128) -> (r: Result<String, AppError>)
        ensures
            self.dirs().contains_key(id) ==> r == Ok::<String, AppError>(self.dirs()[id]),
            !self.dirs().contains_key(id) ==> (r matches Err(AppError::NotFound(m)) && m@ == "sandbox "@
                + uuid_hyphenated(id)),
    {
        broadcast use vstd::std_specs::hash::group_hash_axioms;

        match self.dirs.get(&id) {
            Some(d) => Ok(d.clone()),
            None => Err(AppError::NotFound(concat("sandbox ", uuid_to_string(id).as_str()))),
        }
    }

    /// Forgets sandbox `id`.
    pub fn forget(&mut self, id: u128)
        ensures
            final(self).dirs() == old(self).dirs().remove(id),
    {
        broadcast use vstd::std_specs::hash::group_hash_axioms;

        let _ = self.dirs.remove(&id);
    }
}

/// The work directory inside the container of sandbox `id`.
pub fn container_work_dir(id: u128) -> (d: String)
    ensures
        d@ == "/workspace/"@ + uuid_hyphenated(id),
{
    concat("/workspace/", uuid_to_string(id).as_str())
}

/// The environment of an execution as `KEY=VALUE` entries, one per pair.
pub fn exec_env(env: &Vec<(String, String)>) -> (out: Vec<String>)
    ensures
        out@.len() == env@.len(),
        forall|i: int| 0 <= i < env@.len() ==> #[trigger] out@[i]@ == env@[i].0@ + "="@ + env@[i].1@,
{
    let mut out: Vec<String> = Vec::new();
    let mut i: usize = 0;
    while i < env.len()
        invariant
            i <= env@.len(),
            out@.len() == i,
            forall|k: int| 0 <= k < i ==> #[trigger] out@[k]@ == env@[k].0@ + "="@ + env@[k].1@,
        decreases env@.len() - i,
    {
        let s = concat(env[i].0.as_str(), "=");
        out.push(concat(s.as_str(), env[i].1.as_str()));
        i = i + 1;
    }
    out
}

/// The command line of an execution: the command, then its arguments.
pub fn exec_command(command: &str, args: &Vec<String>) -> (out: Vec<String>)
    ensures
        out@.len() == args@.len() + 1,
        out@[0]@ == command@,
        forall|i: int| 0 <= i < args@.len() ==> #[trigger] out@[i + 1]@ == args@[i]@,
{
    let mut out: Vec<String> = Vec::new();
    out.push(to_owned_string(command));
    let mut i: usize = 0;
    while i < args.len()
        invariant
            i <= args@.len(),
            out@.len() == i + 1,
            out@[0]@ == command@,
            forall|k: int| 0 <= k < i ==> #[trigger] out@[k + 1]@ == args@[k]@,
        decreases args@.len() - i,
    {
        out.push(args[i].clone());
        i = i + 1;
    }
    out
}

/// The time limit of an execution: the requested one, else the manager's.
pub fn exec_timeout_secs(requested: Option<u64>, default_secs: u64) -> (t: u64)
    ensures
        t == (match requested {
            Some(s) => s,
            None => default_secs,
        }),
{
    match requested {
        Some(s) => s,
        None => default_secs,
    }
}

/// The exit code a container execution reports: the inspected code cut to
/// 32 bits, -1 when there is none.
pub fn container_exit_code(code: Option<i64>) -> (c: i32)
    ensures
        c == (match code {
            Some(x) => x as i32,
            None => -1i32,
        }),
{
    match code {
        Some(x) => x as i32,
        None => -1,
    }
}

/// The exit code of a local process: its code, -1 when it has none
/// (killed by a signal).
pub fn process_exit_code(code: Option<i32>) -> (c: i32)
    ensures
        c == (match code {
            Some(x) => x,
            None => -1i32,
        }),
{
    match code {
        Some(x) => x,
        None => -1,
    }
}

/// What a diff reports: the output of a successful `git diff`, else its
/// error output.
pub fn diff_output(exit_code: i32, stdout: String, stderr: String) -> (d: String)
    ensures
        d == (if exit_code == 0 { stdout } else { stderr }),
{
    if exit_code == 0 {
        stdout
    } else {
        stderr
    }
}

/// The diff text of a local sandbox, which tracks no changes.
pub fn local_diff(id: u128) -> (d: String)
    ensures
        d@ == "# diff sandbox "@ + uuid_hyphenated(id) + " (local mode — kein Git-Tracking)"@,
{
    let s = concat("# diff sandbox ", uuid_to_string(id).as_str());
    concat(s.as_str(), " (local mode — kein Git-Tracking)")
}

/// The little-endian bytes of a millisecond timestamp.
pub open spec fn millis_bytes(ms: i64) -> Seq<u8> {
    Seq::new(8, |i: int| le_byte(ms as u64, i))
}

/// The id of a local snapshot: lowercase hex SHA-256 of the work
/// directory's UTF-8 bytes followed by the timestamp's little-endian bytes.
pub fn local_snapshot_id(work_dir: &str, now_ms: i64) -> (s: String)
    ensures
        s@ == hex_bytes(sha256(work_dir.spec_bytes() + millis_bytes(now_ms))),
{
    let dir = work_dir.as_bytes();
    let mut data: Vec<u8> = Vec::new();
    let mut i: usize = 0;
    while i < dir.len()
        invariant
            i <= dir@.len(),
            dir@ == work_dir.spec_bytes(),
            data@ == dir@.take(i as int),
        decreases dir@.len() - i,
    {
        data.push(dir[i]);
        assert(dir@.take(i + 1) =~= dir@.take(i as int).push(dir@[i as int]));
        i = i + 1;
    }
    assert(dir@.take(dir@.len() as int) =~= dir@);
    let x = now_ms as u64;
    let mut k: u64 = 0;
    while k < 8
        invariant
            k <= 8,
            x == now_ms as u64,
            data@ == work_dir.spec_bytes() + millis_bytes(now_ms).take(k as int),
        decreases 8 - k,
    {
        let b = crate::gm::le_byte_of(x, k);
        assert(millis_bytes(now_ms).take(k + 1) =~= millis_bytes(now_ms).take(k as int).push(b));
        data.push(b);
        k = k + 1;
    }
    assert(millis_bytes(now_ms).take(8) =~= millis_bytes(now_ms));
    let digest = sha256_digest(data.as_slice());
    hex_encode(digest.as_slice())
}

} // verus!
