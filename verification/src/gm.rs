//! `forgefabrik.gm`: the game-master rule engine. It scores how urgently the
//! host must intervene, recommends an action and derives scenario seeds.

use vstd::prelude::*;
use crate::arith::sat_u32;

verus! {

/// Known game-master event kinds.
#[derive(Debug, Clone, Copy, PartialEq, Eq)]
pub enum GmEventKind {
    /// Code 0.
    TaskCreated,
    /// Code 1.
    TaskCompleted,
    /// Code 2.
    AgentBlocked,
    /// Code 3.
    DeployFailed,
    /// Code 4.
    SecurityAlert,
    /// Code 5.
    Milestone,
    /// Code 0xFF.
    Unknown,
}

impl GmEventKind {
    /// The numeric code of the event kind on the plugin's C interface.
    pub open spec fn spec_code(self) -> u8 {
        match self {
            GmEventKind::TaskCreated => 0,
            GmEventKind::TaskCompleted => 1,
            GmEventKind::AgentBlocked => 2,
            GmEventKind::DeployFailed => 3,
            GmEventKind::SecurityAlert => 4,
            GmEventKind::Milestone => 5,
            GmEventKind::Unknown => 0xFF,
        }
    }

    /// The numeric code of the event kind.
    pub fn code(&self) -> (c: u8)
        ensures
            c == self.spec_code(),
    {
        match self {
            GmEventKind::TaskCreated => 0,
            GmEventKind::TaskCompleted => 1,
            GmEventKind::AgentBlocked => 2,
            GmEventKind::DeployFailed => 3,
            GmEventKind::SecurityAlert => 4,
            GmEventKind::Milestone => 5,
            GmEventKind::Unknown => 0xFF,
        }
    }
}

/// The unclamped weighted sum behind the intervention score: 10 per blocked
/// agent, 20 per failed deployment, 30 per security alert, each product
/// saturating at `u32::MAX`.
pub open spec fn intervention_sum(blocked_agents: u32, failed_deploys: u32, security_alerts: u32) -> int {
    sat_u32(blocked_agents * 10) + sat_u32(failed_deploys * 20) + sat_u32(security_alerts * 30)
}

/// The intervention score: the weighted sum, capped at 100.
pub open spec fn spec_intervention_score(blocked_agents: u32, failed_deploys: u32, security_alerts: u32) -> u8 {
    let s = intervention_sum(blocked_agents, failed_deploys, security_alerts);
    if s > 100 { 100 } else { s as u8 }
}

/// Scores a situation from 0 (no intervention) to 100 (intervene at once).
/// The sum of the three saturated products must fit in a `u32`: the
/// additions are not saturating.
pub fn intervention_score(blocked_agents: u32, failed_deploys: u32, security_alerts: u32) -> (score: u8)
    requires
        intervention_sum(blocked_agents, failed_deploys, security_alerts) <= u32::MAX,
    ensures
        score == spec_intervention_score(blocked_agents, failed_deploys, security_alerts),
        score <= 100,
{
    let score = crate::arith::sat_mul_u32(blocked_agents, 10) + crate::arith::sat_mul_u32(
        failed_deploys,
        20,
    ) + crate::arith::sat_mul_u32(security_alerts, 30);
    if score > 100 {
        100
    } else {
        score as u8
    }
}

/// The recommended action for an intervention score: 0 wait (0-19),
/// 1 reassign a task (20-39), 2 run a security scan (40-59), 3 pause
/// deployments (60-79), 4 roll back (80 and above).
pub open spec fn spec_recommend_action(intervention: u8) -> u8 {
    if intervention <= 19 {
        0
    } else if intervention <= 39 {
        1
    } else if intervention <= 59 {
        2
    } else if intervention <= 79 {
        3
    } else {
        4
    }
}

/// Recommends the next action for an intervention score.
pub fn recommend_action(intervention: u8) -> (action: u8)
    ensures
        action == spec_recommend_action(intervention),
{
    match intervention {
        0..=19 => 0,
        20..=39 => 1,
        40..=59 => 2,
        60..=79 => 3,
        _ => 4,
    }
}

/// The score weighs a blocked agent 10, a failed deployment 20 and a
/// security alert 30, capped at 100: while no product leaves the `u32`
/// range, the score is `min(100, 10·blocked + 20·failed + 30·alerts)`.
pub proof fn law_intervention_weights(b: u32, f: u32, s: u32)
    requires
        b * 10 <= u32::MAX,
        f * 20 <= u32::MAX,
        s * 30 <= u32::MAX,
    ensures
        spec_intervention_score(b, f, s) == (if 10 * b + 20 * f + 30 * s > 100 { 100 } else { 10 * b + 20 * f + 30 * s }),
{
}

/// One more security alert adds 30 to the score, one more failed deployment
/// 20 and one more blocked agent 10, as long as the sum stays within the
/// cap of 100; a situation with nothing wrong scores 0.
pub proof fn law_intervention_steps(b: u32, f: u32, s: u32)
    requires
        10 * b + 20 * f + 30 * s <= 100,
    ensures
        spec_intervention_score(0, 0, 0) == 0,
        s < u32::MAX && 10 * b + 20 * f + 30 * (s + 1) <= 100 ==> spec_intervention_score(b, f, (s + 1) as u32)
            == spec_intervention_score(b, f, s) + 30,
        f < u32::MAX && 10 * b + 20 * (f + 1) + 30 * s <= 100 ==> spec_intervention_score(b, (f + 1) as u32, s)
            == spec_intervention_score(b, f, s) + 20,
        b < u32::MAX && 10 * (b + 1) + 20 * f + 30 * s <= 100 ==> spec_intervention_score((b + 1) as u32, f, s)
            == spec_intervention_score(b, f, s) + 10,
{
}

/// With a single kind of trouble the score is that kind's weight times its
/// count, capped at 100: 30 per security alert, 20 per failed deployment,
/// 10 per blocked agent, whatever the count.
pub proof fn law_intervention_single_cause(k: u32)
    ensures
        spec_intervention_score(0, 0, k) == (if 30 * k > 100 { 100 } else { 30 * k }),
        spec_intervention_score(0, k, 0) == (if 20 * k > 100 { 100 } else { 20 * k }),
        spec_intervention_score(k, 0, 0) == (if 10 * k > 100 { 100 } else { 10 * k }),
{
}

/// A higher intervention score never leads to a milder action.
pub proof fn law_action_monotone(a: u8, b: u8)
    requires
        a <= b,
    ensures
        spec_recommend_action(a) <= spec_recommend_action(b),
{
}

/// The FNV-1a offset basis.
pub const FNV_OFFSET: u64 = 0xcbf29ce484222325;

/// The FNV-1a prime.
pub const FNV_PRIME: u64 = 0x100000001b3;

/// Byte `i` (0 = least significant) of `x`.
pub open spec fn le_byte(x: u64, i: int) -> u8 {
    ((x as nat / vstd::arithmetic::power2::pow2((8 * i) as nat)) % 256) as u8
}

/// The 16 bytes hashed for a seed: the project id's little-endian bytes,
/// then the tick's.
pub open spec fn seed_bytes(project_id_low: u64, tick: u64) -> Seq<u8> {
    Seq::new(8, |i: int| le_byte(project_id_low, i)) + Seq::new(8, |i: int| le_byte(tick, i))
}

/// One FNV-1a step: xor the byte in, multiply by the prime modulo 2^64.
pub open spec fn fnv_step(h: u64, b: u8) -> u64 {
    (((h ^ (b as u64)) as nat * FNV_PRIME as nat) % 0x1_0000_0000_0000_0000nat) as u64
}

/// FNV-1a over a byte sequence.
pub open spec fn fnv1a(bytes: Seq<u8>) -> u64
    decreases bytes.len(),
{
    if bytes.len() == 0 {
        FNV_OFFSET
    } else {
        fnv_step(fnv1a(bytes.drop_last()), bytes.last())
    }
}

/// Byte `i` of `x`, computed by shifting.
pub(crate) fn le_byte_of(x: u64, i: u64) -> (b: u8)
    requires
        i < 8,
    ensures
        b == le_byte(x, i as int),
{
    proof {
        vstd::bits::lemma_u64_shr_is_div(x, (8 * i) as u64);
        vstd::arithmetic::power2::lemma_pow2_pos((8 * i) as nat);
    }
    let shifted = x >> (8 * i);
    assert(shifted & 0xff == shifted % 256) by (bit_vector);
    (shifted & 0xff) as u8
}

/// A deterministic scenario seed from a project id and a tick number:
/// FNV-1a over the little-endian bytes of both.
pub fn scenario_seed(project_id_low: u64, tick: u64) -> (seed: u64)
    ensures
        seed == fnv1a(seed_bytes(project_id_low, tick)),
{
    let ghost bytes = seed_bytes(project_id_low, tick);
    let mut hash: u64 = FNV_OFFSET;
    let mut i: u64 = 0;
    while i < 16
        invariant
            i <= 16,
            bytes == seed_bytes(project_id_low, tick),
            bytes.len() == 16,
            hash == fnv1a(bytes.take(i as int)),
        decreases 16 - i,
    {
        let byte = if i < 8 {
            le_byte_of(project_id_low, i)
        } else {
            le_byte_of(tick, i - 8)
        };
        assert(byte == bytes[i as int]);
        assert(bytes.take(i + 1).drop_last() =~= bytes.take(i as int));
        hash = hash ^ (byte as u64);
        hash = hash.wrapping_mul(FNV_PRIME);
        i = i + 1;
    }
    assert(bytes.take(16) =~= bytes);
    hash
}

} // verus!
