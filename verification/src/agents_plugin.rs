//! `forgefabrik.agents`: task assignment and consensus voting on numeric
//! role codes.

use vstd::prelude::*;
use crate::plugin::FfPluginCtx;

verus! {

/// Agent roles as numeric codes.
#[derive(Debug, Clone, Copy, PartialEq, Eq, Structural)]
pub enum AgentRoleId {
    /// Code 0.
    Requirements,
    /// Code 1.
    Architecture,
    /// Code 2.
    Coding,
    /// Code 3.
    Testing,
    /// Code 4.
    Security,
    /// Code 5.
    Deployment,
    /// Code 0xFF, and every code without a role.
    Unknown,
}

/// The role for a numeric code; codes above 5 have none.
pub open spec fn spec_role_from_u8(v: u8) -> AgentRoleId {
    if v == 0 {
        AgentRoleId::Requirements
    } else if v == 1 {
        AgentRoleId::Architecture
    } else if v == 2 {
        AgentRoleId::Coding
    } else if v == 3 {
        AgentRoleId::Testing
    } else if v == 4 {
        AgentRoleId::Security
    } else if v == 5 {
        AgentRoleId::Deployment
    } else {
        AgentRoleId::Unknown
    }
}

impl AgentRoleId {
    /// The numeric code of the role.
    pub open spec fn spec_code(self) -> u8 {
        match self {
            AgentRoleId::Requirements => 0,
            AgentRoleId::Architecture => 1,
            AgentRoleId::Coding => 2,
            AgentRoleId::Testing => 3,
            AgentRoleId::Security => 4,
            AgentRoleId::Deployment => 5,
            AgentRoleId::Unknown => 0xFF,
        }
    }

    /// The numeric code of the role.
    pub fn code(&self) -> (c: u8)
        ensures
            c == self.spec_code(),
    {
        match self {
            AgentRoleId::Requirements => 0,
            AgentRoleId::Architecture => 1,
            AgentRoleId::Coding => 2,
            AgentRoleId::Testing => 3,
            AgentRoleId::Security => 4,
            AgentRoleId::Deployment => 5,
            AgentRoleId::Unknown => 0xFF,
        }
    }

    /// The role for a numeric code.
    pub fn from_u8(v: u8) -> (r: Self)
        ensures
            r == spec_role_from_u8(v),
    {
        match v {
            0 => AgentRoleId::Requirements,
            1 => AgentRoleId::Architecture,
            2 => AgentRoleId::Coding,
            3 => AgentRoleId::Testing,
            4 => AgentRoleId::Security,
            5 => AgentRoleId::Deployment,
            _ => AgentRoleId::Unknown,
        }
    }
}

/// Reading a role's code back gives the role: `from_u8` undoes `code`.
pub proof fn law_role_code_roundtrip(r: AgentRoleId)
    ensures
        spec_role_from_u8(r.spec_code()) == r,
{
}

/// An agent may claim a task when no role is required (code 0xFF) or when
/// both codes name the same role; codes without a role all read as
/// `Unknown` and so match each other.
pub open spec fn spec_can_claim(required_role_id: u8, agent_role_id: u8) -> u8 {
    if required_role_id == 0xFF || spec_role_from_u8(required_role_id) == spec_role_from_u8(
        agent_role_id,
    ) {
        1
    } else {
        0
    }
}

/// 1 when an agent with role `agent_role_id` may claim a task that requires
/// `required_role_id`, else 0.
pub fn can_claim(required_role_id: u8, agent_role_id: u8) -> (r: u8)
    ensures
        r == spec_can_claim(required_role_id, agent_role_id),
{
    let required = AgentRoleId::from_u8(required_role_id);
    let agent = AgentRoleId::from_u8(agent_role_id);
    if required_role_id == 0xFF || required == agent {
        1
    } else {
        0
    }
}

/// Every agent may claim a task that requires no role, and every agent may
/// claim a task that requires its own role.
pub proof fn law_claim_open_and_own_role(agent_role_id: u8)
    ensures
        spec_can_claim(0xFF, agent_role_id) == 1,
        spec_can_claim(agent_role_id, agent_role_id) == 1,
{
}

/// 1 when at least `threshold` votes were cast, else 0.
pub fn consensus_met(votes_count: u32, threshold: u32) -> (r: u8)
    ensures
        r == (if votes_count >= threshold { 1u8 } else { 0u8 }),
{
    if votes_count >= threshold {
        1
    } else {
        0
    }
}

/// How urgent a task is: its age in seconds plus 60 seconds per previous
/// attempt, saturating.
pub open spec fn urgency(attempts: u32, age_secs: u64) -> u64 {
    crate::arith::sat_u64(age_secs + attempts * 60)
}

/// Priority weight of a task for assignment; a lower value means a higher
/// priority. Older tasks and tasks tried more often are more urgent, so the
/// weight counts the urgency down from `u64::MAX`.
pub fn task_priority_score(attempts: u32, age_secs: u64) -> (score: u64)
    ensures
        score == u64::MAX - urgency(attempts, age_secs),
{
    let attempt_weight = crate::arith::sat_mul_u64(attempts as u64, 60);
    u64::MAX - age_secs.saturating_add(attempt_weight)
}

/// More attempts and a greater age never give a larger weight, that is,
/// never a lower priority.
pub proof fn law_priority_rises_with_attempts_and_age(a1: u32, a2: u32, g1: u64, g2: u64)
    requires
        a1 <= a2,
        g1 <= g2,
    ensures
        u64::MAX - urgency(a2, g2) <= u64::MAX - urgency(a1, g1),
{
    assert(a1 * 60 <= a2 * 60) by (nonlinear_arith)
        requires
            a1 <= a2,
    ;
}

/// Lifecycle hooks of the agents plugin; it keeps no state.
pub struct AgentsPluginLifecycle;

impl AgentsPluginLifecycle {
    /// Creates the plugin's lifecycle handle.
    pub fn new() -> Self {
        AgentsPluginLifecycle
    }

    /// Called once after loading; always succeeds.
    pub fn init(&mut self, _ctx: &FfPluginCtx) -> (r: Result<(), String>)
        ensures
            r is Ok,
    {
        Ok(())
    }

    /// Called on every host tick; always succeeds.
    pub fn tick(&mut self, _tick: u64) -> (r: Result<(), String>)
        ensures
            r is Ok,
    {
        Ok(())
    }

    /// Called before unloading; always succeeds.
    pub fn shutdown(&mut self) -> (r: Result<(), String>)
        ensures
            r is Ok,
    {
        Ok(())
    }
}

} // verus!
