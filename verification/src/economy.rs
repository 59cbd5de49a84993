//! `forgefabrik.economy`: token budgets, cost estimates and throttling for
//! AI agents. Pure computation, no I/O.

use vstd::prelude::*;
use vstd::arithmetic::power2::pow2;
use crate::arith::{sat_u64, sat_mul_u64};
use crate::plugin::FfPluginCtx;

verus! {

/// Cost tier of a model; it decides the price per token.
#[derive(Debug, Clone, Copy, PartialEq, Eq)]
pub enum ModelTier {
    /// Small models (code 0), cheap.
    Small,
    /// Medium models (code 1), the default.
    Medium,
    /// Large models (code 2), expensive.
    Large,
    /// Any other code (0xFF).
    Unknown,
}

impl ModelTier {
    /// The numeric code of the tier on the plugin's C interface.
    pub open spec fn spec_code(self) -> u8 {
        match self {
            ModelTier::Small => 0,
            ModelTier::Medium => 1,
            ModelTier::Large => 2,
            ModelTier::Unknown => 0xFF,
        }
    }

    /// The numeric code of the tier.
    pub fn code(&self) -> (c: u8)
        ensures
            c == self.spec_code(),
    {
        match self {
            ModelTier::Small => 0,
            ModelTier::Medium => 1,
            ModelTier::Large => 2,
            ModelTier::Unknown => 0xFF,
        }
    }
}

/// Price of 1000 input tokens in milli-credits for a tier code.
pub open spec fn input_rate(tier: u8) -> u64 {
    if tier == 0 { 1 } else if tier == 1 { 3 } else { 15 }
}

/// Price of 1000 output tokens in milli-credits for a tier code.
pub open spec fn output_rate(tier: u8) -> u64 {
    if tier == 0 { 3 } else if tier == 1 { 15 } else { 75 }
}

/// Estimated cost in milli-credits: each side's tokens times its rate
/// (saturating), divided by 1000, and the two parts added (saturating).
pub open spec fn spec_estimate_cost_milli(tier: u8, input_toks: u64, output_toks: u64) -> u64 {
    sat_u64(
        sat_u64(input_toks * input_rate(tier)) / 1000 + sat_u64(output_toks * output_rate(tier))
            / 1000,
    )
}

/// Estimates the token cost of a call in milli-credits (1000 = 1 credit).
/// Tier 0 is small, 1 medium, every other code large.
pub fn estimate_cost_milli(tier: u8, input_toks: u64, output_toks: u64) -> (cost: u64)
    ensures
        cost == spec_estimate_cost_milli(tier, input_toks, output_toks),
{
    let (input_rate, output_rate) = match tier {
        0 => (1u64, 3u64),
        1 => (3u64, 15u64),
        _ => (15u64, 75u64),
    };
    let input_cost = sat_mul_u64(input_toks, input_rate) / 1000;
    let output_cost = sat_mul_u64(output_toks, output_rate) / 1000;
    input_cost.saturating_add(output_cost)
}

/// 1 when the remaining budget covers the estimated cost, else 0.
pub fn budget_sufficient(budget_remaining: u64, estimated_cost: u64) -> (r: u8)
    ensures
        r == (if budget_remaining >= estimated_cost { 1u8 } else { 0u8 }),
{
    if budget_remaining >= estimated_cost {
        1
    } else {
        0
    }
}

/// The delay in milliseconds for a caller with `calls_last_minute` calls
/// against a limit of `rate_limit` calls per minute: none below the limit,
/// else the per-call share of a minute doubled for each call over the limit,
/// at most ten times, saturating.
pub open spec fn spec_throttle_delay_ms(calls_last_minute: u32, rate_limit: u32) -> u64 {
    if calls_last_minute < rate_limit {
        0
    } else {
        let overflow = (calls_last_minute - rate_limit) as nat;
        let base: int = 60_000int / (if rate_limit == 0 { 1int } else { rate_limit as int });
        let doublings: nat = if overflow < 10 { overflow } else { 10 };
        sat_u64(base * pow2(doublings))
    }
}

/// Throttle delay in milliseconds (0 = no throttling).
pub fn throttle_delay_ms(calls_last_minute: u32, rate_limit: u32) -> (delay: u64)
    ensures
        delay == spec_throttle_delay_ms(calls_last_minute, rate_limit),
{
    if calls_last_minute < rate_limit {
        return 0;
    }
    let overflow = calls_last_minute.saturating_sub(rate_limit) as u64;
    let divisor: u64 = if rate_limit > 1 { rate_limit as u64 } else { 1 };
    let base_ms = 60_000u64 / divisor;
    let shift: u64 = if overflow < 10 { overflow } else { 10 };
    proof {
        vstd::arithmetic::power2::lemma_pow2_pos(shift as nat);
        vstd::arithmetic::power2::lemma2_to64();
        if shift < 10 {
            vstd::arithmetic::power2::lemma_pow2_strictly_increases(shift as nat, 10);
        }
        assert(pow2(shift as nat) <= 1024);
        vstd::bits::lemma_u64_shl_is_mul(1u64, shift);
    }
    base_ms.checked_mul(1u64 << shift).unwrap_or(u64::MAX)
}

/// Standard monthly budget in milli-credits for an agent tier
/// (0 = dev, 1 = staging, every other code production).
pub open spec fn spec_default_monthly_budget(agent_tier: u8) -> u64 {
    if agent_tier == 0 { 10_000 } else if agent_tier == 1 { 100_000 } else { 500_000 }
}

/// Standard monthly budget for an agent tier.
pub fn default_monthly_budget(agent_tier: u8) -> (b: u64)
    ensures
        b == spec_default_monthly_budget(agent_tier),
{
    match agent_tier {
        0 => 10_000,
        1 => 100_000,
        _ => 500_000,
    }
}


/// `sat_u64` is monotone.
proof fn lemma_sat_u64_monotone(a: int, b: int)
    requires
        a <= b,
    ensures
        sat_u64(a) <= sat_u64(b),
{
}

/// More tokens never cost less: the estimate is monotone in the input and
/// in the output token count, for every tier.
pub proof fn law_cost_monotone_in_tokens(tier: u8, i1: u64, i2: u64, o1: u64, o2: u64)
    requires
        i1 <= i2,
        o1 <= o2,
    ensures
        spec_estimate_cost_milli(tier, i1, o1) <= spec_estimate_cost_milli(tier, i2, o2),
{
    let ri = input_rate(tier) as int;
    let ro = output_rate(tier) as int;
    vstd::arithmetic::mul::lemma_mul_inequality(i1 as int, i2 as int, ri);
    vstd::arithmetic::mul::lemma_mul_inequality(o1 as int, o2 as int, ro);
    lemma_sat_u64_monotone(i1 * ri, i2 * ri);
    lemma_sat_u64_monotone(o1 * ro, o2 * ro);
    let a1 = sat_u64(i1 * ri) as int;
    let a2 = sat_u64(i2 * ri) as int;
    let b1 = sat_u64(o1 * ro) as int;
    let b2 = sat_u64(o2 * ro) as int;
    vstd::arithmetic::div_mod::lemma_div_is_ordered(a1, a2, 1000);
    vstd::arithmetic::div_mod::lemma_div_is_ordered(b1, b2, 1000);
    lemma_sat_u64_monotone(a1 / 1000 + b1 / 1000, a2 / 1000 + b2 / 1000);
}

/// Prices per 1000 tokens in milli-credits: input 1, 3 and 15, output 3,
/// 15 and 75 for the small (0), medium (1) and large (every other code)
/// tier. Each side costs its tokens times its price (saturating), divided
/// by 1000, and the estimate is the saturating sum of the two sides.
pub proof fn law_cost_prices(tier: u8, i: u64, o: u64)
    ensures
        spec_estimate_cost_milli(tier, i, 0) == sat_u64(i * (if tier == 0 { 1int } else if tier == 1 { 3int } else { 15int })) / 1000,
        spec_estimate_cost_milli(tier, 0, o) == sat_u64(o * (if tier == 0 { 3int } else if tier == 1 { 15int } else { 75int })) / 1000,
        spec_estimate_cost_milli(tier, i, o) == sat_u64(
            spec_estimate_cost_milli(tier, i, 0) + spec_estimate_cost_milli(tier, 0, o),
        ),
{
}

/// The tiers price in the ratio 1 : 3 : 15 for input and 3 : 15 : 75 for
/// output: without saturation a large call costs as much as five medium
/// calls, and a medium call as much as three small ones (before rounding
/// down to whole milli-credits).
pub proof fn law_cost_tier_ratios(i: u64, o: u64)
    requires
        i * 75 <= u64::MAX,
        o * 75 <= u64::MAX,
    ensures
        spec_estimate_cost_milli(2, i, 0) == (15 * i) / 1000,
        spec_estimate_cost_milli(2, 0, o) == (75 * o) / 1000,
        spec_estimate_cost_milli(1, i, 0) == (3 * i) / 1000,
        spec_estimate_cost_milli(1, 0, o) == (15 * o) / 1000,
        spec_estimate_cost_milli(0, i, 0) == i / 1000,
        spec_estimate_cost_milli(0, 0, o) == (3 * o) / 1000,
{
    assert(input_rate(2) == 15 && output_rate(2) == 75);
    assert(input_rate(1) == 3 && output_rate(1) == 15);
    assert(input_rate(0) == 1 && output_rate(0) == 3);
}

/// A caller with more calls in the last minute never waits less:
/// the throttle delay is monotone in the call count, for every limit.
pub proof fn law_throttle_monotone_in_calls(c1: u32, c2: u32, rate_limit: u32)
    requires
        c1 <= c2,
    ensures
        spec_throttle_delay_ms(c1, rate_limit) <= spec_throttle_delay_ms(c2, rate_limit),
{
    if c1 >= rate_limit {
        let o1 = (c1 - rate_limit) as nat;
        let o2 = (c2 - rate_limit) as nat;
        let d1: nat = if o1 < 10 { o1 } else { 10 };
        let d2: nat = if o2 < 10 { o2 } else { 10 };
        let base: int = 60_000int / (if rate_limit == 0 { 1int } else { rate_limit as int });
        assert(base >= 0);
        if d1 < d2 {
            vstd::arithmetic::power2::lemma_pow2_strictly_increases(d1, d2);
        }
        assert(pow2(d1) <= pow2(d2));
        vstd::arithmetic::mul::lemma_mul_inequality(pow2(d1) as int, pow2(d2) as int, base);
        vstd::arithmetic::mul::lemma_mul_is_commutative(base, pow2(d1) as int);
        vstd::arithmetic::mul::lemma_mul_is_commutative(base, pow2(d2) as int);
        lemma_sat_u64_monotone(base * pow2(d1), base * pow2(d2));
    }
}

/// Below the limit nobody is throttled; at the limit, with a limit of at
/// most 60000 calls per minute, everybody is.
pub proof fn law_throttle_only_at_limit(calls: u32, rate_limit: u32)
    ensures
        calls < rate_limit ==> spec_throttle_delay_ms(calls, rate_limit) == 0,
        calls >= rate_limit && rate_limit <= 60_000 ==> spec_throttle_delay_ms(calls, rate_limit)
            > 0,
{
    if calls >= rate_limit && rate_limit <= 60_000 {
        let o = (calls - rate_limit) as nat;
        let d: nat = if o < 10 { o } else { 10 };
        vstd::arithmetic::power2::lemma_pow2_pos(d);
        let base: int = 60_000int / (if rate_limit == 0 { 1int } else { rate_limit as int });
        assert(base >= 1) by {
            if rate_limit > 0 {
                vstd::arithmetic::div_mod::lemma_div_is_ordered(rate_limit as int, 60_000, rate_limit as int);
                vstd::arithmetic::div_mod::lemma_div_by_self(rate_limit as int);
            }
        }
        vstd::arithmetic::mul::lemma_mul_inequality(1, base, pow2(d) as int);
    }
}

/// Lifecycle hooks of the economy plugin; it keeps no state.
pub struct EconomyPluginLifecycle;

impl EconomyPluginLifecycle {
    /// Creates the plugin's lifecycle handle.
    pub fn new() -> Self {
        EconomyPluginLifecycle
    }

    /// Called once after loading; always succeeds.
    pub fn init(&mut self, _ctx: &FfPluginCtx) -> (r: Result<(), String>)
        ensures
            r is Ok,
    {
        Ok(())
    }

    /// Called on every host tick; always succeeds.
    pub fn tick(&mut self, _tick: u64) -> (r: Result<(), String>)
        ensures
            r is Ok,
    {
        Ok(())
    }

    /// Called before unloading; always succeeds.
    pub fn shutdown(&mut self) -> (r: Result<(), String>)
        ensures
            r is Ok,
    {
        Ok(())
    }
}

} // verus!
