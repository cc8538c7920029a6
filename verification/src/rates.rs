//! The rate model: deriving, for each level `0..=max_level`, the value and
//! the four outcome probabilities from an [`EnhancerParams`] record.

use vstd::prelude::*;

use crate::params::{EnhancerParams, RATE_SCALE};

verus! {

/// Fixed-point multiplication of two scaled fractions, truncating toward
/// zero: the exact product divided by the scale, rounded down.
pub open spec fn trunc_mul(a: nat, b: nat) -> nat {
    (a * b) / (RATE_SCALE as nat)
}

/// The spec-level maximum of two naturals.
pub open spec fn nat_max(a: nat, b: nat) -> nat {
    if a >= b {
        a
    } else {
        b
    }
}

/// The value at a level: the base value plus one increment per level.
pub open spec fn spec_value(params: EnhancerParams, level: nat) -> nat {
    (params.min_value + level * params.value_increment) as nat
}

/// The upgrade rate after `steps` rounds of floored geometric decay:
/// start at `max_upgrade_rate` and, once per step, multiply by
/// `upgrade_rate_curve` but never fall below `min_upgrade_rate`.
pub open spec fn decayed_upgrade(params: EnhancerParams, steps: nat) -> nat
    decreases steps,
{
    if steps == 0 {
        params.max_upgrade_rate as nat
    } else {
        nat_max(
            params.min_upgrade_rate as nat,
            trunc_mul(
                decayed_upgrade(params, (steps - 1) as nat),
                params.upgrade_rate_curve as nat,
            ),
        )
    }
}

/// The downgrade rate `steps` levels below the top: start at
/// `max_downgrade_rate` and multiply by `downgrade_rate_curve` once per
/// step, with no floor.
pub open spec fn grown_downgrade(params: EnhancerParams, steps: nat) -> nat
    decreases steps,
{
    if steps == 0 {
        params.max_downgrade_rate as nat
    } else {
        trunc_mul(
            grown_downgrade(params, (steps - 1) as nat),
            params.downgrade_rate_curve as nat,
        )
    }
}

/// The upgrade probability at a level: zero at and above `max_level`,
/// otherwise the decayed rate after `level` steps.
pub open spec fn spec_upgrade_rate(params: EnhancerParams, level: nat) -> nat {
    if level >= params.max_level {
        0
    } else {
        decayed_upgrade(params, level)
    }
}

/// The downgrade probability at a level: zero at and above `max_level` and
/// below `min_downgrade_level`, otherwise the grown rate
/// `max_level - level - 1` steps below the top.
pub open spec fn spec_downgrade_rate(params: EnhancerParams, level: nat) -> nat {
    if level >= params.max_level || level < params.min_downgrade_level {
        0
    } else {
        grown_downgrade(params, (params.max_level - level - 1) as nat)
    }
}

/// The halve probability: zero below `min_halve_level`, otherwise the
/// downgrade probability scaled by `halve_ratio`.
pub open spec fn spec_halve_rate(params: EnhancerParams, level: nat) -> nat {
    if level < params.min_halve_level {
        0
    } else {
        trunc_mul(spec_downgrade_rate(params, level), params.halve_ratio as nat)
    }
}

/// The reset probability: zero below `min_reset_level`, otherwise the
/// downgrade probability scaled by `reset_ratio`.
pub open spec fn spec_reset_rate(params: EnhancerParams, level: nat) -> nat {
    if level < params.min_reset_level {
        0
    } else {
        trunc_mul(spec_downgrade_rate(params, level), params.reset_ratio as nat)
    }
}

/// The sum of the four outcome probabilities at a level; the remainder up
/// to `RATE_SCALE` is the implicit no-change probability.
pub open spec fn spec_rate_sum(params: EnhancerParams, level: nat) -> nat {
    spec_upgrade_rate(params, level) + spec_downgrade_rate(params, level)
        + spec_halve_rate(params, level) + spec_reset_rate(params, level)
}

/// One row of the rate table, derived once per level and never mutated.
/// All rate fields are fixed-point fractions over [`RATE_SCALE`].
#[derive(Clone, Copy, Debug, PartialEq, Eq, Structural)]
pub struct EnhanceRate {
    pub level: usize,
    pub value: u64,
    pub upgrade: u64,
    pub downgrade: u64,
    pub halve: u64,
    pub reset: u64,
}

impl EnhanceRate {
    /// A row is well formed when its four outcome probabilities sum to at
    /// most one, so the no-change remainder is non-negative.
    pub open spec fn wf(self) -> bool {
        self.upgrade + self.downgrade + self.halve + self.reset <= RATE_SCALE
    }

    /// The implicit probability that an attempt leaves the level unchanged:
    /// whatever the four explicit outcomes do not claim.
    pub fn no_change_rate(&self) -> (r: u64)
        requires
            self.wf(),
        ensures
            r == RATE_SCALE - (self.upgrade + self.downgrade + self.halve + self.reset),
    {
        RATE_SCALE - (self.reset + self.halve + self.downgrade + self.upgrade)
    }
}

/// The full derived row for one level.
pub open spec fn spec_rate(params: EnhancerParams, level: nat) -> EnhanceRate {
    EnhanceRate {
        level: level as usize,
        value: spec_value(params, level) as u64,
        upgrade: spec_upgrade_rate(params, level) as u64,
        downgrade: spec_downgrade_rate(params, level) as u64,
        halve: spec_halve_rate(params, level) as u64,
        reset: spec_reset_rate(params, level) as u64,
    }
}

/// Truncating fixed-point multiplication by a fraction of at most one
/// never increases the value.
pub proof fn lemma_trunc_mul_le(a: nat, b: nat)
    requires
        b <= RATE_SCALE,
    ensures
        trunc_mul(a, b) <= a,
{
    let scale = RATE_SCALE as int;
    vstd::arithmetic::mul::lemma_mul_inequality(b as int, scale, a as int);
    vstd::arithmetic::mul::lemma_mul_is_commutative(a as int, b as int);
    vstd::arithmetic::mul::lemma_mul_is_commutative(a as int, scale);
    vstd::arithmetic::div_mod::lemma_div_is_ordered((a * b) as int, a * scale, scale);
    vstd::arithmetic::div_mod::lemma_div_multiples_vanish(a as int, scale);
}

/// The decayed upgrade rate stays a probability: it never exceeds one.
pub proof fn lemma_decayed_upgrade_le_scale(params: EnhancerParams, steps: nat)
    requires
        params.wf(),
    ensures
        decayed_upgrade(params, steps) <= RATE_SCALE,
    decreases steps,
{
    if steps > 0 {
        lemma_decayed_upgrade_le_scale(params, (steps - 1) as nat);
        lemma_trunc_mul_le(
            decayed_upgrade(params, (steps - 1) as nat),
            params.upgrade_rate_curve as nat,
        );
    }
}

/// The grown downgrade rate never exceeds its starting point,
/// `max_downgrade_rate`, and so stays a probability.
pub proof fn lemma_grown_downgrade_le_max(params: EnhancerParams, steps: nat)
    requires
        params.wf(),
    ensures
        grown_downgrade(params, steps) <= params.max_downgrade_rate,
    decreases steps,
{
    if steps > 0 {
        lemma_grown_downgrade_le_max(params, (steps - 1) as nat);
        lemma_trunc_mul_le(
            grown_downgrade(params, (steps - 1) as nat),
            params.downgrade_rate_curve as nat,
        );
    }
}

/// Every derived probability lies in `[0, RATE_SCALE]`.
pub proof fn lemma_rates_bounded(params: EnhancerParams, level: nat)
    requires
        params.wf(),
    ensures
        spec_upgrade_rate(params, level) <= RATE_SCALE,
        spec_downgrade_rate(params, level) <= RATE_SCALE,
        spec_halve_rate(params, level) <= RATE_SCALE,
        spec_reset_rate(params, level) <= RATE_SCALE,
{
    lemma_decayed_upgrade_le_scale(params, level);
    if params.min_downgrade_level <= level < params.max_level {
        lemma_grown_downgrade_le_max(params, (params.max_level - level - 1) as nat);
    }
    lemma_trunc_mul_le(spec_downgrade_rate(params, level), params.halve_ratio as nat);
    lemma_trunc_mul_le(spec_downgrade_rate(params, level), params.reset_ratio as nat);
}

/// An invalid configuration, detected when the rate table is built.
#[derive(Clone, Copy, Debug, PartialEq, Eq, Structural)]
pub enum RateError {
    /// The four outcome probabilities at `level` sum to more than one.
    RateSumExceedsOne { level: usize },
}

/// The value at a level: the base value plus one increment per level.
pub fn gen_value(params: EnhancerParams, level: usize) -> (r: u64)
    requires
        params.wf(),
        level <= params.max_level,
    ensures
        r == spec_value(params, level as nat),
{
    proof {
        vstd::arithmetic::mul::lemma_mul_inequality(
            level as int,
            params.max_level as int,
            params.value_increment as int,
        );
    }
    params.min_value + (level as u64) * params.value_increment
}

/// The upgrade probability at a level: the floored geometric decay of
/// `max_upgrade_rate`, applied `level` times, and zero at the top.
pub fn gen_upgrade_rate(params: EnhancerParams, level: usize) -> (r: u64)
    requires
        params.wf(),
    ensures
        r == spec_upgrade_rate(params, level as nat),
        r <= RATE_SCALE,
{
    if level >= params.max_level {
        return 0;
    }
    let mut rate = params.max_upgrade_rate;
    let mut i: usize = 0;
    while i < level
        invariant
            params.wf(),
            i <= level,
            rate == decayed_upgrade(params, i as nat),
            rate <= RATE_SCALE,
        decreases level - i,
    {
        proof {
            vstd::arithmetic::mul::lemma_mul_upper_bound(
                rate as int,
                RATE_SCALE as int,
                params.upgrade_rate_curve as int,
                RATE_SCALE as int,
            );
        }
        let decayed = rate * params.upgrade_rate_curve / RATE_SCALE;
        rate = if decayed > params.min_upgrade_rate {
            decayed
        } else {
            params.min_upgrade_rate
        };
        i = i + 1;
        proof {
            lemma_decayed_upgrade_le_scale(params, i as nat);
        }
    }
    rate
}

/// The downgrade probability at a level: `max_downgrade_rate` shrunk once
/// per level below the top, zero at the top and below `min_downgrade_level`.
pub fn gen_downgrade_rate(params: EnhancerParams, level: usize) -> (r: u64)
    requires
        params.wf(),
    ensures
        r == spec_downgrade_rate(params, level as nat),
        r <= RATE_SCALE,
{
    if level >= params.max_level {
        return 0;
    }
    if level < params.min_downgrade_level {
        return 0;
    }
    let count = params.max_level - level - 1;
    let mut rate = params.max_downgrade_rate;
    let mut i: usize = 0;
    while i < count
        invariant
            params.wf(),
            i <= count,
            rate == grown_downgrade(params, i as nat),
            rate <= RATE_SCALE,
        decreases count - i,
    {
        proof {
            vstd::arithmetic::mul::lemma_mul_upper_bound(
                rate as int,
                RATE_SCALE as int,
                params.downgrade_rate_curve as int,
                RATE_SCALE as int,
            );
            lemma_trunc_mul_le(rate as nat, params.downgrade_rate_curve as nat);
        }
        rate = rate * params.downgrade_rate_curve / RATE_SCALE;
        i = i + 1;
    }
    rate
}

/// The halve probability: the downgrade probability scaled by
/// `halve_ratio`, zero below `min_halve_level`.
pub fn gen_halve_rate(params: EnhancerParams, level: usize) -> (r: u64)
    requires
        params.wf(),
    ensures
        r == spec_halve_rate(params, level as nat),
        r <= RATE_SCALE,
{
    if level < params.min_halve_level {
        return 0;
    }
    let down = gen_downgrade_rate(params, level);
    proof {
        vstd::arithmetic::mul::lemma_mul_upper_bound(
            down as int,
            RATE_SCALE as int,
            params.halve_ratio as int,
            RATE_SCALE as int,
        );
        lemma_trunc_mul_le(down as nat, params.halve_ratio as nat);
    }
    down * params.halve_ratio / RATE_SCALE
}

/// The reset probability: the downgrade probability scaled by
/// `reset_ratio`, zero below `min_reset_level`.
pub fn gen_reset_rate(params: EnhancerParams, level: usize) -> (r: u64)
    requires
        params.wf(),
    ensures
        r == spec_reset_rate(params, level as nat),
        r <= RATE_SCALE,
{
    if level < params.min_reset_level {
        return 0;
    }
    let down = gen_downgrade_rate(params, level);
    proof {
        vstd::arithmetic::mul::lemma_mul_upper_bound(
            down as int,
            RATE_SCALE as int,
            params.reset_ratio as int,
            RATE_SCALE as int,
        );
        lemma_trunc_mul_le(down as nat, params.reset_ratio as nat);
    }
    down * params.reset_ratio / RATE_SCALE
}

/// Derives the whole rate table, one row per level `0..=max_level`, each
/// row exactly the derived probabilities and value for its level.
///
/// Rejects a configuration whose four outcome probabilities sum to more
/// than one at some level, naming the lowest such level; succeeds if and
/// only if no level oversubscribes its probability budget.
pub fn generate_rates(params: EnhancerParams) -> (r: Result<Vec<EnhanceRate>, RateError>)
    requires
        params.wf(),
    ensures
        match r {
            Ok(rates) => {
                &&& rates@.len() == params.max_level + 1
                &&& forall|i: int|
                    0 <= i < rates@.len() ==> rates@[i] == spec_rate(params, i as nat)
                &&& forall|i: int| 0 <= i < rates@.len() ==> (#[trigger] rates@[i]).wf()
                &&& forall|l: nat|
                    l <= params.max_level ==> #[trigger] spec_rate_sum(params, l) <= RATE_SCALE
                &&& rates@[params.max_level as int].upgrade == 0
                &&& rates@[params.max_level as int].downgrade == 0
                &&& rates@[params.max_level as int].halve == 0
                &&& rates@[params.max_level as int].reset == 0
            },
            Err(e) => match e {
                RateError::RateSumExceedsOne { level } => {
                    &&& level <= params.max_level
                    &&& spec_rate_sum(params, level as nat) > RATE_SCALE
                    &&& forall|l: nat|
                        l < level ==> #[trigger] spec_rate_sum(params, l) <= RATE_SCALE
                },
            },
        },
{
    let count = params.max_level + 1;
    let mut rates: Vec<EnhanceRate> = Vec::new();
    let mut level: usize = 0;
    while level < count
        invariant
            params.wf(),
            count == params.max_level + 1,
            level <= count,
            rates@.len() == level,
            forall|i: int| 0 <= i < level ==> rates@[i] == spec_rate(params, i as nat),
            forall|i: int| 0 <= i < level ==> (#[trigger] rates@[i]).wf(),
            forall|l: nat| l < level ==> #[trigger] spec_rate_sum(params, l) <= RATE_SCALE,
        decreases count - level,
    {
        let value = gen_value(params, level);
        let upgrade = gen_upgrade_rate(params, level);
        let downgrade = gen_downgrade_rate(params, level);
        let halve = gen_halve_rate(params, level);
        let reset = gen_reset_rate(params, level);
        if upgrade + downgrade + halve + reset > RATE_SCALE {
            return Err(RateError::RateSumExceedsOne { level });
        }
        rates.push(EnhanceRate { level, value, upgrade, downgrade, halve, reset });
        level = level + 1;
    }
    proof {
        lemma_max_level_absorbing(params);
    }
    Ok(rates)
}

/// Rate derivation is deterministic: any two tables whose rows each equal
/// the derived row for their level — as every table returned by
/// `generate_rates` does — are one and the same table.
pub proof fn lemma_generate_rates_deterministic(
    params: EnhancerParams,
    r1: Seq<EnhanceRate>,
    r2: Seq<EnhanceRate>,
)
    requires
        r1.len() == params.max_level + 1,
        forall|i: int| 0 <= i < r1.len() ==> r1[i] == spec_rate(params, i as nat),
        r2.len() == params.max_level + 1,
        forall|i: int| 0 <= i < r2.len() ==> r2[i] == spec_rate(params, i as nat),
    ensures
        r1 == r2,
{
    assert(r1 =~= r2);
}

/// The top level is absorbing: all four outcome probabilities are exactly
/// zero at `max_level`.
pub proof fn lemma_max_level_absorbing(params: EnhancerParams)
    ensures
        spec_upgrade_rate(params, params.max_level as nat) == 0,
        spec_downgrade_rate(params, params.max_level as nat) == 0,
        spec_halve_rate(params, params.max_level as nat) == 0,
        spec_reset_rate(params, params.max_level as nat) == 0,
{
}

/// The value line is linear in the level and non-decreasing: a higher level
/// never has a smaller value.
pub proof fn lemma_value_monotone(params: EnhancerParams, l1: nat, l2: nat)
    requires
        l1 <= l2,
    ensures
        spec_value(params, l1) == params.min_value + l1 * params.value_increment,
        spec_value(params, l1) <= spec_value(params, l2),
{
    vstd::arithmetic::mul::lemma_mul_inequality(
        l1 as int,
        l2 as int,
        params.value_increment as int,
    );
}

/// Growing the downgrade rate by more steps of a decay fraction at most one
/// never increases it.
pub proof fn lemma_grown_downgrade_anti_monotone(params: EnhancerParams, s1: nat, s2: nat)
    requires
        params.wf(),
        s1 <= s2,
    ensures
        grown_downgrade(params, s2) <= grown_downgrade(params, s1),
    decreases s2,
{
    if s1 < s2 {
        lemma_grown_downgrade_anti_monotone(params, s1, (s2 - 1) as nat);
        lemma_trunc_mul_le(
            grown_downgrade(params, (s2 - 1) as nat),
            params.downgrade_rate_curve as nat,
        );
    }
}

/// The downgrade probability is non-decreasing as the level approaches
/// `max_level`, on the levels where downgrading is enabled at all.
pub proof fn lemma_downgrade_rate_monotone(params: EnhancerParams, l1: nat, l2: nat)
    requires
        params.wf(),
        params.min_downgrade_level <= l1 <= l2 < params.max_level,
    ensures
        spec_downgrade_rate(params, l1) <= spec_downgrade_rate(params, l2),
{
    lemma_grown_downgrade_anti_monotone(
        params,
        (params.max_level - l2 - 1) as nat,
        (params.max_level - l1 - 1) as nat,
    );
}

} // verus!
