//! The transition engine: turning one uniform sample into an outcome against
//! one level's rates, and applying an outcome to a level.

use vstd::prelude::*;

use rand::Rng;

use crate::params::RATE_SCALE;
use crate::rates::EnhanceRate;

verus! {

/// The five possible results of one enhancement attempt.
#[derive(Clone, Copy, Debug, PartialEq, Eq, Structural)]
pub enum EnhanceResult {
    NoChange,
    Upgrade,
    Downgrade,
    Halve,
    Reset,
}

/// Which outcome a sample in `[0, RATE_SCALE)` selects: cumulative
/// thresholds are checked in the fixed order reset, halve, downgrade,
/// upgrade, and each outcome claims the half-open sub-interval starting at
/// the probability mass checked before it. The order is part of the design:
/// reordering the thresholds would hand boundary samples to other outcomes.
pub open spec fn spec_roll(rate: EnhanceRate, sample: nat) -> EnhanceResult {
    if sample < rate.reset {
        EnhanceResult::Reset
    } else if sample < rate.reset + rate.halve {
        EnhanceResult::Halve
    } else if sample < rate.reset + rate.halve + rate.downgrade {
        EnhanceResult::Downgrade
    } else if sample < rate.reset + rate.halve + rate.downgrade + rate.upgrade {
        EnhanceResult::Upgrade
    } else {
        EnhanceResult::NoChange
    }
}

/// The level an outcome leads to: upgrading adds one, downgrading removes
/// one but never goes below zero, halving floors the midpoint, resetting
/// returns to zero.
pub open spec fn spec_apply(level: nat, result: EnhanceResult) -> nat {
    match result {
        EnhanceResult::NoChange => level,
        EnhanceResult::Upgrade => level + 1,
        EnhanceResult::Downgrade => if level == 0 {
            0
        } else {
            (level - 1) as nat
        },
        EnhanceResult::Halve => level / 2,
        EnhanceResult::Reset => 0,
    }
}

/// Selects the outcome that a given uniform sample falls to, by the ordered
/// cumulative thresholds of [`spec_roll`].
pub fn roll_outcome(rate: &EnhanceRate, sample: u64) -> (r: EnhanceResult)
    requires
        rate.wf(),
        sample < RATE_SCALE,
    ensures
        r == spec_roll(*rate, sample as nat),
{
    let mut threshold = rate.reset;
    if sample < threshold {
        return EnhanceResult::Reset;
    }
    threshold = threshold + rate.halve;
    if sample < threshold {
        return EnhanceResult::Halve;
    }
    threshold = threshold + rate.downgrade;
    if sample < threshold {
        return EnhanceResult::Downgrade;
    }
    threshold = threshold + rate.upgrade;
    if sample < threshold {
        return EnhanceResult::Upgrade;
    }
    EnhanceResult::NoChange
}

/// Applies an outcome to a level.
pub fn apply_result(level: usize, result: EnhanceResult) -> (r: usize)
    requires
        result == EnhanceResult::Upgrade ==> level < usize::MAX,
    ensures
        r == spec_apply(level as nat, result),
{
    match result {
        EnhanceResult::NoChange => level,
        EnhanceResult::Downgrade => if level == 0 {
            0
        } else {
            level - 1
        },
        EnhanceResult::Halve => level / 2,
        EnhanceResult::Reset => 0,
        EnhanceResult::Upgrade => level + 1,
    }
}

/// Relies on rand's `Rng::gen_range` over `0..RATE_SCALE`: a draw from a
/// non-empty integer range lies within that range, so the sample is a
/// fixed-point fraction in `[0, 1)`. Nothing else is assumed of the draw.
#[verifier::external_body]
pub(crate) fn draw_sample() -> (r: u64)
    ensures
        r < RATE_SCALE,
{
    rand::thread_rng().gen_range(0..RATE_SCALE)
}

/// One random roll against a level's rates: draws one uniform sample and
/// selects its outcome. The outcome of some in-range sample comes back, but
/// which sample is drawn is left entirely open.
pub fn roll(rate: &EnhanceRate) -> (r: EnhanceResult)
    requires
        rate.wf(),
    ensures
        exists|s: nat| s < RATE_SCALE && r == spec_roll(*rate, s),
{
    let sample = draw_sample();
    let outcome = roll_outcome(rate, sample);
    proof {
        assert((sample as nat) < RATE_SCALE && outcome == spec_roll(*rate, sample as nat));
    }
    outcome
}

/// Progress is always possible where the upgrade probability is positive:
/// some in-range sample selects the upgrade outcome. This is what makes a
/// population converge with probability one under such a rate table.
pub proof fn lemma_upgrade_reachable(rate: EnhanceRate)
    requires
        rate.wf(),
        rate.upgrade > 0,
    ensures
        exists|s: nat| s < RATE_SCALE && spec_roll(rate, s) == EnhanceResult::Upgrade,
{
    let s = (rate.reset + rate.halve + rate.downgrade) as nat;
    assert(s < RATE_SCALE && spec_roll(rate, s) == EnhanceResult::Upgrade);
}

} // verus!
