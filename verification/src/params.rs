//! The immutable parameter record that drives the whole mechanic, and the
//! fixed-point convention that all rate-like quantities use.

use vstd::prelude::*;

verus! {

/// Rates, ratios and values are fixed-point fractions with this denominator:
/// a field holding `RATE_SCALE` stands for 1.0, `RATE_SCALE / 2` for 0.5.
pub const RATE_SCALE: u64 = 1000000;

/// Configuration of the enhancement mechanic. Created once, never mutated.
///
/// Rate-like fields (`*_rate`, `*_curve`, `*_ratio`) are fixed-point
/// fractions in `[0, RATE_SCALE]`; curves must be strictly positive so the
/// geometric decay is well defined. `min_value` and `value_increment` are
/// fixed-point values with no upper bound beyond machine arithmetic.
#[derive(Clone, Copy, Debug, PartialEq, Eq, Structural)]
pub struct EnhancerParams {
    /// Highest (absorbing) level; levels run `0..=max_level`.
    pub max_level: usize,
    /// Added to the value once per level above 0.
    pub value_increment: u64,
    /// The value at level 0.
    pub min_value: u64,
    /// Multiplier applied to the upgrade rate once per level above 0.
    pub upgrade_rate_curve: u64,
    /// The upgrade rate at level 0, before any decay.
    pub max_upgrade_rate: u64,
    /// Floor under the decayed upgrade rate.
    pub min_upgrade_rate: u64,
    /// Multiplier applied to the downgrade rate once per level below the top.
    pub downgrade_rate_curve: u64,
    /// The downgrade rate at the level just below `max_level`.
    pub max_downgrade_rate: u64,
    /// The halve rate is this fraction of the downgrade rate.
    pub halve_ratio: u64,
    /// The reset rate is this fraction of the downgrade rate.
    pub reset_ratio: u64,
    /// Below this level the downgrade rate is 0.
    pub min_downgrade_level: usize,
    /// Below this level the halve rate is 0.
    pub min_halve_level: usize,
    /// Below this level the reset rate is 0.
    pub min_reset_level: usize,
}

impl EnhancerParams {
    /// Well-formed parameters: every rate-like field lies in [0, 1] (scaled),
    /// both curves lie in (0, 1], and the value line and the level count fit
    /// machine arithmetic.
    pub open spec fn wf(self) -> bool {
        &&& 0 < self.upgrade_rate_curve <= RATE_SCALE
        &&& 0 < self.downgrade_rate_curve <= RATE_SCALE
        &&& self.max_upgrade_rate <= RATE_SCALE
        &&& self.min_upgrade_rate <= RATE_SCALE
        &&& self.max_downgrade_rate <= RATE_SCALE
        &&& self.halve_ratio <= RATE_SCALE
        &&& self.reset_ratio <= RATE_SCALE
        &&& self.min_value + self.max_level * self.value_increment <= u64::MAX
        &&& self.max_level < usize::MAX
    }
}

/// The stock parameter set: ten levels, value starting at 1.0 and growing by
/// 0.125 per level, upgrade rate decaying from 1.0 by halves down to a floor
/// of 0.125, downgrade rate decaying from 0.5 by halves below the top, with
/// halving at a quarter and resetting at a sixteenth of the downgrade rate.
pub fn default_params() -> (r: EnhancerParams)
    ensures
        r.wf(),
        r == (EnhancerParams {
            max_level: 10,
            value_increment: 125000,
            min_value: 1000000,
            upgrade_rate_curve: 500000,
            max_upgrade_rate: 1000000,
            min_upgrade_rate: 125000,
            downgrade_rate_curve: 500000,
            max_downgrade_rate: 500000,
            halve_ratio: 250000,
            reset_ratio: 62500,
            min_downgrade_level: 1,
            min_halve_level: 3,
            min_reset_level: 5,
        }),
{
    EnhancerParams {
        max_level: 10,
        value_increment: 125000,
        min_value: 1000000,
        upgrade_rate_curve: 500000,
        max_upgrade_rate: 1000000,
        min_upgrade_rate: 125000,
        downgrade_rate_curve: 500000,
        max_downgrade_rate: 500000,
        halve_ratio: 250000,
        reset_ratio: 62500,
        min_downgrade_level: 1,
        min_halve_level: 3,
        min_reset_level: 5,
    }
}

} // verus!
