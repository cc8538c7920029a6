//! Statistical aggregation of a finished population: per-level
//! distributions of first-arrival attempt counts, and flattened
//! (level, attempts) pairs for scatter analysis. Pure transforms of the
//! actors' histories, with no randomness.

use vstd::prelude::*;

use crate::simulation::EnhancerSimulation;

verus! {

/// The longest first-arrival history over a population: how many level
/// buckets the per-level distributions have.
pub open spec fn max_history_len(sims: Seq<EnhancerSimulation>) -> nat
    decreases sims.len(),
{
    if sims.len() == 0 {
        0
    } else {
        let rest = max_history_len(sims.drop_last());
        let last = sims.last().history@.len();
        if last > rest {
            last
        } else {
            rest
        }
    }
}

/// The distribution bucket for one level: the attempt count at which each
/// actor first reached that level, in actor order, actors that never
/// reached it contributing nothing.
pub open spec fn level_bucket(sims: Seq<EnhancerSimulation>, level: int) -> Seq<u64>
    decreases sims.len(),
{
    if sims.len() == 0 {
        Seq::empty()
    } else {
        let rest = level_bucket(sims.drop_last(), level);
        if 0 <= level < sims.last().history@.len() {
            rest.push(sims.last().history@[level])
        } else {
            rest
        }
    }
}

/// One actor's history as (level, first-arrival attempt count) pairs, in
/// level order.
pub open spec fn history_points(history: Seq<u64>) -> Seq<(usize, u64)> {
    Seq::new(history.len(), |i: int| (i as usize, history[i]))
}

/// A whole population's histories flattened to (level, attempts) pairs:
/// actor by actor, and within one actor level by level.
pub open spec fn trajectory_points(sims: Seq<EnhancerSimulation>) -> Seq<(usize, u64)>
    decreases sims.len(),
{
    if sims.len() == 0 {
        Seq::empty()
    } else {
        trajectory_points(sims.drop_last()) + history_points(sims.last().history@)
    }
}

impl EnhancerSimulation {
    /// The per-level distributions of first-arrival attempt counts: one
    /// bucket per level any actor reached, each holding, in actor order,
    /// the attempt count at which each actor first reached that level.
    pub fn boxplot_data(simulations: &Vec<EnhancerSimulation>) -> (r: Vec<Vec<u64>>)
        ensures
            r@.len() == max_history_len(simulations@),
            forall|l: int| 0 <= l < r@.len() ==> (#[trigger] r@[l])@ == level_bucket(
                simulations@,
                l,
            ),
    {
        let bucket_count = max_history_length(simulations);
        let mut output: Vec<Vec<u64>> = Vec::new();
        let mut l: usize = 0;
        while l < bucket_count
            invariant
                bucket_count == max_history_len(simulations@),
                l <= bucket_count,
                output@.len() == l,
                forall|k: int| 0 <= k < l ==> (#[trigger] output@[k])@ == level_bucket(
                    simulations@,
                    k,
                ),
            decreases bucket_count - l,
        {
            let mut bucket: Vec<u64> = Vec::new();
            let mut i: usize = 0;
            while i < simulations.len()
                invariant
                    i <= simulations@.len(),
                    bucket@ == level_bucket(simulations@.take(i as int), l as int),
                decreases simulations@.len() - i,
            {
                let ghost prefix = simulations@.take(i as int);
                if l < simulations[i].history.len() {
                    bucket.push(simulations[i].history[l]);
                }
                proof {
                    let longer = simulations@.take(i + 1);
                    assert(longer.drop_last() =~= prefix);
                    assert(longer.last() == simulations@[i as int]);
                }
                i = i + 1;
            }
            proof {
                assert(simulations@.take(simulations@.len() as int) =~= simulations@);
            }
            output.push(bucket);
            l = l + 1;
        }
        output
    }

    /// Every actor's history flattened to (level, first-arrival attempt
    /// count) pairs, actor by actor and level by level.
    pub fn scatterplot_data(simulations: &Vec<EnhancerSimulation>) -> (r: Vec<(usize, u64)>)
        ensures
            r@ == trajectory_points(simulations@),
    {
        let mut output: Vec<(usize, u64)> = Vec::new();
        let mut i: usize = 0;
        while i < simulations.len()
            invariant
                i <= simulations@.len(),
                output@ == trajectory_points(simulations@.take(i as int)),
            decreases simulations@.len() - i,
        {
            let ghost prefix = simulations@.take(i as int);
            let ghost history = simulations@[i as int].history@;
            let mut j: usize = 0;
            while j < simulations[i].history.len()
                invariant
                    0 <= i < simulations@.len(),
                    history == simulations@[i as int].history@,
                    j <= history.len(),
                    output@ == trajectory_points(simulations@.take(i as int))
                        + history_points(history.take(j as int)),
                decreases history.len() - j,
            {
                output.push((j, simulations[i].history[j]));
                proof {
                    assert(history_points(history.take(j + 1)) =~= history_points(
                        history.take(j as int),
                    ).push((j as usize, history[j as int])));
                }
                j = j + 1;
            }
            proof {
                let longer = simulations@.take(i + 1);
                assert(longer.drop_last() =~= prefix);
                assert(longer.last() == simulations@[i as int]);
                assert(history.take(history.len() as int) =~= history);
            }
            i = i + 1;
        }
        proof {
            assert(simulations@.take(simulations@.len() as int) =~= simulations@);
        }
        output
    }
}

/// The number of level buckets a population's histories span: the longest
/// history length over all actors.
pub fn max_history_length(simulations: &Vec<EnhancerSimulation>) -> (r: usize)
    ensures
        r == max_history_len(simulations@),
{
    let mut longest: usize = 0;
    let mut i: usize = 0;
    while i < simulations.len()
        invariant
            i <= simulations@.len(),
            longest == max_history_len(simulations@.take(i as int)),
        decreases simulations@.len() - i,
    {
        let ghost prefix = simulations@.take(i as int);
        let len = simulations[i].history.len();
        if len > longest {
            longest = len;
        }
        proof {
            let longer = simulations@.take(i + 1);
            assert(longer.drop_last() =~= prefix);
            assert(longer.last() == simulations@[i as int]);
        }
        i = i + 1;
    }
    proof {
        assert(simulations@.take(simulations@.len() as int) =~= simulations@);
    }
    longest
}

/// Aggregation is idempotent: the per-level distributions are a pure
/// function of the population, so any two results that meet
/// `boxplot_data`'s contract for the same population are equal.
pub proof fn lemma_boxplot_deterministic(
    sims: Seq<EnhancerSimulation>,
    r1: Seq<Seq<u64>>,
    r2: Seq<Seq<u64>>,
)
    requires
        r1.len() == max_history_len(sims),
        forall|l: int| 0 <= l < r1.len() ==> #[trigger] r1[l] == level_bucket(sims, l),
        r2.len() == max_history_len(sims),
        forall|l: int| 0 <= l < r2.len() ==> #[trigger] r2[l] == level_bucket(sims, l),
    ensures
        r1 == r2,
{
    assert(r1 =~= r2);
}

/// Aggregation is idempotent: the flattened trajectory is a pure function
/// of the population, so any two results that meet `scatterplot_data`'s
/// contract for the same population are equal.
pub proof fn lemma_scatterplot_deterministic(
    sims: Seq<EnhancerSimulation>,
    r1: Seq<(usize, u64)>,
    r2: Seq<(usize, u64)>,
)
    requires
        r1 == trajectory_points(sims),
        r2 == trajectory_points(sims),
    ensures
        r1 == r2,
{
}

} // verus!
