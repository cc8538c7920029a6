//! Per-actor state and the population round step: each actor repeatedly
//! attempts an enhancement against its current level's rates until it is
//! absorbed at the top level.

use vstd::prelude::*;

use crate::params::RATE_SCALE;
use crate::rates::EnhanceRate;
use crate::transition::{apply_result, draw_sample, roll_outcome, spec_apply, spec_roll};

verus! {

/// One simulated actor: its current level, how many attempts it has made,
/// its own copy of the shared rate table, and the attempt count at which
/// each level was first reached (`history[level]`, with `history[0] == 0`).
#[derive(Clone, Debug)]
pub struct EnhancerSimulation {
    pub level: usize,
    pub attempt_count: u64,
    pub rates: Vec<EnhanceRate>,
    pub history: Vec<u64>,
}

impl EnhancerSimulation {
    /// Well-formed actor state: the history covers exactly the levels
    /// reached so far (at least level 0, at most every level of the table),
    /// level 0 was reached at attempt 0, the current level is one the
    /// history has recorded, and every table row is a valid distribution.
    pub open spec fn wf(self) -> bool {
        &&& 1 <= self.history@.len() <= self.rates@.len()
        &&& self.level < self.history@.len()
        &&& self.history@[0] == 0
        &&& forall|i: int| 0 <= i < self.rates@.len() ==> (#[trigger] self.rates@[i]).wf()
    }

    /// An actor is absorbed once it stands at the last level of its table.
    pub open spec fn at_max(self) -> bool {
        self.level + 1 >= self.rates@.len()
    }

    /// A freshly created actor over a rate table: level 0, no attempts,
    /// and a history holding only the arrival at level 0.
    pub open spec fn is_initial(self, rates: Seq<EnhanceRate>) -> bool {
        &&& self.level == 0
        &&& self.attempt_count == 0
        &&& self.history@.len() == 1
        &&& self.history@[0] == 0
        &&& self.rates@ == rates
    }

    /// One attempt taken with a given sample: the outcome of the roll
    /// against the current level's row is applied, the attempt count rises
    /// by one, and — only when a level is reached for the first time — the
    /// new attempt count is appended to the history at that level's index.
    pub open spec fn is_step(pre: Self, sample: nat, post: Self) -> bool {
        let rate = pre.rates@[pre.level as int];
        let new_level = spec_apply(pre.level as nat, spec_roll(rate, sample));
        &&& post.rates@ == pre.rates@
        &&& post.attempt_count == pre.attempt_count + 1
        &&& post.level == new_level
        &&& post.history@ == (if new_level == pre.history@.len() {
            pre.history@.push((pre.attempt_count + 1) as u64)
        } else {
            pre.history@
        })
    }

    /// One round of one actor: an absorbed actor is left untouched (it
    /// draws no randomness and does no work); any other actor takes one
    /// attempt with the given sample.
    pub open spec fn is_advance(pre: Self, sample: nat, post: Self) -> bool {
        if pre.at_max() {
            &&& post.level == pre.level
            &&& post.attempt_count == pre.attempt_count
            &&& post.rates@ == pre.rates@
            &&& post.history@ == pre.history@
        } else {
            Self::is_step(pre, sample, post)
        }
    }

    /// One round happened to this actor: some in-range sample relates the
    /// two states by [`Self::is_advance`]. This is all a caller can know of
    /// a round whose sample was drawn at random.
    pub open spec fn advanced(pre: Self, post: Self) -> bool {
        exists|s: nat| s < RATE_SCALE && Self::is_advance(pre, s, post)
    }

    /// Creates one actor over a rate table: level 0, no attempts yet, and a
    /// history recording only the arrival at level 0 on attempt 0. The
    /// actor carries its own copy of the table.
    pub fn create(rates: &Vec<EnhanceRate>) -> (r: EnhancerSimulation)
        requires
            rates@.len() >= 1,
            forall|i: int| 0 <= i < rates@.len() ==> (#[trigger] rates@[i]).wf(),
        ensures
            r.wf(),
            r.is_initial(rates@),
    {
        let mut table: Vec<EnhanceRate> = Vec::new();
        let mut i: usize = 0;
        while i < rates.len()
            invariant
                i <= rates@.len(),
                table@.len() == i,
                forall|j: int| 0 <= j < i ==> table@[j] == rates@[j],
            decreases rates@.len() - i,
        {
            table.push(rates[i]);
            i = i + 1;
        }
        proof {
            assert(table@ =~= rates@);
        }
        let mut history: Vec<u64> = Vec::new();
        history.push(0);
        EnhancerSimulation { level: 0, attempt_count: 0, rates: table, history }
    }

    /// Creates a population of identical fresh actors over one rate table.
    pub fn create_many(rates: &Vec<EnhanceRate>, count: usize) -> (r: Vec<EnhancerSimulation>)
        requires
            rates@.len() >= 1,
            forall|i: int| 0 <= i < rates@.len() ==> (#[trigger] rates@[i]).wf(),
        ensures
            r@.len() == count,
            forall|i: int| 0 <= i < count ==> (#[trigger] r@[i]).wf(),
            forall|i: int| 0 <= i < count ==> (#[trigger] r@[i]).is_initial(rates@),
    {
        let mut output: Vec<EnhancerSimulation> = Vec::with_capacity(count);
        let mut i: usize = 0;
        while i < count
            invariant
                i <= count,
                output@.len() == i,
                rates@.len() >= 1,
                forall|k: int| 0 <= k < rates@.len() ==> (#[trigger] rates@[k]).wf(),
                forall|k: int| 0 <= k < i ==> (#[trigger] output@[k]).wf(),
                forall|k: int| 0 <= k < i ==> (#[trigger] output@[k]).is_initial(rates@),
            decreases count - i,
        {
            output.push(Self::create(rates));
            i = i + 1;
        }
        output
    }

    /// One round of this actor with a caller-chosen sample: exactly the
    /// step relation [`Self::is_advance`], so every consequence of a fixed
    /// sample sequence can be followed deterministically. Returns whether
    /// the actor now stands at the top level.
    pub fn enhance_with_sample(&mut self, sample: u64) -> (r: bool)
        requires
            old(self).wf(),
            old(self).attempt_count < u64::MAX,
            sample < RATE_SCALE,
        ensures
            final(self).wf(),
            Self::is_advance(*old(self), sample as nat, *final(self)),
            r == final(self).at_max(),
    {
        if self.level >= self.rates.len() - 1 {
            return true;
        }
        let rate = self.rates[self.level];
        let result = roll_outcome(&rate, sample);
        let level = apply_result(self.level, result);
        let attempt_count = self.attempt_count + 1;
        self.level = level;
        self.attempt_count = attempt_count;
        if level == self.history.len() {
            self.history.push(attempt_count);
        }
        self.level >= self.rates.len() - 1
    }

    /// One round of this actor: if it is already absorbed it is left as it
    /// is, with no random draw; otherwise one attempt is taken with one
    /// fresh uniform sample. Returns whether the actor now stands at the
    /// top level.
    pub fn enhance(&mut self) -> (r: bool)
        requires
            old(self).wf(),
            old(self).attempt_count < u64::MAX,
        ensures
            final(self).wf(),
            final(self).rates@ == old(self).rates@,
            Self::advanced(*old(self), *final(self)),
            r == final(self).at_max(),
    {
        if self.level >= self.rates.len() - 1 {
            proof {
                assert(Self::is_advance(*self, 0, *self) && (0 as nat) < RATE_SCALE);
            }
            return true;
        }
        let sample = draw_sample();
        let r = self.enhance_with_sample(sample);
        proof {
            assert((sample as nat) < RATE_SCALE
                && Self::is_advance(*old(self), sample as nat, *self));
        }
        r
    }

    /// One synchronized round over a whole population: every actor advances
    /// once, in order. Returns whether every actor now stands at the top
    /// level — the population's convergence test.
    pub fn enhance_many(simulations: &mut Vec<EnhancerSimulation>) -> (r: bool)
        requires
            forall|i: int|
                0 <= i < old(simulations)@.len() ==> (#[trigger] old(simulations)@[i]).wf(),
            forall|i: int|
                0 <= i < old(simulations)@.len()
                    ==> (#[trigger] old(simulations)@[i]).attempt_count < u64::MAX,
        ensures
            final(simulations)@.len() == old(simulations)@.len(),
            forall|i: int|
                0 <= i < final(simulations)@.len() ==> (#[trigger] final(simulations)@[i]).wf(),
            forall|i: int|
                0 <= i < final(simulations)@.len()
                    ==> Self::advanced(old(simulations)@[i], #[trigger] final(simulations)@[i]),
            r <==> (forall|i: int|
                0 <= i < final(simulations)@.len()
                    ==> (#[trigger] final(simulations)@[i]).at_max()),
    {
        let mut all_maxed = true;
        let n = simulations.len();
        let mut idx: usize = 0;
        while idx < n
            invariant
                n == simulations@.len(),
                n == old(simulations)@.len(),
                idx <= n,
                forall|i: int|
                    idx <= i < n ==> #[trigger] simulations@[i] == old(simulations)@[i],
                forall|i: int|
                    0 <= i < n ==> (#[trigger] old(simulations)@[i]).wf(),
                forall|i: int|
                    0 <= i < n ==> (#[trigger] old(simulations)@[i]).attempt_count < u64::MAX,
                forall|i: int| 0 <= i < idx ==> (#[trigger] simulations@[i]).wf(),
                forall|i: int|
                    0 <= i < idx
                        ==> Self::advanced(old(simulations)@[i], #[trigger] simulations@[i]),
                all_maxed <==> (forall|i: int|
                    0 <= i < idx ==> (#[trigger] simulations@[i]).at_max()),
            decreases n - idx,
        {
            let ghost pre_seq = simulations@;
            let ghost pre_all_maxed = all_maxed;
            let maxed = simulations[idx].enhance();
            if !maxed {
                all_maxed = false;
            }
            proof {
                assert(forall|i: int| 0 <= i < idx ==> simulations@[i] == pre_seq[i]);
                if pre_all_maxed && maxed {
                    assert forall|i: int|
                        0 <= i < idx + 1 implies (#[trigger] simulations@[i]).at_max() by {
                        if i < idx {
                            assert(pre_seq[i].at_max());
                        }
                    }
                }
                if !pre_all_maxed {
                    let i0 = choose|i: int| 0 <= i < idx && !(#[trigger] pre_seq[i]).at_max();
                    assert(!simulations@[i0].at_max());
                }
            }
            idx = idx + 1;
        }
        all_maxed
    }
}

} // verus!
