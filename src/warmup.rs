//! The warmup controller: decides, one measurement interval at a time, when
//! the cache hit-rate has stayed on target long enough to end warmup.

use vstd::prelude::*;

verus! {

/// A hit-rate target is given in parts per million of all responses.
pub const PPM_SCALE: u64 = 1_000_000;

/// Number of consecutive on-target intervals after which warmup ends.
pub const CONVERGENCE_STREAK: u64 = 3;

/// Cache outcome counts of one measurement interval.
#[derive(Clone, Copy, Debug, PartialEq, Eq, Structural)]
pub struct Observation {
    pub hits: u64,
    pub misses: u64,
}

/// An interval meets the target when it saw at least one response and
/// `hits / (hits + misses) >= target_ppm / PPM_SCALE`.
pub open spec fn meets_target(obs: Observation, target_ppm: nat) -> bool {
    &&& obs.hits + obs.misses > 0
    &&& obs.hits * PPM_SCALE >= target_ppm * (obs.hits + obs.misses)
}

/// The streak after one more interval: one longer when it met the target,
/// back to zero when it did not.
pub open spec fn next_streak(streak: nat, met: bool) -> nat {
    if met {
        streak + 1
    } else {
        0
    }
}

/// The streak after a whole series of intervals, starting from zero.
pub open spec fn streak_after(obs: Seq<Observation>, target_ppm: nat) -> nat
    decreases obs.len(),
{
    if obs.len() == 0 {
        0
    } else {
        next_streak(streak_after(obs.drop_last(), target_ppm), meets_target(obs.last(), target_ppm))
    }
}

/// Whether the interval with these counts met a target of `target_ppm`.
/// An interval without responses never meets it.
pub fn hitrate_meets(hits: u64, misses: u64, target_ppm: u32) -> (r: bool)
    ensures
        r == meets_target((Observation { hits, misses }), target_ppm as nat),
{
    if hits == 0 && misses == 0 {
        return false;
    }
    let total: u128 = hits as u128 + misses as u128;
    assert((hits as u128) * (PPM_SCALE as u128) < 0x1_0000_0000_0000_0000_0000_0000) by (nonlinear_arith)
        requires
            hits < 0x1_0000_0000_0000_0000u128,
    ;
    assert((target_ppm as u128) * total < 0x2_0000_0000_0000_0000_0000_0000) by (nonlinear_arith)
        requires
            target_ppm < 0x1_0000_0000u128,
            total < 0x2_0000_0000_0000_0000u128,
    ;
    let scaled_hits: u128 = (hits as u128) * (PPM_SCALE as u128);
    let needed: u128 = (target_ppm as u128) * total;
    scaled_hits >= needed
}

/// What the controller decided after an interval.
#[derive(Clone, Copy, Debug, PartialEq, Eq, Structural)]
pub enum WarmupStep {
    /// Zero the counters and measure another interval.
    Continue,
    /// Stop the warmup pool, zero the counters and go on to steady state.
    Converged,
}

/// The mathematical state of a warmup controller.
pub struct WarmupState {
    pub target_ppm: nat,
    pub streak: nat,
}

/// Counts consecutive intervals whose hit-rate met the target.
pub struct WarmupController {
    target_ppm: u32,
    streak: u64,
}

impl View for WarmupController {
    type V = WarmupState;

    closed spec fn view(&self) -> WarmupState {
        WarmupState { target_ppm: self.target_ppm as nat, streak: self.streak as nat }
    }
}

impl WarmupController {
    /// A controller for the given target, with no interval seen yet.
    pub fn new(target_ppm: u32) -> (r: Self)
        ensures
            r@.target_ppm == target_ppm as nat,
            r@.streak == 0,
    {
        WarmupController { target_ppm, streak: 0 }
    }

    /// A controller when a target is configured; none (no warmup) otherwise.
    pub fn for_target(target_ppm: Option<u32>) -> (r: Option<Self>)
        ensures
            r is None <==> target_ppm is None,
            r matches Some(c) ==> c@.target_ppm == target_ppm->Some_0 as nat && c@.streak == 0,
    {
        match target_ppm {
            Some(t) => Some(Self::new(t)),
            None => None,
        }
    }

    /// The number of consecutive on-target intervals seen so far.
    pub fn streak(&self) -> (r: u64)
        ensures
            r as nat == self@.streak,
    {
        self.streak
    }

    /// Takes the counts of one interval and decides whether warmup is done.
    /// Warmup is done once the streak reaches `CONVERGENCE_STREAK`.
    pub fn observe(&mut self, hits: u64, misses: u64) -> (r: WarmupStep)
        requires
            old(self)@.streak < CONVERGENCE_STREAK,
        ensures
            final(self)@.target_ppm == old(self)@.target_ppm,
            final(self)@.streak == next_streak(
                old(self)@.streak,
                meets_target((Observation { hits, misses }), old(self)@.target_ppm),
            ),
            r == WarmupStep::Converged <==> final(self)@.streak >= CONVERGENCE_STREAK,
            r == WarmupStep::Continue ==> final(self)@.streak < CONVERGENCE_STREAK,
    {
        if hitrate_meets(hits, misses, self.target_ppm) {
            self.streak = self.streak + 1;
        } else {
            self.streak = 0;
        }
        if self.streak >= CONVERGENCE_STREAK {
            WarmupStep::Converged
        } else {
            WarmupStep::Continue
        }
    }
}

/// After a series of intervals the streak is at least `k` exactly when the
/// last `k` intervals each met the target.
proof fn lemma_streak_counts_trailing(obs: Seq<Observation>, target_ppm: nat, k: nat)
    ensures
        streak_after(obs, target_ppm) >= k <==> (k <= obs.len() && forall|j: int|
            obs.len() - k <= j < obs.len() ==> #[trigger] meets_target(obs[j], target_ppm)),
    decreases obs.len(),
{
    if obs.len() > 0 && k > 0 {
        let prev = obs.drop_last();
        lemma_streak_counts_trailing(prev, target_ppm, (k - 1) as nat);
        if meets_target(obs.last(), target_ppm) {
            if streak_after(obs, target_ppm) >= k {
                assert forall|j: int| obs.len() - k <= j < obs.len() implies #[trigger] meets_target(
                    obs[j],
                    target_ppm,
                ) by {
                    if j < obs.len() - 1 {
                        assert(prev[j] == obs[j]);
                    }
                }
            } else {
                if k <= obs.len() && forall|j: int|
                    obs.len() - k <= j < obs.len() ==> #[trigger] meets_target(obs[j], target_ppm) {
                    assert forall|j: int| prev.len() - (k - 1) <= j < prev.len() implies #[trigger] meets_target(
                        prev[j],
                        target_ppm,
                    ) by {
                        assert(prev[j] == obs[j]);
                    }
                }
            }
        } else {
            if k <= obs.len() && forall|j: int|
                obs.len() - k <= j < obs.len() ==> #[trigger] meets_target(obs[j], target_ppm) {
                assert(meets_target(obs[obs.len() - 1], target_ppm));
            }
        }
    }
}

/// The controller ends warmup after a series of intervals exactly when the
/// last three of them each met the target.
pub proof fn lemma_streak_three_iff_last_three_met(obs: Seq<Observation>, target_ppm: nat)
    ensures
        streak_after(obs, target_ppm) >= CONVERGENCE_STREAK <==> (obs.len() >= 3 && meets_target(
            obs[obs.len() - 3],
            target_ppm,
        ) && meets_target(obs[obs.len() - 2], target_ppm) && meets_target(
            obs[obs.len() - 1],
            target_ppm,
        )),
{
    lemma_streak_counts_trailing(obs, target_ppm, 3);
    if obs.len() >= 3 && meets_target(obs[obs.len() - 3], target_ppm) && meets_target(
        obs[obs.len() - 2],
        target_ppm,
    ) && meets_target(obs[obs.len() - 1], target_ppm) {
        assert forall|j: int| obs.len() - 3 <= j < obs.len() implies #[trigger] meets_target(
            obs[j],
            target_ppm,
        ) by {
            if j == obs.len() - 3 {
            } else if j == obs.len() - 2 {
            } else {
            }
        }
    }
}

/// An interval below target resets the streak to zero, whatever came before,
/// the very first interval included.
pub proof fn lemma_below_target_resets_streak(
    obs: Seq<Observation>,
    next: Observation,
    target_ppm: nat,
)
    requires
        !meets_target(next, target_ppm),
    ensures
        streak_after(obs.push(next), target_ppm) == 0,
{
    assert(obs.push(next).drop_last() =~= obs);
}

/// An interval that saw no responses never meets any target.
pub proof fn lemma_empty_interval_never_meets(target_ppm: nat)
    ensures
        !meets_target((Observation { hits: 0, misses: 0 }), target_ppm),
{
}

/// Over a series of intervals, warmup converges at some point exactly when
/// three consecutive intervals each met the target.
pub proof fn lemma_converges_iff_three_consecutive(obs: Seq<Observation>, target_ppm: nat)
    ensures
        (exists|n: int|
            0 <= n <= obs.len() && #[trigger] streak_after(obs.take(n), target_ppm)
                >= CONVERGENCE_STREAK) <==> (exists|i: int|
            0 <= i && i + 3 <= obs.len() && #[trigger] meets_target(obs[i], target_ppm)
                && meets_target(obs[i + 1], target_ppm) && meets_target(obs[i + 2], target_ppm)),
{
    if exists|n: int|
        0 <= n <= obs.len() && #[trigger] streak_after(obs.take(n), target_ppm)
            >= CONVERGENCE_STREAK {
        let n = choose|n: int|
            0 <= n <= obs.len() && #[trigger] streak_after(obs.take(n), target_ppm)
                >= CONVERGENCE_STREAK;
        let pre = obs.take(n);
        lemma_streak_three_iff_last_three_met(pre, target_ppm);
        let i = n - 3;
        assert(pre[i] == obs[i] && pre[i + 1] == obs[i + 1] && pre[i + 2] == obs[i + 2]);
        assert(meets_target(obs[i], target_ppm));
    }
    if exists|i: int|
        0 <= i && i + 3 <= obs.len() && #[trigger] meets_target(obs[i], target_ppm)
            && meets_target(obs[i + 1], target_ppm) && meets_target(obs[i + 2], target_ppm) {
        let i = choose|i: int|
            0 <= i && i + 3 <= obs.len() && #[trigger] meets_target(obs[i], target_ppm)
                && meets_target(obs[i + 1], target_ppm) && meets_target(obs[i + 2], target_ppm);
        let pre = obs.take(i + 3);
        assert(pre[i] == obs[i] && pre[i + 1] == obs[i + 1] && pre[i + 2] == obs[i + 2]);
        lemma_streak_three_iff_last_three_met(pre, target_ppm);
        assert(streak_after(obs.take(i + 3), target_ppm) >= CONVERGENCE_STREAK);
    }
}

} // verus!
