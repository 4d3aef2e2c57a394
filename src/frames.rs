use vstd::prelude::*;
use vstd::arithmetic::div_mod::{lemma_add_mod_noop_right, lemma_mod_self_0};
use crate::state::AnimationState;

verus! {

/// A repeating countdown that paces the frames of a running animation.
///
/// `elapsed` is the time accumulated in the current period; it always stays
/// below `period`, and `period` is never zero.
#[derive(Clone, Copy, Debug)]
pub struct AnimationTimer {
    pub period: u64,
    pub elapsed: u64,
}

/// The time accumulated in the current period after `delta` more has passed.
pub open spec fn elapsed_after(period: nat, elapsed: nat, delta: nat) -> nat {
    (elapsed + delta) % period
}

/// Whether a period completes while `delta` passes.
pub open spec fn finishes(period: nat, elapsed: nat, delta: nat) -> bool {
    elapsed + delta >= period
}

/// Whether `s` holds a running state.
pub open spec fn is_running(s: Option<AnimationState>) -> bool {
    s matches Some(AnimationState::Running(_))
}

/// The atlas frame shown after one tick in state `s`, where `finished` says
/// whether the timer completed a period during the tick.
pub open spec fn frame_after(s: Option<AnimationState>, finished: bool, index: nat, count: nat) -> nat {
    match s {
        Some(AnimationState::Running(_)) => if finished {
            (index + 1) % count
        } else {
            index
        },
        Some(_) => 0,
        None => index,
    }
}

impl AnimationTimer {
    pub open spec fn wf(self) -> bool {
        &&& self.period > 0
        &&& self.elapsed < self.period
    }

    /// A timer with the given period, in nanoseconds, that has not run yet;
    /// `None` for a zero period.
    pub fn from_period(period: u64) -> (r: Option<AnimationTimer>)
        ensures
            period == 0 <==> r is None,
            r matches Some(t) ==> t.wf() && t.period == period && t.elapsed == 0,
    {
        if period == 0 {
            None
        } else {
            Some(AnimationTimer { period, elapsed: 0 })
        }
    }

    /// Lets `delta` nanoseconds pass; returns whether a period completed.
    /// Any periods completed beyond the first are folded into the
    /// remainder, as a repeating timer does.
    pub fn tick(&mut self, delta: u64) -> (finished: bool)
        requires
            old(self).wf(),
        ensures
            final(self).wf(),
            final(self).period == old(self).period,
            final(self).elapsed == elapsed_after(old(self).period as nat, old(self).elapsed as nat, delta as nat),
            finished == finishes(old(self).period as nat, old(self).elapsed as nat, delta as nat),
    {
        let left: u64 = self.period - self.elapsed;
        if delta < left {
            self.elapsed = self.elapsed + delta;
            proof {
                vstd::arithmetic::div_mod::lemma_small_mod((old(self).elapsed + delta) as nat, self.period as nat);
            }
            false
        } else {
            let rest: u64 = (delta - left) % self.period;
            proof {
                let p = self.period as int;
                let e = old(self).elapsed as int;
                let d = delta as int;
                assert(e + d == p + (d - (p - e)));
                lemma_add_mod_noop_right(p, d - (p - e), p);
                lemma_add_mod_noop_right(d - (p - e), p, p);
                lemma_mod_self_0(p);
                vstd::arithmetic::div_mod::lemma_mod_twice(d - (p - e), p);
            }
            self.elapsed = rest;
            true
        }
    }
}

/// One tick of sprite playback. In a running state the timer advances by
/// `delta` and, each time it completes a period, the frame moves on by one,
/// wrapping after the last of `frame_count` frames. Any other state shows
/// the first frame and leaves the timer alone. With no state yet, nothing
/// changes.
pub fn advance_frame(
    state: &Option<AnimationState>,
    timer: &mut AnimationTimer,
    delta: u64,
    index: usize,
    frame_count: usize,
) -> (r: usize)
    requires
        old(timer).wf(),
        is_running(*state) ==> frame_count > 0,
    ensures
        final(timer).wf(),
        is_running(*state) ==> {
            &&& final(timer).period == old(timer).period
            &&& final(timer).elapsed == elapsed_after(old(timer).period as nat, old(timer).elapsed as nat, delta as nat)
            &&& r == frame_after(*state, finishes(old(timer).period as nat, old(timer).elapsed as nat, delta as nat), index as nat, frame_count as nat)
        },
        !is_running(*state) ==> *final(timer) == *old(timer) && r == frame_after(*state, false, index as nat, frame_count as nat),
{
    match state {
        Some(AnimationState::Running(_)) => {
            let finished = timer.tick(delta);
            if finished {
                let next = (index % frame_count + 1) % frame_count;
                proof {
                    lemma_add_mod_noop_right(1, index as int, frame_count as int);
                }
                next
            } else {
                index
            }
        },
        Some(_) => 0,
        None => index,
    }
}

/// The timer's accumulated time and the frame index after `k` ticks of
/// `delta` each in state `s`, starting from `elapsed` and `index`.
pub open spec fn run_ticks(
    s: Option<AnimationState>,
    period: nat,
    elapsed: nat,
    index: nat,
    count: nat,
    delta: nat,
    k: nat,
) -> (nat, nat)
    decreases k,
{
    if k == 0 {
        (elapsed, index)
    } else {
        let (e, i) = run_ticks(s, period, elapsed, index, count, delta, (k - 1) as nat);
        if is_running(s) {
            (elapsed_after(period, e, delta), frame_after(s, finishes(period, e, delta), i, count))
        } else {
            (e, frame_after(s, false, i, count))
        }
    }
}

/// Running from frame 0 with a fresh timer, ticks that each last exactly
/// one period leave the timer at the start of a period and show frame
/// `k mod count` after `k` of them.
pub proof fn lemma_aligned_ticks_cycle_frames(rate: u64, period: nat, count: nat, k: nat)
    requires
        period > 0,
        count > 0,
    ensures
        run_ticks(Some(AnimationState::Running(rate)), period, 0, 0, count, period, k) == (0nat, k % count),
    decreases k,
{
    let s = Some(AnimationState::Running(rate));
    if k == 0 {
        vstd::arithmetic::div_mod::lemma_small_mod(0, count);
    } else {
        lemma_aligned_ticks_cycle_frames(rate, period, count, (k - 1) as nat);
        lemma_mod_self_0(period as int);
        lemma_add_mod_noop_right(1, (k - 1) as int, count as int);
        assert(elapsed_after(period, 0, period) == 0);
        assert(finishes(period, 0, period));
        assert(frame_after(s, true, (k - 1) as nat % count, count) == k % count);
    }
}

/// Whatever frame was showing, one tick in a standing, jumping or falling
/// state shows the first frame and leaves the timer as it was.
pub proof fn lemma_stationary_resets_frame(s: AnimationState, period: nat, elapsed: nat, index: nat, count: nat, delta: nat)
    requires
        !(s is Running),
    ensures
        run_ticks(Some(s), period, elapsed, index, count, delta, 1) == (elapsed, 0nat),
{
    assert(run_ticks(Some(s), period, elapsed, index, count, delta, 0) == (elapsed, index));
}

} // verus!
