//! The wake-up condition behind `sleep_updates`: a task that goes to sleep at
//! some start tick for `n` updates must resume exactly when `n` more ticks
//! have completed, counting correctly across a wraparound of the counter.

use vstd::prelude::*;
use crate::clock::{tick_period, wrap_add_spec};

verus! {

/// How many ticks have completed between observing `start` and observing
/// `now`, assuming the counter wrapped at most once in between.
pub open spec fn elapsed_spec(start: nat, now: nat) -> nat
    recommends
        start <= usize::MAX,
        now <= usize::MAX,
{
    if now >= start {
        (now - start) as nat
    } else {
        (now + tick_period() - start) as nat
    }
}

/// Elapsed ticks on machine words, as an observer computes them.
pub fn elapsed_ticks(start: usize, now: usize) -> (r: usize)
    ensures
        r as nat == elapsed_spec(start as nat, now as nat),
{
    if now >= start {
        now - start
    } else {
        now + (usize::MAX - start) + 1
    }
}

/// The tick at which a sleep that began at `start` for `n` updates is owed
/// its wake-up.
pub open spec fn sleep_target_spec(start: nat, n: nat) -> nat
    recommends
        start <= usize::MAX,
        n <= usize::MAX,
{
    wrap_add_spec(start, n)
}

/// Whether a sleep that began at `start` for `n` updates is over once the
/// counter reads `now`.
pub open spec fn sleep_done_spec(start: nat, n: nat, now: nat) -> bool
    recommends
        start <= usize::MAX,
        now <= usize::MAX,
{
    elapsed_spec(start, now) >= n
}

/// The check a sleeping task runs each time the change signal wakes it: done
/// exactly when at least `n` ticks have elapsed since `start`.
pub fn sleep_done(start: usize, n: usize, now: usize) -> (r: bool)
    ensures
        r == sleep_done_spec(start as nat, n as nat, now as nat),
{
    elapsed_ticks(start, now) >= n
}

/// After exactly `k` increments from `start`, the elapsed count reads `k`,
/// whether or not the counter wrapped on the way.
pub proof fn lemma_elapsed_after_advance(start: nat, k: nat)
    requires
        start <= usize::MAX,
        k <= usize::MAX,
    ensures
        elapsed_spec(start, wrap_add_spec(start, k)) == k,
{
}

/// A task sleeping for `n` updates is not woken early: after fewer than `n`
/// increments from its start tick, the wake condition is still false, so the
/// task resumes no earlier than its target tick.
pub proof fn lemma_sleep_not_done_early(start: nat, n: nat, k: nat)
    requires
        start <= usize::MAX,
        n <= usize::MAX,
        k < n,
    ensures
        !sleep_done_spec(start, n, wrap_add_spec(start, k)),
{
    lemma_elapsed_after_advance(start, k);
}

/// A task sleeping for `n` updates wakes at its target tick, even when the
/// target wrapped past the counter's maximum: after exactly `n` increments
/// the counter reads the wrapped target and the wake condition holds, so the
/// sleep cannot stall past it.
pub proof fn lemma_sleep_done_at_target(start: nat, n: nat)
    requires
        start <= usize::MAX,
        n <= usize::MAX,
    ensures
        wrap_add_spec(start, n) == sleep_target_spec(start, n),
        sleep_done_spec(start, n, wrap_add_spec(start, n)),
{
    lemma_elapsed_after_advance(start, n);
}

} // verus!
