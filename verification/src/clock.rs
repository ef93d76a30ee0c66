//! The tick clock: a wrapping counter incremented exactly once per main-loop
//! tick, together with the wrapping arithmetic that the rest of the bridge
//! builds on.

use vstd::prelude::*;
use vstd::arithmetic::div_mod::{lemma_add_mod_noop, lemma_mod_self_0, lemma_small_mod};

verus! {

/// The number of distinct values the tick counter can take before it wraps.
pub open spec fn tick_period() -> nat {
    usize::MAX as nat + 1
}

/// Wrapping addition of tick counts: the sum reduced modulo the counter's
/// period, stated without a modulus since both summands fit in one word.
pub open spec fn wrap_add_spec(a: nat, b: nat) -> nat
    recommends
        a <= usize::MAX,
        b <= usize::MAX,
{
    if a + b <= usize::MAX {
        a + b
    } else {
        (a + b - usize::MAX - 1) as nat
    }
}

/// Wrapping addition on machine words, as the counter performs it.
pub fn wrap_add(a: usize, b: usize) -> (r: usize)
    ensures
        r as nat == wrap_add_spec(a as nat, b as nat),
{
    if b <= usize::MAX - a {
        a + b
    } else {
        b - (usize::MAX - a) - 1
    }
}

proof fn lemma_wrap_add_is_mod(a: nat, b: nat)
    requires
        a <= usize::MAX,
        b <= usize::MAX,
    ensures
        wrap_add_spec(a, b) == (a + b) % tick_period(),
{
    let m = tick_period();
    if a + b <= usize::MAX {
        lemma_small_mod(a + b, m);
    } else {
        lemma_small_mod((a + b - m) as nat, m);
        lemma_add_mod_noop((a + b - m) as int, m as int, m as int);
        lemma_mod_self_0(m as int);
    }
}

/// One more increment after `k` of them lands where `k + 1` at once would:
/// counting ticks one at a time accumulates, wrapping and all.
pub proof fn lemma_wrap_add_one_more(start: nat, k: nat)
    requires
        start <= usize::MAX,
        k < usize::MAX,
    ensures
        wrap_add_spec(wrap_add_spec(start, k), 1) == wrap_add_spec(start, k + 1),
{
}

/// The tick clock. The single writer (the drain routine) increments it once
/// per tick; any number of observers read it. The ghost call count records how
/// many increments have completed, so that the counter value is provably the
/// number of completed ticks reduced modulo the counter's period.
pub struct TickClock {
    ticks: usize,
    tick_calls: Ghost<nat>,
}

impl TickClock {
    /// The current counter value.
    pub closed spec fn value(self) -> nat {
        self.ticks as nat
    }

    /// How many increments have completed since the clock was created.
    pub closed spec fn calls(self) -> nat {
        self.tick_calls@
    }

    /// The clock's invariant: the counter is the completed-tick count,
    /// reduced modulo the counter's period.
    pub open spec fn wf(self) -> bool {
        self.value() == self.calls() % tick_period()
    }

    /// The counter always fits in one machine word.
    pub proof fn lemma_value_in_range(self)
        ensures
            self.value() <= usize::MAX,
    {
    }

    /// A fresh clock starts at zero with no ticks completed.
    pub fn new() -> (clock: TickClock)
        ensures
            clock.wf(),
            clock.value() == 0,
            clock.calls() == 0,
    {
        proof {
            lemma_small_mod(0, tick_period());
        }
        TickClock { ticks: 0, tick_calls: Ghost(0) }
    }

    /// Read the current counter value. Any observer may do so at any time.
    pub fn read(&self) -> (r: usize)
        ensures
            r as nat == self.value(),
    {
        self.ticks
    }

    /// Add one to the counter (wrapping) and return the new value. Called
    /// exactly once per main-loop tick, by the drain routine alone.
    pub fn increment(&mut self) -> (r: usize)
        requires
            old(self).wf(),
        ensures
            final(self).wf(),
            final(self).calls() == old(self).calls() + 1,
            final(self).value() == wrap_add_spec(old(self).value(), 1),
            r as nat == final(self).value(),
    {
        proof {
            lemma_wrap_add_is_mod(self.value(), 1);
            lemma_add_mod_noop(self.tick_calls@ as int, 1, tick_period() as int);
            lemma_small_mod(1, tick_period());
        }
        let r = wrap_add(self.ticks, 1);
        self.ticks = r;
        self.tick_calls = Ghost(self.tick_calls@ + 1);
        r
    }
}

} // verus!
