//! The runtime bridge's core: the tick clock and the callback queue together,
//! with the drain routine the host invokes once per main-loop tick. The host
//! owns the schedulers and the change-notification channel; every decision —
//! what the counter becomes, which callbacks run, in what order, and which
//! tick value each one observes — is made here.

use vstd::prelude::*;
use crate::clock::{tick_period, wrap_add_spec, TickClock};
use crate::queue::{CallbackQueue, QueueClosed};
use crate::sleep::{lemma_sleep_not_done_early, sleep_done_spec};

verus! {

/// What one drain invocation hands back to the host: the tick value that is
/// current for this invocation, and the callbacks to execute now, in
/// submission order. The host runs each callback with exclusive access to its
/// state and with `current_tick` as the callback's context tick.
pub struct TickOutcome<T> {
    /// The counter value after this invocation's increment: the tick during
    /// which the returned callbacks execute.
    pub current_tick: usize,
    /// Every callback that was queued when the drain began, oldest first.
    pub callbacks: Vec<T>,
}

/// The bridge's state: the authoritative tick clock and the callback queue.
/// `T` is the host's unit of queued work.
pub struct RuntimeBridge<T> {
    clock: TickClock,
    queue: CallbackQueue<T>,
}

/// How one `tick` invocation relates the bridge's state before (`pre`) and
/// after (`post`) and what it returned (`out`): the completed-tick count goes
/// up by one, the counter advances by one (wrapping), the outcome carries the
/// advanced counter value — the tick current during execution, whatever tick
/// each callback was submitted at — and exactly the previously queued
/// callbacks, in submission order, leaving the queue empty.
pub open spec fn tick_transition<T>(
    pre: RuntimeBridge<T>,
    post: RuntimeBridge<T>,
    out: TickOutcome<T>,
) -> bool {
    &&& post.tick_calls() == pre.tick_calls() + 1
    &&& post.tick_value() == wrap_add_spec(pre.tick_value(), 1)
    &&& out.current_tick as nat == post.tick_value()
    &&& out.callbacks@ == pre.pending()
    &&& post.pending() == Seq::<T>::empty()
    &&& post.queue_closed() == pre.queue_closed()
}

impl<T> RuntimeBridge<T> {
    /// The current tick counter value.
    pub closed spec fn tick_value(self) -> nat {
        self.clock.value()
    }

    /// How many `tick` invocations have completed.
    pub closed spec fn tick_calls(self) -> nat {
        self.clock.calls()
    }

    /// The callbacks queued and not yet drained, oldest first.
    pub closed spec fn pending(self) -> Seq<T> {
        self.queue.contents()
    }

    /// Whether the queue has been closed to producers.
    pub closed spec fn queue_closed(self) -> bool {
        self.queue.is_closed()
    }

    /// The bridge's invariant: the counter equals the completed-tick count
    /// reduced modulo the counter's period.
    pub open spec fn wf(self) -> bool {
        self.tick_value() == self.tick_calls() % tick_period()
    }

    /// The tick counter always fits in one machine word.
    pub proof fn lemma_tick_value_in_range(self)
        ensures
            self.tick_value() <= usize::MAX,
    {
        self.clock.lemma_value_in_range();
    }

    /// A fresh bridge: counter at zero, no ticks completed, nothing queued.
    pub fn new() -> (bridge: RuntimeBridge<T>)
        ensures
            bridge.wf(),
            bridge.tick_value() == 0,
            bridge.tick_calls() == 0,
            bridge.pending() == Seq::<T>::empty(),
            !bridge.queue_closed(),
    {
        RuntimeBridge { clock: TickClock::new(), queue: CallbackQueue::new() }
    }

    /// Read the tick counter. Any task may do so at any time; the value is
    /// the number of completed ticks, modulo the counter's period.
    pub fn current_tick(&self) -> (r: usize)
        ensures
            r as nat == self.tick_value(),
    {
        self.clock.read()
    }

    /// Submit a callback to be executed on the next tick, after all
    /// callbacks submitted before it. Succeeds exactly when the queue is
    /// still open; a refused submission leaves the bridge unchanged.
    pub fn submit(&mut self, callback: T) -> (r: Result<(), QueueClosed>)
        ensures
            final(self).tick_value() == old(self).tick_value(),
            final(self).tick_calls() == old(self).tick_calls(),
            final(self).wf() == old(self).wf(),
            final(self).queue_closed() == old(self).queue_closed(),
            r is Ok <==> !old(self).queue_closed(),
            !old(self).queue_closed() ==> final(self).pending() == old(self).pending().push(
                callback,
            ),
            old(self).queue_closed() ==> final(self).pending() == old(self).pending(),
    {
        self.queue.enqueue(callback)
    }

    /// The drain routine, invoked once per main-loop tick: add one to the
    /// counter (wrapping), then take every currently queued callback, in
    /// submission order. The host executes the returned callbacks
    /// synchronously, each with `current_tick` — the advanced counter value —
    /// as its context tick. With an empty queue this still advances the
    /// counter but returns no work.
    pub fn tick(&mut self) -> (out: TickOutcome<T>)
        requires
            old(self).wf(),
        ensures
            final(self).wf(),
            tick_transition(*old(self), *final(self), out),
    {
        let current_tick = self.clock.increment();
        let callbacks = self.queue.drain_available();
        TickOutcome { current_tick, callbacks }
    }

    /// Tear the bridge's queue down: producers are refused from now on.
    pub fn close(&mut self)
        ensures
            final(self).wf() == old(self).wf(),
            final(self).tick_value() == old(self).tick_value(),
            final(self).tick_calls() == old(self).tick_calls(),
            final(self).pending() == old(self).pending(),
            final(self).queue_closed(),
    {
        self.queue.close()
    }
}

/// The counter any task reads equals the number of completed `tick`
/// invocations, reduced modulo the counter's period (wraparound aside, the
/// count itself).
pub proof fn lemma_tick_value_counts_calls<T>(bridge: RuntimeBridge<T>)
    requires
        bridge.wf(),
    ensures
        bridge.tick_value() == bridge.tick_calls() % tick_period(),
{
}

/// Callbacks queued before the same drain begins are executed in submission
/// order: whatever stands earlier in the queue comes out of the drain at an
/// earlier position.
pub proof fn lemma_fifo_execution_order<T>(
    pre: RuntimeBridge<T>,
    post: RuntimeBridge<T>,
    out: TickOutcome<T>,
    i: int,
    j: int,
)
    requires
        tick_transition(pre, post, out),
        0 <= i < j < pre.pending().len(),
    ensures
        out.callbacks@[i] == pre.pending()[i],
        out.callbacks@[j] == pre.pending()[j],
{
}

/// Every callback a drain returns observes the tick value current during its
/// own execution — the counter as advanced by that same drain — never the
/// value current when it was submitted.
pub proof fn lemma_callbacks_observe_execution_tick<T>(
    pre: RuntimeBridge<T>,
    post: RuntimeBridge<T>,
    out: TickOutcome<T>,
)
    requires
        tick_transition(pre, post, out),
    ensures
        out.current_tick as nat == wrap_add_spec(pre.tick_value(), 1),
        out.current_tick as nat == post.tick_value(),
{
}

/// A tick with an empty queue advances the counter and completes one more
/// tick — so sleepers are still notified — but performs no callback work.
pub proof fn lemma_tick_with_empty_queue<T>(
    pre: RuntimeBridge<T>,
    post: RuntimeBridge<T>,
    out: TickOutcome<T>,
)
    requires
        tick_transition(pre, post, out),
        pre.pending() == Seq::<T>::empty(),
    ensures
        out.callbacks@ == Seq::<T>::empty(),
        post.tick_calls() == pre.tick_calls() + 1,
        post.tick_value() == wrap_add_spec(pre.tick_value(), 1),
{
}

/// Whether `states` and `outs` record `outs.len()` consecutive drain
/// invocations: `states` holds every bridge state from the first to the
/// last, and each adjacent pair is related by the invocation between them.
pub open spec fn tick_chain<T>(states: Seq<RuntimeBridge<T>>, outs: Seq<TickOutcome<T>>) -> bool {
    &&& states.len() == outs.len() + 1
    &&& forall|i: int|
        0 <= i < outs.len() ==> tick_transition(#[trigger] states[i], states[i + 1], outs[i])
}

/// Over any run of consecutive drain invocations, the completed-tick count
/// goes up by their number, and the counter advances by their number,
/// wrapping: the tick any task observes counts exactly the ticks completed.
pub proof fn lemma_counter_counts_repeated_ticks<T>(
    states: Seq<RuntimeBridge<T>>,
    outs: Seq<TickOutcome<T>>,
)
    requires
        tick_chain(states, outs),
        outs.len() <= usize::MAX,
    ensures
        states.last().tick_calls() == states[0].tick_calls() + outs.len(),
        states.last().tick_value() == wrap_add_spec(states[0].tick_value(), outs.len() as nat),
    decreases outs.len(),
{
    states[0].lemma_tick_value_in_range();
    if outs.len() == 0 {
        assert(states.last() == states[0]);
    } else {
        let k = outs.len() - 1;
        lemma_counter_counts_repeated_ticks(states.drop_last(), outs.drop_last());
        assert(tick_transition(states[k], states[k + 1], outs[k]));
        assert(states.drop_last().last() == states[k]);
        assert(states.drop_last()[0] == states[0]);
        crate::clock::lemma_wrap_add_one_more(states[0].tick_value(), k as nat);
    }
}

/// A task that begins a sleep for `n` updates while the counter reads
/// `start` is not resumed before `tick` has been called `n` more times:
/// after any run of fewer than `n` drain invocations, the wake condition is
/// still false at the counter the task then reads.
pub proof fn lemma_sleep_outlasts_short_tick_runs<T>(
    states: Seq<RuntimeBridge<T>>,
    outs: Seq<TickOutcome<T>>,
    n: nat,
)
    requires
        tick_chain(states, outs),
        outs.len() < n,
        n <= usize::MAX,
    ensures
        !sleep_done_spec(states[0].tick_value(), n, states.last().tick_value()),
{
    states[0].lemma_tick_value_in_range();
    lemma_counter_counts_repeated_ticks(states, outs);
    lemma_sleep_not_done_early(states[0].tick_value(), n, outs.len() as nat);
}

} // verus!


