//! The callback queue: a FIFO queue of units of work submitted by background
//! tasks and drained once per tick by the main loop. Producers enqueue at the
//! back; the single consumer drains from the front, so callbacks are executed
//! in submission order.

use vstd::prelude::*;
use std::collections::VecDeque;

verus! {

/// The condition signalled to a producer whose enqueue was attempted after
/// the consumer side of the queue was torn down.
#[derive(Clone, Copy, Debug, PartialEq, Eq, Structural)]
pub struct QueueClosed;

/// A FIFO queue of callbacks awaiting the main loop. `T` is the host's unit
/// of work; the queue itself never looks inside one. Once closed by the
/// consumer, further enqueues are refused.
pub struct CallbackQueue<T> {
    items: VecDeque<T>,
    closed: bool,
}

impl<T> CallbackQueue<T> {
    /// The queued callbacks, oldest first.
    pub closed spec fn contents(self) -> Seq<T> {
        self.items@
    }

    /// Whether the consumer has torn the queue down.
    pub closed spec fn is_closed(self) -> bool {
        self.closed
    }

    /// A fresh queue is empty and open.
    pub fn new() -> (q: CallbackQueue<T>)
        ensures
            q.contents() == Seq::<T>::empty(),
            !q.is_closed(),
    {
        let q = CallbackQueue { items: VecDeque::new(), closed: false };
        proof {
            assert(q.contents() =~= Seq::<T>::empty());
        }
        q
    }

    /// How many callbacks are queued.
    pub fn len(&self) -> (r: usize)
        ensures
            r == self.contents().len(),
    {
        self.items.len()
    }

    /// Enqueue a callback at the back of the queue. Non-blocking; succeeds
    /// exactly when the queue is still open, and otherwise reports
    /// `QueueClosed` and leaves the queue unchanged.
    pub fn enqueue(&mut self, callback: T) -> (r: Result<(), QueueClosed>)
        ensures
            final(self).is_closed() == old(self).is_closed(),
            r is Ok <==> !old(self).is_closed(),
            !old(self).is_closed() ==> final(self).contents() == old(self).contents().push(
                callback,
            ),
            old(self).is_closed() ==> final(self).contents() == old(self).contents(),
    {
        if self.closed {
            Err(QueueClosed)
        } else {
            self.items.push_back(callback);
            Ok(())
        }
    }

    /// Pop and return every queued callback, oldest first, leaving the queue
    /// empty. Callbacks come out in exactly the order they were enqueued.
    pub fn drain_available(&mut self) -> (r: Vec<T>)
        ensures
            r@ == old(self).contents(),
            final(self).contents() == Seq::<T>::empty(),
            final(self).is_closed() == old(self).is_closed(),
    {
        let mut drained: Vec<T> = Vec::new();
        while self.items.len() != 0
            invariant
                drained@ + self.items@ == old(self).contents(),
                self.closed == old(self).closed,
            decreases self.items.len(),
        {
            let callback = self.items.pop_front().unwrap();
            drained.push(callback);
            proof {
                assert(drained@ + self.items@ =~= old(self).contents());
            }
        }
        proof {
            assert(self.items@ =~= Seq::<T>::empty());
            assert(drained@ =~= old(self).contents());
        }
        drained
    }

    /// Tear down the consumer side: the queue refuses further enqueues.
    /// Already-queued callbacks are kept for the host to discard or drain.
    pub fn close(&mut self)
        ensures
            final(self).is_closed(),
            final(self).contents() == old(self).contents(),
    {
        self.closed = true;
    }
}

} // verus!
