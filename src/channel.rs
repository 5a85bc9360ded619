use std::collections::VecDeque;

use vstd::prelude::*;

use crate::signal::ProgressSignal;

verus! {

/// A first-in first-out handoff of signals from the worker to the observer.
///
/// It never drops or merges a signal, and it takes none after a terminal
/// one. The worker wakes the observer only after `send` accepted a signal;
/// the observer takes exactly one signal per wake with `recv`.
pub struct ProgressQueue {
    pending: VecDeque<ProgressSignal>,
    closed: bool,
}

impl View for ProgressQueue {
    type V = Seq<ProgressSignal>;

    /// The signals sent and not yet received, oldest first.
    closed spec fn view(&self) -> Seq<ProgressSignal> {
        self.pending@
    }
}

impl ProgressQueue {
    /// Whether a terminal signal has been accepted.
    pub closed spec fn spec_is_closed(self) -> bool {
        self.closed
    }

    /// Only the last pending signal may be terminal, and a pending terminal
    /// signal closes the queue.
    pub open spec fn wf(self) -> bool {
        &&& forall|i: int| 0 <= i < self@.len() - 1 ==> !(#[trigger] self@[i]).spec_is_terminal()
        &&& (self@.len() > 0 && self@.last().spec_is_terminal()) ==> self.spec_is_closed()
    }

    pub fn new() -> (r: ProgressQueue)
        ensures
            r.wf(),
            r@ == Seq::<ProgressSignal>::empty(),
            !r.spec_is_closed(),
    {
        ProgressQueue { pending: VecDeque::new(), closed: false }
    }

    pub fn is_closed(&self) -> (r: bool)
        ensures
            r == self.spec_is_closed(),
    {
        self.closed
    }

    pub fn len(&self) -> (r: usize)
        ensures
            r == self@.len(),
    {
        self.pending.len()
    }

    /// Queues `signal` behind the pending ones, unless a terminal signal was
    /// accepted before; returns whether it was queued.
    pub fn send(&mut self, signal: ProgressSignal) -> (accepted: bool)
        requires
            old(self).wf(),
        ensures
            final(self).wf(),
            accepted == !old(self).spec_is_closed(),
            accepted ==> final(self)@ == old(self)@.push(signal) && final(self).spec_is_closed()
                == signal.spec_is_terminal(),
            !accepted ==> final(self)@ == old(self)@ && final(self).spec_is_closed(),
    {
        if self.closed {
            return false;
        }
        self.pending.push_back(signal);
        self.closed = signal.is_terminal();
        true
    }

    /// Takes the oldest pending signal, if any.
    pub fn recv(&mut self) -> (r: Option<ProgressSignal>)
        requires
            old(self).wf(),
        ensures
            final(self).wf(),
            final(self).spec_is_closed() == old(self).spec_is_closed(),
            match r {
                Some(s) => old(self)@.len() > 0 && s == old(self)@[0] && final(self)@
                    == old(self)@.drop_first(),
                None => old(self)@.len() == 0 && final(self)@ == old(self)@,
            },
    {
        let r = self.pending.pop_front();
        proof {
            let o = old(self)@;
            if o.len() > 1 {
                assert forall|i: int| 0 <= i < self@.len() - 1 implies !(
                #[trigger] self@[i]).spec_is_terminal() by {
                    assert(self@[i] == o[i + 1]);
                }
                assert(self@.last() == o.last());
            }
        }
        r
    }
}

} // verus!
