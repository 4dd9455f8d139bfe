//! The outgoing queue: the first-in-first-out handoff from producers to the
//! writer.

use std::collections::VecDeque;
use vstd::prelude::*;

verus! {

/// What an [`OutgoingQueue`] is, mathematically: the payloads that wait to be
/// sent, oldest first, and whether the producers have closed the queue.
pub struct QueueView {
    pub pending: Seq<Seq<u8>>,
    pub closed: bool,
}

impl QueueView {
    /// A queue that is open and holds nothing.
    pub open spec fn empty() -> QueueView {
        QueueView { pending: Seq::empty(), closed: false }
    }

    /// The queue after `payload` has joined it at the back.
    pub open spec fn push(self, payload: Seq<u8>) -> QueueView {
        QueueView { pending: self.pending.push(payload), closed: self.closed }
    }

    /// The queue after each of `payloads` has joined it at the back, one
    /// after the other.
    pub open spec fn push_all(self, payloads: Seq<Seq<u8>>) -> QueueView
        decreases payloads.len(),
    {
        if payloads.len() == 0 {
            self
        } else {
            self.push_all(payloads.drop_last()).push(payloads.last())
        }
    }

    /// The queue after its oldest payload has left it.
    pub open spec fn pop(self) -> QueueView
        recommends
            self.pending.len() > 0,
    {
        QueueView { pending: self.pending.skip(1), closed: self.closed }
    }

    /// The same payloads in a queue that takes no more.
    pub open spec fn close(self) -> QueueView {
        QueueView { pending: self.pending, closed: true }
    }
}

/// An unbounded queue of byte payloads that hands them out in the order in
/// which they came in.
///
/// A payload that was accepted stays until it is taken out: nothing is
/// dropped, reordered, merged or split. Producers may close the queue; a
/// closed queue accepts nothing new but still hands out what it holds.
#[derive(Debug, Clone)]
pub struct OutgoingQueue {
    pending: VecDeque<Vec<u8>>,
    closed: bool,
}

impl View for OutgoingQueue {
    type V = QueueView;

    closed spec fn view(&self) -> QueueView {
        QueueView {
            pending: Seq::new(self.pending@.len(), |i: int| self.pending@[i]@),
            closed: self.closed,
        }
    }
}

/// Queueing keeps order and loses nothing: after a run of payloads has joined
/// a queue, it holds what it held before, followed by those payloads as they
/// came, and is as open or closed as it was.
pub proof fn lemma_push_all_appends(queue: QueueView, payloads: Seq<Seq<u8>>)
    ensures
        queue.push_all(payloads).pending == queue.pending + payloads,
        queue.push_all(payloads).closed == queue.closed,
    decreases payloads.len(),
{
    if payloads.len() == 0 {
        assert(queue.pending + payloads =~= queue.pending);
    } else {
        lemma_push_all_appends(queue, payloads.drop_last());
        assert((queue.pending + payloads.drop_last()).push(payloads.last()) =~= queue.pending
            + payloads);
    }
}

impl OutgoingQueue {
    /// An open queue that holds nothing.
    pub fn new() -> (queue: Self)
        ensures
            queue@ == QueueView::empty(),
    {
        let queue = OutgoingQueue { pending: VecDeque::new(), closed: false };
        assert(queue@.pending =~= Seq::<Seq<u8>>::empty());
        queue
    }

    /// Appends `payload` behind everything that already waits.
    ///
    /// A closed queue refuses it and hands it back untouched.
    pub fn enqueue(&mut self, payload: Vec<u8>) -> (outcome: Result<(), Vec<u8>>)
        ensures
            !old(self)@.closed ==> outcome is Ok,
            !old(self)@.closed ==> final(self)@ == old(self)@.push(payload@),
            old(self)@.closed ==> outcome == Err::<(), Vec<u8>>(payload),
            old(self)@.closed ==> final(self)@ == old(self)@,
    {
        if self.closed {
            return Err(payload);
        }
        let ghost wanted = self@.push(payload@);
        self.pending.push_back(payload);
        assert(self@.pending =~= wanted.pending);
        Ok(())
    }

    /// Takes out the payload that has waited longest, if there is one.
    pub fn dequeue(&mut self) -> (front: Option<Vec<u8>>)
        ensures
            old(self)@.pending.len() == 0 ==> front is None && final(self)@ == old(self)@,
            old(self)@.pending.len() > 0 ==> (front matches Some(payload) && payload@ == old(
                self,
            )@.pending[0]),
            old(self)@.pending.len() > 0 ==> final(self)@ == old(self)@.pop(),
    {
        let ghost before = self@;
        let front = self.pending.pop_front();
        proof {
            if front is Some {
                assert(self@.pending =~= before.pop().pending);
            } else {
                assert(self@.pending =~= before.pending);
            }
        }
        front
    }

    /// Closes the queue: from now on it accepts nothing new. What it holds
    /// stays, in order.
    pub fn close(&mut self)
        ensures
            final(self)@ == old(self)@.close(),
    {
        self.closed = true;
    }

    /// The number of payloads that wait.
    pub fn len(&self) -> (n: usize)
        ensures
            n == self@.pending.len(),
    {
        self.pending.len()
    }

    /// Whether no payload waits.
    pub fn is_empty(&self) -> (empty: bool)
        ensures
            empty == (self@.pending.len() == 0),
    {
        self.pending.len() == 0
    }

    /// Whether the queue has been closed.
    pub fn is_closed(&self) -> (closed: bool)
        ensures
            closed == self@.closed,
    {
        self.closed
    }
}

} // verus!
