//! The queue between the watcher and the session: payloads leave in the order
//! they came, none is lost or repeated, and the end of the input is told
//! apart from a queue that is merely empty.
//!
//! The queue does not block. Whoever shares it between the two sides holds it
//! behind a lock and waits there; each call is one step under that lock.

use std::collections::VecDeque;
use vstd::prelude::*;

verus! {

/// What came out of the queue.
#[derive(Debug, PartialEq, Eq)]
pub enum Dequeued {
    /// The oldest payload.
    Payload(String),
    /// Nothing yet; the producer may still add.
    Empty,
    /// Nothing, and nothing will come: the producer is gone.
    Disconnected,
}

/// What came out of the queue, as plain values.
pub enum DequeuedView {
    Payload(Seq<char>),
    Empty,
    Disconnected,
}

impl View for Dequeued {
    type V = DequeuedView;

    open spec fn view(&self) -> DequeuedView {
        match self {
            Dequeued::Payload(data) => DequeuedView::Payload(data@),
            Dequeued::Empty => DequeuedView::Empty,
            Dequeued::Disconnected => DequeuedView::Disconnected,
        }
    }
}

/// An unbounded first-in first-out queue of payloads with one producer.
#[derive(Debug, PartialEq, Eq)]
pub struct Queue {
    items: VecDeque<String>,
    closed: bool,
}

/// A queue as plain values.
pub struct QueueView {
    /// The payloads that wait, oldest first.
    pub pending: Seq<Seq<char>>,
    /// Whether the producer is gone.
    pub closed: bool,
}

impl QueueView {
    /// An empty queue whose producer is there.
    pub open spec fn empty() -> QueueView {
        QueueView { pending: Seq::empty(), closed: false }
    }

    /// The queue after the producer offered `data`: it goes to the end,
    /// unless the producer had closed the queue before.
    pub open spec fn enqueue(self, data: Seq<char>) -> QueueView {
        if self.closed {
            self
        } else {
            QueueView { pending: self.pending.push(data), closed: false }
        }
    }

    /// The queue after the producer left. What waits stays.
    pub open spec fn close(self) -> QueueView {
        QueueView { pending: self.pending, closed: true }
    }

    /// What the consumer gets, and the queue after that.
    pub open spec fn dequeue(self) -> (QueueView, DequeuedView) {
        if self.pending.len() > 0 {
            (
                QueueView { pending: self.pending.drop_first(), closed: self.closed },
                DequeuedView::Payload(self.pending.first()),
            )
        } else if self.closed {
            (self, DequeuedView::Disconnected)
        } else {
            (self, DequeuedView::Empty)
        }
    }
}

impl View for Queue {
    type V = QueueView;

    closed spec fn view(&self) -> QueueView {
        QueueView { pending: self.items.deep_view(), closed: self.closed }
    }
}

impl Queue {
    /// An empty queue whose producer is there.
    pub fn new() -> (q: Queue)
        ensures
            q@ == QueueView::empty(),
    {
        let q = Queue { items: VecDeque::new(), closed: false };
        assert(q.items.deep_view() =~= Seq::<Seq<char>>::empty());
        q
    }

    /// How many payloads wait.
    pub fn len(&self) -> (n: usize)
        ensures
            n == self@.pending.len(),
    {
        self.items.len()
    }

    /// Whether the producer is gone.
    pub fn is_closed(&self) -> (closed: bool)
        ensures
            closed == self@.closed,
    {
        self.closed
    }

    /// Adds `data` at the end. Fails, handing `data` back, only after
    /// [`Queue::close`].
    pub fn enqueue(&mut self, data: String) -> (r: Result<(), String>)
        ensures
            final(self)@ == old(self)@.enqueue(data@),
            match r {
                Ok(_) => !old(self)@.closed,
                Err(back) => old(self)@.closed && back@ == data@,
            },
    {
        if self.closed {
            Err(data)
        } else {
            let ghost before = self.items.deep_view();
            self.items.push_back(data);
            assert(self.items.deep_view() =~= before.push(data@));
            Ok(())
        }
    }

    /// Marks the producer as gone.
    pub fn close(&mut self)
        ensures
            final(self)@ == old(self)@.close(),
    {
        self.closed = true;
    }

    /// Takes the oldest payload, if there is one.
    pub fn dequeue(&mut self) -> (out: Dequeued)
        ensures
            (final(self)@, out@) == old(self)@.dequeue(),
    {
        let ghost before = self.items.deep_view();
        match self.items.pop_front() {
            Some(data) => {
                assert(self.items.deep_view() =~= before.drop_first());
                Dequeued::Payload(data)
            },
            None => {
                assert(self.items.deep_view() =~= before);
                if self.closed {
                    Dequeued::Disconnected
                } else {
                    Dequeued::Empty
                }
            },
        }
    }
}

/// One access to the queue, by the producer or by the consumer.
pub enum Access {
    /// The producer offers a payload.
    Enqueue(Seq<char>),
    /// The producer leaves.
    Close,
    /// The consumer asks for a payload.
    Dequeue,
}

impl QueueView {
    /// The queue after one access, with the payload that the consumer got
    /// from it, if it got one.
    pub open spec fn access(self, a: Access) -> (QueueView, Option<Seq<char>>) {
        match a {
            Access::Enqueue(data) => (self.enqueue(data), None),
            Access::Close => (self.close(), None),
            Access::Dequeue => match self.dequeue().1 {
                DequeuedView::Payload(data) => (self.dequeue().0, Some(data)),
                _ => (self.dequeue().0, None),
            },
        }
    }

    /// The payload that the queue took in at one access, if it took one.
    pub open spec fn admits(self, a: Access) -> Option<Seq<char>> {
        match a {
            Access::Enqueue(data) => if self.closed {
                None
            } else {
                Some(data)
            },
            _ => None,
        }
    }

    /// The queue after a series of accesses, in whatever way the two sides
    /// took turns.
    pub open spec fn after(self, accesses: Seq<Access>) -> QueueView
        decreases accesses.len(),
    {
        if accesses.len() == 0 {
            self
        } else {
            self.after(accesses.drop_last()).access(accesses.last()).0
        }
    }

    /// The payloads that the consumer got over a series of accesses, in the
    /// order it got them.
    pub open spec fn handed_out(self, accesses: Seq<Access>) -> Seq<Seq<char>>
        decreases accesses.len(),
    {
        if accesses.len() == 0 {
            Seq::empty()
        } else {
            let before = self.handed_out(accesses.drop_last());
            match self.after(accesses.drop_last()).access(accesses.last()).1 {
                Some(data) => before.push(data),
                None => before,
            }
        }
    }

    /// The payloads that the queue took in over a series of accesses, in the
    /// order the producer offered them.
    pub open spec fn taken_in(self, accesses: Seq<Access>) -> Seq<Seq<char>>
        decreases accesses.len(),
    {
        if accesses.len() == 0 {
            Seq::empty()
        } else {
            let before = self.taken_in(accesses.drop_last());
            match self.after(accesses.drop_last()).admits(accesses.last()) {
                Some(data) => before.push(data),
                None => before,
            }
        }
    }
}

/// Two payloads offered to an open queue leave it in the order they were
/// offered, behind what waited before them: on an empty queue the next two
/// takes give the first, then the second.
pub proof fn two_payloads_keep_their_order(q: QueueView, first: Seq<char>, second: Seq<char>)
    requires
        !q.closed,
    ensures
        q.enqueue(first).enqueue(second).pending == q.pending + seq![first, second],
        q.pending.len() == 0 ==> {
            let filled = q.enqueue(first).enqueue(second);
            &&& filled.dequeue().1 == DequeuedView::Payload(first)
            &&& filled.dequeue().0.dequeue().1 == DequeuedView::Payload(second)
            &&& filled.dequeue().0.dequeue().0.pending.len() == 0
        },
{
    let filled = q.enqueue(first).enqueue(second);
    assert(filled.pending =~= q.pending + seq![first, second]);
    if q.pending.len() == 0 {
        assert(filled.pending.drop_first() =~= seq![second]);
        assert(filled.dequeue().0.dequeue().0.pending =~= Seq::<Seq<char>>::empty());
    }
}

/// However the producer and the consumer take turns, what the consumer has
/// got so far, followed by what still waits, is what waited at first followed
/// by what the queue took in since: nothing is lost, repeated or out of order.
pub proof fn queue_preserves_order(q: QueueView, accesses: Seq<Access>)
    ensures
        q.handed_out(accesses) + q.after(accesses).pending == q.pending + q.taken_in(accesses),
    decreases accesses.len(),
{
    if accesses.len() == 0 {
        assert(q.handed_out(accesses) + q.after(accesses).pending =~= q.pending);
        assert(q.pending + q.taken_in(accesses) =~= q.pending);
    } else {
        let earlier = accesses.drop_last();
        queue_preserves_order(q, earlier);
        let mid = q.after(earlier);
        let out = q.handed_out(earlier);
        let inn = q.taken_in(earlier);
        assert(out + mid.pending == q.pending + inn);
        match accesses.last() {
            Access::Enqueue(data) => {
                if mid.closed {
                } else {
                    assert(out + mid.pending.push(data) =~= (out + mid.pending).push(data));
                    assert(q.pending + inn.push(data) =~= (q.pending + inn).push(data));
                }
            },
            Access::Close => {},
            Access::Dequeue => {
                if mid.pending.len() > 0 {
                    assert(out.push(mid.pending.first()) + mid.pending.drop_first() =~= out
                        + mid.pending);
                }
            },
        }
    }
}

/// Nothing leaves the queue that did not wait in it or was not taken in: once
/// the queue has been emptied, what the consumer got is exactly that, in order.
pub proof fn drained_queue_handed_out_everything(q: QueueView, accesses: Seq<Access>)
    requires
        q.after(accesses).pending.len() == 0,
    ensures
        q.handed_out(accesses) == q.pending + q.taken_in(accesses),
{
    queue_preserves_order(q, accesses);
    assert(q.handed_out(accesses) + q.after(accesses).pending =~= q.handed_out(accesses));
}

} // verus!
