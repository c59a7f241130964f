//! What a session does over time: the payloads it is given leave it in the
//! order they came, whenever they came, and the whole path from the watched
//! file to the connection keeps that order.

use crate::queue::{queue_preserves_order, Access, QueueView};
use crate::session::{ActionView, EventView, FrameView, PhaseView, SessionView};
use crate::watcher::{changes_are_forwarded_in_order, each_differs, readings, WatcherView};
use vstd::prelude::*;

verus! {

/// The session after a series of events.
pub open spec fn after(s: SessionView, events: Seq<EventView>) -> SessionView
    decreases events.len(),
{
    if events.len() == 0 {
        s
    } else {
        after(s, events.drop_last()).step(events.last()).0
    }
}

/// The answers to a series of events.
pub open spec fn answers(s: SessionView, events: Seq<EventView>) -> Seq<ActionView>
    decreases events.len(),
{
    if events.len() == 0 {
        Seq::empty()
    } else {
        answers(s, events.drop_last()).push(after(s, events.drop_last()).step(events.last()).1)
    }
}

/// The payload that waits for a keepalive to go out before it, if there is one.
pub open spec fn waiting(s: SessionView) -> Seq<Seq<char>> {
    match s.phase {
        PhaseView::SendingKeepalive(Some(data)) => seq![data],
        _ => Seq::empty(),
    }
}

/// The payload that the session takes over with an event, if it takes one: a
/// payload from the queue is taken while the session waits for one.
pub open spec fn accepted(s: SessionView, event: EventView) -> Seq<Seq<char>> {
    match event {
        EventView::Payload { data, now } => if s.phase is Idle {
            seq![data]
        } else {
            Seq::empty()
        },
        _ => Seq::empty(),
    }
}

/// The payload that an action puts on the connection, if it puts one.
pub open spec fn payload_of(action: ActionView) -> Seq<Seq<char>> {
    match action {
        ActionView::Send(FrameView::Payload(data)) => seq![data],
        _ => Seq::empty(),
    }
}

/// The payloads that the session took over in a series of events, in order.
pub open spec fn taken(s: SessionView, events: Seq<EventView>) -> Seq<Seq<char>>
    decreases events.len(),
{
    if events.len() == 0 {
        Seq::empty()
    } else {
        taken(s, events.drop_last()) + accepted(after(s, events.drop_last()), events.last())
    }
}

/// The payloads that the session put on the connection in a series of
/// events, in order.
pub open spec fn written(s: SessionView, events: Seq<EventView>) -> Seq<Seq<char>>
    decreases events.len(),
{
    if events.len() == 0 {
        Seq::empty()
    } else {
        written(s, events.drop_last()) + payload_of(
            after(s, events.drop_last()).step(events.last()).1,
        )
    }
}

/// The payloads that a series of events holds, in order.
pub open spec fn payloads(events: Seq<EventView>) -> Seq<Seq<char>>
    decreases events.len(),
{
    if events.len() == 0 {
        Seq::empty()
    } else {
        match events.last() {
            EventView::Payload { data, now } => payloads(events.drop_last()).push(data),
            _ => payloads(events.drop_last()),
        }
    }
}

/// No write to the connection failed.
pub open spec fn no_write_failed(events: Seq<EventView>) -> bool {
    forall|i: int| 0 <= i < events.len() ==> !(#[trigger] events[i] is SendFailed)
}

/// Every event came when the session could take it: none was ignored.
pub open spec fn driven(s: SessionView, events: Seq<EventView>) -> bool {
    forall|i: int| 0 <= i < events.len() ==> !(#[trigger] answers(s, events)[i] is Ignored)
}

/// There are as many answers as events, and the answers to the first events
/// do not depend on the later ones.
pub proof fn answers_grow(s: SessionView, events: Seq<EventView>)
    ensures
        answers(s, events).len() == events.len(),
        events.len() > 0 ==> answers(s, events.drop_last()) == answers(s, events).drop_last(),
    decreases events.len(),
{
    if events.len() > 0 {
        answers_grow(s, events.drop_last());
        assert(answers(s, events).drop_last() =~= answers(s, events.drop_last()));
    }
}

/// As long as no write fails, the payloads that the session has put on the
/// connection, followed by the one that still waits behind a keepalive, are
/// the payloads it has taken over: each once, in the order they came. When
/// they came, and how many keepalives went out in between, does not matter.
pub proof fn payloads_are_written_in_order(s: SessionView, events: Seq<EventView>)
    requires
        no_write_failed(events),
    ensures
        written(s, events) + waiting(after(s, events)) == waiting(s) + taken(s, events),
    decreases events.len(),
{
    if events.len() == 0 {
        assert(written(s, events) + waiting(s) =~= waiting(s) + taken(s, events));
    } else {
        let earlier = events.drop_last();
        let e = events.last();
        assert(no_write_failed(earlier)) by {
            assert forall|i: int| 0 <= i < earlier.len() implies !(#[trigger] earlier[i]
                is SendFailed) by {
                assert(earlier[i] == events[i]);
            }
        }
        payloads_are_written_in_order(s, earlier);
        let mid = after(s, earlier);
        let (next, action) = mid.step(e);
        assert(!(e is SendFailed)) by {
            assert(events[events.len() - 1] == e);
        }
        assert(payload_of(action) + waiting(next) =~= waiting(mid) + accepted(mid, e));
        assert(written(s, events) + waiting(next) =~= written(s, earlier) + (payload_of(action)
            + waiting(next)));
        assert(waiting(s) + taken(s, events) =~= (waiting(s) + taken(s, earlier)) + accepted(
            mid,
            e,
        ));
        assert(written(s, earlier) + (waiting(mid) + accepted(mid, e)) =~= (written(s, earlier)
            + waiting(mid)) + accepted(mid, e));
    }
}

/// Where none of the events is ignored, every payload among them is taken
/// over.
pub proof fn driven_session_takes_every_payload(s: SessionView, events: Seq<EventView>)
    requires
        driven(s, events),
    ensures
        taken(s, events) == payloads(events),
    decreases events.len(),
{
    if events.len() == 0 {
    } else {
        let earlier = events.drop_last();
        let e = events.last();
        answers_grow(s, events);
        assert(driven(s, earlier)) by {
            assert forall|i: int| 0 <= i < earlier.len() implies !(#[trigger] answers(
                s,
                earlier,
            )[i] is Ignored) by {
                assert(answers(s, earlier)[i] == answers(s, events)[i]);
            }
        }
        driven_session_takes_every_payload(s, earlier);
        let mid = after(s, earlier);
        assert(answers(s, events)[events.len() - 1] == mid.step(e).1);
        assert(!(mid.step(e).1 is Ignored));
        match e {
            EventView::Payload { data, now } => {
                assert(mid.phase is Idle);
                assert(taken(s, events) =~= payloads(events));
            },
            _ => {
                assert(taken(s, events) =~= payloads(events));
            },
        }
    }
}

/// One while a payload is on its way out, else none.
pub open spec fn in_flight(s: SessionView) -> nat {
    if s.phase is SendingPayload {
        1
    } else {
        0
    }
}

/// As long as no write fails, the counter of a session shows how many of the
/// payloads put on the connection have gone out: all of them but the one that
/// may still be on its way.
pub proof fn counter_shows_payloads_sent(s: SessionView, events: Seq<EventView>)
    requires
        no_write_failed(events),
        s.phase is Connecting ==> s.counter.count == 0,
    ensures
        after(s, events).counter.count + in_flight(after(s, events)) == s.counter.count
            + in_flight(s) + written(s, events).len(),
        after(s, events).phase is Connecting ==> after(s, events) == s,
    decreases events.len(),
{
    if events.len() > 0 {
        let earlier = events.drop_last();
        let e = events.last();
        assert(no_write_failed(earlier)) by {
            assert forall|i: int| 0 <= i < earlier.len() implies !(#[trigger] earlier[i]
                is SendFailed) by {
                assert(earlier[i] == events[i]);
            }
        }
        counter_shows_payloads_sent(s, earlier);
        assert(!(e is SendFailed)) by {
            assert(events[events.len() - 1] == e);
        }
    }
}

/// The whole path keeps the order. The file's contents change, each state
/// differing from the one before; the watcher's verdicts go to a queue that
/// was empty, and the session is given what the consumer gets from it. Then,
/// once the queue is empty and no payload waits in the session, the payloads
/// put on the connection are the contents of the file, each once and in
/// order: however the two sides of the queue took turns, whenever the
/// payloads reached the session, and whatever keepalives went out in between.
pub proof fn every_change_is_sent_in_order(
    contents: Seq<Seq<char>>,
    w: WatcherView,
    q: QueueView,
    accesses: Seq<Access>,
    s: SessionView,
    events: Seq<EventView>,
)
    requires
        !w.closed,
        each_differs(w.last, contents),
        q.pending.len() == 0,
        q.taken_in(accesses) == w.forwarded(readings(contents)),
        q.after(accesses).pending.len() == 0,
        payloads(events) == q.handed_out(accesses),
        driven(s, events),
        no_write_failed(events),
        waiting(s).len() == 0,
        waiting(after(s, events)).len() == 0,
    ensures
        written(s, events) == contents,
{
    changes_are_forwarded_in_order(w, contents);
    queue_preserves_order(q, accesses);
    assert(q.handed_out(accesses) =~= contents) by {
        assert(q.handed_out(accesses) + q.after(accesses).pending =~= q.handed_out(accesses));
        assert(q.pending + q.taken_in(accesses) =~= q.taken_in(accesses));
    }
    driven_session_takes_every_payload(s, events);
    payloads_are_written_in_order(s, events);
    assert(written(s, events) + waiting(after(s, events)) =~= written(s, events));
    assert(waiting(s) + taken(s, events) =~= taken(s, events));
}

} // verus!
