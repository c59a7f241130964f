//! When keepalives go out: one after every full interval of silence, ahead
//! of whatever payload comes next, and none while the connection is in use.

use crate::session::{ActionView, EventView, FrameView, PhaseView, SessionView};
use vstd::prelude::*;

verus! {

/// A payload that reaches a session which has been silent for the whole
/// interval is preceded by one keepalive, and by one only: the keepalive goes
/// out, then the payload, then the session waits again. Both sends restart
/// the timer, and the payload is counted.
pub proof fn late_payload_follows_one_keepalive(
    s: SessionView,
    data: Seq<char>,
    now: u64,
    keepalive_out: u64,
    payload_out: u64,
)
    requires
        s.phase is Idle,
        s.pinger.due(now),
    ensures
        ({
            let (s1, a1) = s.step(EventView::Payload { data, now });
            let (s2, a2) = s1.step(EventView::Sent { now: keepalive_out });
            let (s3, a3) = s2.step(EventView::Sent { now: payload_out });
            &&& a1 == ActionView::Send(FrameView::Keepalive(s.pinger.message))
            &&& s2.pinger.last == keepalive_out
            &&& a2 == ActionView::Send(FrameView::Payload(data))
            &&& s3.pinger.last == payload_out
            &&& s3.phase is Idle
            &&& a3 is Wait
            &&& s3.counter.count == s.counter.count + 1
        }),
{
}

/// A payload that reaches a session before the interval has passed goes out
/// at once, with no keepalive before it.
pub proof fn prompt_payload_goes_alone(s: SessionView, data: Seq<char>, now: u64, out: u64)
    requires
        s.phase is Idle,
        !s.pinger.due(now),
    ensures
        ({
            let (s1, a1) = s.step(EventView::Payload { data, now });
            let (s2, a2) = s1.step(EventView::Sent { now: out });
            &&& a1 == ActionView::Send(FrameView::Payload(data))
            &&& s2.pinger.last == out
            &&& s2.phase is Idle
            &&& a2 is Wait
            &&& s2.counter.count == s.counter.count + 1
        }),
{
}

/// When the wait on the queue runs out, one keepalive goes out and the
/// session waits again, for a whole interval. The counter stays, and a
/// payload that comes before that interval is over goes out alone.
pub proof fn silence_is_broken_by_one_keepalive(
    s: SessionView,
    out: u64,
    data: Seq<char>,
    later: u64,
)
    requires
        s.phase is Idle,
    ensures
        ({
            let (s1, a1) = s.step(EventView::Timeout);
            let (s2, a2) = s1.step(EventView::Sent { now: out });
            &&& a1 == ActionView::Send(FrameView::Keepalive(s.pinger.message))
            &&& s2.phase is Idle
            &&& s2.pinger.last == out
            &&& s2.counter == s.counter
            &&& a2 == ActionView::Wait { timeout: s.pinger.interval, status: None }
            &&& out <= later < out + s.pinger.interval ==> s2.step(
                EventView::Payload { data, now: later },
            ).1 == ActionView::Send(FrameView::Payload(data))
        }),
{
}

/// Every frame that goes out, keepalive or payload, restarts the timer: the
/// next keepalive is due a whole interval later, and not before.
pub proof fn every_send_restarts_the_timer(s: SessionView, now: u64, later: u64)
    requires
        s.phase is SendingKeepalive || s.phase is SendingPayload,
    ensures
        ({
            let next = s.step(EventView::Sent { now }).0;
            &&& next.pinger.last == now
            &&& next.pinger.interval == s.pinger.interval
            &&& later >= now ==> (next.pinger.due(later) <==> later - now
                >= s.pinger.interval)
        }),
{
}

/// The wait that a session asks for never outlasts the heartbeat: it is the
/// time that is left until the next keepalive is due.
pub proof fn wait_ends_when_keepalive_is_due(s: SessionView, event: EventView)
    ensures
        ({
            let (next, action) = s.step(event);
            action matches ActionView::Wait { timeout, status } ==> {
                &&& next.phase is Idle
                &&& timeout == next.pinger.interval
                &&& next.pinger.last + timeout <= u64::MAX ==> next.pinger.due(
                    (next.pinger.last + timeout) as u64,
                )
            }
        }),
{
}

} // verus!
