//! How the count of failed attempts moves, and when the supervisor gives up.

use crate::session::{CloseReason, PhaseView, REFUSED_SUFFIX, UNAVAILABLE_SUFFIX};
use crate::status::{class_of, StatusClass};
use crate::supervisor::{
    retry_notice, ActionView, EventView, StageView, SupervisorView, Termination, BACKOFF_MS,
    EXIT_FAILURE, MAX_RETRIES, RETRIES_EXHAUSTED,
};
use crate::text::decimal;
use vstd::prelude::*;

verus! {

/// Whether `event` ends the attempt under way with a connection error: the
/// connection cannot be made, the endpoint cannot serve, or a write fails.
pub open spec fn fails_attempt(v: SupervisorView, event: EventView) -> bool {
    &&& v.stage matches StageView::Running(session)
    &&& event matches EventView::Session(e)
    &&& session.step(e).1 matches crate::session::ActionView::Finish { reason, message }
    &&& reason == CloseReason::ConnectionError
}

/// Whether `event` reports a frame that went out.
pub open spec fn confirms_send(v: SupervisorView, event: EventView) -> bool {
    &&& v.stage matches StageView::Running(session)
    &&& event matches EventView::Session(e)
    &&& e is Sent
    &&& (session.phase is SendingKeepalive || session.phase is SendingPayload)
}

/// Whether `event` ends the attempt under way for a reason that no further
/// attempt can mend: the endpoint refused the credentials, or the producer is
/// gone.
pub open spec fn ends_for_good(v: SupervisorView, event: EventView) -> bool {
    &&& v.stage matches StageView::Running(session)
    &&& event matches EventView::Session(e)
    &&& session.step(e).1 matches crate::session::ActionView::Finish { reason, message }
    &&& reason != CloseReason::ConnectionError
}

/// The count of failures goes to zero with every frame that went out, goes up
/// by one with every failed attempt that is followed by another, and stays
/// as it is otherwise.
pub proof fn retries_move_by_rule(v: SupervisorView, event: EventView)
    ensures
        v.step(event).0.retries == if confirms_send(v, event) {
            0
        } else if fails_attempt(v, event) && v.retries < MAX_RETRIES {
            v.retries + 1
        } else {
            v.retries
        },
{
}

/// A failed attempt below the limit is followed by a pause of the fixed
/// length and then by another attempt; the notice names the cause.
pub proof fn failure_below_limit_is_retried(v: SupervisorView, event: EventView)
    requires
        fails_attempt(v, event),
        v.retries < MAX_RETRIES,
    ensures
        ({
            let (next, action) = v.step(event);
            &&& next.stage is Backoff
            &&& next.retries == v.retries + 1
            &&& action matches ActionView::Sleep { duration, message }
            &&& duration == BACKOFF_MS
            &&& exists|cause: Seq<char>| message == retry_notice(cause)
            &&& next.step(EventView::BackoffElapsed).1 == ActionView::Connect
            &&& next.step(EventView::BackoffElapsed).0.stage matches StageView::Running(session)
            &&& session.phase is Connecting
        }),
{
    let session = v.stage->Running_0;
    let e = event->Session_0;
    let cause = session.step(e).1->Finish_message;
    assert(v.step(event).1->Sleep_message == retry_notice(cause));
}

/// A failed attempt at the limit ends the process.
pub proof fn failure_at_limit_is_final(v: SupervisorView, event: EventView)
    requires
        fails_attempt(v, event),
        v.retries >= MAX_RETRIES,
    ensures
        ({
            let (next, action) = v.step(event);
            &&& next.stage == StageView::Terminated(Termination::RetriesExhausted)
            &&& action == ActionView::Exit { code: EXIT_FAILURE, message: RETRIES_EXHAUSTED@ }
        }),
{
}

/// The supervisor gives up exactly when an attempt fails that would take the
/// count of failures past the limit, or when an attempt ends for good.
pub proof fn gives_up_exactly_when(v: SupervisorView, event: EventView)
    requires
        !(v.stage is Terminated),
    ensures
        v.step(event).0.stage is Terminated <==> (fails_attempt(v, event) && v.retries + 1
            > MAX_RETRIES) || ends_for_good(v, event),
        v.step(event).0.stage is Terminated ==> v.step(event).1 is Exit,
        v.step(event).1 is Exit ==> v.step(event).0.stage is Terminated,
{
}

/// Once the supervisor has given up, nothing moves it.
pub proof fn terminated_stays(v: SupervisorView, event: EventView)
    requires
        v.stage is Terminated,
    ensures
        v.step(event) == (v, ActionView::Ignored),
{
}

/// The count of failures never passes the limit.
pub proof fn retries_stay_within_limit(v: SupervisorView, event: EventView)
    requires
        v.retries <= MAX_RETRIES,
    ensures
        v.step(event).0.retries <= MAX_RETRIES,
{
}

/// A handshake that the endpoint answers with a client error ends the
/// process at once: no pause, no further attempt, and the count of failures
/// is left alone. The message names the status.
pub proof fn refused_handshake_is_never_retried(v: SupervisorView, status: u16, now: u64)
    requires
        v.stage matches StageView::Running(session) && session.phase is Connecting,
        class_of(status) == StatusClass::ClientError,
    ensures
        ({
            let (next, action) = v.step(
                EventView::Session(crate::session::EventView::Connected { status, now }),
            );
            &&& next.stage == StageView::Terminated(Termination::NonRetryableServerResponse)
            &&& next.retries == v.retries
            &&& action == ActionView::Exit {
                code: EXIT_FAILURE,
                message: decimal(status as nat) + REFUSED_SUFFIX@,
            }
        }),
{
}

/// A handshake that the endpoint answers with neither success nor a client
/// error is a failed attempt: below the limit another one follows.
pub proof fn unavailable_endpoint_is_retried(v: SupervisorView, status: u16, now: u64)
    requires
        v.stage matches StageView::Running(session) && session.phase is Connecting,
        class_of(status) == StatusClass::Other,
    ensures
        ({
            let event = EventView::Session(crate::session::EventView::Connected { status, now });
            let (next, action) = v.step(event);
            &&& fails_attempt(v, event)
            &&& v.retries < MAX_RETRIES ==> {
                &&& next.stage is Backoff
                &&& next.retries == v.retries + 1
                &&& action == ActionView::Sleep {
                    duration: BACKOFF_MS,
                    message: retry_notice(decimal(status as nat) + UNAVAILABLE_SUFFIX@),
                }
            }
            &&& v.retries >= MAX_RETRIES ==> next.stage == StageView::Terminated(
                Termination::RetriesExhausted,
            )
        }),
{
}

/// A handshake that the endpoint accepts opens the session; the count of
/// failures stays until a frame has gone out.
pub proof fn accepted_handshake_opens_session(v: SupervisorView, status: u16, now: u64)
    requires
        v.stage matches StageView::Running(session) && session.phase is Connecting,
        class_of(status) == StatusClass::Accepted,
    ensures
        ({
            let (next, action) = v.step(
                EventView::Session(crate::session::EventView::Connected { status, now }),
            );
            &&& next.stage matches StageView::Running(session)
            &&& session.phase == PhaseView::Idle
            &&& session.counter.count == 0
            &&& next.retries == v.retries
            &&& action is Wait
        }),
{
}

/// The supervisor after one more attempt that fails outright: it takes up
/// the attempt, and the connection cannot be made.
pub open spec fn after_failed_connect(v: SupervisorView, error: Seq<char>) -> SupervisorView {
    let resume = if v.stage is Idle {
        EventView::Start
    } else {
        EventView::BackoffElapsed
    };
    v.step(resume).0.step(
        EventView::Session(crate::session::EventView::ConnectFailed { error }),
    ).0
}

/// The supervisor after a row of attempts that fail outright, one for each of
/// `errors`.
pub open spec fn after_failed_connects(v: SupervisorView, errors: Seq<Seq<char>>) -> SupervisorView
    decreases errors.len(),
{
    if errors.len() == 0 {
        v
    } else {
        after_failed_connect(after_failed_connects(v, errors.drop_last()), errors.last())
    }
}

/// Starting with no failure on record, each of the first attempts that fail
/// outright, up to the limit, is followed by a pause and counted; the one
/// after the limit ends the process.
pub proof fn failures_in_a_row(v: SupervisorView, errors: Seq<Seq<char>>)
    requires
        v.stage is Idle,
        v.retries == 0,
        errors.len() <= MAX_RETRIES + 1,
    ensures
        0 < errors.len() <= MAX_RETRIES ==> after_failed_connects(v, errors).stage is Backoff,
        errors.len() <= MAX_RETRIES ==> after_failed_connects(v, errors).retries == errors.len(),
        errors.len() == MAX_RETRIES + 1 ==> after_failed_connects(v, errors).stage
            == StageView::Terminated(Termination::RetriesExhausted),
    decreases errors.len(),
{
    if errors.len() > 0 {
        failures_in_a_row(v, errors.drop_last());
    }
}

} // verus!
