//! One connection attempt, from the handshake to the moment it ends, as a
//! machine that is told what happened and answers what to do next. Whoever
//! drives it makes the connection, waits on the queue and writes the frames;
//! the machine decides.

use crate::counter::{Counter, CounterView};
use crate::heartbeat::{Pinger, PingerView};
use crate::status::{class_of, classify, StatusClass};
use crate::text::{decimal, decimal_string};
use vstd::prelude::*;
use vstd::string::*;

verus! {

/// The label of the sent-message counter.
pub const COUNTER_PREFIX: &'static str = "sent messages: ";

/// What follows the status code when the endpoint refuses the credentials.
pub const REFUSED_SUFFIX: &'static str = " response from the server, bad token? Try to re-auth";

/// What follows the status code when the endpoint cannot serve.
pub const UNAVAILABLE_SUFFIX: &'static str = " response from the server, is it down?.";

/// What is reported when the queue's producer is gone.
pub const PRODUCER_GONE: &'static str = "inotify channel disconnected";

/// Why a session ended.
#[derive(Clone, Copy, Debug, PartialEq, Eq, Structural)]
pub enum CloseReason {
    /// Nothing is left to forward: the producer closed the queue.
    ProducerDisconnected,
    /// The transport failed, or the endpoint could not serve.
    ConnectionError,
    /// The endpoint refused the credentials.
    NonRetryableServerResponse,
}

/// A frame to write to the connection.
#[derive(Debug, PartialEq, Eq)]
pub enum Frame {
    /// The fixed liveness signal.
    Keepalive(String),
    /// One snapshot of the watched file.
    Payload(String),
}

/// A frame as plain values.
pub enum FrameView {
    Keepalive(Seq<char>),
    Payload(Seq<char>),
}

impl View for Frame {
    type V = FrameView;

    open spec fn view(&self) -> FrameView {
        match self {
            Frame::Keepalive(text) => FrameView::Keepalive(text@),
            Frame::Payload(text) => FrameView::Payload(text@),
        }
    }
}

impl Frame {
    /// The text to put on the wire.
    pub fn text(&self) -> (text: &str)
        ensures
            text@ == match self@ {
                FrameView::Keepalive(t) => t,
                FrameView::Payload(t) => t,
            },
    {
        match self {
            Frame::Keepalive(text) => text.as_str(),
            Frame::Payload(text) => text.as_str(),
        }
    }
}

/// Where a session stands.
#[derive(Debug, PartialEq, Eq)]
pub enum Phase {
    /// The handshake has not been answered yet.
    Connecting,
    /// Connected, and waiting for a payload or for the heartbeat to fall due.
    Idle,
    /// Connected, a keepalive is on its way out; the payload that was taken
    /// from the queue while the heartbeat was overdue follows it.
    SendingKeepalive(Option<String>),
    /// Connected, a payload is on its way out.
    SendingPayload,
    /// Over.
    Closed(CloseReason),
}

/// A phase as plain values.
pub enum PhaseView {
    Connecting,
    Idle,
    SendingKeepalive(Option<Seq<char>>),
    SendingPayload,
    Closed(CloseReason),
}

impl PhaseView {
    /// Connected and not yet over.
    pub open spec fn is_active(self) -> bool {
        self is Idle || self is SendingKeepalive || self is SendingPayload
    }
}

impl View for Phase {
    type V = PhaseView;

    open spec fn view(&self) -> PhaseView {
        match self {
            Phase::Connecting => PhaseView::Connecting,
            Phase::Idle => PhaseView::Idle,
            Phase::SendingKeepalive(next) => PhaseView::SendingKeepalive(next.deep_view()),
            Phase::SendingPayload => PhaseView::SendingPayload,
            Phase::Closed(reason) => PhaseView::Closed(*reason),
        }
    }
}

impl Phase {
    /// Connected and not yet over.
    pub fn is_active(&self) -> (active: bool)
        ensures
            active == self@.is_active(),
    {
        match self {
            Phase::Idle | Phase::SendingKeepalive(_) | Phase::SendingPayload => true,
            Phase::Connecting | Phase::Closed(_) => false,
        }
    }
}

/// What the driver reports.
#[derive(Debug, PartialEq, Eq)]
pub enum Event {
    /// The endpoint answered the handshake with `status`, at `now`.
    Connected { status: u16, now: u64 },
    /// No connection could be made.
    ConnectFailed { error: String },
    /// The queue handed out `data`, at `now`.
    Payload { data: String, now: u64 },
    /// The wait on the queue ran out.
    Timeout,
    /// The queue is empty and its producer is gone.
    ProducerClosed,
    /// The frame last asked for went out, at `now`.
    Sent { now: u64 },
    /// The frame last asked for could not be written.
    SendFailed { error: String },
}

/// An event as plain values.
pub enum EventView {
    Connected { status: u16, now: u64 },
    ConnectFailed { error: Seq<char> },
    Payload { data: Seq<char>, now: u64 },
    Timeout,
    ProducerClosed,
    Sent { now: u64 },
    SendFailed { error: Seq<char> },
}

impl View for Event {
    type V = EventView;

    open spec fn view(&self) -> EventView {
        match self {
            Event::Connected { status, now } => EventView::Connected { status: *status, now: *now },
            Event::ConnectFailed { error } => EventView::ConnectFailed { error: error@ },
            Event::Payload { data, now } => EventView::Payload { data: data@, now: *now },
            Event::Timeout => EventView::Timeout,
            Event::ProducerClosed => EventView::ProducerClosed,
            Event::Sent { now } => EventView::Sent { now: *now },
            Event::SendFailed { error } => EventView::SendFailed { error: error@ },
        }
    }
}

/// What the driver is asked to do.
#[derive(Debug, PartialEq, Eq)]
pub enum Action {
    /// Show `status`, if there is one, then wait on the queue for at most
    /// `timeout` milliseconds.
    Wait { timeout: u64, status: Option<String> },
    /// Write the frame to the connection.
    Send(Frame),
    /// Drop the connection: the session is over, for `reason`; `message` says
    /// so to the operator.
    Finish { reason: CloseReason, message: String },
    /// Nothing: the event does not belong to the phase, and changed nothing.
    Ignored,
}

/// An action as plain values.
pub enum ActionView {
    Wait { timeout: u64, status: Option<Seq<char>> },
    Send(FrameView),
    Finish { reason: CloseReason, message: Seq<char> },
    Ignored,
}

impl View for Action {
    type V = ActionView;

    open spec fn view(&self) -> ActionView {
        match self {
            Action::Wait { timeout, status } => ActionView::Wait {
                timeout: *timeout,
                status: status.deep_view(),
            },
            Action::Send(frame) => ActionView::Send(frame@),
            Action::Finish { reason, message } => ActionView::Finish {
                reason: *reason,
                message: message@,
            },
            Action::Ignored => ActionView::Ignored,
        }
    }
}

/// One connection attempt.
#[derive(Debug, PartialEq, Eq)]
pub struct Session {
    phase: Phase,
    pinger: Pinger,
    counter: Counter,
}

/// A session as plain values.
pub struct SessionView {
    pub phase: PhaseView,
    pub pinger: PingerView,
    pub counter: CounterView,
}

impl View for Session {
    type V = SessionView;

    closed spec fn view(&self) -> SessionView {
        SessionView { phase: self.phase@, pinger: self.pinger@, counter: self.counter@ }
    }
}

/// The counter of a session that has sent nothing yet.
pub open spec fn zero_counter() -> CounterView {
    CounterView { prefix: COUNTER_PREFIX@, count: 0 }
}

/// A session before its handshake.
pub open spec fn fresh(interval: u64, keepalive: Seq<char>) -> SessionView {
    SessionView {
        phase: PhaseView::Connecting,
        pinger: PingerView { last: 0, interval, message: keepalive },
        counter: zero_counter(),
    }
}

impl SessionView {
    /// The session in another phase.
    pub open spec fn at(self, phase: PhaseView) -> SessionView {
        SessionView { phase, pinger: self.pinger, counter: self.counter }
    }

    /// The session after a frame went out at `now`.
    pub open spec fn with_send_at(self, now: u64) -> SessionView {
        SessionView {
            phase: self.phase,
            pinger: self.pinger.sent_at(now),
            counter: self.counter,
        }
    }

    /// Nothing happens.
    pub open spec fn ignore(self) -> (SessionView, ActionView) {
        (self, ActionView::Ignored)
    }

    /// The session ends.
    pub open spec fn close(self, reason: CloseReason, message: Seq<char>) -> (
        SessionView,
        ActionView,
    ) {
        (self.at(PhaseView::Closed(reason)), ActionView::Finish { reason, message })
    }

    /// A keepalive goes out; `next` is the payload that waits behind it.
    pub open spec fn send_keepalive(self, next: Option<Seq<char>>) -> (SessionView, ActionView) {
        (
            self.at(PhaseView::SendingKeepalive(next)),
            ActionView::Send(FrameView::Keepalive(self.pinger.message)),
        )
    }

    /// A payload goes out.
    pub open spec fn send_payload(self, data: Seq<char>) -> (SessionView, ActionView) {
        (self.at(PhaseView::SendingPayload), ActionView::Send(FrameView::Payload(data)))
    }

    /// Back to the queue, for as long as the heartbeat allows.
    pub open spec fn wait(self, now: u64, status: Option<Seq<char>>) -> (SessionView, ActionView) {
        (
            self.at(PhaseView::Idle),
            ActionView::Wait { timeout: self.pinger.remaining(now) as u64, status },
        )
    }

    /// The answer to a handshake response.
    pub open spec fn on_handshake(self, status: u16, now: u64) -> (SessionView, ActionView) {
        match class_of(status) {
            StatusClass::Accepted => {
                let opened = SessionView {
                    phase: self.phase,
                    pinger: self.pinger.sent_at(now),
                    counter: zero_counter(),
                };
                opened.wait(now, Some("\n"@ + opened.counter.line()))
            },
            StatusClass::ClientError => self.close(
                CloseReason::NonRetryableServerResponse,
                decimal(status as nat) + REFUSED_SUFFIX@,
            ),
            StatusClass::Other => self.close(
                CloseReason::ConnectionError,
                decimal(status as nat) + UNAVAILABLE_SUFFIX@,
            ),
        }
    }

    /// The answer to a payload from the queue: with the heartbeat overdue a
    /// keepalive goes first.
    pub open spec fn on_payload(self, data: Seq<char>, now: u64) -> (SessionView, ActionView) {
        if self.pinger.due(now) {
            self.send_keepalive(Some(data))
        } else {
            self.send_payload(data)
        }
    }

    /// The answer to a keepalive that went out.
    pub open spec fn on_keepalive_sent(self, next: Option<Seq<char>>, now: u64) -> (
        SessionView,
        ActionView,
    ) {
        match next {
            Some(data) => self.with_send_at(now).send_payload(data),
            None => self.with_send_at(now).wait(now, None),
        }
    }

    /// The answer to a payload that went out.
    pub open spec fn on_payload_sent(self, now: u64) -> (SessionView, ActionView) {
        let counted = SessionView {
            phase: self.phase,
            pinger: self.pinger.sent_at(now),
            counter: self.counter.ticked(),
        };
        counted.wait(now, Some(counted.counter.line()))
    }

    /// The next state and what to do, for every state and event.
    pub open spec fn step(self, event: EventView) -> (SessionView, ActionView) {
        match self.phase {
            PhaseView::Connecting => match event {
                EventView::Connected { status, now } => self.on_handshake(status, now),
                EventView::ConnectFailed { error } => self.close(
                    CloseReason::ConnectionError,
                    error,
                ),
                _ => self.ignore(),
            },
            PhaseView::Idle => match event {
                EventView::Payload { data, now } => self.on_payload(data, now),
                EventView::Timeout => self.send_keepalive(None),
                EventView::ProducerClosed => self.close(
                    CloseReason::ProducerDisconnected,
                    PRODUCER_GONE@,
                ),
                _ => self.ignore(),
            },
            PhaseView::SendingKeepalive(next) => match event {
                EventView::Sent { now } => self.on_keepalive_sent(next, now),
                EventView::SendFailed { error } => self.close(CloseReason::ConnectionError, error),
                _ => self.ignore(),
            },
            PhaseView::SendingPayload => match event {
                EventView::Sent { now } => self.on_payload_sent(now),
                EventView::SendFailed { error } => self.close(CloseReason::ConnectionError, error),
                _ => self.ignore(),
            },
            PhaseView::Closed(_) => self.ignore(),
        }
    }
}

impl Session {
    /// A session before its handshake. `interval` is the heartbeat interval
    /// in milliseconds, `keepalive` the text of a keepalive frame.
    pub fn new(interval: u64, keepalive: String) -> (s: Session)
        ensures
            s@ == fresh(interval, keepalive@),
    {
        Session {
            phase: Phase::Connecting,
            pinger: Pinger::new(interval, keepalive, 0),
            counter: Counter::new(COUNTER_PREFIX),
        }
    }

    /// Where the session stands.
    pub fn phase(&self) -> (phase: &Phase)
        ensures
            phase@ == self@.phase,
    {
        &self.phase
    }

    /// How many payloads have gone out.
    pub fn sent(&self) -> (n: u64)
        ensures
            n == self@.counter.count,
    {
        self.counter.count()
    }

    /// The heartbeat timer.
    pub fn pinger(&self) -> (pinger: &Pinger)
        ensures
            pinger@ == self@.pinger,
    {
        &self.pinger
    }

    fn closed(self, reason: CloseReason, message: String) -> (r: (Session, Action))
        ensures
            (r.0@, r.1@) == self@.close(reason, message@),
    {
        let Session { phase: _, pinger, counter } = self;
        (Session { phase: Phase::Closed(reason), pinger, counter }, Action::Finish { reason, message })
    }

    fn keepalive(self, next: Option<String>) -> (r: (Session, Action))
        ensures
            (r.0@, r.1@) == self@.send_keepalive(next.deep_view()),
    {
        let Session { phase: _, pinger, counter } = self;
        let frame = Frame::Keepalive(pinger.message());
        (Session { phase: Phase::SendingKeepalive(next), pinger, counter }, Action::Send(frame))
    }

    fn payload(self, data: String) -> (r: (Session, Action))
        ensures
            (r.0@, r.1@) == self@.send_payload(data@),
    {
        let Session { phase: _, pinger, counter } = self;
        (Session { phase: Phase::SendingPayload, pinger, counter }, Action::Send(Frame::Payload(data)))
    }

    fn waiting(self, now: u64, status: Option<String>) -> (r: (Session, Action))
        ensures
            (r.0@, r.1@) == self@.wait(now, status.deep_view()),
    {
        let Session { phase: _, pinger, counter } = self;
        let timeout = pinger.remaining(now);
        (Session { phase: Phase::Idle, pinger, counter }, Action::Wait { timeout, status })
    }

    fn handshake(self, status: u16, now: u64) -> (r: (Session, Action))
        ensures
            (r.0@, r.1@) == self@.on_handshake(status, now),
    {
        match classify(status) {
            StatusClass::Accepted => {
                let Session { phase, pinger, counter: _ } = self;
                let mut pinger = pinger;
                pinger.ping(now);
                let counter = Counter::new(COUNTER_PREFIX);
                let mut line = String::from_str("\n");
                line.append(counter.redraw().as_str());
                Session { phase, pinger, counter }.waiting(now, Some(line))
            },
            StatusClass::ClientError => {
                let mut message = decimal_string(status as u64);
                message.append(REFUSED_SUFFIX);
                self.closed(CloseReason::NonRetryableServerResponse, message)
            },
            StatusClass::Other => {
                let mut message = decimal_string(status as u64);
                message.append(UNAVAILABLE_SUFFIX);
                self.closed(CloseReason::ConnectionError, message)
            },
        }
    }

    fn keepalive_sent(self, next: Option<String>, now: u64) -> (r: (Session, Action))
        ensures
            (r.0@, r.1@) == self@.on_keepalive_sent(next.deep_view(), now),
    {
        let Session { phase, pinger, counter } = self;
        let mut pinger = pinger;
        pinger.ping(now);
        let sent = Session { phase, pinger, counter };
        match next {
            Some(data) => sent.payload(data),
            None => sent.waiting(now, None),
        }
    }

    fn payload_sent(self, now: u64) -> (r: (Session, Action))
        requires
            self@.counter.count < u64::MAX,
        ensures
            (r.0@, r.1@) == self@.on_payload_sent(now),
    {
        let Session { phase, pinger, counter } = self;
        let mut pinger = pinger;
        let mut counter = counter;
        pinger.ping(now);
        counter.tick();
        let line = counter.redraw();
        Session { phase, pinger, counter }.waiting(now, Some(line))
    }

    /// Takes one event and answers with the next state and what to do.
    pub fn step(self, event: Event) -> (r: (Session, Action))
        requires
            self@.counter.count < u64::MAX,
        ensures
            (r.0@, r.1@) == self@.step(event@),
    {
        let Session { phase, pinger, counter } = self;
        match phase {
            Phase::Connecting => {
                let s = Session { phase: Phase::Connecting, pinger, counter };
                match event {
                    Event::Connected { status, now } => s.handshake(status, now),
                    Event::ConnectFailed { error } => s.closed(CloseReason::ConnectionError, error),
                    _ => (s, Action::Ignored),
                }
            },
            Phase::Idle => {
                let s = Session { phase: Phase::Idle, pinger, counter };
                match event {
                    Event::Payload { data, now } => {
                        if s.pinger.is_due(now) {
                            s.keepalive(Some(data))
                        } else {
                            s.payload(data)
                        }
                    },
                    Event::Timeout => s.keepalive(None),
                    Event::ProducerClosed => s.closed(
                        CloseReason::ProducerDisconnected,
                        String::from_str(PRODUCER_GONE),
                    ),
                    _ => (s, Action::Ignored),
                }
            },
            Phase::SendingKeepalive(next) => {
                match event {
                    Event::Sent { now } => {
                        let s = Session { phase: Phase::SendingKeepalive(None), pinger, counter };
                        s.keepalive_sent(next, now)
                    },
                    Event::SendFailed { error } => {
                        let s = Session { phase: Phase::SendingKeepalive(next), pinger, counter };
                        s.closed(CloseReason::ConnectionError, error)
                    },
                    _ => (Session { phase: Phase::SendingKeepalive(next), pinger, counter }, Action::Ignored),
                }
            },
            Phase::SendingPayload => {
                let s = Session { phase: Phase::SendingPayload, pinger, counter };
                match event {
                    Event::Sent { now } => s.payload_sent(now),
                    Event::SendFailed { error } => s.closed(CloseReason::ConnectionError, error),
                    _ => (s, Action::Ignored),
                }
            },
            Phase::Closed(reason) => (Session { phase: Phase::Closed(reason), pinger, counter }, Action::Ignored),
        }
    }
}

} // verus!
