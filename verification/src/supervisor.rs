//! The reconnect policy around the sessions: a failed attempt is repeated
//! after a pause, up to a limit; a refusal or the end of the input stops the
//! process. Like a session, the supervisor is told what happened and answers
//! what to do next.

use crate::session::{CloseReason, Frame, FrameView, Session, SessionView};
use vstd::prelude::*;
use vstd::string::*;

verus! {

/// How many failed attempts in a row are followed by another one.
pub const MAX_RETRIES: u32 = 10;

/// The pause before another attempt, in milliseconds.
pub const BACKOFF_MS: u64 = 5000;

/// The exit status of every way out.
pub const EXIT_FAILURE: i32 = 1;

/// What precedes the cause when another attempt is announced.
pub const RETRY_PREFIX: &'static str = "failed: ";

/// What follows the cause when another attempt is announced.
pub const RETRY_SUFFIX: &'static str = ", retrying in 5 seconds";

/// What is reported when the limit is reached.
pub const RETRIES_EXHAUSTED: &'static str = "failed 10 retries";

/// Why the supervisor gave up.
#[derive(Clone, Copy, Debug, PartialEq, Eq, Structural)]
pub enum Termination {
    /// Nothing is left to forward.
    ProducerDisconnected,
    /// The endpoint refused the credentials.
    NonRetryableServerResponse,
    /// Too many attempts failed in a row.
    RetriesExhausted,
}

/// Where the supervisor stands.
#[derive(Debug, PartialEq, Eq)]
pub enum Stage {
    /// Not started.
    Idle,
    /// An attempt is under way.
    Running(Session),
    /// Pausing before the next attempt.
    Backoff,
    /// Given up.
    Terminated(Termination),
}

/// A stage as plain values.
pub enum StageView {
    Idle,
    Running(SessionView),
    Backoff,
    Terminated(Termination),
}

impl View for Stage {
    type V = StageView;

    open spec fn view(&self) -> StageView {
        match self {
            Stage::Idle => StageView::Idle,
            Stage::Running(session) => StageView::Running(session@),
            Stage::Backoff => StageView::Backoff,
            Stage::Terminated(why) => StageView::Terminated(*why),
        }
    }
}

/// What the driver reports.
#[derive(Debug, PartialEq, Eq)]
pub enum Event {
    /// The process is ready to relay.
    Start,
    /// Something happened to the attempt under way.
    Session(crate::session::Event),
    /// The pause is over.
    BackoffElapsed,
}

/// An event as plain values.
pub enum EventView {
    Start,
    Session(crate::session::EventView),
    BackoffElapsed,
}

impl View for Event {
    type V = EventView;

    open spec fn view(&self) -> EventView {
        match self {
            Event::Start => EventView::Start,
            Event::Session(e) => EventView::Session(e@),
            Event::BackoffElapsed => EventView::BackoffElapsed,
        }
    }
}

/// What the driver is asked to do.
#[derive(Debug, PartialEq, Eq)]
pub enum Action {
    /// Connect to the endpoint and report the handshake.
    Connect,
    /// Show `status`, if there is one, then wait on the queue for at most
    /// `timeout` milliseconds.
    Wait { timeout: u64, status: Option<String> },
    /// Write the frame to the connection.
    Send(Frame),
    /// Drop the connection, report `message`, and pause for `duration`
    /// milliseconds.
    Sleep { duration: u64, message: String },
    /// Report `message` and leave the process with status `code`.
    Exit { code: i32, message: String },
    /// Nothing: the event does not belong to the stage, and changed nothing.
    Ignored,
}

/// An action as plain values.
pub enum ActionView {
    Connect,
    Wait { timeout: u64, status: Option<Seq<char>> },
    Send(FrameView),
    Sleep { duration: u64, message: Seq<char> },
    Exit { code: i32, message: Seq<char> },
    Ignored,
}

impl View for Action {
    type V = ActionView;

    open spec fn view(&self) -> ActionView {
        match self {
            Action::Connect => ActionView::Connect,
            Action::Wait { timeout, status } => ActionView::Wait {
                timeout: *timeout,
                status: status.deep_view(),
            },
            Action::Send(frame) => ActionView::Send(frame@),
            Action::Sleep { duration, message } => ActionView::Sleep {
                duration: *duration,
                message: message@,
            },
            Action::Exit { code, message } => ActionView::Exit { code: *code, message: message@ },
            Action::Ignored => ActionView::Ignored,
        }
    }
}

/// The reconnect policy and the attempt it is running.
#[derive(Debug, PartialEq, Eq)]
pub struct Supervisor {
    stage: Stage,
    retries: u32,
    interval: u64,
    keepalive: String,
}

/// A supervisor as plain values.
pub struct SupervisorView {
    pub stage: StageView,
    /// Failed attempts in a row, with no frame sent since.
    pub retries: nat,
    /// The heartbeat interval of every session, in milliseconds.
    pub interval: u64,
    /// The keepalive text of every session.
    pub keepalive: Seq<char>,
}

impl View for Supervisor {
    type V = SupervisorView;

    closed spec fn view(&self) -> SupervisorView {
        SupervisorView {
            stage: self.stage@,
            retries: self.retries as nat,
            interval: self.interval,
            keepalive: self.keepalive@,
        }
    }
}

/// The line that announces another attempt.
pub open spec fn retry_notice(cause: Seq<char>) -> Seq<char> {
    RETRY_PREFIX@ + cause + RETRY_SUFFIX@
}

/// The reason to give up that corresponds to the end of a session which is not
/// followed by another attempt.
pub open spec fn termination_of(reason: CloseReason) -> Termination {
    match reason {
        CloseReason::ProducerDisconnected => Termination::ProducerDisconnected,
        CloseReason::NonRetryableServerResponse => Termination::NonRetryableServerResponse,
        CloseReason::ConnectionError => Termination::RetriesExhausted,
    }
}

impl SupervisorView {
    /// A supervisor that has not started.
    pub open spec fn initial(interval: u64, keepalive: Seq<char>) -> SupervisorView {
        SupervisorView { stage: StageView::Idle, retries: 0, interval, keepalive }
    }

    /// The supervisor in another stage.
    pub open spec fn at(self, stage: StageView) -> SupervisorView {
        SupervisorView {
            stage,
            retries: self.retries,
            interval: self.interval,
            keepalive: self.keepalive,
        }
    }

    /// The supervisor with another count of failures.
    pub open spec fn with_retries(self, retries: nat) -> SupervisorView {
        SupervisorView {
            stage: self.stage,
            retries,
            interval: self.interval,
            keepalive: self.keepalive,
        }
    }

    /// Nothing happens.
    pub open spec fn ignore(self) -> (SupervisorView, ActionView) {
        (self, ActionView::Ignored)
    }

    /// A new attempt begins.
    pub open spec fn attempt(self) -> (SupervisorView, ActionView) {
        (
            self.at(StageView::Running(crate::session::fresh(self.interval, self.keepalive))),
            ActionView::Connect,
        )
    }

    /// The supervisor gives up.
    pub open spec fn terminate(self, why: Termination, message: Seq<char>) -> (
        SupervisorView,
        ActionView,
    ) {
        (self.at(StageView::Terminated(why)), ActionView::Exit { code: EXIT_FAILURE, message })
    }

    /// The answer to the end of a session. A connection error is followed by
    /// a pause and another attempt while the limit allows; everything else,
    /// and a connection error at the limit, ends the process.
    pub open spec fn on_finish(self, reason: CloseReason, message: Seq<char>) -> (
        SupervisorView,
        ActionView,
    ) {
        match reason {
            CloseReason::ConnectionError => {
                if self.retries < MAX_RETRIES {
                    (
                        self.at(StageView::Backoff).with_retries(self.retries + 1),
                        ActionView::Sleep { duration: BACKOFF_MS, message: retry_notice(message) },
                    )
                } else {
                    self.terminate(Termination::RetriesExhausted, RETRIES_EXHAUSTED@)
                }
            },
            _ => self.terminate(termination_of(reason), message),
        }
    }

    /// The answer to an event that concerns the session under way. A frame
    /// that went out clears the count of failures.
    pub open spec fn on_session(self, session: SessionView, event: crate::session::EventView) -> (
        SupervisorView,
        ActionView,
    ) {
        let (next, action) = session.step(event);
        let retries = if event is Sent && !(action is Ignored) {
            0
        } else {
            self.retries
        };
        let me = self.at(StageView::Running(next)).with_retries(retries);
        match action {
            crate::session::ActionView::Wait { timeout, status } => (
                me,
                ActionView::Wait { timeout, status },
            ),
            crate::session::ActionView::Send(frame) => (me, ActionView::Send(frame)),
            crate::session::ActionView::Finish { reason, message } => me.on_finish(reason, message),
            crate::session::ActionView::Ignored => self.ignore(),
        }
    }

    /// The next state and what to do, for every state and event.
    pub open spec fn step(self, event: EventView) -> (SupervisorView, ActionView) {
        match self.stage {
            StageView::Idle => match event {
                EventView::Start => self.attempt(),
                _ => self.ignore(),
            },
            StageView::Running(session) => match event {
                EventView::Session(e) => self.on_session(session, e),
                _ => self.ignore(),
            },
            StageView::Backoff => match event {
                EventView::BackoffElapsed => self.attempt(),
                _ => self.ignore(),
            },
            StageView::Terminated(_) => self.ignore(),
        }
    }

    /// Whether the sent-message counter of the session under way, if there is
    /// one, can still count.
    pub open spec fn can_count(self) -> bool {
        self.stage matches StageView::Running(session) ==> session.counter.count < u64::MAX
    }
}

impl Supervisor {
    /// A supervisor that has not started. `interval` is the heartbeat interval
    /// in milliseconds, `keepalive` the text of a keepalive frame.
    pub fn new(interval: u64, keepalive: String) -> (s: Supervisor)
        ensures
            s@ == SupervisorView::initial(interval, keepalive@),
    {
        Supervisor { stage: Stage::Idle, retries: 0, interval, keepalive }
    }

    /// Where the supervisor stands.
    pub fn stage(&self) -> (stage: &Stage)
        ensures
            stage@ == self@.stage,
    {
        &self.stage
    }

    /// Failed attempts in a row, with no frame sent since.
    pub fn retries(&self) -> (n: u32)
        ensures
            n == self@.retries,
    {
        self.retries
    }

    /// Whether [`Supervisor::step`] may be called: the sent-message counter
    /// of the session under way has not reached the end of its range.
    pub fn can_count(&self) -> (ok: bool)
        ensures
            ok == self@.can_count(),
    {
        match &self.stage {
            Stage::Running(session) => session.sent() < u64::MAX,
            _ => true,
        }
    }

    fn attempt(self) -> (r: (Supervisor, Action))
        ensures
            (r.0@, r.1@) == self@.attempt(),
    {
        let Supervisor { stage: _, retries, interval, keepalive } = self;
        let session = Session::new(interval, keepalive.clone());
        (Supervisor { stage: Stage::Running(session), retries, interval, keepalive }, Action::Connect)
    }

    fn terminate(self, why: Termination, message: String) -> (r: (Supervisor, Action))
        ensures
            (r.0@, r.1@) == self@.terminate(why, message@),
    {
        let Supervisor { stage: _, retries, interval, keepalive } = self;
        (
            Supervisor { stage: Stage::Terminated(why), retries, interval, keepalive },
            Action::Exit { code: EXIT_FAILURE, message },
        )
    }

    fn finish(self, reason: CloseReason, message: String) -> (r: (Supervisor, Action))
        ensures
            (r.0@, r.1@) == self@.on_finish(reason, message@),
    {
        match reason {
            CloseReason::ConnectionError => {
                if self.retries < MAX_RETRIES {
                    let Supervisor { stage: _, retries, interval, keepalive } = self;
                    let mut notice = String::from_str(RETRY_PREFIX);
                    notice.append(message.as_str());
                    notice.append(RETRY_SUFFIX);
                    (
                        Supervisor { stage: Stage::Backoff, retries: retries + 1, interval, keepalive },
                        Action::Sleep { duration: BACKOFF_MS, message: notice },
                    )
                } else {
                    self.terminate(Termination::RetriesExhausted, String::from_str(RETRIES_EXHAUSTED))
                }
            },
            CloseReason::ProducerDisconnected => self.terminate(
                Termination::ProducerDisconnected,
                message,
            ),
            CloseReason::NonRetryableServerResponse => self.terminate(
                Termination::NonRetryableServerResponse,
                message,
            ),
        }
    }

    /// Takes one event and answers with the next state and what to do.
    pub fn step(self, event: Event) -> (r: (Supervisor, Action))
        requires
            self@.can_count(),
        ensures
            (r.0@, r.1@) == self@.step(event@),
    {
        let Supervisor { stage, retries, interval, keepalive } = self;
        match stage {
            Stage::Idle => {
                let me = Supervisor { stage: Stage::Idle, retries, interval, keepalive };
                match event {
                    Event::Start => me.attempt(),
                    _ => (me, Action::Ignored),
                }
            },
            Stage::Backoff => {
                let me = Supervisor { stage: Stage::Backoff, retries, interval, keepalive };
                match event {
                    Event::BackoffElapsed => me.attempt(),
                    _ => (me, Action::Ignored),
                }
            },
            Stage::Terminated(why) => (
                Supervisor { stage: Stage::Terminated(why), retries, interval, keepalive },
                Action::Ignored,
            ),
            Stage::Running(session) => {
                match event {
                    Event::Session(e) => {
                        let sent = match e {
                            crate::session::Event::Sent { now: _ } => true,
                            _ => false,
                        };
                        let (next, action) = session.step(e);
                        match action {
                            crate::session::Action::Ignored => (
                                Supervisor { stage: Stage::Running(next), retries, interval, keepalive },
                                Action::Ignored,
                            ),
                            crate::session::Action::Wait { timeout, status } => {
                                let retries = if sent {
                                    0
                                } else {
                                    retries
                                };
                                (
                                    Supervisor { stage: Stage::Running(next), retries, interval, keepalive },
                                    Action::Wait { timeout, status },
                                )
                            },
                            crate::session::Action::Send(frame) => {
                                let retries = if sent {
                                    0
                                } else {
                                    retries
                                };
                                (
                                    Supervisor { stage: Stage::Running(next), retries, interval, keepalive },
                                    Action::Send(frame),
                                )
                            },
                            crate::session::Action::Finish { reason, message } => {
                                let retries = if sent {
                                    0
                                } else {
                                    retries
                                };
                                Supervisor {
                                    stage: Stage::Running(next),
                                    retries,
                                    interval,
                                    keepalive,
                                }.finish(reason, message)
                            },
                        }
                    },
                    _ => (
                        Supervisor { stage: Stage::Running(session), retries, interval, keepalive },
                        Action::Ignored,
                    ),
                }
            },
        }
    }
}

} // verus!
