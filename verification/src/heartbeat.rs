//! The heartbeat timer: when the connection last carried a frame, and whether
//! a keepalive is due. Times are milliseconds on a clock that never runs
//! backwards; where it starts does not matter.

use vstd::prelude::*;

verus! {

/// The longest the connection may stay silent, in milliseconds.
pub const HEARTBEAT_INTERVAL_MS: u64 = 5000;

/// The text of a keepalive frame.
pub const KEEPALIVE: &'static str = "im alive";

/// Remembers the last send and tells when the next keepalive is due.
#[derive(Debug, PartialEq, Eq)]
pub struct Pinger {
    last_ping: u64,
    ping_interval: u64,
    ping_message: String,
}

/// A heartbeat timer as plain values.
pub struct PingerView {
    /// When the last frame went out.
    pub last: u64,
    /// The longest silence allowed.
    pub interval: u64,
    /// The text of a keepalive frame.
    pub message: Seq<char>,
}

impl PingerView {
    /// The time since the last send. A reading that lies before the last send
    /// counts as no time at all.
    pub open spec fn elapsed(self, now: u64) -> nat {
        if now >= self.last {
            (now - self.last) as nat
        } else {
            0
        }
    }

    /// Whether the connection has been silent for the whole interval.
    pub open spec fn due(self, now: u64) -> bool {
        self.elapsed(now) >= self.interval
    }

    /// How long the connection may stay silent from `now` on.
    pub open spec fn remaining(self, now: u64) -> nat {
        if self.due(now) {
            0
        } else {
            (self.interval - self.elapsed(now)) as nat
        }
    }

    /// The timer after a frame went out at `now`.
    pub open spec fn sent_at(self, now: u64) -> PingerView {
        PingerView { last: now, interval: self.interval, message: self.message }
    }
}

impl View for Pinger {
    type V = PingerView;

    closed spec fn view(&self) -> PingerView {
        PingerView {
            last: self.last_ping,
            interval: self.ping_interval,
            message: self.ping_message@,
        }
    }
}

impl Pinger {
    /// A timer that starts its first interval at `now`.
    pub fn new(ping_interval: u64, ping_message: String, now: u64) -> (p: Pinger)
        ensures
            p@ == (PingerView {
                last: now,
                interval: ping_interval,
                message: ping_message@,
            }),
    {
        Pinger { last_ping: now, ping_interval, ping_message }
    }

    /// The longest silence allowed, in milliseconds.
    pub fn interval(&self) -> (ms: u64)
        ensures
            ms == self@.interval,
    {
        self.ping_interval
    }

    /// When the last frame went out.
    pub fn last_ping(&self) -> (at: u64)
        ensures
            at == self@.last,
    {
        self.last_ping
    }

    /// A keepalive frame's text.
    pub fn message(&self) -> (text: String)
        ensures
            text@ == self@.message,
    {
        self.ping_message.clone()
    }

    /// Whether a keepalive has to go out before anything else.
    pub fn is_due(&self, now: u64) -> (due: bool)
        ensures
            due == self@.due(now),
    {
        self.remaining(now) == 0
    }

    /// How long to wait for a payload before a keepalive is due.
    pub fn remaining(&self, now: u64) -> (ms: u64)
        ensures
            ms == self@.remaining(now),
    {
        let elapsed = if now >= self.last_ping {
            now - self.last_ping
        } else {
            0
        };
        if elapsed >= self.ping_interval {
            0
        } else {
            self.ping_interval - elapsed
        }
    }

    /// Records that a frame went out at `now`.
    pub fn ping(&mut self, now: u64)
        ensures
            final(self)@ == old(self)@.sent_at(now),
    {
        self.last_ping = now;
    }
}

} // verus!
