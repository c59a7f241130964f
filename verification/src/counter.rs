//! The count of application messages a session has sent, and the line that
//! shows it to the operator.

use crate::text::{decimal, decimal_string};
use vstd::prelude::*;
use vstd::string::*;

verus! {

/// The control sequence that moves the cursor to the start of the line above,
/// so that each redraw overwrites the one before.
pub const CURSOR_UP: &'static str = "\x1b[F";

/// Counts sent messages under a fixed label.
#[derive(Debug, PartialEq, Eq)]
pub struct Counter {
    prefix: String,
    count: u64,
}

/// A counter as its label and its number.
pub struct CounterView {
    pub prefix: Seq<char>,
    pub count: nat,
}

impl CounterView {
    /// The line that shows the counter: cursor up, the label, the number.
    pub open spec fn line(self) -> Seq<char> {
        CURSOR_UP@ + self.prefix + decimal(self.count)
    }

    /// The counter one message later.
    pub open spec fn ticked(self) -> CounterView {
        CounterView { prefix: self.prefix, count: self.count + 1 }
    }
}

impl View for Counter {
    type V = CounterView;

    closed spec fn view(&self) -> CounterView {
        CounterView { prefix: self.prefix@, count: self.count as nat }
    }
}

impl Counter {
    /// A counter at zero.
    pub fn new(prefix: &str) -> (c: Counter)
        ensures
            c@ == (CounterView { prefix: prefix@, count: 0 }),
    {
        Counter { prefix: prefix.to_owned(), count: 0 }
    }

    /// How many messages have been counted.
    pub fn count(&self) -> (n: u64)
        ensures
            n == self@.count,
    {
        self.count
    }

    /// The line to draw.
    pub fn redraw(&self) -> (line: String)
        ensures
            line@ == self@.line(),
    {
        let mut line = String::from_str(CURSOR_UP);
        line.append(self.prefix.as_str());
        let digits = decimal_string(self.count);
        line.append(digits.as_str());
        line
    }

    /// Counts one more message.
    pub fn tick(&mut self)
        requires
            old(self)@.count < u64::MAX,
        ensures
            final(self)@ == old(self)@.ticked(),
    {
        self.count = self.count + 1;
    }
}

} // verus!
