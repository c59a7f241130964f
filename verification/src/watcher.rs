//! The change watcher's decisions: which notification calls for reading the
//! file, and which reading is handed on as a payload. Reading the file and
//! listening to the file system are left to the driver.

use vstd::prelude::*;

verus! {

/// How the watcher learns of changes.
#[derive(Clone, Copy, Debug, PartialEq, Eq, Structural)]
pub enum Strategy {
    /// The file system tells when a write to the file has been completed.
    EventDriven,
    /// The file is read at a fixed interval.
    Polling,
}

/// The time between two readings under [`Strategy::Polling`], in milliseconds.
pub const POLL_INTERVAL_MS: u64 = 1000;

/// What prompts the watcher.
#[derive(Clone, Copy, Debug, PartialEq, Eq, Structural)]
pub enum Trigger {
    /// The file was closed after being written to.
    CloseWrite,
    /// The file was removed, and with it the means to hear of it again.
    Removed,
    /// Any other notification about the file, or a failed one.
    OtherEvent,
    /// The polling interval has passed.
    Tick,
}

/// Whether `trigger` calls for reading the file under `strategy`.
pub open spec fn qualifies(strategy: Strategy, trigger: Trigger) -> bool {
    match strategy {
        Strategy::EventDriven => trigger == Trigger::CloseWrite,
        Strategy::Polling => trigger == Trigger::Tick,
    }
}

/// What a trigger calls for.
#[derive(Clone, Copy, Debug, PartialEq, Eq, Structural)]
pub enum Reaction {
    /// Read the file and have the reading judged.
    Read,
    /// Have [`Observation::Gone`] judged: the file will not be heard of again.
    GiveUp,
    /// Nothing.
    Nothing,
}

/// What an attempt to read the file gave.
#[derive(Debug, PartialEq, Eq)]
pub enum Observation {
    /// The file's full contents.
    Content(String),
    /// The file could not be read this time.
    Unreadable,
    /// The file is gone for good.
    Gone,
}

/// An observation as plain values.
pub enum ObservationView {
    Content(Seq<char>),
    Unreadable,
    Gone,
}

impl View for Observation {
    type V = ObservationView;

    open spec fn view(&self) -> ObservationView {
        match self {
            Observation::Content(text) => ObservationView::Content(text@),
            Observation::Unreadable => ObservationView::Unreadable,
            Observation::Gone => ObservationView::Gone,
        }
    }
}

/// What to do with an observation.
#[derive(Debug, PartialEq, Eq)]
pub enum Verdict {
    /// Put this payload on the queue.
    Forward(String),
    /// Nothing to hand on.
    Skip,
    /// Close the queue: nothing will follow.
    Close,
}

/// A verdict as plain values.
pub enum VerdictView {
    Forward(Seq<char>),
    Skip,
    Close,
}

impl View for Verdict {
    type V = VerdictView;

    open spec fn view(&self) -> VerdictView {
        match self {
            Verdict::Forward(text) => VerdictView::Forward(text@),
            Verdict::Skip => VerdictView::Skip,
            Verdict::Close => VerdictView::Close,
        }
    }
}

/// The watcher of one file.
#[derive(Debug, PartialEq, Eq)]
pub struct Watcher {
    strategy: Strategy,
    last: Option<String>,
    closed: bool,
}

/// A watcher as plain values.
pub struct WatcherView {
    pub strategy: Strategy,
    /// The contents last seen: what the file held when watching began, or
    /// what was last handed on. `None` where nothing has been seen.
    pub last: Option<Seq<char>>,
    /// Whether the watcher has given up the file.
    pub closed: bool,
}

impl WatcherView {
    /// The watcher after it has seen `text`.
    pub open spec fn seen(self, text: Seq<char>) -> WatcherView {
        WatcherView { strategy: self.strategy, last: Some(text), closed: self.closed }
    }

    /// The watcher after it gave up the file.
    pub open spec fn shut(self) -> WatcherView {
        WatcherView { strategy: self.strategy, last: self.last, closed: true }
    }

    /// Whether `text` is handed on: always when the file system reported a
    /// completed write, and when polling only if it differs from what was
    /// last seen.
    pub open spec fn forwards(self, text: Seq<char>) -> bool {
        self.strategy == Strategy::EventDriven || self.last != Some(text)
    }

    /// What `trigger` calls for. A watcher that has given up the file reacts
    /// to nothing.
    pub open spec fn reaction(self, trigger: Trigger) -> Reaction {
        if self.closed {
            Reaction::Nothing
        } else if trigger == Trigger::Removed {
            Reaction::GiveUp
        } else if qualifies(self.strategy, trigger) {
            Reaction::Read
        } else {
            Reaction::Nothing
        }
    }

    /// The verdict on an observation, and the watcher after it.
    pub open spec fn observe(self, observation: ObservationView) -> (WatcherView, VerdictView) {
        if self.closed {
            (self, VerdictView::Close)
        } else {
            match observation {
                ObservationView::Gone => (self.shut(), VerdictView::Close),
                ObservationView::Unreadable => (self, VerdictView::Skip),
                ObservationView::Content(text) => if self.forwards(text) {
                    (self.seen(text), VerdictView::Forward(text))
                } else {
                    (self, VerdictView::Skip)
                },
            }
        }
    }
}

impl View for Watcher {
    type V = WatcherView;

    closed spec fn view(&self) -> WatcherView {
        WatcherView { strategy: self.strategy, last: self.last.deep_view(), closed: self.closed }
    }
}

impl Watcher {
    /// A watcher that relies on the file system's notifications. Nothing is
    /// handed on before the first of them.
    pub fn event_driven() -> (w: Watcher)
        ensures
            w@ == (WatcherView { strategy: Strategy::EventDriven, last: None, closed: false }),
    {
        Watcher { strategy: Strategy::EventDriven, last: None, closed: false }
    }

    /// A watcher that polls. `initial` is what the file holds when watching
    /// begins, `None` where it cannot be read; it is not handed on.
    pub fn polling(initial: Option<String>) -> (w: Watcher)
        ensures
            w@ == (WatcherView {
                strategy: Strategy::Polling,
                last: initial.deep_view(),
                closed: false,
            }),
    {
        Watcher { strategy: Strategy::Polling, last: initial, closed: false }
    }

    /// How the watcher learns of changes.
    pub fn strategy(&self) -> (strategy: Strategy)
        ensures
            strategy == self@.strategy,
    {
        self.strategy
    }

    /// Whether the watcher has given up the file.
    pub fn is_closed(&self) -> (closed: bool)
        ensures
            closed == self@.closed,
    {
        self.closed
    }

    /// Decides what to do about `trigger`.
    pub fn react(&self, trigger: Trigger) -> (reaction: Reaction)
        ensures
            reaction == self@.reaction(trigger),
    {
        if self.closed {
            return Reaction::Nothing;
        }
        match trigger {
            Trigger::Removed => Reaction::GiveUp,
            Trigger::CloseWrite => match self.strategy {
                Strategy::EventDriven => Reaction::Read,
                Strategy::Polling => Reaction::Nothing,
            },
            Trigger::Tick => match self.strategy {
                Strategy::EventDriven => Reaction::Nothing,
                Strategy::Polling => Reaction::Read,
            },
            Trigger::OtherEvent => Reaction::Nothing,
        }
    }

    fn same_as_last(&self, text: &String) -> (same: bool)
        ensures
            same == (self@.last == Some(text@)),
    {
        match &self.last {
            Some(last) => *last == *text,
            None => false,
        }
    }

    /// Decides what to do with one reading of the file.
    pub fn observe(&mut self, observation: Observation) -> (verdict: Verdict)
        ensures
            (final(self)@, verdict@) == old(self)@.observe(observation@),
    {
        if self.closed {
            return Verdict::Close;
        }
        match observation {
            Observation::Gone => {
                self.closed = true;
                Verdict::Close
            },
            Observation::Unreadable => Verdict::Skip,
            Observation::Content(text) => {
                let forward = match self.strategy {
                    Strategy::EventDriven => true,
                    Strategy::Polling => !self.same_as_last(&text),
                };
                if forward {
                    self.last = Some(text.clone());
                    Verdict::Forward(text)
                } else {
                    Verdict::Skip
                }
            },
        }
    }
}

impl WatcherView {
    /// The watcher after a series of observations.
    pub open spec fn after(self, observations: Seq<ObservationView>) -> WatcherView
        decreases observations.len(),
    {
        if observations.len() == 0 {
            self
        } else {
            self.after(observations.drop_last()).observe(observations.last()).0
        }
    }

    /// The payloads handed on over a series of observations, in order.
    pub open spec fn forwarded(self, observations: Seq<ObservationView>) -> Seq<Seq<char>>
        decreases observations.len(),
    {
        if observations.len() == 0 {
            Seq::empty()
        } else {
            let before = self.forwarded(observations.drop_last());
            match self.after(observations.drop_last()).observe(observations.last()).1 {
                VerdictView::Forward(text) => before.push(text),
                _ => before,
            }
        }
    }
}

/// One successful reading for each of `contents`.
pub open spec fn readings(contents: Seq<Seq<char>>) -> Seq<ObservationView> {
    Seq::new(contents.len(), |i: int| ObservationView::Content(contents[i]))
}

/// Each of `contents` differs from the one before it, the first from `last`.
pub open spec fn each_differs(last: Option<Seq<char>>, contents: Seq<Seq<char>>) -> bool {
    &&& contents.len() > 0 ==> last != Some(contents[0])
    &&& forall|i: int| 0 < i < contents.len() ==> (#[trigger] contents[i]) != contents[i - 1]
}

/// A watcher that sees the file's contents change, each state differing from
/// the one before, hands on every one of them, once and in order.
pub proof fn changes_are_forwarded_in_order(w: WatcherView, contents: Seq<Seq<char>>)
    requires
        !w.closed,
        each_differs(w.last, contents),
    ensures
        w.forwarded(readings(contents)) == contents,
        !w.after(readings(contents)).closed,
        contents.len() > 0 ==> w.after(readings(contents)).last == Some(contents.last()),
        contents.len() == 0 ==> w.after(readings(contents)) == w,
        w.after(readings(contents)).strategy == w.strategy,
    decreases contents.len(),
{
    let obs = readings(contents);
    if contents.len() == 0 {
        assert(w.forwarded(obs) =~= contents);
    } else {
        let earlier = contents.drop_last();
        assert(obs.drop_last() =~= readings(earlier));
        assert(each_differs(w.last, earlier)) by {
            assert forall|i: int| 0 < i < earlier.len() implies (#[trigger] earlier[i]) != earlier[i - 1] by {
                assert(contents[i] != contents[i - 1]);
            }
        }
        changes_are_forwarded_in_order(w, earlier);
        let mid = w.after(readings(earlier));
        assert(obs.last() == ObservationView::Content(contents.last()));
        if earlier.len() > 0 {
            assert(contents[contents.len() - 1] != contents[contents.len() - 2]);
            assert(earlier.last() == contents[contents.len() - 2]);
        }
        assert(mid.forwards(contents.last()));
        assert(w.forwarded(obs) =~= contents);
    }
}

/// Under [`Strategy::EventDriven`] every reading is handed on, whether or not
/// the contents changed.
pub proof fn every_completed_write_is_forwarded(w: WatcherView, contents: Seq<Seq<char>>)
    requires
        !w.closed,
        w.strategy == Strategy::EventDriven,
    ensures
        w.forwarded(readings(contents)) == contents,
        !w.after(readings(contents)).closed,
        w.after(readings(contents)).strategy == Strategy::EventDriven,
    decreases contents.len(),
{
    let obs = readings(contents);
    if contents.len() == 0 {
        assert(w.forwarded(obs) =~= contents);
    } else {
        let earlier = contents.drop_last();
        assert(obs.drop_last() =~= readings(earlier));
        every_completed_write_is_forwarded(w, earlier);
        assert(obs.last() == ObservationView::Content(contents.last()));
        assert(w.forwarded(obs) =~= contents);
    }
}

/// A series of observations in two parts: the second part is judged by the
/// watcher that the first part left.
pub proof fn observations_compose(
    w: WatcherView,
    first: Seq<ObservationView>,
    second: Seq<ObservationView>,
)
    ensures
        w.after(first + second) == w.after(first).after(second),
        w.forwarded(first + second) == w.forwarded(first) + w.after(first).forwarded(second),
    decreases second.len(),
{
    if second.len() == 0 {
        assert(first + second =~= first);
        assert(w.forwarded(first) + w.after(first).forwarded(second) =~= w.forwarded(first));
    } else {
        assert((first + second).drop_last() =~= first + second.drop_last());
        assert((first + second).last() == second.last());
        observations_compose(w, first, second.drop_last());
        let mid = w.after(first).after(second.drop_last());
        match mid.observe(second.last()).1 {
            VerdictView::Forward(text) => {
                assert(w.forwarded(first + second) =~= w.forwarded(first) + w.after(
                    first,
                ).forwarded(second));
            },
            _ => {},
        }
    }
}

/// The moment of a reading does not matter to a polling watcher: a reading
/// that fails, and a second reading of contents just seen, leave what is
/// handed on as it would be without them, whatever comes before and after.
pub proof fn polling_ignores_jitter(
    w: WatcherView,
    before: Seq<ObservationView>,
    text: Seq<char>,
    after: Seq<ObservationView>,
)
    requires
        w.strategy == Strategy::Polling,
    ensures
        w.forwarded(before + seq![ObservationView::Unreadable] + after) == w.forwarded(
            before + after,
        ),
        w.forwarded(
            before + seq![ObservationView::Content(text), ObservationView::Content(text)] + after,
        ) == w.forwarded(before + seq![ObservationView::Content(text)] + after),
{
    let mid = w.after(before);
    let failed = seq![ObservationView::Unreadable];
    let once = seq![ObservationView::Content(text)];
    let twice = seq![ObservationView::Content(text), ObservationView::Content(text)];
    strategy_is_kept(w, before);

    single_observation(mid, ObservationView::Unreadable);
    single_observation(mid, ObservationView::Content(text));
    single_observation(mid.after(once), ObservationView::Content(text));
    assert(twice =~= once + once);
    observations_compose(mid, once, once);
    assert(mid.after(twice) == mid.after(once));
    assert(mid.forwarded(twice) =~= mid.forwarded(once));

    observations_compose(w, before, failed);
    observations_compose(w, before + failed, after);
    observations_compose(w, before, after);
    assert(w.forwarded(before + failed) =~= w.forwarded(before));

    observations_compose(w, before, once);
    observations_compose(w, before, twice);
    observations_compose(w, before + once, after);
    observations_compose(w, before + twice, after);
}

/// A series of one observation is that observation's verdict.
pub proof fn single_observation(w: WatcherView, observation: ObservationView)
    ensures
        w.after(seq![observation]) == w.observe(observation).0,
        w.forwarded(seq![observation]) == match w.observe(observation).1 {
            VerdictView::Forward(text) => seq![text],
            _ => Seq::<Seq<char>>::empty(),
        },
{
    let one = seq![observation];
    assert(one.drop_last() =~= Seq::<ObservationView>::empty());
    assert(one.last() == observation);
    assert(w.after(one.drop_last()) == w);
    assert(w.forwarded(one.drop_last()) =~= Seq::<Seq<char>>::empty());
    match w.observe(observation).1 {
        VerdictView::Forward(text) => {
            assert(w.forwarded(one) =~= seq![text]);
        },
        _ => {},
    }
}

/// A watcher keeps its strategy.
pub proof fn strategy_is_kept(w: WatcherView, observations: Seq<ObservationView>)
    ensures
        w.after(observations).strategy == w.strategy,
    decreases observations.len(),
{
    if observations.len() > 0 {
        strategy_is_kept(w, observations.drop_last());
    }
}

} // verus!
