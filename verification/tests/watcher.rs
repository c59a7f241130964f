use wand_relay::watcher::{
    Observation, Reaction, Strategy, Trigger, Verdict, Watcher, POLL_INTERVAL_MS,
};

fn content(s: &str) -> Observation {
    Observation::Content(s.to_string())
}

fn forward(s: &str) -> Verdict {
    Verdict::Forward(s.to_string())
}

#[test]
fn event_driven_watcher_reads_on_close_after_write_only() {
    let w = Watcher::event_driven();
    assert_eq!(w.strategy(), Strategy::EventDriven);
    assert_eq!(w.react(Trigger::CloseWrite), Reaction::Read);
    assert_eq!(w.react(Trigger::OtherEvent), Reaction::Nothing);
    assert_eq!(w.react(Trigger::Tick), Reaction::Nothing);
    assert_eq!(w.react(Trigger::Removed), Reaction::GiveUp);
}

#[test]
fn polling_watcher_reads_on_every_tick_only() {
    let w = Watcher::polling(None);
    assert_eq!(w.strategy(), Strategy::Polling);
    assert_eq!(POLL_INTERVAL_MS, 1000);
    assert_eq!(w.react(Trigger::Tick), Reaction::Read);
    assert_eq!(w.react(Trigger::CloseWrite), Reaction::Nothing);
    assert_eq!(w.react(Trigger::OtherEvent), Reaction::Nothing);
    assert_eq!(w.react(Trigger::Removed), Reaction::GiveUp);
}

#[test]
fn changes_are_handed_on_in_order() {
    let mut w = Watcher::polling(Some("C0".to_string()));
    assert_eq!(w.observe(content("C1")), forward("C1"));
    assert_eq!(w.observe(content("C2")), forward("C2"));
    assert_eq!(w.observe(content("C1")), forward("C1"));
    assert_eq!(w.observe(content("C3")), forward("C3"));
}

#[test]
fn polling_hands_on_nothing_for_unchanged_contents() {
    let mut w = Watcher::polling(Some("C0".to_string()));
    assert_eq!(w.observe(content("C0")), Verdict::Skip);
    assert_eq!(w.observe(content("C1")), forward("C1"));
    assert_eq!(w.observe(content("C1")), Verdict::Skip);
    assert_eq!(w.observe(content("C1")), Verdict::Skip);
    assert_eq!(w.observe(content("C2")), forward("C2"));
}

#[test]
fn polling_from_an_unreadable_start_hands_on_the_first_contents() {
    let mut w = Watcher::polling(None);
    assert_eq!(w.observe(Observation::Unreadable), Verdict::Skip);
    assert_eq!(w.observe(content("")), forward(""));
    assert_eq!(w.observe(content("")), Verdict::Skip);
}

#[test]
fn a_failed_reading_changes_nothing() {
    let mut w = Watcher::polling(Some("C0".to_string()));
    assert_eq!(w.observe(content("C1")), forward("C1"));
    assert_eq!(w.observe(Observation::Unreadable), Verdict::Skip);
    assert_eq!(w.observe(content("C1")), Verdict::Skip);
    assert_eq!(w.observe(content("C2")), forward("C2"));
    assert!(!w.is_closed());
}

#[test]
fn event_driven_watcher_hands_on_every_reading() {
    let mut w = Watcher::event_driven();
    assert_eq!(w.observe(content("C1")), forward("C1"));
    assert_eq!(w.observe(content("C1")), forward("C1"));
    assert_eq!(w.observe(Observation::Unreadable), Verdict::Skip);
    assert_eq!(w.observe(content("C2")), forward("C2"));
}

#[test]
fn a_file_that_is_gone_closes_the_watcher() {
    let mut w = Watcher::event_driven();
    assert_eq!(w.observe(content("C1")), forward("C1"));
    assert_eq!(w.observe(Observation::Gone), Verdict::Close);
    assert!(w.is_closed());
    assert_eq!(w.react(Trigger::CloseWrite), Reaction::Nothing);
    assert_eq!(w.react(Trigger::Removed), Reaction::Nothing);
    assert_eq!(w.observe(content("C2")), Verdict::Close);
    assert_eq!(w.observe(Observation::Unreadable), Verdict::Close);
    let mut p = Watcher::polling(Some("C0".to_string()));
    assert_eq!(p.observe(Observation::Gone), Verdict::Close);
    assert_eq!(p.react(Trigger::Tick), Reaction::Nothing);
    assert_eq!(p.observe(content("C1")), Verdict::Close);
}
