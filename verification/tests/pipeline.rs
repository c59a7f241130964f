use wand_relay::queue::{Dequeued, Queue};
use wand_relay::session::{Event as SessionEvent, Frame};
use wand_relay::supervisor::{Action, Event, Stage, Supervisor};
use wand_relay::watcher::{Observation, Verdict, Watcher};

/// A small generator of repeatable, uneven numbers.
struct Jitter(u64);

impl Jitter {
    fn next(&mut self, below: u64) -> u64 {
        self.0 = self.0.wrapping_mul(6364136223846793005).wrapping_add(1442695040888963407);
        (self.0 >> 33) % below
    }
}

/// Feeds `readings` to `watcher` and the verdicts to a queue, lets a
/// supervisor drain the queue at uneven moments, and returns every frame that
/// the supervisor asked to send together with the last count of sent
/// payloads that its session held.
fn relay(mut watcher: Watcher, readings: Vec<Observation>, seed: u64) -> (Vec<Frame>, u64) {
    let mut jitter = Jitter(seed);
    let mut queue = Queue::new();
    let mut frames: Vec<Frame> = Vec::new();
    let mut clock: u64 = 0;
    let mut pending = readings.into_iter();
    let mut produced_all = false;
    let mut counted: u64 = 0;

    let (mut supervisor, action) =
        Supervisor::new(5000, "im alive".to_string()).step(Event::Start);
    assert_eq!(action, Action::Connect);
    let (next, mut action) =
        supervisor.step(Event::Session(SessionEvent::Connected { status: 101, now: clock }));
    supervisor = next;

    loop {
        // the producer gets a turn of uneven length
        for _ in 0..jitter.next(3) {
            match pending.next() {
                Some(reading) => match watcher.observe(reading) {
                    Verdict::Forward(data) => queue.enqueue(data).unwrap(),
                    Verdict::Skip => {}
                    Verdict::Close => queue.close(),
                },
                None => {
                    if !produced_all {
                        queue.close();
                        produced_all = true;
                    }
                }
            }
        }
        // the consumer does what it was asked to do
        let event = match action {
            Action::Wait { timeout, .. } => match queue.dequeue() {
                Dequeued::Payload(data) => {
                    clock += jitter.next(2 * timeout + 1);
                    SessionEvent::Payload { data, now: clock }
                }
                Dequeued::Empty => {
                    clock += timeout;
                    SessionEvent::Timeout
                }
                Dequeued::Disconnected => SessionEvent::ProducerClosed,
            },
            Action::Send(frame) => {
                frames.push(frame);
                clock += jitter.next(50);
                SessionEvent::Sent { now: clock }
            }
            Action::Exit { code, message } => {
                assert_eq!(code, 1);
                assert_eq!(message, "inotify channel disconnected");
                break;
            }
            other => panic!("unexpected: {other:?}"),
        };
        let sent_before = match supervisor.stage() {
            Stage::Running(session) => session.sent(),
            other => panic!("not running: {other:?}"),
        };
        let (next, answer) = supervisor.step(Event::Session(event));
        if let Stage::Running(session) = next.stage() {
            assert!(session.sent() >= sent_before);
            counted = session.sent();
        }
        supervisor = next;
        action = answer;
    }
    (frames, counted)
}

fn payloads_of(frames: &[Frame]) -> Vec<String> {
    frames
        .iter()
        .filter_map(|f| match f {
            Frame::Payload(data) => Some(data.clone()),
            Frame::Keepalive(_) => None,
        })
        .collect()
}

fn changes(n: usize) -> Vec<String> {
    (0..n).map(|i| format!("{{\"wands\":[{}]}}", i % 3)).collect()
}

#[test]
fn every_change_reaches_the_connection_once_and_in_order() {
    for seed in 0..50u64 {
        let contents = changes(40);
        let readings = contents.iter().cloned().map(Observation::Content).collect();
        let (frames, count) = relay(Watcher::event_driven(), readings, seed);
        assert_eq!(payloads_of(&frames), contents);
        assert_eq!(count, 40);
    }
}

#[test]
fn a_polling_watcher_relays_the_same_whatever_its_timing() {
    for seed in 0..50u64 {
        let contents = changes(25);
        let mut jitter = Jitter(seed ^ 0x5eed);
        let mut readings: Vec<Observation> = Vec::new();
        for c in &contents {
            if jitter.next(4) == 0 {
                readings.push(Observation::Unreadable);
            }
            for _ in 0..=jitter.next(3) {
                readings.push(Observation::Content(c.clone()));
            }
        }
        let (frames, count) = relay(Watcher::polling(Some("before".to_string())), readings, seed);
        assert_eq!(payloads_of(&frames), contents);
        assert_eq!(count, 25);
    }
}

#[test]
fn keepalives_never_carry_file_contents() {
    let contents = changes(10);
    let readings = contents.iter().cloned().map(Observation::Content).collect();
    let (frames, _) = relay(Watcher::event_driven(), readings, 7);
    for frame in &frames {
        if let Frame::Keepalive(text) = frame {
            assert_eq!(text, "im alive");
        }
    }
    assert!(frames.iter().any(|f| matches!(f, Frame::Keepalive(_))));
}

#[test]
fn what_the_file_held_before_watching_is_not_relayed() {
    let readings = vec![
        Observation::Content("before".to_string()),
        Observation::Content("after".to_string()),
    ];
    let (frames, _) = relay(Watcher::polling(Some("before".to_string())), readings, 1);
    assert_eq!(payloads_of(&frames), vec!["after".to_string()]);
}
