use wand_relay::queue::{Dequeued, Queue};

#[test]
fn two_payloads_leave_in_the_order_they_came() {
    let mut q = Queue::new();
    assert_eq!(q.enqueue("first".to_string()), Ok(()));
    assert_eq!(q.enqueue("second".to_string()), Ok(()));
    assert_eq!(q.len(), 2);
    assert_eq!(q.dequeue(), Dequeued::Payload("first".to_string()));
    assert_eq!(q.dequeue(), Dequeued::Payload("second".to_string()));
    assert_eq!(q.dequeue(), Dequeued::Empty);
}

#[test]
fn order_holds_when_the_two_sides_take_turns() {
    let mut q = Queue::new();
    q.enqueue("a".to_string()).unwrap();
    q.enqueue("b".to_string()).unwrap();
    assert_eq!(q.dequeue(), Dequeued::Payload("a".to_string()));
    q.enqueue("c".to_string()).unwrap();
    assert_eq!(q.dequeue(), Dequeued::Payload("b".to_string()));
    assert_eq!(q.dequeue(), Dequeued::Payload("c".to_string()));
    assert_eq!(q.dequeue(), Dequeued::Empty);
    q.enqueue("d".to_string()).unwrap();
    assert_eq!(q.dequeue(), Dequeued::Payload("d".to_string()));
}

#[test]
fn equal_payloads_are_all_kept() {
    let mut q = Queue::new();
    q.enqueue("same".to_string()).unwrap();
    q.enqueue("same".to_string()).unwrap();
    assert_eq!(q.len(), 2);
    assert_eq!(q.dequeue(), Dequeued::Payload("same".to_string()));
    assert_eq!(q.dequeue(), Dequeued::Payload("same".to_string()));
    assert_eq!(q.dequeue(), Dequeued::Empty);
}

#[test]
fn an_empty_queue_is_not_a_closed_one() {
    let mut q = Queue::new();
    assert!(!q.is_closed());
    assert_eq!(q.len(), 0);
    assert_eq!(q.dequeue(), Dequeued::Empty);
    q.close();
    assert!(q.is_closed());
    assert_eq!(q.dequeue(), Dequeued::Disconnected);
    assert_eq!(q.dequeue(), Dequeued::Disconnected);
}

#[test]
fn what_waits_survives_the_producer() {
    let mut q = Queue::new();
    q.enqueue("last words".to_string()).unwrap();
    q.close();
    assert_eq!(q.len(), 1);
    assert_eq!(q.dequeue(), Dequeued::Payload("last words".to_string()));
    assert_eq!(q.dequeue(), Dequeued::Disconnected);
}

#[test]
fn a_closed_queue_takes_nothing() {
    let mut q = Queue::new();
    q.close();
    assert_eq!(q.enqueue("late".to_string()), Err("late".to_string()));
    assert_eq!(q.len(), 0);
    assert_eq!(q.dequeue(), Dequeued::Disconnected);
}

#[test]
fn many_payloads_keep_their_order() {
    let mut q = Queue::new();
    for i in 0..1000u32 {
        assert_eq!(q.enqueue(format!("payload {i}")), Ok(()));
    }
    assert_eq!(q.len(), 1000);
    for i in 0..1000u32 {
        assert_eq!(q.dequeue(), Dequeued::Payload(format!("payload {i}")));
    }
    assert_eq!(q.dequeue(), Dequeued::Empty);
}
