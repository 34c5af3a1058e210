use log_collector::writer::{Enqueued, WriterQueue};

fn line(i: usize) -> String {
    format!("line {}\n", i)
}

fn filled(capacity: usize, lossy: bool) -> WriterQueue {
    let mut queue = WriterQueue::new(capacity, lossy).expect("a positive capacity");
    for i in 0..capacity {
        assert!(matches!(queue.enqueue(line(i)), Enqueued::Queued));
    }
    queue
}

#[test]
fn there_is_no_queue_without_a_slot() {
    assert!(WriterQueue::new(0, false).is_none());
    assert!(WriterQueue::new(0, true).is_none());
    assert!(WriterQueue::new(1, false).is_some());
}

#[test]
fn new_queue_is_empty_and_keeps_its_settings() {
    let queue = WriterQueue::new(100, true).unwrap();
    assert_eq!(queue.capacity(), 100);
    assert!(queue.is_lossy());
    assert_eq!(queue.len(), 0);
    assert!(queue.is_empty());
    assert!(!queue.is_full());
    assert!(!queue.is_closed());
}

#[test]
fn blocking_queue_makes_the_101st_line_wait_for_a_slot() {
    let mut queue = filled(100, false);
    assert!(queue.is_full());
    assert_eq!(queue.len(), 100);
    match queue.enqueue(line(100)) {
        Enqueued::Blocked(back) => assert_eq!(back, line(100)),
        _ => panic!("a full blocking queue takes nothing"),
    }
    assert_eq!(queue.len(), 100);
    assert_eq!(queue.dequeue(), Some(line(0)));
    assert!(matches!(queue.enqueue(line(100)), Enqueued::Queued));
    assert_eq!(queue.len(), 100);
    let flushed = queue.close();
    assert_eq!(flushed, (1..=100).map(line).collect::<Vec<_>>());
}

#[test]
fn lossy_queue_takes_the_101st_line_and_evicts_exactly_the_oldest() {
    let mut queue = filled(100, true);
    match queue.enqueue(line(100)) {
        Enqueued::Evicted(oldest) => assert_eq!(oldest, line(0)),
        _ => panic!("a full lossy queue evicts its oldest line"),
    }
    assert_eq!(queue.len(), 100);
    let flushed = queue.close();
    assert_eq!(flushed, (1..=100).map(line).collect::<Vec<_>>());
}

#[test]
fn drain_is_first_in_first_out() {
    let mut queue = WriterQueue::new(4, false).unwrap();
    queue.enqueue("a".to_string());
    queue.enqueue("b".to_string());
    assert_eq!(queue.dequeue().as_deref(), Some("a"));
    queue.enqueue("c".to_string());
    assert_eq!(queue.dequeue().as_deref(), Some("b"));
    assert_eq!(queue.dequeue().as_deref(), Some("c"));
    assert_eq!(queue.dequeue(), None);
    assert!(queue.is_empty());
}

#[test]
fn close_hands_out_every_queued_line_in_order_and_empties_the_queue() {
    let mut queue = WriterQueue::new(8, false).unwrap();
    for i in 0..5 {
        queue.enqueue(line(i));
    }
    assert_eq!(queue.dequeue(), Some(line(0)));
    let flushed = queue.close();
    assert_eq!(flushed, vec![line(1), line(2), line(3), line(4)]);
    assert!(queue.is_empty());
    assert_eq!(queue.close(), Vec::<String>::new());
    assert_eq!(queue.capacity(), 8);
}

#[test]
fn every_line_taken_before_teardown_reaches_the_sink() {
    let mut queue = WriterQueue::new(3, false).unwrap();
    let mut sink: Vec<String> = Vec::new();
    let mut taken: Vec<String> = Vec::new();
    for i in 0..50 {
        let mut pending = line(i);
        loop {
            match queue.enqueue(pending) {
                Enqueued::Queued => break,
                Enqueued::Blocked(back) => {
                    pending = back;
                    sink.push(queue.dequeue().expect("a full queue holds a line"));
                }
                Enqueued::Evicted(_) => panic!("a blocking queue loses nothing"),
                Enqueued::Closed(_) => panic!("the queue is open"),
            }
        }
        taken.push(line(i));
    }
    sink.extend(queue.close());
    assert_eq!(sink, taken);
    assert!(queue.is_empty());
}

#[test]
fn queue_of_one_slot_follows_its_policy() {
    let mut blocking = WriterQueue::new(1, false).unwrap();
    assert!(matches!(blocking.enqueue("x".to_string()), Enqueued::Queued));
    assert!(matches!(blocking.enqueue("y".to_string()), Enqueued::Blocked(_)));
    assert_eq!(blocking.close(), vec!["x".to_string()]);

    let mut lossy = WriterQueue::new(1, true).unwrap();
    assert!(matches!(lossy.enqueue("x".to_string()), Enqueued::Queued));
    assert!(matches!(lossy.enqueue("y".to_string()), Enqueued::Evicted(_)));
    assert_eq!(lossy.close(), vec!["y".to_string()]);
}

#[test]
fn closed_queue_takes_no_line() {
    let mut queue = WriterQueue::new(2, false).unwrap();
    queue.enqueue("a".to_string());
    assert_eq!(queue.close(), vec!["a".to_string()]);
    assert!(queue.is_closed());
    match queue.enqueue("late".to_string()) {
        Enqueued::Closed(back) => assert_eq!(back, "late"),
        _ => panic!("a closed queue hands the line back"),
    }
    assert!(queue.is_empty());
    assert_eq!(queue.dequeue(), None);
    assert_eq!(queue.close(), Vec::<String>::new());

    let mut lossy = WriterQueue::new(1, true).unwrap();
    lossy.enqueue("a".to_string());
    lossy.close();
    assert!(matches!(lossy.enqueue("late".to_string()), Enqueued::Closed(_)));
    assert_eq!(lossy.len(), 0);
}
