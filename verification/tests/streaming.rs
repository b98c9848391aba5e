use libvirt_gateway::stream::{BoundedQueue, StreamSession};

fn records(n: u64) -> Vec<u64> {
    (0..n).collect()
}

#[test]
fn alternating_schedule_delivers_everything_in_order() {
    // N from empty to well above the queue capacity of 4.
    for n in [0u64, 1, 2, 3, 4, 5, 8, 16, 100] {
        let mut s = StreamSession::new(records(n), 4);
        s.run_to_end();
        assert_eq!(s.delivered, records(n));
        assert!(s.pending.is_empty());
    }
}

#[test]
fn producer_heavy_schedule_delivers_everything_in_order() {
    // Let the producer run as far as backpressure allows before the
    // consumer takes anything.
    let mut s = StreamSession::new(records(11), 4);
    loop {
        while s.producer_step() {}
        if !s.consumer_step() {
            break;
        }
    }
    assert_eq!(s.delivered, records(11));
}

#[test]
fn consumer_heavy_schedule_delivers_everything_in_order() {
    let mut s = StreamSession::new(records(9), 4);
    while !s.finished() {
        let _ = s.producer_step();
        while s.consumer_step() {}
    }
    assert_eq!(s.delivered, records(9));
}

#[test]
fn backpressure_suspends_the_producer_at_capacity() {
    let mut s = StreamSession::new(records(10), 4);
    assert!(s.producer_step());
    assert!(s.producer_step());
    assert!(s.producer_step());
    assert!(s.producer_step());
    // The queue is full: a further producer step does nothing.
    assert!(!s.producer_step());
    assert!(!s.producer_step());
    // Draining one record makes room for exactly one more push.
    assert!(s.consumer_step());
    assert!(s.producer_step());
    assert!(!s.producer_step());
}

#[test]
fn end_of_stream_is_closed_and_drained() {
    let mut s = StreamSession::new(records(2), 4);
    assert!(s.producer_step());
    assert!(s.producer_step());
    assert!(!s.finished());
    // Everything is pushed: the next producer step closes the queue.
    assert!(s.producer_step());
    assert!(!s.finished());
    assert!(s.consumer_step());
    assert!(s.consumer_step());
    assert!(s.finished());
    assert!(!s.consumer_step());
    assert_eq!(s.delivered, records(2));
}

#[test]
fn cancelled_consumer_stops_the_producer() {
    let mut s = StreamSession::new(records(50), 4);
    assert!(s.producer_step());
    assert!(s.consumer_step());
    s.cancel();
    // The producer detects the receiver is gone and does no further work.
    assert!(!s.producer_step());
    assert!(!s.producer_step());
    assert_eq!(s.pending.len(), 49);
    assert_eq!(s.delivered, records(1));
}

#[test]
fn queue_orders_and_bounds_records() {
    let mut q: BoundedQueue<u64> = BoundedQueue::new(2);
    assert!(!q.is_full());
    assert_eq!(q.len(), 0);
    q.push(10);
    q.push(20);
    assert!(q.is_full());
    assert_eq!(q.pop(), Some(10));
    q.push(30);
    assert_eq!(q.pop(), Some(20));
    assert_eq!(q.pop(), Some(30));
    assert_eq!(q.pop(), None);
    assert!(!q.ended());
    q.close();
    assert!(q.ended());
}
