use std::time::Duration;

use cao_profile::Aggregator;
use cao_profile::LocalBuffer;
use cao_profile::Record;
use cao_profile::SendPolicy;

fn rec(name: &str, duration_ns: u64) -> Record {
    Record {
        duration_ns,
        name: name.as_bytes().to_vec(),
        file: b"src/lib.rs".to_vec(),
        line: 1,
        time_ms: None,
    }
}

// With L=4 and C=8, measuring A(10ns), B(20ns), C(5ns), D(1ns) on one thread
// yields exactly one flushed batch of 4 records, in order, once the buffer
// reaches L; no idle flush is needed and nothing is dropped.
#[test]
fn scenario_one_batch_of_four_in_order() {
    let (tx, rx) = crossbeam_channel::bounded(8);
    let mut buf = LocalBuffer::new(tx, 4, SendPolicy::TimeoutThenDrop, 50);
    for (name, d) in [("A", 10u64), ("B", 20), ("C", 5), ("D", 1)] {
        buf.push(rec(name, d));
    }
    let batch = rx.try_recv().expect("the fourth push hands off one batch");
    assert_eq!(batch.len(), 4);
    let names: Vec<&str> = batch.iter().map(|r| std::str::from_utf8(&r.name).unwrap()).collect();
    assert_eq!(names, ["A", "B", "C", "D"]);
    let durations: Vec<u64> = batch.iter().map(|r| r.duration_ns).collect();
    assert_eq!(durations, [10, 20, 5, 1]);
    assert!(rx.try_recv().is_err(), "exactly one batch");
    assert_eq!(buf.pending(), 0);
    assert_eq!(buf.dropped_records(), 0);
}

// A single scope E(100ns) reaches the sink alone, inside one idle-triggered
// flush, without waiting for three more scopes: the terminating thread's
// flush hands it over, and the aggregator's idle timeout forwards it.
#[test]
fn scenario_idle_flush_single_record() {
    let (tx, rx) = crossbeam_channel::bounded(8);
    let mut buf = LocalBuffer::new(tx, 4, SendPolicy::TimeoutThenDrop, 50);
    buf.push(rec("E", 100));
    buf.flush();
    assert_eq!(buf.dropped_records(), 0);

    let mut agg = Aggregator::new(2048);
    let got = rx.recv_timeout(Duration::from_millis(50)).expect("flushed batch arrives");
    assert!(agg.on_receive(got).is_none(), "below the size threshold: held back");
    assert!(rx.recv_timeout(Duration::from_millis(50)).is_err(), "channel sits idle");
    let flushed = agg.on_timeout().expect("idle timeout flushes pending work");
    assert_eq!(flushed.len(), 1);
    assert_eq!(flushed[0].name, b"E".to_vec());
    assert_eq!(flushed[0].duration_ns, 100);
    assert!(agg.on_timeout().is_none(), "nothing pending emits nothing");
}

// A thread that measures k < L scopes and then terminates delivers exactly
// k records through its termination flush, in creation order.
#[test]
fn termination_flush_delivers_k_records() {
    let (tx, rx) = crossbeam_channel::bounded(8);
    let mut buf = LocalBuffer::new(tx, 512, SendPolicy::TimeoutThenDrop, 50);
    for (name, d) in [("a", 1u64), ("b", 2), ("c", 3)] {
        buf.push(rec(name, d));
    }
    assert!(rx.try_recv().is_err(), "below L: nothing handed off yet");
    buf.flush();
    let batch = rx.try_recv().expect("termination flush delivers the remainder");
    assert_eq!(batch.len(), 3);
    let names: Vec<&str> = batch.iter().map(|r| std::str::from_utf8(&r.name).unwrap()).collect();
    assert_eq!(names, ["a", "b", "c"]);
    assert_eq!(buf.dropped_records(), 0);
    buf.flush();
    assert!(rx.try_recv().is_err(), "an empty buffer has nothing to deliver");
}

// Creation order survives buffering, hand-off and re-batching: five records
// pushed through an L=2 buffer come out of the aggregator in order.
#[test]
fn order_preserved_through_aggregation() {
    let (tx, rx) = crossbeam_channel::bounded(8);
    let mut buf = LocalBuffer::new(tx, 2, SendPolicy::TimeoutThenDrop, 50);
    for (name, d) in [("r1", 1u64), ("r2", 2), ("r3", 3), ("r4", 4), ("r5", 5)] {
        buf.push(rec(name, d));
    }
    buf.flush();
    assert_eq!(buf.dropped_records(), 0);

    let mut agg = Aggregator::new(4);
    let mut emitted: Vec<Record> = Vec::new();
    while let Ok(batch) = rx.try_recv() {
        if let Some(out) = agg.on_receive(batch) {
            emitted.extend(out);
        }
    }
    if let Some(out) = agg.on_timeout() {
        emitted.extend(out);
    }
    let names: Vec<&str> = emitted.iter().map(|r| std::str::from_utf8(&r.name).unwrap()).collect();
    assert_eq!(names, ["r1", "r2", "r3", "r4", "r5"]);
}

// The aggregator forwards its working batch exactly when it reaches the
// size threshold, whole and in order.
#[test]
fn aggregator_size_trigger() {
    let mut agg = Aggregator::new(3);
    assert!(agg.on_receive(vec![rec("x", 1), rec("y", 2)]).is_none());
    assert_eq!(agg.pending(), 2);
    let out = agg.on_receive(vec![rec("z", 3)]).expect("threshold reached");
    assert_eq!(out.len(), 3);
    let names: Vec<&str> = out.iter().map(|r| std::str::from_utf8(&r.name).unwrap()).collect();
    assert_eq!(names, ["x", "y", "z"]);
    assert_eq!(agg.pending(), 0);
}

// Graceful degradation: with the consumer stalled (full channel) and then
// gone entirely, pushes keep returning without blocking and the loss is
// counted; the hot path never observes a failure.
#[test]
fn degradation_when_consumer_stalls() {
    let (tx, rx) = crossbeam_channel::bounded(1);
    let mut buf = LocalBuffer::new(tx, 2, SendPolicy::NonBlocking, 0);
    for i in 0..10u64 {
        buf.push(rec("n", i));
    }
    // five full batches of two: one fit the channel, four were dropped
    assert_eq!(buf.dropped_records(), 8);
    drop(rx);
    for i in 0..4u64 {
        buf.push(rec("n", i));
    }
    // with every receiver gone, both further batches were dropped
    assert_eq!(buf.dropped_records(), 12);
    assert_eq!(buf.pending(), 0);
}
