use cao_profile::Config;
use cao_profile::OwnedRecord;
use cao_profile::Profiler;
use cao_profile::Record;
use cao_profile::SendPolicy;

#[test]
fn profiler_builds_record_with_location() {
    let p = Profiler::new("src/lib.rs", 7, "foo fn call label");
    let r = p.finish();
    assert_eq!(r.name, b"foo fn call label".to_vec());
    assert_eq!(r.file, b"src/lib.rs".to_vec());
    assert_eq!(r.line, 7);
    assert!(r.time_ms.is_none());
}

#[test]
fn profiler_timestamped_record() {
    let p = Profiler::new("src/lib.rs", 9, "bar");
    let r = p.finish_with_time();
    assert_eq!(r.name, b"bar".to_vec());
    assert!(r.time_ms.is_some());
}

#[test]
fn owned_record_conversion() {
    let r = Record {
        duration_ns: 2500,
        name: b"n".to_vec(),
        file: b"f.rs".to_vec(),
        line: 3,
        time_ms: Some(5),
    };
    let o = OwnedRecord::from_record(r);
    assert_eq!(o.duration_ns, 2500);
    assert_eq!(o.name, b"n".to_vec());
    assert_eq!(o.file, b"f.rs".to_vec());
    assert_eq!(o.line, 3);
    assert_eq!(o.duration_us(), 2);
}

#[test]
fn config_defaults() {
    let c = Config::default();
    assert_eq!(c.buffer_capacity, 512);
    assert_eq!(c.channel_capacity, 64);
    assert_eq!(c.policy, SendPolicy::TimeoutThenDrop);
    assert_eq!(c.send_timeout_us, 50);
    assert_eq!(c.idle_timeout_ms, 12);
    assert_eq!(c.flush_threshold, 2048);
}

#[test]
fn blocking_policy_delivers_when_room_exists() {
    let (tx, rx) = crossbeam_channel::bounded(4);
    let mut buf = cao_profile::LocalBuffer::new(tx, 2, SendPolicy::Block, 0);
    for i in 0..4u64 {
        buf.push(Record {
            duration_ns: i,
            name: b"n".to_vec(),
            file: b"f.rs".to_vec(),
            line: 1,
            time_ms: None,
        });
    }
    assert_eq!(rx.try_recv().unwrap().len(), 2);
    assert_eq!(rx.try_recv().unwrap().len(), 2);
    assert_eq!(buf.dropped_records(), 0);
}
