use cao_profile::LocalBuffer;
use cao_profile::Profiler;
use cao_profile::SendPolicy;

#[test]
fn smoke() {
    fn bar(buf: &mut LocalBuffer) {
        let p = Profiler::new("tests/smoke.rs", 9, "bar fn call label");
        buf.push(p.finish());
    }

    let (tx, rx) = crossbeam_channel::bounded(64);
    let mut buf = LocalBuffer::new(tx, 512, SendPolicy::NonBlocking, 0);
    for _ in 0..1 << 17 {
        bar(&mut buf);
    }
    buf.flush();
    drop(rx);
}
