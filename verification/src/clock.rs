use vstd::prelude::*;

verus! {

/// The opaque monotonic clock reading that a scope timer captures when the
/// scope begins.
#[verifier::external_type_specification]
#[verifier::external_body]
pub struct ExInstant(std::time::Instant);

/// Relies on `std::time::Instant::now`: a reading of the monotonic clock.
/// Nothing is promised of the value; it only anchors a later elapsed-time
/// computation.
#[verifier::external_body]
pub(crate) fn instant_now() -> std::time::Instant {
    std::time::Instant::now()
}

/// Relies on `std::time::Instant::elapsed` and `Duration::as_nanos`: the
/// nanoseconds elapsed since `start`, saturated to `u64`.  The value depends
/// on the clock, so nothing is promised of it.
#[verifier::external_body]
pub(crate) fn elapsed_ns(start: &std::time::Instant) -> u64 {
    let n = start.elapsed().as_nanos();
    if n > u64::MAX as u128 { u64::MAX } else { n as u64 }
}

/// Relies on `std::time::SystemTime::now` and `duration_since(UNIX_EPOCH)`:
/// the wall-clock time in milliseconds since the epoch, saturated to `u64`,
/// or 0 when the clock reads before the epoch.  The value depends on the
/// clock, so nothing is promised of it.
#[verifier::external_body]
pub(crate) fn wall_clock_ms() -> u64 {
    match std::time::SystemTime::now().duration_since(std::time::SystemTime::UNIX_EPOCH) {
        Ok(d) => {
            let m = d.as_millis();
            if m > u64::MAX as u128 { u64::MAX } else { m as u64 }
        }
        Err(_) => 0,
    }
}

} // verus!
