use vstd::prelude::*;

use crate::record::Record;

verus! {

/// The sending half of the bounded dispatch channel that carries batches of
/// records from every thread-local buffer to the aggregator.  The channel is
/// the one structure genuinely shared across threads; its contents cannot be
/// observed from one handle, so each send operation states only what holds of
/// its own outcome.
#[verifier::external_type_specification]
#[verifier::external_body]
#[verifier::reject_recursive_types(T)]
pub struct ExSender<T>(crossbeam_channel::Sender<T>);

/// Relies on `crossbeam_channel::Sender::send`: blocks until the channel has
/// room or is disconnected.  `Ok` means the batch was enqueued; `Err` comes
/// exactly when every receiver is gone, and returns the original batch.
#[verifier::external_body]
pub(crate) fn send_blocking(
    s: &crossbeam_channel::Sender<Vec<Record>>,
    batch: Vec<Record>,
) -> (r: Result<(), Vec<Record>>)
    ensures
        r matches Err(b) ==> b == batch,
{
    match s.send(batch) {
        Ok(()) => Ok(()),
        Err(crossbeam_channel::SendError(b)) => Err(b),
    }
}

/// Relies on `crossbeam_channel::Sender::send_timeout`: waits up to the given
/// timeout for room.  `Ok` means the batch was enqueued; `Err` comes when the
/// wait timed out or every receiver is gone, and returns the original batch.
#[verifier::external_body]
pub(crate) fn send_within(
    s: &crossbeam_channel::Sender<Vec<Record>>,
    batch: Vec<Record>,
    timeout_us: u64,
) -> (r: Result<(), Vec<Record>>)
    ensures
        r matches Err(b) ==> b == batch,
{
    match s.send_timeout(batch, std::time::Duration::from_micros(timeout_us)) {
        Ok(()) => Ok(()),
        Err(e) => Err(e.into_inner()),
    }
}

/// Relies on `crossbeam_channel::Sender::try_send`: never waits.  `Ok` means
/// the channel had room and the batch was enqueued; `Err` comes when the
/// channel is full or every receiver is gone, and returns the original batch.
#[verifier::external_body]
pub(crate) fn send_now(
    s: &crossbeam_channel::Sender<Vec<Record>>,
    batch: Vec<Record>,
) -> (r: Result<(), Vec<Record>>)
    ensures
        r matches Err(b) ==> b == batch,
{
    match s.try_send(batch) {
        Ok(()) => Ok(()),
        Err(e) => Err(e.into_inner()),
    }
}

} // verus!
