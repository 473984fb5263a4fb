use vstd::prelude::*;

use crate::buffer::SendPolicy;

verus! {

/// Default thread-local buffer capacity `L`, in records.
pub const DEFAULT_BUFFER_CAPACITY: usize = 512;

/// Default dispatch channel capacity `C`, in batches.
pub const DEFAULT_CHANNEL_CAPACITY: usize = 64;

/// Default bounded wait before a full batch is dropped, in microseconds.
pub const DEFAULT_SEND_TIMEOUT_US: u64 = 50;

/// Default idle timeout of the aggregator's bounded receive, in milliseconds.
pub const DEFAULT_IDLE_TIMEOUT_MS: u64 = 12;

/// Default aggregator forwarding threshold, in records.
pub const DEFAULT_FLUSH_THRESHOLD: usize = 2048;

/// The pipeline's configuration, read once when the process-wide state is
/// constructed (typically from the environment) and fixed thereafter.  The
/// pipeline takes these as parameters; where they come from and what their
/// deployment-specific values are is the wrapper's concern.
pub struct Config {
    /// Thread-local buffer capacity `L`: a buffer hands its batch off upon
    /// holding this many records.
    pub buffer_capacity: usize,
    /// Dispatch channel capacity `C`, in batches.
    pub channel_capacity: usize,
    /// What a producer does when the channel will not take its batch.
    pub policy: SendPolicy,
    /// The bounded wait of [`SendPolicy::TimeoutThenDrop`], in microseconds.
    pub send_timeout_us: u64,
    /// How long the aggregator waits on an empty channel before flushing a
    /// pending working batch, in milliseconds.
    pub idle_timeout_ms: u64,
    /// The aggregator forwards its working batch upon holding this many
    /// records.
    pub flush_threshold: usize,
}

impl Config {
    /// Usable: every capacity and threshold is at least one record or batch.
    pub open spec fn wf(&self) -> bool {
        &&& self.buffer_capacity >= 1
        &&& self.channel_capacity >= 1
        &&& self.flush_threshold >= 1
    }
}

impl Default for Config {
    /// The default deployment: moderate buffers and the bounded-wait-then-
    /// drop hand-off, preserving low overhead on the hot path.
    fn default() -> (c: Config)
        ensures
            c.wf(),
            c.buffer_capacity == DEFAULT_BUFFER_CAPACITY,
            c.channel_capacity == DEFAULT_CHANNEL_CAPACITY,
            c.policy == SendPolicy::TimeoutThenDrop,
            c.send_timeout_us == DEFAULT_SEND_TIMEOUT_US,
            c.idle_timeout_ms == DEFAULT_IDLE_TIMEOUT_MS,
            c.flush_threshold == DEFAULT_FLUSH_THRESHOLD,
    {
        Config {
            buffer_capacity: DEFAULT_BUFFER_CAPACITY,
            channel_capacity: DEFAULT_CHANNEL_CAPACITY,
            policy: SendPolicy::TimeoutThenDrop,
            send_timeout_us: DEFAULT_SEND_TIMEOUT_US,
            idle_timeout_ms: DEFAULT_IDLE_TIMEOUT_MS,
            flush_threshold: DEFAULT_FLUSH_THRESHOLD,
        }
    }
}

} // verus!
