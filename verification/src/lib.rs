//! Low-overhead, scope-based instrumentation.
//!
//! A call site marks a lexical scope for timing; the elapsed duration is
//! recorded and delivered to a durable sink without blocking the
//! instrumented code path.  The pipeline runs in stages:
//! [`Profiler`] → [`LocalBuffer`] → dispatch channel → [`Aggregator`] →
//! emitter → sink.  A scope timer builds a [`Record`]; the per-thread
//! buffer accumulates records and hands full batches to a bounded channel,
//! dropping and counting a batch the channel will not take in time; the
//! aggregator consolidates batches by size or idle timeout; the framing in
//! [`frame`] turns a finished batch into the bytes of a line-oriented local
//! sink or a remote JSON submission.
//!
//! Delivery is best effort, at most once per record: under sustained
//! overload some records are dropped by design, with bounded overhead and
//! bounded memory kept in their stead.  The laws in [`laws`], [`buffer`]
//! and [`aggregator`] state the pipeline's guarantees: order preservation,
//! no loss while nothing is dropped, bounded occupancy, and delivery of a
//! terminating thread's remainder.

pub mod aggregator;
pub mod buffer;
pub mod channel;
pub mod clock;
pub mod config;
pub mod frame;
pub mod laws;
pub mod record;
pub mod timer;

pub use aggregator::Aggregator;
pub use buffer::LocalBuffer;
pub use buffer::SendPolicy;
pub use config::Config;
pub use record::OwnedRecord;
pub use record::Record;
pub use timer::Profiler;
