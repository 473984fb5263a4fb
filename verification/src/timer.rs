use vstd::prelude::*;

use crate::clock;
use crate::record::Record;
use vstd::string::StrSliceExecFns;
use vstd::string::StringSliceAdditionalSpecFns;

verus! {

/// Scope timer: created when a measured scope begins, with the call site's
/// source location and a caller-chosen label.  It captures the start instant;
/// finishing it computes the elapsed duration and yields the [`Record`] of
/// the measurement.  No error is observable from any of this: delivery
/// failures are absorbed downstream.
pub struct Profiler {
    start: std::time::Instant,
    name: Vec<u8>,
    file: Vec<u8>,
    line: u32,
}

impl Profiler {
    /// The UTF-8 bytes of the scope label.
    pub closed spec fn spec_name(&self) -> Seq<u8> {
        self.name@
    }

    /// The UTF-8 bytes of the source file.
    pub closed spec fn spec_file(&self) -> Seq<u8> {
        self.file@
    }

    /// The source line.
    pub closed spec fn spec_line(&self) -> nat {
        self.line as nat
    }

    /// Begin a measured scope: capture the start instant together with the
    /// call site's location and label.
    pub fn new(file: &'static str, line: u32, name: &'static str) -> (p: Profiler)
        ensures
            p.spec_name() == name.spec_bytes(),
            p.spec_file() == file.spec_bytes(),
            p.spec_line() == line as nat,
    {
        let start = clock::instant_now();
        Profiler { start, name: name.as_bytes_vec(), file: file.as_bytes_vec(), line }
    }

    /// End the measured scope: compute the elapsed duration and build the
    /// record of the measurement.  The record carries the label, location and
    /// line the timer was created with, and no wall-clock timestamp.
    pub fn finish(self) -> (r: Record)
        ensures
            r@.name == self.spec_name(),
            r@.file == self.spec_file(),
            r@.line == self.spec_line(),
            r@.time_ms is None,
    {
        let duration_ns = clock::elapsed_ns(&self.start);
        Record { duration_ns, name: self.name, file: self.file, line: self.line, time_ms: None }
    }

    /// End the measured scope as [`finish`](Self::finish) does, and stamp the
    /// record with the wall-clock time it ended, for sinks that need absolute
    /// time.
    pub fn finish_with_time(self) -> (r: Record)
        ensures
            r@.name == self.spec_name(),
            r@.file == self.spec_file(),
            r@.line == self.spec_line(),
            r@.time_ms is Some,
    {
        let duration_ns = clock::elapsed_ns(&self.start);
        let time_ms = clock::wall_clock_ms();
        Record {
            duration_ns,
            name: self.name,
            file: self.file,
            line: self.line,
            time_ms: Some(time_ms),
        }
    }
}

} // verus!
