use vstd::prelude::*;

verus! {

/// One completed scope measurement.  Immutable once constructed: every stage
/// of the pipeline moves whole records (or whole batches of them) downstream
/// and never looks back at a record it has handed off.
///
/// `name` and `file` hold the UTF-8 bytes of the scope label and the source
/// file; `line` is the source line; `duration_ns` is the elapsed time of the
/// scope in nanoseconds.  `time_ms` optionally carries the wall-clock time
/// the scope ended, in milliseconds since the epoch, for sinks that need
/// absolute time.
#[derive(Debug, Clone)]
pub struct Record {
    pub duration_ns: u64,
    pub name: Vec<u8>,
    pub file: Vec<u8>,
    pub line: u32,
    pub time_ms: Option<u64>,
}

/// The mathematical value of a [`Record`].
pub ghost struct RecordView {
    pub duration_ns: nat,
    pub name: Seq<u8>,
    pub file: Seq<u8>,
    pub line: nat,
    pub time_ms: Option<nat>,
}

impl View for Record {
    type V = RecordView;

    open spec fn view(&self) -> RecordView {
        RecordView {
            duration_ns: self.duration_ns as nat,
            name: self.name@,
            file: self.file@,
            line: self.line as nat,
            time_ms: match self.time_ms {
                Some(t) => Some(t as nat),
                None => None,
            },
        }
    }
}

/// The view of a batch: the sequence of record values, in batch order.
pub open spec fn batch_view(batch: Seq<Record>) -> Seq<RecordView> {
    batch.map_values(|r: Record| r@)
}

/// A record as the remote ingestion service owns it after decoding a batch
/// submission: the same four fields, owned outright.
#[derive(Debug, Clone)]
pub struct OwnedRecord {
    pub duration_ns: u64,
    pub name: Vec<u8>,
    pub file: Vec<u8>,
    pub line: u32,
}

impl OwnedRecord {
    /// Take ownership of a pipeline record, shedding the optional timestamp.
    pub fn from_record(r: Record) -> (o: OwnedRecord)
        ensures
            o.duration_ns == r.duration_ns,
            o.name@ == r@.name,
            o.file@ == r@.file,
            o.line == r.line,
    {
        OwnedRecord { duration_ns: r.duration_ns, name: r.name, file: r.file, line: r.line }
    }

    /// The duration in whole microseconds, as the ingestion service stores it.
    pub fn duration_us(&self) -> (us: u64)
        ensures
            us == self.duration_ns / 1000,
    {
        self.duration_ns / 1000
    }
}

} // verus!
