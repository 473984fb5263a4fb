use vstd::prelude::*;

use crate::channel;
use crate::record::batch_view;
use crate::record::Record;
use crate::record::RecordView;

verus! {

/// The configured discipline for handing a full batch to the dispatch
/// channel.  The policy is a configuration choice made once, not a per-call
/// choice.
#[derive(Clone, Copy, Debug, PartialEq, Eq, Structural)]
pub enum SendPolicy {
    /// Block until the channel accepts the batch.  Risks propagating
    /// backpressure into instrumented code; used only when measurement
    /// overhead is not critical.
    Block,
    /// Wait up to a short configured timeout, then discard the batch and
    /// count the loss.  The default: preserves low overhead.
    TimeoutThenDrop,
    /// Never wait: enqueue if the channel has room, else discard at once.
    NonBlocking,
}

/// Per-thread accumulator of records awaiting hand-off.  Exclusively owned
/// by its thread, so it needs no internal locking; it owns a handle to the
/// dispatch channel.  Records accumulate until the count reaches the fixed
/// capacity `L`; the full buffer is then swapped for a fresh one and handed
/// to the channel as a single batch, under the configured [`SendPolicy`].
/// On thread termination, [`flush`](Self::flush) delivers whatever remains
/// through the same hand-off path, subject to the same policy.
///
/// The ghost fields account for every record that ever entered the buffer:
/// `pushed` is the full history in creation order, `delivered` the records
/// handed to the channel in successfully sent batches, and `lost` the count
/// of records discarded under backpressure.
pub struct LocalBuffer {
    sender: crossbeam_channel::Sender<Vec<Record>>,
    items: Vec<Record>,
    cap: usize,
    policy: SendPolicy,
    send_timeout_us: u64,
    drop_count: u64,
    pushed: Ghost<Seq<RecordView>>,
    delivered: Ghost<Seq<RecordView>>,
    lost: Ghost<nat>,
}

impl LocalBuffer {
    /// The records currently buffered, awaiting hand-off, in creation order.
    pub closed spec fn buffered(&self) -> Seq<RecordView> {
        batch_view(self.items@)
    }

    /// Every record pushed since creation, in creation order.
    pub closed spec fn pushed(&self) -> Seq<RecordView> {
        self.pushed@
    }

    /// The records of every successfully sent batch, in hand-off order: the
    /// part of the history the dispatch channel has accepted.
    pub closed spec fn delivered(&self) -> Seq<RecordView> {
        self.delivered@
    }

    /// How many records were discarded because the channel would not accept
    /// their batch in time.
    pub closed spec fn lost(&self) -> nat {
        self.lost@
    }

    /// The capacity `L`: a batch is handed off as soon as it holds this many
    /// records.
    pub closed spec fn capacity(&self) -> nat {
        self.cap as nat
    }

    /// The configured hand-off policy.
    pub closed spec fn spec_policy(&self) -> SendPolicy {
        self.policy
    }

    /// The bookkeeping that every operation preserves.  `lost` and the
    /// reported drop counter agree (the counter saturates); every pushed
    /// record is delivered, still buffered, or lost; and while nothing has
    /// been lost, the delivered records followed by the buffered ones are
    /// exactly the pushed history, in order.
    closed spec fn accounts(&self) -> bool {
        &&& self.cap >= 1
        &&& self.pushed@.len() == self.delivered@.len() + self.items@.len() + self.lost@
        &&& (self.lost@ == 0 ==> self.pushed@ == self.delivered@ + batch_view(self.items@))
        &&& (if self.lost@ <= u64::MAX as nat {
            self.drop_count as nat == self.lost@
        } else {
            self.drop_count == u64::MAX
        })
    }

    /// Well-formed: the bookkeeping holds and the buffer is strictly below
    /// its capacity, since reaching the capacity triggers an immediate
    /// hand-off.
    pub closed spec fn wf(&self) -> bool {
        &&& self.accounts()
        &&& self.items@.len() < self.cap
    }

    /// Create the buffer for one thread, holding a cloned handle `sender` of
    /// the dispatch channel.
    pub fn new(
        sender: crossbeam_channel::Sender<Vec<Record>>,
        capacity: usize,
        policy: SendPolicy,
        send_timeout_us: u64,
    ) -> (b: LocalBuffer)
        requires
            capacity >= 1,
        ensures
            b.wf(),
            b.capacity() == capacity as nat,
            b.spec_policy() == policy,
            b.buffered() == Seq::<RecordView>::empty(),
            b.pushed() == Seq::<RecordView>::empty(),
            b.delivered() == Seq::<RecordView>::empty(),
            b.lost() == 0,
    {
        let b = LocalBuffer {
            sender,
            items: Vec::new(),
            cap: capacity,
            policy,
            send_timeout_us,
            drop_count: 0,
            pushed: Ghost(Seq::empty()),
            delivered: Ghost(Seq::empty()),
            lost: Ghost(0),
        };
        proof {
            assert(b.buffered() =~= Seq::<RecordView>::empty());
            assert(b.pushed() =~= b.delivered() + b.buffered());
        }
        b
    }

    /// Swap the buffered records out for a fresh empty sequence and hand
    /// them to the dispatch channel as one batch, under the configured
    /// policy.  Whatever the channel's state, either the whole batch is
    /// delivered or the whole batch is counted lost; the buffer comes back
    /// empty either way, and the hot path continues unaffected.
    fn hand_off(&mut self)
        requires
            old(self).accounts(),
        ensures
            final(self).accounts(),
            final(self).items@.len() == 0,
            final(self).cap == old(self).cap,
            final(self).policy == old(self).policy,
            final(self).pushed() == old(self).pushed(),
            ({
                let batch = batch_view(old(self).items@);
                ||| (final(self).delivered() == old(self).delivered() + batch && final(self).lost() == old(self).lost())
                ||| (final(self).delivered() == old(self).delivered() && final(self).lost() == old(self).lost() + batch.len())
            }),
    {
        let mut batch: Vec<Record> = Vec::new();
        core::mem::swap(&mut batch, &mut self.items);
        let ghost batchv = batch_view(batch@);
        let outcome = match self.policy {
            SendPolicy::Block => channel::send_blocking(&self.sender, batch),
            SendPolicy::TimeoutThenDrop => channel::send_within(
                &self.sender,
                batch,
                self.send_timeout_us,
            ),
            SendPolicy::NonBlocking => channel::send_now(&self.sender, batch),
        };
        match outcome {
            Ok(()) => {
                self.delivered = Ghost(self.delivered@ + batchv);
                proof {
                    if self.lost@ == 0 {
                        assert(self.pushed@ =~= self.delivered@ + batch_view(self.items@));
                    }
                }
            },
            Err(b) => {
                let n = b.len();
                self.drop_count = self.drop_count.saturating_add(n as u64);
                self.lost = Ghost(self.lost@ + n as nat);
            },
        }
    }

    /// Record one measurement.  The record is appended in creation order;
    /// when the buffer reaches its capacity it is handed off whole.  This is
    /// the only operation the hot path performs, and it cannot fail: an
    /// undeliverable batch is counted and dropped, never surfaced.
    pub fn push(&mut self, r: Record)
        requires
            old(self).wf(),
        ensures
            final(self).wf(),
            final(self).capacity() == old(self).capacity(),
            final(self).spec_policy() == old(self).spec_policy(),
            final(self).pushed() == old(self).pushed().push(r@),
            (if old(self).buffered().len() + 1 < old(self).capacity() {
                &&& final(self).buffered() == old(self).buffered().push(r@)
                &&& final(self).delivered() == old(self).delivered()
                &&& final(self).lost() == old(self).lost()
            } else {
                &&& final(self).buffered().len() == 0
                &&& ({
                    let batch = old(self).buffered().push(r@);
                    ||| (final(self).delivered() == old(self).delivered() + batch && final(self).lost() == old(self).lost())
                    ||| (final(self).delivered() == old(self).delivered() && final(self).lost() == old(self).lost() + batch.len())
                })
            }),
    {
        let ghost rv = r@;
        self.items.push(r);
        self.pushed = Ghost(self.pushed@.push(rv));
        proof {
            assert(batch_view(self.items@) =~= batch_view(old(self).items@).push(rv));
            if self.lost@ == 0 {
                assert(self.pushed@ =~= self.delivered@ + batch_view(self.items@));
            }
        }
        if self.items.len() >= self.cap {
            self.hand_off();
        }
    }

    /// Flush whatever remains, through the same hand-off path and under the
    /// same policy as every other hand-off.  Run when the owning thread
    /// terminates, so that a thread that measured fewer than `L` scopes
    /// still delivers its records; an empty buffer has nothing to deliver
    /// and the flush is a no-op.
    pub fn flush(&mut self)
        requires
            old(self).wf(),
        ensures
            final(self).wf(),
            final(self).capacity() == old(self).capacity(),
            final(self).spec_policy() == old(self).spec_policy(),
            final(self).pushed() == old(self).pushed(),
            final(self).buffered().len() == 0,
            (if old(self).buffered().len() == 0 {
                &&& final(self).delivered() == old(self).delivered()
                &&& final(self).lost() == old(self).lost()
            } else {
                ({
                    let batch = old(self).buffered();
                    ||| (final(self).delivered() == old(self).delivered() + batch && final(self).lost() == old(self).lost())
                    ||| (final(self).delivered() == old(self).delivered() && final(self).lost() == old(self).lost() + batch.len())
                })
            }),
    {
        if self.items.len() > 0 {
            self.hand_off();
        }
    }

    /// How many records are buffered, awaiting hand-off.
    pub fn pending(&self) -> (n: usize)
        ensures
            n as nat == self.buffered().len(),
    {
        self.items.len()
    }

    /// How many records have been discarded under backpressure.  The counter
    /// saturates at `u64::MAX`.
    pub fn dropped_records(&self) -> (n: u64)
        requires
            self.wf(),
        ensures
            (if self.lost() <= u64::MAX as nat {
                n as nat == self.lost()
            } else {
                n == u64::MAX
            }),
    {
        self.drop_count
    }
}

/// A well-formed buffer sits strictly below its capacity: between any two
/// operations it holds at most `L - 1` records, since reaching `L` triggers
/// an immediate hand-off.
pub proof fn lemma_buffer_occupancy(buf: &LocalBuffer)
    requires
        buf.wf(),
    ensures
        buf.buffered().len() < buf.capacity(),
{
}

/// No loss under light load: while the channel has accepted every batch in
/// time (nothing lost), the records delivered to the channel followed by the
/// records still buffered are exactly the records pushed, in creation order
/// — so none is lost, none is duplicated, and none is reordered.
pub proof fn lemma_no_loss(buf: &LocalBuffer)
    requires
        buf.wf(),
        buf.lost() == 0,
    ensures
        buf.delivered() + buf.buffered() == buf.pushed(),
        buf.delivered().len() + buf.buffered().len() == buf.pushed().len(),
        buf.delivered() == buf.pushed().take(buf.delivered().len() as int),
{
    assert(buf.delivered() =~= buf.pushed().take(buf.delivered().len() as int));
}

/// Flush on termination: once a terminating thread's flush has emptied its
/// buffer and nothing was ever lost, every record the thread measured has
/// been handed to the dispatch channel, in creation order.
pub proof fn lemma_termination_delivers_all(buf: &LocalBuffer)
    requires
        buf.wf(),
        buf.lost() == 0,
        buf.buffered().len() == 0,
    ensures
        buf.delivered() == buf.pushed(),
{
    lemma_no_loss(buf);
    assert(buf.delivered() + buf.buffered() =~= buf.delivered());
}

} // verus!
