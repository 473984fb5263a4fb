use vstd::prelude::*;

use crate::record::batch_view;
use crate::record::Record;
use crate::record::RecordView;

verus! {

/// The single consumer of the dispatch channel.  It drains incoming batches
/// into one working batch and forwards that batch whole to the emitter on
/// either of two triggers: the working batch reached the size threshold, or
/// the channel sat idle past its timeout while work was pending.  The dual
/// trigger is the central batching policy: the size trigger amortizes
/// emission I/O under load, the idle trigger bounds end-to-end latency under
/// sporadic measurement volume.
///
/// The worker loop that owns this state receives from the channel with a
/// bounded wait and feeds each outcome to [`on_receive`](Self::on_receive) or
/// [`on_timeout`](Self::on_timeout); whatever batch either returns goes to
/// the emitter.  This stage never drops a record: everything received is
/// either forwarded already or still in the working batch.
pub struct Aggregator {
    working: Vec<Record>,
    threshold: usize,
    received: Ghost<Seq<RecordView>>,
    forwarded: Ghost<Seq<RecordView>>,
}

impl Aggregator {
    /// The records of the working batch, in arrival order.
    pub closed spec fn working(&self) -> Seq<RecordView> {
        batch_view(self.working@)
    }

    /// The size threshold: the working batch is forwarded as soon as it
    /// holds at least this many records.
    pub closed spec fn threshold(&self) -> nat {
        self.threshold as nat
    }

    /// Every record received from the dispatch channel, in arrival order.
    pub closed spec fn received(&self) -> Seq<RecordView> {
        self.received@
    }

    /// Every record handed on to the emitter, in arrival order.
    pub closed spec fn forwarded(&self) -> Seq<RecordView> {
        self.forwarded@
    }

    /// Conservation: the records forwarded to the emitter followed by the
    /// working batch are exactly the records received, in order, and the
    /// working batch sits strictly below the forwarding threshold.
    pub closed spec fn wf(&self) -> bool {
        &&& self.threshold >= 1
        &&& self.working@.len() < self.threshold
        &&& self.received@ == self.forwarded@ + batch_view(self.working@)
    }

    /// Start with an empty working batch.
    pub fn new(threshold: usize) -> (a: Aggregator)
        requires
            threshold >= 1,
        ensures
            a.wf(),
            a.threshold() == threshold as nat,
            a.received() == Seq::<RecordView>::empty(),
            a.forwarded() == Seq::<RecordView>::empty(),
            a.working() == Seq::<RecordView>::empty(),
    {
        let a = Aggregator {
            working: Vec::new(),
            threshold,
            received: Ghost(Seq::empty()),
            forwarded: Ghost(Seq::empty()),
        };
        proof {
            assert(a.working() =~= Seq::<RecordView>::empty());
            assert(a.received@ =~= a.forwarded@ + batch_view(a.working@));
        }
        a
    }

    /// Take the working batch out whole, leaving the aggregator empty.
    fn take_working(&mut self) -> (out: Vec<Record>)
        requires
            old(self).threshold >= 1,
            old(self).received@ == old(self).forwarded@ + batch_view(old(self).working@),
        ensures
            final(self).wf(),
            final(self).threshold() == old(self).threshold(),
            final(self).received() == old(self).received(),
            final(self).forwarded() == old(self).forwarded() + batch_view(old(self).working@),
            batch_view(out@) == batch_view(old(self).working@),
            final(self).working().len() == 0,
    {
        let mut out: Vec<Record> = Vec::new();
        core::mem::swap(&mut out, &mut self.working);
        self.forwarded = Ghost(self.forwarded@ + batch_view(out@));
        proof {
            assert(self.received@ =~= self.forwarded@ + batch_view(self.working@));
        }
        out
    }

    /// A batch arrived from the dispatch channel: append it to the working
    /// batch, in order.  Returns the whole working batch for emission exactly
    /// when it has reached the size threshold; otherwise the records wait for
    /// more input or for the idle trigger.
    pub fn on_receive(&mut self, batch: Vec<Record>) -> (out: Option<Vec<Record>>)
        requires
            old(self).wf(),
        ensures
            final(self).wf(),
            final(self).threshold() == old(self).threshold(),
            final(self).received() == old(self).received() + batch_view(batch@),
            (match out {
                Some(v) => {
                    &&& old(self).working().len() + batch@.len() >= old(self).threshold()
                    &&& batch_view(v@) == old(self).working() + batch_view(batch@)
                    &&& final(self).forwarded() == old(self).forwarded() + batch_view(v@)
                    &&& final(self).working().len() == 0
                },
                None => {
                    &&& old(self).working().len() + batch@.len() < old(self).threshold()
                    &&& final(self).working() == old(self).working() + batch_view(batch@)
                    &&& final(self).forwarded() == old(self).forwarded()
                },
            }),
    {
        let ghost batchv = batch_view(batch@);
        let mut batch = batch;
        self.working.append(&mut batch);
        self.received = Ghost(self.received@ + batchv);
        proof {
            assert(batch_view(self.working@) =~= batch_view(old(self).working@) + batchv);
            assert(self.received@ =~= self.forwarded@ + batch_view(self.working@));
        }
        if self.working.len() >= self.threshold {
            let out = self.take_working();
            proof {
                assert(batch_view(out@) =~= old(self).working() + batchv);
            }
            Some(out)
        } else {
            None
        }
    }

    /// The bounded receive timed out with no input: if work is pending,
    /// return the whole working batch for emission even though it is below
    /// the size threshold.  This bounds end-to-end latency under low,
    /// sporadic measurement volume; an idle timeout with nothing pending
    /// emits nothing.
    pub fn on_timeout(&mut self) -> (out: Option<Vec<Record>>)
        requires
            old(self).wf(),
        ensures
            final(self).wf(),
            final(self).threshold() == old(self).threshold(),
            final(self).received() == old(self).received(),
            final(self).working().len() == 0,
            (match out {
                Some(v) => {
                    &&& old(self).working().len() > 0
                    &&& batch_view(v@) == old(self).working()
                    &&& final(self).forwarded() == old(self).forwarded() + batch_view(v@)
                },
                None => {
                    &&& old(self).working().len() == 0
                    &&& final(self).forwarded() == old(self).forwarded()
                },
            }),
    {
        if self.working.len() > 0 {
            let out = self.take_working();
            proof {
                assert(self.forwarded@ =~= old(self).forwarded@ + batch_view(out@));
            }
            Some(out)
        } else {
            None
        }
    }

    /// How many records sit in the working batch, awaiting a trigger.
    pub fn pending(&self) -> (n: usize)
        ensures
            n as nat == self.working().len(),
    {
        self.working.len()
    }
}

/// The aggregation stage loses nothing and keeps order: everything received
/// from the dispatch channel is either already forwarded to the emitter or
/// still in the working batch, with the forwarded part an exact prefix.
pub proof fn lemma_aggregator_conserves(agg: &Aggregator)
    requires
        agg.wf(),
    ensures
        agg.forwarded() + agg.working() == agg.received(),
        agg.forwarded().len() + agg.working().len() == agg.received().len(),
        agg.forwarded() == agg.received().take(agg.forwarded().len() as int),
{
    assert(agg.forwarded() =~= agg.received().take(agg.forwarded().len() as int));
}

} // verus!
