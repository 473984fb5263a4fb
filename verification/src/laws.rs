use vstd::prelude::*;

use crate::aggregator::lemma_aggregator_conserves;
use crate::aggregator::Aggregator;
use crate::buffer::lemma_buffer_occupancy;
use crate::buffer::lemma_no_loss;
use crate::buffer::LocalBuffer;

verus! {

/// Ordering and no-loss, end to end for one producer thread: while the
/// channel has accepted every batch (nothing lost) and the aggregator has
/// received exactly what the buffer delivered — which the channel
/// guarantees, being a queue with this aggregator as its sole consumer —
/// the records forwarded to the emitter, then those waiting in the working
/// batch, then those still in the thread's buffer, are exactly the records
/// the thread measured, in creation order.  In particular what the emitter
/// frames for the sink is a prefix of the measured history: no record is
/// lost, duplicated or reordered on the way.
pub proof fn lemma_pipeline_order(buf: &LocalBuffer, agg: &Aggregator)
    requires
        buf.wf(),
        agg.wf(),
        buf.lost() == 0,
        agg.received() == buf.delivered(),
    ensures
        agg.forwarded() + agg.working() + buf.buffered() == buf.pushed(),
        agg.forwarded().len() + agg.working().len() + buf.buffered().len() == buf.pushed().len(),
        agg.forwarded() == buf.pushed().take(agg.forwarded().len() as int),
{
    lemma_no_loss(buf);
    lemma_aggregator_conserves(agg);
    assert(agg.forwarded() + agg.working() + buf.buffered() =~= buf.pushed());
    assert(agg.forwarded() =~= buf.pushed().take(agg.forwarded().len() as int));
}

/// The total of a sequence of occupancy counts.
pub open spec fn sum_counts(s: Seq<nat>) -> nat
    decreases s.len(),
{
    if s.len() == 0 {
        0
    } else {
        sum_counts(s.drop_last()) + s.last()
    }
}

/// A sequence of counts each at most `bound` totals at most
/// `len * bound`.
proof fn lemma_sum_bounded(s: Seq<nat>, bound: nat)
    requires
        forall|i: int| 0 <= i < s.len() ==> s[i] <= bound,
    ensures
        sum_counts(s) <= s.len() * bound,
    decreases s.len(),
{
    if s.len() > 0 {
        assert forall|i: int| 0 <= i < s.drop_last().len() implies s.drop_last()[i]
            <= bound by {
            assert(s.drop_last()[i] == s[i]);
        }
        lemma_sum_bounded(s.drop_last(), bound);
        assert(s.last() <= bound);
        assert((s.len() - 1) * bound + bound == s.len() * bound) by (nonlinear_arith);
    }
}

/// Bounded memory at the producers: any number of well-formed thread-local
/// buffers whose capacities are at most `l` hold, all together, fewer than
/// `l` records per thread — each one's invariant keeps it strictly below
/// its own capacity between operations.
pub proof fn lemma_buffers_bounded(bufs: Seq<LocalBuffer>, l: nat)
    requires
        forall|i: int| 0 <= i < bufs.len() ==> (#[trigger] bufs[i]).wf() && bufs[i].capacity()
            <= l,
    ensures
        sum_counts(bufs.map_values(|b: LocalBuffer| b.buffered().len())) <= bufs.len() * l,
{
    let fills = bufs.map_values(|b: LocalBuffer| b.buffered().len());
    assert forall|i: int| 0 <= i < fills.len() implies fills[i] <= l by {
        lemma_buffer_occupancy(&bufs[i]);
    }
    lemma_sum_bounded(fills, l);
}

/// Bounded memory: the records buffered but not yet taken by the aggregator
/// never exceed a bound fixed by the configuration.  Every thread-local
/// buffer holds at most `l` records (its invariant keeps it strictly below
/// its capacity between operations), and the dispatch channel holds at most
/// `c` batches — its construction bound — of at most `l` records each,
/// since every hand-off sends a batch no larger than the buffer that
/// accumulated it.  So across any number of producer threads the total is
/// at most `l` records per thread plus `l·c` in the channel; no workload
/// grows it further, because a buffer at capacity hands off or drops rather
/// than allocate beyond `L`.
pub proof fn lemma_bounded_memory(buffer_fill: Seq<nat>, channel_batches: Seq<nat>, l: nat, c: nat)
    requires
        forall|i: int| 0 <= i < buffer_fill.len() ==> buffer_fill[i] <= l,
        channel_batches.len() <= c,
        forall|i: int| 0 <= i < channel_batches.len() ==> channel_batches[i] <= l,
    ensures
        sum_counts(buffer_fill) + sum_counts(channel_batches) <= buffer_fill.len() * l + c * l,
{
    lemma_sum_bounded(buffer_fill, l);
    lemma_sum_bounded(channel_batches, l);
    assert(channel_batches.len() * l <= c * l) by (nonlinear_arith)
        requires
            channel_batches.len() <= c,
    ;
}

} // verus!
