//! The per-entity producer as a state machine: the driver awaits each tick,
//! asks the producer what to do, performs any transmission, and reports back.
use crate::batch::Batch;
use crate::budget::Budget;
use crate::entity::{reading_in_range, PlaneData, Reading};
use vstd::prelude::*;

verus! {

#[derive(Clone, Copy, Debug, PartialEq, Eq, Structural)]
pub enum Phase {
    Running,
    Draining,
    Terminated,
}

/// What the driver does after a tick.
#[derive(Debug)]
pub enum Step {
    /// Nothing to send: await the next tick.
    Wait,
    /// Transmit these records as one batch, then report with `flush_done`.
    Flush(Vec<Reading>),
    /// The producer has terminated.
    Done,
}

pub open spec fn timestamps_in_order(s: Seq<Reading>) -> bool {
    forall|i: int, j: int| 0 <= i <= j < s.len() ==> s[i].timestamp <= s[j].timestamp
}

pub open spec fn all_in_range(s: Seq<Reading>) -> bool {
    forall|i: int| 0 <= i < s.len() ==> reading_in_range(#[trigger] s[i])
}

/// The effect of one `advance` with claim outcome `granted`, from `pre` to
/// `post`, handing out `r`.
pub open spec fn advanced(pre: &Producer, post: &Producer, granted: bool, r: &Step) -> bool {
    let reading = post.spec_emitted().last();
    &&& post.spec_delivered() == pre.spec_delivered()
    &&& post.spec_dropped() == pre.spec_dropped()
    &&& post.spec_batch_size() == pre.spec_batch_size()
    &&& post.spec_plane_id() == pre.spec_plane_id()
    &&& pre.spec_emitted().is_prefix_of(post.spec_emitted())
    &&& granted ==> {
        &&& post.spec_phase() == Phase::Running
        &&& post.spec_claimed() == pre.spec_claimed() + 1
        &&& post.spec_emitted() == pre.spec_handed_out() + pre.spec_buffered().push(reading)
        &&& if pre.spec_buffered().len() + 1 >= pre.spec_batch_size() {
            &&& r is Flush
            &&& r->Flush_0@ == pre.spec_buffered().push(reading)
            &&& post.spec_buffered().len() == 0
            &&& post.spec_pending() == Some(r->Flush_0@.len())
        } else {
            &&& r is Wait
            &&& post.spec_buffered() == pre.spec_buffered().push(reading)
            &&& post.spec_pending() is None
        }
    }
    &&& !granted ==> {
        &&& post.spec_claimed() == pre.spec_claimed()
        &&& post.spec_emitted() == pre.spec_emitted()
        &&& post.spec_buffered().len() == 0
        &&& if pre.spec_buffered().len() > 0 {
            &&& post.spec_phase() == Phase::Draining
            &&& r is Flush
            &&& r->Flush_0@ == pre.spec_buffered()
            &&& post.spec_pending() == Some(r->Flush_0@.len())
        } else {
            &&& post.spec_phase() == Phase::Terminated
            &&& r is Done
            &&& post.spec_pending() is None
        }
    }
}

/// The effect of reporting the outcome `ok` of the handed-out batch's
/// transmission, from `pre` to `post`.
pub open spec fn flush_reported(pre: &Producer, post: &Producer, ok: bool) -> bool {
    let n = pre.spec_pending()->Some_0;
    &&& post.spec_pending() is None
    &&& post.spec_claimed() == pre.spec_claimed()
    &&& post.spec_emitted() == pre.spec_emitted()
    &&& post.spec_handed_out() == pre.spec_handed_out()
    &&& post.spec_buffered() == pre.spec_buffered()
    &&& post.spec_batch_size() == pre.spec_batch_size()
    &&& post.spec_plane_id() == pre.spec_plane_id()
    &&& post.spec_delivered() == if ok { pre.spec_delivered() + n } else { pre.spec_delivered() }
    &&& post.spec_dropped() == if ok { pre.spec_dropped() } else { pre.spec_dropped() + n }
    &&& post.spec_phase() == if pre.spec_phase() == Phase::Draining {
        Phase::Terminated
    } else {
        pre.spec_phase()
    }
}

pub struct Producer {
    plane: PlaneData,
    batch: Batch<Reading>,
    phase: Phase,
    claimed: u64,
    delivered: u64,
    dropped: u64,
    pending: Option<usize>,
    emitted: Ghost<Seq<Reading>>,
    handed_out: Ghost<Seq<Reading>>,
}

impl Producer {
    pub closed spec fn spec_phase(&self) -> Phase {
        self.phase
    }

    pub closed spec fn spec_claimed(&self) -> nat {
        self.claimed as nat
    }

    pub closed spec fn spec_delivered(&self) -> nat {
        self.delivered as nat
    }

    pub closed spec fn spec_dropped(&self) -> nat {
        self.dropped as nat
    }

    /// Size of the batch handed to the driver and not yet reported.
    pub closed spec fn spec_pending(&self) -> Option<nat> {
        match self.pending {
            Some(n) => Some(n as nat),
            None => None,
        }
    }

    /// Records still buffered.
    pub closed spec fn spec_buffered(&self) -> Seq<Reading> {
        self.batch@
    }

    pub closed spec fn spec_batch_size(&self) -> nat {
        self.batch.spec_batch_size()
    }

    /// Every record this producer has generated, in generation order.
    pub closed spec fn spec_emitted(&self) -> Seq<Reading> {
        self.emitted@
    }

    /// Records handed to the driver for transmission, in order.
    pub closed spec fn spec_handed_out(&self) -> Seq<Reading> {
        self.handed_out@
    }

    pub closed spec fn spec_plane_id(&self) -> Seq<char> {
        self.plane.plane_id@
    }

    pub closed spec fn wf(&self) -> bool {
        &&& self.plane.wf()
        &&& self.batch.spec_batch_size() > 0
        &&& self.emitted@ == self.handed_out@ + self.batch@
        &&& self.emitted@.len() == self.claimed
        &&& timestamps_in_order(self.emitted@)
        &&& all_in_range(self.emitted@)
        &&& self.emitted@.len() > 0 ==> self.emitted@.last().timestamp <= self.plane.timestamp
        &&& self.delivered + self.dropped + self.batch@.len() + match self.pending {
            Some(n) => n as nat,
            None => 0,
        } == self.claimed
        &&& self.phase == Phase::Terminated ==> self.pending is None && self.batch@.len() == 0
        &&& self.phase == Phase::Draining ==> self.pending is Some && self.batch@.len() == 0
        &&& self.pending is Some ==> self.pending->Some_0 > 0
    }

    /// A producer for the entity `plane_id`, flushing every `batch_size`
    /// records.
    pub fn new(plane_id: String, batch_size: usize) -> (r: Producer)
        requires
            batch_size > 0,
        ensures
            r.wf(),
            r.spec_phase() == Phase::Running,
            r.spec_claimed() == 0,
            r.spec_delivered() == 0,
            r.spec_dropped() == 0,
            r.spec_pending() is None,
            r.spec_buffered().len() == 0,
            r.spec_emitted().len() == 0,
            r.spec_batch_size() == batch_size,
            r.spec_plane_id() == plane_id@,
    {
        Producer {
            plane: PlaneData::new(plane_id),
            batch: Batch::new(batch_size),
            phase: Phase::Running,
            claimed: 0,
            delivered: 0,
            dropped: 0,
            pending: None,
            emitted: Ghost(Seq::empty()),
            handed_out: Ghost(Seq::empty()),
        }
    }

    /// One tick: claims a unit from `budget` and acts on the outcome as
    /// `advance` describes.
    pub fn tick(&mut self, budget: &Budget) -> (r: Step)
        requires
            old(self).wf(),
            old(self).spec_phase() == Phase::Running,
            old(self).spec_pending() is None,
            old(self).spec_claimed() < u64::MAX,
        ensures
            final(self).wf(),
            advanced(old(self), final(self), true, &r) || advanced(
                old(self),
                final(self),
                false,
                &r,
            ),
    {
        let granted = budget.claim();
        self.advance(granted)
    }

    /// Acts on the outcome of a claim. A granted claim updates the entity,
    /// buffers its new reading and hands the batch out once it is full. A
    /// refused claim ends the run: a non-empty residual batch is handed out
    /// for one final flush, else the producer terminates at once.
    pub fn advance(&mut self, granted: bool) -> (r: Step)
        requires
            old(self).wf(),
            old(self).spec_phase() == Phase::Running,
            old(self).spec_pending() is None,
            granted ==> old(self).spec_claimed() < u64::MAX,
        ensures
            final(self).wf(),
            advanced(old(self), final(self), granted, &r),
    {
        if !granted {
            if self.batch.is_empty() {
                self.phase = Phase::Terminated;
                return Step::Done;
            }
            self.phase = Phase::Draining;
            let records = self.batch.drain();
            self.pending = Some(records.len());
            proof {
                self.handed_out@ = self.handed_out@ + records@;
            }
            return Step::Flush(records);
        }
        self.plane.update();
        let reading = self.plane.reading();
        proof {
            let old_emitted = self.emitted@;
            self.emitted@ = old_emitted.push(reading);
            assert(self.emitted@.last() == reading);
            assert forall|i: int, j: int| 0 <= i <= j < self.emitted@.len() implies
                self.emitted@[i].timestamp <= self.emitted@[j].timestamp by {
                if j == old_emitted.len() && i < j {
                    assert(old_emitted[i].timestamp <= old_emitted.last().timestamp);
                }
            }
            assert(self.emitted@ == self.handed_out@ + self.batch@.push(reading));
        }
        self.batch.append(reading);
        self.claimed = self.claimed + 1;
        if self.batch.should_flush() {
            let records = self.batch.drain();
            self.pending = Some(records.len());
            proof {
                self.handed_out@ = self.handed_out@ + records@;
                assert(self.emitted@ =~= self.handed_out@ + self.batch@);
            }
            Step::Flush(records)
        } else {
            Step::Wait
        }
    }

    /// Reports how the transmission of the handed-out batch went: its records
    /// count as delivered on success and as dropped on failure; they are
    /// never retried. A producer that was draining then terminates.
    pub fn flush_done(&mut self, ok: bool) -> (finished: bool)
        requires
            old(self).wf(),
            old(self).spec_pending() is Some,
        ensures
            final(self).wf(),
            flush_reported(old(self), final(self), ok),
            finished == (final(self).spec_phase() == Phase::Terminated),
    {
        let n = match self.pending {
            Some(n) => n,
            None => 0,
        };
        if ok {
            self.delivered = self.delivered + n as u64;
        } else {
            self.dropped = self.dropped + n as u64;
        }
        self.pending = None;
        if self.phase == Phase::Draining {
            self.phase = Phase::Terminated;
        }
        self.phase == Phase::Terminated
    }

    proof fn lemma_wf_facts(&self)
        requires
            self.wf(),
        ensures
            timestamps_in_order(self.spec_emitted()),
            all_in_range(self.spec_emitted()),
            self.spec_emitted().len() == self.spec_claimed(),
            self.spec_emitted() == self.spec_handed_out() + self.spec_buffered(),
            self.spec_delivered() + self.spec_dropped() + self.spec_buffered().len()
                + match self.spec_pending() {
                Some(n) => n,
                None => 0,
            } == self.spec_claimed(),
            self.spec_phase() == Phase::Terminated ==> self.spec_pending() is None
                && self.spec_buffered().len() == 0,
    {
    }

    pub fn phase(&self) -> (r: Phase)
        ensures
            r == self.spec_phase(),
    {
        self.phase
    }

    /// Records claimed from the budget by this producer.
    pub fn rows_claimed(&self) -> (r: u64)
        ensures
            r == self.spec_claimed(),
    {
        self.claimed
    }

    /// Records in batches that reached the sink.
    pub fn rows_delivered(&self) -> (r: u64)
        ensures
            r == self.spec_delivered(),
    {
        self.delivered
    }

    /// Records in batches whose transmission failed.
    pub fn rows_dropped(&self) -> (r: u64)
        ensures
            r == self.spec_dropped(),
    {
        self.dropped
    }

    pub fn plane_id(&self) -> (r: &String)
        ensures
            r@ == self.spec_plane_id(),
    {
        &self.plane.plane_id
    }
}

/// The timestamps of the records a producer emits never decrease, in
/// whatever state the producer is observed.
pub proof fn law_timestamps_non_decreasing(p: &Producer, i: int, j: int)
    requires
        p.wf(),
        0 <= i <= j < p.spec_emitted().len(),
    ensures
        p.spec_emitted()[i].timestamp <= p.spec_emitted()[j].timestamp,
{
    p.lemma_wf_facts();
}

/// Every attribute of every emitted record lies within its declared range.
pub proof fn law_emitted_in_range(p: &Producer, i: int)
    requires
        p.wf(),
        0 <= i < p.spec_emitted().len(),
    ensures
        reading_in_range(p.spec_emitted()[i]),
{
    p.lemma_wf_facts();
}

/// Every claimed row is accounted for exactly once: delivered, dropped with a
/// failed batch, awaiting its transmission, or still buffered. Records leave
/// in the order they were generated. Once the producer has terminated, the
/// delivered rows are the claimed rows less those of failed batches.
pub proof fn law_rows_accounted(p: &Producer)
    requires
        p.wf(),
    ensures
        p.spec_emitted().len() == p.spec_claimed(),
        p.spec_emitted() == p.spec_handed_out() + p.spec_buffered(),
        p.spec_delivered() + p.spec_dropped() + p.spec_buffered().len() + match p.spec_pending() {
            Some(n) => n,
            None => 0,
        } == p.spec_claimed(),
        p.spec_phase() == Phase::Terminated ==> p.spec_delivered() + p.spec_dropped()
            == p.spec_claimed(),
{
    p.lemma_wf_facts();
}

/// A failed transmission costs exactly its own batch: against the same
/// producer, the outcome after a failure has delivered precisely the batch's
/// size fewer rows than the outcome after a success, and has claimed exactly
/// as many rows from the budget.
pub proof fn law_failed_flush_loses_its_batch(
    pre: &Producer,
    after_success: &Producer,
    after_failure: &Producer,
)
    requires
        pre.wf(),
        pre.spec_pending() is Some,
        flush_reported(pre, after_success, true),
        flush_reported(pre, after_failure, false),
    ensures
        after_failure.spec_delivered() + pre.spec_pending()->Some_0
            == after_success.spec_delivered(),
        after_failure.spec_dropped() == after_success.spec_dropped()
            + pre.spec_pending()->Some_0,
        after_failure.spec_claimed() == after_success.spec_claimed(),
{
}

/// Rows claimed by all of `ps` together.
pub open spec fn total_claimed(ps: Seq<Producer>) -> nat
    decreases ps.len(),
{
    if ps.len() == 0 {
        0
    } else {
        total_claimed(ps.drop_last()) + ps.last().spec_claimed()
    }
}

/// Rows delivered by all of `ps` together.
pub open spec fn total_delivered(ps: Seq<Producer>) -> nat
    decreases ps.len(),
{
    if ps.len() == 0 {
        0
    } else {
        total_delivered(ps.drop_last()) + ps.last().spec_delivered()
    }
}

/// Rows dropped with failed batches by all of `ps` together.
pub open spec fn total_dropped(ps: Seq<Producer>) -> nat
    decreases ps.len(),
{
    if ps.len() == 0 {
        0
    } else {
        total_dropped(ps.drop_last()) + ps.last().spec_dropped()
    }
}

/// Once every producer of a run has terminated, the rows delivered across
/// the run are the rows claimed across the run less the rows of the failed
/// batches: a failure loses exactly its batch and nothing else.
pub proof fn law_run_accounted(ps: Seq<Producer>)
    requires
        forall|i: int| 0 <= i < ps.len() ==> (#[trigger] ps[i]).wf(),
        forall|i: int| 0 <= i < ps.len() ==> (#[trigger] ps[i]).spec_phase() == Phase::Terminated,
    ensures
        total_delivered(ps) + total_dropped(ps) == total_claimed(ps),
    decreases ps.len(),
{
    if ps.len() > 0 {
        let rest = ps.drop_last();
        assert forall|i: int| 0 <= i < rest.len() implies (#[trigger] rest[i]).wf()
            && rest[i].spec_phase() == Phase::Terminated by {
            assert(rest[i] == ps[i]);
        }
        law_run_accounted(rest);
        law_rows_accounted(&ps[ps.len() - 1]);
    }
}

} // verus!
