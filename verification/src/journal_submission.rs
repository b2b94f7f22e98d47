//! Batch deadlines, submission authority, and exact cursor advancement.

use vstd::prelude::*;
use crate::barrier::GapBarrierObservation;
use crate::journal::{
    DeferredEvent, QueueModel, RecoveryEdgeJournal, SourceModel, ring_position, spec_empty_edge,
    DEFERRED_EDGE_CAPACITY, DEFERRED_POOL_BANKS, EXTERNAL_DEFERRED_COLLECTION_TIMEOUT_MS,
    OVERFLOW_BALANCE_CAPACITY, SUBMISSION_TIMEOUT_MS,
};
use crate::journal_overflow::{
    clear_prefix, deadline_after, in_ring_window, m_enter_overflow, m_finalize, m_materialize,
    min_nat, q_enter_overflow, q_has_external, q_materialize, q_materialize_ready, q_refresh, q_retain,
};
use crate::native_event::InputSource;

verus! {

/// Appending an edge: an external edge arms the collection deadline; in
/// overflow, or when the target buffer is full, the edge goes to the ring
/// (and is reported as not appended); otherwise it is appended to the tail
/// while a submission holds authority, and to pending otherwise.
pub open spec fn q_append(q: QueueModel, m: SourceModel, edge: DeferredEvent, now: u64) -> (bool, QueueModel, SourceModel) {
    let q0 = if edge.source == InputSource::External && q.external_collection_deadline is None {
        QueueModel {
            external_collection_deadline: Some(deadline_after(now, EXTERNAL_DEFERRED_COLLECTION_TIMEOUT_MS)),
            ..q
        }
    } else {
        q
    };
    if q0.overflow {
        let q1 = q_retain(q0, edge);
        (false, q_materialize(q1, now), m_materialize(q1, m))
    } else {
        let full = if q0.token is Some {
            q0.tail_len == DEFERRED_EDGE_CAPACITY
        } else {
            q0.pending_len == DEFERRED_EDGE_CAPACITY
        };
        if full {
            let q1 = q_enter_overflow(q0);
            let m1 = m_enter_overflow(q0, m);
            let q2 = q_retain(q1, edge);
            (false, q_materialize(q2, now), m_materialize(q2, m1))
        } else if q0.token is Some {
            (true, QueueModel { tail: q0.tail.update(q0.tail_len as int, edge), tail_len: q0.tail_len + 1, ..q0 }, m)
        } else {
            (
                true,
                QueueModel { pending: q0.pending.update(q0.pending_len as int, edge), pending_len: q0.pending_len + 1, ..q0 },
                m,
            )
        }
    }
}

pub open spec fn q_begin(q: QueueModel, token: u64, bank: usize, count: usize, now: u64) -> (bool, QueueModel) {
    if q.token is Some || count == 0 || count > q.pending_len {
        (false, q)
    } else {
        let suffix = q.pending_len - count;
        if q.tail_len + suffix > DEFERRED_EDGE_CAPACITY {
            (false, q)
        } else {
            (
                true,
                q_refresh(
                    QueueModel {
                        tail: Seq::new(
                            q.tail.len(),
                            |i: int| if q.tail_len <= i < q.tail_len + suffix { q.pending[count + i - q.tail_len] } else { q.tail[i] },
                        ),
                        pending: Seq::new(
                            q.pending.len(),
                            |i: int| if count <= i < q.pending_len { spec_empty_edge() } else { q.pending[i] },
                        ),
                        tail_len: (q.tail_len + suffix) as nat,
                        pending_len: count as nat,
                        submitted_len: count as nat,
                        observed: 0,
                        token: Some(token),
                        next_pool_bank: ((bank + 1) % (DEFERRED_POOL_BANKS as int)) as nat,
                        submission_deadline: Some(deadline_after(now, SUBMISSION_TIMEOUT_MS)),
                        ..q
                    },
                    now,
                ),
            )
        }
    }
}

pub open spec fn q_advance(q: QueueModel, m: SourceModel, now: u64) -> (GapBarrierObservation, QueueModel, SourceModel) {
    if q.token is None || q.observed >= q.submitted_len {
        (GapBarrierObservation::Forged, q, m)
    } else if q.observed + 1 != q.submitted_len {
        (GapBarrierObservation::Down, QueueModel { observed: q.observed + 1, ..q }, m)
    } else {
        let q1 = QueueModel {
            pending: clear_prefix(q.pending, q.pending_len as int),
            pending_len: 0,
            submitted_len: 0,
            observed: 0,
            token: None,
            submission_deadline: None,
            ..q
        };
        if q.overflow {
            (GapBarrierObservation::Complete, q_refresh(q_materialize(q1, now), now), m_materialize(q1, m))
        } else {
            let q2 = QueueModel {
                pending: Seq::new(q1.pending.len(), |i: int| if i < q.tail_len { q.tail[i] } else { q1.pending[i] }),
                tail: clear_prefix(q.tail, q.tail_len as int),
                pending_len: q.tail_len,
                tail_len: 0,
                ..q1
            };
            (GapBarrierObservation::Complete, q_refresh(q2, now), m)
        }
    }
}

pub open spec fn q_expire(q: QueueModel, m: SourceModel, now: u64) -> (bool, QueueModel, SourceModel) {
    if q.token is Some || !(q.external_collection_deadline is Some && now >= q.external_collection_deadline->0) {
        (false, q, m)
    } else {
        let q1 = q_enter_overflow(q);
        let m1 = m_enter_overflow(q, m);
        (true, q_materialize(q1, now), m_materialize(q1, m1))
    }
}

impl RecoveryEdgeJournal {
    fn has_external(&self) -> (external: bool)
        requires
            self.wf(),
        ensures
            external == q_has_external(self.queue()),
    {
        let mut i: usize = 0;
        while i < self.pending_len
            invariant
                self.wf(),
                i <= self.pending_len,
                forall|j: int| 0 <= j < i ==> self.pending@[j].source != InputSource::External,
            decreases self.pending_len - i,
        {
            if self.pending[i].source == InputSource::External {
                return true;
            }
            i = i + 1;
        }
        let mut i: usize = 0;
        while i < self.tail_len
            invariant
                self.wf(),
                i <= self.tail_len,
                forall|j: int| 0 <= j < i ==> self.tail@[j].source != InputSource::External,
            decreases self.tail_len - i,
        {
            if self.tail[i].source == InputSource::External {
                return true;
            }
            i = i + 1;
        }
        let mut offset: usize = 0;
        while offset < self.overflow_balance_len
            invariant
                self.wf(),
                offset <= self.overflow_balance_len,
                forall|j: int|
                    0 <= j < offset ==> (#[trigger] self.overflow_balances@[ring_position(self.overflow_balance_head as int, j)]).source
                        != InputSource::External,
            decreases self.overflow_balance_len - offset,
        {
            let mut index = self.overflow_balance_head + offset;
            if index >= OVERFLOW_BALANCE_CAPACITY {
                index = index - OVERFLOW_BALANCE_CAPACITY;
            }
            assert(index == ring_position(self.overflow_balance_head as int, offset as int));
            if self.overflow_balances[index].source == InputSource::External {
                return true;
            }
            offset = offset + 1;
        }
        false
    }

    /// Arms the external collection deadline once while an external edge
    /// is retained, and clears it when none remains.
    pub fn refresh_external_collection_deadline(&mut self, now: u64)
        requires
            old(self).wf(),
        ensures
            final(self).wf(),
            final(self).queue() == q_refresh(old(self).queue(), now),
            final(self).sources() == old(self).sources(),
            final(self).owned() == old(self).owned(),
    {
        if self.has_external() {
            if self.external_collection_deadline.is_none() {
                self.external_collection_deadline = Some(now.saturating_add(EXTERNAL_DEFERRED_COLLECTION_TIMEOUT_MS));
            }
        } else {
            self.external_collection_deadline = None;
        }
    }

    /// Once the external collection deadline has passed and no submission
    /// holds authority, ends collection by entering overflow and batching
    /// the retained balances.
    pub fn expire_external_collection(&mut self, now: u64) -> (expired: bool)
        requires
            old(self).wf(),
        ensures
            final(self).wf(),
            (expired, final(self).queue(), final(self).sources()) == q_expire(old(self).queue(), old(self).sources(), now),
            final(self).owned() == old(self).owned(),
    {
        let due = match self.external_collection_deadline {
            Some(deadline) => now >= deadline,
            None => false,
        };
        if self.token.is_some() || !due {
            return false;
        }
        self.enter_overflow();
        self.materialize_overflow_batch(now);
        true
    }

    /// Appends a deferred edge in arrival order. Returns false when the edge
    /// could not be appended and the journal is in overflow instead.
    pub fn append(&mut self, edge: DeferredEvent, now: u64) -> (appended: bool)
        requires
            old(self).wf(),
            edge.key_code < 128,
        ensures
            final(self).wf(),
            (appended, final(self).queue(), final(self).sources()) == q_append(old(self).queue(), old(self).sources(), edge, now),
            final(self).owned() == old(self).owned(),
    {
        if edge.source == InputSource::External && self.external_collection_deadline.is_none() {
            self.external_collection_deadline = Some(now.saturating_add(EXTERNAL_DEFERRED_COLLECTION_TIMEOUT_MS));
        }
        if self.overflow {
            self.retain_overflow_edge(edge);
            self.materialize_overflow_batch(now);
            return false;
        }
        let full = if self.token.is_some() {
            self.tail_len == DEFERRED_EDGE_CAPACITY
        } else {
            self.pending_len == DEFERRED_EDGE_CAPACITY
        };
        if full {
            self.enter_overflow();
            self.retain_overflow_edge(edge);
            self.materialize_overflow_batch(now);
            return false;
        }
        if self.token.is_some() {
            self.tail.set(self.tail_len, edge);
            self.tail_len = self.tail_len + 1;
        } else {
            self.pending.set(self.pending_len, edge);
            self.pending_len = self.pending_len + 1;
        }
        true
    }

    /// Moves the oldest retained balances, up to one buffer, into the empty
    /// pending buffer once no submission holds authority; an empty ring
    /// ends overflow.
    pub fn materialize_overflow_batch(&mut self, now: u64)
        requires
            old(self).wf(),
        ensures
            final(self).wf(),
            final(self).queue() == q_materialize(old(self).queue(), now),
            final(self).sources() == m_materialize(old(self).queue(), old(self).sources()),
            final(self).owned() == old(self).owned(),
    {
        if !self.overflow || self.token.is_some() || self.pending_len != 0 {
            return;
        }
        self.finalize_discarded_hidden_phases();
        let ghost q = self.queue();
        let count = if self.overflow_balance_len <= DEFERRED_EDGE_CAPACITY {
            self.overflow_balance_len
        } else {
            DEFERRED_EDGE_CAPACITY
        };
        let head = self.overflow_balance_head;
        let mut index: usize = 0;
        while index < count
            invariant
                self.wf(),
                index <= count,
                count <= DEFERRED_EDGE_CAPACITY,
                count <= q.overflow_balance_len,
                head == q.overflow_balance_head,
                self.queue() == (QueueModel {
                    pending: self.pending@,
                    overflow_balances: self.overflow_balances@,
                    ..q
                }),
                self.pending@ == Seq::new(
                    q.pending.len(),
                    |i: int| if i < index { q.overflow_balances[ring_position(head as int, i)] } else { q.pending[i] },
                ),
                self.overflow_balances@ == Seq::new(
                    q.overflow_balances.len(),
                    |p: int| if in_ring_window(head as int, index as int, p) { spec_empty_edge() } else { q.overflow_balances[p] },
                ),
                self.sources() == m_finalize(old(self).sources()),
                self.owned() == old(self).owned(),
                q.pending.len() == DEFERRED_EDGE_CAPACITY,
                q.overflow_balances.len() == OVERFLOW_BALANCE_CAPACITY,
            decreases count - index,
        {
            let mut ring_index = head + index;
            if ring_index >= OVERFLOW_BALANCE_CAPACITY {
                ring_index = ring_index - OVERFLOW_BALANCE_CAPACITY;
            }
            assert(ring_index == ring_position(head as int, index as int));
            assert(!in_ring_window(head as int, index as int, ring_index as int));
            let edge = self.overflow_balances[ring_index];
            self.pending.set(index, edge);
            self.overflow_balances.set(ring_index, DeferredEvent::empty());
            assert(self.pending@ =~= Seq::new(
                q.pending.len(),
                |i: int| if i < index + 1 { q.overflow_balances[ring_position(head as int, i)] } else { q.pending[i] },
            ));
            assert(self.overflow_balances@ =~= Seq::new(
                q.overflow_balances.len(),
                |p: int| if in_ring_window(head as int, index + 1, p) { spec_empty_edge() } else { q.overflow_balances[p] },
            ));
            index = index + 1;
        }
        let mut new_head = head + count;
        if new_head >= OVERFLOW_BALANCE_CAPACITY {
            new_head = new_head - OVERFLOW_BALANCE_CAPACITY;
        }
        self.overflow_balance_head = new_head;
        self.overflow_balance_len = self.overflow_balance_len - count;
        self.pending_len = count;
        if count == 0 {
            self.overflow = false;
        }
        self.refresh_external_collection_deadline(now);
    }

    /// The ready prefix of the pending batch, if any edge is ready.
    pub fn ready_slice(&self) -> (ready: Option<&[DeferredEvent]>)
        requires
            self.wf(),
        ensures
            ready matches Some(edges) ==> edges@ == self.pending@.subrange(0, self.spec_ready_len() as int)
                && edges@.len() > 0,
            ready is None <==> self.spec_ready_len() == 0,
    {
        let ready = self.ready_len();
        if ready == 0 {
            None
        } else {
            Some(vstd::slice::slice_subrange(self.pending.as_slice(), 0, ready))
        }
    }

    /// Grants submission authority to the first `count` pending edges; the
    /// rest of the pending batch moves, in order, behind the tail.
    pub fn begin_submission(&mut self, token: u64, bank: usize, count: usize, now: u64) -> (begun: bool)
        requires
            old(self).wf(),
            bank < usize::MAX,
        ensures
            final(self).wf(),
            (begun, final(self).queue()) == q_begin(old(self).queue(), token, bank, count, now),
            final(self).sources() == old(self).sources(),
            final(self).owned() == old(self).owned(),
    {
        if self.token.is_some() || count == 0 || count > self.pending_len {
            return false;
        }
        let suffix = self.pending_len - count;
        if self.tail_len + suffix > DEFERRED_EDGE_CAPACITY {
            return false;
        }
        let ghost q = self.queue();
        let mut index: usize = 0;
        while index < suffix
            invariant
                self.wf(),
                index <= suffix,
                suffix == q.pending_len - count,
                q.tail_len + suffix <= DEFERRED_EDGE_CAPACITY,
                count <= q.pending_len,
                q == old(self).queue(),
                self.sources() == old(self).sources(),
                self.owned() == old(self).owned(),
                self.queue() == (QueueModel { pending: self.pending@, tail: self.tail@, ..q }),
                self.tail@ == Seq::new(
                    q.tail.len(),
                    |i: int| if q.tail_len <= i < q.tail_len + index { q.pending[count + i - q.tail_len] } else { q.tail[i] },
                ),
                self.pending@ == Seq::new(
                    q.pending.len(),
                    |i: int| if count <= i < count + index { spec_empty_edge() } else { q.pending[i] },
                ),
            decreases suffix - index,
        {
            let edge = self.pending[count + index];
            self.tail.set(self.tail_len + index, edge);
            self.pending.set(count + index, DeferredEvent::empty());
            assert(self.tail@ =~= Seq::new(
                q.tail.len(),
                |i: int| if q.tail_len <= i < q.tail_len + index + 1 { q.pending[count + i - q.tail_len] } else { q.tail[i] },
            ));
            assert(self.pending@ =~= Seq::new(
                q.pending.len(),
                |i: int| if count <= i < count + index + 1 { spec_empty_edge() } else { q.pending[i] },
            ));
            index = index + 1;
        }
        self.tail_len = self.tail_len + suffix;
        self.pending_len = count;
        self.submitted_len = count;
        self.observed = 0;
        self.token = Some(token);
        self.next_pool_bank = (bank + 1) % DEFERRED_POOL_BANKS;
        self.submission_deadline = Some(now.saturating_add(SUBMISSION_TIMEOUT_MS));
        self.refresh_external_collection_deadline(now);
        true
    }

    /// The next submitted edge whose exact observation is expected.
    pub fn expected(&self) -> (edge: Option<DeferredEvent>)
        requires
            self.wf(),
        ensures
            edge == if self.token is Some && self.observed < self.submitted_len {
                Some(self.pending@[self.observed as int])
            } else {
                None
            },
    {
        if self.token.is_some() && self.observed < self.submitted_len {
            Some(self.pending[self.observed])
        } else {
            None
        }
    }

    /// Advances the exact observation cursor of the submitted batch. When
    /// the last submitted edge is observed, authority ends and the tail (or,
    /// in overflow, the next retained batch) becomes pending.
    pub fn advance_observation(&mut self, now: u64) -> (observation: GapBarrierObservation)
        requires
            old(self).wf(),
        ensures
            final(self).wf(),
            (observation, final(self).queue(), final(self).sources()) == q_advance(old(self).queue(), old(self).sources(), now),
            final(self).owned() == old(self).owned(),
    {
        if self.token.is_none() || self.observed >= self.submitted_len {
            return GapBarrierObservation::Forged;
        }
        self.observed = self.observed + 1;
        if self.observed != self.submitted_len {
            return GapBarrierObservation::Down;
        }
        let ghost q = old(self).queue();
        let len = self.pending_len;
        let mut j: usize = 0;
        while j < len
            invariant
                self.wf(),
                j <= len,
                len == self.pending_len,
                len == q.pending_len,
                q == old(self).queue(),
                self.sources() == old(self).sources(),
                self.owned() == old(self).owned(),
                self.queue() == (QueueModel { pending: clear_prefix(q.pending, j as int), observed: q.observed + 1, ..q }),
            decreases len - j,
        {
            self.pending.set(j, DeferredEvent::empty());
            assert(self.pending@ =~= clear_prefix(q.pending, (j + 1) as int));
            j = j + 1;
        }
        self.pending_len = 0;
        self.submitted_len = 0;
        self.observed = 0;
        self.token = None;
        self.submission_deadline = None;
        if self.overflow {
            self.materialize_overflow_batch(now);
        } else {
            let tail_len = self.tail_len;
            let ghost cleared = self.pending@;
            let mut index: usize = 0;
            while index < tail_len
                invariant
                    self.wf(),
                    index <= tail_len,
                    tail_len == self.tail_len,
                    tail_len == q.tail_len,
                    self.pending_len == 0,
                    self.token is None,
                    self.sources() == old(self).sources(),
                    self.owned() == old(self).owned(),
                    cleared == clear_prefix(q.pending, q.pending_len as int),
                    self.pending@ == Seq::new(cleared.len(), |i: int| if i < index { q.tail[i] } else { cleared[i] }),
                    self.tail@ == clear_prefix(q.tail, index as int),
                    self.queue() == (QueueModel {
                        pending: self.pending@,
                        tail: self.tail@,
                        pending_len: 0,
                        submitted_len: 0,
                        observed: 0,
                        token: None,
                        submission_deadline: None,
                        ..q
                    }),
                decreases tail_len - index,
            {
                let edge = self.tail[index];
                self.pending.set(index, edge);
                self.tail.set(index, DeferredEvent::empty());
                assert(self.pending@ =~= Seq::new(cleared.len(), |i: int| if i < index + 1 { q.tail[i] } else { cleared[i] }));
                assert(self.tail@ =~= clear_prefix(q.tail, (index + 1) as int));
                index = index + 1;
            }
            self.pending_len = tail_len;
            self.tail_len = 0;
        }
        self.refresh_external_collection_deadline(now);
        GapBarrierObservation::Complete
    }

    /// Batches retained balances once the journal can.
    pub fn settle_overflow(&mut self, now: u64)
        requires
            old(self).wf(),
        ensures
            final(self).wf(),
            final(self).queue() == q_materialize(old(self).queue(), now),
            final(self).sources() == m_materialize(old(self).queue(), old(self).sources()),
            final(self).owned() == old(self).owned(),
    {
        self.materialize_overflow_batch(now);
    }
}

} // verus!
