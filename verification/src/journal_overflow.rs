//! Overflow preserves exposed balancing edges and external ordering.

use vstd::prelude::*;
use crate::journal::{
    DeferredEvent, QueueModel, RecoveryEdgeJournal, SourceModel, button_bit, cell, ring_position,
    spec_button_bit, spec_empty_edge, DEFERRED_EDGE_CAPACITY, EXTERNAL_DEFERRED_COLLECTION_TIMEOUT_MS,
    OVERFLOW_BALANCE_CAPACITY,
};
use crate::journal_sources::existing_slot_of;
use crate::native_event::{InputSource, spec_is_mouse_event_type};

verus! {

/// Whether overflow keeps an edge: external edges keep their ordering, and
/// an edge that balances a foreground-visible phase must be replayed.
pub open spec fn retainable(edge: DeferredEvent) -> bool {
    edge.source == InputSource::External || edge.foreground_balance
}

/// The overflow ring after offering it `edge`.
pub open spec fn q_retain(q: QueueModel, edge: DeferredEvent) -> QueueModel {
    if !retainable(edge) || q.overflow_balance_len == OVERFLOW_BALANCE_CAPACITY {
        q
    } else {
        QueueModel {
            overflow_balances: q.overflow_balances.update(
                ring_position(q.overflow_balance_head as int, q.overflow_balance_len as int),
                edge,
            ),
            overflow_balance_len: q.overflow_balance_len + 1,
            ..q
        }
    }
}

/// The overflow ring after offering it each of `edges` in order.
pub open spec fn q_retain_all(q: QueueModel, edges: Seq<DeferredEvent>) -> QueueModel
    decreases edges.len(),
{
    if edges.len() == 0 {
        q
    } else {
        q_retain(q_retain_all(q, edges.drop_last()), edges.last())
    }
}

/// `s` with its first `n` entries cleared.
pub open spec fn clear_prefix(s: Seq<DeferredEvent>, n: int) -> Seq<DeferredEvent> {
    Seq::new(s.len(), |i: int| if i < n { spec_empty_edge() } else { s[i] })
}

/// The live overflow ring of a queue model, oldest first.
pub open spec fn q_overflow_seq(q: QueueModel) -> Seq<DeferredEvent> {
    Seq::new(
        q.overflow_balance_len,
        |i: int| q.overflow_balances[ring_position(q.overflow_balance_head as int, i)],
    )
}

pub open spec fn q_pending_seq(q: QueueModel) -> Seq<DeferredEvent> {
    q.pending.subrange(0, q.pending_len as int)
}

pub open spec fn q_tail_seq(q: QueueModel) -> Seq<DeferredEvent> {
    q.tail.subrange(0, q.tail_len as int)
}

/// Whether any live pending, tail or overflow edge is external.
pub open spec fn q_has_external(q: QueueModel) -> bool {
    ||| exists|i: int| 0 <= i < q.pending_len && (#[trigger] q.pending[i]).source == InputSource::External
    ||| exists|i: int| 0 <= i < q.tail_len && (#[trigger] q.tail[i]).source == InputSource::External
    ||| exists|i: int|
        0 <= i < q.overflow_balance_len
            && (#[trigger] q.overflow_balances[ring_position(q.overflow_balance_head as int, i)]).source
            == InputSource::External
}

/// `now` plus a collection timeout, saturating at the end of the clock.
pub open spec fn deadline_after(now: u64, timeout: u64) -> u64 {
    if now + timeout > u64::MAX {
        u64::MAX
    } else {
        (now + timeout) as u64
    }
}

/// A collection deadline is armed once while external edges are retained
/// and cleared when none remain.
pub open spec fn q_refresh(q: QueueModel, now: u64) -> QueueModel {
    if q_has_external(q) {
        QueueModel {
            external_collection_deadline: if q.external_collection_deadline is Some {
                q.external_collection_deadline
            } else {
                Some(deadline_after(now, EXTERNAL_DEFERRED_COLLECTION_TIMEOUT_MS))
            },
            ..q
        }
    } else {
        QueueModel { external_collection_deadline: None, ..q }
    }
}

/// Hidden physical phases still held when their edges are discarded become
/// discard fences; their held state is dropped.
pub open spec fn m_finalize(m: SourceModel) -> SourceModel {
    let hidden = |i: int| i < 256 && m.key_origins[i] == 1 && m.held_keys[i];
    let hidden_mouse0 = m.held_mouse_buttons[0] & !m.mouse_foreground_origins[0];
    let hidden_mouse1 = m.held_mouse_buttons[1] & !m.mouse_foreground_origins[1];
    SourceModel {
        discard_key_fences: Seq::new(m.discard_key_fences.len(), |i: int| if hidden(i) { true } else { m.discard_key_fences[i] }),
        held_keys: Seq::new(m.held_keys.len(), |i: int| if hidden(i) { false } else { m.held_keys[i] }),
        key_origins: Seq::new(m.key_origins.len(), |i: int| if hidden(i) { 0u8 } else { m.key_origins[i] }),
        discard_mouse_fences: m.discard_mouse_fences.update(0, m.discard_mouse_fences[0] | hidden_mouse0).update(
            1,
            m.discard_mouse_fences[1] | hidden_mouse1,
        ),
        held_mouse_buttons: m.held_mouse_buttons.update(0, m.held_mouse_buttons[0] & !hidden_mouse0).update(
            1,
            m.held_mouse_buttons[1] & !hidden_mouse1,
        ),
        ..m
    }
}

/// Entering overflow retains the balancing and external edges of the
/// unsubmitted pending batch and of the tail, then clears both.
pub open spec fn q_enter_overflow(q: QueueModel) -> QueueModel {
    if q.overflow {
        q
    } else {
        let q1 = QueueModel { overflow: true, ..q };
        let q2 = if q.token is None {
            let r = q_retain_all(q1, q_pending_seq(q));
            QueueModel { pending: clear_prefix(q.pending, q.pending_len as int), pending_len: 0, ..r }
        } else {
            q1
        };
        let r2 = q_retain_all(q2, q_tail_seq(q));
        QueueModel { tail: clear_prefix(q.tail, q.tail_len as int), tail_len: 0, ..r2 }
    }
}

pub open spec fn m_enter_overflow(q: QueueModel, m: SourceModel) -> SourceModel {
    if q.overflow {
        m
    } else {
        m_finalize(m)
    }
}

/// Whether position `p` lies among the first `count` live ring positions.
pub open spec fn in_ring_window(head: int, count: int, p: int) -> bool {
    (head <= p < head + count) || (p + OVERFLOW_BALANCE_CAPACITY < head + count)
}

pub open spec fn min_nat(a: nat, b: nat) -> nat {
    if a <= b { a } else { b }
}

/// Whether an overflowed journal can turn retained balances into a batch.
pub open spec fn q_materialize_ready(q: QueueModel) -> bool {
    q.overflow && q.token is None && q.pending_len == 0
}

/// Moves the oldest retained balances, up to one buffer, into pending; an
/// empty ring ends overflow.
pub open spec fn q_materialize(q: QueueModel, now: u64) -> QueueModel {
    if !q_materialize_ready(q) {
        q
    } else {
        let count = min_nat(q.overflow_balance_len, DEFERRED_EDGE_CAPACITY as nat);
        let head = q.overflow_balance_head as int;
        q_refresh(
            QueueModel {
                pending: Seq::new(
                    q.pending.len(),
                    |i: int| if i < count { q.overflow_balances[ring_position(head, i)] } else { q.pending[i] },
                ),
                overflow_balances: Seq::new(
                    q.overflow_balances.len(),
                    |p: int| if in_ring_window(head, count as int, p) { spec_empty_edge() } else { q.overflow_balances[p] },
                ),
                overflow_balance_head: ring_position(head, count as int) as nat,
                overflow_balance_len: (q.overflow_balance_len - count) as nat,
                pending_len: count,
                overflow: count != 0,
                ..q
            },
            now,
        )
    }
}

pub open spec fn m_materialize(q: QueueModel, m: SourceModel) -> SourceModel {
    if q_materialize_ready(q) {
        m_finalize(m)
    } else {
        m
    }
}

/// Offers one aborted submitted edge to overflow; an edge that releases a
/// foreground-exposed key or button is marked as balancing and consumes
/// that exposure.
pub open spec fn abort_balance_step(q: QueueModel, m: SourceModel, edge: DeferredEvent) -> (QueueModel, SourceModel) {
    match existing_slot_of(m.pids, edge.source, edge.source_pid) {
        None => (q_retain(q, edge), m),
        Some(slot) => {
            let s = slot as int;
            if spec_is_mouse_event_type(edge.event_type) {
                match spec_button_bit(edge.mouse_button) {
                    None => (q, m),
                    Some(bit) => if !edge.is_down && m.exposed_mouse_buttons[s] & bit != 0 {
                        (
                            q_retain(q, DeferredEvent { foreground_balance: true, ..edge }),
                            SourceModel {
                                exposed_mouse_buttons: m.exposed_mouse_buttons.update(s, m.exposed_mouse_buttons[s] & !bit),
                                ..m
                            },
                        )
                    } else {
                        (q_retain(q, edge), m)
                    },
                }
            } else {
                let c = cell(s, edge.key_code as int);
                if !edge.is_down && m.exposed_keys[c] {
                    (
                        q_retain(q, DeferredEvent { foreground_balance: true, ..edge }),
                        SourceModel { exposed_keys: m.exposed_keys.update(c, false), ..m },
                    )
                } else {
                    (q_retain(q, edge), m)
                }
            }
        },
    }
}

pub open spec fn abort_balance_all(q: QueueModel, m: SourceModel, edges: Seq<DeferredEvent>) -> (QueueModel, SourceModel)
    decreases edges.len(),
{
    if edges.len() == 0 {
        (q, m)
    } else {
        let (q1, m1) = abort_balance_all(q, m, edges.drop_last());
        abort_balance_step(q1, m1, edges.last())
    }
}

/// Aborting a submission ends its authority, offers its unobserved edges
/// and then the tail to overflow, and clears pending and tail.
pub open spec fn q_abort(q: QueueModel, m: SourceModel, now: u64) -> (QueueModel, SourceModel) {
    let q0 = QueueModel { overflow: true, ..q };
    let (q1, m1) = abort_balance_all(q0, m, q.pending.subrange(q.observed as int, q.submitted_len as int));
    let q2 = QueueModel {
        pending: clear_prefix(q.pending, q.pending_len as int),
        pending_len: 0,
        submitted_len: 0,
        observed: 0,
        token: None,
        submission_deadline: None,
        ..q1
    };
    let q3 = q_retain_all(q2, q_tail_seq(q));
    (q_refresh(QueueModel { tail: clear_prefix(q.tail, q.tail_len as int), tail_len: 0, ..q3 }, now), m1)
}

/// Offering edges to the ring changes only the ring.
pub proof fn lemma_retain_all_frame(q: QueueModel, edges: Seq<DeferredEvent>)
    ensures
        q_retain_all(q, edges) == (QueueModel {
            overflow_balances: q_retain_all(q, edges).overflow_balances,
            overflow_balance_len: q_retain_all(q, edges).overflow_balance_len,
            ..q
        }),
    decreases edges.len(),
{
    if edges.len() > 0 {
        lemma_retain_all_frame(q, edges.drop_last());
    }
}

/// Offering aborted edges changes only the ring and the exposure model.
pub proof fn lemma_abort_balance_frame(q: QueueModel, m: SourceModel, edges: Seq<DeferredEvent>)
    ensures
        abort_balance_all(q, m, edges).0 == (QueueModel {
            overflow_balances: abort_balance_all(q, m, edges).0.overflow_balances,
            overflow_balance_len: abort_balance_all(q, m, edges).0.overflow_balance_len,
            ..q
        }),
        abort_balance_all(q, m, edges).1 == (SourceModel {
            exposed_keys: abort_balance_all(q, m, edges).1.exposed_keys,
            exposed_mouse_buttons: abort_balance_all(q, m, edges).1.exposed_mouse_buttons,
            ..m
        }),
    decreases edges.len(),
{
    if edges.len() > 0 {
        lemma_abort_balance_frame(q, m, edges.drop_last());
    }
}

/// Offering an edge to the ring appends it to the live overflow sequence
/// exactly when it is retainable and the ring has room.
pub proof fn lemma_retain_appends(q: QueueModel, edge: DeferredEvent)
    requires
        q.overflow_balances.len() == OVERFLOW_BALANCE_CAPACITY,
        q.overflow_balance_head < OVERFLOW_BALANCE_CAPACITY,
        q.overflow_balance_len <= OVERFLOW_BALANCE_CAPACITY,
    ensures
        q_overflow_seq(q_retain(q, edge)) == if retainable(edge) && q.overflow_balance_len < OVERFLOW_BALANCE_CAPACITY {
            q_overflow_seq(q).push(edge)
        } else {
            q_overflow_seq(q)
        },
{
    if retainable(edge) && q.overflow_balance_len < OVERFLOW_BALANCE_CAPACITY {
        let r = q_retain(q, edge);
        let head = q.overflow_balance_head as int;
        let len = q.overflow_balance_len as int;
        assert forall|i: int| 0 <= i < len implies ring_position(head, i) != ring_position(head, len) by {}
        assert(q_overflow_seq(r) =~= q_overflow_seq(q).push(edge));
    }
}

impl RecoveryEdgeJournal {
    pub open spec fn overflow_room(&self) -> bool {
        self.overflow_balance_len < OVERFLOW_BALANCE_CAPACITY
    }

    /// Offers `edge` to the overflow ring: external and balancing edges are
    /// kept, oldest first, while the ring has room.
    pub fn retain_overflow_edge(&mut self, edge: DeferredEvent)
        requires
            old(self).wf(),
            edge.key_code < 128,
        ensures
            final(self).wf(),
            final(self).queue() == q_retain(old(self).queue(), edge),
            final(self).sources() == old(self).sources(),
            final(self).owned() == old(self).owned(),
            final(self).overflow_seq() == if retainable(edge) && old(self).overflow_room() {
                old(self).overflow_seq().push(edge)
            } else {
                old(self).overflow_seq()
            },
    {
        proof {
            lemma_retain_appends(self.queue(), edge);
        }
        if (edge.source != InputSource::External && !edge.foreground_balance)
            || self.overflow_balance_len == OVERFLOW_BALANCE_CAPACITY {
            return;
        }
        let mut index = self.overflow_balance_head + self.overflow_balance_len;
        if index >= OVERFLOW_BALANCE_CAPACITY {
            index = index - OVERFLOW_BALANCE_CAPACITY;
        }
        self.overflow_balances.set(index, edge);
        self.overflow_balance_len = self.overflow_balance_len + 1;
        assert(self.overflow_seq() =~= q_overflow_seq(self.queue()));
        assert(old(self).overflow_seq() =~= q_overflow_seq(old(self).queue()));
    }

    /// Turns hidden physical phases whose edges are being discarded into
    /// discard fences.
    pub fn finalize_discarded_hidden_phases(&mut self)
        requires
            old(self).wf(),
        ensures
            final(self).wf(),
            final(self).queue() == old(self).queue(),
            final(self).owned() == old(self).owned(),
            final(self).sources() == m_finalize(old(self).sources()),
    {
        let ghost m = self.sources();
        let mut i: usize = 0;
        while i < 256
            invariant
                self.wf(),
                i <= 256,
                self.queue() == old(self).queue(),
                self.owned() == old(self).owned(),
                m == old(self).sources(),
                self.sources() == (SourceModel {
                    discard_key_fences: self.discard_key_fences@,
                    held_keys: self.held_keys@,
                    key_origins: self.key_origins@,
                    ..m
                }),
                m.held_keys.len() == 1280,
                m.key_origins.len() == 1280,
                m.discard_key_fences.len() == 1280,
                forall|j: int| 0 <= j < 1280 ==> #[trigger] self.held_keys@[j]
                    == if j < i && m.key_origins[j] == 1 && m.held_keys[j] { false } else { m.held_keys[j] },
                forall|j: int| 0 <= j < 1280 ==> #[trigger] self.key_origins@[j]
                    == if j < i && m.key_origins[j] == 1 && m.held_keys[j] { 0u8 } else { m.key_origins[j] },
                forall|j: int| 0 <= j < 1280 ==> #[trigger] self.discard_key_fences@[j]
                    == if j < i && m.key_origins[j] == 1 && m.held_keys[j] { true } else { m.discard_key_fences[j] },
            decreases 256 - i,
        {
            if self.key_origins[i] == 1 && self.held_keys[i] {
                self.discard_key_fences.set(i, true);
                self.held_keys.set(i, false);
                self.key_origins.set(i, 0);
            }
            i = i + 1;
        }
        let hidden0 = self.held_mouse_buttons[0] & !self.mouse_foreground_origins[0];
        let fence0 = self.discard_mouse_fences[0] | hidden0;
        self.discard_mouse_fences.set(0, fence0);
        let held0 = self.held_mouse_buttons[0] & !hidden0;
        self.held_mouse_buttons.set(0, held0);
        let hidden1 = self.held_mouse_buttons[1] & !self.mouse_foreground_origins[1];
        let fence1 = self.discard_mouse_fences[1] | hidden1;
        self.discard_mouse_fences.set(1, fence1);
        let held1 = self.held_mouse_buttons[1] & !hidden1;
        self.held_mouse_buttons.set(1, held1);
        let ghost f = m_finalize(m);
        assert(self.held_keys@ =~= f.held_keys);
        assert(self.key_origins@ =~= f.key_origins);
        assert(self.discard_key_fences@ =~= f.discard_key_fences);
    }

    /// Offers `edges[from..to]` of a buffer to the ring and clears them.
    fn retain_and_clear_pending(&mut self, to: usize)
        requires
            old(self).wf(),
            to == old(self).pending_len,
        ensures
            final(self).wf(),
            final(self).sources() == old(self).sources(),
            final(self).owned() == old(self).owned(),
            final(self).queue() == ({
                let r = q_retain_all(old(self).queue(), old(self).pending_seq());
                QueueModel { pending: clear_prefix(old(self).pending@, to as int), ..r }
            }),
    {
        let ghost edges = self.pending_seq();
        let ghost q0 = self.queue();
        let mut index: usize = 0;
        while index < to
            invariant
                self.wf(),
                index <= to,
                to == old(self).pending_len,
                to == self.pending_len,
                edges == old(self).pending_seq(),
                q0 == old(self).queue(),
                self.sources() == old(self).sources(),
                self.owned() == old(self).owned(),
                self.queue() == ({
                    let r = q_retain_all(q0, edges.subrange(0, index as int));
                    QueueModel { pending: clear_prefix(q0.pending, index as int), ..r }
                }),
            decreases to - index,
        {
            let edge = self.pending[index];
            proof {
                assert(edges[index as int] == edge);
                assert(edges.subrange(0, (index + 1) as int).drop_last() =~= edges.subrange(0, index as int));
            }
            self.retain_overflow_edge(edge);
            self.pending.set(index, DeferredEvent::empty());
            proof {
                assert(self.pending@ =~= clear_prefix(q0.pending, (index + 1) as int));
            }
            index = index + 1;
        }
        assert(edges.subrange(0, to as int) =~= edges);
    }

    fn retain_and_clear_tail(&mut self)
        requires
            old(self).wf(),
        ensures
            final(self).wf(),
            final(self).sources() == old(self).sources(),
            final(self).owned() == old(self).owned(),
            final(self).queue() == ({
                let r = q_retain_all(old(self).queue(), old(self).tail_seq());
                QueueModel { tail: clear_prefix(old(self).tail@, old(self).tail_len as int), tail_len: 0, ..r }
            }),
    {
        let ghost edges = self.tail_seq();
        let ghost q0 = self.queue();
        let to = self.tail_len;
        let mut index: usize = 0;
        while index < to
            invariant
                self.wf(),
                index <= to,
                to == old(self).tail_len,
                to == self.tail_len,
                edges == old(self).tail_seq(),
                q0 == old(self).queue(),
                self.sources() == old(self).sources(),
                self.owned() == old(self).owned(),
                self.queue() == ({
                    let r = q_retain_all(q0, edges.subrange(0, index as int));
                    QueueModel { tail: clear_prefix(q0.tail, index as int), ..r }
                }),
            decreases to - index,
        {
            let edge = self.tail[index];
            proof {
                assert(edges[index as int] == edge);
                assert(edges.subrange(0, (index + 1) as int).drop_last() =~= edges.subrange(0, index as int));
            }
            self.retain_overflow_edge(edge);
            self.tail.set(index, DeferredEvent::empty());
            proof {
                assert(self.tail@ =~= clear_prefix(q0.tail, (index + 1) as int));
            }
            index = index + 1;
        }
        assert(edges.subrange(0, to as int) =~= edges);
        self.tail_len = 0;
    }

    /// Enters overflow once: unsubmitted pending edges and the tail are
    /// offered to the ring and cleared, and discarded hidden phases become
    /// fences.
    pub fn enter_overflow(&mut self)
        requires
            old(self).wf(),
        ensures
            final(self).wf(),
            final(self).queue() == q_enter_overflow(old(self).queue()),
            final(self).sources() == m_enter_overflow(old(self).queue(), old(self).sources()),
            final(self).owned() == old(self).owned(),
    {
        if self.overflow {
            return;
        }
        self.overflow = true;
        if self.token.is_none() {
            let to = self.pending_len;
            proof {
                lemma_retain_all_frame(self.queue(), self.pending_seq());
            }
            self.retain_and_clear_pending(to);
            self.pending_len = 0;
        }
        proof {
            lemma_retain_all_frame(self.queue(), self.tail_seq());
        }
        self.retain_and_clear_tail();
        self.finalize_discarded_hidden_phases();
    }

    pub open spec fn spec_observe_foreground_exposure(&self, edge: DeferredEvent) -> SourceModel {
        let (slot, m) = self.spec_source_slot(edge.source, edge.source_pid);
        match slot {
            None => m,
            Some(s) => {
                let s = s as int;
                if spec_is_mouse_event_type(edge.event_type) {
                    match spec_button_bit(edge.mouse_button) {
                        None => m,
                        Some(bit) => SourceModel {
                            exposed_mouse_buttons: m.exposed_mouse_buttons.update(
                                s,
                                if edge.is_down { m.exposed_mouse_buttons[s] | bit } else { m.exposed_mouse_buttons[s] & !bit },
                            ),
                            ..m
                        },
                    }
                } else {
                    SourceModel { exposed_keys: m.exposed_keys.update(cell(s, edge.key_code as int), edge.is_down), ..m }
                }
            },
        }
    }

    /// Records that a deferred edge became visible in the foreground.
    pub fn observe_foreground_exposure(&mut self, edge: DeferredEvent)
        requires
            old(self).wf(),
            edge.key_code < 128,
        ensures
            final(self).wf(),
            final(self).queue() == old(self).queue(),
            final(self).owned() == old(self).owned(),
            final(self).sources() == old(self).spec_observe_foreground_exposure(edge),
    {
        let slot = match self.source_slot(edge.source, edge.source_pid) {
            Some(slot) => slot,
            None => return,
        };
        if edge.is_mouse() {
            let bit = match button_bit(edge.mouse_button) {
                Some(bit) => bit,
                None => return,
            };
            let exposed = if edge.is_down {
                self.exposed_mouse_buttons[slot] | bit
            } else {
                self.exposed_mouse_buttons[slot] & !bit
            };
            self.exposed_mouse_buttons.set(slot, exposed);
        } else {
            self.exposed_keys.set(slot * 128 + edge.key_code as usize, edge.is_down);
        }
    }

    /// Offers one aborted submitted edge to overflow, marking a release of
    /// a foreground-exposed key or button as balancing.
    pub fn retain_abort_balance(&mut self, edge: DeferredEvent)
        requires
            old(self).wf(),
            edge.key_code < 128,
        ensures
            final(self).wf(),
            (final(self).queue(), final(self).sources()) == abort_balance_step(old(self).queue(), old(self).sources(), edge),
            final(self).owned() == old(self).owned(),
    {
        let mut edge = edge;
        let slot = match self.existing_source_slot(edge.source, edge.source_pid) {
            Some(slot) => slot,
            None => {
                self.retain_overflow_edge(edge);
                return;
            },
        };
        if edge.is_mouse() {
            let bit = match button_bit(edge.mouse_button) {
                Some(bit) => bit,
                None => return,
            };
            if !edge.is_down && self.exposed_mouse_buttons[slot] & bit != 0 {
                edge.foreground_balance = true;
                let exposed = self.exposed_mouse_buttons[slot] & !bit;
                self.exposed_mouse_buttons.set(slot, exposed);
            }
        } else {
            let index = slot * 128 + edge.key_code as usize;
            if !edge.is_down && self.exposed_keys[index] {
                edge.foreground_balance = true;
                self.exposed_keys.set(index, false);
            }
        }
        self.retain_overflow_edge(edge);
    }

    /// Aborts the submission: its authority ends, its unobserved edges and
    /// then the tail are offered to overflow, and pending and tail clear.
    pub fn abort_submission_to_overflow(&mut self, now: u64)
        requires
            old(self).wf(),
        ensures
            final(self).wf(),
            (final(self).queue(), final(self).sources()) == q_abort(old(self).queue(), old(self).sources(), now),
            final(self).owned() == old(self).owned(),
    {
        let ghost q = self.queue();
        let ghost m = self.sources();
        let ghost edges = self.pending@.subrange(self.observed as int, self.submitted_len as int);
        self.overflow = true;
        let ghost q0 = self.queue();
        let start = self.observed;
        let end = self.submitted_len;
        let mut index: usize = start;
        while index < end
            invariant
                self.wf(),
                start <= index <= end,
                end <= self.pending_len,
                start == q.observed,
                end == q.submitted_len,
                q == old(self).queue(),
                m == old(self).sources(),
                q0 == (QueueModel { overflow: true, ..q }),
                edges == q.pending.subrange(start as int, end as int),
                self.owned() == old(self).owned(),
                self.pending@ == q.pending,
                (self.queue(), self.sources()) == abort_balance_all(q0, m, edges.subrange(0, index - start)),
            decreases end - index,
        {
            let edge = self.pending[index];
            proof {
                assert(edges[index - start] == edge);
                assert(edges.subrange(0, index - start + 1).drop_last() =~= edges.subrange(0, index - start));
            }
            self.retain_abort_balance(edge);
            index = index + 1;
        }
        proof {
            assert(edges.subrange(0, end - start) =~= edges);
            lemma_abort_balance_frame(q0, m, edges);
        }
        let ghost m1 = self.sources();
        let ghost q1 = self.queue();
        let len = self.pending_len;
        let mut j: usize = 0;
        while j < len
            invariant
                self.wf(),
                j <= len,
                len == self.pending_len,
                len == q.pending_len,
                q == old(self).queue(),
                self.sources() == m1,
                self.owned() == old(self).owned(),
                self.queue() == (QueueModel { pending: clear_prefix(q.pending, j as int), ..q1 }),
                q1.pending == q.pending,
            decreases len - j,
        {
            self.pending.set(j, DeferredEvent::empty());
            assert(self.pending@ =~= clear_prefix(q.pending, (j + 1) as int));
            j = j + 1;
        }
        self.pending_len = 0;
        self.submitted_len = 0;
        self.observed = 0;
        self.token = None;
        self.submission_deadline = None;
        proof {
            lemma_retain_all_frame(self.queue(), self.tail_seq());
        }
        self.retain_and_clear_tail();
        self.refresh_external_collection_deadline(now);
    }
}

} // verus!
