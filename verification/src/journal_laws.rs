//! Laws of the recovery journal that span operations.

use vstd::prelude::*;
use crate::journal::{
    DeferredEvent, QueueModel, SourceModel, cell, ring_position, DEFERRED_EDGE_CAPACITY,
    OVERFLOW_BALANCE_CAPACITY,
};
use crate::journal_overflow::{
    m_materialize, min_nat, q_materialize, q_materialize_ready, q_overflow_seq, q_pending_seq,
    q_refresh, q_tail_seq,
};
use crate::journal_phases::{spec_observe_key, ORIGIN_NONE};
use crate::journal_submission::{q_advance, q_append, q_begin};
use crate::barrier::GapBarrierObservation;

verus! {

/// Shape facts of a well-formed queue model.
pub open spec fn q_wf(q: QueueModel) -> bool {
    &&& q.pending.len() == DEFERRED_EDGE_CAPACITY
    &&& q.pending_len <= DEFERRED_EDGE_CAPACITY
    &&& q.tail.len() == DEFERRED_EDGE_CAPACITY
    &&& q.tail_len <= DEFERRED_EDGE_CAPACITY
    &&& q.overflow_balances.len() == OVERFLOW_BALANCE_CAPACITY
    &&& q.overflow_balance_head < OVERFLOW_BALANCE_CAPACITY
    &&& q.overflow_balance_len <= OVERFLOW_BALANCE_CAPACITY
    &&& q.observed <= q.submitted_len
    &&& q.submitted_len <= q.pending_len
}

proof fn lemma_refresh_frame(q: QueueModel, now: u64)
    ensures
        q_refresh(q, now) == (QueueModel { external_collection_deadline: q_refresh(q, now).external_collection_deadline, ..q }),
{
}

/// Outside overflow, with room and no submission in flight, an appended
/// edge becomes the newest pending edge and nothing else moves.
pub proof fn law_append_is_fifo(q: QueueModel, m: SourceModel, edge: DeferredEvent, now: u64)
    requires
        q_wf(q),
        !q.overflow,
        q.token is None,
        q.pending_len < DEFERRED_EDGE_CAPACITY,
    ensures
        q_append(q, m, edge, now).0,
        q_pending_seq(q_append(q, m, edge, now).1) == q_pending_seq(q).push(edge),
        q_tail_seq(q_append(q, m, edge, now).1) == q_tail_seq(q),
        q_overflow_seq(q_append(q, m, edge, now).1) == q_overflow_seq(q),
        q_append(q, m, edge, now).2 == m,
{
    let r = q_append(q, m, edge, now).1;
    assert(q_pending_seq(r) =~= q_pending_seq(q).push(edge));
    assert(q_tail_seq(r) =~= q_tail_seq(q));
    assert(q_overflow_seq(r) =~= q_overflow_seq(q));
}

/// While a submission holds authority, appended edges queue behind the
/// submitted batch, in order, without touching it.
pub proof fn law_append_during_submission_queues_behind(q: QueueModel, m: SourceModel, edge: DeferredEvent, now: u64)
    requires
        q_wf(q),
        !q.overflow,
        q.token is Some,
        q.tail_len < DEFERRED_EDGE_CAPACITY,
    ensures
        q_append(q, m, edge, now).0,
        q_pending_seq(q_append(q, m, edge, now).1) == q_pending_seq(q),
        q_tail_seq(q_append(q, m, edge, now).1) == q_tail_seq(q).push(edge),
        q_append(q, m, edge, now).1.submitted_len == q.submitted_len,
        q_append(q, m, edge, now).1.observed == q.observed,
{
    let r = q_append(q, m, edge, now).1;
    assert(q_pending_seq(r) =~= q_pending_seq(q));
    assert(q_tail_seq(r) =~= q_tail_seq(q).push(edge));
}

/// Beginning a submission keeps the first `count` pending edges as the
/// submitted batch and moves the rest, in order, behind the tail.
pub proof fn law_begin_submission_splits_in_order(q: QueueModel, token: u64, bank: usize, count: usize, now: u64)
    requires
        q_wf(q),
        q_begin(q, token, bank, count, now).0,
    ensures
        ({
            let r = q_begin(q, token, bank, count, now).1;
            &&& q_pending_seq(r) == q_pending_seq(q).subrange(0, count as int)
            &&& q_tail_seq(r) == q_tail_seq(q) + q_pending_seq(q).subrange(count as int, q.pending_len as int)
            &&& r.token == Some(token)
            &&& r.submitted_len == count
            &&& r.observed == 0
            &&& q_overflow_seq(r) == q_overflow_seq(q)
        }),
{
    let suffix = q.pending_len - count;
    let r0 = QueueModel {
        tail: Seq::new(
            q.tail.len(),
            |i: int| if q.tail_len <= i < q.tail_len + suffix { q.pending[count + i - q.tail_len] } else { q.tail[i] },
        ),
        pending: Seq::new(
            q.pending.len(),
            |i: int| if count <= i < q.pending_len { crate::journal::spec_empty_edge() } else { q.pending[i] },
        ),
        tail_len: (q.tail_len + suffix) as nat,
        pending_len: count as nat,
        submitted_len: count as nat,
        observed: 0,
        token: Some(token),
        next_pool_bank: ((bank + 1) % (crate::journal::DEFERRED_POOL_BANKS as int)) as nat,
        submission_deadline: Some(crate::journal_overflow::deadline_after(now, crate::journal::SUBMISSION_TIMEOUT_MS)),
        ..q
    };
    lemma_refresh_frame(r0, now);
    let r = q_begin(q, token, bank, count, now).1;
    assert(q_pending_seq(r) =~= q_pending_seq(q).subrange(0, count as int));
    assert(q_tail_seq(r) =~= q_tail_seq(q) + q_pending_seq(q).subrange(count as int, q.pending_len as int));
    assert(q_overflow_seq(r) =~= q_overflow_seq(q));
}

/// Observing the last submitted edge ends authority; outside overflow the
/// queued tail becomes the pending batch, in order.
pub proof fn law_last_observation_releases_tail(q: QueueModel, m: SourceModel, now: u64)
    requires
        q_wf(q),
        !q.overflow,
        q.token is Some,
        q.observed + 1 == q.submitted_len,
    ensures
        ({
            let (obs, r, m2) = q_advance(q, m, now);
            &&& obs == GapBarrierObservation::Complete
            &&& r.token is None
            &&& r.submitted_len == 0
            &&& q_pending_seq(r) == q_tail_seq(q)
            &&& r.tail_len == 0
            &&& m2 == m
        }),
{
    let q1 = QueueModel {
        pending: crate::journal_overflow::clear_prefix(q.pending, q.pending_len as int),
        pending_len: 0,
        submitted_len: 0,
        observed: 0,
        token: None,
        submission_deadline: None,
        ..q
    };
    let q2 = QueueModel {
        pending: Seq::new(q1.pending.len(), |i: int| if i < q.tail_len { q.tail[i] } else { q1.pending[i] }),
        tail: crate::journal_overflow::clear_prefix(q.tail, q.tail_len as int),
        pending_len: q.tail_len,
        tail_len: 0,
        ..q1
    };
    lemma_refresh_frame(q2, now);
    let r = q_advance(q, m, now).1;
    assert(q_pending_seq(r) =~= q_tail_seq(q));
}

/// Each earlier observation only advances the cursor by one.
pub proof fn law_observation_advances_cursor(q: QueueModel, m: SourceModel, now: u64)
    requires
        q_wf(q),
        q.token is Some,
        q.observed + 1 < q.submitted_len,
    ensures
        q_advance(q, m, now) == (GapBarrierObservation::Down, QueueModel { observed: q.observed + 1, ..q }, m),
{
}

/// An observation with no submission in flight, or past the batch, is
/// forged and changes nothing.
pub proof fn law_unauthorized_observation_is_forged(q: QueueModel, m: SourceModel, now: u64)
    requires
        q.token is None || q.observed >= q.submitted_len,
    ensures
        q_advance(q, m, now) == (GapBarrierObservation::Forged, q, m),
{
}

/// Batching overflow moves the oldest retained balances, in order, into
/// pending and leaves the rest of the ring in order.
pub proof fn law_materialize_is_fifo(q: QueueModel, now: u64)
    requires
        q_wf(q),
        q_materialize_ready(q),
    ensures
        ({
            let count = min_nat(q.overflow_balance_len, DEFERRED_EDGE_CAPACITY as nat);
            let r = q_materialize(q, now);
            &&& q_pending_seq(r) == q_overflow_seq(q).subrange(0, count as int)
            &&& q_overflow_seq(r) == q_overflow_seq(q).subrange(count as int, q.overflow_balance_len as int)
            &&& r.overflow == (count != 0)
        }),
{
    let count = min_nat(q.overflow_balance_len, DEFERRED_EDGE_CAPACITY as nat);
    let head = q.overflow_balance_head as int;
    let r0 = QueueModel {
        pending: Seq::new(
            q.pending.len(),
            |i: int| if i < count { q.overflow_balances[ring_position(head, i)] } else { q.pending[i] },
        ),
        overflow_balances: Seq::new(
            q.overflow_balances.len(),
            |p: int| if crate::journal_overflow::in_ring_window(head, count as int, p) {
                crate::journal::spec_empty_edge()
            } else {
                q.overflow_balances[p]
            },
        ),
        overflow_balance_head: ring_position(head, count as int) as nat,
        overflow_balance_len: (q.overflow_balance_len - count) as nat,
        pending_len: count,
        overflow: count != 0,
        ..q
    };
    lemma_refresh_frame(r0, now);
    let r = q_materialize(q, now);
    assert(q_pending_seq(r) =~= q_overflow_seq(q).subrange(0, count as int));
    assert forall|i: int| 0 <= i < q.overflow_balance_len - count implies
        ring_position(ring_position(head, count as int), i) == ring_position(head, count + i)
        && !crate::journal_overflow::in_ring_window(head, count as int, ring_position(head, count + i)) by {}
    assert(q_overflow_seq(r) =~= q_overflow_seq(q).subrange(count as int, q.overflow_balance_len as int));
}

/// A fresh hidden press of a key (no foreground phase) opens a new hidden
/// generation, and its release closes that same generation as hidden,
/// without claiming to balance a foreground phase.
pub proof fn law_hidden_press_round_trip(m: SourceModel, slot: int, key: int)
    requires
        0 <= slot < 10,
        0 <= key < 128,
        m.key_generations.len() == 1280,
        m.key_origins.len() == 1280,
        m.held_keys.len() == 1280,
        !m.held_keys[cell(slot, key)],
        m.key_origins[cell(slot, key)] == ORIGIN_NONE,
        m.key_generations[cell(slot, key)] < u32::MAX,
    ensures
        ({
            let (down, m1) = spec_observe_key(m, slot, key, true, false, false);
            let (up, m2) = spec_observe_key(m1, slot, key, false, false, false);
            let g0 = m.key_generations[cell(slot, key)];
            let fresh: u32 = if g0 == 0 { 2 } else { (g0 + 1) as u32 };
            &&& down == (fresh, false, true)
            &&& up == (fresh, false, true)
            &&& !m2.held_keys[cell(slot, key)]
            &&& m2.key_origins[cell(slot, key)] == ORIGIN_NONE
        }),
{
}

} // verus!
