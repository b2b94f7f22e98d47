//! Retired native releases and resolution of uncertain captured edges.

use vstd::prelude::*;
use crate::journal::{DeferredEvent, RecoveryEdgeJournal, SourceModel, cell, spec_empty_edge};
use crate::native_event::{
    K_CG_EVENT_KEY_UP, PhysicalKey, letter_key_code, letter_key_codes, map_key_code,
    spec_map_key_code,
};

verus! {

/// The native ownership the keyboard owner holds over physical keys while a
/// transaction or a session capture is live: the letters owned by the
/// transactional engine, and the Escape and Enter keys a session captured.
#[derive(Clone, Copy, Debug, PartialEq, Eq, Structural)]
pub struct KeyboardOwnership {
    /// Bit `i` set when letter `i` (0 is A) is owned by the transaction.
    pub owned_letters: u32,
    pub session_escape_native_owned: bool,
    /// The exact Enter key code a session captured.
    pub session_enter_native_owned: Option<u16>,
    pub captured_enter_key_code: Option<u16>,
}

pub open spec fn max_u32(a: u32, b: u32) -> u32 {
    if a >= b { a } else { b }
}

/// Records that the native owner released `key` at `generation` (at least
/// 1): both physical slots drop the key and adopt at least that generation.
pub open spec fn spec_release(owned: Seq<u32>, m: SourceModel, key: int, generation: u32) -> (Seq<u32>, SourceModel) {
    let g: u32 = if generation == 0 { 1 } else { generation };
    let c0 = cell(0, key);
    let c1 = cell(1, key);
    (
        owned.update(key, g),
        SourceModel {
            key_generations: m.key_generations.update(c0, max_u32(m.key_generations[c0], g)).update(
                c1,
                max_u32(m.key_generations[c1], g),
            ),
            held_keys: m.held_keys.update(c0, false).update(c1, false),
            key_origins: m.key_origins.update(c0, 0).update(c1, 0),
            ..m
        },
    )
}

/// Bits of the letters among the first `n` whose release is recorded.
pub open spec fn letter_bits(owned: Seq<u32>, n: nat) -> u32
    decreases n,
{
    if n == 0 {
        0
    } else {
        letter_bits(owned, (n - 1) as nat) | if owned[letter_key_codes()[n - 1] as int] != 0 {
            1u32 << ((n - 1) as u32)
        } else {
            0
        }
    }
}

/// State threaded through the resolution of uncertain pending edges.
pub struct ResolveState {
    pub kept: Seq<DeferredEvent>,
    pub owned: Seq<u32>,
    pub sources: SourceModel,
    pub keyboard: KeyboardOwnership,
}

pub open spec fn letter_owned(keyboard: KeyboardOwnership, key: PhysicalKey) -> bool {
    match key {
        PhysicalKey::Letter(l) => l < 32 && keyboard.owned_letters & (1u32 << (l as u32)) != 0,
        _ => false,
    }
}

/// One step of resolution: an uncertain edge that belongs to an earlier
/// transaction or a captured session key is dropped, a dropped release
/// retires that ownership, and any other edge is kept as certain.
pub open spec fn resolve_step(st: ResolveState, edge: DeferredEvent) -> ResolveState {
    let physical = edge.source == crate::native_event::InputSource::Physical
        || edge.source == crate::native_event::InputSource::TestPhysical;
    let key = spec_map_key_code(edge.key_code);
    let k = edge.key_code as int;
    let transactional_owned = physical && letter_owned(st.keyboard, key);
    let session_owned = physical && match key {
        PhysicalKey::Escape => st.keyboard.session_escape_native_owned,
        PhysicalKey::Enter => st.keyboard.session_enter_native_owned == Some(edge.key_code),
        _ => false,
    };
    let belongs_old = transactional_owned && !(st.owned[k] != 0 && edge.generation > st.owned[k]);
    if edge.uncertain_owned && (belongs_old || session_owned) {
        if edge.event_type == K_CG_EVENT_KEY_UP {
            let (owned, sources) = if belongs_old {
                spec_release(st.owned, st.sources, k, edge.generation)
            } else {
                (st.owned, st.sources)
            };
            let keyboard = if session_owned {
                match key {
                    PhysicalKey::Escape => KeyboardOwnership { session_escape_native_owned: false, ..st.keyboard },
                    PhysicalKey::Enter => KeyboardOwnership {
                        session_enter_native_owned: None,
                        captured_enter_key_code: None,
                        ..st.keyboard
                    },
                    _ => st.keyboard,
                }
            } else {
                st.keyboard
            };
            ResolveState { owned, sources, keyboard, ..st }
        } else {
            st
        }
    } else {
        ResolveState { kept: st.kept.push(DeferredEvent { uncertain_owned: false, ..edge }), ..st }
    }
}

pub open spec fn resolve_fold(edges: Seq<DeferredEvent>, n: nat, start: ResolveState) -> ResolveState
    decreases n,
{
    if n == 0 {
        start
    } else {
        resolve_step(resolve_fold(edges, (n - 1) as nat, start), edges[n - 1])
    }
}

/// `kept` is an order-preserving selection of the first `n` edges, each
/// kept edge marked certain: `index` names, in increasing order, the edge
/// each one came from.
pub open spec fn kept_in_order(edges: Seq<DeferredEvent>, n: nat, kept: Seq<DeferredEvent>, index: Seq<int>) -> bool {
    &&& index.len() == kept.len()
    &&& forall|j: int| 0 <= j < index.len() ==> 0 <= #[trigger] index[j] < n
    &&& forall|j: int, k: int| 0 <= j < k < index.len() ==> #[trigger] index[j] < #[trigger] index[k]
    &&& forall|j: int|
        0 <= j < kept.len() ==> #[trigger] kept[j] == (DeferredEvent { uncertain_owned: false, ..edges[index[j]] })
}

/// Resolving uncertain ownership never reorders or invents edges: what it
/// keeps is a selection of the pending edges in their order, each marked
/// certain.
pub proof fn law_resolution_keeps_edges_in_order(edges: Seq<DeferredEvent>, n: nat, start: ResolveState)
    requires
        start.kept.len() == 0,
        n <= edges.len(),
    ensures
        exists|index: Seq<int>| #[trigger] kept_in_order(edges, n, resolve_fold(edges, n, start).kept, index),
        resolve_fold(edges, n, start).kept.len() <= n,
    decreases n,
{
    if n == 0 {
        assert(kept_in_order(edges, 0, start.kept, Seq::<int>::empty()));
    } else {
        law_resolution_keeps_edges_in_order(edges, (n - 1) as nat, start);
        let prev = resolve_fold(edges, (n - 1) as nat, start);
        let index = choose|index: Seq<int>| #[trigger] kept_in_order(edges, (n - 1) as nat, prev.kept, index);
        let next = resolve_fold(edges, n, start);
        if next.kept.len() == prev.kept.len() {
            assert(next.kept == prev.kept);
            assert(kept_in_order(edges, n, next.kept, index));
        } else {
            let extended = index.push(n - 1);
            assert(next.kept == prev.kept.push(DeferredEvent { uncertain_owned: false, ..edges[n - 1] }));
            assert forall|j: int, k: int| 0 <= j < k < extended.len() implies #[trigger] extended[j]
                < #[trigger] extended[k] by {
                if k < index.len() {
                } else {
                    assert(extended[j] == index[j]);
                }
            }
            assert(kept_in_order(edges, n, next.kept, extended));
        }
    }
}

impl RecoveryEdgeJournal {
    /// Records the native release of `key_code` at `generation`.
    pub fn record_owned_release_at(&mut self, key_code: u16, generation: u32)
        requires
            old(self).wf(),
            key_code < 128,
        ensures
            final(self).wf(),
            final(self).queue() == old(self).queue(),
            (final(self).owned(), final(self).sources()) == spec_release(
                old(self).owned(),
                old(self).sources(),
                key_code as int,
                generation,
            ),
    {
        let index = key_code as usize;
        let generation = if generation == 0 { 1 } else { generation };
        self.owned_release_generation.set(index, generation);
        let g0 = self.key_generations[index];
        self.key_generations.set(index, if g0 >= generation { g0 } else { generation });
        self.held_keys.set(index, false);
        self.key_origins.set(index, 0);
        let g1 = self.key_generations[128 + index];
        self.key_generations.set(128 + index, if g1 >= generation { g1 } else { generation });
        self.held_keys.set(128 + index, false);
        self.key_origins.set(128 + index, 0);
    }

    /// Records the native release of `key_code` at the newest physical
    /// generation seen for it (at least 1).
    pub fn record_owned_release(&mut self, key_code: u16)
        requires
            old(self).wf(),
            key_code < 128,
        ensures
            final(self).wf(),
            final(self).queue() == old(self).queue(),
            (final(self).owned(), final(self).sources()) == spec_release(
                old(self).owned(),
                old(self).sources(),
                key_code as int,
                max_u32(
                    max_u32(
                        old(self).key_generations@[cell(0, key_code as int)],
                        old(self).key_generations@[cell(1, key_code as int)],
                    ),
                    1,
                ),
            ),
    {
        let index = key_code as usize;
        let g0 = self.key_generations[index];
        let g1 = self.key_generations[128 + index];
        let newest = if g0 >= g1 { g0 } else { g1 };
        let generation = if newest >= 1 { newest } else { 1 };
        self.record_owned_release_at(key_code, generation);
    }

    pub fn owned_release_recorded(&self, key_code: u16) -> (recorded: bool)
        requires
            self.wf(),
            key_code < 128,
        ensures
            recorded == (self.owned_release_generation@[key_code as int] != 0),
    {
        self.owned_release_generation[key_code as usize] != 0
    }

    pub open spec fn spec_newer_held(&self, slot: int, key: int, released: u32) -> bool {
        self.held_keys@[cell(slot, key)] && self.key_generations@[cell(slot, key)] > released
    }

    /// Whether a recorded release of `key_code` is still the newest physical
    /// phase: no physical slot holds a newer generation of the key.
    pub fn force_old_generation_released(&self, key_code: u16) -> (released: bool)
        requires
            self.wf(),
            key_code < 128,
        ensures
            released == ({
                let r = self.owned_release_generation@[key_code as int];
                r != 0 && !self.spec_newer_held(0, key_code as int, r) && !self.spec_newer_held(1, key_code as int, r)
            }),
    {
        let index = key_code as usize;
        let released = self.owned_release_generation[index];
        if released == 0 {
            return false;
        }
        if self.held_keys[index] && self.key_generations[index] > released {
            return false;
        }
        if self.held_keys[128 + index] && self.key_generations[128 + index] > released {
            return false;
        }
        true
    }

    /// Whether a physical slot holds `key_code` in a generation newer than
    /// its recorded release (or any held generation if none is recorded).
    pub fn physical_newer_generation_held(&self, key_code: u16) -> (held: bool)
        requires
            self.wf(),
            key_code < 128,
        ensures
            held == ({
                let r = self.owned_release_generation@[key_code as int];
                let k = key_code as int;
                (self.held_keys@[cell(0, k)] && (r == 0 || self.key_generations@[cell(0, k)] > r))
                    || (self.held_keys@[cell(1, k)] && (r == 0 || self.key_generations@[cell(1, k)] > r))
            }),
    {
        let index = key_code as usize;
        let released = self.owned_release_generation[index];
        (self.held_keys[index] && (released == 0 || self.key_generations[index] > released))
            || (self.held_keys[128 + index] && (released == 0 || self.key_generations[128 + index] > released))
    }

    /// Bit `i` is set when the release of letter `i` (0 is A) is recorded.
    pub fn released_letter_bits(&self) -> (bits: u32)
        requires
            self.wf(),
        ensures
            bits == letter_bits(self.owned(), 26),
    {
        let mut bits: u32 = 0;
        let mut i: usize = 0;
        while i < 26
            invariant
                self.wf(),
                i <= 26,
                bits == letter_bits(self.owned(), i as nat),
            decreases 26 - i,
        {
            let key_code = letter_key_code(i);
            proof {
                assert(letter_key_codes()[i as int] < 128) by {
                    let s = letter_key_codes();
                    assert(s[0] == 0 && s[1] == 11 && s[2] == 8 && s[3] == 2 && s[4] == 14 && s[5] == 3);
                    assert(s[6] == 5 && s[7] == 4 && s[8] == 34 && s[9] == 38 && s[10] == 40 && s[11] == 37);
                    assert(s[12] == 46 && s[13] == 45 && s[14] == 31 && s[15] == 35 && s[16] == 12);
                    assert(s[17] == 15 && s[18] == 1 && s[19] == 17 && s[20] == 32 && s[21] == 9);
                    assert(s[22] == 13 && s[23] == 7 && s[24] == 16 && s[25] == 6);
                }
            }
            let shift: u32 = i as u32;
            bits = bits | if self.owned_release_generation[key_code as usize] != 0 { 1u32 << shift } else { 0 };
            i = i + 1;
        }
        bits
    }

    /// Forgets every recorded native release.
    pub fn clear_owned_releases(&mut self)
        requires
            old(self).wf(),
        ensures
            final(self).wf(),
            final(self).queue() == old(self).queue(),
            final(self).sources() == old(self).sources(),
            final(self).owned() == Seq::new(128, |i: int| 0u32),
    {
        let mut k: usize = 0;
        while k < 128
            invariant
                self.wf(),
                k <= 128,
                self.queue() == old(self).queue(),
                self.sources() == old(self).sources(),
                forall|j: int| 0 <= j < k ==> self.owned_release_generation@[j] == 0,
            decreases 128 - k,
        {
            self.owned_release_generation.set(k, 0);
            k = k + 1;
        }
        assert(self.owned() =~= Seq::new(128, |i: int| 0u32));
    }

    pub open spec fn resolve_start(&self, keyboard: KeyboardOwnership) -> ResolveState {
        ResolveState { kept: Seq::empty(), owned: self.owned(), sources: self.sources(), keyboard }
    }

    /// Resolves uncertain pending edges once no submission is in flight: an
    /// uncertain edge that belongs to an earlier transaction (or to a key a
    /// session captured) is dropped, and a dropped release retires that
    /// ownership; every other edge stays in order and becomes certain.
    pub fn resolve_uncertain_ownership(&mut self, keyboard: &mut KeyboardOwnership)
        requires
            old(self).wf(),
        ensures
            final(self).wf(),
            old(self).submitted_len != 0 ==> {
                &&& final(self).queue() == old(self).queue()
                &&& final(self).sources() == old(self).sources()
                &&& final(self).owned() == old(self).owned()
                &&& *final(keyboard) == *old(keyboard)
            },
            old(self).submitted_len == 0 ==> {
                let r = resolve_fold(old(self).pending_seq(), old(self).pending_len as nat, old(self).resolve_start(*old(keyboard)));
                &&& final(self).pending_seq() == r.kept
                &&& final(self).pending@ == r.kept + Seq::new(
                    (old(self).pending_len - r.kept.len()) as nat,
                    |i: int| spec_empty_edge(),
                ) + old(self).pending@.subrange(old(self).pending_len as int, old(self).pending@.len() as int)
                &&& final(self).queue() == (crate::journal::QueueModel {
                    pending: final(self).pending@,
                    pending_len: r.kept.len(),
                    ..old(self).queue()
                })
                &&& final(self).sources() == r.sources
                &&& final(self).owned() == r.owned
                &&& *final(keyboard) == r.keyboard
            },
    {
        if self.submitted_len != 0 {
            return;
        }
        let ghost edges = self.pending_seq();
        let ghost start = self.resolve_start(*keyboard);
        let ghost orig = self.pending@;
        let ghost old_len = self.pending_len;
        let mut retained: usize = 0;
        let mut index: usize = 0;
        while index < self.pending_len
            invariant
                self.wf(),
                index <= self.pending_len,
                self.pending_len == old_len,
                retained <= index,
                self.submitted_len == 0,
                edges == orig.subrange(0, old_len as int),
                orig.len() == crate::journal::DEFERRED_EDGE_CAPACITY,
                ({
                    let r = resolve_fold(edges, index as nat, start);
                    &&& r.kept.len() == retained
                    &&& self.pending@.subrange(0, retained as int) == r.kept
                    &&& self.owned() == r.owned
                    &&& self.sources() == r.sources
                    &&& *keyboard == r.keyboard
                }),
                forall|j: int| index <= j < crate::journal::DEFERRED_EDGE_CAPACITY ==> self.pending@[j] == orig[j],
                self.queue() == (crate::journal::QueueModel { pending: self.pending@, ..old(self).queue() }),
                start == old(self).resolve_start(*old(keyboard)),
            decreases self.pending_len - index,
        {
            let edge = self.pending[index];
            proof {
                assert(edges[index as int] == edge);
            }
            let physical = edge.source.is_physical();
            let key = map_key_code(edge.key_code);
            let transactional_owned = physical && match key {
                PhysicalKey::Letter(letter) => letter < 32 && keyboard.owned_letters & (1u32 << (letter as u32)) != 0,
                _ => false,
            };
            let session_owned = physical && match key {
                PhysicalKey::Escape => keyboard.session_escape_native_owned,
                PhysicalKey::Enter => keyboard.session_enter_native_owned == Some(edge.key_code),
                _ => false,
            };
            let k = edge.key_code as usize;
            let belongs_to_old_transaction = transactional_owned
                && !(self.owned_release_generation[k] != 0 && edge.generation > self.owned_release_generation[k]);
            if edge.uncertain_owned && (belongs_to_old_transaction || session_owned) {
                if edge.event_type == K_CG_EVENT_KEY_UP {
                    if belongs_to_old_transaction {
                        self.record_owned_release_at(edge.key_code, edge.generation);
                    }
                    if session_owned {
                        match key {
                            PhysicalKey::Escape => keyboard.session_escape_native_owned = false,
                            PhysicalKey::Enter => {
                                keyboard.session_enter_native_owned = None;
                                keyboard.captured_enter_key_code = None;
                            },
                            _ => {},
                        }
                    }
                }
            } else {
                let kept = DeferredEvent { uncertain_owned: false, ..edge };
                self.pending.set(retained, kept);
                proof {
                    let r = resolve_fold(edges, (index + 1) as nat, start);
                    assert(self.pending@.subrange(0, (retained + 1) as int) =~= r.kept);
                }
                retained = retained + 1;
            }
            index = index + 1;
        }
        let ghost kept_seq = self.pending@.subrange(0, retained as int);
        let ghost r = resolve_fold(edges, old_len as nat, start);
        assert(kept_seq == r.kept);
        let mut j: usize = retained;
        while j < self.pending_len
            invariant
                self.wf(),
                retained <= j <= self.pending_len,
                self.pending_len == old_len,
                self.submitted_len == 0,
                self.pending@.subrange(0, retained as int) == kept_seq,
                kept_seq == r.kept,
                retained == r.kept.len(),
                self.owned() == r.owned,
                self.sources() == r.sources,
                *keyboard == r.keyboard,
                forall|i: int| retained <= i < j ==> self.pending@[i] == spec_empty_edge(),
                forall|i: int| old_len <= i < crate::journal::DEFERRED_EDGE_CAPACITY ==> self.pending@[i] == orig[i],
                self.queue() == (crate::journal::QueueModel { pending: self.pending@, ..old(self).queue() }),
            decreases self.pending_len - j,
        {
            self.pending.set(j, DeferredEvent::empty());
            assert(self.pending@.subrange(0, retained as int) =~= kept_seq);
            j = j + 1;
        }
        self.pending_len = retained;
        assert(self.pending@ =~= kept_seq + Seq::new((old_len - retained) as nat, |i: int| spec_empty_edge())
            + orig.subrange(old_len as int, orig.len() as int));
    }
}

} // verus!
