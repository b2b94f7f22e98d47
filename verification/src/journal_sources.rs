//! Bounded source identities and side-specific modifier transitions.

use vstd::prelude::*;
use crate::journal::{
    DeferredEvent, RecoveryEdgeJournal, SourceModel, cell, fill_slot, ring_position,
    OVERFLOW_BALANCE_CAPACITY,
};
use crate::native_event::{
    InputSource, ModifierSide, modifier_side_for_key_code, spec_modifier_side_for_key_code,
    spec_side_bit,
};

verus! {

pub open spec fn edge_references(edge: DeferredEvent, pid: i64) -> bool {
    edge.source == InputSource::External && edge.source_pid == pid
}

/// First index `j >= from` of `pids` holding `pid`.
pub open spec fn find_pid(pids: Seq<i64>, pid: i64, from: int) -> Option<int>
    decreases 8 - from,
{
    if from >= 8 || from < 0 {
        None
    } else if pids[from] == pid {
        Some(from)
    } else {
        find_pid(pids, pid, from + 1)
    }
}

proof fn lemma_find_pid_bounds(pids: Seq<i64>, pid: i64, from: int)
    ensures
        find_pid(pids, pid, from) matches Some(j) ==> from <= j < 8 && pids[j] == pid,
    decreases 8 - from,
{
    if 0 <= from < 8 && pids[from] != pid {
        lemma_find_pid_bounds(pids, pid, from + 1);
    }
}

/// The slot of an already-known source given the external pid table.
pub open spec fn existing_slot_of(pids: Seq<i64>, source: InputSource, pid: i64) -> Option<usize> {
    if source == InputSource::TestPhysical {
        Some(1)
    } else if source == InputSource::Physical {
        Some(0)
    } else if source == InputSource::External && pid != 0 {
        match find_pid(pids, pid, 0) {
            Some(j) => Some((2 + j) as usize),
            None => None,
        }
    } else {
        None
    }
}

/// `m` with external slot `index` handed to `pid` and its state cleared.
pub open spec fn reset_external_slot(m: SourceModel, index: int, pid: i64) -> SourceModel {
    let slot = 2 + index;
    SourceModel {
        pids: m.pids.update(index, pid),
        modifier_bits: m.modifier_bits.update(slot, 0),
        modifier_known: m.modifier_known.update(slot, 0),
        held_keys: fill_slot(m.held_keys, slot, false),
        key_origins: fill_slot(m.key_origins, slot, 0u8),
        key_generations: fill_slot(m.key_generations, slot, 0u32),
        held_mouse_buttons: m.held_mouse_buttons.update(slot, 0),
        mouse_foreground_origins: m.mouse_foreground_origins.update(slot, 0),
        exposed_keys: fill_slot(m.exposed_keys, slot, false),
        exposed_mouse_buttons: m.exposed_mouse_buttons.update(slot, 0),
        discard_key_fences: fill_slot(m.discard_key_fences, slot, false),
        discard_mouse_fences: m.discard_mouse_fences.update(slot, 0),
    }
}

impl RecoveryEdgeJournal {
    pub open spec fn spec_external_pid_referenced(&self, pid: i64) -> bool {
        ||| exists|i: int| 0 <= i < self.pending_len && edge_references(#[trigger] self.pending@[i], pid)
        ||| exists|i: int| 0 <= i < self.tail_len && edge_references(#[trigger] self.tail@[i], pid)
        ||| exists|i: int|
            0 <= i < self.overflow_balance_len && edge_references(
                #[trigger] self.overflow_balances@[ring_position(self.overflow_balance_head as int, i)],
                pid,
            )
    }

    /// Whether source slot `slot` still holds any key, button, modifier,
    /// exposure or fence state.
    pub open spec fn spec_slot_busy(&self, slot: int) -> bool {
        ||| self.modifier_bits@[slot] != 0
        ||| (exists|k: int| 0 <= k < 128 && #[trigger] self.held_keys@[cell(slot, k)])
        ||| self.held_mouse_buttons@[slot] != 0
        ||| (exists|k: int| 0 <= k < 128 && #[trigger] self.exposed_keys@[cell(slot, k)])
        ||| self.exposed_mouse_buttons@[slot] != 0
        ||| (exists|k: int| 0 <= k < 128 && #[trigger] self.discard_key_fences@[cell(slot, k)])
        ||| self.discard_mouse_fences@[slot] != 0
    }

    pub open spec fn spec_external_slot_pinned(&self, index: int) -> bool {
        let pid = self.external_source_pids@[index];
        pid != 0 && (self.spec_external_pid_referenced(pid) || self.spec_slot_busy(2 + index))
    }

    /// First external slot index `j >= from` that is not pinned.
    pub open spec fn first_unpinned(&self, from: int) -> Option<int>
        decreases 8 - from,
    {
        if from >= 8 || from < 0 {
            None
        } else if !self.spec_external_slot_pinned(from) {
            Some(from)
        } else {
            self.first_unpinned(from + 1)
        }
    }

    pub open spec fn spec_existing_source_slot(&self, source: InputSource, pid: i64) -> Option<usize> {
        existing_slot_of(self.external_source_pids@, source, pid)
    }

    /// The external slot index a new external `pid` would take: a free
    /// slot first, otherwise the first slot that nothing pins.
    pub open spec fn spec_external_allocation(&self) -> Option<int> {
        match find_pid(self.external_source_pids@, 0, 0) {
            Some(j) => Some(j),
            None => self.first_unpinned(0),
        }
    }

    /// The slot `source_slot` returns, and the source model after it.
    pub open spec fn spec_source_slot(&self, source: InputSource, pid: i64) -> (Option<usize>, SourceModel) {
        if self.spec_existing_source_slot(source, pid) is Some {
            (self.spec_existing_source_slot(source, pid), self.sources())
        } else if source == InputSource::External {
            match self.spec_external_allocation() {
                Some(j) => (Some((2 + j) as usize), reset_external_slot(self.sources(), j, pid)),
                None => (None, self.sources()),
            }
        } else {
            (None, self.sources())
        }
    }

    /// Whether a live pending, tail or overflow edge names external `pid`.
    pub fn external_pid_referenced(&self, source_pid: i64) -> (referenced: bool)
        requires
            self.wf(),
        ensures
            referenced == self.spec_external_pid_referenced(source_pid),
    {
        let mut i: usize = 0;
        while i < self.pending_len
            invariant
                self.wf(),
                i <= self.pending_len,
                forall|j: int| 0 <= j < i ==> !edge_references(#[trigger] self.pending@[j], source_pid),
            decreases self.pending_len - i,
        {
            let edge = self.pending[i];
            if edge.source == InputSource::External && edge.source_pid == source_pid {
                return true;
            }
            i = i + 1;
        }
        let mut i: usize = 0;
        while i < self.tail_len
            invariant
                self.wf(),
                i <= self.tail_len,
                forall|j: int| 0 <= j < i ==> !edge_references(#[trigger] self.tail@[j], source_pid),
            decreases self.tail_len - i,
        {
            let edge = self.tail[i];
            if edge.source == InputSource::External && edge.source_pid == source_pid {
                return true;
            }
            i = i + 1;
        }
        let mut offset: usize = 0;
        while offset < self.overflow_balance_len
            invariant
                self.wf(),
                offset <= self.overflow_balance_len,
                forall|j: int|
                    0 <= j < offset ==> !edge_references(
                        #[trigger] self.overflow_balances@[ring_position(self.overflow_balance_head as int, j)],
                        source_pid,
                    ),
            decreases self.overflow_balance_len - offset,
        {
            let mut index = self.overflow_balance_head + offset;
            if index >= OVERFLOW_BALANCE_CAPACITY {
                index = index - OVERFLOW_BALANCE_CAPACITY;
            }
            let edge = self.overflow_balances[index];
            assert(index == ring_position(self.overflow_balance_head as int, offset as int));
            if edge.source == InputSource::External && edge.source_pid == source_pid {
                assert(edge_references(
                    self.overflow_balances@[ring_position(self.overflow_balance_head as int, offset as int)],
                    source_pid,
                ));
                return true;
            }
            offset = offset + 1;
        }
        false
    }

    fn cells_any(cells: &Vec<bool>, slot: usize) -> (any: bool)
        requires
            cells@.len() == 1280,
            slot < 10,
        ensures
            any == exists|k: int| 0 <= k < 128 && #[trigger] cells@[cell(slot as int, k)],
    {
        let mut k: usize = 0;
        while k < 128
            invariant
                cells@.len() == 1280,
                slot < 10,
                k <= 128,
                forall|j: int| 0 <= j < k ==> !#[trigger] cells@[cell(slot as int, j)],
            decreases 128 - k,
        {
            if cells[slot * 128 + k] {
                assert(cells@[cell(slot as int, k as int)]);
                return true;
            }
            k = k + 1;
        }
        false
    }

    /// Whether external slot `index` is held by its pid: it is referenced by
    /// a retained edge or still carries source state.
    pub fn external_slot_pinned(&self, index: usize) -> (pinned: bool)
        requires
            self.wf(),
            index < 8,
        ensures
            pinned == self.spec_external_slot_pinned(index as int),
    {
        let slot = 2 + index;
        let pid = self.external_source_pids[index];
        pid != 0 && (self.external_pid_referenced(pid) || self.modifier_bits[slot] != 0
            || Self::cells_any(&self.held_keys, slot) || self.held_mouse_buttons[slot] != 0
            || Self::cells_any(&self.exposed_keys, slot) || self.exposed_mouse_buttons[slot] != 0
            || Self::cells_any(&self.discard_key_fences, slot) || self.discard_mouse_fences[slot] != 0)
    }

    /// The slot of an already-known source, without allocating one.
    pub fn existing_source_slot(&self, source: InputSource, source_pid: i64) -> (slot: Option<usize>)
        requires
            self.wf(),
        ensures
            slot == self.spec_existing_source_slot(source, source_pid),
            slot matches Some(s) ==> s < 10,
    {
        proof {
            lemma_find_pid_bounds(self.external_source_pids@, source_pid, 0);
        }
        if source.is_test_physical() {
            return Some(1);
        }
        match source {
            InputSource::Physical => Some(0),
            InputSource::External => {
                if source_pid == 0 {
                    return None;
                }
                let mut j: usize = 0;
                while j < 8
                    invariant
                        self.wf(),
                        j <= 8,
                        source_pid != 0,
                        source == InputSource::External,
                        find_pid(self.external_source_pids@, source_pid, 0)
                            == find_pid(self.external_source_pids@, source_pid, j as int),
                    decreases 8 - j,
                {
                    if self.external_source_pids[j] == source_pid {
                        assert(find_pid(self.external_source_pids@, source_pid, j as int) == Some(j as int));
                        return Some(2 + j);
                    }
                    j = j + 1;
                }
                None
            },
            _ => None,
        }
    }

    fn clear_external_slot(&mut self, index: usize, source_pid: i64)
        requires
            old(self).wf(),
            index < 8,
        ensures
            final(self).wf(),
            final(self).queue() == old(self).queue(),
            final(self).owned() == old(self).owned(),
            final(self).sources() == reset_external_slot(old(self).sources(), index as int, source_pid),
    {
        let slot = 2 + index;
        let ghost before = self.sources();
        self.external_source_pids.set(index, source_pid);
        self.modifier_bits.set(slot, 0);
        self.modifier_known.set(slot, 0);
        self.held_mouse_buttons.set(slot, 0);
        self.mouse_foreground_origins.set(slot, 0);
        self.exposed_mouse_buttons.set(slot, 0);
        self.discard_mouse_fences.set(slot, 0);
        let mut k: usize = 0;
        while k < 128
            invariant
                self.wf(),
                k <= 128,
                slot == 2 + index,
                index < 8,
                self.queue() == old(self).queue(),
                self.owned() == old(self).owned(),
                before == old(self).sources(),
                self.external_source_pids@ == before.pids.update(index as int, source_pid),
                self.modifier_bits@ == before.modifier_bits.update(slot as int, 0),
                self.modifier_known@ == before.modifier_known.update(slot as int, 0),
                self.held_mouse_buttons@ == before.held_mouse_buttons.update(slot as int, 0),
                self.mouse_foreground_origins@ == before.mouse_foreground_origins.update(slot as int, 0),
                self.exposed_mouse_buttons@ == before.exposed_mouse_buttons.update(slot as int, 0),
                self.discard_mouse_fences@ == before.discard_mouse_fences.update(slot as int, 0),
                forall|i: int| 0 <= i < 1280 ==> #[trigger] self.held_keys@[i] == if cell(slot as int, 0) <= i < cell(slot as int, k as int) { false } else { before.held_keys[i] },
                forall|i: int| 0 <= i < 1280 ==> #[trigger] self.key_origins@[i] == if cell(slot as int, 0) <= i < cell(slot as int, k as int) { 0 } else { before.key_origins[i] },
                forall|i: int| 0 <= i < 1280 ==> #[trigger] self.key_generations@[i] == if cell(slot as int, 0) <= i < cell(slot as int, k as int) { 0 } else { before.key_generations[i] },
                forall|i: int| 0 <= i < 1280 ==> #[trigger] self.exposed_keys@[i] == if cell(slot as int, 0) <= i < cell(slot as int, k as int) { false } else { before.exposed_keys[i] },
                forall|i: int| 0 <= i < 1280 ==> #[trigger] self.discard_key_fences@[i] == if cell(slot as int, 0) <= i < cell(slot as int, k as int) { false } else { before.discard_key_fences[i] },
            decreases 128 - k,
        {
            let i = slot * 128 + k;
            self.held_keys.set(i, false);
            self.key_origins.set(i, 0);
            self.key_generations.set(i, 0);
            self.exposed_keys.set(i, false);
            self.discard_key_fences.set(i, false);
            k = k + 1;
        }
        assert(self.held_keys@ =~= fill_slot(before.held_keys, slot as int, false));
        assert(self.key_origins@ =~= fill_slot(before.key_origins, slot as int, 0u8));
        assert(self.key_generations@ =~= fill_slot(before.key_generations, slot as int, 0u32));
        assert(self.exposed_keys@ =~= fill_slot(before.exposed_keys, slot as int, false));
        assert(self.discard_key_fences@ =~= fill_slot(before.discard_key_fences, slot as int, false));
    }

    fn free_external_slot(&self) -> (index: Option<usize>)
        requires
            self.wf(),
        ensures
            index == (match find_pid(self.external_source_pids@, 0, 0) {
                Some(j) => Some(j as usize),
                None => None,
            }),
            index matches Some(j) ==> j < 8,
    {
        proof {
            lemma_find_pid_bounds(self.external_source_pids@, 0, 0);
        }
        let mut j: usize = 0;
        while j < 8
            invariant
                self.wf(),
                j <= 8,
                find_pid(self.external_source_pids@, 0, 0) == find_pid(self.external_source_pids@, 0, j as int),
            decreases 8 - j,
        {
            if self.external_source_pids[j] == 0 {
                return Some(j);
            }
            j = j + 1;
        }
        None
    }

    proof fn lemma_first_unpinned_bounds(&self, from: int)
        ensures
            self.first_unpinned(from) matches Some(j) ==> from <= j < 8,
        decreases 8 - from,
    {
        if 0 <= from < 8 && self.spec_external_slot_pinned(from) {
            self.lemma_first_unpinned_bounds(from + 1);
        }
    }

    fn unpinned_external_slot(&self) -> (index: Option<usize>)
        requires
            self.wf(),
        ensures
            index == (match self.first_unpinned(0) {
                Some(j) => Some(j as usize),
                None => None,
            }),
            index matches Some(j) ==> j < 8,
    {
        proof {
            self.lemma_first_unpinned_bounds(0);
        }
        let mut j: usize = 0;
        while j < 8
            invariant
                self.wf(),
                j <= 8,
                self.first_unpinned(0) == self.first_unpinned(j as int),
            decreases 8 - j,
        {
            if !self.external_slot_pinned(j) {
                return Some(j);
            }
            j = j + 1;
        }
        None
    }

    /// The slot of a source, allocating an external slot for a new external
    /// pid: a free slot first, otherwise the first unpinned slot, which is
    /// then cleared. Helper-generated sources have no slot.
    pub fn source_slot(&mut self, source: InputSource, source_pid: i64) -> (slot: Option<usize>)
        requires
            old(self).wf(),
        ensures
            final(self).wf(),
            final(self).queue() == old(self).queue(),
            final(self).owned() == old(self).owned(),
            (slot, final(self).sources()) == old(self).spec_source_slot(source, source_pid),
            slot matches Some(s) ==> s < 10,
    {
        let existing = self.existing_source_slot(source, source_pid);
        if existing.is_some() {
            return existing;
        }
        match source {
            InputSource::External => {
                proof {
                    lemma_find_pid_bounds(self.external_source_pids@, 0, 0);
                    self.lemma_first_unpinned_bounds(0);
                }
                let mut found = self.free_external_slot();
                if found.is_none() {
                    found = self.unpinned_external_slot();
                }
                proof {
                    lemma_find_pid_bounds(self.external_source_pids@, 0, 0);
                }
                assert(found == (match old(self).spec_external_allocation() {
                    Some(j) => Some(j as usize),
                    None => None,
                }));
                match found {
                    None => None,
                    Some(index) => {
                        self.clear_external_slot(index, source_pid);
                        assert(old(self).spec_source_slot(source, source_pid).1 == reset_external_slot(old(self).sources(), index as int, source_pid));
                        Some(2 + index)
                    },
                }
            },
            _ => None,
        }
    }

    pub open spec fn spec_seed_modifier_side(&self, source: InputSource, pid: i64, key_code: u16, is_down: bool) -> SourceModel {
        match spec_modifier_side_for_key_code(key_code) {
            None => self.sources(),
            Some(side) => {
                let (slot, m) = self.spec_source_slot(source, pid);
                match slot {
                    None => m,
                    Some(s) => {
                        let bit = spec_side_bit(side);
                        if m.modifier_known[s as int] & bit != 0 {
                            m
                        } else {
                            SourceModel {
                                modifier_known: m.modifier_known.update(s as int, m.modifier_known[s as int] | bit),
                                modifier_bits: if is_down {
                                    m.modifier_bits.update(s as int, m.modifier_bits[s as int] | bit)
                                } else {
                                    m.modifier_bits
                                },
                                ..m
                            }
                        }
                    },
                }
            },
        }
    }

    /// Records the first-known state of one modifier side of a source.
    pub fn seed_modifier_side(&mut self, source: InputSource, source_pid: i64, key_code: u16, is_down: bool)
        requires
            old(self).wf(),
        ensures
            final(self).wf(),
            final(self).queue() == old(self).queue(),
            final(self).owned() == old(self).owned(),
            final(self).sources() == old(self).spec_seed_modifier_side(source, source_pid, key_code, is_down),
    {
        let side = match modifier_side_for_key_code(key_code) {
            Some(side) => side,
            None => return,
        };
        let slot = match self.source_slot(source, source_pid) {
            Some(slot) => slot,
            None => return,
        };
        let bit = side.bit();
        if self.modifier_known[slot] & bit != 0 {
            return;
        }
        let known = self.modifier_known[slot] | bit;
        self.modifier_known.set(slot, known);
        if is_down {
            let bits = self.modifier_bits[slot] | bit;
            self.modifier_bits.set(slot, bits);
        }
    }

    pub open spec fn spec_modifier_side_transition(
        &self,
        source: InputSource,
        pid: i64,
        key_code: u16,
        physical_is_down: Option<bool>,
    ) -> (Option<(bool, bool)>, SourceModel) {
        match spec_modifier_side_for_key_code(key_code) {
            None => (None, self.sources()),
            Some(side) => {
                let (slot, m) = self.spec_source_slot(source, pid);
                match slot {
                    None => (None, m),
                    Some(s) => {
                        let bit = spec_side_bit(side);
                        let was_down = m.modifier_bits[s as int] & bit != 0;
                        if source == InputSource::Physical && physical_is_down is None {
                            (None, m)
                        } else {
                            let is_down = if source == InputSource::Physical {
                                physical_is_down->0
                            } else {
                                !was_down
                            };
                            (
                                Some((is_down, was_down)),
                                SourceModel {
                                    modifier_known: m.modifier_known.update(s as int, m.modifier_known[s as int] | bit),
                                    modifier_bits: m.modifier_bits.update(
                                        s as int,
                                        if is_down { m.modifier_bits[s as int] | bit } else { m.modifier_bits[s as int] & !bit },
                                    ),
                                    ..m
                                },
                            )
                        }
                    },
                }
            },
        }
    }

    /// Advances the side-specific modifier model of a flagsChanged edge.
    /// The HID stream reports its authoritative side state; other streams
    /// toggle the exact side named by the edge. Returns the new and the
    /// previous state of that side.
    pub fn modifier_side_transition(
        &mut self,
        source: InputSource,
        source_pid: i64,
        key_code: u16,
        physical_is_down: Option<bool>,
    ) -> (transition: Option<(bool, bool)>)
        requires
            old(self).wf(),
        ensures
            final(self).wf(),
            final(self).queue() == old(self).queue(),
            final(self).owned() == old(self).owned(),
            (transition, final(self).sources()) == old(self).spec_modifier_side_transition(
                source,
                source_pid,
                key_code,
                physical_is_down,
            ),
    {
        let side = match modifier_side_for_key_code(key_code) {
            Some(side) => side,
            None => return None,
        };
        let slot = match self.source_slot(source, source_pid) {
            Some(slot) => slot,
            None => return None,
        };
        let bit = side.bit();
        let was_down = self.modifier_bits[slot] & bit != 0;
        let is_down = if source == InputSource::Physical {
            match physical_is_down {
                Some(down) => down,
                None => return None,
            }
        } else {
            !was_down
        };
        let known = self.modifier_known[slot] | bit;
        self.modifier_known.set(slot, known);
        let bits = if is_down { self.modifier_bits[slot] | bit } else { self.modifier_bits[slot] & !bit };
        self.modifier_bits.set(slot, bits);
        Some((is_down, was_down))
    }

    /// Toggles the side named by an ordinary external flagsChanged edge and
    /// returns its new state.
    pub fn observe_normal_external_modifier(&mut self, source_pid: i64, key_code: u16) -> (down: Option<bool>)
        requires
            old(self).wf(),
        ensures
            final(self).wf(),
            final(self).queue() == old(self).queue(),
            final(self).owned() == old(self).owned(),
            ({
                let (t, m) = old(self).spec_modifier_side_transition(InputSource::External, source_pid, key_code, None);
                &&& down == (match t { Some(p) => Some(p.0), None => None })
                &&& final(self).sources() == m
            }),
    {
        match self.modifier_side_transition(InputSource::External, source_pid, key_code, None) {
            Some((is_down, _)) => Some(is_down),
            None => None,
        }
    }
}

} // verus!
