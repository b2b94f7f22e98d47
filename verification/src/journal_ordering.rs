//! Readiness and physical discard fences for retained recovery edges.

use vstd::prelude::*;
use crate::journal::{
    DeferredEvent, RecoveryEdgeJournal, SourceModel, button_bit, cell, spec_button_bit,
};
use crate::native_event::{InputSource, spec_is_mouse_event_type};

verus! {

/// The physical source slot of an edge source: the HID stream or the
/// test-physical stream. Other sources are not physical.
pub open spec fn physical_slot(source: InputSource) -> Option<int> {
    if source == InputSource::Physical {
        Some(0)
    } else if source == InputSource::TestPhysical {
        Some(1)
    } else {
        None
    }
}

/// State of the hidden-phase scan over a prefix of the pending edges.
pub struct HiddenScan {
    /// Hidden keys held per physical slot, 256 cells.
    pub keys: Seq<bool>,
    /// Hidden mouse buttons held per physical slot.
    pub mouse: Seq<u32>,
    /// Length of the longest prefix that leaves no hidden phase held.
    pub ready: nat,
    /// Whether the scan met an edge it cannot reorder past.
    pub stopped: bool,
}

pub open spec fn hidden_clear(keys: Seq<bool>, mouse: Seq<u32>) -> bool {
    &&& forall|i: int| 0 <= i < 256 ==> !#[trigger] keys[i]
    &&& mouse[0] == 0
    &&& mouse[1] == 0
}

pub open spec fn scan_start() -> HiddenScan {
    HiddenScan {
        keys: Seq::new(256, |i: int| false),
        mouse: seq![0u32, 0u32],
        ready: 0,
        stopped: false,
    }
}

/// One step of the scan over the edge at `index`.
pub open spec fn scan_step(st: HiddenScan, edge: DeferredEvent, index: int) -> HiddenScan {
    if st.stopped {
        st
    } else if edge.uncertain_owned {
        HiddenScan { stopped: true, ..st }
    } else if edge.hidden_generation && physical_slot(edge.source) is Some {
        let slot = physical_slot(edge.source)->0;
        if spec_is_mouse_event_type(edge.event_type) {
            match spec_button_bit(edge.mouse_button) {
                None => HiddenScan { stopped: true, ..st },
                Some(bit) => {
                    let held = if edge.is_down { st.mouse[slot] | bit } else { st.mouse[slot] & !bit };
                    let mouse = st.mouse.update(slot, held);
                    HiddenScan {
                        mouse,
                        ready: if hidden_clear(st.keys, mouse) { (index + 1) as nat } else { st.ready },
                        ..st
                    }
                },
            }
        } else if !edge.repeat {
            let keys = st.keys.update(cell(slot, edge.key_code as int), edge.is_down);
            HiddenScan {
                keys,
                ready: if hidden_clear(keys, st.mouse) { (index + 1) as nat } else { st.ready },
                ..st
            }
        } else {
            HiddenScan {
                ready: if hidden_clear(st.keys, st.mouse) { (index + 1) as nat } else { st.ready },
                ..st
            }
        }
    } else {
        HiddenScan {
            ready: if hidden_clear(st.keys, st.mouse) { (index + 1) as nat } else { st.ready },
            ..st
        }
    }
}

/// The scan after the first `n` edges.
pub open spec fn scan(edges: Seq<DeferredEvent>, n: nat) -> HiddenScan
    decreases n,
{
    if n == 0 {
        scan_start()
    } else {
        scan_step(scan(edges, (n - 1) as nat), edges[n - 1], n - 1)
    }
}

proof fn lemma_scan_shape(edges: Seq<DeferredEvent>, n: nat)
    requires
        forall|i: int| 0 <= i < n ==> #[trigger] edges[i].key_code < 128,
    ensures
        scan(edges, n).keys.len() == 256,
        scan(edges, n).mouse.len() == 2,
        scan(edges, n).ready <= n,
    decreases n,
{
    if n > 0 {
        lemma_scan_shape(edges, (n - 1) as nat);
    }
}

proof fn lemma_scan_stays_stopped(edges: Seq<DeferredEvent>, i: nat, n: nat)
    requires
        i <= n,
        scan(edges, i).stopped,
    ensures
        scan(edges, n) == scan(edges, i),
    decreases n - i,
{
    if n > i {
        lemma_scan_stays_stopped(edges, i, (n - 1) as nat);
    }
}

impl RecoveryEdgeJournal {
    pub open spec fn spec_queued_ordering_pending(&self) -> bool {
        self.pending_len != 0 || self.tail_len != 0 || self.overflow_balance_len != 0
            || self.token is Some || self.overflow
    }

    pub open spec fn spec_physical_fences_pending(&self) -> bool {
        (exists|i: int| 0 <= i < 256 && #[trigger] self.discard_key_fences@[i])
            || self.discard_mouse_fences@[0] != 0 || self.discard_mouse_fences@[1] != 0
    }

    pub open spec fn spec_owned_release_pending(&self) -> bool {
        exists|k: int| 0 <= k < 128 && #[trigger] self.owned_release_generation@[k] != 0
    }

    pub open spec fn spec_ready_len(&self) -> nat {
        if self.token is Some || self.pending_len == 0 {
            0
        } else {
            scan(self.pending_seq(), self.pending_len as nat).ready
        }
    }

    /// Whether any deferred edge, balance, submission or overflow remains.
    pub fn queued_ordering_pending(&self) -> (pending: bool)
        ensures
            pending == self.spec_queued_ordering_pending(),
    {
        self.pending_len != 0 || self.tail_len != 0 || self.overflow_balance_len != 0
            || self.token.is_some() || self.overflow
    }

    /// Whether a physical key or button is still discard-fenced.
    pub fn physical_fences_pending(&self) -> (pending: bool)
        requires
            self.wf(),
        ensures
            pending == self.spec_physical_fences_pending(),
    {
        let mut i: usize = 0;
        while i < 256
            invariant
                self.wf(),
                i <= 256,
                forall|j: int| 0 <= j < i ==> !self.discard_key_fences@[j],
            decreases 256 - i,
        {
            if self.discard_key_fences[i] {
                return true;
            }
            i = i + 1;
        }
        self.discard_mouse_fences[0] != 0 || self.discard_mouse_fences[1] != 0
    }

    /// Lifts each physical fence whose key or button is no longer down.
    /// `keys_down[k]` is the current state of key code `k`; bit `b` of
    /// `buttons_down` is the current state of mouse button `b`.
    pub fn reconcile_physical_fences(&mut self, keys_down: &Vec<bool>, buttons_down: u32)
        requires
            old(self).wf(),
            keys_down@.len() == 128,
        ensures
            final(self).wf(),
            final(self).queue() == old(self).queue(),
            final(self).owned() == old(self).owned(),
            final(self).sources() == (SourceModel {
                discard_key_fences: Seq::new(
                    1280,
                    |i: int|
                        if i < 128 {
                            old(self).discard_key_fences@[i] && keys_down@[i]
                        } else if i < 256 {
                            old(self).discard_key_fences@[i] && keys_down@[i - 128]
                        } else {
                            old(self).discard_key_fences@[i]
                        },
                ),
                discard_mouse_fences: old(self).discard_mouse_fences@.update(
                    0,
                    old(self).discard_mouse_fences@[0] & buttons_down,
                ).update(1, old(self).discard_mouse_fences@[1] & buttons_down),
                ..old(self).sources()
            }),
    {
        let ghost before = self.discard_key_fences@;
        let mut i: usize = 0;
        while i < 256
            invariant
                self.wf(),
                i <= 256,
                keys_down@.len() == 128,
                self.queue() == old(self).queue(),
                self.owned() == old(self).owned(),
                self.sources() == (SourceModel { discard_key_fences: self.discard_key_fences@, ..old(self).sources() }),
                before == old(self).discard_key_fences@,
                forall|j: int| 0 <= j < 1280 ==> #[trigger] self.discard_key_fences@[j] == if j < i {
                    if j < 128 { before[j] && keys_down@[j] } else { before[j] && keys_down@[j - 128] }
                } else {
                    before[j]
                },
            decreases 256 - i,
        {
            let key: usize = if i < 128 { i } else { i - 128 };
            if self.discard_key_fences[i] && !keys_down[key] {
                self.discard_key_fences.set(i, false);
            }
            i = i + 1;
        }
        let m0 = self.discard_mouse_fences[0] & buttons_down;
        self.discard_mouse_fences.set(0, m0);
        let m1 = self.discard_mouse_fences[1] & buttons_down;
        self.discard_mouse_fences.set(1, m1);
        assert(self.discard_key_fences@ =~= Seq::new(
            1280,
            |i: int|
                if i < 128 {
                    before[i] && keys_down@[i]
                } else if i < 256 {
                    before[i] && keys_down@[i - 128]
                } else {
                    before[i]
                },
        ));
    }

    /// Whether any ordering, fence or retired native release remains.
    pub fn has_pending(&self) -> (pending: bool)
        requires
            self.wf(),
        ensures
            pending == (self.spec_queued_ordering_pending() || self.spec_physical_fences_pending()
                || self.spec_owned_release_pending()),
    {
        if self.queued_ordering_pending() || self.physical_fences_pending() {
            return true;
        }
        let mut k: usize = 0;
        while k < 128
            invariant
                self.wf(),
                k <= 128,
                forall|j: int| 0 <= j < k ==> self.owned_release_generation@[j] == 0,
            decreases 128 - k,
        {
            if self.owned_release_generation[k] != 0 {
                return true;
            }
            k = k + 1;
        }
        false
    }

    /// Whether deferred ordering or a physical fence remains.
    pub fn ordering_pending(&self) -> (pending: bool)
        requires
            self.wf(),
        ensures
            pending == (self.spec_queued_ordering_pending() || self.spec_physical_fences_pending()),
    {
        self.queued_ordering_pending() || self.physical_fences_pending()
    }

    pub open spec fn spec_hidden_balanced(&self) -> bool {
        &&& forall|i: int| 0 <= i < 256 ==> #[trigger] self.key_origins@[i] != 1
        &&& self.held_mouse_buttons@[0] & !self.mouse_foreground_origins@[0] == 0
        &&& self.held_mouse_buttons@[1] & !self.mouse_foreground_origins@[1] == 0
    }

    /// Whether no physical key or button is held by a hidden generation.
    pub fn hidden_balanced(&self) -> (balanced: bool)
        requires
            self.wf(),
        ensures
            balanced == self.spec_hidden_balanced(),
    {
        let mut i: usize = 0;
        while i < 256
            invariant
                self.wf(),
                i <= 256,
                forall|j: int| 0 <= j < i ==> self.key_origins@[j] != 1,
            decreases 256 - i,
        {
            if self.key_origins[i] == 1 {
                return false;
            }
            i = i + 1;
        }
        self.held_mouse_buttons[0] & !self.mouse_foreground_origins[0] == 0
            && self.held_mouse_buttons[1] & !self.mouse_foreground_origins[1] == 0
    }

    /// Length of the longest pending prefix that can be submitted without
    /// leaving a hidden physical phase open. Nothing is ready while a
    /// submission holds authority, and an uncertain edge ends the prefix.
    pub fn ready_len(&self) -> (ready: usize)
        requires
            self.wf(),
        ensures
            ready == self.spec_ready_len(),
            ready <= self.pending_len,
    {
        if self.token.is_some() || self.pending_len == 0 {
            return 0;
        }
        let ghost edges = self.pending_seq();
        let mut keys: Vec<bool> = vec![false; 256];
        let mut mouse0: u32 = 0;
        let mut mouse1: u32 = 0;
        let mut ready: usize = 0;
        let mut index: usize = 0;
        proof {
            assert(keys@ =~= scan_start().keys);
        }
        while index < self.pending_len
            invariant
                self.wf(),
                index <= self.pending_len,
                self.token is None,
                self.pending_len > 0,
                edges == self.pending_seq(),
                !scan(edges, index as nat).stopped,
                keys@ == scan(edges, index as nat).keys,
                seq![mouse0, mouse1] == scan(edges, index as nat).mouse,
                ready == scan(edges, index as nat).ready,
                ready <= index,
            decreases self.pending_len - index,
        {
            let edge = self.pending[index];
            proof {
                lemma_scan_shape(edges, index as nat);
                assert(edges[index as int] == edge);
            }
            if edge.uncertain_owned {
                proof {
                    assert(scan(edges, (index + 1) as nat).stopped);
                    assert(scan(edges, (index + 1) as nat).ready == ready);
                    lemma_scan_stays_stopped(edges, (index + 1) as nat, self.pending_len as nat);
                }
                return ready;
            }
            let physical: Option<usize> = match edge.source {
                InputSource::Physical => Some(0),
                InputSource::TestPhysical => Some(1),
                _ => None,
            };
            if edge.hidden_generation && physical.is_some() {
                let slot = physical.unwrap();
                if edge.is_mouse() {
                    match button_bit(edge.mouse_button) {
                        None => {
                            proof {
                                assert(scan(edges, (index + 1) as nat).stopped);
                                assert(scan(edges, (index + 1) as nat).ready == ready);
                                lemma_scan_stays_stopped(edges, (index + 1) as nat, self.pending_len as nat);
                            }
                            return ready;
                        },
                        Some(bit) => {
                            if slot == 0 {
                                mouse0 = if edge.is_down { mouse0 | bit } else { mouse0 & !bit };
                            } else {
                                mouse1 = if edge.is_down { mouse1 | bit } else { mouse1 & !bit };
                            }
                        },
                    }
                } else if !edge.repeat {
                    keys.set(slot * 128 + edge.key_code as usize, edge.is_down);
                }
            }
            let mut clear = mouse0 == 0 && mouse1 == 0;
            let mut k: usize = 0;
            while clear && k < 256
                invariant
                    k <= 256,
                    keys@.len() == 256,
                    clear ==> forall|j: int| 0 <= j < k ==> !keys@[j],
                    clear ==> mouse0 == 0 && mouse1 == 0,
                    !clear ==> !(mouse0 == 0 && mouse1 == 0) || exists|j: int| 0 <= j < 256 && keys@[j],
                decreases 256 - k,
            {
                if keys[k] {
                    clear = false;
                }
                k = k + 1;
            }
            proof {
                let next = scan(edges, (index + 1) as nat);
                assert(seq![mouse0, mouse1] =~= next.mouse);
                assert(keys@ =~= next.keys);
                let ms = seq![mouse0, mouse1];
                assert(ms[0] == mouse0 && ms[1] == mouse1);
                if clear {
                    assert(hidden_clear(keys@, ms));
                } else {
                    assert(!hidden_clear(keys@, ms));
                }
            }
            if clear {
                ready = index + 1;
            }
            index = index + 1;
        }
        ready
    }
}

} // verus!
