//! Bounded recovery journal storage. The journal retains deferred native
//! edges in arrival order, bounds every buffer, and tracks per-source key,
//! modifier and mouse state so that hidden edges can be balanced or fenced.

use vstd::prelude::*;
use crate::native_event::{InputSource, is_mouse_event_type, spec_is_mouse_event_type};

verus! {

pub const RECOVERY_PHYSICAL_SOURCE_SLOTS: usize = 2;
pub const RECOVERY_EXTERNAL_SOURCE_SLOTS: usize = 8;
pub const RECOVERY_SOURCE_SLOTS: usize = 10;
/// Virtual key codes tracked per source (0 through 127).
pub const TRACKED_KEY_CODES: usize = 128;
/// Key-state cells over all source slots.
pub const SOURCE_KEY_CELLS: usize = 1280;
/// Capacity of the pending and tail deferred-edge buffers.
pub const DEFERRED_EDGE_CAPACITY: usize = 64;
/// Number of native event pool banks used round-robin by submissions.
pub const DEFERRED_POOL_BANKS: usize = 2;
/// Capacity of the overflow balance ring: 128 keys and 32 buttons per slot.
pub const OVERFLOW_BALANCE_CAPACITY: usize = 1600;
/// How long external deferred edges may be collected before overflow.
pub const EXTERNAL_DEFERRED_COLLECTION_TIMEOUT_MS: u64 = 250;
/// How long a submitted batch may wait for its exact observations.
pub const SUBMISSION_TIMEOUT_MS: u64 = 250;

/// Key-state cell of `key` in source `slot`.
pub open spec fn cell(slot: int, key: int) -> int {
    slot * 128 + key
}

/// A lossless scalar copy of one native keyboard or mouse edge.
#[derive(Clone, Copy, Debug, PartialEq, Eq, Structural)]
pub struct DeferredEvent {
    pub event_type: u32,
    pub flags: u64,
    pub original_timestamp: u64,
    pub source: InputSource,
    pub source_pid: i64,
    pub original_marker: i64,
    pub uncertain_owned: bool,
    pub key_code: u16,
    pub keyboard_type: i64,
    pub repeat: bool,
    pub is_down: bool,
    pub generation: u32,
    pub foreground_balance: bool,
    pub hidden_generation: bool,
    pub mouse_button: i64,
    pub mouse_number: i64,
    pub mouse_click_state: i64,
    /// The pointer location's coordinates and the button pressure, carried
    /// as their IEEE-754 bit patterns: an edge is recognized again only
    /// when it is reposted bit for bit.
    pub location_x_bits: u64,
    pub location_y_bits: u64,
    pub mouse_pressure_bits: u64,
    pub mouse_delta_x: i64,
    pub mouse_delta_y: i64,
    pub mouse_instant_mouser: i64,
    pub mouse_subtype: i64,
}

pub open spec fn spec_empty_edge() -> DeferredEvent {
    DeferredEvent {
        event_type: 0,
        flags: 0,
        original_timestamp: 0,
        source: InputSource::Physical,
        source_pid: 0,
        original_marker: 0,
        uncertain_owned: false,
        key_code: 0,
        keyboard_type: 0,
        repeat: false,
        is_down: false,
        generation: 0,
        foreground_balance: false,
        hidden_generation: false,
        mouse_button: 0,
        mouse_number: 0,
        mouse_click_state: 0,
        location_x_bits: 0,
        location_y_bits: 0,
        mouse_pressure_bits: 0,
        mouse_delta_x: 0,
        mouse_delta_y: 0,
        mouse_instant_mouser: 0,
        mouse_subtype: 0,
    }
}

impl DeferredEvent {
    /// The cleared buffer entry.
    pub fn empty() -> (edge: DeferredEvent)
        ensures
            edge == spec_empty_edge(),
    {
        DeferredEvent {
            event_type: 0,
            flags: 0,
            original_timestamp: 0,
            source: InputSource::Physical,
            source_pid: 0,
            original_marker: 0,
            uncertain_owned: false,
            key_code: 0,
            keyboard_type: 0,
            repeat: false,
            is_down: false,
            generation: 0,
            foreground_balance: false,
            hidden_generation: false,
            mouse_button: 0,
            mouse_number: 0,
            mouse_click_state: 0,
            location_x_bits: 0,
            location_y_bits: 0,
            mouse_pressure_bits: 0,
            mouse_delta_x: 0,
            mouse_delta_y: 0,
            mouse_instant_mouser: 0,
            mouse_subtype: 0,
        }
    }

    pub fn is_mouse(&self) -> (mouse: bool)
        ensures
            mouse == spec_is_mouse_event_type(self.event_type),
    {
        is_mouse_event_type(self.event_type)
    }
}

/// The single-bit mask of a mouse button number, when it names one of the
/// 32 representable buttons.
pub open spec fn spec_button_bit(button: i64) -> Option<u32> {
    if 0 <= button < 32 {
        Some(1u32 << (button as u32))
    } else {
        None
    }
}

pub fn button_bit(button: i64) -> (bit: Option<u32>)
    ensures
        bit == spec_button_bit(button),
{
    if button < 0 || button >= 32 {
        None
    } else {
        let b: u32 = button as u32;
        Some(1u32 << b)
    }
}

pub open spec fn spec_button_bit_u32(button: u32) -> Option<u32> {
    if button < 32 {
        Some(1u32 << button)
    } else {
        None
    }
}

pub fn button_bit_u32(button: u32) -> (bit: Option<u32>)
    ensures
        bit == spec_button_bit_u32(button),
{
    if button >= 32 {
        None
    } else {
        Some(1u32 << button)
    }
}

/// The per-source model of keys, modifiers and mouse buttons.
#[verifier::ext_equal]
pub struct SourceModel {
    pub pids: Seq<i64>,
    pub modifier_bits: Seq<u8>,
    pub modifier_known: Seq<u8>,
    pub held_keys: Seq<bool>,
    pub key_origins: Seq<u8>,
    pub key_generations: Seq<u32>,
    pub held_mouse_buttons: Seq<u32>,
    pub mouse_foreground_origins: Seq<u32>,
    pub exposed_keys: Seq<bool>,
    pub exposed_mouse_buttons: Seq<u32>,
    pub discard_key_fences: Seq<bool>,
    pub discard_mouse_fences: Seq<u32>,
}

/// The ordering state: buffers, cursors, submission authority and deadlines.
#[verifier::ext_equal]
pub struct QueueModel {
    pub pending: Seq<DeferredEvent>,
    pub pending_len: nat,
    pub tail: Seq<DeferredEvent>,
    pub tail_len: nat,
    pub overflow_balances: Seq<DeferredEvent>,
    pub overflow_balance_head: nat,
    pub overflow_balance_len: nat,
    pub submitted_len: nat,
    pub observed: nat,
    pub token: Option<u64>,
    pub submission_deadline: Option<u64>,
    pub external_collection_deadline: Option<u64>,
    pub next_pool_bank: nat,
    pub overflow: bool,
}

/// `s` with every cell of `slot` replaced by `value`.
pub open spec fn fill_slot<T>(s: Seq<T>, slot: int, value: T) -> Seq<T> {
    Seq::new(s.len(), |i: int| if cell(slot, 0) <= i < cell(slot, 128) { value } else { s[i] })
}

/// Position of the `i`-th live entry of an overflow ring starting at `head`.
pub open spec fn ring_position(head: int, i: int) -> int {
    if head + i < OVERFLOW_BALANCE_CAPACITY {
        head + i
    } else {
        head + i - OVERFLOW_BALANCE_CAPACITY
    }
}

/// Bounded, owner-run-loop-local journal of deferred recovery edges.
pub struct RecoveryEdgeJournal {
    pub pending: Vec<DeferredEvent>,
    pub pending_len: usize,
    pub tail: Vec<DeferredEvent>,
    pub tail_len: usize,
    pub overflow_balances: Vec<DeferredEvent>,
    pub overflow_balance_head: usize,
    pub overflow_balance_len: usize,
    pub submitted_len: usize,
    pub observed: usize,
    pub token: Option<u64>,
    pub submission_deadline: Option<u64>,
    pub external_collection_deadline: Option<u64>,
    pub next_pool_bank: usize,
    pub overflow: bool,
    pub external_source_pids: Vec<i64>,
    pub modifier_bits: Vec<u8>,
    pub modifier_known: Vec<u8>,
    pub held_keys: Vec<bool>,
    pub key_origins: Vec<u8>,
    pub key_generations: Vec<u32>,
    pub owned_release_generation: Vec<u32>,
    pub held_mouse_buttons: Vec<u32>,
    pub mouse_foreground_origins: Vec<u32>,
    pub exposed_keys: Vec<bool>,
    pub exposed_mouse_buttons: Vec<u32>,
    pub discard_key_fences: Vec<bool>,
    pub discard_mouse_fences: Vec<u32>,
}

impl RecoveryEdgeJournal {
    pub open spec fn sources(&self) -> SourceModel {
        SourceModel {
            pids: self.external_source_pids@,
            modifier_bits: self.modifier_bits@,
            modifier_known: self.modifier_known@,
            held_keys: self.held_keys@,
            key_origins: self.key_origins@,
            key_generations: self.key_generations@,
            held_mouse_buttons: self.held_mouse_buttons@,
            mouse_foreground_origins: self.mouse_foreground_origins@,
            exposed_keys: self.exposed_keys@,
            exposed_mouse_buttons: self.exposed_mouse_buttons@,
            discard_key_fences: self.discard_key_fences@,
            discard_mouse_fences: self.discard_mouse_fences@,
        }
    }

    pub open spec fn queue(&self) -> QueueModel {
        QueueModel {
            pending: self.pending@,
            pending_len: self.pending_len as nat,
            tail: self.tail@,
            tail_len: self.tail_len as nat,
            overflow_balances: self.overflow_balances@,
            overflow_balance_head: self.overflow_balance_head as nat,
            overflow_balance_len: self.overflow_balance_len as nat,
            submitted_len: self.submitted_len as nat,
            observed: self.observed as nat,
            token: self.token,
            submission_deadline: self.submission_deadline,
            external_collection_deadline: self.external_collection_deadline,
            next_pool_bank: self.next_pool_bank as nat,
            overflow: self.overflow,
        }
    }

    /// Released-generation watermark per virtual key code.
    pub open spec fn owned(&self) -> Seq<u32> {
        self.owned_release_generation@
    }

    /// The live pending edges, oldest first.
    pub open spec fn pending_seq(&self) -> Seq<DeferredEvent> {
        self.pending@.subrange(0, self.pending_len as int)
    }

    /// The live tail edges, oldest first.
    pub open spec fn tail_seq(&self) -> Seq<DeferredEvent> {
        self.tail@.subrange(0, self.tail_len as int)
    }

    /// The live overflow balances, oldest first.
    pub open spec fn overflow_seq(&self) -> Seq<DeferredEvent> {
        Seq::new(
            self.overflow_balance_len as nat,
            |i: int| self.overflow_balances@[ring_position(self.overflow_balance_head as int, i)],
        )
    }

    /// Structural well-formedness kept by every operation.
    pub open spec fn wf(&self) -> bool {
        &&& self.pending@.len() == DEFERRED_EDGE_CAPACITY
        &&& self.pending_len <= DEFERRED_EDGE_CAPACITY
        &&& self.tail@.len() == DEFERRED_EDGE_CAPACITY
        &&& self.tail_len <= DEFERRED_EDGE_CAPACITY
        &&& self.overflow_balances@.len() == OVERFLOW_BALANCE_CAPACITY
        &&& self.overflow_balance_head < OVERFLOW_BALANCE_CAPACITY
        &&& self.overflow_balance_len <= OVERFLOW_BALANCE_CAPACITY
        &&& self.observed <= self.submitted_len
        &&& self.submitted_len <= self.pending_len
        &&& (self.token is Some) == (self.submitted_len != 0)
        &&& self.next_pool_bank < DEFERRED_POOL_BANKS
        &&& self.external_source_pids@.len() == RECOVERY_EXTERNAL_SOURCE_SLOTS
        &&& self.modifier_bits@.len() == RECOVERY_SOURCE_SLOTS
        &&& self.modifier_known@.len() == RECOVERY_SOURCE_SLOTS
        &&& self.held_keys@.len() == SOURCE_KEY_CELLS
        &&& self.key_origins@.len() == SOURCE_KEY_CELLS
        &&& self.key_generations@.len() == SOURCE_KEY_CELLS
        &&& self.owned_release_generation@.len() == TRACKED_KEY_CODES
        &&& self.held_mouse_buttons@.len() == RECOVERY_SOURCE_SLOTS
        &&& self.mouse_foreground_origins@.len() == RECOVERY_SOURCE_SLOTS
        &&& self.exposed_keys@.len() == SOURCE_KEY_CELLS
        &&& self.exposed_mouse_buttons@.len() == RECOVERY_SOURCE_SLOTS
        &&& self.discard_key_fences@.len() == SOURCE_KEY_CELLS
        &&& self.discard_mouse_fences@.len() == RECOVERY_SOURCE_SLOTS
        &&& forall|i: int| 0 <= i < DEFERRED_EDGE_CAPACITY ==> #[trigger] self.pending@[i].key_code < 128
        &&& forall|i: int| 0 <= i < DEFERRED_EDGE_CAPACITY ==> #[trigger] self.tail@[i].key_code < 128
        &&& forall|i: int|
            0 <= i < OVERFLOW_BALANCE_CAPACITY ==> #[trigger] self.overflow_balances@[i].key_code < 128
    }

    /// A fresh journal: every buffer empty, no authority, no source state.
    pub fn new() -> (journal: RecoveryEdgeJournal)
        ensures
            journal.wf(),
            journal.pending_len == 0 && journal.tail_len == 0,
            journal.overflow_balance_head == 0 && journal.overflow_balance_len == 0,
            journal.submitted_len == 0 && journal.observed == 0,
            journal.token is None && journal.submission_deadline is None,
            journal.external_collection_deadline is None,
            journal.next_pool_bank == 0 && !journal.overflow,
            journal.pending@ == Seq::new(DEFERRED_EDGE_CAPACITY as nat, |i: int| spec_empty_edge()),
            journal.tail@ == Seq::new(DEFERRED_EDGE_CAPACITY as nat, |i: int| spec_empty_edge()),
            journal.overflow_balances@ == Seq::new(OVERFLOW_BALANCE_CAPACITY as nat, |i: int| spec_empty_edge()),
            forall|i: int| 0 <= i < RECOVERY_EXTERNAL_SOURCE_SLOTS ==> journal.external_source_pids@[i] == 0,
            forall|i: int| 0 <= i < RECOVERY_SOURCE_SLOTS ==> {
                &&& journal.modifier_bits@[i] == 0
                &&& journal.modifier_known@[i] == 0
                &&& journal.held_mouse_buttons@[i] == 0
                &&& journal.mouse_foreground_origins@[i] == 0
                &&& journal.exposed_mouse_buttons@[i] == 0
                &&& journal.discard_mouse_fences@[i] == 0
            },
            forall|i: int| 0 <= i < SOURCE_KEY_CELLS ==> {
                &&& !journal.held_keys@[i]
                &&& journal.key_origins@[i] == 0
                &&& journal.key_generations@[i] == 0
                &&& !journal.exposed_keys@[i]
                &&& !journal.discard_key_fences@[i]
            },
            forall|i: int| 0 <= i < TRACKED_KEY_CODES ==> journal.owned_release_generation@[i] == 0,
    {
        let journal = RecoveryEdgeJournal {
            pending: vec![DeferredEvent::empty(); DEFERRED_EDGE_CAPACITY],
            pending_len: 0,
            tail: vec![DeferredEvent::empty(); DEFERRED_EDGE_CAPACITY],
            tail_len: 0,
            overflow_balances: vec![DeferredEvent::empty(); OVERFLOW_BALANCE_CAPACITY],
            overflow_balance_head: 0,
            overflow_balance_len: 0,
            submitted_len: 0,
            observed: 0,
            token: None,
            submission_deadline: None,
            external_collection_deadline: None,
            next_pool_bank: 0,
            overflow: false,
            external_source_pids: vec![0i64; RECOVERY_EXTERNAL_SOURCE_SLOTS],
            modifier_bits: vec![0u8; RECOVERY_SOURCE_SLOTS],
            modifier_known: vec![0u8; RECOVERY_SOURCE_SLOTS],
            held_keys: vec![false; SOURCE_KEY_CELLS],
            key_origins: vec![0u8; SOURCE_KEY_CELLS],
            key_generations: vec![0u32; SOURCE_KEY_CELLS],
            owned_release_generation: vec![0u32; TRACKED_KEY_CODES],
            held_mouse_buttons: vec![0u32; RECOVERY_SOURCE_SLOTS],
            mouse_foreground_origins: vec![0u32; RECOVERY_SOURCE_SLOTS],
            exposed_keys: vec![false; SOURCE_KEY_CELLS],
            exposed_mouse_buttons: vec![0u32; RECOVERY_SOURCE_SLOTS],
            discard_key_fences: vec![false; SOURCE_KEY_CELLS],
            discard_mouse_fences: vec![0u32; RECOVERY_SOURCE_SLOTS],
        };
        assert(journal.pending@ =~= Seq::new(DEFERRED_EDGE_CAPACITY as nat, |i: int| spec_empty_edge()));
        assert(journal.tail@ =~= Seq::new(DEFERRED_EDGE_CAPACITY as nat, |i: int| spec_empty_edge()));
        assert(journal.overflow_balances@ =~= Seq::new(OVERFLOW_BALANCE_CAPACITY as nat, |i: int| spec_empty_edge()));
        journal
    }
}

} // verus!
