//! Deferring one captured native edge into the journal: the edge's phase is
//! modeled per source, the edge is appended in arrival order, and any edge
//! the journal cannot model or hold fails the journal for admission.

use vstd::prelude::*;
use crate::journal::{
    DeferredEvent, QueueModel, RecoveryEdgeJournal, SourceModel, cell, spec_button_bit_u32, spec_empty_edge,
};
use crate::journal_fences::{is_key_event_type, trackable_button, trackable_key};
use crate::journal_laws::q_wf;
use crate::journal_overflow::{
    m_enter_overflow, m_materialize, q_enter_overflow, q_materialize, q_pending_seq, q_tail_seq,
};
use crate::journal_repost::edge_matches_observed;
use crate::journal_submission::q_append;
use crate::native_event::{
    InputSource, K_CG_EVENT_FLAGS_CHANGED, K_CG_EVENT_KEY_DOWN, K_CG_EVENT_KEY_UP, deferred_mouse_button,
    is_mouse_event_type, mouse_event_is_down, spec_is_mouse_event_type, spec_mouse_event_is_down,
};

verus! {

/// The scalar readings of one native keyboard or mouse edge, taken where
/// the edge was captured, that deferring it needs.
#[derive(Clone, Copy, Debug)]
pub struct NativeEdgeReading {
    pub event_type: u32,
    pub flags: u64,
    pub timestamp: u64,
    pub source: InputSource,
    pub source_pid: i64,
    pub original_marker: i64,
    pub uncertain_owned: bool,
    /// The button number a mouse edge reports.
    pub reported_button: i64,
    pub mouse_number: i64,
    pub mouse_click_state: i64,
    /// The pointer location's coordinates and the pressure, as IEEE-754 bit
    /// patterns.
    pub location_x_bits: u64,
    pub location_y_bits: u64,
    pub mouse_pressure_bits: u64,
    pub mouse_delta_x: i64,
    pub mouse_delta_y: i64,
    pub mouse_instant_mouser: i64,
    pub mouse_subtype: i64,
    /// The virtual key code a keyboard edge reports.
    pub raw_key_code: i64,
    pub autorepeat: bool,
    pub keyboard_type: i64,
    /// For a physical keyboard edge: whether the physical keyboard tracker
    /// held the key (for a modifier edge, its side) before this edge; `None`
    /// when the tracker could not be read.
    pub tracker_was_down: Option<bool>,
    /// For a physical modifier edge: whether the hardware reports the key
    /// down.
    pub hid_is_down: Option<bool>,
}

/// A keyboard edge's key code and phase.
#[derive(Clone, Copy, Debug, PartialEq, Eq, Structural)]
pub struct KeyPhase {
    pub key_code: u16,
    pub is_down: bool,
}

/// What deferring one edge decided.
#[derive(Clone, Copy, Debug, PartialEq, Eq, Structural)]
pub struct DeferredCapture {
    /// The edge was appended and no overflow is pending; otherwise the
    /// journal has failed for admission.
    pub journaled: bool,
    /// For a keyboard edge that reached the journal: its key code and
    /// phase, which the physical keyboard tracker follows.
    pub key_phase: Option<KeyPhase>,
}

/// What became of an edge from outside this process while the journal
/// orders input.
#[derive(Clone, Copy, Debug, PartialEq, Eq, Structural)]
pub enum NonhelperEdge {
    /// Not the journal's to order: the edge passes through.
    Passed,
    /// Discarded as part of an overflow-fenced generation, with its phase.
    Discarded { is_down: bool },
    /// Deferred into the journal.
    Deferred(DeferredCapture),
}

/// The edge's scalar identity fields, with every phase field cleared.
pub open spec fn reading_edge(r: NativeEdgeReading) -> DeferredEvent {
    DeferredEvent {
        event_type: r.event_type,
        flags: r.flags,
        original_timestamp: r.timestamp,
        source: r.source,
        source_pid: r.source_pid,
        original_marker: r.original_marker,
        uncertain_owned: r.uncertain_owned,
        ..spec_empty_edge()
    }
}

/// The edge's identity and the mouse payload it is reposted with.
pub open spec fn mouse_payload(r: NativeEdgeReading) -> DeferredEvent {
    DeferredEvent {
        mouse_number: r.mouse_number,
        mouse_click_state: r.mouse_click_state,
        location_x_bits: r.location_x_bits,
        location_y_bits: r.location_y_bits,
        mouse_pressure_bits: r.mouse_pressure_bits,
        mouse_delta_x: r.mouse_delta_x,
        mouse_delta_y: r.mouse_delta_y,
        mouse_instant_mouser: r.mouse_instant_mouser,
        mouse_subtype: r.mouse_subtype,
        ..reading_edge(r)
    }
}

pub open spec fn is_physical_source(source: InputSource) -> bool {
    source == InputSource::Physical || source == InputSource::TestPhysical
}

/// A journal whose queue, source and ownership models are `q`, `m` and `o`.
/// Every model pair that an operation reaches is held by the journal it
/// produced, so the choice is never vacuous where it is used.
pub open spec fn journal_with(q: QueueModel, m: SourceModel, o: Seq<u32>) -> RecoveryEdgeJournal {
    choose|j: RecoveryEdgeJournal| j.queue() == q && j.sources() == m && j.owned() == o
}

/// The models after a capture fails: the journal enters overflow and then
/// settles it.
pub open spec fn failed_capture(q: QueueModel, m: SourceModel, now: u64) -> (QueueModel, SourceModel) {
    let q1 = q_enter_overflow(q);
    (q_materialize(q1, now), m_materialize(q1, m_enter_overflow(q, m)))
}

/// Appending a captured edge and settling overflow: whether the journal
/// still admits (the edge was appended and no overflow is pending), and the
/// models afterwards.
pub open spec fn journaled_capture(q: QueueModel, m: SourceModel, edge: DeferredEvent, now: u64) -> (
    bool,
    QueueModel,
    SourceModel,
) {
    let (appended, q1, m1) = q_append(q, m, edge, now);
    (appended && !q1.overflow, q_materialize(q1, now), m_materialize(q1, m1))
}

/// A failed capture's result and models.
pub open spec fn failed_result(q: QueueModel, m: SourceModel, now: u64) -> (DeferredCapture, QueueModel, SourceModel) {
    let (q1, m1) = failed_capture(q, m, now);
    (DeferredCapture { journaled: false, key_phase: None }, q1, m1)
}

/// Whether `edge` carries the captured reading's identity.
pub open spec fn carries(edge: DeferredEvent, r: NativeEdgeReading) -> bool {
    &&& edge.event_type == r.event_type
    &&& edge.flags == r.flags
    &&& edge.original_timestamp == r.timestamp
    &&& edge.source == r.source
    &&& edge.source_pid == r.source_pid
    &&& edge.original_marker == r.original_marker
    &&& edge.uncertain_owned == r.uncertain_owned
}

/// `after` holds the edges of `before` followed by `edge`: behind the tail
/// while a submission holds authority, behind the pending batch otherwise.
pub open spec fn appended_last(before: QueueModel, after: QueueModel, edge: DeferredEvent) -> bool {
    &&& after.token == before.token
    &&& if before.token is Some {
        q_tail_seq(after) == q_tail_seq(before).push(edge) && q_pending_seq(after) == q_pending_seq(before)
    } else {
        q_pending_seq(after) == q_pending_seq(before).push(edge) && q_tail_seq(after) == q_tail_seq(before)
    }
}

proof fn lemma_journaled_capture_appends(q: QueueModel, m: SourceModel, edge: DeferredEvent, now: u64)
    requires
        q_wf(q),
    ensures
        journaled_capture(q, m, edge, now).0 ==> appended_last(q, journaled_capture(q, m, edge, now).1, edge),
{
    let (appended, q1, m1) = q_append(q, m, edge, now);
    if appended && !q1.overflow {
        assert(q_pending_seq(q1) =~= if q.token is Some {
            q_pending_seq(q)
        } else {
            q_pending_seq(q).push(edge)
        });
        assert(q_tail_seq(q1) =~= if q.token is Some {
            q_tail_seq(q).push(edge)
        } else {
            q_tail_seq(q)
        });
    }
}

proof fn lemma_first_unpinned_congruent(a: RecoveryEdgeJournal, b: RecoveryEdgeJournal, from: int)
    requires
        a.queue() == b.queue(),
        a.sources() == b.sources(),
    ensures
        a.first_unpinned(from) == b.first_unpinned(from),
    decreases 8 - from,
{
    if 0 <= from < 8 {
        let pid = a.external_source_pids@[from];
        assert(a.spec_external_pid_referenced(pid) == b.spec_external_pid_referenced(pid));
        assert(a.spec_slot_busy(2 + from) == b.spec_slot_busy(2 + from));
        lemma_first_unpinned_congruent(a, b, from + 1);
    }
}

/// Source slots are a function of the queue and source models alone.
proof fn lemma_source_slot_congruent(a: RecoveryEdgeJournal, b: RecoveryEdgeJournal, source: InputSource, pid: i64)
    requires
        a.queue() == b.queue(),
        a.sources() == b.sources(),
    ensures
        a.spec_existing_source_slot(source, pid) == b.spec_existing_source_slot(source, pid),
        a.spec_source_slot(source, pid) == b.spec_source_slot(source, pid),
{
    lemma_first_unpinned_congruent(a, b, 0);
}

/// The journal itself witnesses `journal_with` of its own models.
proof fn lemma_journal_with_self(j: RecoveryEdgeJournal)
    ensures
        journal_with(j.queue(), j.sources(), j.owned()).queue() == j.queue(),
        journal_with(j.queue(), j.sources(), j.owned()).sources() == j.sources(),
        journal_with(j.queue(), j.sources(), j.owned()).owned() == j.owned(),
{
    let w = journal_with(j.queue(), j.sources(), j.owned());
    assert(exists|k: RecoveryEdgeJournal| k.queue() == j.queue() && k.sources() == j.sources() && k.owned() == j.owned()) by {
        assert(j.queue() == j.queue() && j.sources() == j.sources() && j.owned() == j.owned());
    }
}

impl RecoveryEdgeJournal {
    /// Whether the source's model holds `key` down.
    pub open spec fn spec_key_was_down(&self, source: InputSource, pid: i64, key: u16) -> bool {
        match self.spec_existing_source_slot(source, pid) {
            Some(slot) => self.held_keys@[cell(slot as int, key as int)],
            None => false,
        }
    }

    /// Whether the source's model holds mouse `button` down.
    pub open spec fn spec_foreground_mouse_was_down(&self, source: InputSource, pid: i64, button: u32) -> bool {
        match (spec_button_bit_u32(button), self.spec_existing_source_slot(source, pid)) {
            (Some(bit), Some(slot)) => self.held_mouse_buttons@[slot as int] & bit != 0,
            _ => false,
        }
    }

    /// Deferring a mouse edge: a button beyond the 32 tracked ones, or a
    /// press the source model cannot place (but for an external source,
    /// whose edges keep their order unmodeled), fails the capture.
    pub open spec fn spec_defer_mouse(&self, r: NativeEdgeReading, now: u64) -> (
        DeferredCapture,
        QueueModel,
        SourceModel,
    ) {
        let q = self.queue();
        match trackable_button(r.event_type, r.reported_button) {
            None => failed_result(q, self.sources(), now),
            Some(button) => {
                let is_down = spec_mouse_event_is_down(r.event_type);
                let was_down = self.spec_foreground_mouse_was_down(r.source, r.source_pid, button);
                let (phase, m1) = self.spec_observe_mouse_phase(r.source, r.source_pid, button, is_down, was_down);
                let balance = match phase {
                    Some(p) => Some(p),
                    None => if r.source == InputSource::External {
                        Some((false, false))
                    } else {
                        None
                    },
                };
                match balance {
                    None => failed_result(q, m1, now),
                    Some((foreground_balance, hidden_generation)) => {
                        let edge = DeferredEvent {
                            is_down,
                            foreground_balance,
                            hidden_generation,
                            mouse_button: button as i64,
                            ..mouse_payload(r)
                        };
                        let (journaled, q2, m2) = journaled_capture(q, m1, edge, now);
                        (DeferredCapture { journaled, key_phase: None }, q2, m2)
                    },
                }
            },
        }
    }

    /// The phase step of a keyboard edge after the source model was seeded
    /// to `m1`: `Some((is_down, foreground_was_down, modeled))`, or `None`
    /// when a modifier edge cannot be placed; and the source model after it.
    /// A physical source's first modifier edge is seeded from the keyboard
    /// tracker, its transition read from the hardware; an external
    /// modifier edge that cannot be placed keeps its order unmodeled.
    pub open spec fn key_step(
        q: QueueModel,
        m1: SourceModel,
        o: Seq<u32>,
        r: NativeEdgeReading,
        key: u16,
        baseline: bool,
    ) -> (Option<(bool, bool, bool)>, SourceModel) {
        if r.event_type == K_CG_EVENT_KEY_UP {
            (Some((false, baseline, true)), m1)
        } else if r.event_type == K_CG_EVENT_FLAGS_CHANGED {
            let hid = if r.source == InputSource::Physical {
                r.hid_is_down
            } else {
                None
            };
            let (transition, m2) = journal_with(q, m1, o).spec_modifier_side_transition(
                r.source,
                r.source_pid,
                key,
                hid,
            );
            match transition {
                Some((is_down, side_was_down)) => (Some((is_down, side_was_down, true)), m2),
                None => if r.source == InputSource::External {
                    (Some((false, baseline, false)), m2)
                } else {
                    (None, m2)
                },
            }
        } else {
            (Some((true, baseline, true)), m1)
        }
    }

    /// Deferring a keyboard edge: a key code outside the 128 tracked ones,
    /// or an edge the source model cannot place (but for an external
    /// source), fails the capture. A non-repeating press starts a new
    /// generation, never a foreground baseline.
    pub open spec fn spec_defer_key(&self, r: NativeEdgeReading, now: u64) -> (
        DeferredCapture,
        QueueModel,
        SourceModel,
    ) {
        let q = self.queue();
        let o = self.owned();
        match trackable_key(r.raw_key_code) {
            None => failed_result(q, self.sources(), now),
            Some(key) => {
                let source = r.source;
                let pid = r.source_pid;
                let prior = if is_physical_source(source) {
                    r.tracker_was_down
                } else {
                    Some(self.spec_key_was_down(source, pid, key))
                };
                let m1 = if is_physical_source(source) && r.event_type == K_CG_EVENT_FLAGS_CHANGED
                    && prior is Some {
                    self.spec_seed_modifier_side(source, pid, key, prior->0)
                } else {
                    self.sources()
                };
                let (step, m2) = Self::key_step(q, m1, o, r, key, prior == Some(true));
                match step {
                    None => failed_result(q, m2, now),
                    Some((is_down, was_down, modeled)) => Self::key_finish(
                        q,
                        m2,
                        o,
                        r,
                        key,
                        is_down,
                        was_down,
                        modeled,
                        now,
                    ),
                }
            },
        }
    }

    /// The rest of deferring a keyboard edge once its phase step is known:
    /// the source model places the edge (an unmodeled external edge keeps
    /// generation 0), and the edge is journaled.
    pub open spec fn key_finish(
        q: QueueModel,
        m2: SourceModel,
        o: Seq<u32>,
        r: NativeEdgeReading,
        key: u16,
        is_down: bool,
        was_down: bool,
        modeled: bool,
        now: u64,
    ) -> (DeferredCapture, QueueModel, SourceModel) {
        let repeat = r.event_type == K_CG_EVENT_KEY_DOWN && r.autorepeat;
        let foreground_was_down = if is_down && !repeat {
            false
        } else {
            was_down
        };
        let (phase, m3) = if modeled {
            journal_with(q, m2, o).spec_observe_key_phase(
                r.source,
                r.source_pid,
                key,
                is_down,
                repeat,
                foreground_was_down,
            )
        } else {
            (None, m2)
        };
        let balance = match phase {
            Some(p) => Some(p),
            None => if r.source == InputSource::External {
                Some((0u32, false, false))
            } else {
                None
            },
        };
        match balance {
            None => failed_result(q, m3, now),
            Some((generation, foreground_balance, hidden_generation)) => {
                let edge = DeferredEvent {
                    key_code: key,
                    repeat,
                    is_down,
                    generation,
                    foreground_balance,
                    hidden_generation,
                    keyboard_type: r.keyboard_type,
                    ..reading_edge(r)
                };
                let (journaled, q4, m4) = journaled_capture(q, m3, edge, now);
                (DeferredCapture { journaled, key_phase: Some(KeyPhase { key_code: key, is_down }) }, q4, m4)
            },
        }
    }

    /// The result of deferring one captured edge, and the models after it.
    pub open spec fn spec_defer_callback_edge(&self, r: NativeEdgeReading, now: u64) -> (
        DeferredCapture,
        QueueModel,
        SourceModel,
    ) {
        if spec_is_mouse_event_type(r.event_type) {
            self.spec_defer_mouse(r, now)
        } else {
            self.spec_defer_key(r, now)
        }
    }

    /// Routing an edge that this process did not post: keyboard and mouse
    /// edges of a fenced generation are discarded; while recovery ordering
    /// exists every other such edge is deferred; otherwise it passes.
    /// `own_edge` says the edge is this process's own (and not a test
    /// physical one), which is never ordered here.
    pub open spec fn spec_defer_nonhelper(
        &self,
        r: NativeEdgeReading,
        own_edge: bool,
        ordering_exists: bool,
        now: u64,
    ) -> (NonhelperEdge, QueueModel, SourceModel) {
        let q = self.queue();
        let m = self.sources();
        if !(spec_is_mouse_event_type(r.event_type) || is_key_event_type(r.event_type)) || own_edge {
            (NonhelperEdge::Passed, q, m)
        } else {
            let hid = if r.source == InputSource::Physical {
                r.hid_is_down
            } else {
                None
            };
            let (discarded, m1) = self.spec_discard_overflow_fenced_nonhelper(
                r.event_type,
                r.reported_button,
                r.raw_key_code,
                r.source,
                r.source_pid,
                hid,
            );
            match discarded {
                Some(is_down) => (NonhelperEdge::Discarded { is_down }, q, m1),
                None => if !ordering_exists {
                    (NonhelperEdge::Passed, q, m)
                } else {
                    let (capture, q2, m2) = self.spec_defer_callback_edge(r, now);
                    (NonhelperEdge::Deferred(capture), q2, m2)
                },
            }
        }
    }

    /// Fails the capture: enter overflow, then settle it.
    fn fail_capture(&mut self, now: u64) -> (capture: DeferredCapture)
        requires
            old(self).wf(),
        ensures
            final(self).wf(),
            final(self).owned() == old(self).owned(),
            (capture, final(self).queue(), final(self).sources()) == failed_result(
                old(self).queue(),
                old(self).sources(),
                now,
            ),
    {
        self.enter_overflow();
        self.settle_overflow(now);
        DeferredCapture { journaled: false, key_phase: None }
    }

    /// Appends the captured edge and settles overflow; reports whether the
    /// journal still admits.
    fn journal_capture(&mut self, edge: DeferredEvent, now: u64) -> (journaled: bool)
        requires
            old(self).wf(),
            edge.key_code < 128,
        ensures
            final(self).wf(),
            final(self).owned() == old(self).owned(),
            (journaled, final(self).queue(), final(self).sources()) == journaled_capture(
                old(self).queue(),
                old(self).sources(),
                edge,
                now,
            ),
    {
        let appended = self.append(edge, now);
        let overflow = self.overflow;
        self.settle_overflow(now);
        appended && !overflow
    }

    fn defer_mouse_edge(&mut self, reading: NativeEdgeReading, now: u64) -> (capture: DeferredCapture)
        requires
            old(self).wf(),
            spec_is_mouse_event_type(reading.event_type),
        ensures
            final(self).wf(),
            final(self).owned() == old(self).owned(),
            (capture, final(self).queue(), final(self).sources()) == old(self).spec_defer_mouse(reading, now),
    {
        let button = match deferred_mouse_button(reading.event_type, reading.reported_button) {
            Some(b) => if b < 32 {
                b
            } else {
                return self.fail_capture(now);
            },
            None => {
                return self.fail_capture(now);
            },
        };
        let ghost start = *self;
        let is_down = mouse_event_is_down(reading.event_type);
        let was_down = self.foreground_mouse_was_down(reading.source, reading.source_pid, button);
        let phase = self.observe_mouse_phase(reading.source, reading.source_pid, button, is_down, was_down);
        let (foreground_balance, hidden_generation) = match phase {
            Some(p) => p,
            None => if reading.source == InputSource::External {
                (false, false)
            } else {
                return self.fail_capture(now);
            },
        };
        let mut edge = DeferredEvent::empty();
        edge.event_type = reading.event_type;
        edge.flags = reading.flags;
        edge.original_timestamp = reading.timestamp;
        edge.source = reading.source;
        edge.source_pid = reading.source_pid;
        edge.original_marker = reading.original_marker;
        edge.uncertain_owned = reading.uncertain_owned;
        edge.is_down = is_down;
        edge.foreground_balance = foreground_balance;
        edge.hidden_generation = hidden_generation;
        edge.mouse_button = button as i64;
        edge.mouse_number = reading.mouse_number;
        edge.mouse_click_state = reading.mouse_click_state;
        edge.location_x_bits = reading.location_x_bits;
        edge.location_y_bits = reading.location_y_bits;
        edge.mouse_pressure_bits = reading.mouse_pressure_bits;
        edge.mouse_delta_x = reading.mouse_delta_x;
        edge.mouse_delta_y = reading.mouse_delta_y;
        edge.mouse_instant_mouser = reading.mouse_instant_mouser;
        edge.mouse_subtype = reading.mouse_subtype;
        proof {
            assert(self.queue() == start.queue());
        }
        let journaled = self.journal_capture(edge, now);
        DeferredCapture { journaled, key_phase: None }
    }

    fn run_key_step(&mut self, reading: NativeEdgeReading, key_code: u16, baseline: bool) -> (step: Option<
        (bool, bool, bool),
    >)
        requires
            old(self).wf(),
            key_code < 128,
        ensures
            final(self).wf(),
            final(self).queue() == old(self).queue(),
            final(self).owned() == old(self).owned(),
            (step, final(self).sources()) == Self::key_step(
                old(self).queue(),
                old(self).sources(),
                old(self).owned(),
                reading,
                key_code,
                baseline,
            ),
    {
        let ghost start = *self;
        proof {
            lemma_journal_with_self(start);
            lemma_source_slot_congruent(
                journal_with(start.queue(), start.sources(), start.owned()),
                start,
                reading.source,
                reading.source_pid,
            );
        }
        let event_type = reading.event_type;
        if event_type == K_CG_EVENT_KEY_UP {
            Some((false, baseline, true))
        } else if event_type == K_CG_EVENT_FLAGS_CHANGED {
            let hid = if reading.source == InputSource::Physical {
                reading.hid_is_down
            } else {
                None
            };
            match self.modifier_side_transition(reading.source, reading.source_pid, key_code, hid) {
                Some((transition, side_was_down)) => Some((transition, side_was_down, true)),
                None => if reading.source == InputSource::External {
                    Some((false, baseline, false))
                } else {
                    None
                },
            }
        } else {
            Some((true, baseline, true))
        }
    }

    fn finish_key_edge(
        &mut self,
        reading: NativeEdgeReading,
        key_code: u16,
        is_down: bool,
        was_down: bool,
        modeled: bool,
        now: u64,
    ) -> (capture: DeferredCapture)
        requires
            old(self).wf(),
            key_code < 128,
        ensures
            final(self).wf(),
            final(self).owned() == old(self).owned(),
            (capture, final(self).queue(), final(self).sources()) == Self::key_finish(
                old(self).queue(),
                old(self).sources(),
                old(self).owned(),
                reading,
                key_code,
                is_down,
                was_down,
                modeled,
                now,
            ),
    {
        let ghost start = *self;
        proof {
            lemma_journal_with_self(start);
            lemma_source_slot_congruent(
                journal_with(start.queue(), start.sources(), start.owned()),
                start,
                reading.source,
                reading.source_pid,
            );
        }
        let source = reading.source;
        let repeat = reading.event_type == K_CG_EVENT_KEY_DOWN && reading.autorepeat;
        let foreground_was_down = if is_down && !repeat {
            false
        } else {
            was_down
        };
        let phase = if modeled {
            self.observe_key_phase(source, reading.source_pid, key_code, is_down, repeat, foreground_was_down)
        } else {
            None
        };
        let (generation, foreground_balance, hidden_generation) = match phase {
            Some(p) => p,
            None => if source == InputSource::External {
                (0u32, false, false)
            } else {
                return self.fail_capture(now);
            },
        };
        let mut edge = DeferredEvent::empty();
        edge.event_type = reading.event_type;
        edge.flags = reading.flags;
        edge.original_timestamp = reading.timestamp;
        edge.source = source;
        edge.source_pid = reading.source_pid;
        edge.original_marker = reading.original_marker;
        edge.uncertain_owned = reading.uncertain_owned;
        edge.key_code = key_code;
        edge.repeat = repeat;
        edge.is_down = is_down;
        edge.generation = generation;
        edge.foreground_balance = foreground_balance;
        edge.hidden_generation = hidden_generation;
        edge.keyboard_type = reading.keyboard_type;
        let journaled = self.journal_capture(edge, now);
        DeferredCapture { journaled, key_phase: Some(KeyPhase { key_code, is_down }) }
    }

    fn defer_key_edge(&mut self, reading: NativeEdgeReading, now: u64) -> (capture: DeferredCapture)
        requires
            old(self).wf(),
        ensures
            final(self).wf(),
            final(self).owned() == old(self).owned(),
            (capture, final(self).queue(), final(self).sources()) == old(self).spec_defer_key(reading, now),
    {
        let raw = reading.raw_key_code;
        if raw < 0 || raw >= 128 {
            return self.fail_capture(now);
        }
        let key_code = raw as u16;
        let source = reading.source;
        let pid = reading.source_pid;
        let physical = source.is_physical();
        let prior = if physical {
            reading.tracker_was_down
        } else {
            Some(self.key_was_down(source, pid, key_code))
        };
        if physical && reading.event_type == K_CG_EVENT_FLAGS_CHANGED {
            if let Some(was_down) = prior {
                self.seed_modifier_side(source, pid, key_code, was_down);
            }
        }
        let baseline = match prior {
            Some(d) => d,
            None => false,
        };
        match self.run_key_step(reading, key_code, baseline) {
            None => self.fail_capture(now),
            Some((is_down, was_down, modeled)) => self.finish_key_edge(
                reading,
                key_code,
                is_down,
                was_down,
                modeled,
                now,
            ),
        }
    }

    /// Routes an edge that this process did not post; see
    /// `spec_defer_nonhelper`.
    pub fn defer_nonhelper_if_ordered(
        &mut self,
        reading: NativeEdgeReading,
        own_edge: bool,
        ordering_exists: bool,
        now: u64,
    ) -> (routed: NonhelperEdge)
        requires
            old(self).wf(),
        ensures
            final(self).wf(),
            final(self).owned() == old(self).owned(),
            (routed, final(self).queue(), final(self).sources()) == old(self).spec_defer_nonhelper(
                reading,
                own_edge,
                ordering_exists,
                now,
            ),
    {
        let event_type = reading.event_type;
        if !(is_mouse_event_type(event_type) || event_type == K_CG_EVENT_KEY_DOWN || event_type
            == K_CG_EVENT_KEY_UP || event_type == K_CG_EVENT_FLAGS_CHANGED) || own_edge {
            return NonhelperEdge::Passed;
        }
        let hid = if reading.source == InputSource::Physical {
            reading.hid_is_down
        } else {
            None
        };
        match self.discard_overflow_fenced_nonhelper(
            event_type,
            reading.reported_button,
            reading.raw_key_code,
            reading.source,
            reading.source_pid,
            hid,
        ) {
            Some(is_down) => NonhelperEdge::Discarded { is_down },
            None => if !ordering_exists {
                NonhelperEdge::Passed
            } else {
                NonhelperEdge::Deferred(self.defer_callback_edge(reading, now))
            },
        }
    }

    /// Defers one captured native edge into the journal. The edge's phase
    /// is modeled for its source and the edge is appended in arrival order;
    /// an edge the journal cannot model or hold fails the journal for
    /// admission (`journaled` is false), as does any pending overflow.
    pub fn defer_callback_edge(&mut self, reading: NativeEdgeReading, now: u64) -> (capture: DeferredCapture)
        requires
            old(self).wf(),
        ensures
            final(self).wf(),
            final(self).owned() == old(self).owned(),
            (capture, final(self).queue(), final(self).sources()) == old(self).spec_defer_callback_edge(reading, now),
    {
        if is_mouse_event_type(reading.event_type) {
            self.defer_mouse_edge(reading, now)
        } else {
            self.defer_key_edge(reading, now)
        }
    }
}

proof fn lemma_key_finish_appends(
    q: QueueModel,
    m2: SourceModel,
    o: Seq<u32>,
    r: NativeEdgeReading,
    key: u16,
    is_down: bool,
    was_down: bool,
    modeled: bool,
    now: u64,
)
    requires
        q_wf(q),
        !spec_is_mouse_event_type(r.event_type),
        trackable_key(r.raw_key_code) == Some(key),
    ensures
        ({
            let (c, q4, m4) = RecoveryEdgeJournal::key_finish(q, m2, o, r, key, is_down, was_down, modeled, now);
            c.journaled ==> exists|edge: DeferredEvent|
                carries(edge, r) && appended_last(q, q4, edge) && (reports_its_button(r) ==> edge_matches_observed(
                    edge,
                    r,
                ))
        }),
{
    let repeat = r.event_type == K_CG_EVENT_KEY_DOWN && r.autorepeat;
    let foreground_was_down = if is_down && !repeat {
        false
    } else {
        was_down
    };
    let (phase, m3) = if modeled {
        journal_with(q, m2, o).spec_observe_key_phase(r.source, r.source_pid, key, is_down, repeat, foreground_was_down)
    } else {
        (None, m2)
    };
    let balance = match phase {
        Some(p) => Some(p),
        None => if r.source == InputSource::External {
            Some((0u32, false, false))
        } else {
            None
        },
    };
    if let Some((generation, foreground_balance, hidden_generation)) = balance {
        let edge = DeferredEvent {
            key_code: key,
            repeat,
            is_down,
            generation,
            foreground_balance,
            hidden_generation,
            keyboard_type: r.keyboard_type,
            ..reading_edge(r)
        };
        lemma_journaled_capture_appends(q, m3, edge, now);
        assert(carries(edge, r));
        assert(reports_its_button(r) ==> edge_matches_observed(edge, r));
    }
}

/// Whether a reading names its mouse button itself (rather than leaving it
/// to the event type), so that the recorded button is the reported one.
pub open spec fn reports_its_button(r: NativeEdgeReading) -> bool {
    spec_is_mouse_event_type(r.event_type) ==> 0 <= r.reported_button <= u32::MAX
}

/// Capture keeps arrival order: a journaled edge carries the captured
/// reading and is appended after every edge the journal already held (to
/// the tail while a submission holds authority, to the pending batch
/// otherwise), which stay as they were. Observing the same reading again
/// is recognized as that edge's repost, when the reading reports its mouse
/// button itself.
pub proof fn law_journaled_capture_is_appended_last(j: RecoveryEdgeJournal, r: NativeEdgeReading, now: u64)
    requires
        j.wf(),
    ensures
        ({
            let (c, q, m) = j.spec_defer_callback_edge(r, now);
            c.journaled ==> exists|edge: DeferredEvent|
                carries(edge, r) && appended_last(j.queue(), q, edge) && (reports_its_button(r)
                    ==> edge_matches_observed(edge, r))
        }),
{
    let q = j.queue();
    if spec_is_mouse_event_type(r.event_type) {
        if let Some(button) = trackable_button(r.event_type, r.reported_button) {
            let is_down = spec_mouse_event_is_down(r.event_type);
            let was_down = j.spec_foreground_mouse_was_down(r.source, r.source_pid, button);
            let (phase, m1) = j.spec_observe_mouse_phase(r.source, r.source_pid, button, is_down, was_down);
            let balance = match phase {
                Some(p) => Some(p),
                None => if r.source == InputSource::External {
                    Some((false, false))
                } else {
                    None
                },
            };
            if let Some((foreground_balance, hidden_generation)) = balance {
                let edge = DeferredEvent {
                    is_down,
                    foreground_balance,
                    hidden_generation,
                    mouse_button: button as i64,
                    ..mouse_payload(r)
                };
                lemma_journaled_capture_appends(q, m1, edge, now);
                assert(carries(edge, r));
                assert(reports_its_button(r) ==> edge_matches_observed(edge, r));
            }
        }
    } else if let Some(key) = trackable_key(r.raw_key_code) {
        let source = r.source;
        let pid = r.source_pid;
        let o = j.owned();
        let prior = if is_physical_source(source) {
            r.tracker_was_down
        } else {
            Some(j.spec_key_was_down(source, pid, key))
        };
        let m1 = if is_physical_source(source) && r.event_type == K_CG_EVENT_FLAGS_CHANGED && prior is Some {
            j.spec_seed_modifier_side(source, pid, key, prior->0)
        } else {
            j.sources()
        };
        let (step, m2) = RecoveryEdgeJournal::key_step(q, m1, o, r, key, prior == Some(true));
        if let Some((is_down, was_down, modeled)) = step {
            lemma_key_finish_appends(q, m2, o, r, key, is_down, was_down, modeled, now);
        }
    }
}

/// Only edges the journal can track are journaled: a mouse edge whose
/// button is beyond the 32 tracked ones, or a keyboard edge whose key code
/// is outside the 128 tracked ones, fails the capture and leaves the
/// journal overflowed and settled; and a journaled edge was appended while
/// no overflow was pending.
pub proof fn law_only_trackable_edges_are_journaled(j: RecoveryEdgeJournal, r: NativeEdgeReading, now: u64)
    requires
        j.wf(),
    ensures
        ({
            let (c, q, m) = j.spec_defer_callback_edge(r, now);
            let trackable = if spec_is_mouse_event_type(r.event_type) {
                trackable_button(r.event_type, r.reported_button) is Some
            } else {
                trackable_key(r.raw_key_code) is Some
            };
            &&& !trackable ==> !c.journaled && (q, m) == failed_capture(j.queue(), j.sources(), now)
            &&& c.journaled ==> trackable && !q.overflow
        }),
{
}

} // verus!
