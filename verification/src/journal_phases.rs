//! Key and mouse generations, foreground origins, and discard fences.

use vstd::prelude::*;
use crate::journal::{
    RecoveryEdgeJournal, SourceModel, button_bit_u32, cell, spec_button_bit_u32,
};
use crate::native_event::InputSource;

verus! {

/// Key origin: no tracked phase.
pub const ORIGIN_NONE: u8 = 0;
/// Key origin: the current phase began with a hidden (deferred) down.
pub const ORIGIN_HIDDEN: u8 = 1;
/// Key origin: the current phase was already visible in the foreground.
pub const ORIGIN_FOREGROUND: u8 = 2;

/// The result of observing one deferred key edge: its generation, whether
/// it balances a foreground-visible phase, and whether it belongs to a
/// hidden generation.
pub open spec fn spec_observe_key(
    m: SourceModel,
    slot: int,
    key_code: int,
    is_down: bool,
    repeat: bool,
    foreground_was_down: bool,
) -> ((u32, bool, bool), SourceModel) {
    let idx = cell(slot, key_code);
    let g0 = m.key_generations[idx];
    let g1: u32 = if g0 == 0 { 1 } else { g0 };
    let adopt = m.key_origins[idx] == ORIGIN_NONE && foreground_was_down;
    let o1: u8 = if adopt { ORIGIN_FOREGROUND } else { m.key_origins[idx] };
    let h1 = if adopt { true } else { m.held_keys[idx] };
    if is_down && !repeat {
        let g2: u32 = if !h1 { if g1 == u32::MAX { u32::MAX } else { (g1 + 1) as u32 } } else { g1 };
        let o2: u8 = if !h1 { ORIGIN_HIDDEN } else { o1 };
        (
            (g2, false, o2 == ORIGIN_HIDDEN),
            SourceModel {
                key_generations: m.key_generations.update(idx, g2),
                key_origins: m.key_origins.update(idx, o2),
                held_keys: m.held_keys.update(idx, true),
                ..m
            },
        )
    } else if repeat {
        let o2: u8 = if !h1 { ORIGIN_FOREGROUND } else { o1 };
        (
            (g1, false, o2 == ORIGIN_HIDDEN),
            SourceModel {
                key_generations: m.key_generations.update(idx, g1),
                key_origins: m.key_origins.update(idx, o2),
                held_keys: m.held_keys.update(idx, true),
                ..m
            },
        )
    } else {
        (
            (g1, o1 == ORIGIN_FOREGROUND || (o1 == ORIGIN_NONE && foreground_was_down), o1 == ORIGIN_HIDDEN),
            SourceModel {
                key_generations: m.key_generations.update(idx, g1),
                key_origins: m.key_origins.update(idx, ORIGIN_NONE),
                held_keys: m.held_keys.update(idx, false),
                ..m
            },
        )
    }
}

/// The result of observing one deferred mouse edge: whether it balances a
/// foreground-visible press, and whether it belongs to a hidden press.
pub open spec fn spec_observe_mouse(
    m: SourceModel,
    slot: int,
    bit: u32,
    is_down: bool,
    foreground_was_down: bool,
) -> ((bool, bool), SourceModel) {
    let held0 = m.held_mouse_buttons[slot];
    let fg0 = m.mouse_foreground_origins[slot];
    let adopt = foreground_was_down && held0 & bit == 0;
    let held1 = if adopt { held0 | bit } else { held0 };
    let fg1 = if adopt { fg0 | bit } else { fg0 };
    if is_down {
        let fg2 = if held1 & bit == 0 { fg1 & !bit } else { fg1 };
        (
            (false, fg2 & bit == 0),
            SourceModel {
                held_mouse_buttons: m.held_mouse_buttons.update(slot, held1 | bit),
                mouse_foreground_origins: m.mouse_foreground_origins.update(slot, fg2),
                ..m
            },
        )
    } else {
        (
            (fg1 & bit != 0 || (held1 & bit == 0 && foreground_was_down), held1 & bit != 0 && fg1 & bit == 0),
            SourceModel {
                held_mouse_buttons: m.held_mouse_buttons.update(slot, held1 & !bit),
                mouse_foreground_origins: m.mouse_foreground_origins.update(slot, fg1 & !bit),
                ..m
            },
        )
    }
}

impl RecoveryEdgeJournal {
    /// Whether the source's model holds `key_code` down.
    pub fn key_was_down(&self, source: InputSource, source_pid: i64, key_code: u16) -> (down: bool)
        requires
            self.wf(),
            key_code < 128,
        ensures
            down == (match self.spec_existing_source_slot(source, source_pid) {
                Some(slot) => self.held_keys@[cell(slot as int, key_code as int)],
                None => false,
            }),
    {
        match self.existing_source_slot(source, source_pid) {
            Some(slot) => self.held_keys[slot * 128 + key_code as usize],
            None => false,
        }
    }

    /// Whether `key_code` of the source is fenced against replay.
    pub fn key_is_discard_fenced(&self, source: InputSource, source_pid: i64, key_code: u16) -> (fenced: bool)
        requires
            self.wf(),
            key_code < 128,
        ensures
            fenced == (match self.spec_existing_source_slot(source, source_pid) {
                Some(slot) => self.discard_key_fences@[cell(slot as int, key_code as int)],
                None => false,
            }),
    {
        match self.existing_source_slot(source, source_pid) {
            Some(slot) => self.discard_key_fences[slot * 128 + key_code as usize],
            None => false,
        }
    }

    /// Whether mouse `button` of the source is fenced against replay.
    pub fn mouse_is_discard_fenced(&self, source: InputSource, source_pid: i64, button: u32) -> (fenced: bool)
        requires
            self.wf(),
        ensures
            fenced == (match (spec_button_bit_u32(button), self.spec_existing_source_slot(source, source_pid)) {
                (Some(bit), Some(slot)) => self.discard_mouse_fences@[slot as int] & bit != 0,
                _ => false,
            }),
    {
        let bit = match button_bit_u32(button) {
            Some(bit) => bit,
            None => return false,
        };
        match self.existing_source_slot(source, source_pid) {
            Some(slot) => self.discard_mouse_fences[slot] & bit != 0,
            None => false,
        }
    }

    /// A release edge lifts the key's discard fence.
    pub fn consume_key_discard_fence(&mut self, source: InputSource, source_pid: i64, key_code: u16, is_down: bool)
        requires
            old(self).wf(),
            key_code < 128,
        ensures
            final(self).wf(),
            final(self).queue() == old(self).queue(),
            final(self).owned() == old(self).owned(),
            final(self).sources() == (match old(self).spec_existing_source_slot(source, source_pid) {
                Some(slot) if !is_down => SourceModel {
                    discard_key_fences: old(self).discard_key_fences@.update(cell(slot as int, key_code as int), false),
                    ..old(self).sources()
                },
                _ => old(self).sources(),
            }),
    {
        if !is_down {
            if let Some(slot) = self.existing_source_slot(source, source_pid) {
                self.discard_key_fences.set(slot * 128 + key_code as usize, false);
            }
        }
    }

    /// A release edge lifts the button's discard fence.
    pub fn consume_mouse_discard_fence(&mut self, source: InputSource, source_pid: i64, button: u32, is_down: bool)
        requires
            old(self).wf(),
        ensures
            final(self).wf(),
            final(self).queue() == old(self).queue(),
            final(self).owned() == old(self).owned(),
            final(self).sources() == (match (spec_button_bit_u32(button), old(self).spec_existing_source_slot(source, source_pid)) {
                (Some(bit), Some(slot)) if !is_down => SourceModel {
                    discard_mouse_fences: old(self).discard_mouse_fences@.update(
                        slot as int,
                        old(self).discard_mouse_fences@[slot as int] & !bit,
                    ),
                    ..old(self).sources()
                },
                _ => old(self).sources(),
            }),
    {
        if is_down {
            return;
        }
        let bit = match button_bit_u32(button) {
            Some(bit) => bit,
            None => return,
        };
        if let Some(slot) = self.existing_source_slot(source, source_pid) {
            let fences = self.discard_mouse_fences[slot] & !bit;
            self.discard_mouse_fences.set(slot, fences);
        }
    }

    pub open spec fn spec_observe_key_phase(
        &self,
        source: InputSource,
        source_pid: i64,
        key_code: u16,
        is_down: bool,
        repeat: bool,
        foreground_was_down: bool,
    ) -> (Option<(u32, bool, bool)>, SourceModel) {
        let (slot, m) = self.spec_source_slot(source, source_pid);
        match slot {
            None => (None, m),
            Some(s) => {
                let (r, m2) = spec_observe_key(m, s as int, key_code as int, is_down, repeat, foreground_was_down);
                (Some(r), m2)
            },
        }
    }

    /// Advances the per-source key model for one deferred key edge and
    /// returns its generation, whether it balances a foreground phase, and
    /// whether it belongs to a hidden generation.
    pub fn observe_key_phase(
        &mut self,
        source: InputSource,
        source_pid: i64,
        key_code: u16,
        is_down: bool,
        repeat: bool,
        foreground_was_down: bool,
    ) -> (phase: Option<(u32, bool, bool)>)
        requires
            old(self).wf(),
            key_code < 128,
        ensures
            final(self).wf(),
            final(self).queue() == old(self).queue(),
            final(self).owned() == old(self).owned(),
            (phase, final(self).sources()) == old(self).spec_observe_key_phase(
                source,
                source_pid,
                key_code,
                is_down,
                repeat,
                foreground_was_down,
            ),
    {
        let slot = match self.source_slot(source, source_pid) {
            Some(slot) => slot,
            None => return None,
        };
        let index = slot * 128 + key_code as usize;
        let mut generation = self.key_generations[index];
        if generation == 0 {
            generation = 1;
        }
        if self.key_origins[index] == ORIGIN_NONE && foreground_was_down {
            self.key_origins.set(index, ORIGIN_FOREGROUND);
            self.held_keys.set(index, true);
        }
        let mut foreground_balance = false;
        let hidden_generation;
        if is_down && !repeat {
            if !self.held_keys[index] {
                generation = match generation.checked_add(1) {
                    Some(next) => next,
                    None => u32::MAX,
                };
                self.key_origins.set(index, ORIGIN_HIDDEN);
            }
            self.held_keys.set(index, true);
            hidden_generation = self.key_origins[index] == ORIGIN_HIDDEN;
        } else if repeat {
            if !self.held_keys[index] {
                self.key_origins.set(index, ORIGIN_FOREGROUND);
            }
            self.held_keys.set(index, true);
            hidden_generation = self.key_origins[index] == ORIGIN_HIDDEN;
        } else {
            hidden_generation = self.key_origins[index] == ORIGIN_HIDDEN;
            foreground_balance = self.key_origins[index] == ORIGIN_FOREGROUND
                || (self.key_origins[index] == ORIGIN_NONE && foreground_was_down);
            self.held_keys.set(index, false);
            self.key_origins.set(index, ORIGIN_NONE);
        }
        self.key_generations.set(index, generation);
        Some((generation, foreground_balance, hidden_generation))
    }

    pub open spec fn spec_observe_mouse_phase(
        &self,
        source: InputSource,
        source_pid: i64,
        button: u32,
        is_down: bool,
        foreground_was_down: bool,
    ) -> (Option<(bool, bool)>, SourceModel) {
        match spec_button_bit_u32(button) {
            None => (None, self.sources()),
            Some(bit) => {
                let (slot, m) = self.spec_source_slot(source, source_pid);
                match slot {
                    None => (None, m),
                    Some(s) => {
                        let (r, m2) = spec_observe_mouse(m, s as int, bit, is_down, foreground_was_down);
                        (Some(r), m2)
                    },
                }
            },
        }
    }

    /// Advances the per-source mouse model for one deferred button edge and
    /// returns whether it balances a foreground press and whether it
    /// belongs to a hidden press.
    pub fn observe_mouse_phase(
        &mut self,
        source: InputSource,
        source_pid: i64,
        button: u32,
        is_down: bool,
        foreground_was_down: bool,
    ) -> (phase: Option<(bool, bool)>)
        requires
            old(self).wf(),
        ensures
            final(self).wf(),
            final(self).queue() == old(self).queue(),
            final(self).owned() == old(self).owned(),
            (phase, final(self).sources()) == old(self).spec_observe_mouse_phase(
                source,
                source_pid,
                button,
                is_down,
                foreground_was_down,
            ),
    {
        let bit = match button_bit_u32(button) {
            Some(bit) => bit,
            None => return None,
        };
        let slot = match self.source_slot(source, source_pid) {
            Some(slot) => slot,
            None => return None,
        };
        let mut held = self.held_mouse_buttons[slot];
        let mut foreground = self.mouse_foreground_origins[slot];
        if foreground_was_down && held & bit == 0 {
            held = held | bit;
            foreground = foreground | bit;
        }
        let foreground_balance;
        let hidden_generation;
        if is_down {
            if held & bit == 0 {
                foreground = foreground & !bit;
            }
            held = held | bit;
            foreground_balance = false;
            hidden_generation = foreground & bit == 0;
        } else {
            hidden_generation = held & bit != 0 && foreground & bit == 0;
            foreground_balance = foreground & bit != 0 || (held & bit == 0 && foreground_was_down);
            held = held & !bit;
            foreground = foreground & !bit;
        }
        self.held_mouse_buttons.set(slot, held);
        self.mouse_foreground_origins.set(slot, foreground);
        Some((foreground_balance, hidden_generation))
    }

    pub open spec fn spec_normal_external_key_transition(
        &self,
        source_pid: i64,
        key_code: u16,
        is_down: bool,
        repeat: bool,
    ) -> SourceModel {
        let (slot, m) = self.spec_source_slot(InputSource::External, source_pid);
        match slot {
            None => m,
            Some(s) => {
                let idx = cell(s as int, key_code as int);
                if is_down {
                    let g = m.key_generations[idx];
                    let bumped: u32 = if g == u32::MAX { u32::MAX } else { (g + 1) as u32 };
                    SourceModel {
                        key_generations: if !repeat && !m.held_keys[idx] {
                            m.key_generations.update(idx, if bumped == 0 { 1 } else { bumped })
                        } else {
                            m.key_generations
                        },
                        held_keys: m.held_keys.update(idx, true),
                        key_origins: m.key_origins.update(idx, ORIGIN_FOREGROUND),
                        ..m
                    }
                } else {
                    SourceModel {
                        held_keys: m.held_keys.update(idx, false),
                        key_origins: m.key_origins.update(idx, ORIGIN_NONE),
                        ..m
                    }
                }
            },
        }
    }

    /// Records an ordinary, foreground-visible external key edge.
    pub fn normal_external_key_transition(&mut self, source_pid: i64, key_code: u16, is_down: bool, repeat: bool)
        requires
            old(self).wf(),
            key_code < 128,
        ensures
            final(self).wf(),
            final(self).queue() == old(self).queue(),
            final(self).owned() == old(self).owned(),
            final(self).sources() == old(self).spec_normal_external_key_transition(source_pid, key_code, is_down, repeat),
    {
        let slot = match self.source_slot(InputSource::External, source_pid) {
            Some(slot) => slot,
            None => return,
        };
        let index = slot * 128 + key_code as usize;
        if is_down {
            if !repeat && !self.held_keys[index] {
                let bumped = self.key_generations[index].saturating_add(1);
                let next = if bumped == 0 { 1 } else { bumped };
                self.key_generations.set(index, next);
            }
            self.held_keys.set(index, true);
            self.key_origins.set(index, ORIGIN_FOREGROUND);
        } else {
            self.held_keys.set(index, false);
            self.key_origins.set(index, ORIGIN_NONE);
        }
    }

    pub open spec fn spec_normal_mouse_transition(
        &self,
        source: InputSource,
        source_pid: i64,
        button: u32,
        is_down: bool,
    ) -> SourceModel {
        match spec_button_bit_u32(button) {
            None => self.sources(),
            Some(bit) => {
                let (slot, m) = self.spec_source_slot(source, source_pid);
                match slot {
                    None => m,
                    Some(s) => {
                        let s = s as int;
                        if is_down {
                            SourceModel {
                                held_mouse_buttons: m.held_mouse_buttons.update(s, m.held_mouse_buttons[s] | bit),
                                mouse_foreground_origins: m.mouse_foreground_origins.update(
                                    s,
                                    m.mouse_foreground_origins[s] | bit,
                                ),
                                ..m
                            }
                        } else {
                            SourceModel {
                                held_mouse_buttons: m.held_mouse_buttons.update(s, m.held_mouse_buttons[s] & !bit),
                                mouse_foreground_origins: m.mouse_foreground_origins.update(
                                    s,
                                    m.mouse_foreground_origins[s] & !bit,
                                ),
                                ..m
                            }
                        }
                    },
                }
            },
        }
    }

    /// Records an ordinary, foreground-visible mouse button edge.
    pub fn normal_mouse_transition(&mut self, source: InputSource, source_pid: i64, button: u32, is_down: bool)
        requires
            old(self).wf(),
        ensures
            final(self).wf(),
            final(self).queue() == old(self).queue(),
            final(self).owned() == old(self).owned(),
            final(self).sources() == old(self).spec_normal_mouse_transition(source, source_pid, button, is_down),
    {
        let bit = match button_bit_u32(button) {
            Some(bit) => bit,
            None => return,
        };
        let slot = match self.source_slot(source, source_pid) {
            Some(slot) => slot,
            None => return,
        };
        if is_down {
            let held = self.held_mouse_buttons[slot] | bit;
            self.held_mouse_buttons.set(slot, held);
            let fg = self.mouse_foreground_origins[slot] | bit;
            self.mouse_foreground_origins.set(slot, fg);
        } else {
            let held = self.held_mouse_buttons[slot] & !bit;
            self.held_mouse_buttons.set(slot, held);
            let fg = self.mouse_foreground_origins[slot] & !bit;
            self.mouse_foreground_origins.set(slot, fg);
        }
    }

    /// Whether the source's model holds mouse `button` down.
    pub fn foreground_mouse_was_down(&self, source: InputSource, source_pid: i64, button: u32) -> (down: bool)
        requires
            self.wf(),
        ensures
            down == (match (spec_button_bit_u32(button), self.spec_existing_source_slot(source, source_pid)) {
                (Some(bit), Some(slot)) => self.held_mouse_buttons@[slot as int] & bit != 0,
                _ => false,
            }),
    {
        let bit = match button_bit_u32(button) {
            Some(bit) => bit,
            None => return false,
        };
        match self.existing_source_slot(source, source_pid) {
            Some(slot) => self.held_mouse_buttons[slot] & bit != 0,
            None => false,
        }
    }
}

} // verus!
