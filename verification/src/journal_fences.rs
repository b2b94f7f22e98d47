//! Ordinary (non-deferred) edges against the journal: tracking foreground
//! mouse transitions, and discarding edges of generations fenced by overflow.

use vstd::prelude::*;
use crate::journal::{RecoveryEdgeJournal, SourceModel, cell, spec_button_bit_u32};
use crate::native_event::{
    InputSource, K_CG_EVENT_FLAGS_CHANGED, K_CG_EVENT_KEY_DOWN, K_CG_EVENT_KEY_UP,
    deferred_mouse_button, is_mouse_event_type, mouse_event_is_down,
    spec_deferred_mouse_button, spec_is_mouse_event_type, spec_mouse_event_is_down,
};

verus! {

/// The journal-trackable mouse button of an edge: one of the 32 buttons.
pub open spec fn trackable_button(event_type: u32, reported_button: i64) -> Option<u32> {
    match spec_deferred_mouse_button(event_type, reported_button) {
        Some(b) => if b < 32 {
            Some(b)
        } else {
            None
        },
        None => None,
    }
}

/// The key code of a keyboard edge, when it is one of the 128 tracked codes.
pub open spec fn trackable_key(raw_key_code: i64) -> Option<u16> {
    if 0 <= raw_key_code < 128 {
        Some(raw_key_code as u16)
    } else {
        None
    }
}

pub open spec fn is_key_event_type(event_type: u32) -> bool {
    event_type == K_CG_EVENT_KEY_DOWN || event_type == K_CG_EVENT_KEY_UP || event_type
        == K_CG_EVENT_FLAGS_CHANGED
}

impl RecoveryEdgeJournal {
    /// The source model after a key's discard fence is lifted in `slot`.
    pub open spec fn fence_lifted(m: SourceModel, slot: usize, key_code: u16) -> SourceModel {
        SourceModel {
            discard_key_fences: m.discard_key_fences.update(cell(slot as int, key_code as int), false),
            ..m
        }
    }

    /// Whether the edge is of an overflow-fenced generation, its phase if so,
    /// and the source model afterwards.
    pub open spec fn spec_discard_overflow_fenced_nonhelper(
        &self,
        event_type: u32,
        reported_button: i64,
        raw_key_code: i64,
        source: InputSource,
        source_pid: i64,
        physical_is_down: Option<bool>,
    ) -> (Option<bool>, SourceModel) {
        if spec_is_mouse_event_type(event_type) {
            match trackable_button(event_type, reported_button) {
                None => (None, self.sources()),
                Some(button) => match (
                    spec_button_bit_u32(button),
                    self.spec_existing_source_slot(source, source_pid),
                ) {
                    (Some(bit), Some(slot)) => if self.discard_mouse_fences@[slot as int] & bit != 0 {
                        let is_down = spec_mouse_event_is_down(event_type);
                        (
                            Some(is_down),
                            if is_down {
                                self.sources()
                            } else {
                                SourceModel {
                                    discard_mouse_fences: self.discard_mouse_fences@.update(
                                        slot as int,
                                        self.discard_mouse_fences@[slot as int] & !bit,
                                    ),
                                    ..self.sources()
                                }
                            },
                        )
                    } else {
                        (None, self.sources())
                    },
                    _ => (None, self.sources()),
                },
            }
        } else if !is_key_event_type(event_type) {
            (None, self.sources())
        } else {
            match (trackable_key(raw_key_code), self.spec_existing_source_slot(source, source_pid)) {
                (Some(key), Some(slot)) => if self.discard_key_fences@[cell(
                    slot as int,
                    key as int,
                )] {
                    if event_type == K_CG_EVENT_KEY_UP {
                        (Some(false), Self::fence_lifted(self.sources(), slot, key))
                    } else if event_type == K_CG_EVENT_FLAGS_CHANGED {
                        let (transition, m1) = self.spec_modifier_side_transition(
                            source,
                            source_pid,
                            key,
                            physical_is_down,
                        );
                        let is_down = transition is Some && transition->Some_0.0;
                        (
                            Some(is_down),
                            if is_down {
                                m1
                            } else {
                                Self::fence_lifted(m1, slot, key)
                            },
                        )
                    } else {
                        (Some(true), self.sources())
                    }
                } else {
                    (None, self.sources())
                },
                _ => (None, self.sources()),
            }
        }
    }

    /// Discards an ordinary edge that belongs to a generation fenced by
    /// overflow: its fence is consumed and its phase returned, so that the
    /// caller's trackers can follow it. Any other edge is left alone (`None`).
    /// `physical_is_down` is the HID state of a physical modifier key.
    pub fn discard_overflow_fenced_nonhelper(
        &mut self,
        event_type: u32,
        reported_button: i64,
        raw_key_code: i64,
        source: InputSource,
        source_pid: i64,
        physical_is_down: Option<bool>,
    ) -> (discarded: Option<bool>)
        requires
            old(self).wf(),
        ensures
            final(self).wf(),
            final(self).queue() == old(self).queue(),
            final(self).owned() == old(self).owned(),
            discarded is None ==> *final(self) == *old(self),
            (discarded, final(self).sources()) == old(self).spec_discard_overflow_fenced_nonhelper(
                event_type,
                reported_button,
                raw_key_code,
                source,
                source_pid,
                physical_is_down,
            ),
    {
        if is_mouse_event_type(event_type) {
            let button = match deferred_mouse_button(event_type, reported_button) {
                Some(b) => if b < 32 {
                    b
                } else {
                    return None;
                },
                None => {
                    return None;
                },
            };
            if !self.mouse_is_discard_fenced(source, source_pid, button) {
                return None;
            }
            let is_down = mouse_event_is_down(event_type);
            self.consume_mouse_discard_fence(source, source_pid, button, is_down);
            return Some(is_down);
        }
        if event_type != K_CG_EVENT_KEY_DOWN && event_type != K_CG_EVENT_KEY_UP && event_type
            != K_CG_EVENT_FLAGS_CHANGED {
            return None;
        }
        if raw_key_code < 0 || raw_key_code >= 128 {
            return None;
        }
        let key_code = raw_key_code as u16;
        if !self.key_is_discard_fenced(source, source_pid, key_code) {
            return None;
        }
        let ghost start = *self;
        let is_down = if event_type == K_CG_EVENT_KEY_UP {
            false
        } else if event_type == K_CG_EVENT_FLAGS_CHANGED {
            match self.modifier_side_transition(source, source_pid, key_code, physical_is_down) {
                Some((down, _)) => down,
                None => false,
            }
        } else {
            true
        };
        proof {
            assert(self.spec_existing_source_slot(source, source_pid)
                == start.spec_existing_source_slot(source, source_pid));
        }
        self.consume_key_discard_fence(source, source_pid, key_code, is_down);
        Some(is_down)
    }

    /// Follows an ordinary mouse edge in the source model; an edge without a
    /// trackable button is refused (`false`) and changes nothing.
    pub fn observe_normal_mouse_transition(
        &mut self,
        event_type: u32,
        reported_button: i64,
        source: InputSource,
        source_pid: i64,
    ) -> (followed: bool)
        requires
            old(self).wf(),
            spec_is_mouse_event_type(event_type),
        ensures
            final(self).wf(),
            final(self).queue() == old(self).queue(),
            final(self).owned() == old(self).owned(),
            followed == trackable_button(event_type, reported_button) is Some,
            followed ==> final(self).sources() == old(self).spec_normal_mouse_transition(
                source,
                source_pid,
                trackable_button(event_type, reported_button)->Some_0,
                spec_mouse_event_is_down(event_type),
            ),
            !followed ==> final(self).sources() == old(self).sources(),
    {
        let button = match deferred_mouse_button(event_type, reported_button) {
            Some(b) => if b < 32 {
                b
            } else {
                return false;
            },
            None => {
                return false;
            },
        };
        self.normal_mouse_transition(source, source_pid, button, mouse_event_is_down(event_type));
        true
    }
}

} // verus!
