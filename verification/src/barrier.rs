//! Authenticated two-edge barriers: an exact down then an exact up.

use vstd::prelude::*;
use crate::native_event::{K_CG_EVENT_KEY_DOWN, K_CG_EVENT_KEY_UP};

verus! {

/// Outcome of matching one observed edge against an expected sequence.
#[derive(Clone, Copy, Debug, PartialEq, Eq, Structural)]
pub enum GapBarrierObservation {
    /// An expected edge that does not yet complete the sequence.
    Down,
    /// The final expected edge.
    Complete,
    /// An edge that does not match what was expected.
    Forged,
}

pub open spec fn spec_classify_exact_pair(
    state: u8,
    event_type: u32,
    key_code: u16,
    expected_key_code: u16,
    repeat: bool,
    flags: u64,
    expected_flags: u64,
) -> GapBarrierObservation {
    if key_code != expected_key_code || repeat || flags != expected_flags {
        GapBarrierObservation::Forged
    } else if state == 0 && event_type == K_CG_EVENT_KEY_DOWN {
        GapBarrierObservation::Down
    } else if state == 1 && event_type == K_CG_EVENT_KEY_UP {
        GapBarrierObservation::Complete
    } else {
        GapBarrierObservation::Forged
    }
}

/// Classifies one edge of an exact key pair. `state` is 0 before the down,
/// 1 after it and 2 once complete.
pub fn classify_exact_pair(
    state: u8,
    event_type: u32,
    key_code: u16,
    expected_key_code: u16,
    repeat: bool,
    flags: u64,
    expected_flags: u64,
) -> (observation: GapBarrierObservation)
    ensures
        observation == spec_classify_exact_pair(
            state,
            event_type,
            key_code,
            expected_key_code,
            repeat,
            flags,
            expected_flags,
        ),
{
    if key_code != expected_key_code || repeat || flags != expected_flags {
        return GapBarrierObservation::Forged;
    }
    if state == 0 && event_type == K_CG_EVENT_KEY_DOWN {
        GapBarrierObservation::Down
    } else if state == 1 && event_type == K_CG_EVENT_KEY_UP {
        GapBarrierObservation::Complete
    } else {
        GapBarrierObservation::Forged
    }
}

/// Classifies one edge of an exact key pair and advances `state` on a match.
pub fn observe_exact_pair(
    state: &mut u8,
    event_type: u32,
    key_code: u16,
    expected_key_code: u16,
    repeat: bool,
    flags: u64,
    expected_flags: u64,
) -> (observation: GapBarrierObservation)
    ensures
        observation == spec_classify_exact_pair(
            *old(state),
            event_type,
            key_code,
            expected_key_code,
            repeat,
            flags,
            expected_flags,
        ),
        *final(state) == match observation {
            GapBarrierObservation::Down => 1u8,
            GapBarrierObservation::Complete => 2u8,
            GapBarrierObservation::Forged => *old(state),
        },
{
    let observation = classify_exact_pair(
        *state,
        event_type,
        key_code,
        expected_key_code,
        repeat,
        flags,
        expected_flags,
    );
    match observation {
        GapBarrierObservation::Down => *state = 1,
        GapBarrierObservation::Complete => *state = 2,
        GapBarrierObservation::Forged => {},
    }
    observation
}

/// An exact pair completes only through its down followed by its up: from
/// a fresh state, the matching down and then the matching up complete it,
/// and no other first edge can.
pub proof fn lemma_exact_pair_completes_in_order(
    key_code: u16,
    flags: u64,
    first_type: u32,
    first_key: u16,
    first_repeat: bool,
    first_flags: u64,
)
    ensures
        spec_classify_exact_pair(0, K_CG_EVENT_KEY_DOWN, key_code, key_code, false, flags, flags)
            == GapBarrierObservation::Down,
        spec_classify_exact_pair(1, K_CG_EVENT_KEY_UP, key_code, key_code, false, flags, flags)
            == GapBarrierObservation::Complete,
        spec_classify_exact_pair(0, first_type, first_key, key_code, first_repeat, first_flags, flags)
            != GapBarrierObservation::Complete,
        spec_classify_exact_pair(2, first_type, first_key, key_code, first_repeat, first_flags, flags)
            == GapBarrierObservation::Forged,
{
}

} // verus!
