//! Authenticating the scalar reposts of a submitted batch: each repost must
//! be the exact next submitted edge before the observation cursor advances;
//! anything else aborts the submission to overflow.

use vstd::prelude::*;
use crate::barrier::GapBarrierObservation;
use crate::journal::{DeferredEvent, QueueModel, RecoveryEdgeJournal, SourceModel};
use crate::journal_defer::NativeEdgeReading;
use crate::journal_overflow::{m_materialize, q_abort, q_materialize};
use crate::journal_submission::q_advance;
use crate::native_event::{K_CG_EVENT_KEY_DOWN, is_mouse_event_type, spec_is_mouse_event_type};

verus! {

/// Whether an observed edge is, field for field, the repost of `expected`:
/// the same event type and flags, and the full mouse payload or the key
/// code, autorepeat and keyboard type.
pub open spec fn edge_matches_observed(expected: DeferredEvent, r: NativeEdgeReading) -> bool {
    &&& r.event_type == expected.event_type
    &&& r.flags == expected.flags
    &&& if spec_is_mouse_event_type(expected.event_type) {
        &&& r.location_x_bits == expected.location_x_bits
        &&& r.location_y_bits == expected.location_y_bits
        &&& r.reported_button == expected.mouse_button
        &&& r.mouse_click_state == expected.mouse_click_state
        &&& r.mouse_number == expected.mouse_number
        &&& r.mouse_pressure_bits == expected.mouse_pressure_bits
        &&& r.mouse_delta_x == expected.mouse_delta_x
        &&& r.mouse_delta_y == expected.mouse_delta_y
        &&& r.mouse_instant_mouser == expected.mouse_instant_mouser
        &&& r.mouse_subtype == expected.mouse_subtype
    } else {
        &&& r.raw_key_code == expected.key_code as i64
        &&& (r.event_type == K_CG_EVENT_KEY_DOWN && r.autorepeat) == expected.repeat
        &&& r.keyboard_type == expected.keyboard_type
    }
}

/// Compares an observed edge with the submitted edge it must repost.
pub fn deferred_edge_matches_observed(expected: DeferredEvent, observed: &NativeEdgeReading) -> (matches: bool)
    ensures
        matches == edge_matches_observed(expected, *observed),
{
    if observed.event_type != expected.event_type || observed.flags != expected.flags {
        return false;
    }
    if is_mouse_event_type(expected.event_type) {
        observed.location_x_bits == expected.location_x_bits && observed.location_y_bits
            == expected.location_y_bits && observed.reported_button == expected.mouse_button
            && observed.mouse_click_state == expected.mouse_click_state && observed.mouse_number
            == expected.mouse_number && observed.mouse_pressure_bits == expected.mouse_pressure_bits
            && observed.mouse_delta_x == expected.mouse_delta_x && observed.mouse_delta_y
            == expected.mouse_delta_y && observed.mouse_instant_mouser == expected.mouse_instant_mouser
            && observed.mouse_subtype == expected.mouse_subtype
    } else {
        let repeat = observed.event_type == K_CG_EVENT_KEY_DOWN && observed.autorepeat;
        observed.raw_key_code == expected.key_code as i64 && repeat == expected.repeat
            && observed.keyboard_type == expected.keyboard_type
    }
}

/// What observing one repost decided.
#[derive(Clone, Copy, Debug, PartialEq, Eq, Structural)]
pub enum RepostObservation {
    /// The edge does not carry this journal's submission token: it is not
    /// a repost of ours and the journal is untouched.
    Foreign,
    /// A repost that is not the next submitted edge (or arrived with no
    /// edge expected): the submission was aborted to overflow and the
    /// journal has failed for admission.
    Mismatched,
    /// The next submitted edge was observed and became foreground-visible;
    /// `complete` when it was the last of its batch.
    Observed { complete: bool },
}

impl RecoveryEdgeJournal {
    /// The next submitted edge whose exact observation is expected.
    pub open spec fn spec_expected(&self) -> Option<DeferredEvent> {
        if self.token is Some && self.observed < self.submitted_len {
            Some(self.pending@[self.observed as int])
        } else {
            None
        }
    }

    /// The decision on an observed edge, and the models after it.
    /// `authenticated` says whether the edge carries this journal's
    /// submission token.
    pub open spec fn spec_observe_deferred_repost(&self, authenticated: bool, r: NativeEdgeReading, now: u64) -> (
        RepostObservation,
        QueueModel,
        SourceModel,
    ) {
        let q = self.queue();
        let m = self.sources();
        if !authenticated {
            (RepostObservation::Foreign, q, m)
        } else if self.spec_expected() is Some && edge_matches_observed(self.spec_expected()->0, r) {
            let m1 = self.spec_observe_foreground_exposure(self.spec_expected()->0);
            let (observation, q2, m2) = q_advance(q, m1, now);
            (RepostObservation::Observed { complete: observation == GapBarrierObservation::Complete }, q2, m2)
        } else {
            let (q1, m1) = q_abort(q, m, now);
            (RepostObservation::Mismatched, q_materialize(q1, now), m_materialize(q1, m1))
        }
    }

    /// Observes one edge that may repost the submitted batch: a foreign
    /// edge is left alone; the exact next submitted edge is exposed in the
    /// foreground and advances the cursor; any other repost aborts the
    /// submission to overflow and settles it.
    pub fn observe_deferred_repost(&mut self, authenticated: bool, observed: &NativeEdgeReading, now: u64) -> (observation:
        RepostObservation)
        requires
            old(self).wf(),
        ensures
            final(self).wf(),
            final(self).owned() == old(self).owned(),
            (observation, final(self).queue(), final(self).sources()) == old(self).spec_observe_deferred_repost(
                authenticated,
                *observed,
                now,
            ),
    {
        if !authenticated {
            return RepostObservation::Foreign;
        }
        let expected = match self.expected() {
            Some(edge) => if deferred_edge_matches_observed(edge, observed) {
                edge
            } else {
                self.abort_submission_to_overflow(now);
                self.settle_overflow(now);
                return RepostObservation::Mismatched;
            },
            None => {
                self.abort_submission_to_overflow(now);
                self.settle_overflow(now);
                return RepostObservation::Mismatched;
            },
        };
        self.observe_foreground_exposure(expected);
        let observation = self.advance_observation(now);
        RepostObservation::Observed { complete: observation == GapBarrierObservation::Complete }
    }
}

} // verus!
