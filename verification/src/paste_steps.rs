//! The owner's paste steps: admitting a paste command, advancing a pending
//! paste on each owner poll, and observing the paste's neutral barrier.
//! Each step decides from plain observations; the caller performs what it
//! returns (publishing, posting, native calls) and reports back.

use vstd::prelude::*;
use crate::barrier::{GapBarrierObservation, observe_exact_pair, spec_classify_exact_pair};
use crate::paste::{
    InsertionOwnerAction, InsertionStatus, PasteCommandState, PasteFailure, PastePostChecks,
    claim_paste_injection, insertion_owner_action, paste_check_failure,
    spec_insertion_owner_action, spec_paste_check_failure,
};

verus! {

/// How a received paste command was taken up. Every outcome but `Claimed`
/// publishes `Unavailable` and acknowledges the command.
#[derive(Clone, Copy, Debug, PartialEq, Eq, Structural)]
pub enum PasteClaim {
    /// Past its deadline or with admission closed: the command is cancelled.
    Cancelled,
    /// Someone else already moved the command out of pending.
    NotClaimed,
    /// The command is now waiting and this owner holds it.
    Claimed,
}

/// Takes up one received paste command. Admission must be open and the
/// deadline not passed; then the command moves from pending to waiting in
/// one step; admission is checked once more after that move.
/// `admission_open_after` is the admission state read after the move.
pub fn claim_paste_command(
    state: &mut PasteCommandState,
    before_deadline: bool,
    admission_open: bool,
    admission_open_after: bool,
) -> (claim: PasteClaim)
    ensures
        claim == (if !before_deadline || !admission_open {
            PasteClaim::Cancelled
        } else if *old(state) != PasteCommandState::Pending {
            PasteClaim::NotClaimed
        } else if !admission_open_after {
            PasteClaim::Cancelled
        } else {
            PasteClaim::Claimed
        }),
        *final(state) == (if before_deadline && admission_open && *old(state)
            == PasteCommandState::Pending {
            PasteCommandState::Waiting
        } else {
            *old(state)
        }),
{
    if !before_deadline || !admission_open {
        return PasteClaim::Cancelled;
    }
    if *state != PasteCommandState::Pending {
        return PasteClaim::NotClaimed;
    }
    *state = PasteCommandState::Waiting;
    if !admission_open_after {
        return PasteClaim::Cancelled;
    }
    PasteClaim::Claimed
}

/// Installs a claimed command as the pending paste: it needs the target
/// evidence captured at activation and a free pending slot. Otherwise the
/// command is applied with `Unavailable` published (`false`).
pub fn install_claimed_paste(state: &mut PasteCommandState, evidence_available: bool, slot_free: bool) -> (installed: bool)
    ensures
        installed == (evidence_available && slot_free),
        installed ==> *final(state) == *old(state),
        !installed ==> *final(state) == PasteCommandState::Applied,
{
    if !evidence_available || !slot_free {
        *state = PasteCommandState::Applied;
        return false;
    }
    true
}

/// What one owner poll knows about the pending paste.
#[derive(Clone, Copy, Debug, PartialEq, Eq, Structural)]
pub struct PendingPasteView {
    pub state: PasteCommandState,
    /// The status of the prepared insertion, once there is one.
    pub insertion: Option<InsertionStatus>,
    pub deadline_reached: bool,
    /// A neutral barrier was posted and its modifier epoch recorded.
    pub barrier_posted: bool,
    /// The posted barrier's down and up were both observed.
    pub barrier_complete: bool,
    /// The final checks as of this poll.
    pub checks: PastePostChecks,
    /// The AX worker has validated the insertion target.
    pub target_validated: bool,
    /// All three validated epochs (target, boundary, selected range) are held.
    pub epochs_complete: bool,
    pub target_cache_available: bool,
    /// A barrier token is installed.
    pub barrier_token_set: bool,
}

/// What the owner records beside a finished paste.
#[derive(Clone, Copy, Debug, PartialEq, Eq, Structural)]
pub enum PollNote {
    Nothing,
    TargetValidationFallback,
    ModifierTimeout,
}

/// What the owner does on one poll of the pending paste.
#[derive(Clone, Copy, Debug, PartialEq, Eq, Structural)]
pub enum PastePollAction {
    /// Nothing to do this poll.
    Idle,
    /// Poll again later.
    ArmMaintenance,
    /// The insertion succeeded: mark the command committed, then publish
    /// success.
    CommitSuccess,
    /// Publish this failure and release the pending paste.
    Finish { reason: PasteFailure, note: PollNote },
    /// The insertion may have happened: close admission instead of
    /// reporting.
    CloseAmbiguousAdmission,
    /// Try to cancel the unclaimed insertion (`cancelled_insertion_step`).
    CancelInsertion,
    /// Physical modifiers may still be unwinding: start waiting for
    /// neutral modifiers under the same deadline.
    WaitForNeutralModifiers,
    /// Ask the AX worker to validate the target (`target_validation_step`).
    ValidateTarget,
    /// Prepare the insertion and the neutral barrier
    /// (`barrier_prerequisite`, `barrier_record`).
    PrepareInsertion,
}

/// One poll's decision: whether the modifier wait is over (modifiers were
/// neutral in the final checks), and the action.
#[derive(Clone, Copy, Debug, PartialEq, Eq, Structural)]
pub struct PastePollStep {
    pub modifiers_settled: bool,
    pub action: PastePollAction,
}

/// The action for a prepared insertion's status.
pub open spec fn insertion_poll_action(status: InsertionStatus, deadline_reached: bool) -> PastePollAction {
    match spec_insertion_owner_action(status, deadline_reached) {
        InsertionOwnerAction::CompleteSuccess => PastePollAction::CommitSuccess,
        InsertionOwnerAction::CompleteFailure(reason) => PastePollAction::Finish { reason, note: PollNote::Nothing },
        InsertionOwnerAction::CompleteTargetFallback => PastePollAction::Finish {
            reason: PasteFailure::Unavailable,
            note: PollNote::TargetValidationFallback,
        },
        InsertionOwnerAction::TerminalAmbiguous => PastePollAction::CloseAmbiguousAdmission,
        InsertionOwnerAction::CancelPending => PastePollAction::CancelInsertion,
        InsertionOwnerAction::Wait => PastePollAction::ArmMaintenance,
    }
}

/// The checks as a poll makes them: the owner's own target evidence
/// stands, so the target counts as valid.
pub open spec fn poll_checks(checks: PastePostChecks) -> PastePostChecks {
    PastePostChecks { target_valid: true, ..checks }
}

/// The action for a failed final check: wait on conflicting modifiers
/// before the injection cutoff, otherwise finish (noting a modifier-wait
/// timeout).
pub open spec fn check_failure_action(reason: PasteFailure, before_injection_cutoff: bool) -> PastePollAction {
    if reason == PasteFailure::ConflictingModifiers && before_injection_cutoff {
        PastePollAction::WaitForNeutralModifiers
    } else {
        PastePollAction::Finish {
            reason,
            note: if reason == PasteFailure::ConflictingModifiers {
                PollNote::ModifierTimeout
            } else {
                PollNote::Nothing
            },
        }
    }
}

/// One owner poll of the pending paste, in order:
/// - while recovery is pending, poll again later and touch nothing;
/// - with no pending paste, nothing;
/// - an injecting command with a prepared insertion follows the
///   insertion's status;
/// - a posted barrier not yet complete finishes `Unavailable` at the
///   deadline and otherwise waits;
/// - a failed final check waits on modifiers or finishes;
/// - an unvalidated target is validated first;
/// - with no barrier yet, a missing target cache or validated epoch
///   finishes `Unavailable`, and otherwise the insertion is prepared;
/// - with the barrier posted and complete, poll again later.
pub open spec fn spec_poll_step(recovery_pending: bool, command: Option<PendingPasteView>) -> PastePollStep {
    if recovery_pending {
        PastePollStep { modifiers_settled: false, action: PastePollAction::ArmMaintenance }
    } else {
        match command {
            None => PastePollStep { modifiers_settled: false, action: PastePollAction::Idle },
            Some(v) => if v.state == PasteCommandState::Injecting && v.insertion is Some {
                PastePollStep {
                    modifiers_settled: false,
                    action: insertion_poll_action(v.insertion->Some_0, v.deadline_reached),
                }
            } else if v.barrier_posted && !v.barrier_complete {
                PastePollStep {
                    modifiers_settled: false,
                    action: if v.deadline_reached {
                        PastePollAction::Finish { reason: PasteFailure::Unavailable, note: PollNote::Nothing }
                    } else {
                        PastePollAction::Idle
                    },
                }
            } else {
                let settled = v.checks.modifiers_neutral;
                match spec_paste_check_failure(v.state, poll_checks(v.checks)) {
                    Some(reason) => PastePollStep {
                        modifiers_settled: settled,
                        action: check_failure_action(reason, v.checks.before_injection_cutoff),
                    },
                    None => PastePollStep {
                        modifiers_settled: settled,
                        action: if !v.target_validated {
                            PastePollAction::ValidateTarget
                        } else if v.barrier_token_set {
                            PastePollAction::ArmMaintenance
                        } else if !v.target_cache_available || !v.epochs_complete {
                            PastePollAction::Finish { reason: PasteFailure::Unavailable, note: PollNote::Nothing }
                        } else {
                            PastePollAction::PrepareInsertion
                        },
                    },
                }
            },
        }
    }
}

/// A poll publishes what the insertion reported: an injecting command
/// whose insertion failed with `r` finishes with `r`; one whose insertion
/// succeeded commits success; and success is committed for no other
/// command, at no other time.
pub proof fn law_poll_publishes_the_insertion_outcome(
    v: PendingPasteView,
    r: PasteFailure,
    recovery_pending: bool,
    command: Option<PendingPasteView>,
)
    ensures
        v.state == PasteCommandState::Injecting && v.insertion == Some(InsertionStatus::Failed(r))
            ==> spec_poll_step(false, Some(v)).action == (PastePollAction::Finish {
            reason: r,
            note: PollNote::Nothing,
        }),
        v.state == PasteCommandState::Injecting && v.insertion == Some(InsertionStatus::Succeeded)
            ==> spec_poll_step(false, Some(v)).action == PastePollAction::CommitSuccess,
        spec_poll_step(recovery_pending, command).action == PastePollAction::CommitSuccess ==> {
            &&& !recovery_pending
            &&& command is Some
            &&& command->Some_0.state == PasteCommandState::Injecting
            &&& command->Some_0.insertion == Some(InsertionStatus::Succeeded)
        },
{
}

/// Decides one owner poll of the pending paste; see `spec_poll_step`.
pub fn poll_pending_paste_step(recovery_pending: bool, command: Option<PendingPasteView>) -> (step: PastePollStep)
    ensures
        step == spec_poll_step(recovery_pending, command),
{
    if recovery_pending {
        return PastePollStep { modifiers_settled: false, action: PastePollAction::ArmMaintenance };
    }
    let v = match command {
        None => return PastePollStep { modifiers_settled: false, action: PastePollAction::Idle },
        Some(v) => v,
    };
    if v.state == PasteCommandState::Injecting {
        if let Some(status) = v.insertion {
            let action = match insertion_owner_action(status, v.deadline_reached) {
                InsertionOwnerAction::CompleteSuccess => PastePollAction::CommitSuccess,
                InsertionOwnerAction::CompleteFailure(reason) => PastePollAction::Finish {
                    reason,
                    note: PollNote::Nothing,
                },
                InsertionOwnerAction::CompleteTargetFallback => PastePollAction::Finish {
                    reason: PasteFailure::Unavailable,
                    note: PollNote::TargetValidationFallback,
                },
                InsertionOwnerAction::TerminalAmbiguous => PastePollAction::CloseAmbiguousAdmission,
                InsertionOwnerAction::CancelPending => PastePollAction::CancelInsertion,
                InsertionOwnerAction::Wait => PastePollAction::ArmMaintenance,
            };
            return PastePollStep { modifiers_settled: false, action };
        }
    }
    if v.barrier_posted && !v.barrier_complete {
        let action = if v.deadline_reached {
            PastePollAction::Finish { reason: PasteFailure::Unavailable, note: PollNote::Nothing }
        } else {
            PastePollAction::Idle
        };
        return PastePollStep { modifiers_settled: false, action };
    }
    let settled = v.checks.modifiers_neutral;
    let checks = PastePostChecks { target_valid: true, ..v.checks };
    if let Some(reason) = paste_check_failure(v.state, checks) {
        let action = if reason == PasteFailure::ConflictingModifiers && v.checks.before_injection_cutoff {
            PastePollAction::WaitForNeutralModifiers
        } else {
            let note = if reason == PasteFailure::ConflictingModifiers {
                PollNote::ModifierTimeout
            } else {
                PollNote::Nothing
            };
            PastePollAction::Finish { reason, note }
        };
        return PastePollStep { modifiers_settled: settled, action };
    }
    let action = if !v.target_validated {
        PastePollAction::ValidateTarget
    } else if v.barrier_token_set {
        PastePollAction::ArmMaintenance
    } else if !v.target_cache_available || !v.epochs_complete {
        PastePollAction::Finish { reason: PasteFailure::Unavailable, note: PollNote::Nothing }
    } else {
        PastePollAction::PrepareInsertion
    };
    PastePollStep { modifiers_settled: settled, action }
}

/// The AX worker's answer on the target.
#[derive(Clone, Copy, Debug, PartialEq, Eq, Structural)]
pub enum TargetValidation {
    Pending,
    Invalid,
    Valid { epoch: u64, boundary_epoch: u64, selected_range_epoch: u64 },
}

/// What the owner does with the worker's answer.
#[derive(Clone, Copy, Debug, PartialEq, Eq, Structural)]
pub enum TargetValidationStep {
    /// Not answered yet: nothing this poll.
    Wait,
    /// The target is gone: finish `Unavailable`, recording the fallback.
    Finish { reason: PasteFailure, note: PollNote },
    /// Freeze these epochs on the command and poll again; no AX request is
    /// made after the barrier.
    Record { epoch: u64, boundary_epoch: u64, selected_range_epoch: u64 },
}

pub fn target_validation_step(validation: TargetValidation) -> (step: TargetValidationStep)
    ensures
        step == (match validation {
            TargetValidation::Pending => TargetValidationStep::Wait,
            TargetValidation::Invalid => TargetValidationStep::Finish {
                reason: PasteFailure::Unavailable,
                note: PollNote::TargetValidationFallback,
            },
            TargetValidation::Valid { epoch, boundary_epoch, selected_range_epoch } => TargetValidationStep::Record {
                epoch,
                boundary_epoch,
                selected_range_epoch,
            },
        }),
{
    match validation {
        TargetValidation::Pending => TargetValidationStep::Wait,
        TargetValidation::Invalid => TargetValidationStep::Finish {
            reason: PasteFailure::Unavailable,
            note: PollNote::TargetValidationFallback,
        },
        TargetValidation::Valid { epoch, boundary_epoch, selected_range_epoch } => TargetValidationStep::Record {
            epoch,
            boundary_epoch,
            selected_range_epoch,
        },
    }
}

/// After trying to cancel an unclaimed insertion: a cancelled one finishes
/// `Unavailable`; a failed cancellation means the worker won the claim, so
/// the request is kept and the owner polls again.
pub fn cancelled_insertion_step(cancelled: bool) -> (action: PastePollAction)
    ensures
        action == (if cancelled {
            PastePollAction::Finish { reason: PasteFailure::Unavailable, note: PollNote::Nothing }
        } else {
            PastePollAction::ArmMaintenance
        }),
{
    if cancelled {
        PastePollAction::Finish { reason: PasteFailure::Unavailable, note: PollNote::Nothing }
    } else {
        PastePollAction::ArmMaintenance
    }
}

/// What is needed before the barrier is prepared: a prepared insertion, the
/// native event pool, and the keyboard tracker's modifier epoch read while
/// its modifiers are neutral (`None` otherwise). The result is that epoch.
pub fn barrier_prerequisite(
    insertion_prepared: bool,
    pool_available: bool,
    neutral_modifier_epoch: Option<u64>,
) -> (epoch: Result<u64, PasteFailure>)
    ensures
        epoch == (if !insertion_prepared || !pool_available {
            Err::<u64, PasteFailure>(PasteFailure::Unavailable)
        } else {
            match neutral_modifier_epoch {
                Some(e) => Ok(e),
                None => Err(PasteFailure::ConflictingModifiers),
            }
        }),
{
    if !insertion_prepared || !pool_available {
        return Err(PasteFailure::Unavailable);
    }
    match neutral_modifier_epoch {
        Some(e) => Ok(e),
        None => Err(PasteFailure::ConflictingModifiers),
    }
}

/// What the command records when its barrier is posted.
#[derive(Clone, Copy, Debug, PartialEq, Eq, Structural)]
pub struct BarrierRecord {
    pub neutral_modifier_epoch: u64,
    pub barrier_state: u8,
    pub barrier_token: u64,
}

/// Records a prepared barrier before it is posted: the modifier epoch, a
/// fresh barrier state and its token. A barrier the native layer could not
/// prepare fails the paste with `OsRejected`.
pub fn barrier_record(prepared_token: Option<u64>, modifier_epoch: u64) -> (record: Result<BarrierRecord, PasteFailure>)
    ensures
        record == (match prepared_token {
            Some(token) => Ok::<BarrierRecord, PasteFailure>(
                BarrierRecord { neutral_modifier_epoch: modifier_epoch, barrier_state: 0, barrier_token: token },
            ),
            None => Err(PasteFailure::OsRejected),
        }),
{
    match prepared_token {
        Some(token) => Ok(
            BarrierRecord { neutral_modifier_epoch: modifier_epoch, barrier_state: 0, barrier_token: token },
        ),
        None => Err(PasteFailure::OsRejected),
    }
}

/// The key code of the paste's neutral barrier pair.
pub const PASTE_BARRIER_KEY_CODE: u16 = 127;

/// What the owner knows when the paste barrier's up completes the pair.
#[derive(Clone, Copy, Debug, PartialEq, Eq, Structural)]
pub struct BarrierCompletionView {
    /// All three validated epochs are held.
    pub epochs_complete: bool,
    pub target_cache_available: bool,
    /// The cached target handle still matches the validated epochs.
    pub handle_current: bool,
    /// The modifier epoch recorded when the barrier was posted.
    pub expected_modifier_epoch: Option<u64>,
    /// The keyboard tracker's modifier epoch, when the tracker could be read
    /// with neutral modifiers.
    pub neutral_tracker_epoch: Option<u64>,
    /// The hardware reports neutral modifiers.
    pub native_modifiers_neutral: bool,
    /// A delivery lease could be taken from the callback gate.
    pub lease_available: bool,
    pub admission_open: bool,
    pub before_deadline: bool,
    pub before_injection_cutoff: bool,
    pub secure_input_inactive: bool,
    /// An insertion request is prepared.
    pub insertion_prepared: bool,
}

/// What observing one edge of the paste barrier leads to.
#[derive(Clone, Copy, Debug, PartialEq, Eq, Structural)]
pub enum PasteBarrierStep {
    /// The pending paste could not be read: trigger the terminal with
    /// `InputInjectionUnavailable`.
    Unreadable,
    /// The barrier's down was observed; its up is awaited.
    AwaitUp,
    /// The pair completed and every check held; the command is injecting:
    /// submit the prepared insertion (a refused submission finishes
    /// `Unavailable`) and arm maintenance.
    SubmitInsertion,
    /// The pair completed but the paste cannot go on: finish with `reason`
    /// (recording a target validation fallback when `target_fallback`) and
    /// arm maintenance.
    Fail { reason: PasteFailure, target_fallback: bool },
    /// Not the exact barrier: finish `OsRejected` and trigger the terminal
    /// with `InputInjectionUnavailable`.
    Forged,
}

/// The checks at barrier completion: modifiers, permissions and target
/// were proven just before; the rest is read now.
pub open spec fn completion_checks(c: BarrierCompletionView) -> PastePostChecks {
    PastePostChecks {
        admission_open: c.admission_open,
        before_deadline: c.before_deadline,
        before_injection_cutoff: c.before_injection_cutoff,
        modifiers_neutral: true,
        permissions_granted: true,
        secure_input_inactive: c.secure_input_inactive,
        target_valid: true,
    }
}

/// The outcome once the pair completed, in order of the checks.
pub open spec fn spec_completion(state: PasteCommandState, c: BarrierCompletionView) -> PasteBarrierStep {
    if !c.epochs_complete || !c.target_cache_available {
        PasteBarrierStep::Fail { reason: PasteFailure::Unavailable, target_fallback: false }
    } else if !c.handle_current {
        PasteBarrierStep::Fail { reason: PasteFailure::Unavailable, target_fallback: true }
    } else if c.expected_modifier_epoch is None || c.neutral_tracker_epoch != c.expected_modifier_epoch
        || !c.native_modifiers_neutral {
        PasteBarrierStep::Fail { reason: PasteFailure::ConflictingModifiers, target_fallback: false }
    } else if !c.lease_available {
        PasteBarrierStep::Fail { reason: PasteFailure::Unavailable, target_fallback: false }
    } else if spec_paste_check_failure(state, completion_checks(c)) is Some {
        PasteBarrierStep::Fail {
            reason: spec_paste_check_failure(state, completion_checks(c))->Some_0,
            target_fallback: false,
        }
    } else if !c.insertion_prepared {
        PasteBarrierStep::Fail { reason: PasteFailure::Unavailable, target_fallback: false }
    } else {
        PasteBarrierStep::SubmitInsertion
    }
}

/// Whether the completion claims injection: every check up to the claim
/// passed.
pub open spec fn completion_claims(state: PasteCommandState, c: BarrierCompletionView) -> bool {
    &&& c.epochs_complete && c.target_cache_available && c.handle_current
    &&& c.expected_modifier_epoch is Some && c.neutral_tracker_epoch == c.expected_modifier_epoch
    &&& c.native_modifiers_neutral && c.lease_available
    &&& spec_paste_check_failure(state, completion_checks(c)) is None
}

/// A barrier edge with no pending paste to match it: when the pending
/// paste could not be read at all the failure is terminal; with none
/// pending the edge is forged.
pub fn paste_barrier_without_command(readable: bool) -> (step: PasteBarrierStep)
    ensures
        step == (if readable {
            PasteBarrierStep::Forged
        } else {
            PasteBarrierStep::Unreadable
        }),
{
    if readable {
        PasteBarrierStep::Forged
    } else {
        PasteBarrierStep::Unreadable
    }
}

/// Observes one edge of the paste's neutral barrier (the exact key-127
/// down then up, unflagged and not repeating) against the pending paste's
/// barrier progress `barrier` and command state `state`.
pub fn paste_barrier_observation_step(
    barrier: &mut u8,
    state: &mut PasteCommandState,
    event_type: u32,
    raw_key_code: i64,
    repeat: bool,
    flags: u64,
    completion: BarrierCompletionView,
) -> (step: PasteBarrierStep)
    ensures
        ({
            let observation = if 0 <= raw_key_code <= u16::MAX {
                spec_classify_exact_pair(
                    *old(barrier),
                    event_type,
                    raw_key_code as u16,
                    PASTE_BARRIER_KEY_CODE,
                    repeat,
                    flags,
                    0,
                )
            } else {
                GapBarrierObservation::Forged
            };
            &&& *final(barrier) == match observation {
                GapBarrierObservation::Down => 1u8,
                GapBarrierObservation::Complete => 2u8,
                GapBarrierObservation::Forged => *old(barrier),
            }
            &&& step == match observation {
                GapBarrierObservation::Down => PasteBarrierStep::AwaitUp,
                GapBarrierObservation::Complete => spec_completion(*old(state), completion),
                GapBarrierObservation::Forged => PasteBarrierStep::Forged,
            }
            &&& *final(state) == if observation == GapBarrierObservation::Complete && completion_claims(
                *old(state),
                completion,
            ) {
                PasteCommandState::Injecting
            } else {
                *old(state)
            }
        }),
{
    if raw_key_code < 0 || raw_key_code > 0xffff {
        return PasteBarrierStep::Forged;
    }
    let observation = observe_exact_pair(barrier, event_type, raw_key_code as u16, PASTE_BARRIER_KEY_CODE, repeat, flags, 0);
    match observation {
        GapBarrierObservation::Down => PasteBarrierStep::AwaitUp,
        GapBarrierObservation::Forged => PasteBarrierStep::Forged,
        GapBarrierObservation::Complete => {
            let c = completion;
            if !c.epochs_complete || !c.target_cache_available {
                return PasteBarrierStep::Fail { reason: PasteFailure::Unavailable, target_fallback: false };
            }
            if !c.handle_current {
                return PasteBarrierStep::Fail { reason: PasteFailure::Unavailable, target_fallback: true };
            }
            let modifiers_hold = match c.expected_modifier_epoch {
                None => false,
                Some(expected) => match c.neutral_tracker_epoch {
                    Some(tracker_epoch) => tracker_epoch == expected && c.native_modifiers_neutral,
                    None => false,
                },
            };
            if !modifiers_hold {
                return PasteBarrierStep::Fail { reason: PasteFailure::ConflictingModifiers, target_fallback: false };
            }
            if !c.lease_available {
                return PasteBarrierStep::Fail { reason: PasteFailure::Unavailable, target_fallback: false };
            }
            let checks = PastePostChecks {
                admission_open: c.admission_open,
                before_deadline: c.before_deadline,
                before_injection_cutoff: c.before_injection_cutoff,
                modifiers_neutral: true,
                permissions_granted: true,
                secure_input_inactive: c.secure_input_inactive,
                target_valid: true,
            };
            match claim_paste_injection(state, checks) {
                Err(reason) => PasteBarrierStep::Fail { reason, target_fallback: false },
                Ok(()) => if !c.insertion_prepared {
                    PasteBarrierStep::Fail { reason: PasteFailure::Unavailable, target_fallback: false }
                } else {
                    PasteBarrierStep::SubmitInsertion
                },
            }
        },
    }
}

} // verus!
