//! Paste command admission, final safety checks, and completion decisions.
//!
//! A paste is injected only after every final check passes and the command
//! moves from waiting to injecting in one step; everything else completes the
//! command with a failure. Ambiguous native insertion is never reported as a
//! result: it closes admission instead.

use vstd::prelude::*;

verus! {

/// Why a paste did not happen.
#[derive(Clone, Copy, Debug, PartialEq, Eq, Structural)]
pub enum PasteFailure {
    Unavailable,
    ConflictingModifiers,
    PermissionDenied,
    SecureInput,
    OsRejected,
}

/// The published outcome of one paste command.
#[derive(Clone, Copy, Debug, PartialEq, Eq, Structural)]
pub struct PasteResult {
    pub submitted: bool,
    pub reason: Option<PasteFailure>,
}

/// A failed paste with its reason.
pub fn failed_paste(reason: PasteFailure) -> (result: PasteResult)
    ensures
        result == (PasteResult { submitted: false, reason: Some(reason) }),
{
    PasteResult { submitted: false, reason: Some(reason) }
}

/// The lifecycle of one paste command.
#[derive(Clone, Copy, Debug, PartialEq, Eq, Structural)]
pub enum PasteCommandState {
    Pending,
    Waiting,
    Injecting,
    Applied,
    Committed,
    Cancelled,
}

/// The final checks made before a paste may be injected.
#[derive(Clone, Copy, Debug, PartialEq, Eq, Structural)]
pub struct PastePostChecks {
    pub admission_open: bool,
    pub before_deadline: bool,
    pub before_injection_cutoff: bool,
    pub modifiers_neutral: bool,
    pub permissions_granted: bool,
    pub secure_input_inactive: bool,
    pub target_valid: bool,
}

/// The first failed check, in order: the command must still be waiting with
/// admission open; then the deadlines (reported as conflicting modifiers when
/// modifiers are the reason the wait ran out); then modifiers, permissions,
/// secure input, and the target.
pub open spec fn spec_paste_check_failure(state: PasteCommandState, checks: PastePostChecks) -> Option<PasteFailure> {
    if state != PasteCommandState::Waiting || !checks.admission_open {
        Some(PasteFailure::Unavailable)
    } else if !checks.before_deadline || !checks.before_injection_cutoff {
        if checks.modifiers_neutral {
            Some(PasteFailure::Unavailable)
        } else {
            Some(PasteFailure::ConflictingModifiers)
        }
    } else if !checks.modifiers_neutral {
        Some(PasteFailure::ConflictingModifiers)
    } else if !checks.permissions_granted {
        Some(PasteFailure::PermissionDenied)
    } else if !checks.secure_input_inactive {
        Some(PasteFailure::SecureInput)
    } else if !checks.target_valid {
        Some(PasteFailure::Unavailable)
    } else {
        None
    }
}

/// Whether every final check passes.
pub open spec fn all_checks_pass(checks: PastePostChecks) -> bool {
    &&& checks.admission_open
    &&& checks.before_deadline
    &&& checks.before_injection_cutoff
    &&& checks.modifiers_neutral
    &&& checks.permissions_granted
    &&& checks.secure_input_inactive
    &&& checks.target_valid
}

/// The first failed final check, if any.
pub fn paste_check_failure(state: PasteCommandState, checks: PastePostChecks) -> (failure: Option<PasteFailure>)
    ensures
        failure == spec_paste_check_failure(state, checks),
{
    if state != PasteCommandState::Waiting || !checks.admission_open {
        return Some(PasteFailure::Unavailable);
    }
    if !checks.before_deadline || !checks.before_injection_cutoff {
        return Some(
            if checks.modifiers_neutral {
                PasteFailure::Unavailable
            } else {
                PasteFailure::ConflictingModifiers
            },
        );
    }
    if !checks.modifiers_neutral {
        return Some(PasteFailure::ConflictingModifiers);
    }
    if !checks.permissions_granted {
        return Some(PasteFailure::PermissionDenied);
    }
    if !checks.secure_input_inactive {
        return Some(PasteFailure::SecureInput);
    }
    if !checks.target_valid {
        return Some(PasteFailure::Unavailable);
    }
    None
}

/// A paste passes its final checks exactly when it is waiting and every check
/// passes.
pub proof fn law_checks_pass_only_when_all_hold(state: PasteCommandState, checks: PastePostChecks)
    ensures
        spec_paste_check_failure(state, checks) is None <==> (state == PasteCommandState::Waiting
            && all_checks_pass(checks)),
{
}

/// Claims injection authority: after the final checks pass, the waiting
/// command becomes injecting. On any failure the state is left as it was.
pub fn claim_paste_injection(state: &mut PasteCommandState, checks: PastePostChecks) -> (result: Result<(), PasteFailure>)
    ensures
        result is Ok <==> (*old(state) == PasteCommandState::Waiting && all_checks_pass(checks)),
        result is Ok ==> *final(state) == PasteCommandState::Injecting,
        result is Err ==> *final(state) == *old(state),
        result is Err ==> result == Err::<(), PasteFailure>(
            spec_paste_check_failure(*old(state), checks)->Some_0,
        ),
{
    match paste_check_failure(*state, checks) {
        Some(reason) => Err(reason),
        None => {
            *state = PasteCommandState::Injecting;
            Ok(())
        },
    }
}

/// A refused paste whose reason is conflicting modifiers counts as a
/// modifier-wait timeout once the injection cutoff has passed.
pub fn modifier_wait_timed_out(reason: PasteFailure, before_injection_cutoff: bool) -> (timed_out: bool)
    ensures
        timed_out == (reason == PasteFailure::ConflictingModifiers && !before_injection_cutoff),
{
    reason == PasteFailure::ConflictingModifiers && !before_injection_cutoff
}

/// What the owner does with a failed final check.
#[derive(Clone, Copy, Debug, PartialEq, Eq, Structural)]
pub enum PasteCheckDisposition {
    /// Physical modifiers may still be unwinding from the activation chord:
    /// wait under the same absolute deadline.
    WaitForNeutralModifiers,
    /// Complete the command with the failure, noting whether it was a
    /// modifier-wait timeout.
    Finish { reason: PasteFailure, modifier_timeout: bool },
}

/// Waits only on conflicting modifiers before the cutoff; every other
/// failure completes the command.
pub fn paste_check_disposition(reason: PasteFailure, before_injection_cutoff: bool) -> (disposition: PasteCheckDisposition)
    ensures
        disposition == (if reason == PasteFailure::ConflictingModifiers && before_injection_cutoff {
            PasteCheckDisposition::WaitForNeutralModifiers
        } else {
            PasteCheckDisposition::Finish {
                reason,
                modifier_timeout: reason == PasteFailure::ConflictingModifiers
                    && !before_injection_cutoff,
            }
        }),
{
    if reason == PasteFailure::ConflictingModifiers && before_injection_cutoff {
        PasteCheckDisposition::WaitForNeutralModifiers
    } else {
        PasteCheckDisposition::Finish {
            reason,
            modifier_timeout: modifier_wait_timed_out(reason, before_injection_cutoff),
        }
    }
}

/// The authenticated neutral-modifier barrier is valid only when it
/// completed, both the logical and HID modifier state are neutral, and the
/// modifier epoch is the one recorded when the barrier was posted.
pub fn paste_modifier_barrier_valid(
    expected_epoch: Option<u64>,
    current_epoch: u64,
    logical_neutral: bool,
    hid_neutral: bool,
    barrier_complete: bool,
) -> (valid: bool)
    ensures
        valid == (barrier_complete && logical_neutral && hid_neutral && expected_epoch == Some(
            current_epoch,
        )),
{
    barrier_complete && logical_neutral && hid_neutral && match expected_epoch {
        Some(expected) => expected == current_epoch,
        None => false,
    }
}

/// The modifier-barrier contract on fixed values: only the exact epoch with
/// a complete, fully neutral barrier passes.
pub fn test_modifier_barrier_contract() -> (holds: bool)
    ensures
        holds,
{
    paste_modifier_barrier_valid(Some(9), 9, true, true, true) && !paste_modifier_barrier_valid(
        Some(9),
        10,
        true,
        true,
        true,
    ) && !paste_modifier_barrier_valid(Some(9), 9, true, false, true)
        && !paste_modifier_barrier_valid(Some(9), 9, true, true, false)
}

/// The state of a native insertion request as the AX worker reports it.
#[derive(Clone, Copy, Debug, PartialEq, Eq, Structural)]
pub enum InsertionStatus {
    Pending,
    Claimed,
    Ambiguous,
    Succeeded,
    Failed(PasteFailure),
    TargetInvalid,
}

/// What the owner does with an insertion request on one poll.
#[derive(Clone, Copy, Debug, PartialEq, Eq, Structural)]
pub enum InsertionOwnerAction {
    Wait,
    CompleteSuccess,
    CompleteFailure(PasteFailure),
    CompleteTargetFallback,
    CancelPending,
    TerminalAmbiguous,
}

pub open spec fn spec_insertion_owner_action(status: InsertionStatus, deadline_reached: bool) -> InsertionOwnerAction {
    match status {
        InsertionStatus::Succeeded => InsertionOwnerAction::CompleteSuccess,
        InsertionStatus::Failed(reason) => InsertionOwnerAction::CompleteFailure(reason),
        InsertionStatus::TargetInvalid => InsertionOwnerAction::CompleteTargetFallback,
        InsertionStatus::Ambiguous => InsertionOwnerAction::TerminalAmbiguous,
        InsertionStatus::Claimed => if deadline_reached {
            InsertionOwnerAction::TerminalAmbiguous
        } else {
            InsertionOwnerAction::Wait
        },
        InsertionStatus::Pending => if deadline_reached {
            InsertionOwnerAction::CancelPending
        } else {
            InsertionOwnerAction::Wait
        },
    }
}

/// Exact completions are published; a claimed insertion past its deadline,
/// or an ambiguous one, is terminal; an unclaimed one past its deadline is
/// cancelled; otherwise the owner waits.
pub fn insertion_owner_action(status: InsertionStatus, deadline_reached: bool) -> (action: InsertionOwnerAction)
    ensures
        action == spec_insertion_owner_action(status, deadline_reached),
{
    match status {
        InsertionStatus::Succeeded => InsertionOwnerAction::CompleteSuccess,
        InsertionStatus::Failed(reason) => InsertionOwnerAction::CompleteFailure(reason),
        InsertionStatus::TargetInvalid => InsertionOwnerAction::CompleteTargetFallback,
        InsertionStatus::Ambiguous => InsertionOwnerAction::TerminalAmbiguous,
        InsertionStatus::Claimed => if deadline_reached {
            InsertionOwnerAction::TerminalAmbiguous
        } else {
            InsertionOwnerAction::Wait
        },
        InsertionStatus::Pending => if deadline_reached {
            InsertionOwnerAction::CancelPending
        } else {
            InsertionOwnerAction::Wait
        },
    }
}

/// Once the deadline is reached the owner never waits: every insertion
/// status leads to a completion, a cancellation or a terminal close.
pub proof fn law_no_wait_after_deadline(status: InsertionStatus)
    ensures
        spec_insertion_owner_action(status, true) != InsertionOwnerAction::Wait,
{
}

/// A claimed insertion is never cancelled: the worker may already be
/// inserting, so past its deadline it is ambiguous.
pub proof fn law_claimed_insertion_is_never_cancelled(deadline_reached: bool)
    ensures
        spec_insertion_owner_action(InsertionStatus::Claimed, deadline_reached)
            != InsertionOwnerAction::CancelPending,
{
}

/// What the owner does with the pending paste when pastes are cancelled.
#[derive(Clone, Copy, Debug, PartialEq, Eq, Structural)]
pub enum PasteCancelAction {
    /// The insertion may have happened: close admission instead of reporting.
    CloseAmbiguousAdmission,
    /// Keep the command until its deadline.
    RetryLater,
    /// Try to cancel the unclaimed insertion; if that fails the worker won
    /// the claim and admission closes as ambiguous.
    CancelInsertion,
    /// Publish a committed success.
    CommitSuccess,
    /// Publish this failure.
    Finish(PasteFailure),
    /// The target became invalid: publish unavailable.
    FinishTargetFallback,
    /// The barrier is still unobserved before the deadline: cancel the
    /// command and retry later.
    CancelCommandAndRetry,
    /// The barrier was never observed: signal the injection facility as
    /// unavailable and publish unavailable.
    TerminalUnavailable,
}

pub open spec fn spec_paste_cancel_action(
    insertion: Option<InsertionStatus>,
    deadline_reached: bool,
    barrier_unobserved: bool,
) -> PasteCancelAction {
    match insertion {
        Some(InsertionStatus::Claimed) => PasteCancelAction::CloseAmbiguousAdmission,
        Some(InsertionStatus::Ambiguous) => PasteCancelAction::CloseAmbiguousAdmission,
        Some(InsertionStatus::Pending) => if !deadline_reached {
            PasteCancelAction::RetryLater
        } else {
            PasteCancelAction::CancelInsertion
        },
        Some(InsertionStatus::Succeeded) => PasteCancelAction::CommitSuccess,
        Some(InsertionStatus::Failed(reason)) => PasteCancelAction::Finish(reason),
        Some(InsertionStatus::TargetInvalid) => PasteCancelAction::FinishTargetFallback,
        None => if barrier_unobserved && !deadline_reached {
            PasteCancelAction::CancelCommandAndRetry
        } else if barrier_unobserved {
            PasteCancelAction::TerminalUnavailable
        } else {
            PasteCancelAction::Finish(PasteFailure::Unavailable)
        },
    }
}

/// Decides how a pending paste is cancelled from its insertion status, its
/// deadline and whether its barrier was posted but not yet observed.
pub fn paste_cancel_action(
    insertion: Option<InsertionStatus>,
    deadline_reached: bool,
    barrier_unobserved: bool,
) -> (action: PasteCancelAction)
    ensures
        action == spec_paste_cancel_action(insertion, deadline_reached, barrier_unobserved),
{
    match insertion {
        Some(InsertionStatus::Claimed) | Some(InsertionStatus::Ambiguous) => {
            PasteCancelAction::CloseAmbiguousAdmission
        },
        Some(InsertionStatus::Pending) => {
            if !deadline_reached {
                PasteCancelAction::RetryLater
            } else {
                PasteCancelAction::CancelInsertion
            }
        },
        Some(InsertionStatus::Succeeded) => PasteCancelAction::CommitSuccess,
        Some(InsertionStatus::Failed(reason)) => PasteCancelAction::Finish(reason),
        Some(InsertionStatus::TargetInvalid) => PasteCancelAction::FinishTargetFallback,
        None => {
            if barrier_unobserved && !deadline_reached {
                PasteCancelAction::CancelCommandAndRetry
            } else if barrier_unobserved {
                PasteCancelAction::TerminalUnavailable
            } else {
                PasteCancelAction::Finish(PasteFailure::Unavailable)
            }
        },
    }
}

/// Cancellation publishes what the insertion reported: a failed insertion
/// finishes with its own reason, and success is committed only for an
/// insertion that succeeded.
pub proof fn law_cancel_publishes_the_insertion_outcome(
    r: PasteFailure,
    insertion: Option<InsertionStatus>,
    deadline_reached: bool,
    barrier_unobserved: bool,
)
    ensures
        spec_paste_cancel_action(Some(InsertionStatus::Failed(r)), deadline_reached, barrier_unobserved)
            == PasteCancelAction::Finish(r),
        spec_paste_cancel_action(Some(InsertionStatus::Succeeded), deadline_reached, barrier_unobserved)
            == PasteCancelAction::CommitSuccess,
        spec_paste_cancel_action(insertion, deadline_reached, barrier_unobserved)
            == PasteCancelAction::CommitSuccess ==> insertion == Some(InsertionStatus::Succeeded),
{
}

/// Cancellation never reports success for an insertion that the worker may
/// still be performing.
pub proof fn law_cancel_never_reports_claimed_insertion(deadline_reached: bool, barrier_unobserved: bool)
    ensures
        spec_paste_cancel_action(Some(InsertionStatus::Claimed), deadline_reached, barrier_unobserved)
            == PasteCancelAction::CloseAmbiguousAdmission,
        spec_paste_cancel_action(Some(InsertionStatus::Ambiguous), deadline_reached, barrier_unobserved)
            == PasteCancelAction::CloseAmbiguousAdmission,
{
}

} // verus!
