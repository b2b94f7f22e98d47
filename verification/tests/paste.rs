use keyboard_owner::paste::{
    claim_paste_injection, failed_paste, insertion_owner_action, modifier_wait_timed_out,
    paste_cancel_action, paste_check_disposition, paste_check_failure,
    paste_modifier_barrier_valid, test_modifier_barrier_contract, InsertionOwnerAction,
    InsertionStatus, PasteCancelAction, PasteCheckDisposition, PasteCommandState, PasteFailure,
    PastePostChecks, PasteResult,
};

fn passing() -> PastePostChecks {
    PastePostChecks {
        admission_open: true,
        before_deadline: true,
        before_injection_cutoff: true,
        modifiers_neutral: true,
        permissions_granted: true,
        secure_input_inactive: true,
        target_valid: true,
    }
}

#[test]
fn all_checks_passing_claims_injection_once() {
    let mut state = PasteCommandState::Waiting;
    assert_eq!(claim_paste_injection(&mut state, passing()), Ok(()));
    assert_eq!(state, PasteCommandState::Injecting);
    assert_eq!(
        claim_paste_injection(&mut state, passing()),
        Err(PasteFailure::Unavailable)
    );
    assert_eq!(state, PasteCommandState::Injecting);
}

#[test]
fn each_failed_check_has_its_reason() {
    let state = PasteCommandState::Waiting;
    assert_eq!(paste_check_failure(state, passing()), None);
    assert_eq!(
        paste_check_failure(PasteCommandState::Pending, passing()),
        Some(PasteFailure::Unavailable)
    );
    let cases = [
        (
            PastePostChecks { admission_open: false, ..passing() },
            PasteFailure::Unavailable,
        ),
        (
            PastePostChecks { before_deadline: false, ..passing() },
            PasteFailure::Unavailable,
        ),
        (
            PastePostChecks {
                before_injection_cutoff: false,
                modifiers_neutral: false,
                ..passing()
            },
            PasteFailure::ConflictingModifiers,
        ),
        (
            PastePostChecks { modifiers_neutral: false, ..passing() },
            PasteFailure::ConflictingModifiers,
        ),
        (
            PastePostChecks { permissions_granted: false, ..passing() },
            PasteFailure::PermissionDenied,
        ),
        (
            PastePostChecks { secure_input_inactive: false, ..passing() },
            PasteFailure::SecureInput,
        ),
        (
            PastePostChecks { target_valid: false, ..passing() },
            PasteFailure::Unavailable,
        ),
    ];
    for (checks, reason) in cases {
        assert_eq!(paste_check_failure(state, checks), Some(reason));
        let mut claimed = PasteCommandState::Waiting;
        assert_eq!(claim_paste_injection(&mut claimed, checks), Err(reason));
        assert_eq!(claimed, PasteCommandState::Waiting);
    }
}

#[test]
fn conflicting_modifiers_wait_until_the_cutoff() {
    assert_eq!(
        paste_check_disposition(PasteFailure::ConflictingModifiers, true),
        PasteCheckDisposition::WaitForNeutralModifiers
    );
    assert_eq!(
        paste_check_disposition(PasteFailure::ConflictingModifiers, false),
        PasteCheckDisposition::Finish {
            reason: PasteFailure::ConflictingModifiers,
            modifier_timeout: true
        }
    );
    assert_eq!(
        paste_check_disposition(PasteFailure::SecureInput, true),
        PasteCheckDisposition::Finish {
            reason: PasteFailure::SecureInput,
            modifier_timeout: false
        }
    );
    assert!(modifier_wait_timed_out(PasteFailure::ConflictingModifiers, false));
    assert!(!modifier_wait_timed_out(PasteFailure::ConflictingModifiers, true));
    assert!(!modifier_wait_timed_out(PasteFailure::Unavailable, false));
}

#[test]
fn modifier_barrier_requires_exact_epoch_and_neutral_state() {
    assert!(test_modifier_barrier_contract());
    assert!(paste_modifier_barrier_valid(Some(9), 9, true, true, true));
    assert!(!paste_modifier_barrier_valid(Some(9), 10, true, true, true));
    assert!(!paste_modifier_barrier_valid(None, 9, true, true, true));
    assert!(!paste_modifier_barrier_valid(Some(9), 9, false, true, true));
}

#[test]
fn insertion_actions_follow_status_and_deadline() {
    assert_eq!(
        insertion_owner_action(InsertionStatus::Succeeded, false),
        InsertionOwnerAction::CompleteSuccess
    );
    assert_eq!(
        insertion_owner_action(InsertionStatus::Failed(PasteFailure::OsRejected), false),
        InsertionOwnerAction::CompleteFailure(PasteFailure::OsRejected)
    );
    assert_eq!(
        insertion_owner_action(InsertionStatus::TargetInvalid, true),
        InsertionOwnerAction::CompleteTargetFallback
    );
    assert_eq!(
        insertion_owner_action(InsertionStatus::Ambiguous, false),
        InsertionOwnerAction::TerminalAmbiguous
    );
    assert_eq!(
        insertion_owner_action(InsertionStatus::Claimed, false),
        InsertionOwnerAction::Wait
    );
    assert_eq!(
        insertion_owner_action(InsertionStatus::Claimed, true),
        InsertionOwnerAction::TerminalAmbiguous
    );
    assert_eq!(
        insertion_owner_action(InsertionStatus::Pending, false),
        InsertionOwnerAction::Wait
    );
    assert_eq!(
        insertion_owner_action(InsertionStatus::Pending, true),
        InsertionOwnerAction::CancelPending
    );
}

#[test]
fn cancellation_never_reports_a_possible_insertion() {
    for deadline in [false, true] {
        for barrier in [false, true] {
            assert_eq!(
                paste_cancel_action(Some(InsertionStatus::Claimed), deadline, barrier),
                PasteCancelAction::CloseAmbiguousAdmission
            );
            assert_eq!(
                paste_cancel_action(Some(InsertionStatus::Ambiguous), deadline, barrier),
                PasteCancelAction::CloseAmbiguousAdmission
            );
        }
    }
    assert_eq!(
        paste_cancel_action(Some(InsertionStatus::Pending), false, false),
        PasteCancelAction::RetryLater
    );
    assert_eq!(
        paste_cancel_action(Some(InsertionStatus::Pending), true, false),
        PasteCancelAction::CancelInsertion
    );
    assert_eq!(
        paste_cancel_action(None, false, true),
        PasteCancelAction::CancelCommandAndRetry
    );
    assert_eq!(
        paste_cancel_action(None, true, true),
        PasteCancelAction::TerminalUnavailable
    );
    assert_eq!(
        paste_cancel_action(None, true, false),
        PasteCancelAction::Finish(PasteFailure::Unavailable)
    );
    assert_eq!(
        paste_cancel_action(Some(InsertionStatus::Succeeded), false, false),
        PasteCancelAction::CommitSuccess
    );
}

#[test]
fn failed_paste_carries_its_reason() {
    assert_eq!(
        failed_paste(PasteFailure::SecureInput),
        PasteResult {
            submitted: false,
            reason: Some(PasteFailure::SecureInput)
        }
    );
}
