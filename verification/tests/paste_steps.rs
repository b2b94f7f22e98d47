use keyboard_owner::native_event::{K_CG_EVENT_KEY_DOWN, K_CG_EVENT_KEY_UP};
use keyboard_owner::paste::{InsertionStatus, PasteCommandState, PasteFailure, PastePostChecks};
use keyboard_owner::paste_steps::{
    barrier_prerequisite, barrier_record, cancelled_insertion_step, claim_paste_command,
    install_claimed_paste, paste_barrier_observation_step, paste_barrier_without_command,
    poll_pending_paste_step, target_validation_step, BarrierCompletionView, BarrierRecord,
    PasteBarrierStep, PasteClaim, PastePollAction, PendingPasteView, PollNote, TargetValidation,
    TargetValidationStep,
};

fn passing_checks() -> PastePostChecks {
    PastePostChecks {
        admission_open: true,
        before_deadline: true,
        before_injection_cutoff: true,
        modifiers_neutral: true,
        permissions_granted: true,
        secure_input_inactive: true,
        target_valid: false,
    }
}

fn waiting_view() -> PendingPasteView {
    PendingPasteView {
        state: PasteCommandState::Waiting,
        insertion: None,
        deadline_reached: false,
        barrier_posted: false,
        barrier_complete: false,
        checks: passing_checks(),
        target_validated: true,
        epochs_complete: true,
        target_cache_available: true,
        barrier_token_set: false,
    }
}

#[test]
fn paste_commands_are_claimed_once_while_admission_is_open() {
    let mut state = PasteCommandState::Pending;
    assert_eq!(claim_paste_command(&mut state, false, true, true), PasteClaim::Cancelled);
    assert_eq!(state, PasteCommandState::Pending);
    assert_eq!(claim_paste_command(&mut state, true, true, false), PasteClaim::Cancelled);
    assert_eq!(state, PasteCommandState::Waiting);
    assert_eq!(claim_paste_command(&mut state, true, true, true), PasteClaim::NotClaimed);
    let mut fresh = PasteCommandState::Pending;
    assert_eq!(claim_paste_command(&mut fresh, true, true, true), PasteClaim::Claimed);
    assert_eq!(fresh, PasteCommandState::Waiting);
    assert!(install_claimed_paste(&mut fresh, true, true));
    assert_eq!(fresh, PasteCommandState::Waiting);
    assert!(!install_claimed_paste(&mut fresh, true, false));
    assert_eq!(fresh, PasteCommandState::Applied);
}

#[test]
fn polling_follows_recovery_insertion_and_checks() {
    let view = waiting_view();
    let step = poll_pending_paste_step(true, Some(view));
    assert_eq!(step.action, PastePollAction::ArmMaintenance);
    assert_eq!(poll_pending_paste_step(false, None).action, PastePollAction::Idle);
    let injecting = PendingPasteView {
        state: PasteCommandState::Injecting,
        insertion: Some(InsertionStatus::Succeeded),
        ..view
    };
    assert_eq!(poll_pending_paste_step(false, Some(injecting)).action, PastePollAction::CommitSuccess);
    let pending_past_deadline = PendingPasteView {
        insertion: Some(InsertionStatus::Pending),
        deadline_reached: true,
        ..injecting
    };
    assert_eq!(
        poll_pending_paste_step(false, Some(pending_past_deadline)).action,
        PastePollAction::CancelInsertion
    );
    let unobserved = PendingPasteView { barrier_posted: true, ..view };
    assert_eq!(poll_pending_paste_step(false, Some(unobserved)).action, PastePollAction::Idle);
    let late = PendingPasteView { deadline_reached: true, ..unobserved };
    assert_eq!(
        poll_pending_paste_step(false, Some(late)).action,
        PastePollAction::Finish { reason: PasteFailure::Unavailable, note: PollNote::Nothing }
    );
    let held = PendingPasteView {
        checks: PastePostChecks { modifiers_neutral: false, ..passing_checks() },
        ..view
    };
    let step = poll_pending_paste_step(false, Some(held));
    assert_eq!(step.action, PastePollAction::WaitForNeutralModifiers);
    assert!(!step.modifiers_settled);
    let held_late = PendingPasteView {
        checks: PastePostChecks {
            modifiers_neutral: false,
            before_injection_cutoff: false,
            ..passing_checks()
        },
        ..view
    };
    assert_eq!(
        poll_pending_paste_step(false, Some(held_late)).action,
        PastePollAction::Finish {
            reason: PasteFailure::ConflictingModifiers,
            note: PollNote::ModifierTimeout
        }
    );
    let unvalidated = PendingPasteView { target_validated: false, ..view };
    assert_eq!(poll_pending_paste_step(false, Some(unvalidated)).action, PastePollAction::ValidateTarget);
    let step = poll_pending_paste_step(false, Some(view));
    assert_eq!(step.action, PastePollAction::PrepareInsertion);
    assert!(step.modifiers_settled);
    let posted = PendingPasteView { barrier_token_set: true, ..view };
    assert_eq!(poll_pending_paste_step(false, Some(posted)).action, PastePollAction::ArmMaintenance);
    let no_cache = PendingPasteView { target_cache_available: false, ..view };
    assert_eq!(
        poll_pending_paste_step(false, Some(no_cache)).action,
        PastePollAction::Finish { reason: PasteFailure::Unavailable, note: PollNote::Nothing }
    );
}

#[test]
fn validation_cancellation_and_barrier_preparation() {
    assert_eq!(target_validation_step(TargetValidation::Pending), TargetValidationStep::Wait);
    assert_eq!(
        target_validation_step(TargetValidation::Invalid),
        TargetValidationStep::Finish {
            reason: PasteFailure::Unavailable,
            note: PollNote::TargetValidationFallback
        }
    );
    assert_eq!(
        target_validation_step(TargetValidation::Valid { epoch: 1, boundary_epoch: 2, selected_range_epoch: 3 }),
        TargetValidationStep::Record { epoch: 1, boundary_epoch: 2, selected_range_epoch: 3 }
    );
    assert_eq!(cancelled_insertion_step(false), PastePollAction::ArmMaintenance);
    assert_eq!(barrier_prerequisite(true, true, Some(8)), Ok(8));
    assert_eq!(barrier_prerequisite(true, true, None), Err(PasteFailure::ConflictingModifiers));
    assert_eq!(barrier_prerequisite(false, true, Some(8)), Err(PasteFailure::Unavailable));
    assert_eq!(
        barrier_record(Some(44), 8),
        Ok(BarrierRecord { neutral_modifier_epoch: 8, barrier_state: 0, barrier_token: 44 })
    );
    assert_eq!(barrier_record(None, 8), Err(PasteFailure::OsRejected));
}

fn completion() -> BarrierCompletionView {
    BarrierCompletionView {
        epochs_complete: true,
        target_cache_available: true,
        handle_current: true,
        expected_modifier_epoch: Some(8),
        neutral_tracker_epoch: Some(8),
        native_modifiers_neutral: true,
        lease_available: true,
        admission_open: true,
        before_deadline: true,
        before_injection_cutoff: true,
        secure_input_inactive: true,
        insertion_prepared: true,
    }
}

#[test]
fn the_exact_barrier_pair_claims_injection() {
    let mut barrier = 0u8;
    let mut state = PasteCommandState::Waiting;
    assert_eq!(
        paste_barrier_observation_step(&mut barrier, &mut state, K_CG_EVENT_KEY_DOWN, 127, false, 0, completion()),
        PasteBarrierStep::AwaitUp
    );
    assert_eq!(barrier, 1);
    assert_eq!(
        paste_barrier_observation_step(&mut barrier, &mut state, K_CG_EVENT_KEY_UP, 127, false, 0, completion()),
        PasteBarrierStep::SubmitInsertion
    );
    assert_eq!(barrier, 2);
    assert_eq!(state, PasteCommandState::Injecting);
}

#[test]
fn a_wrong_barrier_or_stale_epoch_fails_the_paste() {
    let mut barrier = 0u8;
    let mut state = PasteCommandState::Waiting;
    assert_eq!(
        paste_barrier_observation_step(&mut barrier, &mut state, K_CG_EVENT_KEY_UP, 127, false, 0, completion()),
        PasteBarrierStep::Forged
    );
    assert_eq!(
        paste_barrier_observation_step(&mut barrier, &mut state, K_CG_EVENT_KEY_DOWN, 126, false, 0, completion()),
        PasteBarrierStep::Forged
    );
    assert_eq!(barrier, 0);
    let _ = paste_barrier_observation_step(&mut barrier, &mut state, K_CG_EVENT_KEY_DOWN, 127, false, 0, completion());
    let stale = BarrierCompletionView { neutral_tracker_epoch: Some(9), ..completion() };
    assert_eq!(
        paste_barrier_observation_step(&mut barrier, &mut state, K_CG_EVENT_KEY_UP, 127, false, 0, stale),
        PasteBarrierStep::Fail { reason: PasteFailure::ConflictingModifiers, target_fallback: false }
    );
    assert_eq!(state, PasteCommandState::Waiting);
    assert_eq!(paste_barrier_without_command(false), PasteBarrierStep::Unreadable);
    assert_eq!(paste_barrier_without_command(true), PasteBarrierStep::Forged);
}
