use keyboard_owner::build_mode::OWNER_BUILD_MODE;
use keyboard_owner::capture_gate::{ActivationCaptureGate, SessionCaptureMode};

#[test]
fn either_control_closes_the_all_or_nothing_gate() {
    for (development, rollback, expected_open) in [
        (false, false, true),
        (false, true, false),
        (true, false, false),
        (true, true, false),
    ] {
        let gate = ActivationCaptureGate::from_controls(development, rollback);
        assert_eq!(gate.is_open(), expected_open);
        assert_eq!(gate.filter_enabled(true), expected_open);
        assert!(!gate.filter_enabled(false));
        assert_eq!(
            gate.filter_session_mode(SessionCaptureMode::Recording),
            if expected_open {
                SessionCaptureMode::Recording
            } else {
                SessionCaptureMode::Off
            }
        );
    }
}

#[test]
fn safe_build_disable_never_falls_back_to_legacy_capture() {
    let gate = ActivationCaptureGate::closed();
    assert!(!gate.is_open());
    assert!(gate.development_disabled());
}

#[test]
fn opening_requires_the_explicit_test_harness_seam() {
    assert!(ActivationCaptureGate::open_for_test_harness().is_open());
}

#[test]
fn default_gate_never_grants_capture_authority() {
    assert!(!ActivationCaptureGate::default().is_open());
    assert!(ActivationCaptureGate::default().development_disabled());
}

#[test]
fn process_gate_follows_build_mode_and_rollback() {
    for rollback in [false, true] {
        let gate = ActivationCaptureGate::for_process_with_rollback(rollback);
        assert_eq!(
            gate.is_open(),
            OWNER_BUILD_MODE.capture_enabled_by_default() && !rollback
        );
        assert_eq!(gate.runtime_rollback_active(), rollback);
    }
}

#[test]
fn closed_harness_gate_reports_both_controls() {
    let gate = ActivationCaptureGate::closed_for_test_harness(true, false);
    assert!(!gate.is_open());
    assert!(gate.runtime_rollback_active());
    assert!(!gate.development_disabled());
    assert_eq!(
        gate.filter_session_mode(SessionCaptureMode::Recording),
        SessionCaptureMode::Off
    );
}
