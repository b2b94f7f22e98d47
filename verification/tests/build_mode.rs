use keyboard_owner::entry::{build_info, entry_command, EntryCommand};
use keyboard_owner::build_mode::{
    local_owner_profile, OwnerBuildMode, OWNER_BUILD_MODE, OWNER_MODE_MARKER,
};

#[test]
fn safe_build_is_the_default_mode() {
    assert_eq!(OWNER_BUILD_MODE, OwnerBuildMode::SafeDisabled);
    assert!(!OWNER_BUILD_MODE.capture_enabled_by_default());
    assert_eq!(OWNER_MODE_MARKER, OWNER_BUILD_MODE.marker());
    assert_eq!(local_owner_profile(), "NOT_LOCAL_UNSIGNED_OWNER");
}

#[test]
fn only_local_and_test_builds_capture_by_default() {
    assert!(!OwnerBuildMode::SafeDisabled.capture_enabled_by_default());
    assert!(OwnerBuildMode::LocalUnsignedOwner.capture_enabled_by_default());
    assert!(OwnerBuildMode::TestSeam.capture_enabled_by_default());
    assert!(OwnerBuildMode::LocalUnsignedOwner.is_local_unsigned_owner());
    assert!(!OwnerBuildMode::TestSeam.is_local_unsigned_owner());
}

#[test]
fn markers_name_each_mode() {
    assert_eq!(
        OwnerBuildMode::SafeDisabled.marker(),
        "TALKING_QUILL_KEYBOARD_OWNER=SAFE_DISABLED_ALL_PHYSICAL_EVENTS_PASS"
    );
    assert_eq!(
        OwnerBuildMode::LocalUnsignedOwner.marker(),
        "TALKING_QUILL_KEYBOARD_OWNER=DEFAULT_ENABLED_OUT_OF_PROCESS_LOCAL_UNSIGNED"
    );
    assert_eq!(
        OwnerBuildMode::TestSeam.marker(),
        "TALKING_QUILL_KEYBOARD_OWNER_TEST_SEAMS=ENABLED_SAFE_NON_PROMOTABLE"
    );
}

#[test]
fn entry_command_selects_by_exact_arguments() {
    assert_eq!(entry_command(&Vec::new()), EntryCommand::Owner);
    assert_eq!(
        entry_command(&vec!["--build-info".to_owned()]),
        EntryCommand::BuildInfo
    );
    assert_eq!(
        entry_command(&vec!["--runtime-smoke".to_owned()]),
        EntryCommand::RuntimeSmoke
    );
    assert_eq!(
        entry_command(&vec!["--build-info".to_owned(), "x".to_owned()]),
        EntryCommand::Usage
    );
    assert_eq!(entry_command(&vec!["--help".to_owned()]), EntryCommand::Usage);
}

#[test]
fn safe_build_report_never_claims_capture() {
    for rollback in [false, true] {
        let info = build_info(rollback).expect("safe build report");
        assert_eq!(info.profile, "SAFE_DISABLED_OWNER");
        assert_eq!(info.mode_marker, OWNER_MODE_MARKER);
        assert!(!info.capture_enabled);
        assert_eq!(info.runtime_rollback_active, rollback);
        assert!(!info.test_seams);
    }
}
