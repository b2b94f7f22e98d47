//! Command-line selection and the build report of the owner executable.

use vstd::prelude::*;
use vstd::string::*;
use crate::build_mode::{
    OwnerBuildMode, OWNER_BUILD_MODE, OWNER_MODE_MARKER, local_owner_profile,
    spec_local_owner_profile, spec_marker,
};
use crate::capture_gate::ActivationCaptureGate;

verus! {

/// What the executable was asked to do.
#[derive(Clone, Copy, Debug, PartialEq, Eq, Structural)]
pub enum EntryCommand {
    /// Print the build report.
    BuildInfo,
    /// Run the runtime smoke check.
    RuntimeSmoke,
    /// Run the owner.
    Owner,
    /// Anything else: print usage.
    Usage,
}

pub open spec fn spec_entry_command(arguments: Seq<Seq<char>>) -> EntryCommand {
    if arguments.len() == 0 {
        EntryCommand::Owner
    } else if arguments.len() == 1 && arguments[0] == "--build-info"@ {
        EntryCommand::BuildInfo
    } else if arguments.len() == 1 && arguments[0] == "--runtime-smoke"@ {
        EntryCommand::RuntimeSmoke
    } else {
        EntryCommand::Usage
    }
}

/// Selects the command from the arguments after the executable name.
pub fn entry_command(arguments: &Vec<String>) -> (command: EntryCommand)
    ensures
        command == spec_entry_command(arguments@.map_values(|a: String| a@)),
{
    let ghost texts = arguments@.map_values(|a: String| a@);
    if arguments.len() == 0 {
        return EntryCommand::Owner;
    }
    if arguments.len() != 1 {
        return EntryCommand::Usage;
    }
    assert(texts[0] == arguments@[0]@);
    let build_info = String::from_str("--build-info");
    let smoke = String::from_str("--runtime-smoke");
    if arguments[0] == build_info {
        EntryCommand::BuildInfo
    } else if arguments[0] == smoke {
        EntryCommand::RuntimeSmoke
    } else {
        EntryCommand::Usage
    }
}

/// The build report printed by `--build-info`.
#[derive(Clone, Copy, Debug, PartialEq, Eq)]
pub struct BuildInfo {
    pub profile: &'static str,
    pub mode_marker: &'static str,
    pub capture_enabled: bool,
    pub runtime_rollback_active: bool,
    pub test_seams: bool,
}

/// The profile named in the report: the local profile for a local unsigned
/// owner build, the safe-disabled profile otherwise.
pub open spec fn spec_report_profile() -> Seq<char> {
    if OWNER_BUILD_MODE == OwnerBuildMode::LocalUnsignedOwner {
        spec_local_owner_profile()
    } else {
        "SAFE_DISABLED_OWNER"@
    }
}

/// A local unsigned owner build for a target without a local profile has no
/// report.
pub open spec fn report_available() -> bool {
    !(OWNER_BUILD_MODE == OwnerBuildMode::LocalUnsignedOwner && spec_local_owner_profile()
        == "LOCAL_UNSIGNED_OWNER_UNSUPPORTED_TARGET"@)
}

/// The build report under the process rollback control.
pub fn build_info(runtime_rollback: bool) -> (info: Option<BuildInfo>)
    ensures
        info is Some <==> report_available(),
        info matches Some(report) ==> {
            &&& report.profile@ == spec_report_profile()
            &&& report.mode_marker@ == spec_marker(OWNER_BUILD_MODE)
            &&& report.capture_enabled == (OWNER_BUILD_MODE.spec_capture_enabled_by_default()
                && !runtime_rollback)
            &&& report.runtime_rollback_active == runtime_rollback
            &&& report.test_seams == (OWNER_BUILD_MODE == OwnerBuildMode::TestSeam)
        },
{
    let gate = ActivationCaptureGate::for_process_with_rollback(runtime_rollback);
    let local_profile = local_owner_profile();
    let local = OWNER_BUILD_MODE.is_local_unsigned_owner();
    if local {
        let profile_text = String::from_str(local_profile);
        let unsupported = String::from_str("LOCAL_UNSIGNED_OWNER_UNSUPPORTED_TARGET");
        if profile_text == unsupported {
            return None;
        }
    }
    let test_seams = match OWNER_BUILD_MODE {
        OwnerBuildMode::TestSeam => true,
        _ => false,
    };
    Some(
        BuildInfo {
            profile: if local {
                local_profile
            } else {
                "SAFE_DISABLED_OWNER"
            },
            mode_marker: OWNER_MODE_MARKER,
            capture_enabled: gate.is_open(),
            runtime_rollback_active: gate.runtime_rollback_active(),
            test_seams,
        },
    )
}

/// The safe build never reports capture as enabled, whatever the rollback
/// control says.
pub proof fn law_safe_build_never_reports_capture(runtime_rollback: bool)
    requires
        OWNER_BUILD_MODE == OwnerBuildMode::SafeDisabled,
    ensures
        !(OWNER_BUILD_MODE.spec_capture_enabled_by_default() && !runtime_rollback),
{
}

} // verus!
