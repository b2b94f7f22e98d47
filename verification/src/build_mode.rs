//! Compile-time keyboard-owner build identity.
//!
//! The build mode is fixed for a process. Only the local unsigned owner and the
//! test-seam builds enable the native capture gate by default; the safe build
//! lets every physical event pass through untouched.

use vstd::prelude::*;

verus! {

#[derive(Clone, Copy, Debug, PartialEq, Eq, Structural)]
pub enum OwnerBuildMode {
    SafeDisabled,
    LocalUnsignedOwner,
    TestSeam,
}

/// The marker text that identifies each build mode in packaged artifacts.
pub open spec fn spec_marker(mode: OwnerBuildMode) -> Seq<char> {
    match mode {
        OwnerBuildMode::SafeDisabled =>
            "TALKING_QUILL_KEYBOARD_OWNER=SAFE_DISABLED_ALL_PHYSICAL_EVENTS_PASS"@,
        OwnerBuildMode::LocalUnsignedOwner =>
            "TALKING_QUILL_KEYBOARD_OWNER=DEFAULT_ENABLED_OUT_OF_PROCESS_LOCAL_UNSIGNED"@,
        OwnerBuildMode::TestSeam =>
            "TALKING_QUILL_KEYBOARD_OWNER_TEST_SEAMS=ENABLED_SAFE_NON_PROMOTABLE"@,
    }
}

impl OwnerBuildMode {
    pub open spec fn spec_capture_enabled_by_default(self) -> bool {
        self == OwnerBuildMode::LocalUnsignedOwner || self == OwnerBuildMode::TestSeam
    }

    pub fn capture_enabled_by_default(self) -> (enabled: bool)
        ensures
            enabled == self.spec_capture_enabled_by_default(),
    {
        match self {
            OwnerBuildMode::LocalUnsignedOwner | OwnerBuildMode::TestSeam => true,
            OwnerBuildMode::SafeDisabled => false,
        }
    }

    pub fn is_local_unsigned_owner(self) -> (local: bool)
        ensures
            local == (self == OwnerBuildMode::LocalUnsignedOwner),
    {
        match self {
            OwnerBuildMode::LocalUnsignedOwner => true,
            _ => false,
        }
    }

    pub fn marker(self) -> (text: &'static str)
        ensures
            text@ == spec_marker(self),
    {
        match self {
            OwnerBuildMode::SafeDisabled => {
                "TALKING_QUILL_KEYBOARD_OWNER=SAFE_DISABLED_ALL_PHYSICAL_EVENTS_PASS"
            },
            OwnerBuildMode::LocalUnsignedOwner => {
                "TALKING_QUILL_KEYBOARD_OWNER=DEFAULT_ENABLED_OUT_OF_PROCESS_LOCAL_UNSIGNED"
            },
            OwnerBuildMode::TestSeam => {
                "TALKING_QUILL_KEYBOARD_OWNER_TEST_SEAMS=ENABLED_SAFE_NON_PROMOTABLE"
            },
        }
    }
}

/// This library is built without the local-owner or test-seam features, so
/// the process build mode is the safe, capture-disabled one.
pub const OWNER_BUILD_MODE: OwnerBuildMode = OwnerBuildMode::SafeDisabled;

/// Marker of `OWNER_BUILD_MODE`.
pub const OWNER_MODE_MARKER: &'static str = "TALKING_QUILL_KEYBOARD_OWNER=SAFE_DISABLED_ALL_PHYSICAL_EVENTS_PASS";

/// The local-owner profile name of this build.
pub open spec fn spec_local_owner_profile() -> Seq<char> {
    if OWNER_BUILD_MODE == OwnerBuildMode::LocalUnsignedOwner {
        "LOCAL_UNSIGNED_OWNER_UNSUPPORTED_TARGET"@
    } else {
        "NOT_LOCAL_UNSIGNED_OWNER"@
    }
}

/// Names the local unsigned owner profile. A build that is not the local
/// unsigned owner never claims one; this library supports no native target,
/// so a local owner build names the unsupported-target profile.
pub fn local_owner_profile() -> (profile: &'static str)
    ensures
        profile@ == spec_local_owner_profile(),
{
    if !OWNER_BUILD_MODE.is_local_unsigned_owner() {
        return "NOT_LOCAL_UNSIGNED_OWNER";
    }
    "LOCAL_UNSIGNED_OWNER_UNSUPPORTED_TARGET"
}

} // verus!
