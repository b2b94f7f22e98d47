//! Removed-install cleanup decisions.
//!
//! A durable poison marker keeps capture closed across retries and relaunches
//! until every owned artifact is gone. After a crash or reboot, cleanup may
//! finish without the app bundle only when both fixed Keychain items are
//! already absent: their deletion requires an authenticated unregister proof,
//! so their absence shows native cleanup already crossed that boundary.

use vstd::prelude::*;

verus! {

/// What to do with a poisoned removal when the bundle policy is gone.
#[derive(Clone, Copy, Debug, PartialEq, Eq, Structural)]
pub enum PreconfigCleanup {
    FinishWithoutBundle,
    RetryAfterReinstall,
}

/// Finishes without the bundle only when the fixed Keychain items are
/// absent; otherwise the poison stays for a later reinstall to retry.
pub fn preconfig_cleanup_decision(fixed_items_absent: bool) -> (decision: PreconfigCleanup)
    ensures
        decision == (if fixed_items_absent {
            PreconfigCleanup::FinishWithoutBundle
        } else {
            PreconfigCleanup::RetryAfterReinstall
        }),
{
    if fixed_items_absent {
        PreconfigCleanup::FinishWithoutBundle
    } else {
        PreconfigCleanup::RetryAfterReinstall
    }
}

} // verus!
