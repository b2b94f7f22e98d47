//! Process-lifetime gate for every native keyboard-suppression facility.
//!
//! The capture gate is one-way for a helper process: a closed gate can never be
//! reopened by protocol traffic. It filters activation capture and session
//! Escape/Enter capture before either can reach a native owner. Either of
//! two independent controls closes it, and neither can override the other.

use vstd::prelude::*;
use crate::build_mode::OWNER_BUILD_MODE;

verus! {

/// Which session keys (Escape/Enter) a native owner may capture.
#[derive(Clone, Copy, Debug, PartialEq, Eq, Structural)]
pub enum SessionCaptureMode {
    Off,
    Recording,
}

#[derive(Clone, Copy, Debug, PartialEq, Eq)]
pub struct ActivationCaptureGate {
    open: bool,
    runtime_rollback: bool,
    development_disabled: bool,
}

impl ActivationCaptureGate {
    /// An open gate has neither control set. Every constructor keeps it.
    pub closed spec fn wf(&self) -> bool {
        self.open ==> !self.runtime_rollback && !self.development_disabled
    }

    pub closed spec fn spec_open(&self) -> bool {
        self.open
    }

    pub closed spec fn spec_runtime_rollback(&self) -> bool {
        self.runtime_rollback
    }

    pub closed spec fn spec_development_disabled(&self) -> bool {
        self.development_disabled
    }

    /// An open gate has neither control set.
    pub proof fn lemma_open_means_no_control(&self)
        requires
            self.wf(),
        ensures
            self.spec_open() ==> !self.spec_runtime_rollback() && !self.spec_development_disabled(),
    {
    }

    /// Safe production default: no physical keyboard event may be suppressed.
    pub fn closed() -> (gate: Self)
        ensures
            gate.wf(),
            !gate.spec_open(),
            gate.spec_development_disabled(),
            !gate.spec_runtime_rollback(),
    {
        Self::from_controls(true, false)
    }

    /// Explicit seam for protocol and native behavior harnesses.
    pub fn open_for_test_harness() -> (gate: Self)
        ensures
            gate.wf(),
            gate.spec_open(),
            !gate.spec_development_disabled(),
            !gate.spec_runtime_rollback(),
    {
        Self::from_controls(false, false)
    }

    /// Explicit seam for closed-gate observability combinations.
    pub fn closed_for_test_harness(runtime_rollback: bool, development_disabled: bool) -> (gate: Self)
        ensures
            gate.wf(),
            !gate.spec_open(),
            gate.spec_runtime_rollback() == runtime_rollback,
            gate.spec_development_disabled() == development_disabled,
    {
        ActivationCaptureGate { open: false, runtime_rollback, development_disabled }
    }

    /// Resolves the independent development and runtime rollback controls.
    /// Either control closes capture; neither can override the other.
    pub fn from_controls(transactional_development_build: bool, runtime_rollback: bool) -> (gate: Self)
        ensures
            gate.wf(),
            gate.spec_open() == (!transactional_development_build && !runtime_rollback),
            gate.spec_runtime_rollback() == runtime_rollback,
            gate.spec_development_disabled() == transactional_development_build,
    {
        ActivationCaptureGate {
            open: !transactional_development_build && !runtime_rollback,
            runtime_rollback,
            development_disabled: transactional_development_build,
        }
    }

    /// Resolves the process gate from the fixed build mode and the runtime
    /// rollback switch. The rollback can close a default-enabled build but
    /// can never open a build whose capture is disabled by default.
    pub fn for_process_with_rollback(runtime_rollback: bool) -> (gate: Self)
        ensures
            gate.wf(),
            gate.spec_open() == (OWNER_BUILD_MODE.spec_capture_enabled_by_default() && !runtime_rollback),
            gate.spec_runtime_rollback() == runtime_rollback,
            gate.spec_development_disabled() == !OWNER_BUILD_MODE.spec_capture_enabled_by_default(),
    {
        Self::from_controls(!OWNER_BUILD_MODE.capture_enabled_by_default(), runtime_rollback)
    }

    pub fn is_open(self) -> (open: bool)
        ensures
            open == self.spec_open(),
    {
        self.open
    }

    pub fn runtime_rollback_active(self) -> (active: bool)
        ensures
            active == self.spec_runtime_rollback(),
    {
        self.runtime_rollback
    }

    pub fn development_disabled(self) -> (disabled: bool)
        ensures
            disabled == self.spec_development_disabled(),
    {
        self.development_disabled
    }

    pub open spec fn spec_filter_enabled(self, requested: bool) -> bool {
        self.spec_open() && requested
    }

    pub open spec fn spec_filter_session_mode(self, requested: SessionCaptureMode) -> SessionCaptureMode {
        if self.spec_open() { requested } else { SessionCaptureMode::Off }
    }

    /// The only activation state that may cross into a native owner.
    pub fn filter_enabled(self, requested: bool) -> (enabled: bool)
        ensures
            enabled == self.spec_filter_enabled(requested),
    {
        self.open && requested
    }

    /// The only session capture mode that may cross into a native owner.
    pub fn filter_session_mode(self, requested: SessionCaptureMode) -> (mode: SessionCaptureMode)
        ensures
            mode == self.spec_filter_session_mode(requested),
    {
        if self.open {
            requested
        } else {
            SessionCaptureMode::Off
        }
    }
}

impl Default for ActivationCaptureGate {
    /// Generic construction never grants capture authority.
    fn default() -> (gate: Self)
        ensures
            gate.wf(),
            !gate.spec_open(),
            gate.spec_development_disabled(),
            !gate.spec_runtime_rollback(),
    {
        Self::closed()
    }
}

/// Either control closes the all-or-nothing gate, and a closed gate lets no
/// activation or session capture through; an open gate never enables what
/// was not requested.
pub proof fn law_either_control_closes_gate(gate: ActivationCaptureGate, requested: bool, mode: SessionCaptureMode)
    requires
        gate.wf(),
    ensures
        gate.spec_runtime_rollback() || gate.spec_development_disabled() ==> !gate.spec_open(),
        !gate.spec_open() ==> !gate.spec_filter_enabled(requested)
            && gate.spec_filter_session_mode(mode) == SessionCaptureMode::Off,
        gate.spec_filter_enabled(requested) ==> requested,
        !requested ==> !gate.spec_filter_enabled(requested),
{
    gate.lemma_open_means_no_control();
}

} // verus!
