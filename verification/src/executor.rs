//! Platform-neutral executor vocabulary: what executing one owner command
//! reports back.

use vstd::prelude::*;
use crate::adapter::{AdapterEventId, PasteRefusal};
use crate::identity::Bytes32;
use crate::capture_gate::SessionCaptureMode;

verus! {

/// What the executor reports for one command.
#[derive(Clone, Copy, PartialEq, Eq)]
pub enum ExecutorResult<O, F> {
    Applied,
    AdmissionClosed { through_event: Option<AdapterEventId> },
    PasteWaiting,
    PasteRefused(PasteRefusal),
    CandidateCancelled(O),
    Failed(F),
    /// The adapter returned a completion that cannot answer the dispatched
    /// effect. This fails closed and is distinct from a native failure.
    ContractViolation,
}

/// The token naming one native action of the owner state machine.
#[derive(Clone, Copy, Debug, PartialEq, Eq, Structural)]
pub struct NativeActionToken {
    pub value: u64,
}

/// The authorization a paste admission is granted under.
#[derive(Clone, Copy, Debug, PartialEq, Eq, Structural)]
pub struct PasteAuthorization {
    pub value: u64,
}

/// What a paste admission hands the native layer: its authorization, the
/// insertion target when one was resolved, and the SHA-256 of the fallback
/// text.
#[derive(Clone, Copy)]
pub struct PasteExecutorRequest {
    pub authorization: PasteAuthorization,
    pub target_token: Option<u64>,
    pub fallback_text_sha256: Bytes32,
}

/// An action the owner state machine requires of the executor. `C` is a
/// configuration request with its pre-held key fence and `M` a maintenance
/// record request; the executor carries both through unread.
#[derive(Clone, Copy)]
pub enum RequiredAction<C, M> {
    CloseFreshAdmission { token: NativeActionToken },
    EmergencyCloseFreshAdmission,
    OpenFreshAdmission { token: NativeActionToken },
    ApplySessionMode { token: NativeActionToken, mode: SessionCaptureMode },
    ApplyConfiguration { token: NativeActionToken, request: C },
    AdmitPaste { token: NativeActionToken, authorization: PasteAuthorization },
    CancelCandidate { token: NativeActionToken },
    CancelWaitingPaste { token: NativeActionToken, authorization: PasteAuthorization },
    PersistMaintenanceRecord { token: NativeActionToken, request: M },
    ContinueNativeDrain,
    StopNativeAdapter { token: NativeActionToken },
    ExitOwner,
}

/// One owner command: a state action, or a paste admission together with
/// the request it admits.
#[derive(Clone, Copy)]
pub enum ExecutorCommand<C, M> {
    State(RequiredAction<C, M>),
    AdmitPaste { action: RequiredAction<C, M>, request: PasteExecutorRequest },
}

impl<C: Copy, M: Copy> ExecutorCommand<C, M> {
    /// The action a command carries.
    pub fn action(self) -> (action: RequiredAction<C, M>)
        ensures
            action == (match self {
                ExecutorCommand::State(a) => a,
                ExecutorCommand::AdmitPaste { action, .. } => action,
            }),
    {
        match self {
            ExecutorCommand::State(action) => action,
            ExecutorCommand::AdmitPaste { action, .. } => action,
        }
    }
}

} // verus!
