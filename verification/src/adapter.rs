//! Platform-neutral broker semantic boundary between the owner executor and
//! a native adapter.
//!
//! Adapter events must arrive with consecutive ids starting at one; the first
//! gap or repeat is a sticky fault. Effects that would open native capture are
//! refused while the activation capture gate is closed, and every adapter
//! completion is checked against the effect it answers.

use vstd::prelude::*;
use crate::capture_gate::{ActivationCaptureGate, SessionCaptureMode};
use crate::identity::Bytes32;
use crate::build_mode::OWNER_BUILD_MODE;
use crate::executor::{
    ExecutorCommand, ExecutorResult, NativeActionToken, PasteAuthorization, PasteExecutorRequest,
    RequiredAction,
};

verus! {

/// Opaque, adapter-local correlation for one semantic event; never zero.
#[derive(Clone, Copy, PartialEq, Eq, Hash)]
pub struct AdapterEventId {
    value: u64,
}

impl AdapterEventId {
    #[verifier::type_invariant]
    spec fn nonzero(&self) -> bool {
        self.value != 0
    }

    pub closed spec fn spec_get(&self) -> u64 {
        self.value
    }

    /// An id for any nonzero value.
    pub fn new(value: u64) -> (id: Option<AdapterEventId>)
        ensures
            id is Some <==> value != 0,
            id is Some ==> id->Some_0.spec_get() == value,
    {
        if value == 0 {
            None
        } else {
            Some(AdapterEventId { value })
        }
    }

    pub fn get(self) -> (value: u64)
        ensures
            value == self.spec_get(),
            value != 0,
    {
        proof {
            use_type_invariant(&self);
        }
        self.value
    }

    /// The diagnostic form of an id, which never shows its value.
    pub fn redacted_debug(&self) -> (text: &'static str)
        ensures
            text@ == "AdapterEventId(<redacted>)"@,
    {
        "AdapterEventId(<redacted>)"
    }
}

/// One event plus its adapter-local completion correlation. The owner
/// acknowledges every polled envelope exactly once.
#[derive(Clone, Copy)]
pub struct AdapterEvent<E> {
    id: AdapterEventId,
    event: E,
}

impl<E: Copy> AdapterEvent<E> {
    pub closed spec fn spec_id(&self) -> AdapterEventId {
        self.id
    }

    pub closed spec fn spec_event(&self) -> E {
        self.event
    }

    pub fn new(id: AdapterEventId, event: E) -> (envelope: Self)
        ensures
            envelope.spec_id() == id,
            envelope.spec_event() == event,
    {
        AdapterEvent { id, event }
    }

    pub fn id(self) -> (id: AdapterEventId)
        ensures
            id == self.spec_id(),
    {
        self.id
    }

    pub fn event(self) -> (event: E)
        ensures
            event == self.spec_event(),
    {
        self.event
    }

    /// The diagnostic form of an envelope, which shows neither field.
    pub fn redacted_debug(&self) -> (text: &'static str)
        ensures
            text@ == "AdapterEvent(<redacted>)"@,
    {
        "AdapterEvent(<redacted>)"
    }
}

/// What the native layer reports about its readiness.
#[derive(Clone, Copy, Debug, PartialEq, Eq, Structural)]
pub struct NativeReadiness {
    pub keyboard_build_eligible: bool,
    pub paste_ready: bool,
    pub permissions_eligible: bool,
    pub hook_healthy: bool,
}

/// A semantic event from the adapter, as far as the executor reads it: a
/// readiness change, which the capture gate masks, or any other event,
/// whose payload is carried unchanged.
#[derive(Clone, Copy, Debug, PartialEq, Eq, Structural)]
pub enum BrokerEvent<P> {
    ReadinessChanged(NativeReadiness),
    Other(P),
}

/// Readiness as the executor reports it: keyboard build eligibility only
/// while the capture gate is open, everything else as the adapter said.
pub open spec fn gated_readiness(gate_open: bool, readiness: NativeReadiness) -> NativeReadiness {
    NativeReadiness { keyboard_build_eligible: readiness.keyboard_build_eligible && gate_open, ..readiness }
}

/// An adapter event as the executor passes it on: a readiness change is
/// masked by the capture gate, any other event is unchanged.
pub open spec fn gated_event<P>(gate_open: bool, event: BrokerEvent<P>) -> BrokerEvent<P> {
    match event {
        BrokerEvent::ReadinessChanged(readiness) => BrokerEvent::ReadinessChanged(
            gated_readiness(gate_open, readiness),
        ),
        BrokerEvent::Other(payload) => BrokerEvent::Other(payload),
    }
}

/// One-shot paste completion after the adapter has already reported claim.
#[derive(Clone, Copy, Debug, PartialEq, Eq, Structural)]
pub enum PasteCommitOutcome {
    Committed,
    Indeterminate,
}

/// Stable reasons returned to the adapter when an event was not admitted.
#[derive(Clone, Copy, Debug, PartialEq, Eq, Structural)]
pub enum AdapterEventRejection {
    AdmissionClosed,
    StaleScope,
    Capacity,
    DeliveryFailed,
    InvalidTransition,
}

#[derive(Clone, Copy, Debug, PartialEq, Eq, Structural)]
pub enum AdapterEventDisposition {
    Accepted,
    Rejected(AdapterEventRejection),
}

#[derive(Clone, Copy, Debug, PartialEq, Eq, Structural)]
pub enum NativeAdapterPump {
    Empty,
    ClosePending,
    Processed(AdapterEventDisposition),
}

/// Privacy-safe categories for a paste refusal that occurred before native
/// injection authority was claimed.
#[derive(Clone, Copy, Debug, PartialEq, Eq, Structural)]
pub enum PasteRefusal {
    PermissionDenied,
    ConflictingModifiers,
    SecureInput,
    TargetUnavailable,
    ClipboardChanged,
    NativeUnavailable,
    NativeRejected,
}

/// Data-free discriminator of a native effect.
#[derive(Clone, Copy, Debug, PartialEq, Eq, Structural)]
pub enum NativeEffectKind {
    CloseFreshAdmission,
    EmergencyCloseFreshAdmission,
    OpenFreshAdmission,
    ApplySessionMode,
    ApplyConfiguration,
    AdmitPaste,
    CancelCandidate,
    CancelWaitingPaste,
    PersistMaintenanceRecord,
    ContinueNativeDrain,
    StopNativeAdapter,
}

/// The exact effect handed to the native adapter, with every token, mode,
/// request and authorization it carries. `C` and `M` are the configuration
/// and maintenance requests, carried through unread.
#[derive(Clone, Copy)]
pub enum NativeEffect<C, M> {
    CloseFreshAdmission { token: NativeActionToken },
    EmergencyCloseFreshAdmission,
    OpenFreshAdmission { token: NativeActionToken },
    ApplySessionMode { token: NativeActionToken, mode: SessionCaptureMode },
    ApplyConfiguration { token: NativeActionToken, request: C },
    AdmitPaste { token: NativeActionToken, request: PasteExecutorRequest },
    CancelCandidate { token: NativeActionToken },
    CancelWaitingPaste { token: NativeActionToken, authorization: PasteAuthorization },
    PersistMaintenanceRecord { token: NativeActionToken, request: M },
    ContinueNativeDrain,
    StopNativeAdapter { token: NativeActionToken },
}

/// The data-free kind of an effect.
pub open spec fn effect_kind<C, M>(effect: NativeEffect<C, M>) -> NativeEffectKind {
    match effect {
        NativeEffect::CloseFreshAdmission { .. } => NativeEffectKind::CloseFreshAdmission,
        NativeEffect::EmergencyCloseFreshAdmission => NativeEffectKind::EmergencyCloseFreshAdmission,
        NativeEffect::OpenFreshAdmission { .. } => NativeEffectKind::OpenFreshAdmission,
        NativeEffect::ApplySessionMode { .. } => NativeEffectKind::ApplySessionMode,
        NativeEffect::ApplyConfiguration { .. } => NativeEffectKind::ApplyConfiguration,
        NativeEffect::AdmitPaste { .. } => NativeEffectKind::AdmitPaste,
        NativeEffect::CancelCandidate { .. } => NativeEffectKind::CancelCandidate,
        NativeEffect::CancelWaitingPaste { .. } => NativeEffectKind::CancelWaitingPaste,
        NativeEffect::PersistMaintenanceRecord { .. } => NativeEffectKind::PersistMaintenanceRecord,
        NativeEffect::ContinueNativeDrain => NativeEffectKind::ContinueNativeDrain,
        NativeEffect::StopNativeAdapter { .. } => NativeEffectKind::StopNativeAdapter,
    }
}

impl<C: Copy, M: Copy> NativeEffect<C, M> {
    pub fn kind(self) -> (kind: NativeEffectKind)
        ensures
            kind == effect_kind(self),
    {
        match self {
            NativeEffect::CloseFreshAdmission { .. } => NativeEffectKind::CloseFreshAdmission,
            NativeEffect::EmergencyCloseFreshAdmission => NativeEffectKind::EmergencyCloseFreshAdmission,
            NativeEffect::OpenFreshAdmission { .. } => NativeEffectKind::OpenFreshAdmission,
            NativeEffect::ApplySessionMode { .. } => NativeEffectKind::ApplySessionMode,
            NativeEffect::ApplyConfiguration { .. } => NativeEffectKind::ApplyConfiguration,
            NativeEffect::AdmitPaste { .. } => NativeEffectKind::AdmitPaste,
            NativeEffect::CancelCandidate { .. } => NativeEffectKind::CancelCandidate,
            NativeEffect::CancelWaitingPaste { .. } => NativeEffectKind::CancelWaitingPaste,
            NativeEffect::PersistMaintenanceRecord { .. } => NativeEffectKind::PersistMaintenanceRecord,
            NativeEffect::ContinueNativeDrain => NativeEffectKind::ContinueNativeDrain,
            NativeEffect::StopNativeAdapter { .. } => NativeEffectKind::StopNativeAdapter,
        }
    }
}

/// What an adapter reports for one effect. `O` is the ownership snapshot of
/// a cancelled candidate and `F` the native failure.
#[derive(Clone, Copy, PartialEq, Eq)]
pub enum NativeEffectResult<O, F> {
    Applied,
    /// Fresh callback admission closed; every event through this inclusive
    /// watermark was emitted before the close. `None`: no event ever was.
    AdmissionClosed { through_event: Option<AdapterEventId> },
    PasteWaiting,
    PasteRefused(PasteRefusal),
    CandidateCancelled(O),
    Failed(F),
}

#[derive(Clone, Copy, Debug, PartialEq, Eq, Structural)]
pub enum BoundedShutdownOutcome {
    Quiescent,
    TerminalIncomplete,
    Failed,
}

/// Platform process-retirement policy after controller authority is gone.
#[derive(Clone, Copy, Debug, PartialEq, Eq, Structural)]
pub enum OrphanRetirementPolicy {
    ObserveUntilNeutral,
    BoundedNativeShutdown,
}

/// Whether an effect is a close of fresh admission.
pub open spec fn is_close_effect(kind: NativeEffectKind) -> bool {
    kind == NativeEffectKind::CloseFreshAdmission || kind
        == NativeEffectKind::EmergencyCloseFreshAdmission
}

/// The executor result for an adapter completion of an effect: each
/// completion shape is accepted only for the effects that can produce it, a
/// native failure is passed on for every effect, and anything else is a
/// contract violation.
pub open spec fn spec_map_result<O, F>(kind: NativeEffectKind, result: NativeEffectResult<O, F>) -> ExecutorResult<O, F> {
    match result {
        NativeEffectResult::AdmissionClosed { through_event } => if is_close_effect(kind) {
            ExecutorResult::AdmissionClosed { through_event }
        } else {
            ExecutorResult::ContractViolation
        },
        NativeEffectResult::PasteWaiting => if kind == NativeEffectKind::AdmitPaste {
            ExecutorResult::PasteWaiting
        } else {
            ExecutorResult::ContractViolation
        },
        NativeEffectResult::PasteRefused(reason) => if kind == NativeEffectKind::AdmitPaste {
            ExecutorResult::PasteRefused(reason)
        } else {
            ExecutorResult::ContractViolation
        },
        NativeEffectResult::CandidateCancelled(ownership) => if kind
            == NativeEffectKind::CancelCandidate {
            ExecutorResult::CandidateCancelled(ownership)
        } else {
            ExecutorResult::ContractViolation
        },
        NativeEffectResult::Failed(failure) => ExecutorResult::Failed(failure),
        NativeEffectResult::Applied => if kind == NativeEffectKind::AdmitPaste || kind
            == NativeEffectKind::CancelCandidate || is_close_effect(kind) {
            ExecutorResult::ContractViolation
        } else {
            ExecutorResult::Applied
        },
    }
}

/// A completion the effect can produce is passed on with its payload
/// unchanged: a paste refusal of a paste admission keeps its reason, a
/// cancelled candidate keeps its ownership, a close keeps its watermark, a
/// native failure is passed on for every effect, and waiting is reported
/// only for a paste admission. Whatever is not a contract violation names
/// exactly what the adapter reported.
pub proof fn law_completion_payload_is_kept<O, F>(kind: NativeEffectKind, result: NativeEffectResult<O, F>)
    ensures
        kind == NativeEffectKind::AdmitPaste && result is PasteRefused ==> (spec_map_result(kind, result)
            == ExecutorResult::<O, F>::PasteRefused(result->PasteRefused_0)),
        kind == NativeEffectKind::AdmitPaste && result is PasteWaiting ==> (spec_map_result(kind, result)
            == ExecutorResult::<O, F>::PasteWaiting),
        result is Failed ==> (spec_map_result(kind, result) == ExecutorResult::<O, F>::Failed(
            result->Failed_0,
        )),
        kind == NativeEffectKind::CancelCandidate && result is CandidateCancelled ==> (spec_map_result(
            kind,
            result,
        ) == ExecutorResult::<O, F>::CandidateCancelled(result->CandidateCancelled_0)),
        is_close_effect(kind) && result is AdmissionClosed ==> (spec_map_result(kind, result)
            == ExecutorResult::<O, F>::AdmissionClosed { through_event: result->through_event }),
        spec_map_result(kind, result) is PasteRefused ==> (kind == NativeEffectKind::AdmitPaste
            && result is PasteRefused && result->PasteRefused_0 == spec_map_result(
            kind,
            result,
        )->PasteRefused_0),
        spec_map_result(kind, result) is CandidateCancelled ==> (result is CandidateCancelled
            && result->CandidateCancelled_0 == spec_map_result(kind, result)->CandidateCancelled_0),
        spec_map_result(kind, result) is Failed ==> (result is Failed && result->Failed_0 == spec_map_result(
            kind,
            result,
        )->Failed_0),
{
}

/// Maps an adapter completion for `kind` to the executor's result.
pub fn map_result<O, F>(kind: NativeEffectKind, result: NativeEffectResult<O, F>) -> (mapped: ExecutorResult<O, F>)
    ensures
        mapped == spec_map_result(kind, result),
{
    let close = match kind {
        NativeEffectKind::CloseFreshAdmission | NativeEffectKind::EmergencyCloseFreshAdmission => true,
        _ => false,
    };
    let admit_paste = match kind {
        NativeEffectKind::AdmitPaste => true,
        _ => false,
    };
    let cancel_candidate = match kind {
        NativeEffectKind::CancelCandidate => true,
        _ => false,
    };
    match result {
        NativeEffectResult::AdmissionClosed { through_event } => if close {
            ExecutorResult::AdmissionClosed { through_event }
        } else {
            ExecutorResult::ContractViolation
        },
        NativeEffectResult::PasteWaiting => if admit_paste {
            ExecutorResult::PasteWaiting
        } else {
            ExecutorResult::ContractViolation
        },
        NativeEffectResult::PasteRefused(reason) => if admit_paste {
            ExecutorResult::PasteRefused(reason)
        } else {
            ExecutorResult::ContractViolation
        },
        NativeEffectResult::CandidateCancelled(ownership) => if cancel_candidate {
            ExecutorResult::CandidateCancelled(ownership)
        } else {
            ExecutorResult::ContractViolation
        },
        NativeEffectResult::Failed(failure) => ExecutorResult::Failed(failure),
        NativeEffectResult::Applied => if admit_paste || cancel_candidate || close {
            ExecutorResult::ContractViolation
        } else {
            ExecutorResult::Applied
        },
    }
}

/// A close is never reported as plainly applied: it must name its event
/// watermark or fail.
pub proof fn law_close_requires_watermark<O, F>(kind: NativeEffectKind, result: NativeEffectResult<O, F>)
    requires
        is_close_effect(kind),
    ensures
        spec_map_result(kind, result) is Applied == false,
        spec_map_result(kind, result) is AdmissionClosed <==> result is AdmissionClosed,
{
}

/// Source for random capability ids; the native runtime supplies one.
pub trait CapabilityIdSource {
    fn next_capability_id(&mut self) -> Option<Bytes32>;
}

/// Native owner-loop abstraction that a platform adapter implements.
pub trait NativeAdapter {
    /// The ownership snapshot reported when a candidate is cancelled.
    type Ownership;
    /// A native action failure.
    type Failure;
    /// The payload of an event other than a readiness change.
    type Payload: Copy;

    /// The native layer's current readiness.
    fn readiness(&self) -> NativeReadiness;

    /// A configuration request with its pre-held key fence.
    type Configuration: Copy;
    /// A maintenance record request.
    type Maintenance: Copy;

    fn execute(&mut self, effect: NativeEffect<Self::Configuration, Self::Maintenance>) -> NativeEffectResult<
        Self::Ownership,
        Self::Failure,
    >;

    fn try_next_event(&mut self) -> Option<AdapterEvent<BrokerEvent<Self::Payload>>>;

    fn acknowledge_event(&mut self, id: AdapterEventId, disposition: AdapterEventDisposition);

    /// How an orphaned adapter retires; by default with a bounded native
    /// shutdown.
    fn orphan_retirement_policy(&self) -> (policy: OrphanRetirementPolicy)
        default_ensures
            policy == OrphanRetirementPolicy::BoundedNativeShutdown,
    {
        OrphanRetirementPolicy::BoundedNativeShutdown
    }

    /// Stops native observation at its platform deadline after controller
    /// authority is gone; never synthesizes balancing physical input. An
    /// adapter that cannot do so reports failure, as the default does.
    fn bounded_orphan_shutdown(&mut self) -> (outcome: BoundedShutdownOutcome)
        default_ensures
            outcome == BoundedShutdownOutcome::Failed,
    {
        BoundedShutdownOutcome::Failed
    }
}

/// The event-sequence state after observing an event id: the id must be the
/// successor of the last accepted one, and a fault is sticky.
pub open spec fn sequence_valid(last: u64, fault: bool, id: u64) -> bool {
    !fault && last < u64::MAX && id == last + 1
}

/// Whether the capture gate refuses an effect: opening fresh admission, or a
/// session mode other than off, while the capture gate is closed.
pub open spec fn gate_refuses(gate_open: bool, kind: NativeEffectKind, mode: SessionCaptureMode) -> bool {
    !gate_open && (kind == NativeEffectKind::OpenFreshAdmission || (kind
        == NativeEffectKind::ApplySessionMode && mode != SessionCaptureMode::Off))
}

/// Bridge from the executor contract to a native adapter. The normal
/// constructor applies the build and process rollback gate.
pub struct NativeAdapterExecutor<A, C> {
    adapter: A,
    capabilities: C,
    capture_gate: ActivationCaptureGate,
    last_adapter_event_id: u64,
    adapter_event_sequence_fault: bool,
}

impl<A: NativeAdapter, C: CapabilityIdSource> NativeAdapterExecutor<A, C> {
    pub closed spec fn spec_adapter(&self) -> A {
        self.adapter
    }

    pub closed spec fn spec_capabilities(&self) -> C {
        self.capabilities
    }

    pub closed spec fn spec_gate(&self) -> ActivationCaptureGate {
        self.capture_gate
    }

    pub closed spec fn spec_last_event(&self) -> u64 {
        self.last_adapter_event_id
    }

    pub closed spec fn spec_sequence_fault(&self) -> bool {
        self.adapter_event_sequence_fault
    }

    /// The production constructor: the capture gate comes from the build
    /// mode and the process rollback control.
    pub fn new(adapter: A, capabilities: C, runtime_rollback: bool) -> (executor: Self)
        ensures
            executor.spec_adapter() == adapter,
            executor.spec_gate().wf(),
            executor.spec_gate().spec_open() == (OWNER_BUILD_MODE.spec_capture_enabled_by_default()
                && !runtime_rollback),
            executor.spec_gate().spec_runtime_rollback() == runtime_rollback,
            executor.spec_last_event() == 0,
            !executor.spec_sequence_fault(),
    {
        NativeAdapterExecutor {
            adapter,
            capabilities,
            capture_gate: ActivationCaptureGate::for_process_with_rollback(runtime_rollback),
            last_adapter_event_id: 0,
            adapter_event_sequence_fault: false,
        }
    }

    /// Explicit non-production seam for fake adapter integration tests.
    pub fn new_for_test(adapter: A, capabilities: C, capture_gate: ActivationCaptureGate) -> (executor: Self)
        ensures
            executor.spec_adapter() == adapter,
            executor.spec_gate() == capture_gate,
            executor.spec_last_event() == 0,
            !executor.spec_sequence_fault(),
    {
        NativeAdapterExecutor {
            adapter,
            capabilities,
            capture_gate,
            last_adapter_event_id: 0,
            adapter_event_sequence_fault: false,
        }
    }

    /// Records one adapter event id and reports whether it continues the
    /// sequence; the first break is remembered for good.
    pub fn observe_event_id(&mut self, id: AdapterEventId) -> (valid: bool)
        ensures
            valid == sequence_valid(old(self).spec_last_event(), old(self).spec_sequence_fault(), id.spec_get()),
            valid ==> final(self).spec_last_event() == id.spec_get(),
            valid ==> final(self).spec_sequence_fault() == old(self).spec_sequence_fault(),
            !valid ==> final(self).spec_last_event() == old(self).spec_last_event(),
            !valid ==> final(self).spec_sequence_fault(),
            final(self).spec_adapter() == old(self).spec_adapter(),
            final(self).spec_gate() == old(self).spec_gate(),
    {
        let value = id.get();
        let valid = !self.adapter_event_sequence_fault && self.last_adapter_event_id < u64::MAX
            && value == self.last_adapter_event_id + 1;
        if valid {
            self.last_adapter_event_id = value;
        } else {
            self.adapter_event_sequence_fault = true;
        }
        valid
    }

    /// Polls the adapter for one event and checks its id against the
    /// sequence.
    pub fn try_next_event(&mut self) -> (next: Option<(AdapterEvent<BrokerEvent<A::Payload>>, bool)>)
        ensures
            exists|r: &mut A, polled: Option<AdapterEvent<BrokerEvent<A::Payload>>>|
                {
                    &&& mut_ref_current(r) == old(self).spec_adapter()
                    &&& mut_ref_future(r) == final(self).spec_adapter()
                    &&& #[trigger] call_ensures(A::try_next_event, (r,), polled)
                    &&& match polled {
                        None => next is None,
                        Some(envelope) => {
                            &&& next is Some
                            &&& next->Some_0.0.spec_id() == envelope.spec_id()
                            &&& next->Some_0.0.spec_event() == gated_event(
                                old(self).spec_gate().spec_open(),
                                envelope.spec_event(),
                            )
                        },
                    }
                },
            final(self).spec_gate() == old(self).spec_gate(),
            next is None ==> final(self).spec_last_event() == old(self).spec_last_event()
                && final(self).spec_sequence_fault() == old(self).spec_sequence_fault(),
            next is Some ==> {
                let (envelope, valid) = next->Some_0;
                &&& valid == sequence_valid(
                    old(self).spec_last_event(),
                    old(self).spec_sequence_fault(),
                    envelope.spec_id().spec_get(),
                )
                &&& valid ==> final(self).spec_last_event() == envelope.spec_id().spec_get()
                &&& !valid ==> final(self).spec_sequence_fault()
            },
    {
        match self.adapter.try_next_event() {
            None => None,
            Some(envelope) => {
                let valid = self.observe_event_id(envelope.id());
                let event = match envelope.event() {
                    BrokerEvent::ReadinessChanged(readiness) => BrokerEvent::ReadinessChanged(
                        self.gate_readiness(readiness),
                    ),
                    BrokerEvent::Other(payload) => BrokerEvent::Other(payload),
                };
                Some((AdapterEvent::new(envelope.id(), event), valid))
            },
        }
    }

    /// Masks a readiness report with the capture gate.
    pub fn gate_readiness(&self, readiness: NativeReadiness) -> (gated: NativeReadiness)
        ensures
            gated == gated_readiness(self.spec_gate().spec_open(), readiness),
    {
        NativeReadiness {
            keyboard_build_eligible: readiness.keyboard_build_eligible && self.capture_gate.is_open(),
            ..readiness
        }
    }

    /// The adapter's readiness, masked by the capture gate.
    pub fn readiness(&self) -> (readiness: NativeReadiness)
        ensures
            exists|raw: NativeReadiness|
                #[trigger] call_ensures(A::readiness, (&self.spec_adapter(),), raw) && readiness == gated_readiness(
                    self.spec_gate().spec_open(),
                    raw,
                ),
    {
        let raw = self.adapter.readiness();
        assert(call_ensures(A::readiness, (&self.spec_adapter(),), raw));
        self.gate_readiness(raw)
    }

    /// Passes an event's acknowledgement to the adapter.
    pub fn acknowledge_event(&mut self, id: AdapterEventId, disposition: AdapterEventDisposition)
        ensures
            exists|r: &mut A|
                mut_ref_current(r) == old(self).spec_adapter() && mut_ref_future(r) == final(self).spec_adapter()
                    && #[trigger] call_ensures(A::acknowledge_event, (r, id, disposition), ()),
            final(self).spec_gate() == old(self).spec_gate(),
            final(self).spec_last_event() == old(self).spec_last_event(),
            final(self).spec_sequence_fault() == old(self).spec_sequence_fault(),
    {
        self.adapter.acknowledge_event(id, disposition);
    }

    /// The adapter's retirement policy.
    pub fn orphan_retirement_policy(&self) -> (policy: OrphanRetirementPolicy)
        ensures
            call_ensures(A::orphan_retirement_policy, (&self.spec_adapter(),), policy),
    {
        self.adapter.orphan_retirement_policy()
    }

    /// Asks the adapter to stop native observation; the executor's own state
    /// is untouched.
    pub fn bounded_orphan_shutdown(&mut self) -> (outcome: BoundedShutdownOutcome)
        ensures
            exists|r: &mut A|
                mut_ref_current(r) == old(self).spec_adapter() && mut_ref_future(r) == final(self).spec_adapter()
                    && #[trigger] call_ensures(A::bounded_orphan_shutdown, (r,), outcome),
            final(self).spec_gate() == old(self).spec_gate(),
            final(self).spec_last_event() == old(self).spec_last_event(),
            final(self).spec_sequence_fault() == old(self).spec_sequence_fault(),
    {
        self.adapter.bounded_orphan_shutdown()
    }

    /// Draws the next capability id from the source; the adapter and the
    /// executor's own state are untouched.
    pub fn allocate_capability_id(&mut self) -> (id: Option<Bytes32>)
        ensures
            exists|r: &mut C|
                mut_ref_current(r) == old(self).spec_capabilities() && mut_ref_future(r)
                    == final(self).spec_capabilities() && #[trigger] call_ensures(
                    C::next_capability_id,
                    (r,),
                    id,
                ),
            final(self).spec_adapter() == old(self).spec_adapter(),
            final(self).spec_gate() == old(self).spec_gate(),
            final(self).spec_last_event() == old(self).spec_last_event(),
            final(self).spec_sequence_fault() == old(self).spec_sequence_fault(),
    {
        self.capabilities.next_capability_id()
    }

    /// The adapter's keyboard eligibility, masked by the capture gate.
    pub fn gated_keyboard_build_eligible(&self, adapter_eligible: bool) -> (eligible: bool)
        ensures
            eligible == (adapter_eligible && self.spec_gate().spec_open()),
    {
        adapter_eligible && self.capture_gate.is_open()
    }

    /// Whether the capture gate refuses `kind` (with `mode` for a session
    /// mode change).
    pub fn refuses_effect(&self, kind: NativeEffectKind, mode: SessionCaptureMode) -> (refused: bool)
        ensures
            refused == gate_refuses(self.spec_gate().spec_open(), kind, mode),
    {
        let open = self.capture_gate.is_open();
        match kind {
            NativeEffectKind::OpenFreshAdmission => !open,
            NativeEffectKind::ApplySessionMode => !open && mode != SessionCaptureMode::Off,
            _ => false,
        }
    }

    /// Maps a command to the effect handed to the adapter (see
    /// `spec_map_command`).
    pub fn map_command(&self, command: ExecutorCommand<A::Configuration, A::Maintenance>, not_applied: A::Failure) -> (mapped: Result<
        Option<NativeEffect<A::Configuration, A::Maintenance>>,
        ExecutorResult<A::Ownership, A::Failure>,
    >)
        ensures
            mapped == spec_map_command::<A::Configuration, A::Maintenance, A::Ownership, A::Failure>(
                self.spec_gate().spec_open(),
                command,
                not_applied,
            ),
    {
        let open = self.capture_gate.is_open();
        match command {
            ExecutorCommand::State(action) => match action {
                RequiredAction::CloseFreshAdmission { token } => Ok(Some(NativeEffect::CloseFreshAdmission { token })),
                RequiredAction::EmergencyCloseFreshAdmission => Ok(Some(NativeEffect::EmergencyCloseFreshAdmission)),
                RequiredAction::OpenFreshAdmission { token } => if !open {
                    Err(ExecutorResult::Failed(not_applied))
                } else {
                    Ok(Some(NativeEffect::OpenFreshAdmission { token }))
                },
                RequiredAction::ApplySessionMode { token, mode } => if mode != SessionCaptureMode::Off && !open {
                    Err(ExecutorResult::Failed(not_applied))
                } else {
                    Ok(Some(NativeEffect::ApplySessionMode { token, mode }))
                },
                RequiredAction::ApplyConfiguration { token, request } => Ok(
                    Some(NativeEffect::ApplyConfiguration { token, request }),
                ),
                RequiredAction::AdmitPaste { .. } => Err(ExecutorResult::ContractViolation),
                RequiredAction::CancelCandidate { token } => Ok(Some(NativeEffect::CancelCandidate { token })),
                RequiredAction::CancelWaitingPaste { token, authorization } => Ok(
                    Some(NativeEffect::CancelWaitingPaste { token, authorization }),
                ),
                RequiredAction::PersistMaintenanceRecord { token, request } => Ok(
                    Some(NativeEffect::PersistMaintenanceRecord { token, request }),
                ),
                RequiredAction::ContinueNativeDrain => Ok(Some(NativeEffect::ContinueNativeDrain)),
                RequiredAction::StopNativeAdapter { token } => Ok(Some(NativeEffect::StopNativeAdapter { token })),
                RequiredAction::ExitOwner => Ok(None),
            },
            ExecutorCommand::AdmitPaste { action, request } => match action {
                RequiredAction::AdmitPaste { token, authorization } => if request.authorization == authorization {
                    Ok(Some(NativeEffect::AdmitPaste { token, request }))
                } else {
                    Err(ExecutorResult::ContractViolation)
                },
                _ => Err(ExecutorResult::ContractViolation),
            },
        }
    }

    /// Executes one owner command: the command is mapped to its effect; a
    /// mapping that answers by itself leaves the adapter alone, exiting the
    /// owner is applied at once, and any other effect is handed to the
    /// adapter exactly and its completion checked against the effect.
    pub fn execute(&mut self, command: ExecutorCommand<A::Configuration, A::Maintenance>, not_applied: A::Failure) -> (result: ExecutorResult<A::Ownership, A::Failure>)
        ensures
            final(self).spec_gate() == old(self).spec_gate(),
            final(self).spec_last_event() == old(self).spec_last_event(),
            final(self).spec_sequence_fault() == old(self).spec_sequence_fault(),
            match spec_map_command::<A::Configuration, A::Maintenance, A::Ownership, A::Failure>(
                old(self).spec_gate().spec_open(),
                command,
                not_applied,
            ) {
                Err(answer) => result == answer && final(self).spec_adapter() == old(self).spec_adapter(),
                Ok(None) => result == ExecutorResult::<A::Ownership, A::Failure>::Applied
                    && final(self).spec_adapter() == old(self).spec_adapter(),
                Ok(Some(effect)) => exists|
                    r: &mut A,
                    completion: NativeEffectResult<A::Ownership, A::Failure>,
                |
                    {
                        &&& mut_ref_current(r) == old(self).spec_adapter()
                        &&& mut_ref_future(r) == final(self).spec_adapter()
                        &&& #[trigger] call_ensures(A::execute, (r, effect), completion)
                        &&& result == spec_map_result(effect_kind(effect), completion)
                    },
            },
    {
        match self.map_command(command, not_applied) {
            Err(answer) => answer,
            Ok(None) => ExecutorResult::Applied,
            Ok(Some(effect)) => {
                let completion = self.adapter.execute(effect);
                map_result(effect.kind(), completion)
            },
        }
    }
}

/// The effect a command is handed to the adapter as, or the answer it gets
/// without reaching the adapter. Every token, mode, request and
/// authorization is carried over unchanged. With the capture gate closed,
/// opening fresh admission and any session mode other than off fail with
/// `not_applied`. A paste admission reaches the adapter only as the
/// admission of its own request, and only when the request carries the
/// action's authorization; anything else about paste admission is a
/// contract violation. Exiting the owner maps to no effect.
pub open spec fn spec_map_command<C, M, O, F>(gate_open: bool, command: ExecutorCommand<C, M>, not_applied: F) -> Result<
    Option<NativeEffect<C, M>>,
    ExecutorResult<O, F>,
> {
    match command {
        ExecutorCommand::State(action) => match action {
            RequiredAction::CloseFreshAdmission { token } => Ok(Some(NativeEffect::CloseFreshAdmission { token })),
            RequiredAction::EmergencyCloseFreshAdmission => Ok(Some(NativeEffect::EmergencyCloseFreshAdmission)),
            RequiredAction::OpenFreshAdmission { token } => if gate_refuses(
                gate_open,
                NativeEffectKind::OpenFreshAdmission,
                SessionCaptureMode::Off,
            ) {
                Err(ExecutorResult::Failed(not_applied))
            } else {
                Ok(Some(NativeEffect::OpenFreshAdmission { token }))
            },
            RequiredAction::ApplySessionMode { token, mode } => if gate_refuses(
                gate_open,
                NativeEffectKind::ApplySessionMode,
                mode,
            ) {
                Err(ExecutorResult::Failed(not_applied))
            } else {
                Ok(Some(NativeEffect::ApplySessionMode { token, mode }))
            },
            RequiredAction::ApplyConfiguration { token, request } => Ok(
                Some(NativeEffect::ApplyConfiguration { token, request }),
            ),
            RequiredAction::AdmitPaste { .. } => Err(ExecutorResult::ContractViolation),
            RequiredAction::CancelCandidate { token } => Ok(Some(NativeEffect::CancelCandidate { token })),
            RequiredAction::CancelWaitingPaste { token, authorization } => Ok(
                Some(NativeEffect::CancelWaitingPaste { token, authorization }),
            ),
            RequiredAction::PersistMaintenanceRecord { token, request } => Ok(
                Some(NativeEffect::PersistMaintenanceRecord { token, request }),
            ),
            RequiredAction::ContinueNativeDrain => Ok(Some(NativeEffect::ContinueNativeDrain)),
            RequiredAction::StopNativeAdapter { token } => Ok(Some(NativeEffect::StopNativeAdapter { token })),
            RequiredAction::ExitOwner => Ok(None),
        },
        ExecutorCommand::AdmitPaste { action, request } => match action {
            RequiredAction::AdmitPaste { token, authorization } => if request.authorization == authorization {
                Ok(Some(NativeEffect::AdmitPaste { token, request }))
            } else {
                Err(ExecutorResult::ContractViolation)
            },
            _ => Err(ExecutorResult::ContractViolation),
        },
    }
}

/// The effect hand-off keeps what the command carries: switching the
/// session mode off reaches the adapter with its token, gate open or closed;
/// a paste admission reaches it with its own token and request exactly
/// when the request carries the action's authorization; exiting the owner
/// never reaches it.
pub proof fn law_map_command_hands_on_the_command<C, M, O, F>(
    gate_open: bool,
    token: NativeActionToken,
    authorization: PasteAuthorization,
    request: PasteExecutorRequest,
    not_applied: F,
)
    ensures
        spec_map_command::<C, M, O, F>(
            gate_open,
            ExecutorCommand::State(RequiredAction::ApplySessionMode { token, mode: SessionCaptureMode::Off }),
            not_applied,
        ) == Ok::<Option<NativeEffect<C, M>>, ExecutorResult<O, F>>(
            Some(NativeEffect::ApplySessionMode { token, mode: SessionCaptureMode::Off }),
        ),
        spec_map_command::<C, M, O, F>(
            gate_open,
            ExecutorCommand::AdmitPaste { action: RequiredAction::AdmitPaste { token, authorization }, request },
            not_applied,
        ) == (if request.authorization == authorization {
            Ok::<Option<NativeEffect<C, M>>, ExecutorResult<O, F>>(Some(NativeEffect::AdmitPaste { token, request }))
        } else {
            Err(ExecutorResult::ContractViolation)
        }),
        spec_map_command::<C, M, O, F>(gate_open, ExecutorCommand::State(RequiredAction::ExitOwner), not_applied)
            == Ok::<Option<NativeEffect<C, M>>, ExecutorResult<O, F>>(None),
        !gate_open ==> spec_map_command::<C, M, O, F>(
            gate_open,
            ExecutorCommand::State(RequiredAction::OpenFreshAdmission { token }),
            not_applied,
        ) == Err::<Option<NativeEffect<C, M>>, ExecutorResult<O, F>>(ExecutorResult::Failed(not_applied)),
{
}

/// Once the event sequence has faulted, no later event is ever valid.
pub proof fn law_sequence_fault_is_sticky(last: u64, id: u64)
    ensures
        !sequence_valid(last, true, id),
{
}

/// With the capture gate closed, fresh admission is never opened and no
/// session capture mode other than off is applied.
pub proof fn law_closed_gate_refuses_capture(kind: NativeEffectKind, mode: SessionCaptureMode)
    requires
        kind == NativeEffectKind::OpenFreshAdmission || (kind == NativeEffectKind::ApplySessionMode
            && mode != SessionCaptureMode::Off),
    ensures
        gate_refuses(false, kind, mode),
{
}

} // verus!
