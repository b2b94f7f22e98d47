use keyboard_owner::adapter::{
    map_result, AdapterEvent, AdapterEventDisposition, AdapterEventId, BoundedShutdownOutcome,
    BrokerEvent, NativeReadiness,
    CapabilityIdSource, NativeAdapter, NativeAdapterExecutor, NativeEffectKind,
    NativeEffectResult, OrphanRetirementPolicy,
};
use keyboard_owner::capture_gate::{ActivationCaptureGate, SessionCaptureMode};
use keyboard_owner::adapter::NativeEffect;
use keyboard_owner::executor::{
    ExecutorCommand, ExecutorResult, NativeActionToken, PasteAuthorization, PasteExecutorRequest,
    RequiredAction,
};
use std::cell::RefCell;
use std::rc::Rc;

/// What the fake adapter was handed: the effect kind, its token and its
/// session mode where it has them.
type Handed = Rc<RefCell<Vec<(NativeEffectKind, Option<u64>, Option<SessionCaptureMode>)>>>;
use keyboard_owner::identity::Bytes32;

#[derive(Clone, Copy, Debug, PartialEq, Eq)]
struct Ownership(u8);

#[derive(Clone, Copy, Debug, PartialEq, Eq)]
enum Failure {
    NotApplied,
    Native,
}

const READY: NativeReadiness = NativeReadiness {
    keyboard_build_eligible: true,
    paste_ready: true,
    permissions_eligible: true,
    hook_healthy: true,
};

struct FakeAdapter {
    events: Vec<(u64, BrokerEvent<&'static str>)>,
    executed: Handed,
    reply: NativeEffectResult<Ownership, Failure>,
    acknowledged: Vec<(u64, AdapterEventDisposition)>,
}

impl NativeAdapter for FakeAdapter {
    type Ownership = Ownership;
    type Failure = Failure;
    type Payload = &'static str;

    fn readiness(&self) -> NativeReadiness {
        READY
    }

    type Configuration = u8;
    type Maintenance = u8;

    fn execute(&mut self, effect: NativeEffect<u8, u8>) -> NativeEffectResult<Ownership, Failure> {
        let (token, mode) = match effect {
            NativeEffect::ApplySessionMode { token, mode } => (Some(token.value), Some(mode)),
            NativeEffect::OpenFreshAdmission { token }
            | NativeEffect::CloseFreshAdmission { token }
            | NativeEffect::CancelCandidate { token }
            | NativeEffect::StopNativeAdapter { token } => (Some(token.value), None),
            NativeEffect::AdmitPaste { token, request } => {
                assert_eq!(request.authorization, PasteAuthorization { value: 77 });
                (Some(token.value), None)
            }
            _ => (None, None),
        };
        self.executed.borrow_mut().push((effect.kind(), token, mode));
        self.reply
    }

    fn try_next_event(&mut self) -> Option<AdapterEvent<BrokerEvent<&'static str>>> {
        if self.events.is_empty() {
            None
        } else {
            let (id, event) = self.events.remove(0);
            Some(AdapterEvent::new(AdapterEventId::new(id).unwrap(), event))
        }
    }

    fn acknowledge_event(&mut self, id: AdapterEventId, disposition: AdapterEventDisposition) {
        self.acknowledged.push((id.get(), disposition));
    }
}

struct NoCapabilities;

impl CapabilityIdSource for NoCapabilities {
    fn next_capability_id(&mut self) -> Option<Bytes32> {
        None
    }
}

fn adapter(events: Vec<(u64, &'static str)>) -> FakeAdapter {
    FakeAdapter {
        events: events.into_iter().map(|(id, event)| (id, BrokerEvent::Other(event))).collect(),
        executed: Rc::new(RefCell::new(Vec::new())),
        reply: NativeEffectResult::Applied,
        acknowledged: Vec::new(),
    }
}

#[test]
fn event_ids_are_nonzero_and_redacted() {
    assert!(AdapterEventId::new(0).is_none());
    let id = AdapterEventId::new(7).unwrap();
    assert_eq!(id.get(), 7);
    assert_eq!(id.redacted_debug(), "AdapterEventId(<redacted>)");
}

#[test]
fn event_sequence_fault_is_sticky() {
    let mut executor = NativeAdapterExecutor::new_for_test(
        adapter(vec![(1, "a"), (2, "b"), (4, "c"), (5, "d")]),
        NoCapabilities,
        ActivationCaptureGate::open_for_test_harness(),
    );
    let (first, valid) = executor.try_next_event().unwrap();
    assert_eq!((first.id().get(), first.event(), valid), (1, BrokerEvent::Other("a"), true));
    assert_eq!(first.redacted_debug(), "AdapterEvent(<redacted>)");
    assert!(executor.try_next_event().unwrap().1);
    assert!(!executor.try_next_event().unwrap().1);
    assert!(!executor.try_next_event().unwrap().1);
    assert!(executor.try_next_event().is_none());
    executor.acknowledge_event(
        AdapterEventId::new(1).unwrap(),
        AdapterEventDisposition::Accepted,
    );
}

fn token(value: u64) -> NativeActionToken {
    NativeActionToken { value }
}

fn state(action: RequiredAction<u8, u8>) -> ExecutorCommand<u8, u8> {
    ExecutorCommand::State(action)
}

#[test]
fn closed_gate_refuses_capture_effects_without_reaching_the_adapter() {
    let fake = adapter(Vec::new());
    let handed = Rc::clone(&fake.executed);
    let mut executor = NativeAdapterExecutor::new_for_test(fake, NoCapabilities, ActivationCaptureGate::closed());
    assert!(executor.execute(state(RequiredAction::OpenFreshAdmission { token: token(1) }), Failure::NotApplied)
        == ExecutorResult::Failed(Failure::NotApplied));
    assert!(executor.execute(
            state(RequiredAction::ApplySessionMode { token: token(2), mode: SessionCaptureMode::Recording }),
            Failure::NotApplied
        )
        == ExecutorResult::Failed(Failure::NotApplied));
    assert!(handed.borrow().is_empty());
    assert!(executor.execute(
            state(RequiredAction::ApplySessionMode { token: token(3), mode: SessionCaptureMode::Off }),
            Failure::NotApplied
        )
        == ExecutorResult::Applied);
    assert_eq!(
        handed.borrow().as_slice(),
        &[(NativeEffectKind::ApplySessionMode, Some(3), Some(SessionCaptureMode::Off))]
    );
    assert!(!executor.gated_keyboard_build_eligible(true));
    assert_eq!(
        executor.orphan_retirement_policy(),
        OrphanRetirementPolicy::BoundedNativeShutdown
    );
    assert_eq!(
        executor.bounded_orphan_shutdown(),
        BoundedShutdownOutcome::Failed
    );
    assert!(executor.allocate_capability_id().is_none());
}

#[test]
fn open_gate_passes_effects_and_checks_completions() {
    let fake = adapter(Vec::new());
    let handed = Rc::clone(&fake.executed);
    let mut executor = NativeAdapterExecutor::new_for_test(
        fake,
        NoCapabilities,
        ActivationCaptureGate::open_for_test_harness(),
    );
    assert!(executor.execute(state(RequiredAction::OpenFreshAdmission { token: token(4) }), Failure::NotApplied)
        == ExecutorResult::Applied);
    assert!(executor.execute(state(RequiredAction::CloseFreshAdmission { token: token(5) }), Failure::NotApplied)
        == ExecutorResult::ContractViolation);
    assert_eq!(
        handed.borrow().as_slice(),
        &[
            (NativeEffectKind::OpenFreshAdmission, Some(4), None),
            (NativeEffectKind::CloseFreshAdmission, Some(5), None),
        ]
    );
    assert!(executor.gated_keyboard_build_eligible(true));
}

#[test]
fn completions_map_only_to_their_effects() {
    type Result_ = NativeEffectResult<Ownership, Failure>;
    type Mapped = ExecutorResult<Ownership, Failure>;
    let id = AdapterEventId::new(3);
    let closed: Result_ = NativeEffectResult::AdmissionClosed { through_event: id };
    assert!(
        map_result(NativeEffectKind::EmergencyCloseFreshAdmission, closed)
            == Mapped::AdmissionClosed { through_event: id }
    );
    assert!(map_result(NativeEffectKind::OpenFreshAdmission, closed) == Mapped::ContractViolation);
    let waiting: Result_ = NativeEffectResult::PasteWaiting;
    assert!(map_result(NativeEffectKind::AdmitPaste, waiting) == Mapped::PasteWaiting);
    let applied: Result_ = NativeEffectResult::Applied;
    assert!(map_result(NativeEffectKind::AdmitPaste, applied) == Mapped::ContractViolation);
    assert!(map_result(NativeEffectKind::PersistMaintenanceRecord, applied) == Mapped::Applied);
    let cancelled: Result_ = NativeEffectResult::CandidateCancelled(Ownership(2));
    assert!(
        map_result(NativeEffectKind::CancelCandidate, cancelled)
            == Mapped::CandidateCancelled(Ownership(2))
    );
    let failed: Result_ = NativeEffectResult::Failed(Failure::Native);
    assert!(map_result(NativeEffectKind::StopNativeAdapter, failed) == Mapped::Failed(Failure::Native));
}

#[test]
fn production_constructor_uses_the_safe_build_gate() {
    let executor = NativeAdapterExecutor::new(adapter(Vec::new()), NoCapabilities, false);
    assert!(!executor.gated_keyboard_build_eligible(true));
}

#[test]
fn readiness_is_masked_by_the_capture_gate() {
    let mut fake = adapter(vec![(2, "x")]);
    fake.events.insert(0, (1, BrokerEvent::ReadinessChanged(READY)));
    let mut closed = NativeAdapterExecutor::new_for_test(fake, NoCapabilities, ActivationCaptureGate::closed());
    let masked = NativeReadiness { keyboard_build_eligible: false, ..READY };
    assert_eq!(closed.readiness(), masked);
    let (first, valid) = closed.try_next_event().unwrap();
    assert!(valid);
    assert_eq!(first.event(), BrokerEvent::ReadinessChanged(masked));
    assert_eq!(closed.try_next_event().unwrap().0.event(), BrokerEvent::Other("x"));

    let mut fake = adapter(Vec::new());
    fake.events.push((1, BrokerEvent::ReadinessChanged(READY)));
    let mut open = NativeAdapterExecutor::new_for_test(
        fake,
        NoCapabilities,
        ActivationCaptureGate::open_for_test_harness(),
    );
    assert_eq!(open.readiness(), READY);
    assert_eq!(open.try_next_event().unwrap().0.event(), BrokerEvent::ReadinessChanged(READY));
}

#[test]
fn commands_map_to_effects_or_answer_without_the_adapter() {
    let mut fake = adapter(Vec::new());
    fake.reply = NativeEffectResult::PasteWaiting;
    let handed = Rc::clone(&fake.executed);
    let mut executor = NativeAdapterExecutor::new_for_test(
        fake,
        NoCapabilities,
        ActivationCaptureGate::closed(),
    );
    let authorization = PasteAuthorization { value: 77 };
    let request = PasteExecutorRequest {
        authorization,
        target_token: Some(5),
        fallback_text_sha256: keyboard_owner::identity::Bytes32::new([3; 32]),
    };
    let admission = RequiredAction::AdmitPaste { token: token(9), authorization };
    assert!(executor.execute(state(RequiredAction::ExitOwner), Failure::NotApplied) == ExecutorResult::Applied);
    let mismatched = PasteExecutorRequest { authorization: PasteAuthorization { value: 78 }, ..request };
    assert!(
        executor.execute(ExecutorCommand::AdmitPaste { action: admission, request: mismatched }, Failure::NotApplied)
            == ExecutorResult::ContractViolation
    );
    assert!(executor.execute(state(admission), Failure::NotApplied) == ExecutorResult::ContractViolation);
    assert!(
        executor.execute(
            ExecutorCommand::AdmitPaste { action: RequiredAction::ContinueNativeDrain, request },
            Failure::NotApplied
        ) == ExecutorResult::ContractViolation
    );
    assert!(handed.borrow().is_empty());
    assert!(
        executor.execute(ExecutorCommand::AdmitPaste { action: admission, request }, Failure::NotApplied)
            == ExecutorResult::PasteWaiting
    );
    assert_eq!(handed.borrow().as_slice(), &[(NativeEffectKind::AdmitPaste, Some(9), None)]);
}
