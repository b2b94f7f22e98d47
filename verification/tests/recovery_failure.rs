use keyboard_owner::callback::{CallbackGate, TerminalReason, TerminalSignal};
use keyboard_owner::recovery_failure::{conclude_capture, fail_recovery_edge_journal, OwnerFlags};

fn running() -> OwnerFlags {
    OwnerFlags {
        recovery_deferred_mode: false,
        quiescing: false,
        stopping: false,
        hook_available: true,
        maintenance_armed: false,
    }
}

#[test]
fn journal_failure_fails_the_owner_closed() {
    let mut gate = CallbackGate::new();
    gate.open();
    let (tx, rx) = crossbeam_channel::bounded(1);
    let mut terminal = TerminalSignal::new(gate, tx);
    let mut flags = running();
    fail_recovery_edge_journal(&mut flags, &mut terminal);
    assert_eq!(
        flags,
        OwnerFlags {
            recovery_deferred_mode: true,
            quiescing: true,
            stopping: true,
            hook_available: false,
            maintenance_armed: true,
        }
    );
    assert!(!terminal.gate().is_open());
    assert_eq!(terminal.reason(), Some(TerminalReason::InputInjectionUnavailable));
    assert_eq!(rx.try_recv(), Ok(TerminalReason::InputInjectionUnavailable));
}

#[test]
fn a_journaled_capture_only_arms_maintenance() {
    let mut gate = CallbackGate::new();
    gate.open();
    let (tx, rx) = crossbeam_channel::bounded(1);
    let mut terminal = TerminalSignal::new(gate, tx);
    let mut flags = running();
    conclude_capture(true, &mut flags, &mut terminal);
    assert_eq!(flags, OwnerFlags { maintenance_armed: true, ..running() });
    assert!(terminal.gate().is_open());
    assert!(rx.try_recv().is_err());
    conclude_capture(false, &mut flags, &mut terminal);
    assert!(flags.stopping && !flags.hook_available);
    assert!(!terminal.gate().is_open());
}
