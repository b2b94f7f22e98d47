use keyboard_owner::callback::{
    deliver_callback_event, settle_delivery, CallbackGate, OfferingSender, TerminalReason, TerminalSignal, CALLBACK_GATE_CLOSED,
};

#[test]
fn callback_delivery_lease_linearizes_against_gate_close() {
    let mut gate = CallbackGate::new();
    gate.open();
    let lease = gate.try_acquire_delivery().expect("open gate lease");
    gate.close();
    assert!(!gate.is_open());
    assert!(gate.try_acquire_delivery().is_none());
    gate.release_delivery(lease);
    assert_eq!(gate.state(), CALLBACK_GATE_CLOSED);
}

#[test]
fn new_callback_terminal_reasons_round_trip_through_signal() {
    for reason in [
        TerminalReason::OutboundEncodingUnavailable,
        TerminalReason::EventTapTimeoutRecoveryFailed,
        TerminalReason::EventTapRepeatedTimeout,
        TerminalReason::EventTapDisabledByUserInput,
        TerminalReason::ActivationConfigurationUnavailable,
        TerminalReason::OwnerThreadUnresponsive,
        TerminalReason::AudioDeviceMonitorUnavailable,
        TerminalReason::InputInjectionUnavailable,
    ] {
        let gate = CallbackGate::new();
        let (sender, _receiver) = crossbeam_channel::bounded(1);
        let mut terminal = TerminalSignal::new(gate, sender);
        terminal.trigger(reason);
        assert_eq!(terminal.reason(), Some(reason));
    }
}

#[test]
fn callback_delivery_queues_the_typed_event_without_closing_the_gate() {
    let mut gate = CallbackGate::new();
    gate.open();
    let (terminal_tx, terminal_rx) = crossbeam_channel::bounded(1);
    let mut terminal = TerminalSignal::new(gate, terminal_tx);
    let (outbound_tx, outbound_rx) = crossbeam_channel::bounded(1);
    let mut outbound = OfferingSender::new(outbound_tx);
    assert!(deliver_callback_event(&mut outbound, &mut terminal, 17_u32));
    assert_eq!(outbound_rx.try_recv(), Ok(17_u32));
    assert!(terminal.gate().is_open());
    assert_eq!(terminal.gate().state(), 0);
    assert!(!terminal.is_triggered());
    assert!(terminal_rx.try_recv().is_err());
}

#[test]
fn callback_queue_failure_closes_gate_and_is_terminal() {
    let mut gate = CallbackGate::new();
    gate.open();
    let (terminal_tx, terminal_rx) = crossbeam_channel::bounded(1);
    let mut terminal = TerminalSignal::new(gate, terminal_tx);
    let (outbound_tx, outbound_rx) = crossbeam_channel::bounded::<u32>(1);
    let mut outbound = OfferingSender::new(outbound_tx);
    drop(outbound_rx);
    assert!(!deliver_callback_event(&mut outbound, &mut terminal, 5));
    assert!(!terminal.gate().is_open());
    assert_eq!(terminal.gate().state(), CALLBACK_GATE_CLOSED);
    assert_eq!(
        terminal_rx.try_recv(),
        Ok(TerminalReason::OutboundQueueUnavailable)
    );
}

#[test]
fn closed_gate_delivers_nothing_and_stays_untriggered() {
    let gate = CallbackGate::new();
    let (terminal_tx, terminal_rx) = crossbeam_channel::bounded(1);
    let mut terminal = TerminalSignal::new(gate, terminal_tx);
    let (outbound_tx, outbound_rx) = crossbeam_channel::bounded(1);
    let mut outbound = OfferingSender::new(outbound_tx);
    assert!(!deliver_callback_event(&mut outbound, &mut terminal, 9_u32));
    assert!(outbound_rx.try_recv().is_err());
    assert!(!terminal.is_triggered());
    assert!(terminal_rx.try_recv().is_err());
}

#[test]
fn full_outbound_queue_is_terminal() {
    let mut gate = CallbackGate::new();
    gate.open();
    let (terminal_tx, terminal_rx) = crossbeam_channel::bounded(1);
    let mut terminal = TerminalSignal::new(gate, terminal_tx);
    let (outbound_tx, _outbound_rx) = crossbeam_channel::bounded(1);
    let mut outbound = OfferingSender::new(outbound_tx);
    assert!(deliver_callback_event(&mut outbound, &mut terminal, 1_u32));
    assert!(!deliver_callback_event(&mut outbound, &mut terminal, 2_u32));
    assert!(!terminal.gate().is_open());
    assert_eq!(
        terminal.reason(),
        Some(TerminalReason::OutboundQueueUnavailable)
    );
    assert_eq!(
        terminal_rx.try_recv(),
        Ok(TerminalReason::OutboundQueueUnavailable)
    );
}

#[test]
fn first_trigger_reason_wins_and_is_sent_once() {
    let mut gate = CallbackGate::new();
    gate.open();
    let (terminal_tx, terminal_rx) = crossbeam_channel::bounded(4);
    let mut terminal = TerminalSignal::new(gate, terminal_tx);
    assert_eq!(terminal.reason(), None);
    terminal.trigger(TerminalReason::HookStopped);
    terminal.trigger(TerminalReason::StdoutDisconnected);
    assert!(terminal.is_triggered());
    assert_eq!(terminal.reason(), Some(TerminalReason::HookStopped));
    assert!(!terminal.gate().is_open());
    assert_eq!(terminal_rx.try_recv(), Ok(TerminalReason::HookStopped));
    assert!(terminal_rx.try_recv().is_err());
}

#[test]
fn reason_codes_round_trip() {
    for code in 0_u8..13 {
        let reason = TerminalReason::from_u8(code).expect("named code");
        assert_eq!(reason.to_u8(), code);
    }
    assert_eq!(TerminalReason::from_u8(13), None);
    assert_eq!(TerminalReason::from_u8(255), None);
    assert_eq!(TerminalReason::StdoutDisconnected.to_u8(), 0);
    assert_eq!(TerminalReason::InputInjectionUnavailable.to_u8(), 12);
}

#[test]
fn gate_words_track_leases() {
    let mut gate = CallbackGate::default();
    assert_eq!(gate.state(), CALLBACK_GATE_CLOSED);
    assert!(gate.try_acquire_delivery().is_none());
    gate.open();
    let first = gate.try_acquire_delivery().expect("first lease");
    let second = gate.try_acquire_delivery().expect("second lease");
    assert_eq!(gate.state(), 2);
    gate.release_delivery(first);
    assert_eq!(gate.state(), 1);
    gate.close();
    assert_eq!(gate.state(), CALLBACK_GATE_CLOSED + 1);
    gate.release_delivery(second);
    assert_eq!(gate.state(), CALLBACK_GATE_CLOSED);
}

#[test]
fn every_outstanding_lease_outlives_a_close() {
    let mut gate = CallbackGate::new();
    gate.open();
    let first = gate.try_acquire_delivery().expect("first lease");
    let second = gate.try_acquire_delivery().expect("second lease");
    gate.close();
    gate.close();
    assert_eq!(gate.state(), CALLBACK_GATE_CLOSED + 2);
    gate.release_delivery(first);
    assert!(!gate.is_open());
    assert!(gate.try_acquire_delivery().is_none());
    gate.release_delivery(second);
    assert_eq!(gate.state(), CALLBACK_GATE_CLOSED);
}

#[test]
fn callback_up_failure_is_terminal_but_current_captured_up_stays_swallowed() {
    // The captured balancing up, as the event the callback delivers.
    let up_event = 0xA5_u32;
    let mut gate = CallbackGate::new();
    gate.open();
    let (terminal_tx, terminal_rx) = crossbeam_channel::bounded(1);
    let mut terminal = TerminalSignal::new(gate, terminal_tx);
    let (outbound_tx, outbound_rx) = crossbeam_channel::bounded::<u32>(1);
    let mut outbound = OfferingSender::new(outbound_tx);
    drop(outbound_rx);
    let delivered = deliver_callback_event(&mut outbound, &mut terminal, up_event);

    assert!(!delivered);
    assert!(!terminal.gate().is_open());
    assert_eq!(
        terminal_rx.try_recv(),
        Ok(TerminalReason::OutboundQueueUnavailable)
    );
}

#[test]
fn settling_follows_the_channel_answer() {
    let mut gate = CallbackGate::new();
    gate.open();
    let (terminal_tx, terminal_rx) = crossbeam_channel::bounded(1);
    let mut terminal = TerminalSignal::new(gate, terminal_tx);
    let mut lease_gate = CallbackGate::new();
    lease_gate.open();
    let lease = lease_gate.try_acquire_delivery().unwrap();
    assert!(settle_delivery(&mut terminal, lease, true));
    assert!(!terminal.is_triggered());
    let lease = lease_gate.try_acquire_delivery().unwrap();
    assert!(!settle_delivery(&mut terminal, lease, false));
    assert!(!terminal.gate().is_open());
    assert_eq!(terminal_rx.try_recv(), Ok(TerminalReason::OutboundQueueUnavailable));
}
