//! Callback admission and terminal failure delivery.
//!
//! The callback gate packs a "closed" bit and a count of in-flight deliveries
//! into one word. Closing sets the bit and never waits for the count; a
//! delivery lease can only be taken while the bit is clear, so a close
//! linearizes against every later acquisition.

use vstd::prelude::*;
use crossbeam_channel::Sender;

verus! {

/// The top bit of the callback gate word: set while callbacks must pass input through.
pub const CALLBACK_GATE_CLOSED: u64 = 0x8000_0000_0000_0000;

/// The low bits of the callback gate word: the number of outstanding delivery leases.
pub const CALLBACK_GATE_LEASE_MASK: u64 = 0x7FFF_FFFF_FFFF_FFFF;

/// The value stored in the terminal reason slot before any trigger.
pub const TERMINAL_REASON_UNSET: u8 = 255;

/// Shared liveness bit checked by every callback before reducer processing.
/// A writer failure, queue saturation, or shutdown sets it closed, making
/// callbacks immediately pass input through to the operating system.
#[derive(Debug)]
pub struct CallbackGate {
    state: u64,
}

/// Proof that one delivery was admitted by a gate; hand it back with
/// `CallbackGate::release_delivery` when the delivery attempt is over.
#[derive(Debug)]
pub struct CallbackDeliveryLease {
    admitted: bool,
}

/// Whether a gate word has its closed bit set.
pub open spec fn gate_word_closed(state: u64) -> bool {
    state >= CALLBACK_GATE_CLOSED
}

/// The number of leases recorded in a gate word.
pub open spec fn gate_word_leases(state: u64) -> int {
    if state >= CALLBACK_GATE_CLOSED {
        state - CALLBACK_GATE_CLOSED
    } else {
        state as int
    }
}

/// Whether a gate word admits one more delivery: open, and the lease count
/// is below its saturation value.
pub open spec fn gate_word_admits(state: u64) -> bool {
    !gate_word_closed(state) && gate_word_leases(state) < CALLBACK_GATE_LEASE_MASK
}

/// The callback gate word after a close: the closed bit set, the lease count kept.
pub open spec fn gate_word_after_close(state: u64) -> u64 {
    if state >= CALLBACK_GATE_CLOSED {
        state
    } else {
        (state + CALLBACK_GATE_CLOSED) as u64
    }
}

/// The callback gate word after a lease is handed back (a wrapping decrement).
pub open spec fn gate_word_after_release(state: u64) -> u64 {
    if state == 0 {
        u64::MAX
    } else {
        (state - 1) as u64
    }
}

impl CallbackGate {
    /// The packed gate word.
    pub closed spec fn word(&self) -> u64 {
        self.state
    }

    pub open spec fn spec_is_open(&self) -> bool {
        !gate_word_closed(self.word())
    }

    pub open spec fn spec_leases(&self) -> int {
        gate_word_leases(self.word())
    }

    /// A new gate is closed with no leases.
    pub fn new() -> (gate: Self)
        ensures
            gate.word() == CALLBACK_GATE_CLOSED,
            !gate.spec_is_open(),
            gate.spec_leases() == 0,
    {
        CallbackGate { state: CALLBACK_GATE_CLOSED }
    }

    /// Opens the callback gate and clears the lease count.
    pub fn open(&mut self)
        ensures
            final(self).word() == 0,
            final(self).spec_is_open(),
            final(self).spec_leases() == 0,
    {
        self.state = 0;
    }

    /// Sets the closed bit, keeping the lease count.
    pub fn close(&mut self)
        ensures
            final(self).word() == gate_word_after_close(old(self).word()),
            final(self).word() == (old(self).word() | CALLBACK_GATE_CLOSED),
            !final(self).spec_is_open(),
            final(self).spec_leases() == old(self).spec_leases(),
    {
        let s = self.state;
        assert(s < 0x8000_0000_0000_0000u64 ==> (s | 0x8000_0000_0000_0000u64) == s
            + 0x8000_0000_0000_0000u64) by (bit_vector);
        assert(s >= 0x8000_0000_0000_0000u64 ==> (s | 0x8000_0000_0000_0000u64) == s)
            by (bit_vector);
        if self.state < CALLBACK_GATE_CLOSED {
            self.state = self.state + CALLBACK_GATE_CLOSED;
        }
    }

    /// Whether callbacks may currently deliver.
    pub fn is_open(&self) -> (open: bool)
        ensures
            open == self.spec_is_open(),
    {
        self.state < CALLBACK_GATE_CLOSED
    }

    /// The packed gate word: the closed bit and the lease count.
    pub fn state(&self) -> (word: u64)
        ensures
            word == self.word(),
    {
        self.state
    }

    /// Takes a delivery lease when the callback gate is open and the lease count is
    /// not saturated; otherwise leaves the callback gate unchanged.
    pub fn try_acquire_delivery(&mut self) -> (lease: Option<CallbackDeliveryLease>)
        ensures
            lease is Some <==> gate_word_admits(old(self).word()),
            lease is Some ==> final(self).word() == old(self).word() + 1,
            lease is None ==> final(self).word() == old(self).word(),
    {
        if self.state >= CALLBACK_GATE_CLOSED || self.state == CALLBACK_GATE_LEASE_MASK {
            None
        } else {
            self.state = self.state + 1;
            Some(CallbackDeliveryLease { admitted: true })
        }
    }

    /// Hands a lease back: the callback gate word is decremented (wrapping), whatever
    /// the closed bit says.
    pub fn release_delivery(&mut self, lease: CallbackDeliveryLease)
        ensures
            final(self).word() == gate_word_after_release(old(self).word()),
    {
        let _admitted = lease.admitted;
        self.state = self.state.wrapping_sub(1);
    }
}

/// A delivery taken and released again, with nothing in between, leaves the
/// gate word as it was.
pub proof fn law_lease_round_trip(state: u64)
    requires
        gate_word_admits(state),
    ensures
        gate_word_after_release((state + 1) as u64) == state,
{
}

/// A lease taken before a close and released after it leaves a closed gate
/// with the lease count it had before the lease was taken.
pub proof fn law_lease_linearizes_against_close(state: u64)
    requires
        gate_word_admits(state),
    ensures
        gate_word_closed(gate_word_after_close((state + 1) as u64)),
        !gate_word_admits(gate_word_after_close((state + 1) as u64)),
        gate_word_after_release(gate_word_after_close((state + 1) as u64))
            == gate_word_after_close(state),
        gate_word_leases(gate_word_after_release(gate_word_after_close((state + 1) as u64)))
            == gate_word_leases(state),
{
}

/// Once closed, a gate admits no delivery until it is opened again.
pub proof fn law_closed_gate_admits_nothing(state: u64)
    ensures
        !gate_word_admits(gate_word_after_close(state)),
        gate_word_closed(gate_word_after_close(state)),
{
}

/// The callback gate word once `n` leases have come back.
pub open spec fn gate_word_after_releases(state: u64, n: nat) -> u64
    decreases n,
{
    if n == 0 {
        state
    } else {
        gate_word_after_releases(gate_word_after_release(state), (n - 1) as nat)
    }
}

/// Closing is idempotent, and it outlives every lease taken before it:
/// however many leases were outstanding when it closed, the callback gate
/// stays closed and admits nothing while they are handed back one by one,
/// and once all are back its word is exactly `CALLBACK_GATE_CLOSED`.
pub proof fn law_close_outlives_outstanding_leases(state: u64, returned: nat)
    requires
        returned <= gate_word_leases(state),
    ensures
        gate_word_after_close(gate_word_after_close(state)) == gate_word_after_close(state),
        gate_word_closed(gate_word_after_releases(gate_word_after_close(state), returned)),
        !gate_word_admits(gate_word_after_releases(gate_word_after_close(state), returned)),
        gate_word_leases(gate_word_after_releases(gate_word_after_close(state), returned))
            == gate_word_leases(state) - returned,
        returned == gate_word_leases(state) ==> gate_word_after_releases(
            gate_word_after_close(state),
            returned,
        ) == CALLBACK_GATE_CLOSED,
    decreases returned,
{
    if returned > 0 {
        let closed = gate_word_after_close(state);
        let once = gate_word_after_release(closed);
        assert(gate_word_after_close(once) == once);
        assert(gate_word_leases(once) == gate_word_leases(state) - 1);
        law_close_outlives_outstanding_leases(once, (returned - 1) as nat);
        assert(gate_word_after_releases(closed, returned) == gate_word_after_releases(
            once,
            (returned - 1) as nat,
        ));
    }
}

impl Default for CallbackGate {
    fn default() -> (gate: Self)
        ensures
            gate.word() == CALLBACK_GATE_CLOSED,
    {
        Self::new()
    }
}


/// Why the helper stopped delivering callbacks. Each reason has a one-byte
/// code, in declaration order, so it can live in a single atomic slot.
#[derive(Clone, Copy, Debug, PartialEq, Eq, Structural)]
pub enum TerminalReason {
    StdoutDisconnected,
    OutboundQueueUnavailable,
    CallbackPanicked,
    ReducerPoisoned,
    HookStopped,
    OutboundEncodingUnavailable,
    EventTapTimeoutRecoveryFailed,
    EventTapRepeatedTimeout,
    EventTapDisabledByUserInput,
    ActivationConfigurationUnavailable,
    OwnerThreadUnresponsive,
    AudioDeviceMonitorUnavailable,
    InputInjectionUnavailable,
}

/// The one-byte code of a terminal reason.
pub open spec fn reason_code(reason: TerminalReason) -> u8 {
    match reason {
        TerminalReason::StdoutDisconnected => 0u8,
        TerminalReason::OutboundQueueUnavailable => 1u8,
        TerminalReason::CallbackPanicked => 2u8,
        TerminalReason::ReducerPoisoned => 3u8,
        TerminalReason::HookStopped => 4u8,
        TerminalReason::OutboundEncodingUnavailable => 5u8,
        TerminalReason::EventTapTimeoutRecoveryFailed => 6u8,
        TerminalReason::EventTapRepeatedTimeout => 7u8,
        TerminalReason::EventTapDisabledByUserInput => 8u8,
        TerminalReason::ActivationConfigurationUnavailable => 9u8,
        TerminalReason::OwnerThreadUnresponsive => 10u8,
        TerminalReason::AudioDeviceMonitorUnavailable => 11u8,
        TerminalReason::InputInjectionUnavailable => 12u8,
    }
}

/// The terminal reason with a given code, if the code names one.
pub open spec fn reason_of_code(code: u8) -> Option<TerminalReason> {
    if code == 0 {
        Some(TerminalReason::StdoutDisconnected)
    } else if code == 1 {
        Some(TerminalReason::OutboundQueueUnavailable)
    } else if code == 2 {
        Some(TerminalReason::CallbackPanicked)
    } else if code == 3 {
        Some(TerminalReason::ReducerPoisoned)
    } else if code == 4 {
        Some(TerminalReason::HookStopped)
    } else if code == 5 {
        Some(TerminalReason::OutboundEncodingUnavailable)
    } else if code == 6 {
        Some(TerminalReason::EventTapTimeoutRecoveryFailed)
    } else if code == 7 {
        Some(TerminalReason::EventTapRepeatedTimeout)
    } else if code == 8 {
        Some(TerminalReason::EventTapDisabledByUserInput)
    } else if code == 9 {
        Some(TerminalReason::ActivationConfigurationUnavailable)
    } else if code == 10 {
        Some(TerminalReason::OwnerThreadUnresponsive)
    } else if code == 11 {
        Some(TerminalReason::AudioDeviceMonitorUnavailable)
    } else if code == 12 {
        Some(TerminalReason::InputInjectionUnavailable)
    } else {
        None
    }
}

impl TerminalReason {
    /// The one-byte code of this reason.
    pub fn to_u8(self) -> (code: u8)
        ensures
            code == reason_code(self),
    {
        match self {
            TerminalReason::StdoutDisconnected => 0,
            TerminalReason::OutboundQueueUnavailable => 1,
            TerminalReason::CallbackPanicked => 2,
            TerminalReason::ReducerPoisoned => 3,
            TerminalReason::HookStopped => 4,
            TerminalReason::OutboundEncodingUnavailable => 5,
            TerminalReason::EventTapTimeoutRecoveryFailed => 6,
            TerminalReason::EventTapRepeatedTimeout => 7,
            TerminalReason::EventTapDisabledByUserInput => 8,
            TerminalReason::ActivationConfigurationUnavailable => 9,
            TerminalReason::OwnerThreadUnresponsive => 10,
            TerminalReason::AudioDeviceMonitorUnavailable => 11,
            TerminalReason::InputInjectionUnavailable => 12,
        }
    }

    /// The reason with a given code; `None` for a code that names none.
    pub fn from_u8(value: u8) -> (reason: Option<TerminalReason>)
        ensures
            reason == reason_of_code(value),
    {
        match value {
            0 => Some(TerminalReason::StdoutDisconnected),
            1 => Some(TerminalReason::OutboundQueueUnavailable),
            2 => Some(TerminalReason::CallbackPanicked),
            3 => Some(TerminalReason::ReducerPoisoned),
            4 => Some(TerminalReason::HookStopped),
            5 => Some(TerminalReason::OutboundEncodingUnavailable),
            6 => Some(TerminalReason::EventTapTimeoutRecoveryFailed),
            7 => Some(TerminalReason::EventTapRepeatedTimeout),
            8 => Some(TerminalReason::EventTapDisabledByUserInput),
            9 => Some(TerminalReason::ActivationConfigurationUnavailable),
            10 => Some(TerminalReason::OwnerThreadUnresponsive),
            11 => Some(TerminalReason::AudioDeviceMonitorUnavailable),
            12 => Some(TerminalReason::InputInjectionUnavailable),
            _ => None,
        }
    }
}

/// Every reason's code decodes back to that reason, and no reason's code is
/// the unset marker.
pub proof fn law_reason_code_round_trip(reason: TerminalReason)
    ensures
        reason_of_code(reason_code(reason)) == Some(reason),
        reason_code(reason) != TERMINAL_REASON_UNSET,
{
}

/// Distinct reasons have distinct codes.
pub proof fn law_reason_code_injective(a: TerminalReason, b: TerminalReason)
    requires
        reason_code(a) == reason_code(b),
    ensures
        a == b,
{
    assert(reason_of_code(reason_code(a)) == Some(a));
    assert(reason_of_code(reason_code(b)) == Some(b));
}

#[verifier::external_type_specification]
#[verifier::external_body]
#[verifier::reject_recursive_types(T)]
pub struct ExSender<T>(crossbeam_channel::Sender<T>);

/// A crossbeam sender with a record of every message offered through it.
#[verifier::reject_recursive_types(T)]
pub struct OfferingSender<T> {
    sender: Sender<T>,
    offered: Ghost<Seq<T>>,
    taken: Ghost<Seq<bool>>,
}

impl<T> OfferingSender<T> {
    /// The messages offered so far, oldest first, whether or not the
    /// channel took them.
    pub closed spec fn spec_offered(&self) -> Seq<T> {
        self.offered@
    }

    /// For each offer, oldest first, whether the channel took it.
    pub closed spec fn spec_taken(&self) -> Seq<bool> {
        self.taken@
    }

    /// A sender that has offered nothing yet.
    pub fn new(sender: Sender<T>) -> (offering: Self)
        ensures
            offering.spec_offered() == Seq::<T>::empty(),
            offering.spec_taken() == Seq::<bool>::empty(),
    {
        OfferingSender { sender, offered: Ghost(Seq::empty()), taken: Ghost(Seq::empty()) }
    }

    /// Offers `message` to the channel once, without blocking, through
    /// `crossbeam_channel::Sender::try_send`; `true` when the channel took
    /// it. The message and the answer are recorded. Whether it is taken
    /// depends on the receiver and the channel's fill level, so nothing more
    /// is stated of the result.
    #[verifier::external_body]
    fn try_offer(&mut self, message: T) -> (sent: bool)
        ensures
            final(self).spec_offered() == old(self).spec_offered().push(message),
            final(self).spec_taken() == old(self).spec_taken().push(sent),
    {
        self.sender.try_send(message).is_ok()
    }
}

/// The terminal record after a trigger: only the first trigger offers its
/// reason.
pub open spec fn offered_after_trigger(offered: Seq<TerminalReason>, slot: u8, reason: TerminalReason) -> Seq<
    TerminalReason,
> {
    if slot == TERMINAL_REASON_UNSET {
        offered.push(reason)
    } else {
        offered
    }
}

/// The reason slot after a trigger: the first reason wins.
pub open spec fn slot_after_trigger(slot: u8, reason: TerminalReason) -> u8 {
    if slot == TERMINAL_REASON_UNSET {
        reason_code(reason)
    } else {
        slot
    }
}

/// The first trigger's reason is the one that stays: later triggers change
/// nothing in the slot.
pub proof fn law_first_trigger_wins(slot: u8, first: TerminalReason, later: TerminalReason)
    requires
        slot == TERMINAL_REASON_UNSET,
    ensures
        reason_of_code(slot_after_trigger(slot, first)) == Some(first),
        slot_after_trigger(slot_after_trigger(slot, first), later) == slot_after_trigger(slot, first),
{
    law_reason_code_round_trip(first);
}

/// Only the first trigger offers a reason to the coordinator channel: after
/// a first and a later trigger, exactly the first reason was offered.
pub proof fn law_first_trigger_offers_once(
    offered: Seq<TerminalReason>,
    first: TerminalReason,
    later: TerminalReason,
)
    ensures
        offered_after_trigger(
            offered_after_trigger(offered, TERMINAL_REASON_UNSET, first),
            slot_after_trigger(TERMINAL_REASON_UNSET, first),
            later,
        ) == offered.push(first),
{
}

/// Idempotent, nonblocking terminal-failure signal shared by callbacks, the
/// stdout writer, and the coordinator. Triggering closes the callback gate
/// before attempting a bounded notification, so hooks fail open even if the
/// coordinator has already gone away.
pub struct TerminalSignal {
    gate: CallbackGate,
    sender: OfferingSender<TerminalReason>,
    reason: u8,
}

impl TerminalSignal {
    /// The slot holds either the unset marker or the code of a reason.
    pub closed spec fn wf(&self) -> bool {
        self.reason == TERMINAL_REASON_UNSET || reason_of_code(self.reason) is Some
    }

    pub closed spec fn spec_gate(&self) -> CallbackGate {
        self.gate
    }

    /// The raw reason slot: `TERMINAL_REASON_UNSET` until the first trigger.
    pub closed spec fn slot(&self) -> u8 {
        self.reason
    }

    /// The reasons offered to the coordinator channel so far.
    pub closed spec fn spec_offered(&self) -> Seq<TerminalReason> {
        self.sender.spec_offered()
    }

    pub open spec fn spec_is_triggered(&self) -> bool {
        self.slot() != TERMINAL_REASON_UNSET
    }

    pub open spec fn spec_reason(&self) -> Option<TerminalReason> {
        reason_of_code(self.slot())
    }

    /// A signal over `gate` that has not been triggered.
    pub fn new(gate: CallbackGate, sender: Sender<TerminalReason>) -> (signal: Self)
        ensures
            signal.spec_gate() == gate,
            signal.wf(),
            signal.slot() == TERMINAL_REASON_UNSET,
            !signal.spec_is_triggered(),
            signal.spec_reason() is None,
            signal.spec_offered() == Seq::<TerminalReason>::empty(),
    {
        TerminalSignal { gate, sender: OfferingSender::new(sender), reason: TERMINAL_REASON_UNSET }
    }

    /// The callback gate this signal closes.
    pub fn gate(&self) -> (gate: &CallbackGate)
        ensures
            *gate == self.spec_gate(),
    {
        &self.gate
    }

    /// Closes the callback gate, then records `reason` if no reason was recorded yet;
    /// only that first trigger offers the reason to the coordinator channel.
    pub fn trigger(&mut self, reason: TerminalReason)
        ensures
            final(self).spec_gate().word() == gate_word_after_close(old(self).spec_gate().word()),
            !final(self).spec_gate().spec_is_open(),
            final(self).slot() == slot_after_trigger(old(self).slot(), reason),
            final(self).spec_is_triggered(),
            old(self).wf() ==> final(self).wf(),
            old(self).spec_is_triggered() ==> final(self).spec_reason() == old(self).spec_reason(),
            !old(self).spec_is_triggered() ==> final(self).spec_reason() == Some(reason),
            final(self).spec_offered() == offered_after_trigger(old(self).spec_offered(), old(self).slot(), reason),
    {
        self.gate.close();
        if self.reason == TERMINAL_REASON_UNSET {
            proof {
                law_reason_code_round_trip(reason);
            }
            self.reason = reason.to_u8();
            let _taken = self.sender.try_offer(reason);
        }
    }

    /// Whether any reason has been recorded.
    pub fn is_triggered(&self) -> (triggered: bool)
        ensures
            triggered == self.spec_is_triggered(),
    {
        self.reason != TERMINAL_REASON_UNSET
    }

    /// The first recorded reason, if any.
    pub fn reason(&self) -> (reason: Option<TerminalReason>)
        ensures
            reason == self.spec_reason(),
            self.wf() ==> (reason is Some <==> self.spec_is_triggered()),
    {
        TerminalReason::from_u8(self.reason)
    }
}

/// The terminal signal after a delivery attempt that held a lease: a taken
/// event leaves it as it was; a refused one triggers it with
/// `OutboundQueueUnavailable`. Either way the lease goes back.
/// `word` is the callback gate word while the lease is held.
pub open spec fn settled_after_delivery(terminal: TerminalSignal, word: u64, after: TerminalSignal, sent: bool) -> bool {
    &&& sent ==> {
        &&& after.spec_gate().word() == gate_word_after_release(word)
        &&& after.slot() == terminal.slot()
        &&& after.spec_offered() == terminal.spec_offered()
    }
    &&& !sent ==> {
        &&& after.spec_gate().word() == gate_word_after_release(gate_word_after_close(word))
        &&& after.slot() == slot_after_trigger(terminal.slot(), TerminalReason::OutboundQueueUnavailable)
        &&& after.spec_offered() == offered_after_trigger(
            terminal.spec_offered(),
            terminal.slot(),
            TerminalReason::OutboundQueueUnavailable,
        )
    }
    &&& terminal.wf() ==> after.wf()
}

/// Settles a delivery attempt once the channel has answered: a refused
/// event makes the failure terminal; the lease is handed back; the answer
/// is the result.
pub fn settle_delivery(terminal: &mut TerminalSignal, lease: CallbackDeliveryLease, sent: bool) -> (delivered: bool)
    ensures
        delivered == sent,
        settled_after_delivery(*old(terminal), old(terminal).spec_gate().word(), *final(terminal), sent),
{
    if !sent {
        terminal.trigger(TerminalReason::OutboundQueueUnavailable);
    }
    terminal.gate.release_delivery(lease);
    sent
}

/// Attempts one bounded callback notification. Without a lease from the callback gate
/// nothing is offered and `false` comes back. With one, the event is offered to
/// the outbound channel once and the attempt is settled with the channel's
/// answer (`settle_delivery`): a refusal is terminal, and the answer is
/// returned.
pub fn deliver_callback_event<E>(outbound: &mut OfferingSender<E>, terminal: &mut TerminalSignal, event: E) -> (delivered: bool)
    ensures
        old(terminal).wf() ==> final(terminal).wf(),
        !gate_word_admits(old(terminal).spec_gate().word()) ==> {
            &&& !delivered
            &&& *final(terminal) == *old(terminal)
            &&& final(outbound).spec_offered() == old(outbound).spec_offered()
            &&& final(outbound).spec_taken() == old(outbound).spec_taken()
        },
        gate_word_admits(old(terminal).spec_gate().word()) ==> {
            &&& final(outbound).spec_offered() == old(outbound).spec_offered().push(event)
            &&& final(outbound).spec_taken() == old(outbound).spec_taken().push(delivered)
            &&& settled_after_delivery(
                *old(terminal),
                (old(terminal).spec_gate().word() + 1) as u64,
                *final(terminal),
                delivered,
            )
        },
{
    match terminal.gate.try_acquire_delivery() {
        None => false,
        Some(lease) => {
            let sent = outbound.try_offer(event);
            settle_delivery(terminal, lease, sent)
        },
    }
}

} // verus!
