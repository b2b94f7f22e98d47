//! Failing the recovery journal closed: once the journal cannot keep an
//! edge, the owner stops admitting input and reports the failure as
//! terminal.

use vstd::prelude::*;
use crate::callback::{
    TerminalReason, TerminalSignal, gate_word_after_close, offered_after_trigger, slot_after_trigger,
};

verus! {

/// The owner-wide lifecycle flags that recovery decisions set.
#[derive(Clone, Copy, Debug, PartialEq, Eq, Structural)]
pub struct OwnerFlags {
    /// Later input is deferred behind the recovery journal.
    pub recovery_deferred_mode: bool,
    pub quiescing: bool,
    pub stopping: bool,
    /// The event tap reports itself usable.
    pub hook_available: bool,
    /// The maintenance timer is armed to run the owner loop again.
    pub maintenance_armed: bool,
}

/// The flags after a journal failure: deferral stays on, the owner
/// quiesces and stops, the hook is reported unavailable, and maintenance
/// is armed.
pub open spec fn failed_flags() -> OwnerFlags {
    OwnerFlags {
        recovery_deferred_mode: true,
        quiescing: true,
        stopping: true,
        hook_available: false,
        maintenance_armed: true,
    }
}

/// Whether `after` is `before` triggered with `InputInjectionUnavailable`.
pub open spec fn failed_terminal(before: TerminalSignal, after: TerminalSignal) -> bool {
    &&& after.spec_gate().word() == gate_word_after_close(before.spec_gate().word())
    &&& !after.spec_gate().spec_is_open()
    &&& after.slot() == slot_after_trigger(before.slot(), TerminalReason::InputInjectionUnavailable)
    &&& after.spec_offered() == offered_after_trigger(
        before.spec_offered(),
        before.slot(),
        TerminalReason::InputInjectionUnavailable,
    )
    &&& before.wf() ==> after.wf()
}

/// Fails the recovery journal closed: the callback gate closes, the owner
/// quiesces and stops with recovery deferral on, the hook is reported
/// unavailable, the terminal is triggered with `InputInjectionUnavailable`,
/// and maintenance is armed.
pub fn fail_recovery_edge_journal(flags: &mut OwnerFlags, terminal: &mut TerminalSignal)
    ensures
        *final(flags) == failed_flags(),
        failed_terminal(*old(terminal), *final(terminal)),
{
    flags.recovery_deferred_mode = true;
    flags.quiescing = true;
    flags.stopping = true;
    flags.hook_available = false;
    terminal.trigger(TerminalReason::InputInjectionUnavailable);
    flags.maintenance_armed = true;
}

/// Concludes a capture into the journal: a journaled edge arms maintenance
/// so that the journal is submitted; an edge the journal could not keep
/// fails it closed.
pub fn conclude_capture(journaled: bool, flags: &mut OwnerFlags, terminal: &mut TerminalSignal)
    ensures
        journaled ==> *final(flags) == (OwnerFlags { maintenance_armed: true, ..*old(flags) })
            && *final(terminal) == *old(terminal),
        !journaled ==> *final(flags) == failed_flags() && failed_terminal(*old(terminal), *final(terminal)),
{
    if journaled {
        flags.maintenance_armed = true;
    } else {
        fail_recovery_edge_journal(flags, terminal);
    }
}

} // verus!
