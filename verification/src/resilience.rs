//! Isolation of one peer's handshake failure from the listener.

use vstd::prelude::*;

verus! {

/// Converts one peer-local handshake result into a listener result. A
/// rejection is data, not an endpoint failure: it becomes `None`, and only
/// listener or worker infrastructure may fail the runtime.
pub fn isolate_peer_rejection<T, E>(result: Result<T, E>) -> (accepted: Option<T>)
    ensures
        accepted == (match result {
            Ok(value) => Some(value),
            Err(_) => None::<T>,
        }),
{
    match result {
        Ok(value) => Some(value),
        Err(_) => None,
    }
}

} // verus!
