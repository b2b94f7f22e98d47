//! Decisions of the fixed-item Keychain queries: which access-group selector
//! a query carries, and what the Security framework's status codes mean.

use vstd::prelude::*;
use crate::keychain::KeychainError;

verus! {

/// The Security framework's `errSecSuccess` status.
pub const ERR_SEC_SUCCESS: i32 = 0;

/// The Security framework's `errSecItemNotFound` status.
pub const ERR_SEC_ITEM_NOT_FOUND: i32 = -25300;

/// A configured access group selects items only when it is nonempty; an
/// absent or empty group omits just that selector.
pub fn optional_access_group(value: Option<&str>) -> (group: Option<&str>)
    ensures
        group == (match value {
            Some(name) => if name@.len() > 0 {
                Some(name)
            } else {
                None::<&str>
            },
            None => None::<&str>,
        }),
{
    match value {
        Some(name) => {
            if name.is_empty() {
                None
            } else {
                Some(name)
            }
        },
        None => None,
    }
}

/// Both fixed items absent is `true`; any item present is `false`; any
/// other status fails closed.
pub fn fixed_items_absent(statuses: [i32; 2]) -> (result: Result<bool, KeychainError>)
    ensures
        (statuses@[0] == ERR_SEC_ITEM_NOT_FOUND && statuses@[1] == ERR_SEC_ITEM_NOT_FOUND)
            ==> result == Ok::<bool, KeychainError>(true),
        !(statuses@[0] == ERR_SEC_ITEM_NOT_FOUND && statuses@[1] == ERR_SEC_ITEM_NOT_FOUND) && (
        statuses@[0] == ERR_SEC_SUCCESS || statuses@[1] == ERR_SEC_SUCCESS) ==> result == Ok::<
            bool,
            KeychainError,
        >(false),
        !(statuses@[0] == ERR_SEC_ITEM_NOT_FOUND && statuses@[1] == ERR_SEC_ITEM_NOT_FOUND) && !(
        statuses@[0] == ERR_SEC_SUCCESS || statuses@[1] == ERR_SEC_SUCCESS) ==> result == Err::<
            bool,
            KeychainError,
        >(KeychainError::Unavailable),
{
    if statuses[0] == ERR_SEC_ITEM_NOT_FOUND && statuses[1] == ERR_SEC_ITEM_NOT_FOUND {
        Ok(true)
    } else if statuses[0] == ERR_SEC_SUCCESS || statuses[1] == ERR_SEC_SUCCESS {
        Ok(false)
    } else {
        Err(KeychainError::Unavailable)
    }
}

/// The outcome of updating the maintenance latch item.
pub fn latch_update_outcome(status: i32) -> (result: Result<(), KeychainError>)
    ensures
        result == (if status == ERR_SEC_SUCCESS {
            Ok(())
        } else if status == ERR_SEC_ITEM_NOT_FOUND {
            Err(KeychainError::Missing)
        } else {
            Err(KeychainError::Unavailable)
        }),
{
    if status == ERR_SEC_SUCCESS {
        Ok(())
    } else if status == ERR_SEC_ITEM_NOT_FOUND {
        Err(KeychainError::Missing)
    } else {
        Err(KeychainError::Unavailable)
    }
}

/// The outcome of deleting one fixed item: deleted or already gone is fine.
pub fn item_delete_outcome(status: i32) -> (result: Result<(), KeychainError>)
    ensures
        result == (if status == ERR_SEC_SUCCESS || status == ERR_SEC_ITEM_NOT_FOUND {
            Ok(())
        } else {
            Err(KeychainError::Unavailable)
        }),
{
    if status != ERR_SEC_SUCCESS && status != ERR_SEC_ITEM_NOT_FOUND {
        Err(KeychainError::Unavailable)
    } else {
        Ok(())
    }
}

} // verus!
