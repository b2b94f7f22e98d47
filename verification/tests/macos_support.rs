use keyboard_owner::keychain::KeychainError;
use keyboard_owner::native_keychain::{
    fixed_items_absent, item_delete_outcome, latch_update_outcome, optional_access_group,
    ERR_SEC_ITEM_NOT_FOUND, ERR_SEC_SUCCESS,
};
use keyboard_owner::removal::{preconfig_cleanup_decision, PreconfigCleanup};
use keyboard_owner::resilience::isolate_peer_rejection;

#[test]
fn absent_or_empty_access_group_omits_only_that_selector() {
    assert_eq!(optional_access_group(None), None);
    assert_eq!(optional_access_group(Some("")), None);
    assert_eq!(
        optional_access_group(Some("local.group")),
        Some("local.group")
    );
}

#[test]
fn reboot_after_authenticated_native_cleanup_finishes_without_bundle() {
    assert_eq!(
        preconfig_cleanup_decision(true),
        PreconfigCleanup::FinishWithoutBundle
    );
}

#[test]
fn missing_bundle_before_native_cleanup_stays_poisoned_for_reinstall() {
    assert_eq!(
        preconfig_cleanup_decision(false),
        PreconfigCleanup::RetryAfterReinstall
    );
}

#[test]
fn adversarial_peer_failures_do_not_poison_the_next_connection() {
    let attempts = [
        isolate_peer_rejection::<u8, _>(Err("truncated")),
        isolate_peer_rejection::<u8, _>(Err("oversized")),
        isolate_peer_rejection::<u8, _>(Err("wrong-token")),
        isolate_peer_rejection::<u8, _>(Err("wrong-code")),
        isolate_peer_rejection::<u8, _>(Err("bad-proof")),
        isolate_peer_rejection::<u8, &str>(Ok(7)),
    ];
    assert_eq!(attempts, [None, None, None, None, None, Some(7)]);
}

#[test]
fn fixed_item_statuses_classify_cleanup() {
    assert_eq!(
        fixed_items_absent([ERR_SEC_ITEM_NOT_FOUND, ERR_SEC_ITEM_NOT_FOUND]),
        Ok(true)
    );
    assert_eq!(
        fixed_items_absent([ERR_SEC_SUCCESS, ERR_SEC_ITEM_NOT_FOUND]),
        Ok(false)
    );
    assert_eq!(
        fixed_items_absent([-1, ERR_SEC_SUCCESS]),
        Ok(false)
    );
    assert_eq!(
        fixed_items_absent([-1, ERR_SEC_ITEM_NOT_FOUND]),
        Err(KeychainError::Unavailable)
    );
}

#[test]
fn keychain_status_outcomes() {
    assert_eq!(latch_update_outcome(ERR_SEC_SUCCESS), Ok(()));
    assert_eq!(
        latch_update_outcome(ERR_SEC_ITEM_NOT_FOUND),
        Err(KeychainError::Missing)
    );
    assert_eq!(latch_update_outcome(-9), Err(KeychainError::Unavailable));
    assert_eq!(item_delete_outcome(ERR_SEC_SUCCESS), Ok(()));
    assert_eq!(item_delete_outcome(ERR_SEC_ITEM_NOT_FOUND), Ok(()));
    assert_eq!(item_delete_outcome(-9), Err(KeychainError::Unavailable));
}
