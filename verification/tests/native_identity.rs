use keyboard_owner::identity::{Bytes32, IdentityError, LocalSigningIdentity, RequirementHash};
use keyboard_owner::identity_policy::{CodeIdentity, RolePolicy};
use keyboard_owner::identity_text::self_signed_designated_requirement;
use keyboard_owner::native_identity::{validate_current_identity, ActualSigningIdentity};

#[test]
fn running_owner_validation_is_exact_and_fails_on_hash_mismatch() {
    let identity = LocalSigningIdentity::LocallyTrustedSelfSigned {
        certificate_sha256: Bytes32::new([7; 32]),
        requirement_certificate_hash: RequirementHash::new([8; 20]),
    };
    let actual = CodeIdentity {
        signing_identifier: "com.talkingquill.app.keyboard-owner".to_owned(),
        canonical_executable_path: "/Applications/TQ/owner".to_owned(),
        executable_sha256: Bytes32::new([5; 32]),
        code_directory_hash: RequirementHash::new([9; 20]),
        release_build_digest: Bytes32::new([6; 32]),
        signing_identity: identity,
        statically_valid: true,
    };
    let mut expected = RolePolicy {
        signing_identifier: actual.signing_identifier.clone(),
        designated_requirement: self_signed_designated_requirement(
            &actual.signing_identifier,
            RequirementHash::new([8; 20]),
        ),
        canonical_executable_path: actual.canonical_executable_path.clone(),
        executable_sha256: actual.executable_sha256,
        code_directory_hash: actual.code_directory_hash,
        signing_identity: actual.signing_identity,
        capture_authorized: true,
    };
    assert_eq!(validate_current_identity(&actual, &expected), Ok(()));
    expected.executable_sha256 = Bytes32::new([99; 32]);
    assert_eq!(
        validate_current_identity(&actual, &expected),
        Err(IdentityError::IdentityMismatch)
    );
}

#[test]
fn self_signed_dynamic_static_equality_includes_code_directory_hash() {
    let identity = LocalSigningIdentity::LocallyTrustedSelfSigned {
        certificate_sha256: Bytes32::new([7; 32]),
        requirement_certificate_hash: RequirementHash::new([8; 20]),
    };
    let dynamic = ActualSigningIdentity {
        identifier: "com.talkingquill.gateway".into(),
        code_directory_hash: RequirementHash::new([9; 20]),
        identity,
    };
    let matching = ActualSigningIdentity {
        identifier: dynamic.identifier.clone(),
        code_directory_hash: dynamic.code_directory_hash,
        identity,
    };
    assert!(dynamic.same_as(&matching));
    let changed_static_code = ActualSigningIdentity {
        identifier: dynamic.identifier.clone(),
        code_directory_hash: RequirementHash::new([10; 20]),
        identity,
    };
    assert!(!dynamic.same_as(&changed_static_code));
}
