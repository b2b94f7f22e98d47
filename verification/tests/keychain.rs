use keyboard_owner::identity::{
    AuditToken, AuthorizationPurpose, Bytes32, IdentityError, LocalSigningIdentity,
    PeerCredentials, PeerRole, RequirementHash, GATEWAY_SIGNING_IDENTIFIER,
    OWNER_SIGNING_IDENTIFIER,
};
use keyboard_owner::identity_policy::{CodeIdentity, MacosPeerPolicy, RolePolicy};
use keyboard_owner::identity_text::self_signed_designated_requirement;
use keyboard_owner::keychain::{
    KeychainAccess, KeychainError, KeychainItem, KeychainPolicy, KeychainSharingMode,
    KeychainStore, KEYCHAIN_SECRET_BYTES, MAX_MAINTENANCE_LATCH_BYTES,
};
use keyboard_owner::peer_evidence::{PeerEvidence, PeerEvidenceProvider, VerifiedPeer};

fn bytes(value: u8) -> Bytes32 {
    Bytes32::new([value; 32])
}

fn role(identifier: &str, path: &str, marker: u8) -> RolePolicy {
    let certificate = bytes(8);
    let requirement_certificate_hash = RequirementHash::new([9; 20]);
    RolePolicy {
        signing_identifier: identifier.to_owned(),
        designated_requirement: self_signed_designated_requirement(
            identifier,
            requirement_certificate_hash,
        ),
        canonical_executable_path: path.to_owned(),
        executable_sha256: bytes(marker),
        code_directory_hash: RequirementHash::new([marker; 20]),
        signing_identity: LocalSigningIdentity::LocallyTrustedSelfSigned {
            certificate_sha256: certificate,
            requirement_certificate_hash,
        },
        capture_authorized: true,
    }
}

fn peer_policy() -> MacosPeerPolicy {
    MacosPeerPolicy {
        console_uid: 501,
        audit_session_id: 12,
        release_build_digest: bytes(3),
        gateway: role(GATEWAY_SIGNING_IDENTIFIER, "/Applications/TQ/gateway", 4),
        owner: role(OWNER_SIGNING_IDENTIFIER, "/Applications/TQ/owner", 5),
    }
}

struct Evidence {
    identity: CodeIdentity,
    expected_requirement: String,
}

impl PeerEvidenceProvider for Evidence {
    fn peer_credentials(&self) -> Result<PeerCredentials, IdentityError> {
        Ok(PeerCredentials { uid: 501, gid: 20 })
    }

    fn peer_pid(&self) -> Result<u32, IdentityError> {
        Ok(44)
    }

    fn peer_audit_token(&self) -> Result<AuditToken, IdentityError> {
        Ok(AuditToken::new([0, 501, 0, 0, 0, 44, 12, 0]))
    }

    fn sec_code_identity(&self, _token: AuditToken) -> Result<CodeIdentity, IdentityError> {
        Ok(self.identity.clone())
    }

    fn evaluate_designated_requirement(
        &self,
        _token: AuditToken,
        requirement: &str,
    ) -> Result<bool, IdentityError> {
        Ok(requirement == self.expected_requirement)
    }

    fn connection_binding(&self) -> Result<Bytes32, IdentityError> {
        Ok(bytes(91))
    }
}

fn verified(policy: &MacosPeerPolicy, role: PeerRole, purpose: AuthorizationPurpose) -> VerifiedPeer {
    let expected = policy.role(role);
    let evidence = Evidence {
        expected_requirement: expected.designated_requirement.clone(),
        identity: CodeIdentity {
            signing_identifier: expected.signing_identifier.clone(),
            canonical_executable_path: expected.canonical_executable_path.clone(),
            executable_sha256: expected.executable_sha256,
            code_directory_hash: expected.code_directory_hash,
            release_build_digest: policy.release_build_digest,
            signing_identity: expected.signing_identity,
            statically_valid: true,
        },
    };
    PeerEvidence::new(&evidence)
        .verify(policy, role, purpose)
        .ok()
        .expect("verified test peer")
}

#[derive(Default)]
struct FakeStore {
    latch: Vec<u8>,
}

impl KeychainStore for FakeStore {
    fn read_owner_handshake_secret_without_ui(&self) -> Result<KeychainItem, KeychainError> {
        KeychainItem::from_bytes([7; KEYCHAIN_SECRET_BYTES])
    }

    fn write_maintenance_latch_without_ui(&mut self, value: &[u8]) -> Result<(), KeychainError> {
        self.latch = value.to_vec();
        Ok(())
    }
}

#[test]
fn requirement_acl_allows_only_verified_gateway_and_owner_to_read() {
    let peer_policy = peer_policy();
    let policy =
        KeychainPolicy::from_peer_policy(&peer_policy, KeychainSharingMode::RequirementAcl)
            .ok()
            .expect("policy");
    for role in [PeerRole::Gateway, PeerRole::Owner] {
        let mut store = FakeStore::default();
        let peer = verified(&peer_policy, role, AuthorizationPurpose::Capture);
        let secret = KeychainAccess::new(&mut store, &peer, &policy)
            .handshake_secret()
            .ok()
            .expect("role-bound secret");
        assert_eq!(secret.expose_to_authenticated_handshake(), &[7; 32]);
    }
}

#[test]
fn owner_mediated_fallback_never_releases_secret_to_gateway() {
    let peer_policy = peer_policy();
    let policy =
        KeychainPolicy::from_peer_policy(&peer_policy, KeychainSharingMode::OwnerMediated)
            .ok()
            .expect("policy");
    let mut store = FakeStore::default();
    let gateway = verified(
        &peer_policy,
        PeerRole::Gateway,
        AuthorizationPurpose::Capture,
    );
    assert!(matches!(
        KeychainAccess::new(&mut store, &gateway, &policy).handshake_secret(),
        Err(KeychainError::AccessDenied)
    ));
    let owner = verified(&peer_policy, PeerRole::Owner, AuthorizationPurpose::Capture);
    assert!(KeychainAccess::new(&mut store, &owner, &policy)
        .handshake_secret()
        .is_ok());
}

#[test]
fn gateway_cannot_mutate_latch() {
    let peer_policy = peer_policy();
    let policy =
        KeychainPolicy::from_peer_policy(&peer_policy, KeychainSharingMode::RequirementAcl)
            .ok()
            .expect("policy");
    let mut store = FakeStore::default();
    let gateway = verified(
        &peer_policy,
        PeerRole::Gateway,
        AuthorizationPurpose::Maintenance,
    );
    let mut access = KeychainAccess::new(&mut store, &gateway, &policy);
    assert_eq!(
        access.persist_maintenance_latch(b"transaction"),
        Err(KeychainError::AccessDenied)
    );
    drop(access);
    assert!(store.latch.is_empty());
}

#[test]
fn owner_latch_is_nonempty_and_bounded() {
    let peer_policy = peer_policy();
    let policy =
        KeychainPolicy::from_peer_policy(&peer_policy, KeychainSharingMode::RequirementAcl)
            .ok()
            .expect("policy");
    let mut store = FakeStore::default();
    let owner = verified(
        &peer_policy,
        PeerRole::Owner,
        AuthorizationPurpose::Maintenance,
    );
    let mut access = KeychainAccess::new(&mut store, &owner, &policy);
    assert_eq!(
        access.persist_maintenance_latch(&[]),
        Err(KeychainError::AccessDenied)
    );
    assert_eq!(
        access.persist_maintenance_latch(&[1; MAX_MAINTENANCE_LATCH_BYTES + 1]),
        Err(KeychainError::AccessDenied)
    );
    access
        .persist_maintenance_latch(b"bounded-latch")
        .expect("owner writes latch");
    drop(access);
    assert_eq!(store.latch, b"bounded-latch".to_vec());
}

#[test]
fn stale_verified_peer_cannot_be_replayed_against_new_enrollment() {
    let old_peer_policy = peer_policy();
    let gateway = verified(
        &old_peer_policy,
        PeerRole::Gateway,
        AuthorizationPurpose::Capture,
    );
    let mut new_peer_policy = old_peer_policy.clone();
    new_peer_policy.owner.executable_sha256 = bytes(99);
    let policy =
        KeychainPolicy::from_peer_policy(&new_peer_policy, KeychainSharingMode::RequirementAcl)
            .ok()
            .expect("new policy");
    let mut store = FakeStore::default();
    assert!(matches!(
        KeychainAccess::new(&mut store, &gateway, &policy).handshake_secret(),
        Err(KeychainError::AccessDenied)
    ));
}

#[test]
fn all_zero_secret_is_rejected_and_debug_is_redacted() {
    assert!(matches!(
        KeychainItem::from_bytes([0; KEYCHAIN_SECRET_BYTES]),
        Err(KeychainError::InvalidItem)
    ));
    let secret = KeychainItem::from_bytes([1; KEYCHAIN_SECRET_BYTES])
        .ok()
        .expect("secret");
    assert_eq!(secret.redacted_debug(), "KeychainItem(<redacted>)");
    assert_eq!(secret.into_authenticated_handshake_secret(), [1; 32]);
}

#[test]
fn invalid_peer_policy_gives_no_keychain_policy() {
    let mut peer_policy = peer_policy();
    peer_policy.console_uid = 501;
    peer_policy.audit_session_id = 0;
    assert!(matches!(
        KeychainPolicy::from_peer_policy(&peer_policy, KeychainSharingMode::RequirementAcl),
        Err(KeychainError::InvalidPolicy)
    ));
}

#[test]
fn capture_owner_cannot_write_latch() {
    let peer_policy = peer_policy();
    let policy =
        KeychainPolicy::from_peer_policy(&peer_policy, KeychainSharingMode::RequirementAcl)
            .ok()
            .expect("policy");
    let mut store = FakeStore::default();
    let owner = verified(&peer_policy, PeerRole::Owner, AuthorizationPurpose::Capture);
    let mut access = KeychainAccess::new(&mut store, &owner, &policy);
    assert_eq!(
        access.persist_maintenance_latch(b"x"),
        Err(KeychainError::AccessDenied)
    );
    assert_eq!(policy.redacted_debug(), "KeychainPolicy(<redacted>)");
    assert_eq!(KeychainError::Missing.message(), "Keychain item is missing");
}
