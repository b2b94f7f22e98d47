use sha2::Digest;
use keyboard_owner::identity::{
    AuditToken, AuthorizationPurpose, Bytes32, IdentityError, LocalSigningIdentity,
    PeerCredentials, PeerRole, RequirementHash, TccAuthorization, TccPersistenceExpectation,
    GATEWAY_SIGNING_IDENTIFIER, OWNER_SIGNING_IDENTIFIER,
};
use keyboard_owner::identity_digest::{
    audit_token_connection_binding, connection_binding_message, os_session_digest,
    peer_policy_digest,
    peer_policy_message, requirement_digest,
};
use keyboard_owner::identity_policy::{CodeIdentity, MacosPeerPolicy, RolePolicy};
use keyboard_owner::identity_text::{
    ad_hoc_designated_requirement, requirement_hex, self_signed_designated_requirement,
};
use keyboard_owner::peer_evidence::{PeerEvidence, PeerEvidenceProvider};

const UID: u32 = 501;
const PID: u32 = 42;
const SESSION: u32 = 77;

fn bytes(value: u8) -> Bytes32 {
    Bytes32::new([value; 32])
}

fn requirement_hash(value: u8) -> RequirementHash {
    RequirementHash::new([value; 20])
}

fn role(identifier: &str, path: &str, marker: u8, capture_authorized: bool) -> RolePolicy {
    let certificate = bytes(9);
    let requirement_certificate_hash = requirement_hash(10);
    RolePolicy {
        signing_identifier: identifier.to_owned(),
        designated_requirement: self_signed_designated_requirement(
            identifier,
            requirement_certificate_hash,
        ),
        canonical_executable_path: path.to_owned(),
        executable_sha256: bytes(marker),
        code_directory_hash: requirement_hash(marker),
        signing_identity: LocalSigningIdentity::LocallyTrustedSelfSigned {
            certificate_sha256: certificate,
            requirement_certificate_hash,
        },
        capture_authorized,
    }
}

fn policy() -> MacosPeerPolicy {
    MacosPeerPolicy {
        console_uid: UID,
        audit_session_id: SESSION,
        release_build_digest: bytes(3),
        gateway: role(
            GATEWAY_SIGNING_IDENTIFIER,
            "/Applications/Talking Quill.app/Contents/MacOS/helper",
            4,
            true,
        ),
        owner: role(
            OWNER_SIGNING_IDENTIFIER,
            "/Applications/Talking Quill.app/Contents/Library/LoginItems/owner",
            5,
            true,
        ),
    }
}

#[derive(Clone)]
struct FakeEvidence {
    credentials: PeerCredentials,
    pid: u32,
    token: AuditToken,
    identity: CodeIdentity,
    expected_requirement: String,
    requirement_error: bool,
    connection_binding: Bytes32,
}

impl FakeEvidence {
    fn gateway(policy: &MacosPeerPolicy) -> Self {
        let role = &policy.gateway;
        Self {
            credentials: PeerCredentials { uid: UID, gid: 20 },
            pid: PID,
            token: AuditToken::new([0, UID, 0, 0, 0, PID, SESSION, 0]),
            expected_requirement: role.designated_requirement.clone(),
            requirement_error: false,
            connection_binding: bytes(88),
            identity: CodeIdentity {
                signing_identifier: role.signing_identifier.clone(),
                canonical_executable_path: role.canonical_executable_path.clone(),
                executable_sha256: role.executable_sha256,
                code_directory_hash: role.code_directory_hash,
                release_build_digest: policy.release_build_digest,
                signing_identity: role.signing_identity,
                statically_valid: true,
            },
        }
    }
}

impl PeerEvidenceProvider for FakeEvidence {
    fn peer_credentials(&self) -> Result<PeerCredentials, IdentityError> {
        Ok(self.credentials)
    }

    fn peer_pid(&self) -> Result<u32, IdentityError> {
        Ok(self.pid)
    }

    fn peer_audit_token(&self) -> Result<AuditToken, IdentityError> {
        Ok(self.token)
    }

    fn sec_code_identity(&self, _token: AuditToken) -> Result<CodeIdentity, IdentityError> {
        Ok(self.identity.clone())
    }

    fn evaluate_designated_requirement(
        &self,
        _token: AuditToken,
        requirement: &str,
    ) -> Result<bool, IdentityError> {
        if self.requirement_error {
            Err(IdentityError::InvalidCode)
        } else {
            Ok(requirement == self.expected_requirement)
        }
    }

    fn connection_binding(&self) -> Result<Bytes32, IdentityError> {
        Ok(self.connection_binding)
    }
}

fn verify_error(
    evidence: &FakeEvidence,
    policy: &MacosPeerPolicy,
    purpose: AuthorizationPurpose,
) -> Option<IdentityError> {
    PeerEvidence::new(evidence)
        .verify(policy, PeerRole::Gateway, purpose)
        .err()
}

fn with_token_word(token: AuditToken, index: usize, delta: u32) -> AuditToken {
    let mut words = token.words();
    words[index] += delta;
    AuditToken::new(words)
}

#[test]
fn locally_trusted_identity_is_accepted_without_team_or_developer_id() {
    let policy = policy();
    let evidence = FakeEvidence::gateway(&policy);
    let verified = PeerEvidence::new(&evidence)
        .verify(&policy, PeerRole::Gateway, AuthorizationPurpose::Capture)
        .expect("locally enrolled identity");
    assert_eq!(verified.role(), PeerRole::Gateway);
    assert_eq!(
        policy.tcc_persistence_expectation(),
        TccPersistenceExpectation::StableLocalRequirement
    );
}

#[test]
fn exact_ad_hoc_identity_is_supported_but_declares_tcc_reauthorization() {
    let mut policy = policy();
    let cdhash = requirement_hash(11);
    policy.owner.signing_identity = LocalSigningIdentity::AdHoc {
        code_directory_hash: cdhash,
    };
    policy.owner.designated_requirement =
        ad_hoc_designated_requirement(OWNER_SIGNING_IDENTIFIER, cdhash);
    policy.validate().expect("valid ad-hoc policy");
    assert!(policy
        .owner
        .designated_requirement
        .contains("not anchor apple"));
    assert_eq!(
        policy.tcc_persistence_expectation(),
        TccPersistenceExpectation::ReauthorizationAfterIdentityChange
    );
}

#[test]
fn developer_id_and_non_self_signed_requirements_are_not_valid_local_policy() {
    let mut policy = policy();
    policy.owner.designated_requirement = format!(
        "identifier \"{}\" and anchor apple generic and certificate leaf[subject.OU] = \"TEAMID1234\"",
        OWNER_SIGNING_IDENTIFIER
    );
    assert_eq!(policy.validate(), Err(IdentityError::InvalidPolicy));

    policy.owner.designated_requirement = format!(
        "identifier \"{}\" and anchor trusted and certificate leaf = H\"{}\" and not anchor apple",
        OWNER_SIGNING_IDENTIFIER,
        requirement_hex(&requirement_hash(10))
    );
    assert_eq!(policy.validate(), Err(IdentityError::InvalidPolicy));

    let generated =
        self_signed_designated_requirement(OWNER_SIGNING_IDENTIFIER, requirement_hash(10));
    assert!(generated.contains("certificate root"));
    assert!(generated.contains("not anchor apple"));
}

#[test]
fn audit_token_binding_is_client_computable_and_token_exact() {
    let token = AuditToken::new([1, 501, 2, 3, 4, 44, 12, 5]);
    assert_eq!(
        audit_token_connection_binding(token, 501).as_bytes(),
        audit_token_connection_binding(token, 501).as_bytes()
    );
    assert_ne!(
        audit_token_connection_binding(token, 501).as_bytes(),
        audit_token_connection_binding(AuditToken::new([1, 501, 2, 3, 4, 45, 12, 5]), 501)
            .as_bytes()
    );
    assert_ne!(
        audit_token_connection_binding(token, 501).as_bytes(),
        audit_token_connection_binding(token, 502).as_bytes()
    );
}

#[test]
fn enrolled_paths_reject_dot_and_parent_components() {
    let mut value = policy();
    value.gateway.canonical_executable_path = "/Applications/TQ/../gateway".to_owned();
    assert_eq!(value.validate(), Err(IdentityError::InvalidPolicy));
    value.gateway.canonical_executable_path = "/Applications/./gateway".to_owned();
    assert_eq!(value.validate(), Err(IdentityError::InvalidPolicy));
}

#[test]
fn adversarial_peer_mutations_fail_closed() {
    let policy = policy();
    let baseline = FakeEvidence::gateway(&policy);
    let cases = [
        {
            let mut value = baseline.clone();
            value.credentials.uid += 1;
            value
        },
        {
            let mut value = baseline.clone();
            value.token = with_token_word(value.token, 5, 1);
            value
        },
        {
            let mut value = baseline.clone();
            value.token = with_token_word(value.token, 6, 1);
            value
        },
        {
            let mut value = baseline.clone();
            value.identity.signing_identifier = OWNER_SIGNING_IDENTIFIER.into();
            value
        },
        {
            let mut value = baseline.clone();
            value.identity.signing_identity = LocalSigningIdentity::AdHoc {
                code_directory_hash: requirement_hash(77),
            };
            value
        },
        {
            let mut value = baseline.clone();
            value.identity.canonical_executable_path = "/tmp/replaced".to_owned();
            value
        },
        {
            let mut value = baseline.clone();
            value.expected_requirement.push_str(" or true");
            value
        },
        {
            let mut value = baseline.clone();
            value.identity.statically_valid = false;
            value
        },
    ];
    for evidence in cases {
        assert!(PeerEvidence::new(&evidence)
            .verify(&policy, PeerRole::Gateway, AuthorizationPurpose::Capture)
            .is_err());
    }
}

#[test]
fn requirement_evaluation_errors_and_missing_connection_binding_fail_closed() {
    let policy = policy();
    let mut evidence = FakeEvidence::gateway(&policy);
    evidence.requirement_error = true;
    assert_eq!(
        verify_error(&evidence, &policy, AuthorizationPurpose::Capture),
        Some(IdentityError::InvalidCode)
    );

    evidence.requirement_error = false;
    evidence.connection_binding = Bytes32::new([0; 32]);
    assert_eq!(
        verify_error(&evidence, &policy, AuthorizationPurpose::Capture),
        Some(IdentityError::ConnectionBindingUnavailable)
    );
}

#[test]
fn raw_executable_sha_is_corroboration_not_peer_code_authority() {
    let policy = policy();
    let mut evidence = FakeEvidence::gateway(&policy);
    evidence.identity.executable_sha256 = bytes(99);
    assert!(PeerEvidence::new(&evidence)
        .verify(&policy, PeerRole::Gateway, AuthorizationPurpose::Capture)
        .is_ok());
    evidence.identity.code_directory_hash = requirement_hash(99);
    assert!(PeerEvidence::new(&evidence)
        .verify(&policy, PeerRole::Gateway, AuthorizationPurpose::Capture)
        .is_err());
}

#[test]
fn previous_enrolled_hash_can_be_maintenance_only() {
    let mut policy = policy();
    policy.gateway.capture_authorized = false;
    let evidence = FakeEvidence::gateway(&policy);
    assert_eq!(
        verify_error(&evidence, &policy, AuthorizationPurpose::Capture),
        Some(IdentityError::PurposeDenied)
    );
    assert!(PeerEvidence::new(&evidence)
        .verify(&policy, PeerRole::Gateway, AuthorizationPurpose::Maintenance)
        .is_ok());
}

#[test]
fn tcc_is_never_inferred_or_programmatically_granted() {
    let policy = policy();
    assert_eq!(
        policy.require_user_mediated_tcc(
            TccAuthorization::Granted,
            TccAuthorization::NotDetermined,
            TccAuthorization::Granted
        ),
        Err(IdentityError::UserMediatedTccRequired)
    );
    assert!(policy
        .require_user_mediated_tcc(
            TccAuthorization::Granted,
            TccAuthorization::Granted,
            TccAuthorization::Granted
        )
        .is_ok());
}

#[test]
fn kernel_evidence_errors_are_reported_in_order() {
    let policy = policy();
    let mut evidence = FakeEvidence::gateway(&policy);
    evidence.credentials.uid = 0;
    assert_eq!(
        verify_error(&evidence, &policy, AuthorizationPurpose::Capture),
        Some(IdentityError::WrongUser)
    );
    let mut evidence = FakeEvidence::gateway(&policy);
    evidence.pid = 0;
    evidence.token = AuditToken::new([0, UID, 0, 0, 0, 0, SESSION, 0]);
    assert_eq!(
        verify_error(&evidence, &policy, AuthorizationPurpose::Capture),
        Some(IdentityError::PeerTokenMismatch)
    );
    let mut evidence = FakeEvidence::gateway(&policy);
    evidence.token = with_token_word(evidence.token, 6, 1);
    assert_eq!(
        verify_error(&evidence, &policy, AuthorizationPurpose::Capture),
        Some(IdentityError::WrongAuditSession)
    );
    let mut evidence = FakeEvidence::gateway(&policy);
    evidence.identity.release_build_digest = bytes(4);
    assert_eq!(
        verify_error(&evidence, &policy, AuthorizationPurpose::Capture),
        Some(IdentityError::IdentityMismatch)
    );
}

#[test]
fn invalid_policy_is_reported_before_any_evidence() {
    let mut policy = policy();
    policy.audit_session_id = 0;
    let evidence = FakeEvidence::gateway(&policy);
    assert_eq!(
        verify_error(&evidence, &policy, AuthorizationPurpose::Maintenance),
        Some(IdentityError::InvalidPolicy)
    );
}

#[test]
fn malformed_requirement_text_is_an_invalid_requirement() {
    let mut policy = policy();
    policy.gateway.designated_requirement = "identifier \"x\"\n".to_owned();
    assert_eq!(policy.validate(), Err(IdentityError::InvalidRequirement));
    policy.gateway.designated_requirement = String::new();
    assert_eq!(policy.validate(), Err(IdentityError::InvalidRequirement));
    policy.gateway.designated_requirement = "a".repeat(2049);
    assert_eq!(policy.validate(), Err(IdentityError::InvalidRequirement));
}

#[test]
fn policy_rejects_shared_paths_and_wrong_identifiers() {
    let mut value = policy();
    value.owner.canonical_executable_path = value.gateway.canonical_executable_path.clone();
    assert_eq!(value.validate(), Err(IdentityError::InvalidPolicy));
    let mut value = policy();
    value.gateway.signing_identifier = OWNER_SIGNING_IDENTIFIER.to_owned();
    assert_eq!(value.validate(), Err(IdentityError::InvalidPolicy));
    let mut value = policy();
    value.release_build_digest = Bytes32::new([0; 32]);
    assert_eq!(value.validate(), Err(IdentityError::InvalidPolicy));
    let mut value = policy();
    value.gateway.canonical_executable_path = "Applications/relative".to_owned();
    assert_eq!(value.validate(), Err(IdentityError::InvalidPolicy));
    assert_eq!(policy().validate(), Ok(()));
}

#[test]
fn requirement_text_uses_lowercase_hex() {
    let hash = RequirementHash::new([
        0x00, 0x01, 0x0a, 0xff, 0x10, 0x20, 0x30, 0x40, 0x50, 0x60, 0x70, 0x80, 0x90, 0xa0, 0xb0,
        0xc0, 0xd0, 0xe0, 0xf0, 0xab,
    ]);
    assert_eq!(
        requirement_hex(&hash),
        "00010aff102030405060708090a0b0c0d0e0f0ab"
    );
    assert_eq!(
        ad_hoc_designated_requirement("id.x", RequirementHash::new([0xab; 20])),
        format!(
            "identifier \"id.x\" and cdhash H\"{}\" and not anchor apple",
            "ab".repeat(20)
        )
    );
    assert_eq!(
        self_signed_designated_requirement("id.y", RequirementHash::new([1; 20])),
        format!(
            "identifier \"id.y\" and anchor trusted and certificate leaf = H\"{0}\" and certificate root = H\"{0}\" and not anchor apple",
            "01".repeat(20)
        )
    );
}

#[test]
fn identity_error_messages_are_fixed() {
    assert_eq!(
        IdentityError::PurposeDenied.message(),
        "the enrolled role is maintenance-only"
    );
    assert_eq!(
        IdentityError::UserMediatedTccRequired.message(),
        "explicit user-mediated macOS privacy permission is required"
    );
}

#[test]
fn requirement_digest_is_the_sha256_of_the_text() {
    let expected: [u8; 32] = [
        0xba, 0x78, 0x16, 0xbf, 0x8f, 0x01, 0xcf, 0xea, 0x41, 0x41, 0x40, 0xde, 0x5d, 0xae, 0x22,
        0x23, 0xb0, 0x03, 0x61, 0xa3, 0x96, 0x17, 0x7a, 0x9c, 0xb4, 0x10, 0xff, 0x61, 0xf2, 0x00,
        0x15, 0xad,
    ];
    assert_eq!(requirement_digest("abc").as_bytes(), &expected);
}

#[test]
fn binding_message_layout_is_exact() {
    let token = AuditToken::new([1, 2, 3, 4, 5, 6, 7, 0x0102_0304]);
    let message = connection_binding_message(token, 0x0a0b_0c0d);
    let domain = b"talking-quill/macos-audit-token-binding/v1\0";
    assert_eq!(&message[..domain.len()], &domain[..]);
    assert_eq!(message.len(), domain.len() + 36);
    assert_eq!(&message[domain.len()..domain.len() + 4], &[0, 0, 0, 1]);
    assert_eq!(&message[domain.len() + 28..domain.len() + 32], &[1, 2, 3, 4]);
    assert_eq!(&message[domain.len() + 32..], &[0x0a, 0x0b, 0x0c, 0x0d]);
}

#[test]
fn policy_digest_input_changes_with_each_enrolled_field() {
    let base = policy();
    let baseline = peer_policy_message(&base);
    let mut mutations = Vec::new();
    let mut value = policy();
    value.console_uid += 1;
    mutations.push(value);
    let mut value = policy();
    value.owner.executable_sha256 = bytes(99);
    mutations.push(value);
    let mut value = policy();
    value.gateway.capture_authorized = false;
    mutations.push(value);
    let mut value = policy();
    value.gateway.canonical_executable_path.push('x');
    mutations.push(value);
    let mut value = policy();
    value.owner.signing_identity = LocalSigningIdentity::AdHoc {
        code_directory_hash: requirement_hash(5),
    };
    mutations.push(value);
    for mutated in &mutations {
        assert_ne!(peer_policy_message(mutated), baseline);
        assert_ne!(
            peer_policy_digest(mutated).as_bytes(),
            peer_policy_digest(&base).as_bytes()
        );
    }
    assert_eq!(
        peer_policy_digest(&policy()).as_bytes(),
        peer_policy_digest(&base).as_bytes()
    );
}

#[test]
fn session_digest_names_user_and_session() {
    let mut expected = sha2::Sha256::new();
    expected.update(b"talking-quill/macos-audit-session/v1\0");
    expected.update(501_u32.to_be_bytes());
    expected.update(77_u32.to_be_bytes());
    let expected: [u8; 32] = expected.finalize().into();
    assert_eq!(os_session_digest(501, 77).as_bytes(), &expected);
    assert_ne!(
        os_session_digest(501, 77).as_bytes(),
        os_session_digest(501, 78).as_bytes()
    );
}
