//! Verification of a connected peer against the enrolled local policy.
//!
//! The kernel and Security.framework evidence comes from a provider that the
//! native layer implements for one accepted socket. Every answer of the
//! provider goes through the checks below, in a fixed order; the first failed
//! check decides the error.

use vstd::prelude::*;
use crate::identity::{
    AuditToken, AuthorizationPurpose, Bytes32, IdentityError, PeerCredentials, PeerRole,
    all_zero, same_signing_identity, signing_identities_equal,
};
use crate::identity_policy::{CodeIdentity, MacosPeerPolicy, policy_validation, role_of};
use crate::identity_digest::{
    peer_policy_digest, requirement_digest, spec_policy_digest, spec_requirement_digest,
};

verus! {

/// Evidence obtained from the same accepted Unix socket. A native provider
/// binds the peer credentials, PID, audit token and SecCode guest to that
/// socket; a path-only lookup or a uid-only fallback is not valid evidence.
pub trait PeerEvidenceProvider {
    fn peer_credentials(&self) -> Result<PeerCredentials, IdentityError>;

    fn peer_pid(&self) -> Result<u32, IdentityError>;

    fn peer_audit_token(&self) -> Result<AuditToken, IdentityError>;

    fn sec_code_identity(&self, token: AuditToken) -> Result<CodeIdentity, IdentityError>;

    /// Compiles and evaluates the enrolled requirement against the exact
    /// SecCode guest resolved from `token`.
    fn evaluate_designated_requirement(&self, token: AuditToken, requirement: &str) -> Result<
        bool,
        IdentityError,
    >;

    /// Client-computable digest of the audit token and console UID obtained
    /// from this accepted socket.
    fn connection_binding(&self) -> Result<Bytes32, IdentityError>;
}

/// The kernel checks: the peer runs as the console user, its token names the
/// kernel-reported PID, and it belongs to the enrolled audit session.
pub open spec fn kernel_check(
    policy: MacosPeerPolicy,
    credentials: PeerCredentials,
    pid: u32,
    token: AuditToken,
) -> Result<(), IdentityError> {
    if credentials.uid != policy.console_uid || token@[1] != policy.console_uid {
        Err(IdentityError::WrongUser)
    } else if pid == 0 || token@[5] != pid {
        Err(IdentityError::PeerTokenMismatch)
    } else if token@[6] != policy.audit_session_id {
        Err(IdentityError::WrongAuditSession)
    } else {
        Ok(())
    }
}

/// The code identity matches the enrollment of `role` exactly (the raw
/// executable hash is corroboration only and is not compared).
pub open spec fn identity_matches(
    policy: MacosPeerPolicy,
    role: PeerRole,
    identity: CodeIdentity,
) -> bool {
    let expected = role_of(policy, role);
    &&& identity.signing_identifier@ == expected.signing_identifier@
    &&& identity.canonical_executable_path@ == expected.canonical_executable_path@
    &&& identity.code_directory_hash@ == expected.code_directory_hash@
    &&& identity.release_build_digest@ == policy.release_build_digest@
    &&& same_signing_identity(identity.signing_identity, expected.signing_identity)
}

/// The checks after the code identity is known; `requirement` is the answer
/// to evaluating the enrolled requirement, asked only of statically valid code.
pub open spec fn code_check(
    policy: MacosPeerPolicy,
    role: PeerRole,
    purpose: AuthorizationPurpose,
    identity: CodeIdentity,
    requirement: Result<bool, IdentityError>,
) -> Result<(), IdentityError> {
    if !identity.statically_valid {
        Err(IdentityError::InvalidCode)
    } else if requirement is Err {
        Err(requirement->Err_0)
    } else if !requirement->Ok_0 {
        Err(IdentityError::InvalidCode)
    } else if !identity_matches(policy, role, identity) {
        Err(IdentityError::IdentityMismatch)
    } else if purpose == AuthorizationPurpose::Capture && !role_of(policy, role).capture_authorized {
        Err(IdentityError::PurposeDenied)
    } else {
        Ok(())
    }
}

/// The connection binding must be available and nonzero.
pub open spec fn binding_check(binding: Result<Bytes32, IdentityError>) -> Result<(), IdentityError> {
    match binding {
        Err(e) => Err(e),
        Ok(b) => if all_zero(b@) {
            Err(IdentityError::ConnectionBindingUnavailable)
        } else {
            Ok(())
        },
    }
}

/// The whole decision for given provider answers: the policy, then each
/// answer and check in the order they are asked for.
pub open spec fn peer_decision(
    policy: MacosPeerPolicy,
    role: PeerRole,
    purpose: AuthorizationPurpose,
    credentials: Result<PeerCredentials, IdentityError>,
    pid: Result<u32, IdentityError>,
    token: Result<AuditToken, IdentityError>,
    identity: Result<CodeIdentity, IdentityError>,
    requirement: Result<bool, IdentityError>,
    binding: Result<Bytes32, IdentityError>,
) -> Result<(), IdentityError> {
    if policy_validation(policy) is Err {
        policy_validation(policy)
    } else if credentials is Err {
        Err(credentials->Err_0)
    } else if pid is Err {
        Err(pid->Err_0)
    } else if token is Err {
        Err(token->Err_0)
    } else if kernel_check(policy, credentials->Ok_0, pid->Ok_0, token->Ok_0) is Err {
        kernel_check(policy, credentials->Ok_0, pid->Ok_0, token->Ok_0)
    } else if identity is Err {
        Err(identity->Err_0)
    } else if code_check(policy, role, purpose, identity->Ok_0, requirement) is Err {
        code_check(policy, role, purpose, identity->Ok_0, requirement)
    } else {
        binding_check(binding)
    }
}

/// Checks the kernel evidence of a peer.
pub fn check_kernel_evidence(
    policy: &MacosPeerPolicy,
    credentials: PeerCredentials,
    pid: u32,
    token: AuditToken,
) -> (result: Result<(), IdentityError>)
    ensures
        result == kernel_check(*policy, credentials, pid, token),
{
    if credentials.uid != policy.console_uid || token.effective_uid() != policy.console_uid {
        return Err(IdentityError::WrongUser);
    }
    if pid == 0 || token.pid() != pid {
        return Err(IdentityError::PeerTokenMismatch);
    }
    if token.audit_session_id() != policy.audit_session_id {
        return Err(IdentityError::WrongAuditSession);
    }
    Ok(())
}

/// Checks that a code identity matches the enrollment of `role` exactly.
pub fn check_identity_matches(policy: &MacosPeerPolicy, role: PeerRole, identity: &CodeIdentity) -> (matches: bool)
    ensures
        matches == identity_matches(*policy, role, *identity),
{
    let expected = policy.role(role);
    identity.signing_identifier == expected.signing_identifier
        && identity.canonical_executable_path == expected.canonical_executable_path
        && identity.code_directory_hash.same_as(&expected.code_directory_hash)
        && identity.release_build_digest.same_as(&policy.release_build_digest)
        && signing_identities_equal(&identity.signing_identity, &expected.signing_identity)
}

/// Checks a code identity and the answer of the requirement evaluation.
pub fn check_code_identity(
    policy: &MacosPeerPolicy,
    role: PeerRole,
    purpose: AuthorizationPurpose,
    identity: &CodeIdentity,
    requirement: Result<bool, IdentityError>,
) -> (result: Result<(), IdentityError>)
    ensures
        result == code_check(*policy, role, purpose, *identity, requirement),
{
    if !identity.statically_valid {
        return Err(IdentityError::InvalidCode);
    }
    match requirement {
        Err(e) => {
            return Err(e);
        },
        Ok(satisfied) => {
            if !satisfied {
                return Err(IdentityError::InvalidCode);
            }
        },
    }
    if !check_identity_matches(policy, role, identity) {
        return Err(IdentityError::IdentityMismatch);
    }
    if purpose == AuthorizationPurpose::Capture && !policy.role(role).capture_authorized {
        return Err(IdentityError::PurposeDenied);
    }
    Ok(())
}

/// Checks the connection binding answer.
pub fn check_connection_binding(binding: Result<Bytes32, IdentityError>) -> (result: Result<
    Bytes32,
    IdentityError,
>)
    ensures
        result is Ok <==> binding_check(binding) is Ok,
        result is Err ==> binding_check(binding) == Err::<(), IdentityError>(result->Err_0),
        result is Ok ==> binding == Ok::<Bytes32, IdentityError>(result->Ok_0),
{
    match binding {
        Err(e) => Err(e),
        Ok(b) => if b.is_zero() {
            Err(IdentityError::ConnectionBindingUnavailable)
        } else {
            Ok(b)
        },
    }
}

/// A peer that passed every check. Only `PeerEvidence::verify` makes one.
pub struct VerifiedPeer {
    role: PeerRole,
    purpose: AuthorizationPurpose,
    pid: u32,
    uid: u32,
    audit_session_id: u32,
    executable_sha256: Bytes32,
    release_build_digest: Bytes32,
    requirement_digest: Bytes32,
    policy_digest: Bytes32,
    connection_binding: Bytes32,
}

impl VerifiedPeer {
    pub closed spec fn spec_role(&self) -> PeerRole {
        self.role
    }

    pub closed spec fn spec_purpose(&self) -> AuthorizationPurpose {
        self.purpose
    }

    pub closed spec fn spec_pid(&self) -> u32 {
        self.pid
    }

    pub closed spec fn spec_uid(&self) -> u32 {
        self.uid
    }

    pub closed spec fn spec_audit_session_id(&self) -> u32 {
        self.audit_session_id
    }

    pub closed spec fn spec_release_build_digest(&self) -> Seq<u8> {
        self.release_build_digest@
    }

    pub closed spec fn spec_requirement_digest(&self) -> Seq<u8> {
        self.requirement_digest@
    }

    pub closed spec fn spec_policy_digest(&self) -> Seq<u8> {
        self.policy_digest@
    }

    pub closed spec fn spec_connection_binding(&self) -> Seq<u8> {
        self.connection_binding@
    }

    pub fn role(&self) -> (role: PeerRole)
        ensures
            role == self.spec_role(),
    {
        self.role
    }

    pub fn purpose(&self) -> (purpose: AuthorizationPurpose)
        ensures
            purpose == self.spec_purpose(),
    {
        self.purpose
    }

    pub fn requirement_digest(&self) -> (digest: Bytes32)
        ensures
            digest@ == self.spec_requirement_digest(),
    {
        self.requirement_digest
    }

    pub fn policy_digest(&self) -> (digest: Bytes32)
        ensures
            digest@ == self.spec_policy_digest(),
    {
        self.policy_digest
    }

    pub fn connection_binding(&self) -> (binding: Bytes32)
        ensures
            binding@ == self.spec_connection_binding(),
    {
        self.connection_binding
    }
}

/// Whether each provider answer that the decision consults is one the
/// provider gave when asked, in order: the credentials once the policy is
/// valid, the PID after the credentials, the audit token after the PID, the
/// code identity of that token once the kernel checks pass, the evaluation
/// of the role's enrolled requirement against that token for statically
/// valid code, and the connection binding once the code checks pass.
pub open spec fn answers_asked<P: PeerEvidenceProvider>(
    provider: &P,
    policy: MacosPeerPolicy,
    role: PeerRole,
    purpose: AuthorizationPurpose,
    credentials: Result<PeerCredentials, IdentityError>,
    pid: Result<u32, IdentityError>,
    token: Result<AuditToken, IdentityError>,
    identity: Result<CodeIdentity, IdentityError>,
    requirement: Result<bool, IdentityError>,
    binding: Result<Bytes32, IdentityError>,
) -> bool {
    &&& policy_validation(policy) is Ok ==> call_ensures(P::peer_credentials, (provider,), credentials)
    &&& policy_validation(policy) is Ok && credentials is Ok ==> call_ensures(P::peer_pid, (provider,), pid)
    &&& policy_validation(policy) is Ok && credentials is Ok && pid is Ok ==> call_ensures(
        P::peer_audit_token,
        (provider,),
        token,
    )
    &&& policy_validation(policy) is Ok && credentials is Ok && pid is Ok && token is Ok && kernel_check(
        policy,
        credentials->Ok_0,
        pid->Ok_0,
        token->Ok_0,
    ) is Ok ==> {
        &&& call_ensures(P::sec_code_identity, (provider, token->Ok_0), identity)
        &&& identity is Ok && identity->Ok_0.statically_valid ==> exists|enrolled: &str|
            enrolled@ == role_of(policy, role).designated_requirement@ && #[trigger] call_ensures(
                P::evaluate_designated_requirement,
                (provider, token->Ok_0, enrolled),
                requirement,
            )
        &&& identity is Ok && code_check(policy, role, purpose, identity->Ok_0, requirement) is Ok
            ==> call_ensures(P::connection_binding, (provider,), binding)
    }
}

/// The accepted peer carries the provider's answers: its PID, the uid of its
/// credentials, its token's audit session and the connection binding.
pub open spec fn peer_carries_answers(
    peer: VerifiedPeer,
    credentials: Result<PeerCredentials, IdentityError>,
    pid: Result<u32, IdentityError>,
    token: Result<AuditToken, IdentityError>,
    binding: Result<Bytes32, IdentityError>,
) -> bool {
    &&& credentials is Ok && peer.spec_uid() == credentials->Ok_0.uid
    &&& pid is Ok && peer.spec_pid() == pid->Ok_0
    &&& token is Ok && peer.spec_audit_session_id() == token->Ok_0@[6]
    &&& binding is Ok && peer.spec_connection_binding() == binding->Ok_0@
}

/// The accept/reject outcome of a verification, without the peer.
pub open spec fn outcome_of(result: Result<VerifiedPeer, IdentityError>) -> Result<(), IdentityError> {
    match result {
        Ok(_) => Ok(()),
        Err(e) => Err(e),
    }
}

/// What an accepted peer is known to satisfy.
pub open spec fn accepted_peer_facts(
    policy: MacosPeerPolicy,
    role: PeerRole,
    purpose: AuthorizationPurpose,
    peer: VerifiedPeer,
) -> bool {
    &&& policy_validation(policy) is Ok
    &&& peer.spec_role() == role
    &&& peer.spec_purpose() == purpose
    &&& peer.spec_uid() == policy.console_uid
    &&& peer.spec_pid() != 0
    &&& peer.spec_audit_session_id() == policy.audit_session_id
    &&& peer.spec_release_build_digest() == policy.release_build_digest@
    &&& peer.spec_requirement_digest() == spec_requirement_digest(
        role_of(policy, role).designated_requirement@,
    )
    &&& peer.spec_policy_digest() == spec_policy_digest(policy)
    &&& !all_zero(peer.spec_connection_binding())
    &&& (purpose == AuthorizationPurpose::Capture ==> role_of(policy, role).capture_authorized)
}

pub struct PeerEvidence<'a, P: PeerEvidenceProvider> {
    provider: &'a P,
}

impl<'a, P: PeerEvidenceProvider> PeerEvidence<'a, P> {
    pub fn new(provider: &'a P) -> (evidence: Self)
        ensures
            *evidence.spec_provider() == *provider,
    {
        PeerEvidence { provider }
    }

    pub closed spec fn spec_provider(&self) -> &'a P {
        self.provider
    }

    /// Verifies the peer behind the provider against `policy` for `role` and
    /// `purpose`. The outcome is the decision for some answers of the
    /// provider; an accepted peer carries the policy's digests and a nonzero
    /// connection binding.
    pub fn verify(&self, policy: &MacosPeerPolicy, role: PeerRole, purpose: AuthorizationPurpose) -> (result: Result<VerifiedPeer, IdentityError>)
        ensures
            exists|
                credentials: Result<PeerCredentials, IdentityError>,
                pid: Result<u32, IdentityError>,
                token: Result<AuditToken, IdentityError>,
                identity: Result<CodeIdentity, IdentityError>,
                requirement: Result<bool, IdentityError>,
                binding: Result<Bytes32, IdentityError>,
            |
                {
                    &&& answers_asked(
                        self.spec_provider(),
                        *policy,
                        role,
                        purpose,
                        credentials,
                        pid,
                        token,
                        identity,
                        requirement,
                        binding,
                    )
                    &&& #[trigger] peer_decision(
                        *policy,
                        role,
                        purpose,
                        credentials,
                        pid,
                        token,
                        identity,
                        requirement,
                        binding,
                    ) == outcome_of(result)
                    &&& result is Ok ==> peer_carries_answers(result->Ok_0, credentials, pid, token, binding)
                },
            policy_validation(*policy) is Err ==> outcome_of(result) == policy_validation(*policy),
            result is Ok ==> accepted_peer_facts(*policy, role, purpose, result->Ok_0),
    {
        let ghost no_credentials: Result<PeerCredentials, IdentityError> = Err(
            IdentityError::PeerCredentialsUnavailable,
        );
        let ghost no_pid: Result<u32, IdentityError> = Err(IdentityError::PeerPidUnavailable);
        let ghost no_token: Result<AuditToken, IdentityError> = Err(
            IdentityError::AuditTokenUnavailable,
        );
        let ghost no_identity: Result<CodeIdentity, IdentityError> = Err(IdentityError::InvalidCode);
        let ghost no_requirement: Result<bool, IdentityError> = Err(IdentityError::InvalidCode);
        let ghost no_binding: Result<Bytes32, IdentityError> = Err(
            IdentityError::ConnectionBindingUnavailable,
        );
        match policy.validate() {
            Err(e) => {
                let result = Err(e);
                assert(peer_decision(*policy, role, purpose, no_credentials, no_pid, no_token, no_identity, no_requirement, no_binding) == outcome_of(result));
                return result;
            },
            Ok(()) => {},
        }
        let credentials_answer = self.provider.peer_credentials();
        let credentials = match credentials_answer {
            Err(e) => {
                let result = Err(e);
                assert(peer_decision(*policy, role, purpose, credentials_answer, no_pid, no_token, no_identity, no_requirement, no_binding) == outcome_of(result));
                return result;
            },
            Ok(c) => c,
        };
        let pid_answer = self.provider.peer_pid();
        let peer_pid = match pid_answer {
            Err(e) => {
                let result = Err(e);
                assert(peer_decision(*policy, role, purpose, credentials_answer, pid_answer, no_token, no_identity, no_requirement, no_binding) == outcome_of(result));
                return result;
            },
            Ok(p) => p,
        };
        let token_answer = self.provider.peer_audit_token();
        let token = match token_answer {
            Err(e) => {
                let result = Err(e);
                assert(peer_decision(*policy, role, purpose, credentials_answer, pid_answer, token_answer, no_identity, no_requirement, no_binding) == outcome_of(result));
                return result;
            },
            Ok(t) => t,
        };
        match check_kernel_evidence(policy, credentials, peer_pid, token) {
            Err(e) => {
                let result = Err(e);
                assert(peer_decision(*policy, role, purpose, credentials_answer, pid_answer, token_answer, no_identity, no_requirement, no_binding) == outcome_of(result));
                return result;
            },
            Ok(()) => {},
        }
        let identity_answer = self.provider.sec_code_identity(token);
        let identity = match identity_answer {
            Err(e) => {
                let result = Err(e);
                assert(peer_decision(*policy, role, purpose, credentials_answer, pid_answer, token_answer, identity_answer, no_requirement, no_binding) == outcome_of(result));
                return result;
            },
            Ok(i) => i,
        };
        let expected = policy.role(role);
        let requirement_answer = if identity.statically_valid {
            self.provider.evaluate_designated_requirement(
                token,
                expected.designated_requirement.as_str(),
            )
        } else {
            Err(IdentityError::InvalidCode)
        };
        match check_code_identity(policy, role, purpose, &identity, requirement_answer) {
            Err(e) => {
                let result = Err(e);
                assert(peer_decision(*policy, role, purpose, credentials_answer, pid_answer, token_answer, identity_answer, requirement_answer, no_binding) == outcome_of(result));
                return result;
            },
            Ok(()) => {},
        }
        let binding_answer = self.provider.connection_binding();
        let connection_binding = match check_connection_binding(binding_answer) {
            Err(e) => {
                let result = Err(e);
                assert(peer_decision(*policy, role, purpose, credentials_answer, pid_answer, token_answer, identity_answer, requirement_answer, binding_answer) == outcome_of(result));
                return result;
            },
            Ok(b) => b,
        };
        let peer = VerifiedPeer {
            role,
            purpose,
            pid: peer_pid,
            uid: credentials.uid,
            audit_session_id: token.audit_session_id(),
            executable_sha256: identity.executable_sha256,
            release_build_digest: identity.release_build_digest,
            requirement_digest: requirement_digest(expected.designated_requirement.as_str()),
            policy_digest: peer_policy_digest(policy),
            connection_binding,
        };
        let result = Ok(peer);
        assert(peer_decision(*policy, role, purpose, credentials_answer, pid_answer, token_answer, identity_answer, requirement_answer, binding_answer) == outcome_of(result));
        result
    }
}

} // verus!
