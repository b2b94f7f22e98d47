//! The enrolled local peer policy: which gateway and owner executables, with
//! which signing identities and designated requirements, may authenticate.

use vstd::prelude::*;
use vstd::string::*;
use vstd::utf8::encode_utf8;
use crate::identity::{
    Bytes32, RequirementHash, LocalSigningIdentity, PeerRole, IdentityError, TccAuthorization,
    TccPersistenceExpectation, all_zero, gateway_identifier_text, owner_identifier_text,
    GATEWAY_SIGNING_IDENTIFIER, OWNER_SIGNING_IDENTIFIER,
};
use crate::identity_text::{
    absolute_path_has_only_normal_components, expected_requirement_text, path_is_normal_absolute,
    requirement_matches_signing_identity, requirement_text_valid, validate_requirement,
};

verus! {

/// The identity that Security.framework reports for the peer's code.
#[derive(Clone)]
pub struct CodeIdentity {
    pub signing_identifier: String,
    pub canonical_executable_path: String,
    pub executable_sha256: Bytes32,
    pub code_directory_hash: RequirementHash,
    pub release_build_digest: Bytes32,
    pub signing_identity: LocalSigningIdentity,
    pub statically_valid: bool,
}

/// What one role (gateway or owner) must present.
#[derive(Clone)]
pub struct RolePolicy {
    pub signing_identifier: String,
    pub designated_requirement: String,
    pub canonical_executable_path: String,
    /// Signed corroborating artifact metadata; accepted code authority is the
    /// audit-token SecCode, designated requirement, and exact CDHash.
    pub executable_sha256: Bytes32,
    pub code_directory_hash: RequirementHash,
    pub signing_identity: LocalSigningIdentity,
    /// Immediately previous enrolled owners can be maintenance-only. A role
    /// policy with this bit clear can never receive capture authority.
    pub capture_authorized: bool,
}

#[derive(Clone)]
pub struct MacosPeerPolicy {
    pub console_uid: u32,
    pub audit_session_id: u32,
    pub release_build_digest: Bytes32,
    pub gateway: RolePolicy,
    pub owner: RolePolicy,
}

/// UTF-8 bytes of a string.
pub open spec fn text_bytes(s: &String) -> Seq<u8> {
    encode_utf8(s@)
}

/// The role policy enrolled for `role`.
pub open spec fn role_of(policy: MacosPeerPolicy, role: PeerRole) -> RolePolicy {
    match role {
        PeerRole::Gateway => policy.gateway,
        PeerRole::Owner => policy.owner,
    }
}

/// The policy-wide checks made before any role's requirement is examined.
pub open spec fn policy_header_valid(p: MacosPeerPolicy) -> bool {
    &&& p.audit_session_id != 0
    &&& !all_zero(p.release_build_digest@)
    &&& p.gateway.signing_identifier@ == gateway_identifier_text()
    &&& p.owner.signing_identifier@ == owner_identifier_text()
    &&& path_is_normal_absolute(text_bytes(&p.gateway.canonical_executable_path))
    &&& path_is_normal_absolute(text_bytes(&p.owner.canonical_executable_path))
    &&& p.gateway.canonical_executable_path@ != p.owner.canonical_executable_path@
}

/// The checks on one role made after its requirement text is well formed:
/// nonzero enrollment hashes and a requirement that is exactly the one its
/// signing identity prescribes.
pub open spec fn role_enrollment_valid(r: RolePolicy) -> bool {
    &&& !all_zero(r.executable_sha256@)
    &&& !all_zero(r.code_directory_hash@)
    &&& r.designated_requirement@ == expected_requirement_text(r.signing_identifier@, r.signing_identity)
}

/// The outcome of validating a policy, in the order the checks are made.
pub open spec fn policy_validation(p: MacosPeerPolicy) -> Result<(), IdentityError> {
    if !policy_header_valid(p) {
        Err(IdentityError::InvalidPolicy)
    } else if !requirement_text_valid(text_bytes(&p.gateway.designated_requirement)) {
        Err(IdentityError::InvalidRequirement)
    } else if !role_enrollment_valid(p.gateway) {
        Err(IdentityError::InvalidPolicy)
    } else if !requirement_text_valid(text_bytes(&p.owner.designated_requirement)) {
        Err(IdentityError::InvalidRequirement)
    } else if !role_enrollment_valid(p.owner) {
        Err(IdentityError::InvalidPolicy)
    } else {
        Ok(())
    }
}

/// A policy that validates.
pub open spec fn policy_valid(p: MacosPeerPolicy) -> bool {
    policy_validation(p) is Ok
}

/// The TCC expectation that follows from the owner's signing identity.
pub open spec fn spec_tcc_persistence(p: MacosPeerPolicy) -> TccPersistenceExpectation {
    match p.owner.signing_identity {
        LocalSigningIdentity::LocallyTrustedSelfSigned { .. } =>
            TccPersistenceExpectation::StableLocalRequirement,
        LocalSigningIdentity::AdHoc { .. } =>
            TccPersistenceExpectation::ReauthorizationAfterIdentityChange,
    }
}

fn role_enrollment_check(role: &RolePolicy) -> (result: Result<(), IdentityError>)
    ensures
        result == (if !requirement_text_valid(text_bytes(&role.designated_requirement)) {
            Err(IdentityError::InvalidRequirement)
        } else if !role_enrollment_valid(*role) {
            Err(IdentityError::InvalidPolicy)
        } else {
            Ok(())
        }),
{
    match validate_requirement(role.designated_requirement.as_str()) {
        Err(e) => {
            return Err(e);
        },
        Ok(()) => {},
    }
    if role.executable_sha256.is_zero() || role.code_directory_hash.is_zero()
        || !requirement_matches_signing_identity(
        &role.designated_requirement,
        &role.signing_identifier,
        role.signing_identity,
    ) {
        return Err(IdentityError::InvalidPolicy);
    }
    Ok(())
}

impl MacosPeerPolicy {
    /// The role policy enrolled for `role`.
    pub fn role(&self, role: PeerRole) -> (policy: &RolePolicy)
        ensures
            *policy == role_of(*self, role),
    {
        match role {
            PeerRole::Gateway => &self.gateway,
            PeerRole::Owner => &self.owner,
        }
    }

    /// Checks the policy: a nonzero audit session and release digest, the two
    /// fixed signing identifiers, two distinct normal absolute executable
    /// paths, and for each role well-formed requirement text that is exactly
    /// the requirement its signing identity prescribes, with nonzero hashes.
    pub fn validate(&self) -> (result: Result<(), IdentityError>)
        ensures
            result == policy_validation(*self),
    {
        let gateway_id = String::from_str(GATEWAY_SIGNING_IDENTIFIER);
        let owner_id = String::from_str(OWNER_SIGNING_IDENTIFIER);
        if self.audit_session_id == 0 || self.release_build_digest.is_zero()
            || self.gateway.signing_identifier != gateway_id
            || self.owner.signing_identifier != owner_id
            || !absolute_path_has_only_normal_components(
            self.gateway.canonical_executable_path.as_str(),
        ) || !absolute_path_has_only_normal_components(
            self.owner.canonical_executable_path.as_str(),
        ) || self.gateway.canonical_executable_path == self.owner.canonical_executable_path {
            return Err(IdentityError::InvalidPolicy);
        }
        match role_enrollment_check(&self.gateway) {
            Err(e) => {
                return Err(e);
            },
            Ok(()) => {},
        }
        role_enrollment_check(&self.owner)
    }

    /// A locally trusted certificate keeps TCC grants stable; an ad-hoc owner
    /// must be reauthorized after its identity changes.
    pub fn tcc_persistence_expectation(&self) -> (expectation: TccPersistenceExpectation)
        ensures
            expectation == spec_tcc_persistence(*self),
    {
        match self.owner.signing_identity {
            LocalSigningIdentity::LocallyTrustedSelfSigned { .. } =>
                TccPersistenceExpectation::StableLocalRequirement,
            LocalSigningIdentity::AdHoc { .. } =>
                TccPersistenceExpectation::ReauthorizationAfterIdentityChange,
        }
    }

    /// TCC is observation-only: startup proceeds only when the user has
    /// granted every permission the native adapter needs.
    pub fn require_user_mediated_tcc(
        &self,
        accessibility: TccAuthorization,
        input_monitoring: TccAuthorization,
        event_post: TccAuthorization,
    ) -> (result: Result<(), IdentityError>)
        ensures
            result is Ok <==> (accessibility == TccAuthorization::Granted && input_monitoring
                == TccAuthorization::Granted && event_post == TccAuthorization::Granted),
            result is Err ==> result == Err::<(), IdentityError>(
                IdentityError::UserMediatedTccRequired,
            ),
    {
        if accessibility == TccAuthorization::Granted && input_monitoring
            == TccAuthorization::Granted && event_post == TccAuthorization::Granted {
            Ok(())
        } else {
            Err(IdentityError::UserMediatedTccRequired)
        }
    }
}

} // verus!
