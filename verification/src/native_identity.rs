//! Checks of the running process's own signed identity against its
//! enrollment, and of the dynamic against the static code identity.

use vstd::prelude::*;
use crate::identity::{
    IdentityError, LocalSigningIdentity, RequirementHash, same_signing_identity,
    signing_identities_equal,
};
use crate::identity_policy::{CodeIdentity, RolePolicy};

verus! {

/// The running code is exactly the enrolled role: identifier, path,
/// CodeDirectory hash, executable hash and signing identity all agree.
pub open spec fn current_identity_matches(actual: CodeIdentity, expected: RolePolicy) -> bool {
    &&& actual.signing_identifier@ == expected.signing_identifier@
    &&& actual.canonical_executable_path@ == expected.canonical_executable_path@
    &&& actual.code_directory_hash@ == expected.code_directory_hash@
    &&& actual.executable_sha256@ == expected.executable_sha256@
    &&& same_signing_identity(actual.signing_identity, expected.signing_identity)
}

/// Checks the running process's code identity against its enrolled role.
pub fn validate_current_identity(actual: &CodeIdentity, expected: &RolePolicy) -> (result: Result<
    (),
    IdentityError,
>)
    ensures
        result is Ok <==> current_identity_matches(*actual, *expected),
        result is Err ==> result == Err::<(), IdentityError>(IdentityError::IdentityMismatch),
{
    if actual.signing_identifier != expected.signing_identifier
        || actual.canonical_executable_path != expected.canonical_executable_path
        || !actual.code_directory_hash.same_as(&expected.code_directory_hash)
        || !actual.executable_sha256.same_as(&expected.executable_sha256)
        || !signing_identities_equal(&actual.signing_identity, &expected.signing_identity) {
        Err(IdentityError::IdentityMismatch)
    } else {
        Ok(())
    }
}

/// The signing facts read from one code object, dynamic or static.
pub struct ActualSigningIdentity {
    pub identifier: String,
    pub code_directory_hash: RequirementHash,
    pub identity: LocalSigningIdentity,
}

pub open spec fn same_actual_identity(a: ActualSigningIdentity, b: ActualSigningIdentity) -> bool {
    &&& a.identifier@ == b.identifier@
    &&& a.code_directory_hash@ == b.code_directory_hash@
    &&& same_signing_identity(a.identity, b.identity)
}

impl ActualSigningIdentity {
    /// Dynamic and static code agree only when identifier, CodeDirectory hash
    /// and signing identity all agree.
    pub fn same_as(&self, other: &ActualSigningIdentity) -> (equal: bool)
        ensures
            equal == same_actual_identity(*self, *other),
    {
        self.identifier == other.identifier && self.code_directory_hash.same_as(
            &other.code_directory_hash,
        ) && signing_identities_equal(&self.identity, &other.identity)
    }
}

} // verus!
