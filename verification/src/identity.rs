//! Local macOS keyboard-owner identity vocabulary.
//!
//! Personal builds may be ad-hoc signed or use a locally generated,
//! user-trusted self-signed certificate. Developer ID and notarization are not
//! authorization inputs. Nothing here prompts for TCC or Keychain access, and
//! nothing here grants privacy permissions.

use vstd::prelude::*;

verus! {

pub const GATEWAY_SIGNING_IDENTIFIER: &'static str = "com.talkingquill.app.helper";
pub const OWNER_SIGNING_IDENTIFIER: &'static str = "com.talkingquill.app.keyboard-owner";

/// The longest designated requirement, in UTF-8 bytes, that a policy accepts.
pub const MAX_REQUIREMENT_BYTES: usize = 2048;

pub open spec fn gateway_identifier_text() -> Seq<char> {
    "com.talkingquill.app.helper"@
}

pub open spec fn owner_identifier_text() -> Seq<char> {
    "com.talkingquill.app.keyboard-owner"@
}

/// A 32-byte value: a SHA-256 digest, a certificate hash or a connection
/// binding.
#[derive(Clone, Copy)]
pub struct Bytes32 {
    bytes: [u8; 32],
}

impl View for Bytes32 {
    type V = Seq<u8>;

    closed spec fn view(&self) -> Seq<u8> {
        self.bytes@
    }
}

/// Whether every byte of a sequence is zero.
pub open spec fn all_zero(bytes: Seq<u8>) -> bool {
    forall|i: int| 0 <= i < bytes.len() ==> bytes[i] == 0
}

/// Returns whether every byte of `bytes` is zero.
pub fn slice_is_all_zero(bytes: &[u8]) -> (zero: bool)
    ensures
        zero == all_zero(bytes@),
{
    let mut i: usize = 0;
    while i < bytes.len()
        invariant
            0 <= i <= bytes.len(),
            forall|k: int| 0 <= k < i ==> bytes@[k] == 0,
        decreases bytes.len() - i,
    {
        if bytes[i] != 0 {
            return false;
        }
        i = i + 1;
    }
    true
}

/// Returns whether two byte slices hold the same bytes.
pub fn slices_equal(a: &[u8], b: &[u8]) -> (equal: bool)
    ensures
        equal == (a@ == b@),
{
    if a.len() != b.len() {
        return false;
    }
    let mut i: usize = 0;
    while i < a.len()
        invariant
            a.len() == b.len(),
            0 <= i <= a.len(),
            forall|k: int| 0 <= k < i ==> a@[k] == b@[k],
        decreases a.len() - i,
    {
        if a[i] != b[i] {
            return false;
        }
        i = i + 1;
    }
    assert(a@ =~= b@);
    true
}

impl Bytes32 {
    pub fn new(bytes: [u8; 32]) -> (value: Self)
        ensures
            value@ == bytes@,
    {
        Bytes32 { bytes }
    }

    pub fn as_bytes(&self) -> (bytes: &[u8; 32])
        ensures
            bytes@ == self@,
    {
        &self.bytes
    }

    pub proof fn lemma_len(&self)
        ensures
            self@.len() == 32,
    {
    }

    /// Whether every byte is zero.
    pub fn is_zero(&self) -> (zero: bool)
        ensures
            zero == all_zero(self@),
    {
        slice_is_all_zero(self.bytes.as_slice())
    }

    /// Byte-for-byte equality.
    pub fn same_as(&self, other: &Bytes32) -> (equal: bool)
        ensures
            equal == (self@ == other@),
    {
        slices_equal(self.bytes.as_slice(), other.bytes.as_slice())
    }
}

/// Hash form accepted by macOS's requirement language for `cdhash` and
/// certificate `H"..."` operands. It is distinct from the SHA-256 enrollment
/// hashes used for executable bytes and certificates.
#[derive(Clone, Copy)]
pub struct RequirementHash {
    bytes: [u8; 20],
}

impl View for RequirementHash {
    type V = Seq<u8>;

    closed spec fn view(&self) -> Seq<u8> {
        self.bytes@
    }
}

impl RequirementHash {
    pub fn new(bytes: [u8; 20]) -> (value: Self)
        ensures
            value@ == bytes@,
    {
        RequirementHash { bytes }
    }

    pub fn as_bytes(&self) -> (bytes: &[u8; 20])
        ensures
            bytes@ == self@,
    {
        &self.bytes
    }

    pub proof fn lemma_len(&self)
        ensures
            self@.len() == 20,
    {
    }

    /// Whether every byte is zero.
    pub fn is_zero(&self) -> (zero: bool)
        ensures
            zero == all_zero(self@),
    {
        slice_is_all_zero(self.bytes.as_slice())
    }

    /// Byte-for-byte equality.
    pub fn same_as(&self, other: &RequirementHash) -> (equal: bool)
        ensures
            equal == (self@ == other@),
    {
        slices_equal(self.bytes.as_slice(), other.bytes.as_slice())
    }
}

#[derive(Clone, Copy, Debug, PartialEq, Eq, Structural)]
pub enum PeerRole {
    Gateway,
    Owner,
}

#[derive(Clone, Copy, Debug, PartialEq, Eq, Structural)]
pub enum AuthorizationPurpose {
    Capture,
    Maintenance,
}

/// The kernel audit token of a peer: eight words, of which the effective
/// UID, the PID and the audit session are read.
#[derive(Clone, Copy)]
pub struct AuditToken {
    words: [u32; 8],
}

impl View for AuditToken {
    type V = Seq<u32>;

    closed spec fn view(&self) -> Seq<u32> {
        self.words@
    }
}

impl AuditToken {
    pub fn new(words: [u32; 8]) -> (token: Self)
        ensures
            token@ == words@,
    {
        AuditToken { words }
    }

    pub proof fn lemma_len(&self)
        ensures
            self@.len() == 8,
    {
    }

    pub fn effective_uid(self) -> (uid: u32)
        ensures
            uid == self@[1],
    {
        self.words[1]
    }

    pub fn pid(self) -> (pid: u32)
        ensures
            pid == self@[5],
    {
        self.words[5]
    }

    pub fn audit_session_id(self) -> (session: u32)
        ensures
            session == self@[6],
    {
        self.words[6]
    }

    pub fn words(self) -> (words: [u32; 8])
        ensures
            words@ == self@,
    {
        self.words
    }
}

#[derive(Clone, Copy, Debug, PartialEq, Eq, Structural)]
pub struct PeerCredentials {
    pub uid: u32,
    pub gid: u32,
}

/// The two local signing identities supported by personal macOS builds.
/// Neither implies Developer ID, an Apple Team ID, or notarization.
#[derive(Clone, Copy)]
pub enum LocalSigningIdentity {
    /// An ad-hoc signature is bound to the exact CodeDirectory hash. Updating
    /// the executable changes this identity and may require the user to grant
    /// TCC permissions again.
    AdHoc { code_directory_hash: RequirementHash },
    /// A locally generated certificate explicitly trusted by the user. SHA-256
    /// remains the enrollment identity; the 20-byte form is kept solely for the
    /// requirement language's certificate operand.
    LocallyTrustedSelfSigned {
        certificate_sha256: Bytes32,
        requirement_certificate_hash: RequirementHash,
    },
}

/// Equality of signing identities by their variant and bytes.
pub open spec fn same_signing_identity(a: LocalSigningIdentity, b: LocalSigningIdentity) -> bool {
    match (a, b) {
        (
            LocalSigningIdentity::AdHoc { code_directory_hash: x },
            LocalSigningIdentity::AdHoc { code_directory_hash: y },
        ) => x@ == y@,
        (
            LocalSigningIdentity::LocallyTrustedSelfSigned {
                certificate_sha256: c1,
                requirement_certificate_hash: h1,
            },
            LocalSigningIdentity::LocallyTrustedSelfSigned {
                certificate_sha256: c2,
                requirement_certificate_hash: h2,
            },
        ) => c1@ == c2@ && h1@ == h2@,
        _ => false,
    }
}

/// Returns whether two signing identities are the same variant with the
/// same bytes.
pub fn signing_identities_equal(a: &LocalSigningIdentity, b: &LocalSigningIdentity) -> (equal:
    bool)
    ensures
        equal == same_signing_identity(*a, *b),
{
    match (a, b) {
        (
            LocalSigningIdentity::AdHoc { code_directory_hash: x },
            LocalSigningIdentity::AdHoc { code_directory_hash: y },
        ) => x.same_as(y),
        (
            LocalSigningIdentity::LocallyTrustedSelfSigned {
                certificate_sha256: c1,
                requirement_certificate_hash: h1,
            },
            LocalSigningIdentity::LocallyTrustedSelfSigned {
                certificate_sha256: c2,
                requirement_certificate_hash: h2,
            },
        ) => c1.same_as(c2) && h1.same_as(h2),
        _ => false,
    }
}

#[derive(Clone, Copy, Debug, PartialEq, Eq, Structural)]
pub enum TccPersistenceExpectation {
    /// Permissions can persist across replacements only while the signing
    /// certificate, identifier, bundle location, and designated requirement
    /// remain unchanged.
    StableLocalRequirement,
    /// A changed ad-hoc CodeDirectory is a changed identity. Startup must stay
    /// disabled until macOS reports the new identity is authorized.
    ReauthorizationAfterIdentityChange,
}

#[derive(Clone, Copy, Debug, PartialEq, Eq, Structural)]
pub enum TccAuthorization {
    Granted,
    NotDetermined,
    Denied,
}

#[derive(Clone, Copy, Debug, PartialEq, Eq, Structural)]
pub enum IdentityError {
    PeerCredentialsUnavailable,
    PeerPidUnavailable,
    AuditTokenUnavailable,
    ConnectionBindingUnavailable,
    PeerTokenMismatch,
    WrongUser,
    WrongAuditSession,
    InvalidCode,
    IdentityMismatch,
    InvalidPolicy,
    InvalidRequirement,
    PurposeDenied,
    UserMediatedTccRequired,
}

/// The human-readable message of each error.
pub open spec fn identity_error_message(error: IdentityError) -> Seq<char> {
    match error {
        IdentityError::PeerCredentialsUnavailable => "kernel peer credentials are unavailable"@,
        IdentityError::PeerPidUnavailable => "kernel peer PID is unavailable"@,
        IdentityError::AuditTokenUnavailable => "kernel audit token is unavailable"@,
        IdentityError::ConnectionBindingUnavailable => "accepted-socket connection binding is unavailable"@,
        IdentityError::PeerTokenMismatch => "peer token does not match the kernel peer PID"@,
        IdentityError::WrongUser => "peer belongs to the wrong user"@,
        IdentityError::WrongAuditSession => "peer belongs to the wrong GUI audit session"@,
        IdentityError::InvalidCode => "Security.framework rejected the peer code"@,
        IdentityError::IdentityMismatch => "peer code identity does not exactly match local enrollment"@,
        IdentityError::InvalidPolicy => "macOS peer policy is invalid"@,
        IdentityError::InvalidRequirement => "designated requirement is invalid"@,
        IdentityError::PurposeDenied => "the enrolled role is maintenance-only"@,
        IdentityError::UserMediatedTccRequired => "explicit user-mediated macOS privacy permission is required"@,
    }
}

impl IdentityError {
    /// The human-readable message of each error.
    pub fn message(self) -> (text: &'static str)
        ensures
            text@ == identity_error_message(self),
    {
        match self {
            IdentityError::PeerCredentialsUnavailable => "kernel peer credentials are unavailable",
            IdentityError::PeerPidUnavailable => "kernel peer PID is unavailable",
            IdentityError::AuditTokenUnavailable => "kernel audit token is unavailable",
            IdentityError::ConnectionBindingUnavailable => {
                "accepted-socket connection binding is unavailable"
            },
            IdentityError::PeerTokenMismatch => "peer token does not match the kernel peer PID",
            IdentityError::WrongUser => "peer belongs to the wrong user",
            IdentityError::WrongAuditSession => "peer belongs to the wrong GUI audit session",
            IdentityError::InvalidCode => "Security.framework rejected the peer code",
            IdentityError::IdentityMismatch => {
                "peer code identity does not exactly match local enrollment"
            },
            IdentityError::InvalidPolicy => "macOS peer policy is invalid",
            IdentityError::InvalidRequirement => "designated requirement is invalid",
            IdentityError::PurposeDenied => "the enrolled role is maintenance-only",
            IdentityError::UserMediatedTccRequired => {
                "explicit user-mediated macOS privacy permission is required"
            },
        }
    }
}

} // verus!
