//! Keychain access policy for the owner handshake secret and the
//! maintenance latch.
//!
//! Reads are granted only to a peer verified against the very policy the
//! Keychain policy was built from; in the owner-mediated mode the gateway
//! never reads the secret itself. Only the owner, for maintenance, writes the
//! bounded latch.

use vstd::prelude::*;
use crate::identity::{AuthorizationPurpose, Bytes32, PeerRole, all_zero, slice_is_all_zero};
use crate::identity_policy::{MacosPeerPolicy, policy_validation};
use crate::identity_digest::{
    peer_policy_digest, requirement_digest, spec_policy_digest, spec_requirement_digest,
};
use crate::peer_evidence::{VerifiedPeer, accepted_peer_facts};

verus! {

pub const KEYCHAIN_SECRET_BYTES: usize = 32;
pub const KEYCHAIN_SERVICE: &'static str = "com.talkingquill.app.keyboard-owner";
pub const HANDSHAKE_SECRET_ACCOUNT: &'static str = "owner-ipc-v1";
pub const MAINTENANCE_LATCH_ACCOUNT: &'static str = "maintenance-latch-v1";
pub const MAX_MAINTENANCE_LATCH_BYTES: usize = 512;

#[derive(Clone, Copy, Debug, PartialEq, Eq, Structural)]
pub enum KeychainError {
    AccessDenied,
    Missing,
    InvalidItem,
    InvalidPolicy,
    Unavailable,
}

/// The human-readable message of each error.
pub open spec fn keychain_error_message(error: KeychainError) -> Seq<char> {
    match error {
        KeychainError::AccessDenied => "Keychain access is denied"@,
        KeychainError::Missing => "Keychain item is missing"@,
        KeychainError::InvalidItem => "Keychain item has invalid contents"@,
        KeychainError::InvalidPolicy => "Keychain policy is invalid"@,
        KeychainError::Unavailable => "Keychain operation failed closed without authentication UI"@,
    }
}

impl KeychainError {
    /// The human-readable message of each error.
    pub fn message(self) -> (text: &'static str)
        ensures
            text@ == keychain_error_message(self),
    {
        match self {
            KeychainError::AccessDenied => "Keychain access is denied",
            KeychainError::Missing => "Keychain item is missing",
            KeychainError::InvalidItem => "Keychain item has invalid contents",
            KeychainError::InvalidPolicy => "Keychain policy is invalid",
            KeychainError::Unavailable => {
                "Keychain operation failed closed without authentication UI"
            },
        }
    }
}

/// The owner handshake secret: 32 bytes, never all zero.
pub struct KeychainItem {
    secret: [u8; 32],
}

impl KeychainItem {
    pub closed spec fn spec_secret(&self) -> Seq<u8> {
        self.secret@
    }

    /// Accepts any secret except the all-zero one.
    pub fn from_bytes(bytes: [u8; 32]) -> (result: Result<KeychainItem, KeychainError>)
        ensures
            result is Ok <==> !all_zero(bytes@),
            result is Ok ==> result->Ok_0.spec_secret() == bytes@,
            result is Err ==> result == Err::<KeychainItem, KeychainError>(
                KeychainError::InvalidItem,
            ),
    {
        if slice_is_all_zero(bytes.as_slice()) {
            return Err(KeychainError::InvalidItem);
        }
        Ok(KeychainItem { secret: bytes })
    }

    /// The secret, for the bounded authenticated owner handshake only.
    pub fn expose_to_authenticated_handshake(&self) -> (secret: &[u8; 32])
        ensures
            secret@ == self.spec_secret(),
    {
        &self.secret
    }

    /// Moves the secret into the handshake key derivation.
    pub fn into_authenticated_handshake_secret(self) -> (secret: [u8; 32])
        ensures
            secret@ == self.spec_secret(),
    {
        self.secret
    }

    /// The diagnostic form of an item, which never shows the secret.
    pub fn redacted_debug(&self) -> (text: &'static str)
        ensures
            text@ == "KeychainItem(<redacted>)"@,
    {
        "KeychainItem(<redacted>)"
    }
}

#[derive(Clone, Copy, Debug, PartialEq, Eq, Structural)]
pub enum KeychainSharingMode {
    /// The item ACL holds only the exact enrolled gateway and owner
    /// designated requirements.
    RequirementAcl,
    /// Only the owner reads the item; a verified gateway authenticates through
    /// the owner protocol without a Keychain capability of its own.
    OwnerMediated,
}

pub struct KeychainPolicy {
    sharing_mode: KeychainSharingMode,
    gateway_requirement_digest: Bytes32,
    owner_requirement_digest: Bytes32,
    peer_policy_digest: Bytes32,
}

/// Whether a Keychain policy lets `peer` read the handshake secret.
pub open spec fn read_permitted(policy: KeychainPolicy, peer: VerifiedPeer) -> bool {
    &&& peer.spec_policy_digest() == policy.spec_peer_policy_digest()
    &&& match peer.spec_role() {
        PeerRole::Gateway => policy.spec_sharing_mode() == KeychainSharingMode::RequirementAcl
            && peer.spec_requirement_digest() == policy.spec_gateway_requirement_digest(),
        PeerRole::Owner => peer.spec_requirement_digest() == policy.spec_owner_requirement_digest(),
    }
}

/// Whether `peer` may write `value` as the maintenance latch.
pub open spec fn latch_write_permitted(policy: KeychainPolicy, peer: VerifiedPeer, value: Seq<u8>) -> bool {
    &&& peer.spec_role() == PeerRole::Owner
    &&& peer.spec_purpose() == AuthorizationPurpose::Maintenance
    &&& peer.spec_policy_digest() == policy.spec_peer_policy_digest()
    &&& value.len() > 0
    &&& value.len() <= MAX_MAINTENANCE_LATCH_BYTES
}

impl KeychainPolicy {
    pub closed spec fn spec_sharing_mode(&self) -> KeychainSharingMode {
        self.sharing_mode
    }

    pub closed spec fn spec_gateway_requirement_digest(&self) -> Seq<u8> {
        self.gateway_requirement_digest@
    }

    pub closed spec fn spec_owner_requirement_digest(&self) -> Seq<u8> {
        self.owner_requirement_digest@
    }

    pub closed spec fn spec_peer_policy_digest(&self) -> Seq<u8> {
        self.peer_policy_digest@
    }

    /// Builds the Keychain policy of a valid peer policy: the sharing mode,
    /// both roles' requirement digests and the peer-policy digest.
    pub fn from_peer_policy(peer_policy: &MacosPeerPolicy, sharing_mode: KeychainSharingMode) -> (result: Result<KeychainPolicy, KeychainError>)
        ensures
            result is Ok <==> policy_validation(*peer_policy) is Ok,
            result is Err ==> result == Err::<KeychainPolicy, KeychainError>(
                KeychainError::InvalidPolicy,
            ),
            result is Ok ==> {
                let p = result->Ok_0;
                &&& p.spec_sharing_mode() == sharing_mode
                &&& p.spec_gateway_requirement_digest() == spec_requirement_digest(
                    peer_policy.gateway.designated_requirement@,
                )
                &&& p.spec_owner_requirement_digest() == spec_requirement_digest(
                    peer_policy.owner.designated_requirement@,
                )
                &&& p.spec_peer_policy_digest() == spec_policy_digest(*peer_policy)
            },
    {
        match peer_policy.validate() {
            Err(_) => {
                return Err(KeychainError::InvalidPolicy);
            },
            Ok(()) => {},
        }
        Ok(
            KeychainPolicy {
                sharing_mode,
                gateway_requirement_digest: requirement_digest(
                    peer_policy.gateway.designated_requirement.as_str(),
                ),
                owner_requirement_digest: requirement_digest(
                    peer_policy.owner.designated_requirement.as_str(),
                ),
                peer_policy_digest: peer_policy_digest(peer_policy),
            },
        )
    }

    /// Whether `peer` may read the handshake secret.
    pub fn permits_secret_read(&self, peer: &VerifiedPeer) -> (permitted: bool)
        ensures
            permitted == read_permitted(*self, *peer),
    {
        if !peer.policy_digest().same_as(&self.peer_policy_digest) {
            return false;
        }
        match peer.role() {
            PeerRole::Gateway => {
                self.sharing_mode == KeychainSharingMode::RequirementAcl
                    && peer.requirement_digest().same_as(&self.gateway_requirement_digest)
            },
            PeerRole::Owner => peer.requirement_digest().same_as(&self.owner_requirement_digest),
        }
    }

    /// The diagnostic form of a policy, which shows none of its digests.
    pub fn redacted_debug(&self) -> (text: &'static str)
        ensures
            text@ == "KeychainPolicy(<redacted>)"@,
    {
        "KeychainPolicy(<redacted>)"
    }
}

/// Fixed service/account queries against the Keychain. A native store never
/// shows authentication UI: it fails closed instead.
pub trait KeychainStore {
    fn read_owner_handshake_secret_without_ui(&self) -> Result<KeychainItem, KeychainError>;

    fn write_maintenance_latch_without_ui(&mut self, value: &[u8]) -> Result<(), KeychainError>;
}

pub struct KeychainAccess<'a, S: KeychainStore> {
    store: &'a mut S,
    peer: &'a VerifiedPeer,
    policy: &'a KeychainPolicy,
}

impl<'a, S: KeychainStore> KeychainAccess<'a, S> {
    pub closed spec fn spec_peer(&self) -> VerifiedPeer {
        *self.peer
    }

    pub closed spec fn spec_policy(&self) -> KeychainPolicy {
        *self.policy
    }

    pub closed spec fn spec_store(&self) -> S {
        *self.store
    }

    pub fn new(store: &'a mut S, peer: &'a VerifiedPeer, policy: &'a KeychainPolicy) -> (access: Self)
        ensures
            access.spec_peer() == *peer,
            access.spec_policy() == *policy,
            access.spec_store() == *old(store),
    {
        KeychainAccess { store, peer, policy }
    }

    /// Reads the handshake secret for a permitted peer; any other peer is
    /// denied without touching the store.
    pub fn handshake_secret(&self) -> (result: Result<KeychainItem, KeychainError>)
        ensures
            !read_permitted(self.spec_policy(), self.spec_peer()) ==> result
                == Err::<KeychainItem, KeychainError>(KeychainError::AccessDenied),
            read_permitted(self.spec_policy(), self.spec_peer()) ==> call_ensures(
                S::read_owner_handshake_secret_without_ui,
                (&self.spec_store(),),
                result,
            ),
    {
        if !self.policy.permits_secret_read(self.peer) {
            return Err(KeychainError::AccessDenied);
        }
        self.store.read_owner_handshake_secret_without_ui()
    }

    /// Writes the maintenance latch: only for the owner verified for
    /// maintenance under this policy, and only for 1 to
    /// `MAX_MAINTENANCE_LATCH_BYTES` bytes. Anything else is denied without
    /// touching the store.
    pub fn persist_maintenance_latch(&mut self, value: &[u8]) -> (result: Result<(), KeychainError>)
        ensures
            final(self).spec_peer() == old(self).spec_peer(),
            final(self).spec_policy() == old(self).spec_policy(),
            !latch_write_permitted(old(self).spec_policy(), old(self).spec_peer(), value@) ==> result
                == Err::<(), KeychainError>(KeychainError::AccessDenied) && final(self).spec_store()
                == old(self).spec_store(),
            latch_write_permitted(old(self).spec_policy(), old(self).spec_peer(), value@) ==> exists|
                r: &mut S,
            |
                mut_ref_current(r) == old(self).spec_store() && mut_ref_future(r) == final(self).spec_store()
                    && #[trigger] call_ensures(S::write_maintenance_latch_without_ui, (r, value), result),
    {
        if self.peer.role() != PeerRole::Owner || self.peer.purpose()
            != AuthorizationPurpose::Maintenance || !self.peer.policy_digest().same_as(
            &self.policy.peer_policy_digest,
        ) || value.len() == 0 || value.len() > MAX_MAINTENANCE_LATCH_BYTES {
            return Err(KeychainError::AccessDenied);
        }
        self.store.write_maintenance_latch_without_ui(value)
    }
}

/// With the requirement ACL, a gateway or owner verified against the peer
/// policy that the Keychain policy was built from may read the secret.
pub proof fn law_requirement_acl_admits_verified_roles(
    peer_policy: MacosPeerPolicy,
    policy: KeychainPolicy,
    peer: VerifiedPeer,
    role: PeerRole,
    purpose: AuthorizationPurpose,
)
    requires
        policy.spec_sharing_mode() == KeychainSharingMode::RequirementAcl,
        policy.spec_gateway_requirement_digest() == spec_requirement_digest(
            peer_policy.gateway.designated_requirement@,
        ),
        policy.spec_owner_requirement_digest() == spec_requirement_digest(
            peer_policy.owner.designated_requirement@,
        ),
        policy.spec_peer_policy_digest() == spec_policy_digest(peer_policy),
        accepted_peer_facts(peer_policy, role, purpose, peer),
    ensures
        read_permitted(policy, peer),
{
}

/// In the owner-mediated mode no gateway ever reads the secret, whatever it
/// was verified against; a verified owner still may.
pub proof fn law_owner_mediated_never_releases_to_gateway(
    peer_policy: MacosPeerPolicy,
    policy: KeychainPolicy,
    peer: VerifiedPeer,
    role: PeerRole,
    purpose: AuthorizationPurpose,
)
    requires
        policy.spec_sharing_mode() == KeychainSharingMode::OwnerMediated,
        policy.spec_owner_requirement_digest() == spec_requirement_digest(
            peer_policy.owner.designated_requirement@,
        ),
        policy.spec_peer_policy_digest() == spec_policy_digest(peer_policy),
        accepted_peer_facts(peer_policy, role, purpose, peer),
    ensures
        read_permitted(policy, peer) <==> role == PeerRole::Owner,
{
}

/// A peer verified under one enrollment cannot read under a Keychain policy
/// whose peer-policy digest differs.
pub proof fn law_stale_peer_is_denied(policy: KeychainPolicy, peer: VerifiedPeer)
    requires
        peer.spec_policy_digest() != policy.spec_peer_policy_digest(),
    ensures
        !read_permitted(policy, peer),
{
}

/// Only the owner, verified for maintenance, may write the latch; the
/// gateway never may, whatever it writes.
pub proof fn law_gateway_never_writes_latch(policy: KeychainPolicy, peer: VerifiedPeer, value: Seq<u8>)
    requires
        peer.spec_role() == PeerRole::Gateway,
    ensures
        !latch_write_permitted(policy, peer, value),
{
}

} // verus!
