//! SHA-256 digests that bind a connection, a requirement and a peer policy.
//!
//! Each digest input is assembled here byte by byte, with its exact layout
//! stated as a spec function; only the hash itself is computed by `sha2`.

use vstd::prelude::*;
use vstd::string::*;
use vstd::utf8::encode_utf8;
use sha2::{Digest, Sha256};
use crate::identity::{AuditToken, Bytes32, LocalSigningIdentity};
use crate::identity_policy::{MacosPeerPolicy, RolePolicy, text_bytes};

verus! {

/// The SHA-256 digest of a byte sequence, as `sha2` computes it.
pub uninterp spec fn sha256(data: Seq<u8>) -> Seq<u8>;

/// Hashes `data` with `sha2::Sha256::digest`; the result is `sha256(data)`.
#[verifier::external_body]
pub(crate) fn sha256_digest(data: &[u8]) -> (digest: Bytes32)
    ensures
        digest@ == sha256(data@),
{
    Bytes32::new(Sha256::digest(data).into())
}

/// Big-endian bytes of a 32-bit word.
pub open spec fn be_u32(x: u32) -> Seq<u8> {
    seq![
        (x / 0x100_0000) as u8,
        ((x / 0x1_0000) % 0x100) as u8,
        ((x / 0x100) % 0x100) as u8,
        (x % 0x100) as u8,
    ]
}

/// Big-endian bytes of a 64-bit word.
pub open spec fn be_u64(x: u64) -> Seq<u8> {
    seq![
        (x / 0x100_0000_0000_0000) as u8,
        ((x / 0x1_0000_0000_0000) % 0x100) as u8,
        ((x / 0x100_0000_0000) % 0x100) as u8,
        ((x / 0x1_0000_0000) % 0x100) as u8,
        ((x / 0x100_0000) % 0x100) as u8,
        ((x / 0x1_0000) % 0x100) as u8,
        ((x / 0x100) % 0x100) as u8,
        (x % 0x100) as u8,
    ]
}

/// Big-endian bytes of each word in turn.
pub open spec fn be_words(words: Seq<u32>) -> Seq<u8>
    decreases words.len(),
{
    if words.len() == 0 {
        Seq::empty()
    } else {
        be_words(words.drop_last()) + be_u32(words.last())
    }
}

pub open spec fn binding_domain() -> Seq<u8> {
    "talking-quill/macos-audit-token-binding/v1\0".spec_bytes()
}

pub open spec fn policy_domain() -> Seq<u8> {
    "talking-quill/macos-peer-policy/v1\0".spec_bytes()
}

/// The digest input of a connection binding: the domain, the eight token
/// words and the UID, all big-endian.
pub open spec fn binding_message(token: Seq<u32>, uid: u32) -> Seq<u8> {
    binding_domain() + be_words(token) + be_u32(uid)
}

/// A length-prefixed part: its length as a big-endian 64-bit word, then its
/// bytes.
pub open spec fn length_prefixed(bytes: Seq<u8>) -> Seq<u8> {
    be_u64(bytes.len() as u64) + bytes
}

/// The encoding of a signing identity: a tag byte and its hashes.
pub open spec fn signing_identity_bytes(identity: LocalSigningIdentity) -> Seq<u8> {
    match identity {
        LocalSigningIdentity::AdHoc { code_directory_hash } => seq![0u8] + code_directory_hash@,
        LocalSigningIdentity::LocallyTrustedSelfSigned {
            certificate_sha256,
            requirement_certificate_hash,
        } => seq![1u8] + certificate_sha256@ + requirement_certificate_hash@,
    }
}

/// The encoding of one role policy inside the peer-policy digest input.
pub open spec fn role_policy_bytes(role: RolePolicy) -> Seq<u8> {
    length_prefixed(text_bytes(&role.signing_identifier)) + length_prefixed(
        text_bytes(&role.designated_requirement),
    ) + length_prefixed(text_bytes(&role.canonical_executable_path)) + role.executable_sha256@
        + role.code_directory_hash@ + signing_identity_bytes(role.signing_identity) + seq![
        if role.capture_authorized {
            1u8
        } else {
            0u8
        },
    ]
}

/// The digest input of a peer policy.
pub open spec fn policy_message(policy: MacosPeerPolicy) -> Seq<u8> {
    policy_domain() + be_u32(policy.console_uid) + be_u32(policy.audit_session_id)
        + policy.release_build_digest@ + role_policy_bytes(policy.gateway) + role_policy_bytes(
        policy.owner,
    )
}

pub open spec fn spec_connection_binding(token: Seq<u32>, uid: u32) -> Seq<u8> {
    sha256(binding_message(token, uid))
}

pub open spec fn spec_requirement_digest(requirement: Seq<char>) -> Seq<u8> {
    sha256(encode_utf8(requirement))
}

pub open spec fn spec_policy_digest(policy: MacosPeerPolicy) -> Seq<u8> {
    sha256(policy_message(policy))
}

/// Appends bytes to a buffer.
pub fn push_bytes(out: &mut Vec<u8>, data: &[u8])
    ensures
        final(out)@ == old(out)@ + data@,
{
    let mut i: usize = 0;
    while i < data.len()
        invariant
            0 <= i <= data.len(),
            out@ == old(out)@ + data@.subrange(0, i as int),
        decreases data.len() - i,
    {
        out.push(data[i]);
        proof {
            assert(data@.subrange(0, i + 1) =~= data@.subrange(0, i as int).push(data@[i as int]));
        }
        i = i + 1;
    }
    assert(data@.subrange(0, data@.len() as int) =~= data@);
}

/// Appends the big-endian bytes of a 32-bit word.
pub fn push_be_u32(out: &mut Vec<u8>, x: u32)
    ensures
        final(out)@ == old(out)@ + be_u32(x),
{
    out.push((x / 0x100_0000) as u8);
    out.push(((x / 0x1_0000) % 0x100) as u8);
    out.push(((x / 0x100) % 0x100) as u8);
    out.push((x % 0x100) as u8);
    assert(out@ =~= old(out)@ + be_u32(x));
}

fn push_u64(out: &mut Vec<u8>, x: u64)
    ensures
        final(out)@ == old(out)@ + be_u64(x),
{
    out.push((x / 0x100_0000_0000_0000) as u8);
    out.push(((x / 0x1_0000_0000_0000) % 0x100) as u8);
    out.push(((x / 0x100_0000_0000) % 0x100) as u8);
    out.push(((x / 0x1_0000_0000) % 0x100) as u8);
    out.push(((x / 0x100_0000) % 0x100) as u8);
    out.push(((x / 0x1_0000) % 0x100) as u8);
    out.push(((x / 0x100) % 0x100) as u8);
    out.push((x % 0x100) as u8);
    assert(out@ =~= old(out)@ + be_u64(x));
}

fn push_length_prefixed(out: &mut Vec<u8>, data: &[u8])
    ensures
        final(out)@ == old(out)@ + length_prefixed(data@),
{
    push_u64(out, data.len() as u64);
    push_bytes(out, data);
    assert(out@ =~= old(out)@ + length_prefixed(data@));
}

/// The exact digest input of a connection binding.
pub fn connection_binding_message(token: AuditToken, uid: u32) -> (message: Vec<u8>)
    ensures
        message@ == binding_message(token@, uid),
{
    let mut message: Vec<u8> = Vec::new();
    push_bytes(&mut message, "talking-quill/macos-audit-token-binding/v1\0".as_bytes());
    let words = token.words();
    let mut i: usize = 0;
    while i < 8
        invariant
            words@ == token@,
            words@.len() == 8,
            0 <= i <= 8,
            message@ == binding_domain() + be_words(words@.subrange(0, i as int)),
        decreases 8 - i,
    {
        push_be_u32(&mut message, words[i]);
        proof {
            let next = words@.subrange(0, i + 1);
            assert(next.drop_last() =~= words@.subrange(0, i as int));
            assert(message@ =~= binding_domain() + be_words(next));
        }
        i = i + 1;
    }
    assert(words@.subrange(0, 8) =~= words@);
    push_be_u32(&mut message, uid);
    assert(message@ =~= binding_message(token@, uid));
    message
}

/// Protocol-v1 macOS credential binding. A gateway computes this from its own
/// audit token; the owner recomputes it from the accepted socket's audit token
/// and peer UID.
pub fn audit_token_connection_binding(token: AuditToken, uid: u32) -> (binding: Bytes32)
    ensures
        binding@ == spec_connection_binding(token@, uid),
{
    let message = connection_binding_message(token, uid);
    sha256_digest(message.as_slice())
}

/// The SHA-256 digest of a designated requirement's UTF-8 bytes.
pub fn requirement_digest(requirement: &str) -> (digest: Bytes32)
    ensures
        digest@ == spec_requirement_digest(requirement@),
{
    sha256_digest(requirement.as_bytes())
}

fn push_role_policy(out: &mut Vec<u8>, role: &RolePolicy)
    ensures
        final(out)@ == old(out)@ + role_policy_bytes(*role),
{
    push_length_prefixed(out, role.signing_identifier.as_str().as_bytes());
    push_length_prefixed(out, role.designated_requirement.as_str().as_bytes());
    push_length_prefixed(out, role.canonical_executable_path.as_str().as_bytes());
    push_bytes(out, role.executable_sha256.as_bytes().as_slice());
    push_bytes(out, role.code_directory_hash.as_bytes().as_slice());
    match role.signing_identity {
        LocalSigningIdentity::AdHoc { code_directory_hash } => {
            out.push(0);
            push_bytes(out, code_directory_hash.as_bytes().as_slice());
        },
        LocalSigningIdentity::LocallyTrustedSelfSigned {
            certificate_sha256,
            requirement_certificate_hash,
        } => {
            out.push(1);
            push_bytes(out, certificate_sha256.as_bytes().as_slice());
            push_bytes(out, requirement_certificate_hash.as_bytes().as_slice());
        },
    }
    out.push(if role.capture_authorized { 1 } else { 0 });
    assert(out@ =~= old(out)@ + role_policy_bytes(*role));
}

/// The exact digest input of a peer policy.
pub fn peer_policy_message(policy: &MacosPeerPolicy) -> (message: Vec<u8>)
    ensures
        message@ == policy_message(*policy),
{
    let mut message: Vec<u8> = Vec::new();
    push_bytes(&mut message, "talking-quill/macos-peer-policy/v1\0".as_bytes());
    push_be_u32(&mut message, policy.console_uid);
    push_be_u32(&mut message, policy.audit_session_id);
    push_bytes(&mut message, policy.release_build_digest.as_bytes().as_slice());
    push_role_policy(&mut message, &policy.gateway);
    push_role_policy(&mut message, &policy.owner);
    assert(message@ =~= policy_message(*policy));
    message
}

/// The SHA-256 digest of a peer policy's exact encoding.
pub fn peer_policy_digest(policy: &MacosPeerPolicy) -> (digest: Bytes32)
    ensures
        digest@ == spec_policy_digest(*policy),
{
    let message = peer_policy_message(policy);
    sha256_digest(message.as_slice())
}

pub open spec fn session_domain() -> Seq<u8> {
    "talking-quill/macos-audit-session/v1\0".spec_bytes()
}

/// The digest input that names one console user's GUI audit session.
pub open spec fn session_message(uid: u32, audit_session_id: u32) -> Seq<u8> {
    session_domain() + be_u32(uid) + be_u32(audit_session_id)
}

/// The SHA-256 digest that names one console user's GUI audit session.
pub fn os_session_digest(uid: u32, audit_session_id: u32) -> (digest: Bytes32)
    ensures
        digest@ == sha256(session_message(uid, audit_session_id)),
{
    let mut message: Vec<u8> = Vec::new();
    push_bytes(&mut message, "talking-quill/macos-audit-session/v1\0".as_bytes());
    push_be_u32(&mut message, uid);
    push_be_u32(&mut message, audit_session_id);
    sha256_digest(message.as_slice())
}

/// Big-endian encoding loses nothing: equal encodings are equal words.
pub proof fn lemma_be_u32_injective(x: u32, y: u32)
    requires
        be_u32(x) == be_u32(y),
    ensures
        x == y,
{
    assert(be_u32(x)[0] == be_u32(y)[0]);
    assert(be_u32(x)[1] == be_u32(y)[1]);
    assert(be_u32(x)[2] == be_u32(y)[2]);
    assert(be_u32(x)[3] == be_u32(y)[3]);
    assert(x == (x / 0x100_0000) as u8 as u32 * 0x100_0000 + ((x / 0x1_0000) % 0x100) as u8 as u32
        * 0x1_0000 + ((x / 0x100) % 0x100) as u8 as u32 * 0x100 + (x % 0x100) as u8 as u32)
        by (bit_vector);
    assert(y == (y / 0x100_0000) as u8 as u32 * 0x100_0000 + ((y / 0x1_0000) % 0x100) as u8 as u32
        * 0x1_0000 + ((y / 0x100) % 0x100) as u8 as u32 * 0x100 + (y % 0x100) as u8 as u32)
        by (bit_vector);
}

pub proof fn lemma_be_words_len(words: Seq<u32>)
    ensures
        be_words(words).len() == 4 * words.len(),
    decreases words.len(),
{
    if words.len() > 0 {
        lemma_be_words_len(words.drop_last());
    }
}

/// Equal encodings of equally long word sequences are equal sequences.
pub proof fn lemma_be_words_injective(a: Seq<u32>, b: Seq<u32>)
    requires
        a.len() == b.len(),
        be_words(a) == be_words(b),
    ensures
        a == b,
    decreases a.len(),
{
    if a.len() > 0 {
        lemma_be_words_len(a.drop_last());
        lemma_be_words_len(b.drop_last());
        let n: int = be_words(a.drop_last()).len() as int;
        assert(be_words(a).subrange(0, n) =~= be_words(a.drop_last()));
        assert(be_words(b).subrange(0, n) =~= be_words(b.drop_last()));
        assert(be_words(a).subrange(n, n + 4) =~= be_u32(a.last()));
        assert(be_words(b).subrange(n, n + 4) =~= be_u32(b.last()));
        lemma_be_words_injective(a.drop_last(), b.drop_last());
        lemma_be_u32_injective(a.last(), b.last());
        assert(a =~= a.drop_last().push(a.last()));
        assert(b =~= b.drop_last().push(b.last()));
    }
}

/// The connection binding input is token exact: two audit tokens and UIDs
/// give the same digest input only when they are the same token and UID.
pub proof fn law_binding_message_is_token_exact(t1: Seq<u32>, u1: u32, t2: Seq<u32>, u2: u32)
    requires
        t1.len() == 8,
        t2.len() == 8,
        binding_message(t1, u1) == binding_message(t2, u2),
    ensures
        t1 == t2,
        u1 == u2,
{
    let d: int = binding_domain().len() as int;
    lemma_be_words_len(t1);
    lemma_be_words_len(t2);
    let m1 = binding_message(t1, u1);
    let m2 = binding_message(t2, u2);
    assert(m1.subrange(d, d + 32) =~= be_words(t1));
    assert(m2.subrange(d, d + 32) =~= be_words(t2));
    assert(m1.subrange(d + 32, d + 36) =~= be_u32(u1));
    assert(m2.subrange(d + 32, d + 36) =~= be_u32(u2));
    lemma_be_words_injective(t1, t2);
    lemma_be_u32_injective(u1, u2);
}

} // verus!
