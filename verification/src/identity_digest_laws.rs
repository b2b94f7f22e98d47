//! The peer-policy digest input commits to every enrolled field: two
//! policies with the same digest input agree on the console user, the audit
//! session, the release digest and every field of both roles.

use vstd::prelude::*;
use vstd::utf8::{encode_utf8, encode_utf8_decode_utf8};
use crate::identity::{LocalSigningIdentity, same_signing_identity};
use crate::identity_policy::{MacosPeerPolicy, RolePolicy, text_bytes};
use crate::identity_digest::{
    be_u32, be_u64, length_prefixed, lemma_be_u32_injective, policy_message, policy_domain,
    role_policy_bytes, signing_identity_bytes,
};

verus! {

/// Two role policies agree on every field that their digest encoding holds.
pub open spec fn role_fields_equal(a: RolePolicy, b: RolePolicy) -> bool {
    &&& a.signing_identifier@ == b.signing_identifier@
    &&& a.designated_requirement@ == b.designated_requirement@
    &&& a.canonical_executable_path@ == b.canonical_executable_path@
    &&& a.executable_sha256@ == b.executable_sha256@
    &&& a.code_directory_hash@ == b.code_directory_hash@
    &&& same_signing_identity(a.signing_identity, b.signing_identity)
    &&& a.capture_authorized == b.capture_authorized
}

proof fn lemma_be_u64_injective(x: u64, y: u64)
    requires
        be_u64(x) == be_u64(y),
    ensures
        x == y,
{
    assert(be_u64(x)[0] == be_u64(y)[0]);
    assert(be_u64(x)[1] == be_u64(y)[1]);
    assert(be_u64(x)[2] == be_u64(y)[2]);
    assert(be_u64(x)[3] == be_u64(y)[3]);
    assert(be_u64(x)[4] == be_u64(y)[4]);
    assert(be_u64(x)[5] == be_u64(y)[5]);
    assert(be_u64(x)[6] == be_u64(y)[6]);
    assert(be_u64(x)[7] == be_u64(y)[7]);
    assert(x == (x / 0x100_0000_0000_0000) as u8 as u64 * 0x100_0000_0000_0000 + ((x
        / 0x1_0000_0000_0000) % 0x100) as u8 as u64 * 0x1_0000_0000_0000 + ((x / 0x100_0000_0000)
        % 0x100) as u8 as u64 * 0x100_0000_0000 + ((x / 0x1_0000_0000) % 0x100) as u8 as u64
        * 0x1_0000_0000 + ((x / 0x100_0000) % 0x100) as u8 as u64 * 0x100_0000 + ((x / 0x1_0000)
        % 0x100) as u8 as u64 * 0x1_0000 + ((x / 0x100) % 0x100) as u8 as u64 * 0x100 + (x
        % 0x100) as u8 as u64) by (bit_vector);
    assert(y == (y / 0x100_0000_0000_0000) as u8 as u64 * 0x100_0000_0000_0000 + ((y
        / 0x1_0000_0000_0000) % 0x100) as u8 as u64 * 0x1_0000_0000_0000 + ((y / 0x100_0000_0000)
        % 0x100) as u8 as u64 * 0x100_0000_0000 + ((y / 0x1_0000_0000) % 0x100) as u8 as u64
        * 0x1_0000_0000 + ((y / 0x100_0000) % 0x100) as u8 as u64 * 0x100_0000 + ((y / 0x1_0000)
        % 0x100) as u8 as u64 * 0x1_0000 + ((y / 0x100) % 0x100) as u8 as u64 * 0x100 + (y
        % 0x100) as u8 as u64) by (bit_vector);
}

/// Splitting equal concatenations at equal lengths.
proof fn lemma_split(a1: Seq<u8>, b1: Seq<u8>, a2: Seq<u8>, b2: Seq<u8>)
    requires
        a1 + b1 == a2 + b2,
        a1.len() == a2.len(),
    ensures
        a1 == a2,
        b1 == b2,
{
    assert(a1 =~= (a1 + b1).subrange(0, a1.len() as int));
    assert(a2 =~= (a2 + b2).subrange(0, a2.len() as int));
    assert(b1 =~= (a1 + b1).subrange(a1.len() as int, (a1 + b1).len() as int));
    assert(b2 =~= (a2 + b2).subrange(a2.len() as int, (a2 + b2).len() as int));
}

/// A length-prefixed part is read back exactly, with the rest after it.
proof fn lemma_length_prefixed(x1: Seq<u8>, r1: Seq<u8>, x2: Seq<u8>, r2: Seq<u8>)
    requires
        length_prefixed(x1) + r1 == length_prefixed(x2) + r2,
        x1.len() <= u64::MAX,
        x2.len() <= u64::MAX,
    ensures
        x1 == x2,
        r1 == r2,
{
    assert(length_prefixed(x1) + r1 =~= be_u64(x1.len() as u64) + (x1 + r1));
    assert(length_prefixed(x2) + r2 =~= be_u64(x2.len() as u64) + (x2 + r2));
    lemma_split(be_u64(x1.len() as u64), x1 + r1, be_u64(x2.len() as u64), x2 + r2);
    lemma_be_u64_injective(x1.len() as u64, x2.len() as u64);
    lemma_split(x1, r1, x2, r2);
}

/// Equal UTF-8 encodings are equal texts.
proof fn lemma_text_bytes_injective(a: String, b: String)
    requires
        text_bytes(&a) == text_bytes(&b),
    ensures
        a@ == b@,
{
    encode_utf8_decode_utf8(a@);
    encode_utf8_decode_utf8(b@);
}

/// A signing identity's encoding is read back exactly, with the rest after it.
proof fn lemma_signing_identity_bytes(
    i1: LocalSigningIdentity,
    r1: Seq<u8>,
    i2: LocalSigningIdentity,
    r2: Seq<u8>,
)
    requires
        signing_identity_bytes(i1) + r1 == signing_identity_bytes(i2) + r2,
    ensures
        same_signing_identity(i1, i2),
        r1 == r2,
{
    let m1 = signing_identity_bytes(i1) + r1;
    let m2 = signing_identity_bytes(i2) + r2;
    assert(m1[0] == m2[0]);
    match (i1, i2) {
        (
            LocalSigningIdentity::AdHoc { code_directory_hash: h1 },
            LocalSigningIdentity::AdHoc { code_directory_hash: h2 },
        ) => {
            h1.lemma_len();
            h2.lemma_len();
            assert(m1 =~= seq![0u8] + (h1@ + r1));
            assert(m2 =~= seq![0u8] + (h2@ + r2));
            lemma_split(seq![0u8], h1@ + r1, seq![0u8], h2@ + r2);
            lemma_split(h1@, r1, h2@, r2);
        },
        (
            LocalSigningIdentity::LocallyTrustedSelfSigned {
                certificate_sha256: c1,
                requirement_certificate_hash: h1,
            },
            LocalSigningIdentity::LocallyTrustedSelfSigned {
                certificate_sha256: c2,
                requirement_certificate_hash: h2,
            },
        ) => {
            c1.lemma_len();
            c2.lemma_len();
            h1.lemma_len();
            h2.lemma_len();
            assert(m1 =~= seq![1u8] + (c1@ + (h1@ + r1)));
            assert(m2 =~= seq![1u8] + (c2@ + (h2@ + r2)));
            lemma_split(seq![1u8], c1@ + (h1@ + r1), seq![1u8], c2@ + (h2@ + r2));
            lemma_split(c1@, h1@ + r1, c2@, h2@ + r2);
            lemma_split(h1@, r1, h2@, r2);
        },
        (LocalSigningIdentity::AdHoc { .. }, LocalSigningIdentity::LocallyTrustedSelfSigned { .. }) => {
            assert(m1[0] == 0u8);
            assert(m2[0] == 1u8);
        },
        (LocalSigningIdentity::LocallyTrustedSelfSigned { .. }, LocalSigningIdentity::AdHoc { .. }) => {
            assert(m1[0] == 1u8);
            assert(m2[0] == 0u8);
        },
    }
}

proof fn lemma_assoc(a: Seq<u8>, b: Seq<u8>, c: Seq<u8>)
    ensures
        (a + b) + c == a + (b + c),
{
    assert((a + b) + c =~= a + (b + c));
}

/// The seven parts of a role encoding followed by a rest, nested to the
/// right.
proof fn lemma_role_layout(role: RolePolicy, rest: Seq<u8>)
    ensures
        role_policy_bytes(role) + rest == length_prefixed(text_bytes(&role.signing_identifier)) + (
        length_prefixed(text_bytes(&role.designated_requirement)) + (length_prefixed(
            text_bytes(&role.canonical_executable_path),
        ) + (role.executable_sha256@ + (role.code_directory_hash@ + (signing_identity_bytes(
            role.signing_identity,
        ) + (seq![if role.capture_authorized { 1u8 } else { 0u8 }] + rest)))))),
{
    let a = length_prefixed(text_bytes(&role.signing_identifier));
    let b = length_prefixed(text_bytes(&role.designated_requirement));
    let c = length_prefixed(text_bytes(&role.canonical_executable_path));
    let d = role.executable_sha256@;
    let e = role.code_directory_hash@;
    let f = signing_identity_bytes(role.signing_identity);
    let g = seq![if role.capture_authorized { 1u8 } else { 0u8 }];
    assert(role_policy_bytes(role) == a + b + c + d + e + f + g);
    lemma_assoc(a + b + c + d + e + f, g, rest);
    lemma_assoc(a + b + c + d + e, f, g + rest);
    lemma_assoc(a + b + c + d, e, f + (g + rest));
    lemma_assoc(a + b + c, d, e + (f + (g + rest)));
    lemma_assoc(a + b, c, d + (e + (f + (g + rest))));
    lemma_assoc(a, b, c + (d + (e + (f + (g + rest)))));
}

/// A role's encoding is read back exactly, with the rest after it.
proof fn lemma_role_policy_bytes(a: RolePolicy, r1: Seq<u8>, b: RolePolicy, r2: Seq<u8>)
    requires
        role_policy_bytes(a) + r1 == role_policy_bytes(b) + r2,
        role_texts_encodable(a),
        role_texts_encodable(b),
    ensures
        role_fields_equal(a, b),
        r1 == r2,
{
    lemma_role_layout(a, r1);
    lemma_role_layout(b, r2);
    let cap_a = seq![if a.capture_authorized { 1u8 } else { 0u8 }];
    let cap_b = seq![if b.capture_authorized { 1u8 } else { 0u8 }];
    let f_a = signing_identity_bytes(a.signing_identity) + (cap_a + r1);
    let f_b = signing_identity_bytes(b.signing_identity) + (cap_b + r2);
    let e_a = a.code_directory_hash@ + f_a;
    let e_b = b.code_directory_hash@ + f_b;
    let d_a = a.executable_sha256@ + e_a;
    let d_b = b.executable_sha256@ + e_b;
    let c_a = length_prefixed(text_bytes(&a.canonical_executable_path)) + d_a;
    let c_b = length_prefixed(text_bytes(&b.canonical_executable_path)) + d_b;
    let b_a = length_prefixed(text_bytes(&a.designated_requirement)) + c_a;
    let b_b = length_prefixed(text_bytes(&b.designated_requirement)) + c_b;
    lemma_length_prefixed(text_bytes(&a.signing_identifier), b_a, text_bytes(&b.signing_identifier), b_b);
    lemma_length_prefixed(text_bytes(&a.designated_requirement), c_a, text_bytes(&b.designated_requirement), c_b);
    lemma_length_prefixed(text_bytes(&a.canonical_executable_path), d_a, text_bytes(&b.canonical_executable_path), d_b);
    lemma_text_bytes_injective(a.signing_identifier, b.signing_identifier);
    lemma_text_bytes_injective(a.designated_requirement, b.designated_requirement);
    lemma_text_bytes_injective(a.canonical_executable_path, b.canonical_executable_path);
    a.executable_sha256.lemma_len();
    b.executable_sha256.lemma_len();
    a.code_directory_hash.lemma_len();
    b.code_directory_hash.lemma_len();
    lemma_split(a.executable_sha256@, e_a, b.executable_sha256@, e_b);
    lemma_split(a.code_directory_hash@, f_a, b.code_directory_hash@, f_b);
    lemma_signing_identity_bytes(a.signing_identity, cap_a + r1, b.signing_identity, cap_b + r2);
    lemma_split(cap_a, r1, cap_b, r2);
    assert(cap_a[0] == cap_b[0]);
}

/// Texts whose UTF-8 encodings fit a 64-bit length prefix.
pub open spec fn role_texts_encodable(role: RolePolicy) -> bool {
    &&& text_bytes(&role.signing_identifier).len() <= u64::MAX
    &&& text_bytes(&role.designated_requirement).len() <= u64::MAX
    &&& text_bytes(&role.canonical_executable_path).len() <= u64::MAX
}

/// The peer-policy digest input commits to the whole enrollment: equal
/// inputs come only from policies that agree on the console user, the audit
/// session, the release digest and every field of both roles.
#[verifier::rlimit(60)]
#[verifier::spinoff_prover]
pub proof fn law_policy_message_commits_to_enrollment(p1: MacosPeerPolicy, p2: MacosPeerPolicy)
    requires
        policy_message(p1) == policy_message(p2),
        role_texts_encodable(p1.gateway),
        role_texts_encodable(p1.owner),
        role_texts_encodable(p2.gateway),
        role_texts_encodable(p2.owner),
    ensures
        p1.console_uid == p2.console_uid,
        p1.audit_session_id == p2.audit_session_id,
        p1.release_build_digest@ == p2.release_build_digest@,
        role_fields_equal(p1.gateway, p2.gateway),
        role_fields_equal(p1.owner, p2.owner),
{
    let roles1 = role_policy_bytes(p1.gateway) + role_policy_bytes(p1.owner);
    let roles2 = role_policy_bytes(p2.gateway) + role_policy_bytes(p2.owner);
    let d1 = p1.release_build_digest@ + roles1;
    let d2 = p2.release_build_digest@ + roles2;
    let s1 = be_u32(p1.audit_session_id) + d1;
    let s2 = be_u32(p2.audit_session_id) + d2;
    let u1 = be_u32(p1.console_uid) + s1;
    let u2 = be_u32(p2.console_uid) + s2;
    let dom = policy_domain();
    assert(policy_message(p1) == dom + be_u32(p1.console_uid) + be_u32(p1.audit_session_id)
        + p1.release_build_digest@ + role_policy_bytes(p1.gateway) + role_policy_bytes(p1.owner));
    lemma_assoc(dom + be_u32(p1.console_uid) + be_u32(p1.audit_session_id) + p1.release_build_digest@, role_policy_bytes(p1.gateway), role_policy_bytes(p1.owner));
    lemma_assoc(dom + be_u32(p1.console_uid) + be_u32(p1.audit_session_id), p1.release_build_digest@, roles1);
    lemma_assoc(dom + be_u32(p1.console_uid), be_u32(p1.audit_session_id), d1);
    lemma_assoc(dom, be_u32(p1.console_uid), s1);
    lemma_assoc(dom + be_u32(p2.console_uid) + be_u32(p2.audit_session_id) + p2.release_build_digest@, role_policy_bytes(p2.gateway), role_policy_bytes(p2.owner));
    lemma_assoc(dom + be_u32(p2.console_uid) + be_u32(p2.audit_session_id), p2.release_build_digest@, roles2);
    lemma_assoc(dom + be_u32(p2.console_uid), be_u32(p2.audit_session_id), d2);
    lemma_assoc(dom, be_u32(p2.console_uid), s2);
    lemma_split(dom, u1, dom, u2);
    lemma_split(be_u32(p1.console_uid), s1, be_u32(p2.console_uid), s2);
    lemma_be_u32_injective(p1.console_uid, p2.console_uid);
    lemma_split(be_u32(p1.audit_session_id), d1, be_u32(p2.audit_session_id), d2);
    lemma_be_u32_injective(p1.audit_session_id, p2.audit_session_id);
    p1.release_build_digest.lemma_len();
    p2.release_build_digest.lemma_len();
    lemma_split(p1.release_build_digest@, roles1, p2.release_build_digest@, roles2);
    lemma_role_policy_bytes(p1.gateway, role_policy_bytes(p1.owner), p2.gateway, role_policy_bytes(p2.owner));
    assert(role_policy_bytes(p1.owner) + Seq::<u8>::empty() =~= role_policy_bytes(p1.owner));
    assert(role_policy_bytes(p2.owner) + Seq::<u8>::empty() =~= role_policy_bytes(p2.owner));
    lemma_role_policy_bytes(p1.owner, Seq::<u8>::empty(), p2.owner, Seq::<u8>::empty());
}

} // verus!
