//! Text of the local designated requirements and the byte-level checks on
//! enrolled requirement text and executable paths.

use vstd::prelude::*;
use vstd::string::*;
use crate::identity::{LocalSigningIdentity, RequirementHash, IdentityError, MAX_REQUIREMENT_BYTES};

verus! {

/// The lowercase hexadecimal digit for a nibble.
pub open spec fn hex_digit_text(n: u8) -> Seq<char> {
    if n == 0 {
        "0"@
    } else if n == 1 {
        "1"@
    } else if n == 2 {
        "2"@
    } else if n == 3 {
        "3"@
    } else if n == 4 {
        "4"@
    } else if n == 5 {
        "5"@
    } else if n == 6 {
        "6"@
    } else if n == 7 {
        "7"@
    } else if n == 8 {
        "8"@
    } else if n == 9 {
        "9"@
    } else if n == 10 {
        "a"@
    } else if n == 11 {
        "b"@
    } else if n == 12 {
        "c"@
    } else if n == 13 {
        "d"@
    } else if n == 14 {
        "e"@
    } else if n == 15 {
        "f"@
    } else {
        Seq::empty()
    }
}

/// Two lowercase hexadecimal digits for one byte, high nibble first.
pub open spec fn hex_byte_text(b: u8) -> Seq<char> {
    hex_digit_text(b / 16) + hex_digit_text(b % 16)
}

/// Lowercase hexadecimal text of a byte sequence.
pub open spec fn hex_text(bytes: Seq<u8>) -> Seq<char>
    decreases bytes.len(),
{
    if bytes.len() == 0 {
        Seq::empty()
    } else {
        hex_text(bytes.drop_last()) + hex_byte_text(bytes.last())
    }
}

fn hex_digit_str(n: u8) -> (digit: &'static str)
    requires
        n < 16,
    ensures
        digit@ == hex_digit_text(n),
{
    if n == 0 {
        "0"
    } else if n == 1 {
        "1"
    } else if n == 2 {
        "2"
    } else if n == 3 {
        "3"
    } else if n == 4 {
        "4"
    } else if n == 5 {
        "5"
    } else if n == 6 {
        "6"
    } else if n == 7 {
        "7"
    } else if n == 8 {
        "8"
    } else if n == 9 {
        "9"
    } else if n == 10 {
        "a"
    } else if n == 11 {
        "b"
    } else if n == 12 {
        "c"
    } else if n == 13 {
        "d"
    } else if n == 14 {
        "e"
    } else if n == 15 {
        "f"
    } else {
        "f"
    }
}

/// Every hexadecimal digit is a single character.
pub proof fn lemma_hex_digit_is_one_char(n: u8)
    requires
        n < 16,
    ensures
        hex_digit_text(n).len() == 1,
{
        reveal_strlit("0");
        reveal_strlit("1");
        reveal_strlit("2");
        reveal_strlit("3");
        reveal_strlit("4");
        reveal_strlit("5");
        reveal_strlit("6");
        reveal_strlit("7");
        reveal_strlit("8");
        reveal_strlit("9");
        reveal_strlit("a");
        reveal_strlit("b");
        reveal_strlit("c");
        reveal_strlit("d");
        reveal_strlit("e");
        reveal_strlit("f");
}

/// Hexadecimal text has two characters per byte.
pub proof fn lemma_hex_text_len(bytes: Seq<u8>)
    ensures
        hex_text(bytes).len() == 2 * bytes.len(),
    decreases bytes.len(),
{
    if bytes.len() > 0 {
        lemma_hex_text_len(bytes.drop_last());
        lemma_hex_digit_is_one_char(bytes.last() / 16);
        lemma_hex_digit_is_one_char(bytes.last() % 16);
    }
}

/// Lowercase hexadecimal text of a byte slice.
pub fn hex_string(bytes: &[u8]) -> (text: String)
    ensures
        text@ == hex_text(bytes@),
{
    let mut text = String::new();
    let mut i: usize = 0;
    while i < bytes.len()
        invariant
            0 <= i <= bytes@.len(),
            text@ == hex_text(bytes@.subrange(0, i as int)),
        decreases bytes@.len() - i,
    {
        let b = bytes[i];
        text.append(hex_digit_str(b / 16));
        text.append(hex_digit_str(b % 16));
        proof {
            let next = bytes@.subrange(0, i + 1);
            assert(next.drop_last() =~= bytes@.subrange(0, i as int));
            assert(next.last() == b);
        }
        i = i + 1;
    }
    assert(bytes@.subrange(0, bytes@.len() as int) =~= bytes@);
    text
}

/// Lowercase hexadecimal text of a requirement hash.
pub fn requirement_hex(value: &RequirementHash) -> (text: String)
    ensures
        text@ == hex_text(value@),
{
    hex_string(value.as_bytes().as_slice())
}

/// `identifier "<id>" and cdhash H"<hex>" and not anchor apple`
pub open spec fn ad_hoc_requirement_text(identifier: Seq<char>, cdhash: Seq<u8>) -> Seq<char> {
    "identifier \""@ + identifier + "\" and cdhash H\""@ + hex_text(cdhash)
        + "\" and not anchor apple"@
}

/// `identifier "<id>" and anchor trusted and certificate leaf = H"<hex>" and
/// certificate root = H"<hex>" and not anchor apple`
pub open spec fn self_signed_requirement_text(identifier: Seq<char>, certificate: Seq<u8>) -> Seq<
    char,
> {
    "identifier \""@ + identifier + "\" and anchor trusted and certificate leaf = H\""@ + hex_text(
        certificate,
    ) + "\" and certificate root = H\""@ + hex_text(certificate) + "\" and not anchor apple"@
}

/// The requirement text that a signing identity must be enrolled with.
pub open spec fn expected_requirement_text(identifier: Seq<char>, identity: LocalSigningIdentity) -> Seq<char> {
    match identity {
        LocalSigningIdentity::AdHoc { code_directory_hash } => ad_hoc_requirement_text(
            identifier,
            code_directory_hash@,
        ),
        LocalSigningIdentity::LocallyTrustedSelfSigned { requirement_certificate_hash, .. } =>
            self_signed_requirement_text(identifier, requirement_certificate_hash@),
    }
}

/// The designated requirement of an exact ad-hoc signature.
pub fn ad_hoc_designated_requirement(identifier: &str, code_directory_hash: RequirementHash) -> (requirement: String)
    ensures
        requirement@ == ad_hoc_requirement_text(identifier@, code_directory_hash@),
{
    let mut text = String::new();
    text.append("identifier \"");
    text.append(identifier);
    text.append("\" and cdhash H\"");
    let hex = requirement_hex(&code_directory_hash);
    text.append(hex.as_str());
    text.append("\" and not anchor apple");
    text
}

/// The designated requirement of a locally trusted self-signed certificate,
/// pinned as both leaf and root.
pub fn self_signed_designated_requirement(identifier: &str, requirement_certificate_hash: RequirementHash) -> (requirement: String)
    ensures
        requirement@ == self_signed_requirement_text(identifier@, requirement_certificate_hash@),
{
    let hex = requirement_hex(&requirement_certificate_hash);
    let mut text = String::new();
    text.append("identifier \"");
    text.append(identifier);
    text.append("\" and anchor trusted and certificate leaf = H\"");
    text.append(hex.as_str());
    text.append("\" and certificate root = H\"");
    text.append(hex.as_str());
    text.append("\" and not anchor apple");
    text
}

/// Whether `requirement` is exactly the text that `identity` prescribes for
/// `identifier`.
pub fn requirement_matches_signing_identity(requirement: &String, identifier: &String, identity: LocalSigningIdentity) -> (matches: bool)
    ensures
        matches == (requirement@ == expected_requirement_text(identifier@, identity)),
{
    let expected = match identity {
        LocalSigningIdentity::AdHoc { code_directory_hash } => ad_hoc_designated_requirement(
            identifier.as_str(),
            code_directory_hash,
        ),
        LocalSigningIdentity::LocallyTrustedSelfSigned { requirement_certificate_hash, .. } =>
            self_signed_designated_requirement(identifier.as_str(), requirement_certificate_hash),
    };
    *requirement == expected
}

/// A byte that may not appear in requirement text: NUL, and every ASCII
/// control byte other than tab.
pub open spec fn forbidden_requirement_byte(b: u8) -> bool {
    b == 0 || (b < 0x20 && b != 0x09) || b == 0x7f
}

/// Requirement text is nonempty, at most `MAX_REQUIREMENT_BYTES` long in
/// UTF-8, and free of forbidden bytes.
pub open spec fn requirement_text_valid(bytes: Seq<u8>) -> bool {
    &&& bytes.len() > 0
    &&& bytes.len() <= MAX_REQUIREMENT_BYTES
    &&& forall|i: int| 0 <= i < bytes.len() ==> !forbidden_requirement_byte(#[trigger] bytes[i])
}

/// Checks the shape of designated requirement text.
pub fn validate_requirement(requirement: &str) -> (result: Result<(), IdentityError>)
    ensures
        result is Ok <==> requirement_text_valid(requirement.spec_bytes()),
        result is Err ==> result == Err::<(), IdentityError>(IdentityError::InvalidRequirement),
{
    let bytes = requirement.as_bytes();
    if bytes.len() == 0 || bytes.len() > MAX_REQUIREMENT_BYTES {
        return Err(IdentityError::InvalidRequirement);
    }
    let mut i: usize = 0;
    while i < bytes.len()
        invariant
            bytes@ == requirement.spec_bytes(),
            0 <= i <= bytes.len(),
            forall|k: int| 0 <= k < i ==> !forbidden_requirement_byte(#[trigger] bytes@[k]),
        decreases bytes.len() - i,
    {
        let b = bytes[i];
        if b == 0 || (b < 0x20 && b != 0x09) || b == 0x7f {
            assert(forbidden_requirement_byte(bytes@[i as int]));
            return Err(IdentityError::InvalidRequirement);
        }
        i = i + 1;
    }
    Ok(())
}

pub open spec fn is_separator(b: u8) -> bool {
    b == 0x2f || b == 0x5c
}

/// The segment starting at `i` (after a separator or at the start) is
/// exactly `.`.
pub open spec fn dot_segment_at(bytes: Seq<u8>, i: int) -> bool {
    &&& 0 <= i < bytes.len()
    &&& bytes[i] == 0x2e
    &&& (i == 0 || is_separator(bytes[i - 1]))
    &&& (i + 1 == bytes.len() || is_separator(bytes[i + 1]))
}

/// The segment starting at `i` (after a separator or at the start) is
/// exactly `..`.
pub open spec fn dot_dot_segment_at(bytes: Seq<u8>, i: int) -> bool {
    &&& 0 <= i && i + 1 < bytes.len()
    &&& bytes[i] == 0x2e
    &&& bytes[i + 1] == 0x2e
    &&& (i == 0 || is_separator(bytes[i - 1]))
    &&& (i + 2 == bytes.len() || is_separator(bytes[i + 2]))
}

/// An enrolled executable path: absolute (it starts at the root) and, split
/// at `/` and `\`, free of `.` and `..` segments.
pub open spec fn path_is_normal_absolute(bytes: Seq<u8>) -> bool {
    &&& bytes.len() > 0
    &&& bytes[0] == 0x2f
    &&& forall|i: int| !#[trigger] dot_segment_at(bytes, i)
    &&& forall|i: int| !#[trigger] dot_dot_segment_at(bytes, i)
}

/// Whether `path` is an absolute path with only normal components.
pub fn absolute_path_has_only_normal_components(path: &str) -> (normal: bool)
    ensures
        normal == path_is_normal_absolute(path.spec_bytes()),
{
    let bytes = path.as_bytes();
    let n = bytes.len();
    if n == 0 || bytes[0] != 0x2f {
        return false;
    }
    let mut i: usize = 0;
    while i < n
        invariant
            bytes@ == path.spec_bytes(),
            n == bytes@.len(),
            0 <= i <= n,
            forall|k: int| 0 <= k < i ==> !#[trigger] dot_segment_at(bytes@, k),
            forall|k: int| 0 <= k < i ==> !#[trigger] dot_dot_segment_at(bytes@, k),
        decreases n - i,
    {
        let starts = i == 0 || bytes[i - 1] == 0x2f || bytes[i - 1] == 0x5c;
        if starts && bytes[i] == 0x2e {
            if i + 1 == n || bytes[i + 1] == 0x2f || bytes[i + 1] == 0x5c {
                assert(dot_segment_at(bytes@, i as int));
                return false;
            }
            if bytes[i + 1] == 0x2e && (i + 2 == n || bytes[i + 2] == 0x2f || bytes[i + 2] == 0x5c) {
                assert(dot_dot_segment_at(bytes@, i as int));
                return false;
            }
        }
        i = i + 1;
    }
    assert forall|k: int| !#[trigger] dot_segment_at(bytes@, k) by {
        if 0 <= k < n {
        }
    }
    assert forall|k: int| !#[trigger] dot_dot_segment_at(bytes@, k) by {
        if 0 <= k < n {
        }
    }
    true
}

} // verus!
