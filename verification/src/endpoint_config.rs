//! Installed endpoint configuration: decoding the enrolled roles and deciding
//! what an interrupted maintenance record means at startup.

use vstd::prelude::*;
use vstd::string::*;
use crate::identity::{Bytes32, LocalSigningIdentity, RequirementHash};
use crate::identity_policy::{RolePolicy, text_bytes};
use vstd::utf8::{encode_utf8, is_ascii_chars, is_ascii_chars_encode_utf8};
use crate::identity_text::{
    hex_digit_text, hex_text, hex_byte_text,
    ad_hoc_designated_requirement, ad_hoc_requirement_text, self_signed_designated_requirement,
    self_signed_requirement_text,
};
use crate::endpoint::MacosEndpointError;

verus! {

/// The value of a lowercase hexadecimal digit byte.
pub open spec fn hex_digit_value(b: u8) -> Option<u8> {
    if 0x30 <= b <= 0x39 {
        Some((b - 0x30) as u8)
    } else if 0x61 <= b <= 0x66 {
        Some((b - 0x61 + 10) as u8)
    } else {
        None
    }
}

/// `text` is exactly `2 * n` lowercase hexadecimal digits.
pub open spec fn hex_text_valid(text: Seq<u8>, n: nat) -> bool {
    &&& text.len() == 2 * n
    &&& forall|j: int| 0 <= j < text.len() ==> (#[trigger] hex_digit_value(text[j])) is Some
}

/// The byte spelled by two hexadecimal digits, high nibble first.
pub open spec fn hex_pair_value(high: u8, low: u8) -> u8 {
    (hex_digit_value(high)->Some_0 * 16 + hex_digit_value(low)->Some_0) as u8
}

/// `bytes` is what valid hexadecimal `text` spells.
pub open spec fn hex_decodes_to(text: Seq<u8>, bytes: Seq<u8>) -> bool {
    &&& text.len() == 2 * bytes.len()
    &&& forall|i: int| 0 <= i < bytes.len() ==> #[trigger] bytes[i] == hex_pair_value(
        text[2 * i],
        text[2 * i + 1],
    )
}

fn nibble(value: u8) -> (digit: Result<u8, MacosEndpointError>)
    ensures
        digit is Ok <==> hex_digit_value(value) is Some,
        digit is Ok ==> digit->Ok_0 == hex_digit_value(value)->Some_0,
        digit is Ok ==> digit->Ok_0 < 16,
        digit is Err ==> digit == Err::<u8, MacosEndpointError>(MacosEndpointError::Configuration),
{
    if 0x30 <= value && value <= 0x39 {
        Ok(value - 0x30)
    } else if 0x61 <= value && value <= 0x66 {
        Ok(value - 0x61 + 10)
    } else {
        Err(MacosEndpointError::Configuration)
    }
}

/// Decodes exactly `n` bytes from `2 * n` lowercase hexadecimal digits.
pub fn decode_hex(value: &str, n: usize) -> (result: Result<Vec<u8>, MacosEndpointError>)
    requires
        n <= 1024,
    ensures
        result is Ok <==> hex_text_valid(value.spec_bytes(), n as nat),
        result is Ok ==> result->Ok_0@.len() == n && hex_decodes_to(value.spec_bytes(), result->Ok_0@),
        result is Err ==> result == Err::<Vec<u8>, MacosEndpointError>(
            MacosEndpointError::Configuration,
        ),
{
    let text = value.as_bytes();
    if text.len() != 2 * n {
        return Err(MacosEndpointError::Configuration);
    }
    let mut bytes: Vec<u8> = Vec::new();
    let mut i: usize = 0;
    while i < n
        invariant
            text@ == value.spec_bytes(),
            text@.len() == 2 * n,
            n <= 1024,
            0 <= i <= n,
            bytes@.len() == i,
            forall|j: int| 0 <= j < 2 * i ==> (#[trigger] hex_digit_value(text@[j])) is Some,
            forall|k: int| 0 <= k < i ==> #[trigger] bytes@[k] == hex_pair_value(
                text@[2 * k],
                text@[2 * k + 1],
            ),
        decreases n - i,
    {
        let high = match nibble(text[2 * i]) {
            Ok(d) => d,
            Err(e) => {
                return Err(e);
            },
        };
        let low = match nibble(text[2 * i + 1]) {
            Ok(d) => d,
            Err(e) => {
                return Err(e);
            },
        };
        bytes.push(high * 16 + low);
        proof {
            assert forall|j: int| 0 <= j < 2 * (i + 1) implies (#[trigger] hex_digit_value(
                text@[j],
            )) is Some by {
                if j == 2 * i {
                } else if j == 2 * i + 1 {
                } else {
                }
            }
        }
        i = i + 1;
    }
    Ok(bytes)
}

fn vec_to_32(bytes: &Vec<u8>) -> (array: [u8; 32])
    requires
        bytes@.len() == 32,
    ensures
        array@ == bytes@,
{
    let mut array: [u8; 32] = [0u8; 32];
    let mut i: usize = 0;
    while i < 32
        invariant
            0 <= i <= 32,
            bytes@.len() == 32,
            array@.len() == 32,
            forall|k: int| 0 <= k < i ==> array@[k] == bytes@[k],
        decreases 32 - i,
    {
        array[i] = bytes[i];
        i = i + 1;
    }
    assert(array@ =~= bytes@);
    array
}

fn vec_to_20(bytes: &Vec<u8>) -> (array: [u8; 20])
    requires
        bytes@.len() == 20,
    ensures
        array@ == bytes@,
{
    let mut array: [u8; 20] = [0u8; 20];
    let mut i: usize = 0;
    while i < 20
        invariant
            0 <= i <= 20,
            bytes@.len() == 20,
            array@.len() == 20,
            forall|k: int| 0 <= k < i ==> array@[k] == bytes@[k],
        decreases 20 - i,
    {
        array[i] = bytes[i];
        i = i + 1;
    }
    assert(array@ =~= bytes@);
    array
}

/// A 32-byte value written as 64 lowercase hexadecimal digits.
pub fn bytes32(value: &str) -> (result: Result<Bytes32, MacosEndpointError>)
    ensures
        result is Ok <==> hex_text_valid(value.spec_bytes(), 32),
        result is Ok ==> hex_decodes_to(value.spec_bytes(), result->Ok_0@),
        result is Err ==> result == Err::<Bytes32, MacosEndpointError>(
            MacosEndpointError::Configuration,
        ),
{
    match decode_hex(value, 32) {
        Ok(bytes) => Ok(Bytes32::new(vec_to_32(&bytes))),
        Err(e) => Err(e),
    }
}

/// A requirement hash written as 40 lowercase hexadecimal digits.
pub fn requirement_hash(value: &str) -> (result: Result<RequirementHash, MacosEndpointError>)
    ensures
        result is Ok <==> hex_text_valid(value.spec_bytes(), 20),
        result is Ok ==> hex_decodes_to(value.spec_bytes(), result->Ok_0@),
        result is Err ==> result == Err::<RequirementHash, MacosEndpointError>(
            MacosEndpointError::Configuration,
        ),
{
    match decode_hex(value, 20) {
        Ok(bytes) => Ok(RequirementHash::new(vec_to_20(&bytes))),
        Err(e) => Err(e),
    }
}

/// A path of the installed configuration: absolute, and free of `.` and
/// `..` segments between `/` separators.
pub open spec fn config_path_valid(bytes: Seq<u8>) -> bool {
    &&& bytes.len() > 0
    &&& bytes[0] == 0x2f
    &&& forall|i: int| !#[trigger] slash_dot_segment_at(bytes, i)
}

/// A `.` or `..` segment, between `/` separators or the ends, starts at `i`.
pub open spec fn slash_dot_segment_at(bytes: Seq<u8>, i: int) -> bool {
    &&& 0 <= i < bytes.len()
    &&& bytes[i] == 0x2e
    &&& (i == 0 || bytes[i - 1] == 0x2f)
    &&& ((i + 1 == bytes.len() || bytes[i + 1] == 0x2f) || (i + 1 < bytes.len() && bytes[i + 1]
        == 0x2e && (i + 2 == bytes.len() || bytes[i + 2] == 0x2f)))
}

/// Checks an executable path of the installed configuration.
pub fn validate_absolute_normal_path(path: &str) -> (result: Result<(), MacosEndpointError>)
    ensures
        result is Ok <==> config_path_valid(path.spec_bytes()),
        result is Err ==> result == Err::<(), MacosEndpointError>(MacosEndpointError::Configuration),
{
    let bytes = path.as_bytes();
    let n = bytes.len();
    if n == 0 || bytes[0] != 0x2f {
        return Err(MacosEndpointError::Configuration);
    }
    let mut i: usize = 0;
    while i < n
        invariant
            bytes@ == path.spec_bytes(),
            n == bytes@.len(),
            0 <= i <= n,
            forall|k: int| 0 <= k < i ==> !#[trigger] slash_dot_segment_at(bytes@, k),
        decreases n - i,
    {
        if bytes[i] == 0x2e && (i == 0 || bytes[i - 1] == 0x2f) {
            let single = i + 1 == n || bytes[i + 1] == 0x2f;
            let double = i + 1 < n && bytes[i + 1] == 0x2e && (i + 2 == n || bytes[i + 2] == 0x2f);
            if single || double {
                assert(slash_dot_segment_at(bytes@, i as int));
                return Err(MacosEndpointError::Configuration);
            }
        }
        i = i + 1;
    }
    assert forall|k: int| !#[trigger] slash_dot_segment_at(bytes@, k) by {
        if 0 <= k < n {
        }
    }
    Ok(())
}

/// How a role is signed, as written in the installed configuration.
pub enum WireSigning {
    AdHoc { cdhash: String },
    LocallyTrustedSelfSigned {
        certificate_sha256: String,
        certificate_requirement_hash: String,
        cdhash: String,
    },
}

/// One enrolled role as written in the installed configuration.
pub struct WireRole {
    pub canonical_executable_path: String,
    pub executable_sha256: String,
    pub capture_authorized: bool,
    pub signing: WireSigning,
}

/// The hex fields of a wire role decode, its capture flag is the expected
/// one, and its path is valid.
pub open spec fn wire_role_valid(wire: WireRole, capture_authorized: bool) -> bool {
    &&& match wire.signing {
        WireSigning::AdHoc { cdhash } => hex_text_valid(text_bytes(&cdhash), 20),
        WireSigning::LocallyTrustedSelfSigned {
            certificate_sha256,
            certificate_requirement_hash,
            cdhash,
        } => hex_text_valid(text_bytes(&certificate_requirement_hash), 20) && hex_text_valid(
            text_bytes(&certificate_sha256),
            32,
        ) && hex_text_valid(text_bytes(&cdhash), 20),
    }
    &&& wire.capture_authorized == capture_authorized
    &&& config_path_valid(text_bytes(&wire.canonical_executable_path))
    &&& hex_text_valid(text_bytes(&wire.executable_sha256), 32)
}

impl WireRole {
    /// Builds the role policy for `identifier`: the requirement is generated
    /// from the signing identity, never read from the configuration.
    pub fn into_role(self, identifier: &str, capture_authorized: bool) -> (result: Result<
        RolePolicy,
        MacosEndpointError,
    >)
        ensures
            result is Ok <==> wire_role_valid(self, capture_authorized),
            result is Err ==> result == Err::<RolePolicy, MacosEndpointError>(
                MacosEndpointError::Configuration,
            ),
            result is Ok ==> {
                let role = result->Ok_0;
                &&& role.signing_identifier@ == identifier@
                &&& role.canonical_executable_path@ == self.canonical_executable_path@
                &&& hex_decodes_to(text_bytes(&self.executable_sha256), role.executable_sha256@)
                &&& role.capture_authorized == capture_authorized
                &&& match (self.signing, role.signing_identity) {
                    (
                        WireSigning::AdHoc { cdhash },
                        LocalSigningIdentity::AdHoc { code_directory_hash },
                    ) => {
                        &&& hex_decodes_to(text_bytes(&cdhash), code_directory_hash@)
                        &&& role.code_directory_hash@ == code_directory_hash@
                        &&& role.designated_requirement@ == ad_hoc_requirement_text(
                            identifier@,
                            code_directory_hash@,
                        )
                    },
                    (
                        WireSigning::LocallyTrustedSelfSigned {
                            certificate_sha256,
                            certificate_requirement_hash,
                            cdhash,
                        },
                        LocalSigningIdentity::LocallyTrustedSelfSigned {
                            certificate_sha256: certificate,
                            requirement_certificate_hash,
                        },
                    ) => {
                        &&& hex_decodes_to(text_bytes(&certificate_sha256), certificate@)
                        &&& hex_decodes_to(
                            text_bytes(&certificate_requirement_hash),
                            requirement_certificate_hash@,
                        )
                        &&& hex_decodes_to(text_bytes(&cdhash), role.code_directory_hash@)
                        &&& role.designated_requirement@ == self_signed_requirement_text(
                            identifier@,
                            requirement_certificate_hash@,
                        )
                    },
                    _ => false,
                }
            },
    {
        let (signing_identity, code_directory_hash, designated_requirement) = match &self.signing {
            WireSigning::AdHoc { cdhash } => {
                let hash = match requirement_hash(cdhash.as_str()) {
                    Ok(h) => h,
                    Err(e) => {
                        return Err(e);
                    },
                };
                (
                    LocalSigningIdentity::AdHoc { code_directory_hash: hash },
                    hash,
                    ad_hoc_designated_requirement(identifier, hash),
                )
            },
            WireSigning::LocallyTrustedSelfSigned {
                certificate_sha256,
                certificate_requirement_hash,
                cdhash,
            } => {
                let hash = match requirement_hash(certificate_requirement_hash.as_str()) {
                    Ok(h) => h,
                    Err(e) => {
                        return Err(e);
                    },
                };
                let certificate = match bytes32(certificate_sha256.as_str()) {
                    Ok(c) => c,
                    Err(e) => {
                        return Err(e);
                    },
                };
                let code_hash = match requirement_hash(cdhash.as_str()) {
                    Ok(h) => h,
                    Err(e) => {
                        return Err(e);
                    },
                };
                (
                    LocalSigningIdentity::LocallyTrustedSelfSigned {
                        certificate_sha256: certificate,
                        requirement_certificate_hash: hash,
                    },
                    code_hash,
                    self_signed_designated_requirement(identifier, hash),
                )
            },
        };
        if self.capture_authorized != capture_authorized {
            return Err(MacosEndpointError::Configuration);
        }
        match validate_absolute_normal_path(self.canonical_executable_path.as_str()) {
            Ok(()) => {},
            Err(e) => {
                return Err(e);
            },
        }
        let executable_sha256 = match bytes32(self.executable_sha256.as_str()) {
            Ok(b) => b,
            Err(e) => {
                return Err(e);
            },
        };
        Ok(
            RolePolicy {
                signing_identifier: String::from_str(identifier),
                designated_requirement,
                canonical_executable_path: self.canonical_executable_path,
                executable_sha256,
                code_directory_hash,
                signing_identity,
                capture_authorized: self.capture_authorized,
            },
        )
    }
}

/// Where an interrupted maintenance transaction stopped.
#[derive(Clone, Copy, Debug, PartialEq, Eq, Structural)]
pub enum MaintenancePhase {
    InProgress,
    InstallationComplete,
    RolledBack,
}

/// What startup reads of the durable maintenance record.
#[derive(Clone, Copy)]
pub struct MaintenanceRecord {
    pub phase: MaintenancePhase,
    /// The operation replaced the installed build: an update or a rollback.
    pub replaces_build: bool,
    pub source_build: Bytes32,
    pub target_build: Option<Bytes32>,
    pub target_owner: Option<Bytes32>,
}

/// What startup reads of the owner's signed release policy.
#[derive(Clone, Copy)]
pub struct ReleasePolicyFacts {
    pub release_build_digest: Bytes32,
    pub owner_sha256: Bytes32,
    pub predecessor_release_build_digest: Option<Bytes32>,
}

pub open spec fn same_bytes_option(value: Option<Bytes32>, expected: Bytes32) -> bool {
    match value {
        Some(v) => v@ == expected@,
        None => false,
    }
}

/// Whether a completed installation record is exactly the transition into
/// the running build.
pub open spec fn completion_matches(
    record: MaintenanceRecord,
    release_build: Bytes32,
    owner_sha256: Bytes32,
    policy: ReleasePolicyFacts,
) -> bool {
    &&& policy.predecessor_release_build_digest is Some
    &&& record.replaces_build
    &&& same_bytes_option(record.target_build, release_build)
    &&& same_bytes_option(record.target_owner, owner_sha256)
    &&& policy.predecessor_release_build_digest->Some_0@ == record.source_build@
    &&& policy.release_build_digest@ == release_build@
    &&& policy.owner_sha256@ == owner_sha256@
}

/// The startup decision: no record needs nothing; a record still in
/// progress blocks startup; a completed installation is cleared only when it
/// is exactly the transition into this build; a rollback is cleared only
/// when it restored this build.
pub open spec fn spec_startup_record_requires_clear(
    record: Option<MaintenanceRecord>,
    release_build: Bytes32,
    owner_sha256: Bytes32,
    policy: ReleasePolicyFacts,
) -> Result<bool, MacosEndpointError> {
    match record {
        None => Ok(false),
        Some(r) => match r.phase {
            MaintenancePhase::InProgress => Err(MacosEndpointError::Configuration),
            MaintenancePhase::InstallationComplete => if completion_matches(
                r,
                release_build,
                owner_sha256,
                policy,
            ) {
                Ok(true)
            } else {
                Err(MacosEndpointError::Configuration)
            },
            MaintenancePhase::RolledBack => if r.source_build@ == release_build@ {
                Ok(true)
            } else {
                Err(MacosEndpointError::Configuration)
            },
        },
    }
}

fn option_matches(value: &Option<Bytes32>, expected: &Bytes32) -> (matches: bool)
    ensures
        matches == same_bytes_option(*value, *expected),
{
    match value {
        Some(v) => v.same_as(expected),
        None => false,
    }
}

/// Decides whether a durable maintenance record is cleared at startup.
pub fn startup_record_requires_clear(
    record: Option<MaintenanceRecord>,
    release_build: &Bytes32,
    owner_sha256: &Bytes32,
    policy: &ReleasePolicyFacts,
) -> (result: Result<bool, MacosEndpointError>)
    ensures
        result == spec_startup_record_requires_clear(record, *release_build, *owner_sha256, *policy),
{
    let record = match record {
        None => {
            return Ok(false);
        },
        Some(r) => r,
    };
    match record.phase {
        MaintenancePhase::InProgress => Err(MacosEndpointError::Configuration),
        MaintenancePhase::InstallationComplete => {
            let predecessor = match &policy.predecessor_release_build_digest {
                Some(p) => p,
                None => {
                    return Err(MacosEndpointError::Configuration);
                },
            };
            if !record.replaces_build || !option_matches(&record.target_build, release_build)
                || !option_matches(&record.target_owner, owner_sha256) || !predecessor.same_as(
                &record.source_build,
            ) || !policy.release_build_digest.same_as(release_build)
                || !policy.owner_sha256.same_as(owner_sha256) {
                Err(MacosEndpointError::Configuration)
            } else {
                Ok(true)
            }
        },
        MaintenancePhase::RolledBack => {
            if record.source_build.same_as(release_build) {
                Ok(true)
            } else {
                Err(MacosEndpointError::Configuration)
            }
        },
    }
}

/// A maintenance transaction still in progress never lets startup proceed.
pub proof fn law_in_progress_record_blocks_startup(
    record: MaintenanceRecord,
    release_build: Bytes32,
    owner_sha256: Bytes32,
    policy: ReleasePolicyFacts,
)
    requires
        record.phase == MaintenancePhase::InProgress,
    ensures
        spec_startup_record_requires_clear(Some(record), release_build, owner_sha256, policy) is Err,
{
}

/// The character of a lowercase hexadecimal digit.
pub open spec fn hex_digit_char(n: u8) -> char {
    if n < 10 {
        (48 + n) as char
    } else {
        (87 + n) as char
    }
}

proof fn lemma_hex_digit_text_is_char(n: u8)
    requires
        n < 16,
    ensures
        hex_digit_text(n) == seq![hex_digit_char(n)],
{
    reveal_strlit("0");
    reveal_strlit("1");
    reveal_strlit("2");
    reveal_strlit("3");
    reveal_strlit("4");
    reveal_strlit("5");
    reveal_strlit("6");
    reveal_strlit("7");
    reveal_strlit("8");
    reveal_strlit("9");
    reveal_strlit("a");
    reveal_strlit("b");
    reveal_strlit("c");
    reveal_strlit("d");
    reveal_strlit("e");
    reveal_strlit("f");
    assert(hex_digit_text(n) =~= seq![hex_digit_char(n)]);
}

proof fn lemma_hex_text_chars(bytes: Seq<u8>)
    ensures
        hex_text(bytes).len() == 2 * bytes.len(),
        forall|i: int|
            0 <= i < bytes.len() ==> hex_text(bytes)[2 * i] == hex_digit_char(#[trigger] bytes[i] / 16)
                && hex_text(bytes)[2 * i + 1] == hex_digit_char(bytes[i] % 16),
    decreases bytes.len(),
{
    if bytes.len() > 0 {
        let prefix = bytes.drop_last();
        let last = bytes.last();
        lemma_hex_text_chars(prefix);
        lemma_hex_digit_text_is_char(last / 16);
        lemma_hex_digit_text_is_char(last % 16);
        assert(hex_byte_text(last) =~= seq![hex_digit_char(last / 16), hex_digit_char(last % 16)]);
        assert forall|i: int| 0 <= i < bytes.len() implies hex_text(bytes)[2 * i] == hex_digit_char(
            #[trigger] bytes[i] / 16,
        ) && hex_text(bytes)[2 * i + 1] == hex_digit_char(bytes[i] % 16) by {
            if i < prefix.len() {
                assert(bytes[i] == prefix[i]);
            }
        }
    }
}

/// Hexadecimal text decodes back to the bytes it was made from: the
/// requirement-hash text of a policy and its configuration encoding agree.
pub proof fn law_hex_round_trip(bytes: Seq<u8>)
    ensures
        hex_text_valid(encode_utf8(hex_text(bytes)), bytes.len()),
        hex_decodes_to(encode_utf8(hex_text(bytes)), bytes),
{
    let chars = hex_text(bytes);
    lemma_hex_text_chars(bytes);
    assert forall|j: int| 0 <= j < chars.len() implies '\0' <= #[trigger] chars[j] <= '\u{7f}' by {
        let i = j / 2;
        assert(0 <= i < bytes.len());
        assert(j == 2 * i || j == 2 * i + 1);
        let b = bytes[i];
        assert(b / 16 < 16);
    }
    assert(is_ascii_chars(chars));
    is_ascii_chars_encode_utf8(chars);
    let text = encode_utf8(chars);
    assert forall|j: int| 0 <= j < text.len() implies (#[trigger] hex_digit_value(text[j])) is Some by {
        let i = j / 2;
        assert(0 <= i < bytes.len());
        assert(j == 2 * i || j == 2 * i + 1);
        let b = bytes[i];
        assert(text[j] == chars[j] as u8);
    }
    assert forall|i: int| 0 <= i < bytes.len() implies #[trigger] bytes[i] == hex_pair_value(
        text[2 * i],
        text[2 * i + 1],
    ) by {
        let b = bytes[i];
        assert(text[2 * i] == chars[2 * i] as u8);
        assert(text[2 * i + 1] == chars[2 * i + 1] as u8);
        assert(b == (b / 16) * 16 + b % 16);
    }
}

} // verus!
