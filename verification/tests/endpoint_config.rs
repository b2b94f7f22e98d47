use keyboard_owner::endpoint::MacosEndpointError;
use keyboard_owner::endpoint_config::{
    bytes32, decode_hex, requirement_hash, startup_record_requires_clear,
    validate_absolute_normal_path, MaintenancePhase, MaintenanceRecord, ReleasePolicyFacts,
    WireRole, WireSigning,
};
use keyboard_owner::identity::{Bytes32, LocalSigningIdentity, RequirementHash};
use keyboard_owner::identity_text::{
    ad_hoc_designated_requirement, requirement_hex, self_signed_designated_requirement,
};

fn bytes(value: u8) -> Bytes32 {
    Bytes32::new([value; 32])
}

fn policy() -> ReleasePolicyFacts {
    ReleasePolicyFacts {
        release_build_digest: bytes(3),
        owner_sha256: bytes(5),
        predecessor_release_build_digest: Some(bytes(2)),
    }
}

fn record(phase: MaintenancePhase) -> MaintenanceRecord {
    MaintenanceRecord {
        phase,
        replaces_build: true,
        source_build: bytes(2),
        target_build: Some(bytes(3)),
        target_owner: Some(bytes(5)),
    }
}

#[test]
fn startup_denies_in_progress_and_clears_only_exact_completion() {
    let policy = policy();
    assert!(startup_record_requires_clear(
        Some(record(MaintenancePhase::InProgress)),
        &bytes(3),
        &bytes(5),
        &policy
    )
    .is_err());
    assert!(startup_record_requires_clear(
        Some(record(MaintenancePhase::InstallationComplete)),
        &bytes(3),
        &bytes(5),
        &policy
    )
    .unwrap());
    assert!(startup_record_requires_clear(
        Some(record(MaintenancePhase::InstallationComplete)),
        &bytes(11),
        &bytes(5),
        &policy
    )
    .is_err());
    assert!(!startup_record_requires_clear(None, &bytes(3), &bytes(5), &policy).unwrap());
}

#[test]
fn rolled_back_record_must_name_the_restored_source() {
    let policy = policy();
    assert!(startup_record_requires_clear(
        Some(record(MaintenancePhase::RolledBack)),
        &bytes(2),
        &bytes(9),
        &policy
    )
    .unwrap());
    assert!(startup_record_requires_clear(
        Some(record(MaintenancePhase::RolledBack)),
        &bytes(3),
        &bytes(5),
        &policy
    )
    .is_err());
}

#[test]
fn completion_without_predecessor_or_replacement_is_refused() {
    let mut no_predecessor = policy();
    no_predecessor.predecessor_release_build_digest = None;
    assert_eq!(
        startup_record_requires_clear(
            Some(record(MaintenancePhase::InstallationComplete)),
            &bytes(3),
            &bytes(5),
            &no_predecessor
        ),
        Err(MacosEndpointError::Configuration)
    );
    let mut install = record(MaintenancePhase::InstallationComplete);
    install.replaces_build = false;
    assert!(startup_record_requires_clear(Some(install), &bytes(3), &bytes(5), &policy()).is_err());
}

#[test]
fn hex_values_decode_exactly() {
    let text = "00ff10a9".repeat(8);
    let decoded = bytes32(&text).ok().expect("32 bytes");
    assert_eq!(&decoded.as_bytes()[..4], &[0x00, 0xff, 0x10, 0xa9]);
    assert!(bytes32(&"00".repeat(31)).is_err());
    assert!(bytes32(&"0G".repeat(32)).is_err());
    assert!(bytes32(&"AB".repeat(32)).is_err());
    assert_eq!(decode_hex("0a1b", 2), Ok(vec![0x0a, 0x1b]));
    assert_eq!(decode_hex("0a1", 2), Err(MacosEndpointError::Configuration));
    let hash = RequirementHash::new([0xc4; 20]);
    let round = requirement_hash(&requirement_hex(&hash)).ok().expect("hash");
    assert_eq!(round.as_bytes(), hash.as_bytes());
}

#[test]
fn configuration_paths_are_absolute_and_normal() {
    assert_eq!(validate_absolute_normal_path("/Applications/TQ.app"), Ok(()));
    assert!(validate_absolute_normal_path("Applications/TQ.app").is_err());
    assert!(validate_absolute_normal_path("/Applications/../TQ.app").is_err());
    assert!(validate_absolute_normal_path("/Applications/.").is_err());
    assert!(validate_absolute_normal_path("").is_err());
    assert_eq!(validate_absolute_normal_path("/Applications/.hidden"), Ok(()));
}

#[test]
fn wire_roles_generate_their_requirements() {
    let role = WireRole {
        canonical_executable_path: "/Applications/TQ/owner".to_owned(),
        executable_sha256: "05".repeat(32),
        capture_authorized: true,
        signing: WireSigning::AdHoc {
            cdhash: "0b".repeat(20),
        },
    };
    let policy = role.into_role("com.example.owner", true).ok().expect("role");
    assert_eq!(
        policy.designated_requirement,
        ad_hoc_designated_requirement("com.example.owner", RequirementHash::new([0x0b; 20]))
    );
    assert_eq!(policy.executable_sha256.as_bytes(), &[5; 32]);
    assert!(matches!(
        policy.signing_identity,
        LocalSigningIdentity::AdHoc { .. }
    ));

    let role = WireRole {
        canonical_executable_path: "/Applications/TQ/helper".to_owned(),
        executable_sha256: "04".repeat(32),
        capture_authorized: true,
        signing: WireSigning::LocallyTrustedSelfSigned {
            certificate_sha256: "09".repeat(32),
            certificate_requirement_hash: "0a".repeat(20),
            cdhash: "0c".repeat(20),
        },
    };
    let policy = role.into_role("com.example.helper", true).ok().expect("role");
    assert_eq!(
        policy.designated_requirement,
        self_signed_designated_requirement("com.example.helper", RequirementHash::new([0x0a; 20]))
    );
    assert_eq!(policy.code_directory_hash.as_bytes(), &[0x0c; 20]);

    let mismatched = WireRole {
        canonical_executable_path: "/Applications/TQ/bridge".to_owned(),
        executable_sha256: "04".repeat(32),
        capture_authorized: true,
        signing: WireSigning::AdHoc {
            cdhash: "0b".repeat(20),
        },
    };
    assert!(matches!(
        mismatched.into_role("com.example.bridge", false),
        Err(MacosEndpointError::Configuration)
    ));
}
