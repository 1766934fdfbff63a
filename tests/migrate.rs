use contract_version::registry::{
    decide_migration, ensure_from_older_version, get_contract_version, set_contract_version,
    ContractVersion, VersionError,
};
use contract_version::version::Version;
use std::cmp::Ordering;

fn version(major: u64, minor: u64, patch: u64, pre: &str, build: &str) -> Version {
    Version {
        major,
        minor,
        patch,
        pre: pre.to_string(),
        build: build.to_string(),
    }
}

fn record(contract: &str, version: &str) -> ContractVersion {
    ContractVersion {
        contract: contract.to_string(),
        version: version.to_string(),
    }
}

#[test]
fn accepts_identical_version() {
    let mut storage: Option<ContractVersion> = None;
    set_contract_version(&mut storage, "demo", "0.1.2");
    // ensure this matches
    ensure_from_older_version(&mut storage, "demo", "0.1.2").unwrap();
}

#[test]
fn accepts_and_updates_on_newer_version() {
    let mut storage: Option<ContractVersion> = None;
    set_contract_version(&mut storage, "demo", "0.4.0");
    // ensure this matches
    let original_version = ensure_from_older_version(&mut storage, "demo", "0.4.2").unwrap();

    // check the original version is returned
    assert_eq!(original_version.to_string(), "0.4.0".to_string());

    // check the version is updated
    let stored = get_contract_version(&storage).unwrap();
    assert_eq!(stored.contract, "demo".to_string());
    assert_eq!(stored.version, "0.4.2".to_string());
}

#[test]
fn errors_on_name_mismatch() {
    let mut storage: Option<ContractVersion> = None;
    set_contract_version(&mut storage, "demo", "0.1.2");
    // ensure this matches
    let err = ensure_from_older_version(&mut storage, "cw20-base", "0.1.2").unwrap_err();
    assert!(err.to_string().contains("cw20-base"), "{}", err.to_string());
    assert!(err.to_string().contains("demo"), "{}", err.to_string());
}

#[test]
fn errors_on_older_version() {
    let mut storage: Option<ContractVersion> = None;
    set_contract_version(&mut storage, "demo", "0.10.2");
    // ensure this matches
    let err = ensure_from_older_version(&mut storage, "demo", "0.9.7").unwrap_err();
    assert!(err.to_string().contains("0.10.2"), "{}", err.to_string());
    assert!(err.to_string().contains("0.9.7"), "{}", err.to_string());
}

#[test]
fn errors_on_broken_version() {
    let mut storage: Option<ContractVersion> = None;
    let err = ensure_from_older_version(&mut storage, "demo", "0.a.7").unwrap_err();
    assert!(
        err.to_string().contains("unexpected character 'a'"),
        "{}",
        err.to_string()
    );
}

#[test]
fn identical_version_leaves_record_unchanged() {
    let mut storage: Option<ContractVersion> = None;
    set_contract_version(&mut storage, "demo", "0.1.2");
    let original = ensure_from_older_version(&mut storage, "demo", "0.1.2").unwrap();
    assert_eq!(original.to_string(), "0.1.2");
    assert_eq!(storage, Some(record("demo", "0.1.2")));
}

#[test]
fn older_version_leaves_record_unchanged() {
    let mut storage: Option<ContractVersion> = None;
    set_contract_version(&mut storage, "demo", "0.10.2");
    let err = ensure_from_older_version(&mut storage, "demo", "0.9.7").unwrap_err();
    assert_eq!(
        err.to_string(),
        "Cannot migrate from newer version (0.10.2) to older (0.9.7)"
    );
    assert_eq!(storage, Some(record("demo", "0.10.2")));
}

#[test]
fn name_mismatch_message_and_record() {
    let mut storage: Option<ContractVersion> = None;
    set_contract_version(&mut storage, "demo", "0.1.2");
    let err = ensure_from_older_version(&mut storage, "cw20-base", "0.2.0").unwrap_err();
    assert!(matches!(err, VersionError::NameMismatch { .. }));
    assert_eq!(err.to_string(), "Cannot migrate from demo to cw20-base");
    assert_eq!(storage, Some(record("demo", "0.1.2")));
}

#[test]
fn broken_version_is_invalid_version() {
    let mut storage: Option<ContractVersion> = None;
    set_contract_version(&mut storage, "demo", "0.1.2");
    let err = ensure_from_older_version(&mut storage, "demo", "0.a.7").unwrap_err();
    match &err {
        VersionError::InvalidVersion { input, reason } => {
            assert_eq!(input, "0.a.7");
            assert!(reason.contains("unexpected character 'a'"), "{}", reason);
        }
        other => panic!("unexpected error {:?}", other),
    }
    assert!(err.to_string().starts_with("Invalid version 0.a.7: "));
    assert_eq!(storage, Some(record("demo", "0.1.2")));
}

#[test]
fn broken_version_reported_before_missing_record() {
    let mut storage: Option<ContractVersion> = None;
    let err = ensure_from_older_version(&mut storage, "demo", "1.0").unwrap_err();
    assert!(matches!(err, VersionError::InvalidVersion { .. }));
    assert_eq!(storage, None);
}

#[test]
fn missing_record_is_not_found() {
    let mut storage: Option<ContractVersion> = None;
    let err = ensure_from_older_version(&mut storage, "demo", "0.1.0").unwrap_err();
    assert!(matches!(err, VersionError::NotFound));
    assert_eq!(err.to_string(), "contract version not found");
    assert!(matches!(
        get_contract_version(&storage),
        Err(VersionError::NotFound)
    ));
}

#[test]
fn broken_stored_version_is_invalid_version() {
    let mut storage: Option<ContractVersion> = None;
    set_contract_version(&mut storage, "demo", "v1");
    let err = ensure_from_older_version(&mut storage, "demo", "1.0.0").unwrap_err();
    match err {
        VersionError::InvalidVersion { input, .. } => assert_eq!(input, "v1"),
        other => panic!("unexpected error {:?}", other),
    }
    assert_eq!(storage, Some(record("demo", "v1")));
}

#[test]
fn set_overwrites_record() {
    let mut storage: Option<ContractVersion> = None;
    set_contract_version(&mut storage, "demo", "0.1.0");
    set_contract_version(&mut storage, "other", "anything");
    assert_eq!(
        get_contract_version(&storage).unwrap(),
        record("other", "anything")
    );
}

#[test]
fn release_is_newer_than_its_prerelease() {
    let mut storage: Option<ContractVersion> = None;
    set_contract_version(&mut storage, "demo", "1.0.0-alpha");
    let original = ensure_from_older_version(&mut storage, "demo", "1.0.0").unwrap();
    assert_eq!(original.to_string(), "1.0.0-alpha");
    assert_eq!(storage, Some(record("demo", "1.0.0")));
}

#[test]
fn prerelease_of_same_release_is_a_downgrade() {
    let mut storage: Option<ContractVersion> = None;
    set_contract_version(&mut storage, "demo", "1.0.0");
    let err = ensure_from_older_version(&mut storage, "demo", "1.0.0-rc.1").unwrap_err();
    assert!(matches!(err, VersionError::DowngradeRejected { .. }));
}

#[test]
fn prerelease_numbers_compare_numerically() {
    let mut storage: Option<ContractVersion> = None;
    set_contract_version(&mut storage, "demo", "1.0.0-beta.2");
    ensure_from_older_version(&mut storage, "demo", "1.0.0-beta.11").unwrap();
    assert_eq!(storage, Some(record("demo", "1.0.0-beta.11")));
    let err = ensure_from_older_version(&mut storage, "demo", "1.0.0-beta.2").unwrap_err();
    assert!(matches!(err, VersionError::DowngradeRejected { .. }));
}

#[test]
fn build_metadata_is_ignored() {
    let mut storage: Option<ContractVersion> = None;
    set_contract_version(&mut storage, "demo", "1.0.0+a");
    let original = ensure_from_older_version(&mut storage, "demo", "1.0.0+b").unwrap();
    assert_eq!(original.to_string(), "1.0.0+a");
    assert_eq!(storage, Some(record("demo", "1.0.0+a")));
}

#[test]
fn parse_reads_all_components() {
    let v = Version::parse("1.22.333-rc.1+build.5").unwrap();
    assert_eq!((v.major, v.minor, v.patch), (1, 22, 333));
    assert_eq!(v.pre, "rc.1");
    assert_eq!(v.build, "build.5");
    assert_eq!(v.to_string(), "1.22.333-rc.1+build.5");
}

#[test]
fn parse_rejects_leading_zero() {
    let e = Version::parse("1.0.01").unwrap_err();
    assert!(!e.is_empty());
    assert_ne!(e, "1.0.01");
}

#[test]
fn to_string_writes_largest_numbers() {
    let v = version(u64::MAX, 0, 10, "", "");
    assert_eq!(v.to_string(), "18446744073709551615.0.10");
    assert_eq!(version(3, 2, 1, "", "x.y").to_string(), "3.2.1+x.y");
}

#[test]
fn cmp_precedence_orders_components() {
    let a = version(1, 2, 3, "", "");
    assert_eq!(a.cmp_precedence(&version(2, 0, 0, "", "")), Some(Ordering::Less));
    assert_eq!(a.cmp_precedence(&version(1, 1, 9, "", "")), Some(Ordering::Greater));
    assert_eq!(a.cmp_precedence(&version(1, 2, 4, "", "")), Some(Ordering::Less));
    assert_eq!(a.cmp_precedence(&version(1, 2, 3, "", "z")), Some(Ordering::Equal));
    assert_eq!(
        version(1, 0, 0, "alpha.1", "").cmp_precedence(&version(1, 0, 0, "alpha.beta", "")),
        Some(Ordering::Less)
    );
    assert_eq!(
        version(1, 0, 0, "", "").cmp_precedence(&version(1, 0, 0, "rc.1", "")),
        Some(Ordering::Greater)
    );
    assert_eq!(
        version(1, 0, 0, "a_b", "").cmp_precedence(&version(1, 0, 0, "c", "")),
        None
    );
}

#[test]
fn decide_migration_on_parsed_versions() {
    let stored = record("demo", "0.4.0");
    let old = version(0, 4, 0, "", "");
    let new = version(0, 4, 2, "", "");
    assert_eq!(
        decide_migration(&stored, &old, "demo", "0.4.2", &new).ok(),
        Some(true)
    );
    assert_eq!(
        decide_migration(&stored, &old, "demo", "0.4.0", &old).ok(),
        Some(false)
    );
    let err = decide_migration(&stored, &new, "demo", "0.4.0", &old).unwrap_err();
    assert!(matches!(err, VersionError::DowngradeRejected { .. }));
    let err = decide_migration(&stored, &old, "cw20-base", "0.4.2", &new).unwrap_err();
    assert_eq!(err.to_string(), "Cannot migrate from demo to cw20-base");
}
