use sandbox_detector::host::{ProbeResult, RegistryKey, RegistrySnapshot, RegistryValue};
use sandbox_detector::tools::{
    regkey_exists, regkey_value_contains, regkey_value_equals, should_panic_release,
};

fn snapshot_with_value(path: &str, name: &str, data: &str) -> RegistrySnapshot {
    RegistrySnapshot {
        keys: vec![RegistryKey {
            path: path.to_string(),
            values: vec![RegistryValue {
                name: name.to_string(),
                data: data.to_string(),
            }],
        }],
    }
}

#[test]
fn not_panic_release() {
    assert_eq!(should_panic_release(false), false);
}

#[test]
fn not_panic_debug() {
    assert_eq!(should_panic_release(false), false);
    assert_eq!(should_panic_release(true), true);
}

#[test]
fn test_regkey_exists() {
    let snap = RegistrySnapshot {
        keys: vec![RegistryKey {
            path: "SOFTWARE".to_string(),
            values: vec![],
        }],
    };

    assert!(!regkey_exists(&snap, "SOFTWARE\\does not exists"));

    assert!(regkey_exists(&snap, "SOFTWARE"));
}

#[test]
fn test_regkey_contains() {
    let snap = snapshot_with_value(
        "HARDWARE\\Description\\System",
        "SystemBiosVersion",
        "Default System BIOS",
    );

    assert_eq!(
        regkey_value_contains(
            &snap,
            "HARDWARE\\Description\\System",
            "SystemBiosVersion",
            "QEMU"
        ),
        ProbeResult::NotDetected
    );
}

#[test]
fn value_contains_is_case_insensitive() {
    let snap = snapshot_with_value(
        "HARDWARE\\Description\\System",
        "SystemBiosVersion",
        "qemu box v1",
    );

    assert_eq!(
        regkey_value_contains(
            &snap,
            "HARDWARE\\Description\\System",
            "SystemBiosVersion",
            "QEMU"
        ),
        ProbeResult::Detected
    );
    assert_eq!(
        regkey_value_contains(
            &snap,
            "HARDWARE\\Description\\System",
            "SystemBiosVersion",
            "Box V1"
        ),
        ProbeResult::Detected
    );
}

#[test]
fn value_contains_missing_key_is_inconclusive() {
    let snap = RegistrySnapshot { keys: vec![] };

    assert_eq!(
        regkey_value_contains(
            &snap,
            "HARDWARE\\Description\\System",
            "SystemBiosVersion",
            "QEMU"
        ),
        ProbeResult::Inconclusive
    );
}

#[test]
fn value_contains_missing_value_is_inconclusive() {
    let snap = RegistrySnapshot {
        keys: vec![RegistryKey {
            path: "HARDWARE\\Description\\System".to_string(),
            values: vec![],
        }],
    };

    assert_eq!(
        regkey_value_contains(
            &snap,
            "HARDWARE\\Description\\System",
            "SystemBiosVersion",
            "QEMU"
        ),
        ProbeResult::Inconclusive
    );
}

#[test]
fn value_equals_matches_exactly_only() {
    let exact = snapshot_with_value(
        "HARDWARE\\Description\\System",
        "SystemBiosDate",
        "06/23/99",
    );
    assert_eq!(
        regkey_value_equals(
            &exact,
            "HARDWARE\\Description\\System",
            "SystemBiosDate",
            "06/23/99"
        ),
        ProbeResult::Detected
    );

    let superstring = snapshot_with_value(
        "HARDWARE\\Description\\System",
        "SystemBiosDate",
        "06/23/99 v2",
    );
    assert_eq!(
        regkey_value_equals(
            &superstring,
            "HARDWARE\\Description\\System",
            "SystemBiosDate",
            "06/23/99"
        ),
        ProbeResult::NotDetected
    );

    let partial = snapshot_with_value(
        "HARDWARE\\Description\\System",
        "SystemBiosDate",
        "06/23",
    );
    assert_eq!(
        regkey_value_equals(
            &partial,
            "HARDWARE\\Description\\System",
            "SystemBiosDate",
            "06/23/99"
        ),
        ProbeResult::NotDetected
    );
}

#[test]
fn probe_result_collapses_inconclusive() {
    assert!(ProbeResult::Detected.to_flag());
    assert!(!ProbeResult::NotDetected.to_flag());
    assert!(!ProbeResult::Inconclusive.to_flag());
}
