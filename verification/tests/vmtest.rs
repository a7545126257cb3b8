use sandbox_detector::host::{
    DiskGeometry, HostEnvironment, RegistryKey, RegistrySnapshot, RegistryValue,
};
use sandbox_detector::vmtest::{
    check_common_vm, check_cpu_count, check_disk_size, check_hyperv, check_native_vhd_boot,
    check_qemu, check_sleep_patch, check_vbox, check_vmware,
};
use sandbox_detector::CategoryOutcome;

fn clean_env() -> HostEnvironment {
    HostEnvironment {
        debugger_present: false,
        registry: RegistrySnapshot { keys: vec![] },
        disk_geometry: None,
        delay_start_ticks: 0,
        delay_end_ticks: 500,
        cpu_count: 8,
        native_vhd_boot: None,
    }
}

fn env_with_registry(keys: Vec<RegistryKey>) -> HostEnvironment {
    let mut env = clean_env();
    env.registry = RegistrySnapshot { keys };
    env
}

fn key_with_value(path: &str, name: &str, data: &str) -> RegistryKey {
    RegistryKey {
        path: path.to_string(),
        values: vec![RegistryValue {
            name: name.to_string(),
            data: data.to_string(),
        }],
    }
}

fn bare_key(path: &str) -> RegistryKey {
    RegistryKey {
        path: path.to_string(),
        values: vec![],
    }
}

#[test]
fn test_qemu() {
    assert!(!check_qemu(&clean_env()));
}

#[test]
fn test_vhd() {
    assert!(!check_native_vhd_boot(&clean_env()));
}

#[test]
fn test_disk_size() {
    assert!(!check_disk_size(&clean_env()));
}

#[test]
fn disk_size_boundary_is_inclusive() {
    // 1024 * 1024 * 61440 bytes = exactly 60 GiB: flagged.
    let mut env = clean_env();
    env.disk_geometry = Some(DiskGeometry {
        bytes_per_sector: 1024,
        sectors_per_cluster: 1024,
        total_clusters: 61440,
    });
    assert!(check_disk_size(&env));

    // 1024 * 1024 * 62464 bytes = exactly 61 GiB: not flagged.
    env.disk_geometry = Some(DiskGeometry {
        bytes_per_sector: 1024,
        sectors_per_cluster: 1024,
        total_clusters: 62464,
    });
    assert!(!check_disk_size(&env));
}

#[test]
fn sleep_patch_flags_accelerated_clock() {
    let mut env = clean_env();
    env.delay_start_ticks = 1000;
    env.delay_end_ticks = 1400;
    assert!(check_sleep_patch(&env));

    env.delay_end_ticks = 1500;
    assert!(!check_sleep_patch(&env));
}

#[test]
fn sleep_patch_handles_tick_wraparound() {
    let mut env = clean_env();
    env.delay_start_ticks = 0xFFFF_FF00;
    env.delay_end_ticks = 100;
    // 256 + 100 = 356 ms elapsed across the wrap: flagged.
    assert!(check_sleep_patch(&env));

    env.delay_end_ticks = 300;
    // 256 + 300 = 556 ms elapsed across the wrap: not flagged.
    assert!(!check_sleep_patch(&env));
}

#[test]
fn cpu_count_flags_single_core() {
    let mut env = clean_env();
    env.cpu_count = 1;
    assert!(check_cpu_count(&env));

    env.cpu_count = 2;
    assert!(!check_cpu_count(&env));
}

#[test]
fn vhd_boot_flags_only_positive_report() {
    let mut env = clean_env();
    env.native_vhd_boot = Some(true);
    assert!(check_native_vhd_boot(&env));

    env.native_vhd_boot = Some(false);
    assert!(!check_native_vhd_boot(&env));
}

#[test]
fn common_vm_aggregates_heuristics() {
    assert!(!check_common_vm(&clean_env()));

    let mut env = clean_env();
    env.cpu_count = 1;
    assert!(check_common_vm(&env));
}

#[test]
fn hyperv_is_unsupported() {
    assert_eq!(check_hyperv(), CategoryOutcome::Unsupported);
}

#[test]
fn vmware_detected_by_tools_key() {
    let env = env_with_registry(vec![bare_key("SOFTWARE\\VMware, Inc.\\VMware Tools")]);
    assert!(check_vmware(&env));
}

#[test]
fn vmware_detected_by_scsi_identifier() {
    let env = env_with_registry(vec![key_with_value(
        "HARDWARE\\DEVICEMAP\\Scsi\\Scsi Port 1\\Scsi Bus 0\\Target Id 0\\Logical Unit Id 0",
        "Identifier",
        "VMware SCSI Controller",
    )]);
    assert!(check_vmware(&env));
}

#[test]
fn qemu_detected_by_bios_version() {
    let env = env_with_registry(vec![key_with_value(
        "HARDWARE\\Description\\System",
        "SystemBiosVersion",
        "QEMU Standard PC",
    )]);
    assert!(check_qemu(&env));
}

#[test]
fn vbox_detected_by_service_key() {
    let env = env_with_registry(vec![bare_key("SYSTEM\\ControlSet001\\Services\\VBoxMouse")]);
    assert!(check_vbox(&env));
}

#[test]
fn vbox_bios_date_matches_exactly_only() {
    let exact = env_with_registry(vec![key_with_value(
        "HARDWARE\\Description\\System",
        "SystemBiosDate",
        "06/23/99",
    )]);
    assert!(check_vbox(&exact));

    let superstring = env_with_registry(vec![key_with_value(
        "HARDWARE\\Description\\System",
        "SystemBiosDate",
        "06/23/99 v2",
    )]);
    assert!(!check_vbox(&superstring));
}
