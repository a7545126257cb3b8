use sandbox_detector::host::{HostEnvironment, RegistryKey, RegistrySnapshot, RegistryValue};
use sandbox_detector::{Category, CategoryOutcome, CategoryReport, SandboxDetector};

fn clean_env() -> HostEnvironment {
    HostEnvironment {
        debugger_present: false,
        registry: RegistrySnapshot { keys: vec![] },
        disk_geometry: None,
        delay_start_ticks: 0,
        delay_end_ticks: 500,
        cpu_count: 8,
        native_vhd_boot: None,
    }
}

fn hostile_env() -> HostEnvironment {
    HostEnvironment {
        debugger_present: true,
        registry: RegistrySnapshot {
            keys: vec![
                RegistryKey {
                    path: "SOFTWARE\\VMware, Inc.\\VMware Tools".to_string(),
                    values: vec![],
                },
                RegistryKey {
                    path: "HARDWARE\\Description\\System".to_string(),
                    values: vec![RegistryValue {
                        name: "SystemBiosVersion".to_string(),
                        data: "QEMU".to_string(),
                    }],
                },
                RegistryKey {
                    path: "SYSTEM\\ControlSet001\\Services\\VBoxGuest".to_string(),
                    values: vec![],
                },
            ],
        },
        disk_geometry: None,
        delay_start_ticks: 0,
        delay_end_ticks: 100,
        cpu_count: 1,
        native_vhd_boot: Some(true),
    }
}

#[test]
fn test_is_debugger_present() {
    assert!(!sandbox_detector::debugtest::is_debugging(&clean_env()));
}

#[test]
fn test_default_sd() {
    let s: SandboxDetector = Default::default();

    assert!(s.detect_debug);
}

#[test]
fn test_detect() {
    let s: SandboxDetector = Default::default();

    assert!(!s.detect(&clean_env()).verdict)
}

#[test]
fn detect_all_disabled_is_false() {
    let s = SandboxDetector {
        detect_debug: false,
        detect_vmware: false,
        detect_hyperv: false,
        detect_qemu: false,
        detect_common_vms: false,
    };
    let report = s.detect(&hostile_env());
    assert!(!report.verdict);
    assert!(report.outcomes.is_empty());
}

#[test]
fn detect_hyperv_only_is_unsupported() {
    let s = SandboxDetector {
        detect_debug: false,
        detect_vmware: false,
        detect_hyperv: true,
        detect_qemu: false,
        detect_common_vms: false,
    };
    let report = s.detect(&hostile_env());
    assert!(!report.verdict);
    assert_eq!(report.outcomes.len(), 1);
    assert_eq!(
        report.outcomes[0],
        CategoryReport {
            category: Category::HyperV,
            outcome: CategoryOutcome::Unsupported,
        }
    );
}

#[test]
fn detect_vmware_only_on_clean_host() {
    let s = SandboxDetector {
        detect_debug: false,
        detect_vmware: true,
        detect_hyperv: false,
        detect_qemu: false,
        detect_common_vms: false,
    };
    let env = HostEnvironment {
        debugger_present: true,
        registry: RegistrySnapshot {
            keys: vec![RegistryKey {
                path: "HARDWARE\\DEVICEMAP\\Scsi\\Scsi Port 0\\Scsi Bus 0\\Target Id 0\\Logical Unit Id 0"
                    .to_string(),
                values: vec![RegistryValue {
                    name: "Identifier".to_string(),
                    data: "Samsung SSD 870".to_string(),
                }],
            }],
        },
        disk_geometry: None,
        delay_start_ticks: 0,
        delay_end_ticks: 500,
        cpu_count: 8,
        native_vhd_boot: None,
    };
    let report = s.detect(&env);
    assert!(!report.verdict);
    assert_eq!(report.outcomes.len(), 1);
    assert_eq!(
        report.outcomes[0],
        CategoryReport {
            category: Category::Vmware,
            outcome: CategoryOutcome::NotDetected,
        }
    );
}

#[test]
fn detect_reports_every_enabled_category() {
    let s: SandboxDetector = Default::default();
    let report = s.detect(&hostile_env());
    assert!(report.verdict);
    assert_eq!(report.outcomes.len(), 5);
    assert_eq!(
        report.outcomes[0],
        CategoryReport {
            category: Category::Debugger,
            outcome: CategoryOutcome::Detected,
        }
    );
    assert_eq!(
        report.outcomes[2],
        CategoryReport {
            category: Category::HyperV,
            outcome: CategoryOutcome::Unsupported,
        }
    );
    assert_eq!(
        report.outcomes[4],
        CategoryReport {
            category: Category::CommonVm,
            outcome: CategoryOutcome::Detected,
        }
    );
}
