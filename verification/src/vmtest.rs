//! Category aggregators: the per-vendor signature tables and the generic
//! virtual-machine heuristics.
//!
//! Each vendor check is the OR of a fixed, declarative table of
//! [`SignatureSpec`]s evaluated against the registry snapshot; the
//! generic-VM check ORs four independent heuristics on disk geometry,
//! delay timing, processor count and native-VHD boot. The snapshot is
//! immutable, so the order in which a table's checks are evaluated can
//! never affect a category's result.

use vstd::prelude::*;

use crate::host::HostEnvironment;
use crate::tools::{
    eval_signatures, spec_signature_detected, spec_value_contains, spec_value_equals,
    SignatureSpec,
};
use crate::CategoryOutcome;

verus! {

/// Disk capacities of at most this many gibibytes flag the host as a
/// likely test image.
pub const DISK_SIZE_MIN: u32 = 60;

/// A measured delay of at most this many milliseconds, out of a requested
/// 500, flags the sleep primitive as accelerated.
pub const SLEEP_MIN_ELAPSED_MS: u32 = 450;

/// The VMware signature table detects an artifact: the VMware Tools
/// installation key, or a SCSI device identifier naming VMware on bus
/// ports 0 through 2.
pub open spec fn spec_check_vmware(env: HostEnvironment) -> bool {
    ||| env.registry.spec_key_exists("SOFTWARE\\VMware, Inc.\\VMware Tools"@)
    ||| spec_value_contains(
        env.registry,
        "HARDWARE\\DEVICEMAP\\Scsi\\Scsi Port 0\\Scsi Bus 0\\Target Id 0\\Logical Unit Id 0"@,
        "Identifier"@,
        "VMWARE"@,
    ) is Detected
    ||| spec_value_contains(
        env.registry,
        "HARDWARE\\DEVICEMAP\\Scsi\\Scsi Port 1\\Scsi Bus 0\\Target Id 0\\Logical Unit Id 0"@,
        "Identifier"@,
        "VMWARE"@,
    ) is Detected
    ||| spec_value_contains(
        env.registry,
        "HARDWARE\\DEVICEMAP\\Scsi\\Scsi Port 2\\Scsi Bus 0\\Target Id 0\\Logical Unit Id 0"@,
        "Identifier"@,
        "VMWARE"@,
    ) is Detected
}

/// The QEMU signature table detects an artifact: a SCSI device identifier
/// or the system BIOS version naming QEMU.
pub open spec fn spec_check_qemu(env: HostEnvironment) -> bool {
    ||| spec_value_contains(
        env.registry,
        "HARDWARE\\DEVICEMAP\\Scsi\\Scsi Port 0\\Scsi Bus 0\\Target Id 0\\Logical Unit Id 0"@,
        "Identifier"@,
        "QEMU"@,
    ) is Detected
    ||| spec_value_contains(
        env.registry,
        "HARDWARE\\Description\\System"@,
        "SystemBiosVersion"@,
        "QEMU"@,
    ) is Detected
}

/// The VirtualBox signature table detects an artifact: a SCSI identifier
/// or BIOS version naming VirtualBox, the BIOS date equal to the exact
/// VirtualBox default `06/23/99`, one of the guest service keys, an ACPI
/// table published by VirtualBox, or the Guest Additions install key.
pub open spec fn spec_check_vbox(env: HostEnvironment) -> bool {
    ||| spec_value_contains(
        env.registry,
        "HARDWARE\\DEVICEMAP\\Scsi\\Scsi Port 0\\Scsi Bus 0\\Target Id 0\\Logical Unit Id 0"@,
        "Identifier"@,
        "VBOX"@,
    ) is Detected
    ||| spec_value_contains(
        env.registry,
        "HARDWARE\\Description\\System"@,
        "SystemBiosVersion"@,
        "VBOX"@,
    ) is Detected
    ||| spec_value_contains(
        env.registry,
        "HARDWARE\\Description\\System"@,
        "SystemBiosVersion"@,
        "VIRTUALBOX"@,
    ) is Detected
    ||| spec_value_equals(
        env.registry,
        "HARDWARE\\Description\\System"@,
        "SystemBiosDate"@,
        "06/23/99"@,
    ) is Detected
    ||| env.registry.spec_key_exists("HARDWARE\\ACPI\\DSDT\\VBOX__"@)
    ||| env.registry.spec_key_exists("HARDWARE\\ACPI\\FADT\\VBOX__"@)
    ||| env.registry.spec_key_exists("HARDWARE\\ACPI\\RSDT\\VBOX__"@)
    ||| env.registry.spec_key_exists("SOFTWARE\\Oracle\\VirtualBox Guest Additions"@)
    ||| env.registry.spec_key_exists("SYSTEM\\ControlSet001\\Services\\VBoxGuest"@)
    ||| env.registry.spec_key_exists("SYSTEM\\ControlSet001\\Services\\VBoxMouse"@)
    ||| env.registry.spec_key_exists("SYSTEM\\ControlSet001\\Services\\VBoxService"@)
    ||| env.registry.spec_key_exists("SYSTEM\\ControlSet001\\Services\\VBoxSF"@)
    ||| env.registry.spec_key_exists("SYSTEM\\ControlSet001\\Services\\VBoxVideo"@)
}

/// Builds the VMware signature table.
pub fn vmware_signatures() -> (t: Vec<SignatureSpec>)
    ensures
        t@.len() == 4,
        (t@[0] matches SignatureSpec::KeyExists { path } && path@
            == "SOFTWARE\\VMware, Inc.\\VMware Tools"@),
        (t@[1] matches SignatureSpec::ValueContains { path, value_name, needle } && path@
            == "HARDWARE\\DEVICEMAP\\Scsi\\Scsi Port 0\\Scsi Bus 0\\Target Id 0\\Logical Unit Id 0"@
            && value_name@ == "Identifier"@ && needle@ == "VMWARE"@),
        (t@[2] matches SignatureSpec::ValueContains { path, value_name, needle } && path@
            == "HARDWARE\\DEVICEMAP\\Scsi\\Scsi Port 1\\Scsi Bus 0\\Target Id 0\\Logical Unit Id 0"@
            && value_name@ == "Identifier"@ && needle@ == "VMWARE"@),
        (t@[3] matches SignatureSpec::ValueContains { path, value_name, needle } && path@
            == "HARDWARE\\DEVICEMAP\\Scsi\\Scsi Port 2\\Scsi Bus 0\\Target Id 0\\Logical Unit Id 0"@
            && value_name@ == "Identifier"@ && needle@ == "VMWARE"@),
{
    let mut t: Vec<SignatureSpec> = Vec::new();
    t.push(
        SignatureSpec::KeyExists { path: "SOFTWARE\\VMware, Inc.\\VMware Tools".to_owned() },
    );
    t.push(
        SignatureSpec::ValueContains {
            path:
                "HARDWARE\\DEVICEMAP\\Scsi\\Scsi Port 0\\Scsi Bus 0\\Target Id 0\\Logical Unit Id 0".to_owned(),
            value_name: "Identifier".to_owned(),
            needle: "VMWARE".to_owned(),
        },
    );
    t.push(
        SignatureSpec::ValueContains {
            path:
                "HARDWARE\\DEVICEMAP\\Scsi\\Scsi Port 1\\Scsi Bus 0\\Target Id 0\\Logical Unit Id 0".to_owned(),
            value_name: "Identifier".to_owned(),
            needle: "VMWARE".to_owned(),
        },
    );
    t.push(
        SignatureSpec::ValueContains {
            path:
                "HARDWARE\\DEVICEMAP\\Scsi\\Scsi Port 2\\Scsi Bus 0\\Target Id 0\\Logical Unit Id 0".to_owned(),
            value_name: "Identifier".to_owned(),
            needle: "VMWARE".to_owned(),
        },
    );
    t
}

/// Builds the QEMU signature table.
pub fn qemu_signatures() -> (t: Vec<SignatureSpec>)
    ensures
        t@.len() == 2,
        (t@[0] matches SignatureSpec::ValueContains { path, value_name, needle } && path@
            == "HARDWARE\\DEVICEMAP\\Scsi\\Scsi Port 0\\Scsi Bus 0\\Target Id 0\\Logical Unit Id 0"@
            && value_name@ == "Identifier"@ && needle@ == "QEMU"@),
        (t@[1] matches SignatureSpec::ValueContains { path, value_name, needle } && path@
            == "HARDWARE\\Description\\System"@ && value_name@ == "SystemBiosVersion"@
            && needle@ == "QEMU"@),
{
    let mut t: Vec<SignatureSpec> = Vec::new();
    t.push(
        SignatureSpec::ValueContains {
            path:
                "HARDWARE\\DEVICEMAP\\Scsi\\Scsi Port 0\\Scsi Bus 0\\Target Id 0\\Logical Unit Id 0".to_owned(),
            value_name: "Identifier".to_owned(),
            needle: "QEMU".to_owned(),
        },
    );
    t.push(
        SignatureSpec::ValueContains {
            path: "HARDWARE\\Description\\System".to_owned(),
            value_name: "SystemBiosVersion".to_owned(),
            needle: "QEMU".to_owned(),
        },
    );
    t
}

/// Builds the VirtualBox signature table.
pub fn vbox_signatures() -> (t: Vec<SignatureSpec>)
    ensures
        t@.len() == 13,
        (t@[0] matches SignatureSpec::ValueContains { path, value_name, needle } && path@
            == "HARDWARE\\DEVICEMAP\\Scsi\\Scsi Port 0\\Scsi Bus 0\\Target Id 0\\Logical Unit Id 0"@
            && value_name@ == "Identifier"@ && needle@ == "VBOX"@),
        (t@[1] matches SignatureSpec::ValueContains { path, value_name, needle } && path@
            == "HARDWARE\\Description\\System"@ && value_name@ == "SystemBiosVersion"@
            && needle@ == "VBOX"@),
        (t@[2] matches SignatureSpec::ValueContains { path, value_name, needle } && path@
            == "HARDWARE\\Description\\System"@ && value_name@ == "SystemBiosVersion"@
            && needle@ == "VIRTUALBOX"@),
        (t@[3] matches SignatureSpec::ValueEquals { path, value_name, expected } && path@
            == "HARDWARE\\Description\\System"@ && value_name@ == "SystemBiosDate"@
            && expected@ == "06/23/99"@),
        (t@[4] matches SignatureSpec::KeyExists { path } && path@
            == "HARDWARE\\ACPI\\DSDT\\VBOX__"@),
        (t@[5] matches SignatureSpec::KeyExists { path } && path@
            == "HARDWARE\\ACPI\\FADT\\VBOX__"@),
        (t@[6] matches SignatureSpec::KeyExists { path } && path@
            == "HARDWARE\\ACPI\\RSDT\\VBOX__"@),
        (t@[7] matches SignatureSpec::KeyExists { path } && path@
            == "SOFTWARE\\Oracle\\VirtualBox Guest Additions"@),
        (t@[8] matches SignatureSpec::KeyExists { path } && path@
            == "SYSTEM\\ControlSet001\\Services\\VBoxGuest"@),
        (t@[9] matches SignatureSpec::KeyExists { path } && path@
            == "SYSTEM\\ControlSet001\\Services\\VBoxMouse"@),
        (t@[10] matches SignatureSpec::KeyExists { path } && path@
            == "SYSTEM\\ControlSet001\\Services\\VBoxService"@),
        (t@[11] matches SignatureSpec::KeyExists { path } && path@
            == "SYSTEM\\ControlSet001\\Services\\VBoxSF"@),
        (t@[12] matches SignatureSpec::KeyExists { path } && path@
            == "SYSTEM\\ControlSet001\\Services\\VBoxVideo"@),
{
    let mut t: Vec<SignatureSpec> = Vec::new();
    t.push(
        SignatureSpec::ValueContains {
            path:
                "HARDWARE\\DEVICEMAP\\Scsi\\Scsi Port 0\\Scsi Bus 0\\Target Id 0\\Logical Unit Id 0".to_owned(),
            value_name: "Identifier".to_owned(),
            needle: "VBOX".to_owned(),
        },
    );
    t.push(
        SignatureSpec::ValueContains {
            path: "HARDWARE\\Description\\System".to_owned(),
            value_name: "SystemBiosVersion".to_owned(),
            needle: "VBOX".to_owned(),
        },
    );
    t.push(
        SignatureSpec::ValueContains {
            path: "HARDWARE\\Description\\System".to_owned(),
            value_name: "SystemBiosVersion".to_owned(),
            needle: "VIRTUALBOX".to_owned(),
        },
    );
    t.push(
        SignatureSpec::ValueEquals {
            path: "HARDWARE\\Description\\System".to_owned(),
            value_name: "SystemBiosDate".to_owned(),
            expected: "06/23/99".to_owned(),
        },
    );
    t.push(SignatureSpec::KeyExists { path: "HARDWARE\\ACPI\\DSDT\\VBOX__".to_owned() });
    t.push(SignatureSpec::KeyExists { path: "HARDWARE\\ACPI\\FADT\\VBOX__".to_owned() });
    t.push(SignatureSpec::KeyExists { path: "HARDWARE\\ACPI\\RSDT\\VBOX__".to_owned() });
    t.push(
        SignatureSpec::KeyExists { path: "SOFTWARE\\Oracle\\VirtualBox Guest Additions".to_owned() },
    );
    t.push(
        SignatureSpec::KeyExists { path: "SYSTEM\\ControlSet001\\Services\\VBoxGuest".to_owned() },
    );
    t.push(
        SignatureSpec::KeyExists { path: "SYSTEM\\ControlSet001\\Services\\VBoxMouse".to_owned() },
    );
    t.push(
        SignatureSpec::KeyExists {
            path: "SYSTEM\\ControlSet001\\Services\\VBoxService".to_owned(),
        },
    );
    t.push(
        SignatureSpec::KeyExists { path: "SYSTEM\\ControlSet001\\Services\\VBoxSF".to_owned() },
    );
    t.push(
        SignatureSpec::KeyExists { path: "SYSTEM\\ControlSet001\\Services\\VBoxVideo".to_owned() },
    );
    t
}

/// Evaluates the VMware category against the snapshot.
pub fn check_vmware(env: &HostEnvironment) -> (r: bool)
    ensures
        r == spec_check_vmware(*env),
{
    let t = vmware_signatures();
    let r = eval_signatures(&env.registry, &t);
    proof {
        assert(r == spec_check_vmware(*env)) by {
            assert(spec_signature_detected(env.registry, t@[0]) || spec_signature_detected(
                env.registry,
                t@[1],
            ) || spec_signature_detected(env.registry, t@[2]) || spec_signature_detected(
                env.registry,
                t@[3],
            ) ==> exists|j: int|
                0 <= j < t@.len() && spec_signature_detected(env.registry, #[trigger] t@[j]));
        }
    }
    r
}

/// Evaluates the QEMU category against the snapshot.
pub fn check_qemu(env: &HostEnvironment) -> (r: bool)
    ensures
        r == spec_check_qemu(*env),
{
    let t = qemu_signatures();
    let r = eval_signatures(&env.registry, &t);
    proof {
        assert(r == spec_check_qemu(*env)) by {
            assert(spec_signature_detected(env.registry, t@[0]) || spec_signature_detected(
                env.registry,
                t@[1],
            ) ==> exists|j: int|
                0 <= j < t@.len() && spec_signature_detected(env.registry, #[trigger] t@[j]));
        }
    }
    r
}

/// Evaluates the VirtualBox category against the snapshot.
#[verifier::rlimit(30)]
pub fn check_vbox(env: &HostEnvironment) -> (r: bool)
    ensures
        r == spec_check_vbox(*env),
{
    let t = vbox_signatures();
    let r = eval_signatures(&env.registry, &t);
    proof {
        assert(r == spec_check_vbox(*env)) by {
            assert((spec_signature_detected(env.registry, t@[0]) || spec_signature_detected(
                env.registry,
                t@[1],
            ) || spec_signature_detected(env.registry, t@[2]) || spec_signature_detected(
                env.registry,
                t@[3],
            ) || spec_signature_detected(env.registry, t@[4]) || spec_signature_detected(
                env.registry,
                t@[5],
            ) || spec_signature_detected(env.registry, t@[6]) || spec_signature_detected(
                env.registry,
                t@[7],
            ) || spec_signature_detected(env.registry, t@[8]) || spec_signature_detected(
                env.registry,
                t@[9],
            ) || spec_signature_detected(env.registry, t@[10]) || spec_signature_detected(
                env.registry,
                t@[11],
            ) || spec_signature_detected(env.registry, t@[12])) ==> exists|j: int|
                0 <= j < t@.len() && spec_signature_detected(env.registry, #[trigger] t@[j]));
        }
    }
    r
}

/// The Hyper-V category has no implemented probe on this build: its
/// outcome is always the explicit `Unsupported` signal, never a detection,
/// never an abort.
pub fn check_hyperv() -> (r: CategoryOutcome)
    ensures
        r == CategoryOutcome::Unsupported,
{
    CategoryOutcome::Unsupported
}

/// The disk-size heuristic flags the host when the computed capacity of
/// the system drive is at most [`DISK_SIZE_MIN`] gibibytes (inclusive); a
/// failed geometry query never flags.
pub open spec fn spec_disk_size_flagged(env: HostEnvironment) -> bool {
    match env.disk_geometry {
        Some(g) => g.bytes_per_sector * g.sectors_per_cluster * g.total_clusters
            <= DISK_SIZE_MIN * 0x4000_0000,
        None => false,
    }
}

/// Evaluates the disk-size heuristic: capacity in bytes is bytes per
/// sector times sectors per cluster times total clusters, and at most
/// 60 GiB flags the host.
pub fn check_disk_size(env: &HostEnvironment) -> (r: bool)
    ensures
        r == spec_disk_size_flagged(*env),
{
    match env.disk_geometry {
        Some(g) => {
            proof {
                assert((g.bytes_per_sector as int) * (g.sectors_per_cluster as int)
                    <= 0xFFFF_FFFF * 0xFFFF_FFFF) by (nonlinear_arith)
                    requires
                        g.bytes_per_sector as int <= 0xFFFF_FFFF,
                        g.sectors_per_cluster as int <= 0xFFFF_FFFF,
                ;
            }
            let per_cluster: u64 = (g.bytes_per_sector as u64) * (g.sectors_per_cluster as u64);
            proof {
                assert((per_cluster as int) * (g.total_clusters as int) <= 0xFFFF_FFFF_FFFF_FFFF
                    * 0xFFFF_FFFF) by (nonlinear_arith)
                    requires
                        per_cluster as int <= 0xFFFF_FFFF_FFFF_FFFF,
                        g.total_clusters as int <= 0xFFFF_FFFF,
                ;
            }
            let capacity: u128 = (per_cluster as u128) * (g.total_clusters as u128);
            capacity <= (DISK_SIZE_MIN as u128) * 0x4000_0000
        },
        None => false,
    }
}

/// Milliseconds elapsed between two readings of a 32-bit millisecond tick
/// counter, accounting for one wrap-around.
pub open spec fn spec_elapsed_ticks(start: u32, end: u32) -> int {
    if end >= start {
        end - start
    } else {
        0x1_0000_0000 - start + end
    }
}

/// The clock-acceleration heuristic flags the host when the 500 ms delay
/// the provider requested elapsed in at most [`SLEEP_MIN_ELAPSED_MS`]
/// milliseconds of tick time.
pub open spec fn spec_sleep_patch_flagged(env: HostEnvironment) -> bool {
    spec_elapsed_ticks(env.delay_start_ticks, env.delay_end_ticks) <= SLEEP_MIN_ELAPSED_MS
}

/// Evaluates the clock-acceleration heuristic on the recorded tick
/// readings.
pub fn check_sleep_patch(env: &HostEnvironment) -> (r: bool)
    ensures
        r == spec_sleep_patch_flagged(*env),
{
    let start = env.delay_start_ticks;
    let end = env.delay_end_ticks;
    let elapsed: u32 = if end >= start {
        end - start
    } else {
        (0xFFFF_FFFFu32 - start) + end + 1
    };
    elapsed <= SLEEP_MIN_ELAPSED_MS
}

/// The CPU-count heuristic flags the host when fewer than two logical
/// processors are reported.
pub open spec fn spec_cpu_count_flagged(env: HostEnvironment) -> bool {
    env.cpu_count < 2
}

/// Evaluates the CPU-count heuristic.
pub fn check_cpu_count(env: &HostEnvironment) -> (r: bool)
    ensures
        r == spec_cpu_count_flagged(*env),
{
    env.cpu_count < 2
}

/// The native-VHD-boot heuristic flags the host only when the optional
/// primitive was present and reported a virtual-disk boot; an absent
/// primitive is not itself a signal.
pub open spec fn spec_vhd_boot_flagged(env: HostEnvironment) -> bool {
    match env.native_vhd_boot {
        Some(b) => b,
        None => false,
    }
}

/// Evaluates the native-VHD-boot heuristic.
pub fn check_native_vhd_boot(env: &HostEnvironment) -> (r: bool)
    ensures
        r == spec_vhd_boot_flagged(*env),
{
    match env.native_vhd_boot {
        Some(b) => b,
        None => false,
    }
}

/// The generic-VM category flags when any of its four heuristics does.
pub open spec fn spec_check_common_vm(env: HostEnvironment) -> bool {
    ||| spec_disk_size_flagged(env)
    ||| spec_sleep_patch_flagged(env)
    ||| spec_cpu_count_flagged(env)
    ||| spec_vhd_boot_flagged(env)
}

/// Evaluates the generic-VM category: all four heuristics run, and their
/// flags are ORed.
pub fn check_common_vm(env: &HostEnvironment) -> (r: bool)
    ensures
        r == spec_check_common_vm(*env),
{
    let disk = check_disk_size(env);
    let sleep = check_sleep_patch(env);
    let cpus = check_cpu_count(env);
    let vhd = check_native_vhd_boot(env);
    disk || sleep || cpus || vhd
}

} // verus!
