//! Heuristic detection of analysis sandboxes, virtual machines and attached
//! debuggers.
//!
//! The detection engine is pure: it evaluates a [`host::HostEnvironment`] —
//! a snapshot of the host artifacts the heuristics inspect (registry
//! entries, timing readings, disk geometry, processor count) — against a
//! fixed catalogue of vendor signatures and heuristic thresholds. Gathering
//! the snapshot is the job of a platform capability provider outside this
//! library; everything that decides is verified here.

use vstd::prelude::*;

pub mod debugtest;
pub mod host;
pub mod text;
pub mod tools;
pub mod vmtest;

use host::HostEnvironment;

verus! {

/// A probe category of the detector.
#[derive(Clone, Copy, Debug, PartialEq, Eq, Structural)]
pub enum Category {
    Debugger,
    Vmware,
    HyperV,
    Qemu,
    CommonVm,
}

/// The outcome of one evaluated category. `Unsupported` marks a category
/// that has no probe on this build; it is never conflated with a negative
/// result and never aborts the evaluation.
#[derive(Clone, Copy, Debug, PartialEq, Eq, Structural)]
pub enum CategoryOutcome {
    Detected,
    NotDetected,
    Unsupported,
}

/// The outcome of one category in a detection report.
#[derive(Clone, Copy, Debug, PartialEq, Eq, Structural)]
pub struct CategoryReport {
    pub category: Category,
    pub outcome: CategoryOutcome,
}

/// The result of one evaluation pass: the OR-reduced verdict over every
/// enabled, supported category, and one outcome per enabled category so a
/// caller can tell a definitively clean host from one where a category
/// could not be evaluated.
#[derive(Clone, Debug)]
pub struct DetectionReport {
    pub verdict: bool,
    pub outcomes: Vec<CategoryReport>,
}

/// Configuration of the detector: one switch per probe category.
///
/// Immutable by convention once handed to the orchestrator; the default
/// enables every category.
pub struct SandboxDetector {
    pub detect_debug: bool,
    pub detect_vmware: bool,
    pub detect_hyperv: bool,
    pub detect_qemu: bool,
    pub detect_common_vms: bool,
}

impl Default for SandboxDetector {
    /// The default configuration enables every category.
    fn default() -> (s: Self)
        ensures
            s.detect_debug,
            s.detect_vmware,
            s.detect_hyperv,
            s.detect_qemu,
            s.detect_common_vms,
    {
        SandboxDetector {
            detect_debug: true,
            detect_vmware: true,
            detect_hyperv: true,
            detect_qemu: true,
            detect_common_vms: true,
        }
    }
}

/// The verdict of one evaluation: the OR of every enabled category's
/// detection. Hyper-V, having no probe, never contributes to the verdict.
pub open spec fn spec_verdict(cfg: SandboxDetector, env: HostEnvironment) -> bool {
    ||| cfg.detect_debug && env.debugger_present
    ||| cfg.detect_vmware && vmtest::spec_check_vmware(env)
    ||| cfg.detect_qemu && vmtest::spec_check_qemu(env)
    ||| cfg.detect_common_vms && vmtest::spec_check_common_vm(env)
}

/// The category outcome for a boolean detection result.
pub open spec fn spec_outcome_of(detected: bool) -> CategoryOutcome {
    if detected {
        CategoryOutcome::Detected
    } else {
        CategoryOutcome::NotDetected
    }
}

/// The per-category outcome list of one evaluation: one entry for each
/// enabled category, in the fixed order debugger, VMware, Hyper-V, QEMU,
/// generic VM.
pub open spec fn spec_outcomes(cfg: SandboxDetector, env: HostEnvironment) -> Seq<
    CategoryReport,
> {
    let s = Seq::<CategoryReport>::empty();
    let s = if cfg.detect_debug {
        s.push(
            CategoryReport {
                category: Category::Debugger,
                outcome: spec_outcome_of(env.debugger_present),
            },
        )
    } else {
        s
    };
    let s = if cfg.detect_vmware {
        s.push(
            CategoryReport {
                category: Category::Vmware,
                outcome: spec_outcome_of(vmtest::spec_check_vmware(env)),
            },
        )
    } else {
        s
    };
    let s = if cfg.detect_hyperv {
        s.push(
            CategoryReport { category: Category::HyperV, outcome: CategoryOutcome::Unsupported },
        )
    } else {
        s
    };
    let s = if cfg.detect_qemu {
        s.push(
            CategoryReport {
                category: Category::Qemu,
                outcome: spec_outcome_of(vmtest::spec_check_qemu(env)),
            },
        )
    } else {
        s
    };
    if cfg.detect_common_vms {
        s.push(
            CategoryReport {
                category: Category::CommonVm,
                outcome: spec_outcome_of(vmtest::spec_check_common_vm(env)),
            },
        )
    } else {
        s
    }
}

/// An enabled Hyper-V category always surfaces as an `Unsupported` outcome
/// in the report — the evaluation completes normally and the other
/// categories are unaffected.
pub proof fn lemma_hyperv_unsupported(cfg: SandboxDetector, env: HostEnvironment)
    requires
        cfg.detect_hyperv,
    ensures
        spec_outcomes(cfg, env).contains(
            (CategoryReport { category: Category::HyperV, outcome: CategoryOutcome::Unsupported }),
        ),
{
    let hv = CategoryReport { category: Category::HyperV, outcome: CategoryOutcome::Unsupported };
    let s0 = Seq::<CategoryReport>::empty();
    let s1 = if cfg.detect_debug {
        s0.push(
            CategoryReport {
                category: Category::Debugger,
                outcome: spec_outcome_of(env.debugger_present),
            },
        )
    } else {
        s0
    };
    let s2 = if cfg.detect_vmware {
        s1.push(
            CategoryReport {
                category: Category::Vmware,
                outcome: spec_outcome_of(vmtest::spec_check_vmware(env)),
            },
        )
    } else {
        s1
    };
    let s3 = s2.push(hv);
    let s4 = if cfg.detect_qemu {
        s3.push(
            CategoryReport {
                category: Category::Qemu,
                outcome: spec_outcome_of(vmtest::spec_check_qemu(env)),
            },
        )
    } else {
        s3
    };
    let s5 = if cfg.detect_common_vms {
        s4.push(
            CategoryReport {
                category: Category::CommonVm,
                outcome: spec_outcome_of(vmtest::spec_check_common_vm(env)),
            },
        )
    } else {
        s4
    };
    assert(spec_outcomes(cfg, env) == s5);
    let i = s2.len() as int;
    assert(s3[i] == hv);
    assert(s5[i] == hv);
    assert(0 <= i < s5.len());
}

impl SandboxDetector {
    /// Evaluates every enabled category against the environment snapshot
    /// and folds their detections into one verdict.
    ///
    /// Every enabled category is evaluated — an early detection never
    /// short-circuits the remaining categories — and an enabled category
    /// without a probe (Hyper-V) surfaces as an `Unsupported` outcome
    /// while contributing nothing to the verdict. With every category
    /// disabled the verdict is `false` whatever the environment holds.
    pub fn detect(&self, env: &HostEnvironment) -> (r: DetectionReport)
        ensures
            r.verdict == spec_verdict(*self, *env),
            r.outcomes@ == spec_outcomes(*self, *env),
            (!self.detect_debug && !self.detect_vmware && !self.detect_qemu
                && !self.detect_common_vms) ==> !r.verdict,
            self.detect_hyperv ==> r.outcomes@.contains(
                (CategoryReport {
                    category: Category::HyperV,
                    outcome: CategoryOutcome::Unsupported,
                }),
            ),
    {
        let mut flag = false;
        let mut outcomes: Vec<CategoryReport> = Vec::new();

        if self.detect_debug {
            let found = debugtest::is_debugging(env);
            flag = flag || found;
            outcomes.push(
                CategoryReport { category: Category::Debugger, outcome: outcome_of(found) },
            );
        }
        if self.detect_vmware {
            let found = vmtest::check_vmware(env);
            flag = flag || found;
            outcomes.push(
                CategoryReport { category: Category::Vmware, outcome: outcome_of(found) },
            );
        }
        if self.detect_hyperv {
            let outcome = vmtest::check_hyperv();
            outcomes.push(CategoryReport { category: Category::HyperV, outcome });
        }
        if self.detect_qemu {
            let found = vmtest::check_qemu(env);
            flag = flag || found;
            outcomes.push(CategoryReport { category: Category::Qemu, outcome: outcome_of(found) });
        }
        if self.detect_common_vms {
            let found = vmtest::check_common_vm(env);
            flag = flag || found;
            outcomes.push(
                CategoryReport { category: Category::CommonVm, outcome: outcome_of(found) },
            );
        }

        proof {
            assert(outcomes@ =~= spec_outcomes(*self, *env));
            if self.detect_hyperv {
                lemma_hyperv_unsupported(*self, *env);
            }
        }
        DetectionReport { verdict: flag, outcomes }
    }
}

/// Tags a boolean detection result as a category outcome.
fn outcome_of(detected: bool) -> (r: CategoryOutcome)
    ensures
        r == spec_outcome_of(detected),
{
    if detected {
        CategoryOutcome::Detected
    } else {
        CategoryOutcome::NotDetected
    }
}

} // verus!
