//! Signature probes: declarative registry checks and their evaluator.
//!
//! A [`SignatureSpec`] describes one vendor artifact check — a key that
//! exists, a value whose text contains a substring, or a value whose text
//! equals a literal. Each category aggregator is a table of these, and one
//! generic routine evaluates a table and ORs the collapsed tri-state
//! outcomes.

use vstd::prelude::*;

use crate::host::{ProbeResult, RegistrySnapshot};
use crate::text;

verus! {

/// Passes a flag through unchanged. Callers use it to tag a condition they
/// regard as impossible in production; the flag's value is returned either
/// way, and this library never aborts on it.
pub fn should_panic_release(should_me: bool) -> (r: bool)
    ensures
        r == should_me,
{
    should_me
}

/// Reports whether the snapshot records the registry key `regkey`.
///
/// `true` means the provider could open the key; `false` means it could
/// not (absent or unreadable — the probe does not distinguish).
pub fn regkey_exists(reg: &RegistrySnapshot, regkey: &str) -> (r: bool)
    ensures
        r == reg.spec_key_exists(regkey@),
{
    reg.key_exists(regkey)
}

/// The tri-state outcome of a substring probe: `Inconclusive` when the
/// value could not be read, otherwise whether its text contains the needle
/// case-insensitively.
pub open spec fn spec_value_contains(
    reg: RegistrySnapshot,
    path: Seq<char>,
    name: Seq<char>,
    needle: Seq<char>,
) -> ProbeResult {
    match reg.spec_value_text(path, name) {
        Some(t) => if text::spec_contains_ci(t, needle) {
            ProbeResult::Detected
        } else {
            ProbeResult::NotDetected
        },
        None => ProbeResult::Inconclusive,
    }
}

/// The tri-state outcome of an exact-text probe: `Inconclusive` when the
/// value could not be read, otherwise whether its text equals `expected`
/// exactly — never a superstring or partial match.
pub open spec fn spec_value_equals(
    reg: RegistrySnapshot,
    path: Seq<char>,
    name: Seq<char>,
    expected: Seq<char>,
) -> ProbeResult {
    match reg.spec_value_text(path, name) {
        Some(t) => if t == expected {
            ProbeResult::Detected
        } else {
            ProbeResult::NotDetected
        },
        None => ProbeResult::Inconclusive,
    }
}

/// Probes whether the text of `value` under `regkey` contains
/// `containable`, case-insensitively; `Inconclusive` when the snapshot
/// holds no reading of that value.
pub fn regkey_value_contains(
    reg: &RegistrySnapshot,
    regkey: &str,
    value: &str,
    containable: &str,
) -> (r: ProbeResult)
    ensures
        r == spec_value_contains(*reg, regkey@, value@, containable@),
{
    match reg.value_text(regkey, value) {
        Some(t) => {
            if text::contains_ci(t.as_str(), containable) {
                ProbeResult::Detected
            } else {
                ProbeResult::NotDetected
            }
        },
        None => ProbeResult::Inconclusive,
    }
}

/// Probes whether the text of `value` under `regkey` equals `expected`
/// exactly; `Inconclusive` when the snapshot holds no reading of it.
pub fn regkey_value_equals(
    reg: &RegistrySnapshot,
    regkey: &str,
    value: &str,
    expected: &str,
) -> (r: ProbeResult)
    ensures
        r == spec_value_equals(*reg, regkey@, value@, expected@),
{
    match reg.value_text(regkey, value) {
        Some(t) => {
            if text::str_eq(t.as_str(), expected) {
                ProbeResult::Detected
            } else {
                ProbeResult::NotDetected
            }
        },
        None => ProbeResult::Inconclusive,
    }
}

/// One declarative vendor artifact check.
#[derive(Clone, Debug)]
pub enum SignatureSpec {
    /// The registry key at `path` exists.
    KeyExists { path: String },
    /// The text of `value_name` under `path` contains `needle`,
    /// case-insensitively.
    ValueContains { path: String, value_name: String, needle: String },
    /// The text of `value_name` under `path` equals `expected` exactly.
    ValueEquals { path: String, value_name: String, expected: String },
}

/// The tri-state outcome of one signature check against the snapshot.
/// A key-existence check is never inconclusive: the open either succeeds
/// or it does not.
pub open spec fn spec_signature_result(reg: RegistrySnapshot, s: SignatureSpec) -> ProbeResult {
    match s {
        SignatureSpec::KeyExists { path } => if reg.spec_key_exists(path@) {
            ProbeResult::Detected
        } else {
            ProbeResult::NotDetected
        },
        SignatureSpec::ValueContains { path, value_name, needle } => spec_value_contains(
            reg,
            path@,
            value_name@,
            needle@,
        ),
        SignatureSpec::ValueEquals { path, value_name, expected } => spec_value_equals(
            reg,
            path@,
            value_name@,
            expected@,
        ),
    }
}

/// The signature check detects its artifact: its outcome is `Detected`,
/// with `Inconclusive` already collapsed to a negative.
pub open spec fn spec_signature_detected(reg: RegistrySnapshot, s: SignatureSpec) -> bool {
    spec_signature_result(reg, s) is Detected
}

/// Evaluates one signature check against the snapshot.
pub fn eval_signature(reg: &RegistrySnapshot, s: &SignatureSpec) -> (r: ProbeResult)
    ensures
        r == spec_signature_result(*reg, *s),
{
    match s {
        SignatureSpec::KeyExists { path } => {
            if regkey_exists(reg, path.as_str()) {
                ProbeResult::Detected
            } else {
                ProbeResult::NotDetected
            }
        },
        SignatureSpec::ValueContains { path, value_name, needle } => regkey_value_contains(
            reg,
            path.as_str(),
            value_name.as_str(),
            needle.as_str(),
        ),
        SignatureSpec::ValueEquals { path, value_name, expected } => regkey_value_equals(
            reg,
            path.as_str(),
            value_name.as_str(),
            expected.as_str(),
        ),
    }
}

/// Evaluates a signature table: each tri-state outcome is collapsed
/// (`Inconclusive` counts as not detected) and the results are ORed,
/// stopping at the first detection — harmless, since the snapshot cannot
/// change under the remaining checks.
pub fn eval_signatures(reg: &RegistrySnapshot, specs: &Vec<SignatureSpec>) -> (r: bool)
    ensures
        r == exists|j: int|
            0 <= j < specs@.len() && spec_signature_detected(*reg, #[trigger] specs@[j]),
{
    let mut i: usize = 0;
    while i < specs.len()
        invariant
            i <= specs@.len(),
            forall|j: int|
                0 <= j < i ==> !spec_signature_detected(*reg, #[trigger] specs@[j]),
        decreases specs@.len() - i,
    {
        let p = eval_signature(reg, &specs[i]);
        if p.to_flag() {
            assert(spec_signature_detected(*reg, specs@[i as int]));
            return true;
        }
        i += 1;
    }
    false
}

} // verus!
