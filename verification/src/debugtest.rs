//! The debugger category.

use vstd::prelude::*;

use crate::host::HostEnvironment;

verus! {

/// Reports whether a debugger is attached, exactly as the platform's
/// debugger-presence primitive reported it to the provider; on platforms
/// without such a primitive the provider records `false` — no debugger
/// detectable is not an error.
pub fn is_debugging(env: &HostEnvironment) -> (r: bool)
    ensures
        r == env.debugger_present,
{
    env.debugger_present
}

} // verus!
