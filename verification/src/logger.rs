//! The default logging verbosity the application falls back to.

use vstd::prelude::*;

verus! {

/// The log level a run defaults to when the environment configures
/// none: everything in a debug build, informational messages otherwise.
pub fn default_log_level(debug_build: bool) -> (r: &'static str)
    ensures
        debug_build ==> r@ == "debug"@,
        !debug_build ==> r@ == "info"@,
{
    if debug_build {
        "debug"
    } else {
        "info"
    }
}

} // verus!
