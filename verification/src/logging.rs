//! The rule that maps a repeated verbosity flag to a log-filter level name.

use vstd::prelude::*;

verus! {

/// The log-filter level name for a count of `-v` flags: `error` by default,
/// then `warn`, `info`, `debug`, and `trace` for four or more.
pub fn verbosity_filter(verbose: u8) -> (level: &'static str)
    ensures
        verbose == 0 ==> level@ == "error"@,
        verbose == 1 ==> level@ == "warn"@,
        verbose == 2 ==> level@ == "info"@,
        verbose == 3 ==> level@ == "debug"@,
        verbose >= 4 ==> level@ == "trace"@,
{
    match verbose {
        0 => "error",
        1 => "warn",
        2 => "info",
        3 => "debug",
        _ => "trace",
    }
}

} // verus!
