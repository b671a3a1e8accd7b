//! How much the client logs.
use vstd::prelude::*;

verus! {

/// The log filter for a verbosity count: `info`, then `debug` for one `-v`,
/// then `trace` for two or more.
pub open spec fn log_filter(verbose: u8) -> Seq<char> {
    if verbose == 0 {
        seq!['i', 'n', 'f', 'o']
    } else if verbose == 1 {
        seq!['d', 'e', 'b', 'u', 'g']
    } else {
        seq!['t', 'r', 'a', 'c', 'e']
    }
}

/// The log filter for a verbosity count.
pub fn get_log_filter(verbose: u8) -> (r: &'static str)
    ensures
        r@ == log_filter(verbose),
{
    proof {
        reveal_strlit("info");
        reveal_strlit("debug");
        reveal_strlit("trace");
    }
    match verbose {
        0 => {
            assert("info"@ =~= log_filter(verbose));
            "info"
        },
        1 => {
            assert("debug"@ =~= log_filter(verbose));
            "debug"
        },
        _ => {
            assert("trace"@ =~= log_filter(verbose));
            "trace"
        },
    }
}

} // verus!
