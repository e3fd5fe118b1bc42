//! How verbose the logs are: the filter directives that `-v` selects.

use vstd::prelude::*;

verus! {

/// The level of Prism's own log targets for a verbosity: `warn` by default,
/// `debug` with one `-v`, `trace` with more.
pub open spec fn prism_level(verbose: u8) -> Seq<char> {
    if verbose == 0 {
        "warn"@
    } else if verbose == 1 {
        "debug"@
    } else {
        "trace"@
    }
}

/// The filter directives for a verbosity: `warn` for every target, and the
/// level of `prism_level` for the `prism` and `prism_core` targets.
pub open spec fn log_directives(verbose: u8) -> Seq<char> {
    "warn,prism="@ + prism_level(verbose) + ",prism_core="@ + prism_level(verbose)
}

/// Builds the log filter directives for a verbosity, in the syntax of
/// `tracing_subscriber`'s `EnvFilter` (`target=level`, comma-separated).
pub fn build_log_filter(verbose: u8) -> (r: String)
    ensures
        r@ == log_directives(verbose),
{
    let level = if verbose == 0 {
        "warn"
    } else if verbose == 1 {
        "debug"
    } else {
        "trace"
    };
    let mut filter = "warn,prism=".to_owned();
    filter.append(level);
    filter.append(",prism_core=");
    filter.append(level);
    filter
}

/// Whether log lines carry their source file, line and thread: from two
/// `-v` on.
pub fn shows_source_locations(verbose: u8) -> (r: bool)
    ensures
        r == (verbose > 1),
{
    verbose > 1
}

/// How much detail a filter gives Prism's own targets: 0 for `warn`, 1 for
/// `debug`, 2 for `trace`, and -1 for any other filter.
pub open spec fn detail(directives: Seq<char>) -> int {
    if directives == "warn,prism=warn,prism_core=warn"@ {
        0
    } else if directives == "warn,prism=debug,prism_core=debug"@ {
        1
    } else if directives == "warn,prism=trace,prism_core=trace"@ {
        2
    } else {
        -1
    }
}

/// The filter for every verbosity: without `-v` Prism logs warnings, with
/// one `-v` debug detail, with two or more trace detail; so more `-v` never
/// gives less detail.
pub proof fn law_verbosity_filters(v: u8, w: u8)
    ensures
        v == 0 ==> log_directives(v) == "warn,prism=warn,prism_core=warn"@,
        v == 1 ==> log_directives(v) == "warn,prism=debug,prism_core=debug"@,
        v >= 2 ==> log_directives(v) == "warn,prism=trace,prism_core=trace"@,
        v <= w ==> 0 <= detail(log_directives(v)) <= detail(log_directives(w)),
{
    reveal_strlit("warn,prism=");
    reveal_strlit(",prism_core=");
    reveal_strlit("warn");
    reveal_strlit("debug");
    reveal_strlit("trace");
    reveal_strlit("warn,prism=warn,prism_core=warn");
    reveal_strlit("warn,prism=debug,prism_core=debug");
    reveal_strlit("warn,prism=trace,prism_core=trace");
    assert("warn,prism="@ + "warn"@ + ",prism_core="@ + "warn"@ =~= "warn,prism=warn,prism_core=warn"@);
    assert("warn,prism="@ + "debug"@ + ",prism_core="@ + "debug"@ =~= "warn,prism=debug,prism_core=debug"@);
    assert("warn,prism="@ + "trace"@ + ",prism_core="@ + "trace"@ =~= "warn,prism=trace,prism_core=trace"@);
    assert("warn,prism=warn,prism_core=warn"@ != "warn,prism=debug,prism_core=debug"@);
    assert("warn,prism=warn,prism_core=warn"@ != "warn,prism=trace,prism_core=trace"@);
    assert("warn,prism=debug,prism_core=debug"@[11] != "warn,prism=trace,prism_core=trace"@[11]);
}

} // verus!
