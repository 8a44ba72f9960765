//! The run configuration and the mode dispatch.
//!
//! The configuration is read once at startup and never mutated.  Before any
//! benchmarking, an informational flag can short-circuit the run: the about
//! flag wins over the clear flag, and only then does the benchmark run.

use vstd::prelude::*;

verus! {

use vstd::string::StringExecFns;

/// The run configuration, loaded once at process start.
pub struct Args {
    /// Reserved debugging flag; parsed but without further behavior.
    pub debug: bool,
    /// The duration of each strategy's measurement, in seconds.
    pub duration: u64,
    /// Print the identification line and exit.
    pub about: bool,
    /// Print the stats-cleared confirmation and exit; the underlying
    /// persisted-stats action is a no-op in this version.
    pub clear: bool,
}

impl Default for Args {
    /// The default configuration: a three-second benchmark run.
    fn default() -> (r: Args)
        ensures
            !r.debug && r.duration == 3 && !r.about && !r.clear,
    {
        Args { debug: false, duration: 3, about: false, clear: false }
    }
}

/// What one invocation does.
#[derive(Clone, Copy, PartialEq, Eq, Structural, Debug)]
pub enum RunMode {
    /// Print the identification line and exit with success.
    About,
    /// Print the stats-cleared confirmation and exit with success.
    ClearStats,
    /// Run the benchmark loop over every strategy.
    Bench,
}

/// The mode an invocation selects: about wins over clear, which wins over
/// benchmarking.
pub open spec fn mode_spec(args: Args) -> RunMode {
    if args.about {
        RunMode::About
    } else if args.clear {
        RunMode::ClearStats
    } else {
        RunMode::Bench
    }
}

/// Select the run mode for a configuration.
pub fn select_mode(args: &Args) -> (m: RunMode)
    ensures
        m == mode_spec(*args),
{
    if args.about {
        RunMode::About
    } else if args.clear {
        RunMode::ClearStats
    } else {
        RunMode::Bench
    }
}

/// The fixed identification line: program name, version and repository.
pub open spec fn about_line_spec() -> Seq<char> {
    "faf_json_bench v0.1.0 | repo: https://github.com/errantmind/faf-http-bench"@
}

/// The identification line printed for the about flag.
pub fn about_line() -> (r: String)
    ensures
        r@ == about_line_spec(),
{
    String::from_str("faf_json_bench v0.1.0 | repo: https://github.com/errantmind/faf-http-bench")
}

/// The confirmation line printed for the clear flag.
pub open spec fn clear_line_spec() -> Seq<char> {
    "Stats Cleared."@
}

/// The stats-cleared confirmation line.
pub fn clear_line() -> (r: String)
    ensures
        r@ == clear_line_spec(),
{
    String::from_str("Stats Cleared.")
}

} // verus!
