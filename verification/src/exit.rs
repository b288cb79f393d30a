//! The routine-output model: how a wrapped routine's return value becomes a
//! process exit.
//!
//! A routine may return no value, a boolean, an integer status code, or a
//! result whose success payload recursively satisfies the same contract and
//! whose failure payload is displayable. [`MainOutput`] models such a value;
//! the functions here compute the exit status and the standard-error lines a
//! generated entry point produces for it, under the selected
//! [`ExitStrategy`]. The process exit itself is I/O and is performed by the
//! surrounding program from the returned [`ExitReport`].

use vstd::prelude::*;
use vstd::string::StringExecFns;
use crate::entry::ExitStrategy;

verus! {

/// A value a wrapped routine can return.
#[derive(Debug, PartialEq, Eq)]
pub enum MainOutput {
    /// No value: the program exits with status 0.
    Unit,
    /// A boolean: status 0 for true, 1 for false.
    Bool(bool),
    /// An integer status code, used as the exit status directly.
    Code(i32),
    /// A result's success payload, itself satisfying the same contract.
    Success(Box<MainOutput>),
    /// A result's failure payload: its display and debug renderings, and the
    /// exit status a custom exit mapping computes from it, if any.
    Failure {
        /// The failure's human-readable rendering.
        display: String,
        /// The failure's debug rendering.
        debug: String,
        /// The status a custom exit mapping assigns to this failure; absent
        /// a custom status, the default failure status 1 applies.
        custom_code: Option<i32>,
    },
}

/// The views of the standard-error lines, in order.
pub open spec fn lines_view(stderr: Seq<String>) -> Seq<Seq<char>> {
    stderr.map_values(|s: String| s@)
}

/// The exit status of a routine output under the standard mapping: 0 for
/// unit, 0 or 1 for a boolean, an integer code as itself, a success payload
/// recursively, and 1 for any failure.
pub open spec fn spec_exit_status(v: MainOutput) -> int
    decreases v,
{
    match v {
        MainOutput::Unit => 0,
        MainOutput::Bool(b) => if b {
            0
        } else {
            1
        },
        MainOutput::Code(c) => c as int,
        MainOutput::Success(inner) => spec_exit_status(*inner),
        MainOutput::Failure { .. } => 1,
    }
}

/// The standard-error lines of a routine output under the standard mapping:
/// nothing on success; on failure the program name and the failure's display
/// rendering, followed by its debug rendering when `debug` is set.
pub open spec fn spec_exit_lines(v: MainOutput, program: Seq<char>, debug: bool) -> Seq<Seq<char>>
    decreases v,
{
    match v {
        MainOutput::Success(inner) => spec_exit_lines(*inner, program, debug),
        MainOutput::Failure { display, debug: debug_text, .. } => if debug {
            seq![program + ": "@ + display@, "debug info: "@ + debug_text@]
        } else {
            seq![program + ": "@ + display@]
        },
        _ => Seq::empty(),
    }
}

/// The exit status of a routine output under a custom exit mapping: as the
/// standard mapping, except that a failure exits with the custom status it
/// carries, falling back to 1 without one.
pub open spec fn spec_custom_exit_status(v: MainOutput) -> int
    decreases v,
{
    match v {
        MainOutput::Unit => 0,
        MainOutput::Bool(b) => if b {
            0
        } else {
            1
        },
        MainOutput::Code(c) => c as int,
        MainOutput::Success(inner) => spec_custom_exit_status(*inner),
        MainOutput::Failure { custom_code, .. } => match custom_code {
            Some(c) => c as int,
            None => 1,
        },
    }
}

/// Whether the output carries a failure payload.
pub open spec fn has_failure(v: MainOutput) -> bool
    decreases v,
{
    match v {
        MainOutput::Success(inner) => has_failure(*inner),
        MainOutput::Failure { .. } => true,
        _ => false,
    }
}

/// Only failures print: the standard mapping writes diagnostics exactly when
/// the output carries a failure, whatever the debug flag, and a failure
/// always exits with status 1.
pub proof fn lemma_failure_diagnostics(v: MainOutput, program: Seq<char>, debug: bool)
    ensures
        spec_exit_lines(v, program, debug).len() != 0 <==> has_failure(v),
        has_failure(v) ==> spec_exit_status(v) == 1,
    decreases v,
{
    match v {
        MainOutput::Success(inner) => lemma_failure_diagnostics(*inner, program, debug),
        _ => {},
    }
}

/// How a generated entry point exits: the process status and the lines it
/// writes to standard error first.
#[derive(Debug, PartialEq, Eq)]
pub struct ExitReport {
    /// The process exit status.
    pub status: i32,
    /// The lines written to standard error, in order.
    pub stderr: Vec<String>,
}

/// Whether the selected strategy prints debug output, given whether the
/// parsed command-line arguments requested verbosity.
pub open spec fn spec_strategy_debug(strategy: ExitStrategy, verbose: bool) -> bool {
    match strategy {
        ExitStrategy::Standard { debug } => debug,
        ExitStrategy::Custom => false,
        ExitStrategy::DebugOnVerboseFlag => verbose,
    }
}

/// Computes the exit for a routine output under the standard mapping,
/// displaying failures with the given program name.
pub fn exit_report(v: MainOutput, program: &str, debug: bool) -> (r: ExitReport)
    ensures
        r.status as int == spec_exit_status(v),
        lines_view(r.stderr@) == spec_exit_lines(v, program@, debug),
    decreases v,
{
    match v {
        MainOutput::Unit => {
            let r = ExitReport { status: 0, stderr: Vec::new() };
            proof {
                assert(lines_view(r.stderr@) =~= spec_exit_lines(MainOutput::Unit, program@, debug));
            }
            r
        },
        MainOutput::Bool(b) => {
            let r = ExitReport { status: if b { 0 } else { 1 }, stderr: Vec::new() };
            proof {
                assert(lines_view(r.stderr@) =~= spec_exit_lines(
                    MainOutput::Bool(b),
                    program@,
                    debug,
                ));
            }
            r
        },
        MainOutput::Code(c) => {
            let r = ExitReport { status: c, stderr: Vec::new() };
            proof {
                assert(lines_view(r.stderr@) =~= spec_exit_lines(
                    MainOutput::Code(c),
                    program@,
                    debug,
                ));
            }
            r
        },
        MainOutput::Success(inner) => exit_report(*inner, program, debug),
        MainOutput::Failure { display, debug: debug_text, custom_code } => {
            let ghost failure = MainOutput::Failure { display, debug: debug_text, custom_code };
            let mut line = String::from_str(program);
            line.append(": ");
            line.append(display.as_str());
            proof {
                assert(line@ =~= program@ + ": "@ + display@);
            }
            let mut stderr: Vec<String> = Vec::new();
            stderr.push(line);
            if debug {
                let mut debug_line = String::from_str("debug info: ");
                debug_line.append(debug_text.as_str());
                stderr.push(debug_line);
                proof {
                    assert(lines_view(stderr@) =~= spec_exit_lines(failure, program@, debug));
                }
            } else {
                proof {
                    assert(lines_view(stderr@) =~= spec_exit_lines(failure, program@, debug));
                }
            }
            ExitReport { status: 1, stderr }
        },
    }
}

/// Computes the exit status for a routine output under a custom exit
/// mapping; the custom mapping owns any diagnostics, so no standard-error
/// lines are produced here.
pub fn custom_exit_report(v: MainOutput) -> (r: ExitReport)
    ensures
        r.status as int == spec_custom_exit_status(v),
        r.stderr@.len() == 0,
    decreases v,
{
    match v {
        MainOutput::Unit => ExitReport { status: 0, stderr: Vec::new() },
        MainOutput::Bool(b) => ExitReport { status: if b { 0 } else { 1 }, stderr: Vec::new() },
        MainOutput::Code(c) => ExitReport { status: c, stderr: Vec::new() },
        MainOutput::Success(inner) => custom_exit_report(*inner),
        MainOutput::Failure { custom_code, .. } => match custom_code {
            Some(c) => ExitReport { status: c, stderr: Vec::new() },
            None => ExitReport { status: 1, stderr: Vec::new() },
        },
    }
}

/// Computes the exit a generated entry point performs for a routine output
/// under the selected exit strategy, given whether the parsed arguments
/// requested verbosity.
pub fn entry_exit_report(strategy: &ExitStrategy, verbose: bool, v: MainOutput, program: &str) -> (r:
    ExitReport)
    ensures
        !(strategy is Custom) ==> r.status as int == spec_exit_status(v) && lines_view(r.stderr@)
            == spec_exit_lines(v, program@, spec_strategy_debug(*strategy, verbose)),
        strategy is Custom ==> r.status as int == spec_custom_exit_status(v) && r.stderr@.len()
            == 0,
{
    match strategy {
        ExitStrategy::Standard { debug } => exit_report(v, program, *debug),
        ExitStrategy::Custom => custom_exit_report(v),
        ExitStrategy::DebugOnVerboseFlag => exit_report(v, program, verbose),
    }
}

/// Computes the exit a generated entry point performs when command-line
/// parsing fails: a diagnostic line naming the program and the parse error,
/// and status 1.
pub fn parse_failure_report(program: &str, message: &str) -> (r: ExitReport)
    ensures
        r.status == 1,
        lines_view(r.stderr@) == seq![
            program@ + ": error parsing command line arguments: "@ + message@,
        ],
{
    let mut line = String::from_str(program);
    line.append(": error parsing command line arguments: ");
    line.append(message);
    let mut stderr: Vec<String> = Vec::new();
    stderr.push(line);
    proof {
        assert(lines_view(stderr@) =~= seq![
            program@ + ": error parsing command line arguments: "@ + message@,
        ]);
    }
    ExitReport { status: 1, stderr }
}

} // verus!
