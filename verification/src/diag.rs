//! Diagnostic logging: the single line that records the attempted sidecar
//! path and the launch outcome.  The library renders the line; appending it
//! to the log file is the application's best-effort duty, and a failure of
//! that write is absorbed there without ever reaching the outcome.

use vstd::prelude::*;
use vstd::string::StringExecFns;
use crate::launch::LaunchOutcome;
use crate::locator::path_view;

verus! {

/// The textual form of an outcome in the diagnostic line.
pub open spec fn outcome_text(o: LaunchOutcome) -> Seq<char> {
    match o {
        LaunchOutcome::Launched => "ok"@,
        LaunchOutcome::SpawnFailed(m) => "spawn error: "@ + m@,
        LaunchOutcome::DirUnresolved => "failed to resolve executable dir"@,
    }
}

/// The textual form of the attempted path: the path itself, or a marker for
/// its absence.
pub open spec fn path_text(p: Option<Seq<char>>) -> Seq<char> {
    match p {
        Option::Some(s) => s,
        Option::None => "absent"@,
    }
}

/// The one diagnostic line recorded per launch attempt: the attempted path
/// and the outcome.
pub open spec fn spec_log_line(p: Option<Seq<char>>, o: LaunchOutcome) -> Seq<char> {
    "sidecar spawn: path="@ + path_text(p) + " result="@ + outcome_text(o)
}

/// Render the diagnostic line for an attempted path and its outcome.
pub fn log_line(path: &Option<String>, outcome: &LaunchOutcome) -> (r: String)
    ensures
        r@ == spec_log_line(path_view(*path), *outcome),
{
    let mut line = String::new();
    line.append("sidecar spawn: path=");
    match path {
        Option::Some(p) => line.append(p.as_str()),
        Option::None => line.append("absent"),
    }
    line.append(" result=");
    match outcome {
        LaunchOutcome::Launched => line.append("ok"),
        LaunchOutcome::SpawnFailed(m) => {
            line.append("spawn error: ");
            line.append(m.as_str());
        },
        LaunchOutcome::DirUnresolved => line.append("failed to resolve executable dir"),
    }
    proof {
        assert(line@ =~= spec_log_line(path_view(*path), *outcome));
    }
    line
}

} // verus!
