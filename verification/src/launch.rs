//! Sidecar launcher: the single startup decision and the record of its
//! outcome.  The launcher itself never spawns a process or touches a file;
//! it decides what the application must do, and the application hands the
//! operating system's reply back in as a plain value.

use vstd::prelude::*;
use crate::locator::{has_parent, locate_sidecar, path_view, spec_locate};

verus! {

/// Build-time deployment mode, resolved once at startup.
#[derive(Clone, Copy, PartialEq, Eq, Structural, Debug)]
pub enum DeployMode {
    /// Interactive development build: the backend is started independently
    /// by the developer.
    Development,
    /// Distributed, production-style build: the bundled sidecar is launched.
    Production,
}

/// The one startup action chosen from the deployment mode and the located
/// sidecar path.
#[derive(Debug)]
pub enum LaunchAction {
    /// Spawn the sidecar at this path as a detached child process, then
    /// record what the operating system replied.
    SpawnSidecar(String),
    /// No sidecar path could be resolved: record that as the outcome and
    /// spawn nothing.
    ReportUnresolved,
    /// Development build: no launch attempt at all; verbose in-process
    /// logging stands in for the launch diagnostics.
    VerboseLogging,
}

/// The recorded result of the one launch attempt.  A sidecar that starts but
/// later finds its port occupied exits on its own; that is still `Launched`
/// here, since the spawn itself was accepted.
#[derive(Clone, Debug)]
pub enum LaunchOutcome {
    /// The operating system accepted the spawn request.
    Launched,
    /// The operating system refused the spawn, with its reported cause.
    SpawnFailed(String),
    /// The executable directory could not be resolved, so nothing was
    /// spawned.
    DirUnresolved,
}

/// The startup decision: development builds never launch the sidecar; a
/// production build launches the located path, or reports the resolution
/// failure when there is none.
pub open spec fn spec_plan(mode: DeployMode, sidecar: Option<String>) -> LaunchAction {
    match mode {
        DeployMode::Development => LaunchAction::VerboseLogging,
        DeployMode::Production => match sidecar {
            Option::Some(p) => LaunchAction::SpawnSidecar(p),
            Option::None => LaunchAction::ReportUnresolved,
        },
    }
}

/// Choose the startup action.  This is the single decision point between the
/// two startup strategies.
pub fn plan_startup(mode: &DeployMode, sidecar: Option<String>) -> (r: LaunchAction)
    ensures
        r == spec_plan(*mode, sidecar),
{
    match mode {
        DeployMode::Development => LaunchAction::VerboseLogging,
        DeployMode::Production => match sidecar {
            Option::Some(p) => LaunchAction::SpawnSidecar(p),
            Option::None => LaunchAction::ReportUnresolved,
        },
    }
}

/// The outcome that a spawn reply maps to: acceptance is a launch, refusal
/// keeps the reported cause.
pub open spec fn spec_outcome(reply: Result<(), String>) -> LaunchOutcome {
    match reply {
        Result::Ok(_) => LaunchOutcome::Launched,
        Result::Err(m) => LaunchOutcome::SpawnFailed(m),
    }
}

/// Map the operating system's spawn reply to the launch outcome.
pub fn outcome_of_spawn(reply: Result<(), String>) -> (r: LaunchOutcome)
    ensures
        r == spec_outcome(reply),
{
    match reply {
        Result::Ok(_) => LaunchOutcome::Launched,
        Result::Err(m) => LaunchOutcome::SpawnFailed(m),
    }
}

/// Locate the sidecar and choose the startup action, in one step: the pair of
/// the located path (kept for the diagnostic line) and the action planned
/// from it.
pub fn begin_startup(mode: &DeployMode, exe: &Option<String>) -> (r: (Option<String>, LaunchAction))
    ensures
        path_view(r.0) == spec_locate(path_view(*exe)),
        r.1 == spec_plan(*mode, r.0),
{
    let sidecar = locate_sidecar(exe);
    let for_plan = match &sidecar {
        Option::Some(p) => Option::Some(p.clone()),
        Option::None => Option::None,
    };
    let action = plan_startup(mode, for_plan);
    (sidecar, action)
}

/// The record of one application start: at most one launch outcome is ever
/// recorded, and at most one diagnostic line is ever emitted, the line only
/// after the outcome.  The outcome, once recorded, is never re-evaluated;
/// emitting the diagnostic line does not change it, so it stays observable
/// even when the application's log write fails.
pub struct Bootstrap {
    outcome: Option<LaunchOutcome>,
    emitted: bool,
}

impl Bootstrap {
    /// The outcome recorded so far, if any.
    pub closed spec fn recorded(self) -> Option<LaunchOutcome> {
        self.outcome
    }

    /// Whether the diagnostic line has been emitted.
    pub closed spec fn has_emitted(self) -> bool {
        self.emitted
    }

    /// A bootstrap emits its diagnostic line only once an outcome exists.
    pub open spec fn wf(self) -> bool {
        self.has_emitted() ==> self.recorded() is Some
    }

    /// A fresh bootstrap: nothing recorded, nothing emitted.
    pub fn new() -> (b: Bootstrap)
        ensures
            b.recorded() is None,
            !b.has_emitted(),
            b.wf(),
    {
        Bootstrap { outcome: Option::None, emitted: false }
    }

    /// Record the one launch outcome of this start.  A second recording is
    /// ruled out: the outcome is produced once and never retried.
    pub fn record(&mut self, o: LaunchOutcome)
        requires
            old(self).recorded() is None,
        ensures
            final(self).recorded() == Option::Some(o),
            final(self).has_emitted() == old(self).has_emitted(),
            final(self).wf(),
    {
        self.outcome = Option::Some(o);
    }

    /// Emit the one diagnostic line for the recorded outcome and the
    /// attempted path.  The recorded outcome is left untouched: whatever
    /// becomes of the line afterwards, the outcome stays observable.
    pub fn log_entry(&mut self, path: &Option<String>) -> (line: String)
        requires
            old(self).recorded() is Some,
            !old(self).has_emitted(),
        ensures
            final(self).has_emitted(),
            final(self).recorded() == old(self).recorded(),
            final(self).wf(),
            line@ == crate::diag::spec_log_line(path_view(*path), old(self).recorded()->0),
    {
        self.emitted = true;
        let o = match &self.outcome {
            Option::Some(o) => o,
            Option::None => {
                proof {
                    assert(false);
                }
                unreached()
            },
        };
        crate::diag::log_line(path, o)
    }

    /// The recorded outcome, as the application observes it after the
    /// attempt — independent of whether the diagnostic write succeeded.
    pub fn reported(&self) -> (r: &Option<LaunchOutcome>)
        ensures
            *r == self.recorded(),
    {
        &self.outcome
    }
}

/// Exactly one launch outcome per application start: a well-formed bootstrap
/// that has emitted its diagnostic line holds a recorded outcome, and the
/// contracts of `record` and `log_entry` admit at most one recording and at
/// most one emission per start.
pub proof fn lemma_one_outcome_per_start(b: Bootstrap)
    requires
        b.wf(),
        b.has_emitted(),
    ensures
        b.recorded() is Some,
{
}

/// In an interactive development build the launcher is never invoked: the
/// planned action is verbose logging, whatever the locator yielded.
pub proof fn lemma_dev_build_never_spawns(sidecar: Option<String>)
    ensures
        spec_plan(DeployMode::Development, sidecar) is VerboseLogging,
        !(spec_plan(DeployMode::Development, sidecar) is SpawnSidecar),
{
}

/// In a production build, an executable path whose parent directory cannot be
/// determined resolves to no sidecar path, and the planned action reports the
/// unresolved directory without spawning anything.
pub proof fn lemma_unresolved_dir_reports(exe: Option<Seq<char>>, sidecar: Option<String>)
    requires
        exe is None || !has_parent(exe->0),
        path_view(sidecar) == spec_locate(exe),
    ensures
        spec_plan(DeployMode::Production, sidecar) is ReportUnresolved,
        !(spec_plan(DeployMode::Production, sidecar) is SpawnSidecar),
{
    crate::locator::lemma_locator_absent(exe);
    assert(sidecar is None);
}

} // verus!
