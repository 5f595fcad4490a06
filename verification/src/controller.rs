//! The escalation controller.
//!
//! The controller decides; it does not act. Each decision is a transition:
//! the next state, the diagnostics to emit, and one command for the caller to
//! carry out. The caller removes the cache entry when told to and hands the
//! result back, until a command ends the run.

use vstd::prelude::*;
use crate::cache::{entry_path_of, CacheEntryHandle, InvalidationResult};
use crate::package::PackageIdentifier;
use crate::probe::{check_cache_integrity, score_of};
use crate::remediation::{action_of, remediation_for};
use crate::report::{
    announcement_of, invalidation_announcement, invalidation_outcome, lines_of, outcome_of,
    probe_failure_notice, probe_failure_of, restart_line, restart_notice, status_line, status_of,
    Diagnostic, DiagnosticLevel,
};
use crate::severity::{classify_severity, level_of, SeverityLevel};

verus! {

/// Exit status of a run that ended without a restart request or a failure.
pub const EXIT_SUCCESS: i32 = 0;

/// Exit status reserved for a restart request.
pub const EXIT_RESTART: i32 = 1;

/// Exit status of a run whose pipeline failed before any remediation.
pub const EXIT_FAILURE: i32 = 2;

/// How a run ended.
#[derive(Debug, Clone, Copy, PartialEq, Eq, Structural)]
pub enum ExitOutcome {
    /// The remediation, if any, was carried out and nothing more is asked.
    Success,
    /// The remediation ended with a restart request.
    RestartRequested,
    /// The probe gave no score; no level was assumed and nothing was done.
    ProbeFailure,
}

impl ExitOutcome {
    /// The exit status that stands for the outcome.
    pub open spec fn code(self) -> i32 {
        match self {
            ExitOutcome::Success => EXIT_SUCCESS,
            ExitOutcome::RestartRequested => EXIT_RESTART,
            ExitOutcome::ProbeFailure => EXIT_FAILURE,
        }
    }

    /// The exit status that stands for the outcome.
    pub fn exit_code(self) -> (status: i32)
        ensures
            status == self.code(),
    {
        match self {
            ExitOutcome::Success => EXIT_SUCCESS,
            ExitOutcome::RestartRequested => EXIT_RESTART,
            ExitOutcome::ProbeFailure => EXIT_FAILURE,
        }
    }
}

/// A probe that could not produce a score.
#[derive(Debug, Clone, PartialEq, Eq)]
pub struct ProbeFailure {
    pub reason: String,
}

/// Where a run stands.
#[derive(Debug, Clone, Copy, PartialEq, Eq, Structural)]
pub enum ControllerState {
    /// The invalidation of the package's entry was ordered at this level, and
    /// its result is awaited.
    Invalidating(SeverityLevel),
    /// The run is over.
    Done(ExitOutcome),
}

/// What the caller is to do next.
#[derive(Debug, Clone, PartialEq, Eq)]
pub enum Command {
    /// Remove the cache entry and hand the result to `resume`.
    Invalidate(CacheEntryHandle),
    /// Ask for a restart, for the level given. Nothing follows it.
    RequestRestart(SeverityLevel),
    /// End the run with the outcome given.
    Exit(ExitOutcome),
}

/// A command, with the handle as the path it stands for.
pub enum CommandView {
    Invalidate(Seq<char>),
    RequestRestart(SeverityLevel),
    Exit(ExitOutcome),
}

impl View for Command {
    type V = CommandView;

    open spec fn view(&self) -> CommandView {
        match self {
            Command::Invalidate(handle) => CommandView::Invalidate(handle@),
            Command::RequestRestart(level) => CommandView::RequestRestart(*level),
            Command::Exit(outcome) => CommandView::Exit(*outcome),
        }
    }
}

/// One decision of the controller.
#[derive(Debug, Clone, PartialEq, Eq)]
pub struct Transition {
    /// The state after the decision.
    pub state: ControllerState,
    /// The status lines to emit, in order, before the command is carried out.
    pub diagnostics: Vec<Diagnostic>,
    /// What to do next.
    pub command: Command,
}

/// A transition, with its diagnostics and its command by their views.
pub struct TransitionView {
    pub state: ControllerState,
    pub lines: Seq<(DiagnosticLevel, Seq<char>)>,
    pub command: CommandView,
}

impl View for Transition {
    type V = TransitionView;

    open spec fn view(&self) -> TransitionView {
        TransitionView {
            state: self.state,
            lines: lines_of(self.diagnostics@),
            command: self.command@,
        }
    }
}

/// The first decision of a run, from what the probe reported.
///
/// A probe failure ends the run at once, with no level assumed. A score is
/// classified; where its level prescribes no action the run ends in success,
/// and otherwise the invalidation of the package's entry is ordered.
pub open spec fn start_of(pkg: Seq<char>, probe: Result<u8, ProbeFailure>) -> TransitionView {
    match probe {
        Err(failure) => TransitionView {
            state: ControllerState::Done(ExitOutcome::ProbeFailure),
            lines: seq![probe_failure_of(failure.reason@)],
            command: CommandView::Exit(ExitOutcome::ProbeFailure),
        },
        Ok(score) => {
            let level = level_of(score);
            if action_of(level).spec_invalidates() {
                TransitionView {
                    state: ControllerState::Invalidating(level),
                    lines: seq![status_of(level, pkg), announcement_of(pkg)],
                    command: CommandView::Invalidate(entry_path_of(pkg)),
                }
            } else {
                TransitionView {
                    state: ControllerState::Done(ExitOutcome::Success),
                    lines: seq![status_of(level, pkg)],
                    command: CommandView::Exit(ExitOutcome::Success),
                }
            }
        },
    }
}

/// The decision that follows an invalidation.
///
/// Whatever the invalidation came to, it is reported and the level stays as
/// it was: the run ends in success, or, where the level prescribes a restart,
/// with the restart request. A run that is over stays over.
pub open spec fn resume_of(
    pkg: Seq<char>,
    state: ControllerState,
    result: InvalidationResult,
) -> TransitionView {
    match state {
        ControllerState::Invalidating(level) => {
            let outcome = outcome_of(result, entry_path_of(pkg));
            if action_of(level).spec_restarts() {
                TransitionView {
                    state: ControllerState::Done(ExitOutcome::RestartRequested),
                    lines: seq![outcome, restart_line()],
                    command: CommandView::RequestRestart(level),
                }
            } else {
                TransitionView {
                    state: ControllerState::Done(ExitOutcome::Success),
                    lines: seq![outcome],
                    command: CommandView::Exit(ExitOutcome::Success),
                }
            }
        },
        ControllerState::Done(outcome) => TransitionView {
            state: state,
            lines: Seq::empty(),
            command: CommandView::Exit(outcome),
        },
    }
}

/// Starts a run for a package from the report of its probe.
pub fn start(pkg: &PackageIdentifier, probe: Result<u8, ProbeFailure>) -> (next: Transition)
    ensures
        next@ == start_of(pkg@, probe),
{
    let mut diagnostics: Vec<Diagnostic> = Vec::new();
    match probe {
        Err(failure) => {
            diagnostics.push(probe_failure_notice(failure.reason.as_str()));
            assert(lines_of(diagnostics@) =~= seq![probe_failure_of(failure.reason@)]);
            Transition {
                state: ControllerState::Done(ExitOutcome::ProbeFailure),
                diagnostics,
                command: Command::Exit(ExitOutcome::ProbeFailure),
            }
        },
        Ok(score) => {
            let level = classify_severity(score);
            diagnostics.push(status_line(level, pkg));
            if remediation_for(level).invalidates() {
                diagnostics.push(invalidation_announcement(pkg));
                assert(lines_of(diagnostics@) =~= seq![
                    status_of(level, pkg@),
                    announcement_of(pkg@),
                ]);
                Transition {
                    state: ControllerState::Invalidating(level),
                    diagnostics,
                    command: Command::Invalidate(CacheEntryHandle::for_package(pkg)),
                }
            } else {
                assert(lines_of(diagnostics@) =~= seq![status_of(level, pkg@)]);
                Transition {
                    state: ControllerState::Done(ExitOutcome::Success),
                    diagnostics,
                    command: Command::Exit(ExitOutcome::Success),
                }
            }
        },
    }
}

/// Goes on with a run after the caller has tried to invalidate the entry.
pub fn resume(pkg: &PackageIdentifier, state: ControllerState, result: &InvalidationResult) -> (next:
    Transition)
    ensures
        next@ == resume_of(pkg@, state, *result),
{
    let mut diagnostics: Vec<Diagnostic> = Vec::new();
    match state {
        ControllerState::Invalidating(level) => {
            let handle = CacheEntryHandle::for_package(pkg);
            diagnostics.push(invalidation_outcome(result, &handle));
            if remediation_for(level).restarts() {
                diagnostics.push(restart_notice());
                assert(lines_of(diagnostics@) =~= seq![
                    outcome_of(*result, entry_path_of(pkg@)),
                    restart_line(),
                ]);
                Transition {
                    state: ControllerState::Done(ExitOutcome::RestartRequested),
                    diagnostics,
                    command: Command::RequestRestart(level),
                }
            } else {
                assert(lines_of(diagnostics@) =~= seq![outcome_of(*result, entry_path_of(pkg@))]);
                Transition {
                    state: ControllerState::Done(ExitOutcome::Success),
                    diagnostics,
                    command: Command::Exit(ExitOutcome::Success),
                }
            }
        },
        ControllerState::Done(outcome) => {
            assert(lines_of(diagnostics@) =~= Seq::empty());
            Transition { state, diagnostics, command: Command::Exit(outcome) }
        },
    }
}

/// Starts a run for a package with the built-in probe, which never fails.
pub fn escalate(pkg: &PackageIdentifier) -> (next: Transition)
    ensures
        next@ == start_of(pkg@, Ok(score_of(pkg@))),
{
    let score = check_cache_integrity(pkg.as_str());
    start(pkg, Ok(score))
}

/// The commands of a whole run, in order, where the caller answers the order
/// to invalidate with `result`.
pub open spec fn run_of(
    pkg: Seq<char>,
    probe: Result<u8, ProbeFailure>,
    result: InvalidationResult,
) -> Seq<CommandView> {
    let first = start_of(pkg, probe);
    match first.state {
        ControllerState::Done(_) => seq![first.command],
        ControllerState::Invalidating(_) => seq![
            first.command,
            resume_of(pkg, first.state, result).command,
        ],
    }
}

/// The state in which a whole run ends.
pub open spec fn end_of(
    pkg: Seq<char>,
    probe: Result<u8, ProbeFailure>,
    result: InvalidationResult,
) -> ControllerState {
    let first = start_of(pkg, probe);
    match first.state {
        ControllerState::Done(_) => first.state,
        ControllerState::Invalidating(_) => resume_of(pkg, first.state, result).state,
    }
}

/// The three exit statuses differ, and only success is zero. The restart
/// status stands for a restart request and for nothing else.
pub proof fn lemma_exit_codes_distinct(a: ExitOutcome, b: ExitOutcome)
    ensures
        a.code() == b.code() <==> a == b,
        a.code() == EXIT_SUCCESS <==> a == ExitOutcome::Success,
        a.code() == EXIT_RESTART <==> a == ExitOutcome::RestartRequested,
{
}

/// A run is decided by the probe alone. Without a score it fails and nothing
/// is touched. With one, the level's action is carried out step by step: no
/// command but the exit for no action, the invalidation and then the exit for
/// an invalidation, the invalidation and then the restart request where a
/// restart is prescribed. What the invalidation came to changes none of it.
pub proof fn lemma_run_follows_action(
    pkg: Seq<char>,
    probe: Result<u8, ProbeFailure>,
    result: InvalidationResult,
)
    ensures
        probe is Err ==> run_of(pkg, probe, result) == seq![
            CommandView::Exit(ExitOutcome::ProbeFailure),
        ] && end_of(pkg, probe, result) == ControllerState::Done(ExitOutcome::ProbeFailure),
        probe matches Ok(score) ==> {
            let level = level_of(score);
            let action = action_of(level);
            &&& !action.spec_invalidates() ==> run_of(pkg, probe, result) == seq![
                CommandView::Exit(ExitOutcome::Success),
            ]
            &&& action.spec_invalidates() && !action.spec_restarts() ==> run_of(pkg, probe, result)
                == seq![
                CommandView::Invalidate(entry_path_of(pkg)),
                CommandView::Exit(ExitOutcome::Success),
            ]
            &&& action.spec_restarts() ==> run_of(pkg, probe, result) == seq![
                CommandView::Invalidate(entry_path_of(pkg)),
                CommandView::RequestRestart(level),
            ]
            &&& end_of(pkg, probe, result) == ControllerState::Done(
                if action.spec_restarts() {
                    ExitOutcome::RestartRequested
                } else {
                    ExitOutcome::Success
                },
            )
        },
{
}

/// A restart is requested at most once in a run, exactly when the level is
/// `Critical` or `Panic`, and never before the invalidation was ordered: the
/// command just before the request is the order to invalidate.
pub proof fn lemma_restart_once_after_invalidation(
    pkg: Seq<char>,
    probe: Result<u8, ProbeFailure>,
    result: InvalidationResult,
)
    ensures
        ({
            let run = run_of(pkg, probe, result);
            &&& forall|i: int|
                0 <= i < run.len() && #[trigger] run[i] is RequestRestart ==> i > 0 && run[i
                    - 1] is Invalidate
            &&& forall|i: int, j: int|
                0 <= i < run.len() && 0 <= j < run.len() && #[trigger] run[i] is RequestRestart
                    && #[trigger] run[j] is RequestRestart ==> i == j
            &&& (exists|i: int| 0 <= i < run.len() && #[trigger] run[i] is RequestRestart) <==> (
            probe matches Ok(score) && level_of(score).rank() >= SeverityLevel::Critical.rank())
            &&& (exists|i: int| 0 <= i < run.len() && #[trigger] run[i] is Invalidate) <==> (
            probe matches Ok(score) && level_of(score).rank() >= SeverityLevel::Warning.rank())
        }),
{
    let run = run_of(pkg, probe, result);
    lemma_run_follows_action(pkg, probe, result);
    match probe {
        Err(_) => {},
        Ok(score) => {
            let action = action_of(level_of(score));
            if action.spec_invalidates() {
                assert(run[0] is Invalidate);
                if action.spec_restarts() {
                    assert(run[1] is RequestRestart);
                }
            }
        },
    }
}

/// A run that is over stays over: whatever is handed to it afterwards, it
/// orders no invalidation and requests no restart, and it keeps its outcome.
pub proof fn lemma_done_is_final(pkg: Seq<char>, outcome: ExitOutcome, result: InvalidationResult)
    ensures
        resume_of(pkg, ControllerState::Done(outcome), result) == (TransitionView {
            state: ControllerState::Done(outcome),
            lines: Seq::empty(),
            command: CommandView::Exit(outcome),
        }),
{
}

/// The exit status of a run: zero up to `Danger`, the restart status from
/// `Critical` upwards, the failure status where the probe gave no score.
pub proof fn lemma_exit_status_by_level(
    pkg: Seq<char>,
    probe: Result<u8, ProbeFailure>,
    result: InvalidationResult,
)
    ensures
        end_of(pkg, probe, result) matches ControllerState::Done(outcome) && (match probe {
            Err(_) => outcome.code() == EXIT_FAILURE,
            Ok(score) => if level_of(score).rank() >= SeverityLevel::Critical.rank() {
                outcome.code() == EXIT_RESTART
            } else {
                outcome.code() == EXIT_SUCCESS
            },
        }),
{
    lemma_run_follows_action(pkg, probe, result);
}

} // verus!
