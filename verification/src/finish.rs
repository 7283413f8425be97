//! What follows the run of a job: its validation, the state of its worktree, and its commit.

use vstd::prelude::*;

use crate::contracts::{JobDispatchMessage, JobTargetKind};
use crate::error;
use crate::error::EdgeError;
use crate::execution;
use crate::execution::{
    CommandOutcome, CommandOutcomeView, CommitPhase, CommitPhaseView, CommitRecord,
    CommitRecordView, GitReport, GitReportView, ProcessRun, RunnerReport,
};
use crate::sandbox::SandboxPolicy;
use crate::text;
use crate::validation::ValidationResults;

verus! {

/// A run that has come to its end: of which job, in which sandbox, and what the runner reports.
pub struct FinishedRun<'a> {
    pub dispatch: &'a JobDispatchMessage,
    pub sandbox: &'a SandboxPolicy,
    pub runner: &'a RunnerReport,
    pub base_detail: &'a str,
}

/// What is going on after a run.
pub enum FinishPhase {
    /// The work is being validated.
    Validating,
    /// The state of the worktree is being read.
    Reporting { results: ValidationResults },
    /// The work is being committed.
    Committing { results: ValidationResults, commit: CommitPhase },
    /// The state of the worktree is being read again, now that the work has been committed.
    ReportingAgain { results: ValidationResults, commit: Option<CommitRecord> },
    /// Nothing: the outcome is known, or will never be.
    Ended,
}

/// The contents of a [`FinishPhase`].
pub enum FinishPhaseView {
    Validating,
    Reporting { results: ValidationResults },
    Committing { results: ValidationResults, commit: CommitPhaseView },
    ReportingAgain { results: ValidationResults, commit: Option<CommitRecordView> },
    Ended,
}

impl View for FinishPhase {
    type V = FinishPhaseView;

    open spec fn view(&self) -> FinishPhaseView {
        match *self {
            FinishPhase::Validating => FinishPhaseView::Validating,
            FinishPhase::Reporting { results } => FinishPhaseView::Reporting { results },
            FinishPhase::Committing { results, commit } => FinishPhaseView::Committing {
                results,
                commit: commit@,
            },
            FinishPhase::ReportingAgain { results, commit } => FinishPhaseView::ReportingAgain {
                results,
                commit: execution::opt_commit(commit),
            },
            FinishPhase::Ended => FinishPhaseView::Ended,
        }
    }
}

/// What is to be done next after a run.
pub enum FinishAction {
    /// The work is to be validated.
    Validate,
    /// `git` is to be run twice: for the status of the worktree, and for its diff statistics.
    Report { status_args: Vec<String>, diff_args: Vec<String> },
    /// `git` is to be run.
    Git { args: Vec<String> },
    /// The outcome of the job is known.
    Finish { outcome: CommandOutcome },
    /// The job has broken off.
    BreakOff { error: String },
    /// Nothing: what was reported is not what is waited for.
    Wait,
}

/// The contents of a [`FinishAction`].
pub enum FinishActionView {
    Validate,
    Report { status_args: Seq<Seq<char>>, diff_args: Seq<Seq<char>> },
    Git { args: Seq<Seq<char>> },
    Finish { outcome: CommandOutcomeView },
    BreakOff { error: Seq<char> },
    Wait,
}

impl View for FinishAction {
    type V = FinishActionView;

    open spec fn view(&self) -> FinishActionView {
        match *self {
            FinishAction::Validate => FinishActionView::Validate,
            FinishAction::Report { status_args, diff_args } => FinishActionView::Report {
                status_args: text::texts(status_args@),
                diff_args: text::texts(diff_args@),
            },
            FinishAction::Git { args } => FinishActionView::Git { args: text::texts(args@) },
            FinishAction::Finish { outcome } => FinishActionView::Finish { outcome: outcome@ },
            FinishAction::BreakOff { error } => FinishActionView::BreakOff { error: error@ },
            FinishAction::Wait => FinishActionView::Wait,
        }
    }
}

/// What was done after a run.
pub enum FinishInput {
    /// The work was validated.
    Validated { results: ValidationResults },
    /// The work could not be validated.
    NotValidated { error: EdgeError },
    /// `git` was run for the status of the worktree and for its diff statistics.
    Reported { status: ProcessRun, diff_stat: ProcessRun },
    /// `git` was run.
    Ran { run: ProcessRun },
}

/// The state of a worktree as two runs of `git` report it, or the message of a failure. What they
/// print counts, however they end.
pub open spec fn reported_state(status: ProcessRun, diff_stat: ProcessRun) -> Result<
    GitReportView,
    Seq<char>,
> {
    match status {
        ProcessRun::NotRun => Err("failed to capture git status"@),
        ProcessRun::Exited { stdout: lines, .. } => match diff_stat {
            ProcessRun::NotRun => Err("failed to capture git diff --stat"@),
            ProcessRun::Exited { stdout: stat, .. } => Ok(
                execution::git_report_of(lines@, stat@),
            ),
        },
    }
}

/// The state of a worktree as two runs of `git` report it.
pub fn state_of_worktree(status: &ProcessRun, diff_stat: &ProcessRun) -> (out: Result<
    GitReport,
    EdgeError,
>)
    ensures
        error::outcome(out) == reported_state(*status, *diff_stat),
{
    match status {
        ProcessRun::NotRun => Err(EdgeError::new("failed to capture git status")),
        ProcessRun::Exited { success: _, stdout: lines, stderr: _ } => match diff_stat {
            ProcessRun::NotRun => Err(EdgeError::new("failed to capture git diff --stat")),
            ProcessRun::Exited { success: _, stdout: stat, stderr: _ } => Ok(
                execution::capture_git_report(lines.as_slice(), stat.as_slice()),
            ),
        },
    }
}

/// The action that reads the state of a worktree.
pub open spec fn report_action(worktree: Seq<char>) -> FinishActionView {
    FinishActionView::Report {
        status_args: seq!["-C"@, worktree, "status"@, "--short"@],
        diff_args: seq!["-C"@, worktree, "diff"@, "--stat"@],
    }
}

/// The last step: the outcome is known.
pub open spec fn outcome_step(
    run: FinishedRun,
    results: ValidationResults,
    report: GitReportView,
    commit: Option<CommitRecordView>,
) -> (FinishPhaseView, FinishActionView) {
    (
        FinishPhaseView::Ended,
        FinishActionView::Finish {
            outcome: execution::command_outcome(
                *run.dispatch,
                *run.sandbox,
                run.runner@,
                run.base_detail@,
                results,
                report,
                commit,
            ),
        },
    )
}

/// A step that breaks off.
pub open spec fn broken_off(error: Seq<char>) -> (FinishPhaseView, FinishActionView) {
    (FinishPhaseView::Ended, FinishActionView::BreakOff { error })
}

/// The step that a commit is at: the `git` command that is due or, once it is finished, the reading
/// of the state that it leaves.
pub open spec fn commit_step(
    run: FinishedRun,
    results: ValidationResults,
    commit: CommitPhaseView,
) -> (FinishPhaseView, FinishActionView) {
    let worktree = run.sandbox.worktree_path@;
    match execution::commit_args_of(commit, worktree, *run.dispatch) {
        Some(args) => (
            FinishPhaseView::Committing { results, commit },
            FinishActionView::Git { args },
        ),
        None => (
            FinishPhaseView::ReportingAgain { results, commit: commit->Finished_commit },
            report_action(worktree),
        ),
    }
}

/// The step that follows the validation: the state of the worktree is read, if there is one.
pub open spec fn after_validation(run: FinishedRun, results: ValidationResults) -> (
    FinishPhaseView,
    FinishActionView,
) {
    if run.dispatch.target_kind is Repository {
        (FinishPhaseView::Reporting { results }, report_action(run.sandbox.worktree_path@))
    } else {
        outcome_step(run, results, execution::no_git_report(), None)
    }
}

/// The step that follows the first reading of the worktree: the commit, where one is due.
pub open spec fn after_report(
    run: FinishedRun,
    results: ValidationResults,
    report: GitReportView,
) -> (FinishPhaseView, FinishActionView) {
    if execution::commit_due(*run.dispatch, results.overall_success) {
        commit_step(run, results, execution::first_commit_phase(report))
    } else {
        outcome_step(run, results, report, None)
    }
}

/// The step that follows what was done after a run.
pub open spec fn next_finish_step(
    run: FinishedRun,
    phase: FinishPhaseView,
    input: FinishInput,
) -> (FinishPhaseView, FinishActionView) {
    match (phase, input) {
        (FinishPhaseView::Validating, FinishInput::Validated { results }) => after_validation(
            run,
            results,
        ),
        (FinishPhaseView::Validating, FinishInput::NotValidated { error }) => broken_off(error@),
        (
            FinishPhaseView::Reporting { results },
            FinishInput::Reported { status, diff_stat },
        ) => match reported_state(status, diff_stat) {
            Ok(report) => after_report(run, results, report),
            Err(message) => broken_off(message),
        },
        (
            FinishPhaseView::Committing { results, commit },
            FinishInput::Ran { run: done },
        ) => match execution::next_commit_phase(commit, *run.dispatch, done) {
            Ok(next) => commit_step(run, results, next),
            Err(message) => broken_off(message),
        },
        (
            FinishPhaseView::ReportingAgain { results, commit },
            FinishInput::Reported { status, diff_stat },
        ) => match reported_state(status, diff_stat) {
            Ok(report) => outcome_step(run, results, report, commit),
            Err(message) => broken_off(message),
        },
        _ => (phase, FinishActionView::Wait),
    }
}

/// The first step after a run: its work is validated.
pub fn finish_run() -> (step: (FinishPhase, FinishAction))
    ensures
        (step.0@, step.1@) == (FinishPhaseView::Validating, FinishActionView::Validate),
{
    (FinishPhase::Validating, FinishAction::Validate)
}

/// The action that reads the state of a worktree.
fn report_of(worktree_path: &str) -> (action: FinishAction)
    ensures
        action@ == report_action(worktree_path@),
{
    let (status_args, diff_args) = execution::git_report_args(worktree_path);
    FinishAction::Report { status_args, diff_args }
}

/// The last step: the outcome is known.
fn outcome_of(
    run: &FinishedRun,
    results: ValidationResults,
    report: GitReport,
    commit: Option<CommitRecord>,
) -> (step: (FinishPhase, FinishAction))
    ensures
        (step.0@, step.1@) == outcome_step(*run, results, report@, execution::opt_commit(commit)),
{
    let outcome = execution::finalize_command_outcome(
        run.dispatch,
        run.sandbox,
        run.runner.copy(),
        run.base_detail,
        &results,
        report,
        commit,
    );
    (FinishPhase::Ended, FinishAction::Finish { outcome })
}

/// A step that breaks off.
fn break_off(error: EdgeError) -> (step: (FinishPhase, FinishAction))
    ensures
        (step.0@, step.1@) == broken_off(error@),
{
    (FinishPhase::Ended, FinishAction::BreakOff { error: error.message })
}

/// The step that a commit is at.
fn step_of_commit(run: &FinishedRun, results: ValidationResults, commit: CommitPhase) -> (step: (
    FinishPhase,
    FinishAction,
))
    ensures
        (step.0@, step.1@) == commit_step(*run, results, commit@),
{
    let worktree = run.sandbox.worktree_path.as_str();
    match execution::commit_args(&commit, worktree, run.dispatch) {
        Some(args) => (FinishPhase::Committing { results, commit }, FinishAction::Git { args }),
        None => match commit {
            CommitPhase::Finished { commit } => (
                FinishPhase::ReportingAgain { results, commit },
                report_of(worktree),
            ),
            _ => {
                assert(false);
                (FinishPhase::Ended, FinishAction::Wait)
            },
        },
    }
}

/// The step that follows the validation.
fn step_after_validation(run: &FinishedRun, results: ValidationResults) -> (step: (
    FinishPhase,
    FinishAction,
))
    ensures
        (step.0@, step.1@) == after_validation(*run, results),
{
    match run.dispatch.target_kind {
        JobTargetKind::Repository => (
            FinishPhase::Reporting { results },
            report_of(run.sandbox.worktree_path.as_str()),
        ),
        JobTargetKind::Capability => {
            let none = GitReport {
                status_lines: Vec::new(),
                diff_stat: None,
                changed_files: Vec::new(),
            };
            assert(none@.status_lines == execution::no_git_report().status_lines);
            assert(none@.changed_files == execution::no_git_report().changed_files);
            outcome_of(run, results, none, None)
        },
    }
}

/// The step that follows what was done after a run.
pub fn advance_finish(run: &FinishedRun, phase: FinishPhase, input: FinishInput) -> (step: (
    FinishPhase,
    FinishAction,
))
    ensures
        (step.0@, step.1@) == next_finish_step(*run, phase@, input),
{
    match (phase, input) {
        (FinishPhase::Validating, FinishInput::Validated { results }) => step_after_validation(
            run,
            results,
        ),
        (FinishPhase::Validating, FinishInput::NotValidated { error }) => break_off(error),
        (
            FinishPhase::Reporting { results },
            FinishInput::Reported { status, diff_stat },
        ) => match state_of_worktree(&status, &diff_stat) {
            Ok(report) => if execution::commit_is_due(run.dispatch, &results) {
                step_of_commit(run, results, execution::maybe_create_job_commit(&report))
            } else {
                outcome_of(run, results, report, None)
            },
            Err(error) => break_off(error),
        },
        (
            FinishPhase::Committing { results, commit },
            FinishInput::Ran { run: done },
        ) => match execution::advance_commit(commit, run.dispatch, &done) {
            Ok(next) => step_of_commit(run, results, next),
            Err(error) => break_off(error),
        },
        (
            FinishPhase::ReportingAgain { results, commit },
            FinishInput::Reported { status, diff_stat },
        ) => match state_of_worktree(&status, &diff_stat) {
            Ok(report) => outcome_of(run, results, report, commit),
            Err(error) => break_off(error),
        },
        (phase, _) => (phase, FinishAction::Wait),
    }
}

/// A phase that the steps after a run can come to: a worktree is read only where the job has a
/// repository, and a commit is made only where one is due.
pub open spec fn can_be_reached(dispatch: JobDispatchMessage, phase: FinishPhaseView) -> bool {
    match phase {
        FinishPhaseView::Validating => true,
        FinishPhaseView::Reporting { .. } => dispatch.target_kind is Repository,
        FinishPhaseView::Committing { results, .. } => execution::commit_due(
            dispatch,
            results.overall_success,
        ),
        FinishPhaseView::ReportingAgain { results, .. } => execution::commit_due(
            dispatch,
            results.overall_success,
        ),
        FinishPhaseView::Ended => true,
    }
}

/// Every step leads to a phase that can be reached.
pub proof fn steps_lead_to_reachable_phases(
    run: FinishedRun,
    phase: FinishPhaseView,
    input: FinishInput,
)
    requires
        can_be_reached(*run.dispatch, phase),
    ensures
        can_be_reached(*run.dispatch, FinishPhaseView::Validating),
        can_be_reached(*run.dispatch, next_finish_step(run, phase, input).0),
{
}

/// The outcome of a job on a repository tells the state in which its worktree was found last:
/// after the commit, where one was due. It is known only once the work has been validated. The
/// outcome of any other job tells of no worktree.
pub proof fn outcomes_tell_the_last_state(
    run: FinishedRun,
    phase: FinishPhaseView,
    input: FinishInput,
)
    requires
        can_be_reached(*run.dispatch, phase),
        next_finish_step(run, phase, input).1 is Finish,
    ensures
        ({
            let outcome = next_finish_step(run, phase, input).1->Finish_outcome;
            let told = outcome.execution_report;
            if run.dispatch.target_kind is Repository {
                &&& input matches FinishInput::Reported { status, diff_stat }
                &&& reported_state(status, diff_stat) matches Ok(report)
                &&& told.git_status == report.status_lines
                &&& told.diff_stat == report.diff_stat
                &&& told.changed_files == report.changed_files
                &&& match phase {
                    FinishPhaseView::Reporting { results } => {
                        &&& !execution::commit_due(*run.dispatch, results.overall_success)
                        &&& told.commit is None
                    },
                    FinishPhaseView::ReportingAgain { results, commit } => {
                        &&& execution::commit_due(*run.dispatch, results.overall_success)
                        &&& told.commit == commit
                    },
                    _ => false,
                }
            } else {
                &&& phase is Validating
                &&& input is Validated
                &&& told.git_status == execution::no_git_report().status_lines
                &&& told.diff_stat is None
                &&& told.changed_files == execution::no_git_report().changed_files
                &&& told.commit is None
            }
        }),
{
}

/// The worktree is read again only once the commit has come to its end, and it is committed only
/// what had changed when the worktree was read first.
pub proof fn commits_come_between_two_reports(
    run: FinishedRun,
    phase: FinishPhaseView,
    input: FinishInput,
)
    ensures
        next_finish_step(run, phase, input).0 is Committing ==> {
            ||| phase is Committing
            ||| {
                &&& phase is Reporting
                &&& input matches FinishInput::Reported { status, diff_stat }
                &&& reported_state(status, diff_stat) matches Ok(report)
                &&& report.changed_files.len() > 0
                &&& next_finish_step(run, phase, input).0->Committing_commit
                    == (CommitPhaseView::Staging { changed_files: report.changed_files })
            }
        },
        next_finish_step(run, phase, input).0 is ReportingAgain ==> {
            ||| phase is ReportingAgain
            ||| {
                &&& phase matches FinishPhaseView::Committing { commit, .. }
                &&& input matches FinishInput::Ran { run: done }
                &&& execution::next_commit_phase(commit, *run.dispatch, done) matches Ok(next)
                &&& next is Finished
            }
            ||| {
                &&& phase is Reporting
                &&& input matches FinishInput::Reported { status, diff_stat }
                &&& reported_state(status, diff_stat) matches Ok(report)
                &&& report.changed_files.len() == 0
            }
        },
{
}

/// A finished run reports itself: the outcome tells its runner, its target and its sandbox, and
/// what became of the validation that was carried along. A run that was validated successfully is a
/// success, with the detail of the run at its start.
pub proof fn outcomes_are_those_of_the_run(
    run: FinishedRun,
    phase: FinishPhaseView,
    input: FinishInput,
)
    ensures
        next_finish_step(run, phase, input).1 matches FinishActionView::Finish { outcome } ==> {
            let results = match phase {
                FinishPhaseView::Reporting { results } => results,
                FinishPhaseView::ReportingAgain { results, .. } => results,
                _ => input->Validated_results,
            };
            let told = outcome.execution_report;
            &&& next_finish_step(run, phase, input).0 is Ended
            &&& told.runner_report == run.runner@
            &&& told.target_name == run.dispatch.target_name@
            &&& told.target_kind == run.dispatch.target_kind
            &&& told.execution_intent == run.dispatch.execution_intent
            &&& told.sandbox.worktree_path == run.sandbox.worktree_path@
            &&& told.build == results.build@
            &&& told.test == results.test@
            &&& told.validation_config_source == results.config_source@
            &&& results.overall_success ==> outcome.result == "success"@
                && outcome.failure_class is None && run.base_detail@.is_prefix_of(outcome.detail)
            &&& !results.overall_success ==> outcome.result == "failure"@
                && outcome.failure_class is Some
        },
{
    if let FinishActionView::Finish { outcome } = next_finish_step(run, phase, input).1 {
        let results = match phase {
            FinishPhaseView::Reporting { results } => results,
            FinishPhaseView::ReportingAgain { results, .. } => results,
            _ => input->Validated_results,
        };
        let report = match input {
            FinishInput::Reported { status, diff_stat } => reported_state(status, diff_stat)->Ok_0,
            _ => execution::no_git_report(),
        };
        let made = match phase {
            FinishPhaseView::ReportingAgain { commit, .. } => commit,
            _ => None,
        };
        execution::outcomes_repeat_what_happened(
            *run.dispatch,
            *run.sandbox,
            run.runner@,
            run.base_detail@,
            results,
            report,
            made,
        );
        execution::details_say_what_came_of_it(
            *run.dispatch,
            results,
            execution::counted_git(*run.dispatch, report),
            execution::counted_commit(*run.dispatch, results, made),
            run.base_detail@,
        );
    }
}

/// Every step leads on: validated work on a repository is looked at, and other work is finished;
/// what was looked at is committed where that is due, and otherwise finished. The results of the
/// validation are kept throughout, and whatever fails breaks the run off with its message.
pub proof fn validated_work_is_seen_through(
    run: FinishedRun,
    phase: FinishPhaseView,
    input: FinishInput,
)
    ensures
        ({
            let (next, action) = next_finish_step(run, phase, input);
            let repository = run.dispatch.target_kind is Repository;
            &&& phase is Validating ==> match input {
                FinishInput::Validated { results } => {
                    &&& repository ==> next == (FinishPhaseView::Reporting { results })
                        && action is Report
                    &&& !repository ==> next is Ended && action is Finish
                },
                FinishInput::NotValidated { error } => next is Ended && action == (
                FinishActionView::BreakOff { error: error@ }),
                _ => next == phase && action is Wait,
            }
            &&& phase matches FinishPhaseView::Reporting { results } ==> match input {
                FinishInput::Reported { status, diff_stat } => {
                    &&& status is NotRun || diff_stat is NotRun ==> next is Ended
                        && action is BreakOff
                    &&& status is Exited && diff_stat is Exited ==> {
                        &&& !execution::commit_due(*run.dispatch, results.overall_success)
                            ==> action is Finish
                        &&& execution::commit_due(*run.dispatch, results.overall_success) ==> (
                        next matches FinishPhaseView::Committing { results: kept, .. } && kept
                            == results && action is Git) || (next
                            matches FinishPhaseView::ReportingAgain { results: kept, commit } && kept
                            == results && commit is None && action is Report)
                    }
                },
                _ => next == phase && action is Wait,
            }
            &&& phase matches FinishPhaseView::Committing { results, commit } ==> match input {
                FinishInput::Ran { run: done } => match execution::next_commit_phase(
                    commit,
                    *run.dispatch,
                    done,
                ) {
                    Ok(after) => match after {
                        CommitPhaseView::Finished { commit: made } => next == (
                        FinishPhaseView::ReportingAgain { results, commit: made })
                            && action is Report,
                        _ => next == (FinishPhaseView::Committing { results, commit: after })
                            && action is Git,
                    },
                    Err(message) => next is Ended && action == (FinishActionView::BreakOff {
                        error: message,
                    }),
                },
                _ => next == phase && action is Wait,
            }
            &&& phase matches FinishPhaseView::ReportingAgain { results, commit } ==> match input {
                FinishInput::Reported { status, diff_stat } => {
                    &&& next is Ended
                    &&& status is Exited && diff_stat is Exited ==> action is Finish
                    &&& status is NotRun || diff_stat is NotRun ==> action is BreakOff
                },
                _ => next == phase && action is Wait,
            }
            &&& phase is Ended ==> next is Ended && action is Wait
        }),
{
    execution::commit_commands_run_in_the_worktree(
        match phase {
            FinishPhaseView::Committing { commit, .. } => match input {
                FinishInput::Ran { run: done } => match execution::next_commit_phase(
                    commit,
                    *run.dispatch,
                    done,
                ) {
                    Ok(after) => after,
                    Err(_) => commit,
                },
                _ => commit,
            },
            _ => CommitPhaseView::Inspecting,
        },
        run.sandbox.worktree_path@,
        *run.dispatch,
    );
}

/// The worktree of the run is what is looked at: its status in short form, and the statistics of its
/// changes. Both must be had.
pub proof fn the_worktree_of_the_run_is_looked_at(
    run: FinishedRun,
    phase: FinishPhaseView,
    input: FinishInput,
    status: ProcessRun,
    diff_stat: ProcessRun,
)
    ensures
        next_finish_step(run, phase, input).1 matches FinishActionView::Report {
            status_args,
            diff_args,
        } ==> {
            &&& status_args.len() == 4
            &&& status_args[0] == "-C"@ && status_args[1] == run.sandbox.worktree_path@
            &&& status_args[2] == "status"@ && status_args[3] == "--short"@
            &&& diff_args.len() == 4
            &&& diff_args[0] == "-C"@ && diff_args[1] == run.sandbox.worktree_path@
            &&& diff_args[2] == "diff"@ && diff_args[3] == "--stat"@
        },
        reported_state(status, diff_stat) is Ok <==> status is Exited && diff_stat is Exited,
        reported_state(status, diff_stat) matches Ok(report) ==> report == execution::git_report_of(
            status->stdout@,
            diff_stat->stdout@,
        ),
{
}

/// A state that is not known says which command is missing.
pub proof fn unknown_states_say_which_command(status: ProcessRun, diff_stat: ProcessRun)
    ensures
        reported_state(status, diff_stat) matches Err(message) ==> {
            &&& status is NotRun ==> message == "failed to capture git status"@
            &&& status is Exited ==> message == "failed to capture git diff --stat"@
        },
{
}

} // verus!
