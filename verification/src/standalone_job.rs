//! The life of a job on a minimal edge: its worktree, its events and the registration of the
//! device that runs it.

use vstd::prelude::*;

use crate::contracts::{ExecutionIntent, JobDispatchMessage, JobTargetKind};
use crate::error::EdgeError;
use crate::job;
use crate::job::JobSlot;
use crate::paths;
use crate::paths::PathStyle;
use crate::standalone;
use crate::standalone::{EdgeConfig, JobOutcome, JobOutcomeView, JobReport, JobReportView, RepositoryJob};
use crate::text;
use crate::timestamp::Timestamp;
use crate::workspace;
use crate::workspace::{
    WorkspaceAction, WorkspaceActionView, WorkspaceInput, WorkspacePhase, WorkspacePhaseView,
};

verus! {

/// What an event says besides its status.
#[derive(Clone, Debug, PartialEq, Eq)]
pub enum RepositoryPayload {
    /// The job that keeps the device busy.
    ActiveJob { active_job_id: String },
    /// The repository and the branches of a job.
    Target { repo_name: String, branch_name: String, base_branch: String },
    /// The results of a job.
    Completed { summary_markdown: String, execution_report: JobReport },
    /// An action that waits for approval.
    ApprovalRequest { action_type: String, summary: String },
}

/// The contents of a [`RepositoryPayload`].
pub enum RepositoryPayloadView {
    ActiveJob { active_job_id: Seq<char> },
    Target { repo_name: Seq<char>, branch_name: Seq<char>, base_branch: Seq<char> },
    Completed { summary_markdown: Seq<char>, execution_report: JobReportView },
    ApprovalRequest { action_type: Seq<char>, summary: Seq<char> },
}

impl View for RepositoryPayload {
    type V = RepositoryPayloadView;

    open spec fn view(&self) -> RepositoryPayloadView {
        match *self {
            RepositoryPayload::ActiveJob { active_job_id } => RepositoryPayloadView::ActiveJob {
                active_job_id: active_job_id@,
            },
            RepositoryPayload::Target { repo_name, branch_name, base_branch } => RepositoryPayloadView::Target {
                repo_name: repo_name@,
                branch_name: branch_name@,
                base_branch: base_branch@,
            },
            RepositoryPayload::Completed { summary_markdown, execution_report } => RepositoryPayloadView::Completed {
                summary_markdown: summary_markdown@,
                execution_report: execution_report@,
            },
            RepositoryPayload::ApprovalRequest { action_type, summary } => RepositoryPayloadView::ApprovalRequest {
                action_type: action_type@,
                summary: summary@,
            },
        }
    }
}

/// An event in the life of a job on a repository.
#[derive(Clone, Debug, PartialEq, Eq)]
pub struct RepositoryEvent {
    pub job_id: String,
    pub device_id: String,
    pub event_type: String,
    pub status: Option<String>,
    pub result: Option<String>,
    pub failure_class: Option<String>,
    pub worktree_path: Option<String>,
    pub detail: Option<String>,
    pub payload: Option<RepositoryPayload>,
    pub created_at: Timestamp,
}

/// The contents of a [`RepositoryEvent`].
pub struct RepositoryEventView {
    pub job_id: Seq<char>,
    pub device_id: Seq<char>,
    pub event_type: Seq<char>,
    pub status: Option<Seq<char>>,
    pub result: Option<Seq<char>>,
    pub failure_class: Option<Seq<char>>,
    pub worktree_path: Option<Seq<char>>,
    pub detail: Option<Seq<char>>,
    pub payload: Option<RepositoryPayloadView>,
    pub created_at: Timestamp,
}

impl View for RepositoryEvent {
    type V = RepositoryEventView;

    open spec fn view(&self) -> RepositoryEventView {
        RepositoryEventView {
            job_id: self.job_id@,
            device_id: self.device_id@,
            event_type: self.event_type@,
            status: text::opt_text(self.status),
            result: text::opt_text(self.result),
            failure_class: text::opt_text(self.failure_class),
            worktree_path: text::opt_text(self.worktree_path),
            detail: text::opt_text(self.detail),
            payload: (match self.payload {
                Some(inner) => Some(inner@),
                None => None,
            }),
            created_at: self.created_at,
        }
    }
}

/// An event about a job.
pub open spec fn event_for(
    job: RepositoryJob,
    device_id: Seq<char>,
    event_type: Seq<char>,
    status: Seq<char>,
    detail: Seq<char>,
    now: Timestamp,
) -> RepositoryEventView {
    RepositoryEventView {
        job_id: job.job_id@,
        device_id,
        event_type,
        status: Some(status),
        result: None,
        failure_class: None,
        worktree_path: None,
        detail: Some(detail),
        payload: None,
        created_at: now,
    }
}

/// An event about a job.
fn new_event(
    job: &RepositoryJob,
    device_id: &str,
    event_type: &str,
    status: &str,
    detail: String,
    now: Timestamp,
) -> (event: RepositoryEvent)
    ensures
        event@ == event_for(*job, device_id@, event_type@, status@, detail@, now),
{
    RepositoryEvent {
        job_id: job.job_id.clone(),
        device_id: device_id.to_owned(),
        event_type: event_type.to_owned(),
        status: Some(status.to_owned()),
        result: None,
        failure_class: None,
        worktree_path: None,
        detail: Some(detail),
        payload: None,
        created_at: now,
    }
}

/// The contents of an optional event.
pub open spec fn opt_event(event: Option<RepositoryEvent>) -> Option<RepositoryEventView> {
    match event {
        Some(inner) => Some(inner@),
        None => None,
    }
}

/// The event that turns a job away from a busy device.
pub open spec fn rejection(
    job: RepositoryJob,
    device_id: Seq<char>,
    active_job_id: Seq<char>,
    now: Timestamp,
) -> RepositoryEventView {
    RepositoryEventView {
        payload: Some(RepositoryPayloadView::ActiveJob { active_job_id }),
        ..event_for(
            job,
            device_id,
            "job.rejected"@,
            "pending"@,
            "edge device is already running active job "@ + active_job_id,
            now,
        )
    }
}

/// The event that reports a failure, with the worktree where there is one.
pub open spec fn failure(
    job: RepositoryJob,
    device_id: Seq<char>,
    worktree_path: Option<Seq<char>>,
    message: Seq<char>,
    now: Timestamp,
) -> RepositoryEventView {
    RepositoryEventView {
        result: Some("failure"@),
        failure_class: Some("execution"@),
        worktree_path,
        ..event_for(job, device_id, "job.failed"@, "failed"@, message, now)
    }
}

/// The event that reports a failure.
fn failure_event(
    job: &RepositoryJob,
    device_id: &str,
    worktree_path: Option<String>,
    message: String,
    now: Timestamp,
) -> (event: RepositoryEvent)
    ensures
        event@ == failure(*job, device_id@, text::opt_text(worktree_path), message@, now),
{
    let mut event = new_event(job, device_id, "job.failed", "failed", message, now);
    event.result = Some("failure".to_owned());
    event.failure_class = Some("execution".to_owned());
    event.worktree_path = worktree_path;
    event
}

/// Takes a dispatched job in, or turns it away. A job that is taken in holds the slot and is to be
/// run; for one that is turned away the event to publish is returned, and the slot is unchanged.
pub fn handle_job_dispatch(
    slot: &mut JobSlot,
    job: &RepositoryJob,
    device_id: &str,
    now: Timestamp,
) -> (rejected: Option<RepositoryEvent>)
    ensures
        final(slot)@ == job::claimed(old(slot)@, job.job_id@),
        opt_event(rejected) == (match old(slot)@ {
            Some(active) => Some(rejection(*job, device_id@, active, now)),
            None => None,
        }),
{
    match slot.claim(&job.job_id) {
        None => None,
        Some(active) => {
            let mut detail = "edge device is already running active job ".to_owned();
            detail.append(&active);
            let mut event = new_event(job, device_id, "job.rejected", "pending", detail, now);
            event.payload = Some(RepositoryPayload::ActiveJob { active_job_id: active });
            Some(event)
        },
    }
}

/// Ends a job that was taken in: the slot is given back, and where the execution broke off the
/// event to publish is returned.
pub fn finish_job_dispatch(
    slot: &mut JobSlot,
    job: &RepositoryJob,
    device_id: &str,
    broken_off: &Option<EdgeError>,
    now: Timestamp,
) -> (failed: Option<RepositoryEvent>)
    ensures
        final(slot)@ == job::released(old(slot)@, job.job_id@),
        opt_event(failed) == (match *broken_off {
            Some(error) => Some(failure(*job, device_id@, None, error@, now)),
            None => None,
        }),
{
    slot.release(&job.job_id);
    match broken_off {
        None => None,
        Some(error) => Some(failure_event(job, device_id, None, error.to_text(), now)),
    }
}

/// What the execution of a job waits for.
#[derive(Clone, Debug, PartialEq, Eq)]
pub enum RunPhase {
    /// The acceptance is being published.
    Accepting,
    /// The worktree is being created.
    Preparing,
    /// The worktree is being announced.
    Announcing { path: String },
    /// The start is being published.
    Starting { path: String },
    /// The runner is at work.
    Running { path: String },
    /// The completion is being published.
    Completing { path: String, result: String, approval_summary: String },
    /// The request for approval is being published.
    RequestingApproval,
    /// The failure of the runner is being published.
    ReportingFailure,
    /// Nothing: the execution has ended.
    Ended,
}

/// The contents of a [`RunPhase`].
pub enum RunPhaseView {
    Accepting,
    Preparing,
    Announcing { path: Seq<char> },
    Starting { path: Seq<char> },
    Running { path: Seq<char> },
    Completing { path: Seq<char>, result: Seq<char>, approval_summary: Seq<char> },
    RequestingApproval,
    ReportingFailure,
    Ended,
}

impl View for RunPhase {
    type V = RunPhaseView;

    open spec fn view(&self) -> RunPhaseView {
        match *self {
            RunPhase::Accepting => RunPhaseView::Accepting,
            RunPhase::Preparing => RunPhaseView::Preparing,
            RunPhase::Announcing { path } => RunPhaseView::Announcing {
                path: path@,
            },
            RunPhase::Starting { path } => RunPhaseView::Starting {
                path: path@,
            },
            RunPhase::Running { path } => RunPhaseView::Running {
                path: path@,
            },
            RunPhase::Completing { path, result, approval_summary } => RunPhaseView::Completing {
                path: path@,
                result: result@,
                approval_summary: approval_summary@,
            },
            RunPhase::RequestingApproval => RunPhaseView::RequestingApproval,
            RunPhase::ReportingFailure => RunPhaseView::ReportingFailure,
            RunPhase::Ended => RunPhaseView::Ended,
        }
    }
}

/// What is to be done next for a job.
#[derive(Clone, Debug, PartialEq, Eq)]
pub enum RunAction {
    /// An event is to be published.
    Publish { event: RepositoryEvent },
    /// The worktree is to be created.
    CreateWorktree,
    /// The runner is to be started in the worktree.
    Run { path: String },
    /// The execution has ended.
    Finish,
    /// The execution has broken off.
    BreakOff { error: String },
    /// Nothing: what was reported is not what the job waits for.
    Wait,
}

/// The contents of a [`RunAction`].
pub enum RunActionView {
    Publish { event: RepositoryEventView },
    CreateWorktree,
    Run { path: Seq<char> },
    Finish,
    BreakOff { error: Seq<char> },
    Wait,
}

impl View for RunAction {
    type V = RunActionView;

    open spec fn view(&self) -> RunActionView {
        match *self {
            RunAction::Publish { event } => RunActionView::Publish {
                event: event@,
            },
            RunAction::CreateWorktree => RunActionView::CreateWorktree,
            RunAction::Run { path } => RunActionView::Run {
                path: path@,
            },
            RunAction::Finish => RunActionView::Finish,
            RunAction::BreakOff { error } => RunActionView::BreakOff {
                error: error@,
            },
            RunAction::Wait => RunActionView::Wait,
        }
    }
}

/// What was done for a job.
pub enum RunInput {
    /// The event was published.
    Published,
    /// The event could not be published.
    NotPublished { error: EdgeError },
    /// The worktree is ready.
    WorktreeReady { path: String },
    /// The worktree could not be created.
    WorktreeFailed { error: EdgeError },
    /// The runner has come to an outcome.
    RunFinished { outcome: JobOutcome },
    /// The runner failed.
    RunFailed { error: EdgeError },
}

/// The repository and the branches of a job.
pub open spec fn target(job: RepositoryJob) -> RepositoryPayloadView {
    RepositoryPayloadView::Target {
        repo_name: job.repo_name@,
        branch_name: job.branch_name@,
        base_branch: job.base_branch@,
    }
}

/// The repository and the branches of a job.
fn target_of(job: &RepositoryJob) -> (payload: RepositoryPayload)
    ensures
        payload@ == target(*job),
{
    RepositoryPayload::Target {
        repo_name: job.repo_name.clone(),
        branch_name: job.branch_name.clone(),
        base_branch: job.base_branch.clone(),
    }
}

/// The event that reports that a job was accepted.
pub open spec fn acceptance(
    job: RepositoryJob,
    device_id: Seq<char>,
    now: Timestamp,
) -> RepositoryEventView {
    RepositoryEventView {
        payload: Some(target(job)),
        ..event_for(
            job,
            device_id,
            "job.accepted"@,
            "accepted"@,
            "edge accepted dispatched job"@,
            now,
        )
    }
}

/// The event that announces a worktree.
pub open spec fn announcement(
    job: RepositoryJob,
    device_id: Seq<char>,
    path: Seq<char>,
    now: Timestamp,
) -> RepositoryEventView {
    RepositoryEventView {
        worktree_path: Some(path),
        payload: Some(target(job)),
        ..event_for(
            job,
            device_id,
            "job.worktree_created"@,
            "accepted"@,
            "git worktree created for dispatched job"@,
            now,
        )
    }
}

/// The event that reports that a job has started.
pub open spec fn start(
    job: RepositoryJob,
    device_id: Seq<char>,
    path: Seq<char>,
    now: Timestamp,
) -> RepositoryEventView {
    RepositoryEventView {
        worktree_path: Some(path),
        ..event_for(job, device_id, "job.started"@, "running"@, "job execution started"@, now)
    }
}

/// The event that reports how a job ended.
pub open spec fn completion(
    job: RepositoryJob,
    device_id: Seq<char>,
    path: Seq<char>,
    outcome: JobOutcomeView,
    now: Timestamp,
) -> RepositoryEventView {
    RepositoryEventView {
        result: Some(outcome.result),
        worktree_path: Some(path),
        payload: Some(
            RepositoryPayloadView::Completed {
                summary_markdown: outcome.summary_markdown,
                execution_report: outcome.execution_report,
            },
        ),
        ..event_for(job, device_id, "job.completed"@, "completed"@, outcome.detail, now)
    }
}

/// The event that asks for the approval of a push.
pub open spec fn approval_request(
    job: RepositoryJob,
    device_id: Seq<char>,
    path: Seq<char>,
    result: Seq<char>,
    summary: Seq<char>,
    now: Timestamp,
) -> RepositoryEventView {
    RepositoryEventView {
        result: Some(result),
        worktree_path: Some(path),
        payload: Some(RepositoryPayloadView::ApprovalRequest { action_type: "push"@, summary }),
        ..event_for(
            job,
            device_id,
            "job.awaiting_approval"@,
            "awaiting_approval"@,
            "push remains gated behind explicit approval"@,
            now,
        )
    }
}

/// The first step of a job that was taken in.
pub open spec fn first_step(
    job: RepositoryJob,
    device_id: Seq<char>,
    now: Timestamp,
) -> (RunPhaseView, RunActionView) {
    (RunPhaseView::Accepting, RunActionView::Publish { event: acceptance(job, device_id, now) })
}

/// The step that follows what was done for a job.
pub open spec fn next_step(
    job: RepositoryJob,
    device_id: Seq<char>,
    phase: RunPhaseView,
    input: RunInput,
    now: Timestamp,
) -> (RunPhaseView, RunActionView) {
    match (phase, input) {
        (RunPhaseView::Preparing, RunInput::WorktreeReady { path }) => (
            RunPhaseView::Announcing { path: path@ },
            RunActionView::Publish { event: announcement(job, device_id, path@, now) },
        ),
        (RunPhaseView::Preparing, RunInput::WorktreeFailed { error }) => (
            RunPhaseView::Ended,
            RunActionView::BreakOff { error: error@ },
        ),
        (RunPhaseView::Running { path }, RunInput::RunFinished { outcome }) => (
            RunPhaseView::Completing {
                path,
                result: outcome@.result,
                approval_summary: outcome@.approval_summary,
            },
            RunActionView::Publish { event: completion(job, device_id, path, outcome@, now) },
        ),
        (RunPhaseView::Running { path }, RunInput::RunFailed { error }) => (
            RunPhaseView::ReportingFailure,
            RunActionView::Publish { event: failure(job, device_id, Some(path), error@, now) },
        ),
        (_, RunInput::Published) => after_publishing(job, device_id, phase, now),
        (_, RunInput::NotPublished { error }) => if is_publishing(phase) {
            (RunPhaseView::Ended, RunActionView::BreakOff { error: error@ })
        } else {
            (phase, RunActionView::Wait)
        },
        _ => (phase, RunActionView::Wait),
    }
}

/// A phase in which an event is being published.
pub open spec fn is_publishing(phase: RunPhaseView) -> bool {
    !(phase is Preparing || phase is Running || phase is Ended)
}

/// The step that follows the publication of a phase's event.
pub open spec fn after_publishing(
    job: RepositoryJob,
    device_id: Seq<char>,
    phase: RunPhaseView,
    now: Timestamp,
) -> (RunPhaseView, RunActionView) {
    match phase {
        RunPhaseView::Accepting => (RunPhaseView::Preparing, RunActionView::CreateWorktree),
        RunPhaseView::Announcing { path } => (
            RunPhaseView::Starting { path },
            RunActionView::Publish { event: start(job, device_id, path, now) },
        ),
        RunPhaseView::Starting { path } => (
            RunPhaseView::Running { path },
            RunActionView::Run { path },
        ),
        RunPhaseView::Completing { path, result, approval_summary } => (
            RunPhaseView::RequestingApproval,
            RunActionView::Publish {
                event: approval_request(job, device_id, path, result, approval_summary, now),
            },
        ),
        RunPhaseView::RequestingApproval => (RunPhaseView::Ended, RunActionView::Finish),
        RunPhaseView::ReportingFailure => (RunPhaseView::Ended, RunActionView::Finish),
        _ => (phase, RunActionView::Wait),
    }
}

/// The first step of a job that was taken in: its acceptance is published.
pub fn run_job_execution(job: &RepositoryJob, device_id: &str, now: Timestamp) -> (step: (
    RunPhase,
    RunAction,
))
    ensures
        (step.0@, step.1@) == first_step(*job, device_id@, now),
{
    let mut event = new_event(
        job,
        device_id,
        "job.accepted",
        "accepted",
        "edge accepted dispatched job".to_owned(),
        now,
    );
    event.payload = Some(target_of(job));
    (RunPhase::Accepting, RunAction::Publish { event })
}

/// The step that follows the publication of a phase's event.
fn step_after_publishing(
    job: &RepositoryJob,
    device_id: &str,
    phase: RunPhase,
    now: Timestamp,
) -> (step: (RunPhase, RunAction))
    ensures
        (step.0@, step.1@) == after_publishing(*job, device_id@, phase@, now),
{
    match phase {
        RunPhase::Accepting => (RunPhase::Preparing, RunAction::CreateWorktree),
        RunPhase::Announcing { path } => {
            let mut event = new_event(
                job,
                device_id,
                "job.started",
                "running",
                "job execution started".to_owned(),
                now,
            );
            event.worktree_path = Some(path.clone());
            (RunPhase::Starting { path }, RunAction::Publish { event })
        },
        RunPhase::Starting { path } => {
            let again = path.clone();
            (RunPhase::Running { path }, RunAction::Run { path: again })
        },
        RunPhase::Completing { path, result, approval_summary } => {
            let mut event = new_event(
                job,
                device_id,
                "job.awaiting_approval",
                "awaiting_approval",
                "push remains gated behind explicit approval".to_owned(),
                now,
            );
            event.result = Some(result);
            event.worktree_path = Some(path);
            event.payload = Some(
                RepositoryPayload::ApprovalRequest {
                    action_type: "push".to_owned(),
                    summary: approval_summary,
                },
            );
            (RunPhase::RequestingApproval, RunAction::Publish { event })
        },
        RunPhase::RequestingApproval => (RunPhase::Ended, RunAction::Finish),
        RunPhase::ReportingFailure => (RunPhase::Ended, RunAction::Finish),
        other => (other, RunAction::Wait),
    }
}

/// The step that follows what was done for a job.
pub fn advance_job(
    job: &RepositoryJob,
    device_id: &str,
    phase: RunPhase,
    input: RunInput,
    now: Timestamp,
) -> (step: (RunPhase, RunAction))
    ensures
        (step.0@, step.1@) == next_step(*job, device_id@, phase@, input, now),
{
    match (phase, input) {
        (RunPhase::Preparing, RunInput::WorktreeReady { path }) => {
            let mut event = new_event(
                job,
                device_id,
                "job.worktree_created",
                "accepted",
                "git worktree created for dispatched job".to_owned(),
                now,
            );
            event.worktree_path = Some(path.clone());
            event.payload = Some(target_of(job));
            (RunPhase::Announcing { path }, RunAction::Publish { event })
        },
        (RunPhase::Preparing, RunInput::WorktreeFailed { error }) => (
            RunPhase::Ended,
            RunAction::BreakOff { error: error.message },
        ),
        (RunPhase::Running { path }, RunInput::RunFinished { outcome }) => {
            let mut event = new_event(
                job,
                device_id,
                "job.completed",
                "completed",
                outcome.detail,
                now,
            );
            event.result = Some(outcome.result.clone());
            event.worktree_path = Some(path.clone());
            event.payload = Some(
                RepositoryPayload::Completed {
                    summary_markdown: outcome.summary_markdown,
                    execution_report: outcome.execution_report,
                },
            );
            (
                RunPhase::Completing {
                    path,
                    result: outcome.result,
                    approval_summary: outcome.approval_summary,
                },
                RunAction::Publish { event },
            )
        },
        (RunPhase::Running { path }, RunInput::RunFailed { error }) => {
            let event = failure_event(job, device_id, Some(path), error.message, now);
            (RunPhase::ReportingFailure, RunAction::Publish { event })
        },
        (phase, RunInput::Published) => step_after_publishing(job, device_id, phase, now),
        (phase, RunInput::NotPublished { error }) => match phase {
            RunPhase::Preparing => (RunPhase::Preparing, RunAction::Wait),
            RunPhase::Running { path } => (RunPhase::Running { path }, RunAction::Wait),
            RunPhase::Ended => (RunPhase::Ended, RunAction::Wait),
            _ => (RunPhase::Ended, RunAction::BreakOff { error: error.message }),
        },
        (phase, _) => (phase, RunAction::Wait),
    }
}

/// The types of the events that a job publishes from a step on, while it is told what was done,
/// each time at another point in time.
pub open spec fn published_types(
    job: RepositoryJob,
    device_id: Seq<char>,
    step: (RunPhaseView, RunActionView),
    inputs: Seq<RunInput>,
    times: Seq<Timestamp>,
) -> Seq<Seq<char>>
    decreases inputs.len(),
{
    let here = match step.1 {
        RunActionView::Publish { event } => seq![event.event_type],
        _ => Seq::<Seq<char>>::empty(),
    };
    if inputs.len() == 0 {
        here
    } else {
        here + published_types(
            job,
            device_id,
            next_step(job, device_id, step.0, inputs[0], times[0]),
            inputs.drop_first(),
            times.drop_first(),
        )
    }
}

/// The step that a job comes to from another, while it is told what was done, each time at another
/// point in time.
pub open spec fn step_reached(
    job: RepositoryJob,
    device_id: Seq<char>,
    step: (RunPhaseView, RunActionView),
    inputs: Seq<RunInput>,
    times: Seq<Timestamp>,
) -> (RunPhaseView, RunActionView)
    decreases inputs.len(),
{
    if inputs.len() == 0 {
        step
    } else {
        step_reached(
            job,
            device_id,
            next_step(job, device_id, step.0, inputs[0], times[0]),
            inputs.drop_first(),
            times.drop_first(),
        )
    }
}

/// What is done for a job where every event can be published and the worktree can be created.
pub open spec fn undisturbed_inputs(path: String, run: Result<JobOutcome, EdgeError>) -> Seq<
    RunInput,
> {
    let started = seq![
        RunInput::Published,
        RunInput::WorktreeReady { path },
        RunInput::Published,
        RunInput::Published,
    ];
    started + match run {
        Ok(outcome) => seq![
            RunInput::RunFinished { outcome },
            RunInput::Published,
            RunInput::Published,
        ],
        Err(error) => seq![RunInput::RunFailed { error }, RunInput::Published],
    }
}

/// The events of a job that is not disturbed, in order.
pub open spec fn life_of_a_job(run: Result<JobOutcome, EdgeError>) -> Seq<Seq<char>> {
    seq!["job.accepted"@, "job.worktree_created"@, "job.started"@] + match run {
        Ok(_) => seq!["job.completed"@, "job.awaiting_approval"@],
        Err(_) => seq!["job.failed"@],
    }
}

/// A job whose events can all be published and whose worktree can be created reports its
/// acceptance, its worktree and its start. It then reports the failure of its runner, or its
/// completion and the request for the approval of a push. With that it has come to its end,
/// whenever each of its steps was taken.
pub proof fn undisturbed_jobs_report_their_whole_life(
    job: RepositoryJob,
    device_id: Seq<char>,
    path: String,
    run: Result<JobOutcome, EdgeError>,
    start: Timestamp,
    times: Seq<Timestamp>,
)
    requires
        times.len() == undisturbed_inputs(path, run).len(),
    ensures
        published_types(
            job,
            device_id,
            first_step(job, device_id, start),
            undisturbed_inputs(path, run),
            times,
        ) == life_of_a_job(run),
        step_reached(
            job,
            device_id,
            first_step(job, device_id, start),
            undisturbed_inputs(path, run),
            times,
        ) == (RunPhaseView::Ended, RunActionView::Finish),
{
    reveal_with_fuel(published_types, 8);
    reveal_with_fuel(step_reached, 8);
    let inputs = undisturbed_inputs(path, run);
    let first = first_step(job, device_id, start);
    let all = published_types(job, device_id, first, inputs, times);
    assert(all =~= life_of_a_job(run));
}

/// A job on a repository as a dispatch, for what does not depend on where it came from. It
/// correlates with nothing but itself.
pub open spec fn dispatch_of(job: RepositoryJob) -> JobDispatchMessage {
    JobDispatchMessage {
        job_id: job.job_id,
        short_id: job.short_id,
        correlation_id: job.job_id,
        thread_id: job.thread_id,
        title: job.title,
        device_id: job.device_id,
        target_kind: JobTargetKind::Repository,
        target_name: job.repo_name,
        base_branch: Some(job.base_branch),
        branch_name: Some(job.branch_name),
        prompt: job.request_text,
        execution_intent: ExecutionIntent::WorkspaceChange,
        dispatched_at: job.dispatched_at,
    }
}

/// A job on a repository as a dispatch.
fn as_dispatch(job: &RepositoryJob) -> (dispatch: JobDispatchMessage)
    ensures
        dispatch == dispatch_of(*job),
{
    JobDispatchMessage {
        job_id: job.job_id.clone(),
        short_id: job.short_id.clone(),
        correlation_id: job.job_id.clone(),
        thread_id: job.thread_id.clone(),
        title: job.title.clone(),
        device_id: job.device_id.clone(),
        target_kind: JobTargetKind::Repository,
        target_name: job.repo_name.clone(),
        base_branch: Some(job.base_branch.clone()),
        branch_name: Some(job.branch_name.clone()),
        prompt: job.request_text.clone(),
        execution_intent: ExecutionIntent::WorkspaceChange,
        dispatched_at: job.dispatched_at,
    }
}

/// The first step towards the worktree of a job: its repository stands in the workspace under its
/// name.
pub open spec fn first_worktree_step(
    style: PathStyle,
    job: RepositoryJob,
    workspace_root: Seq<char>,
) -> (WorkspacePhaseView, WorkspaceActionView) {
    let repo_root = paths::join(style, workspace_root, job.repo_name@);
    (
        WorkspacePhaseView::Inspecting {
            branch: job.branch_name@,
            base: job.base_branch@,
            repo_root,
        },
        WorkspaceActionView::Inspect { repo_root },
    )
}

/// The step that follows what was done for a worktree. It is that of a dispatched job, but for the
/// words of the request.
pub open spec fn next_worktree_step(
    style: PathStyle,
    job: RepositoryJob,
    worktree_root: Seq<char>,
    phase: WorkspacePhaseView,
    input: WorkspaceInput,
) -> (WorkspacePhaseView, WorkspaceActionView) {
    let step = workspace::next_workspace_step(style, dispatch_of(job), worktree_root, phase, input);
    match step.1 {
        WorkspaceActionView::WriteFile { path, body: _ } => (
            step.0,
            WorkspaceActionView::WriteFile { path, body: standalone::request_body(job) },
        ),
        _ => step,
    }
}

/// The first step towards the worktree of a job.
pub fn create_worktree(style: PathStyle, job: &RepositoryJob, workspace_root: &str) -> (step: (
    WorkspacePhase,
    WorkspaceAction,
))
    ensures
        (step.0@, step.1@) == first_worktree_step(style, *job, workspace_root@),
{
    let repo_root = paths::join_path(style, workspace_root, &job.repo_name);
    let again = repo_root.clone();
    (
        WorkspacePhase::Inspecting {
            branch: job.branch_name.clone(),
            base: job.base_branch.clone(),
            repo_root,
        },
        WorkspaceAction::Inspect { repo_root: again },
    )
}

/// The step that follows what was done for a worktree.
pub fn advance_worktree(
    style: PathStyle,
    job: &RepositoryJob,
    worktree_root: &str,
    phase: WorkspacePhase,
    input: WorkspaceInput,
) -> (step: (WorkspacePhase, WorkspaceAction))
    ensures
        (step.0@, step.1@) == next_worktree_step(style, *job, worktree_root@, phase@, input),
{
    let (next, action) = workspace::advance_workspace(
        style,
        &as_dispatch(job),
        worktree_root,
        phase,
        input,
    );
    match action {
        WorkspaceAction::WriteFile { path, body: _ } => {
            let worktree = workspace::path_of_workspace(style, &as_dispatch(job), worktree_root);
            let (_, body) = standalone::write_job_request_files(style, job, &worktree);
            (next, WorkspaceAction::WriteFile { path, body })
        },
        other => (next, other),
    }
}

/// What a minimal edge tells the orchestrator about its device.
#[derive(Clone, Debug, PartialEq, Eq)]
pub struct RegisterRepositoryDevice {
    pub name: String,
    pub primary_flag: bool,
    pub allowed_repos: Vec<String>,
    pub capabilities: Vec<String>,
}

/// The contents of a [`RegisterRepositoryDevice`].
pub struct RegisterRepositoryDeviceView {
    pub name: Seq<char>,
    pub primary_flag: bool,
    pub allowed_repos: Seq<Seq<char>>,
    pub capabilities: Seq<Seq<char>>,
}

impl View for RegisterRepositoryDevice {
    type V = RegisterRepositoryDeviceView;

    open spec fn view(&self) -> RegisterRepositoryDeviceView {
        RegisterRepositoryDeviceView {
            name: self.name@,
            primary_flag: self.primary_flag,
            allowed_repos: text::texts(self.allowed_repos@),
            capabilities: text::texts(self.capabilities@),
        }
    }
}

/// What a minimal edge tells the orchestrator about its device.
pub open spec fn registration_of(config: EdgeConfig) -> RegisterRepositoryDeviceView {
    RegisterRepositoryDeviceView {
        name: config.device_name@,
        primary_flag: config.primary_flag,
        allowed_repos: text::texts(config.allowed_repos@),
        capabilities: text::texts(config.capabilities@),
    }
}

/// What a minimal edge tells the orchestrator about its device.
pub fn register_device(config: &EdgeConfig) -> (request: RegisterRepositoryDevice)
    ensures
        request@ == registration_of(*config),
{
    RegisterRepositoryDevice {
        name: config.device_name.clone(),
        primary_flag: config.primary_flag,
        allowed_repos: text::copy_list(&config.allowed_repos),
        capabilities: text::copy_list(&config.capabilities),
    }
}

/// Every event names its job, the device and the time, and carries no more than its own kind tells.
pub proof fn events_name_their_job(
    job: RepositoryJob,
    device_id: Seq<char>,
    path: Seq<char>,
    active_job_id: Seq<char>,
    message: Seq<char>,
    now: Timestamp,
)
    ensures
        ({
            let rejected = rejection(job, device_id, active_job_id, now);
            let accepted = acceptance(job, device_id, now);
            let announced = announcement(job, device_id, path, now);
            let started = start(job, device_id, path, now);
            let failed = failure(job, device_id, Some(path), message, now);
            let unplaced = failure(job, device_id, None, message, now);
            &&& names(rejected, job, device_id, now)
            &&& names(accepted, job, device_id, now)
            &&& names(announced, job, device_id, now)
            &&& names(started, job, device_id, now)
            &&& names(failed, job, device_id, now)
            &&& rejected.event_type == "job.rejected"@
            &&& rejected.status == Some("pending"@)
            &&& rejected.result is None && rejected.failure_class is None
                && rejected.worktree_path is None
            &&& rejected.payload == Some(RepositoryPayloadView::ActiveJob { active_job_id })
            &&& rejected.detail matches Some(detail) && active_job_id.is_suffix_of(detail)
            &&& accepted.event_type == "job.accepted"@
            &&& accepted.status == Some("accepted"@)
            &&& accepted.result is None && accepted.failure_class is None
                && accepted.worktree_path is None
            &&& tells_target(accepted.payload, job)
            &&& announced.event_type == "job.worktree_created"@
            &&& announced.status == Some("accepted"@)
            &&& announced.result is None && announced.failure_class is None
            &&& announced.worktree_path == Some(path)
            &&& tells_target(announced.payload, job)
            &&& started.event_type == "job.started"@
            &&& started.status == Some("running"@)
            &&& started.result is None && started.failure_class is None
            &&& started.worktree_path == Some(path)
            &&& failed.event_type == "job.failed"@
            &&& failed.status == Some("failed"@)
            &&& failed.result == Some("failure"@)
            &&& failed.failure_class == Some("execution"@)
            &&& failed.detail == Some(message)
            &&& failed.worktree_path == Some(path)
            &&& unplaced.worktree_path is None
        }),
{
    text::parts_begin_and_end("edge device is already running active job "@, active_job_id);
}

/// An event that names a job, the device and the time.
pub open spec fn names(
    event: RepositoryEventView,
    job: RepositoryJob,
    device_id: Seq<char>,
    now: Timestamp,
) -> bool {
    &&& event.job_id == job.job_id@
    &&& event.device_id == device_id
    &&& event.created_at == now
}

/// A payload that tells the target of a job.
pub open spec fn tells_target(payload: Option<RepositoryPayloadView>, job: RepositoryJob) -> bool {
    payload == Some(
        RepositoryPayloadView::Target {
            repo_name: job.repo_name@,
            branch_name: job.branch_name@,
            base_branch: job.base_branch@,
        },
    )
}

/// A completed job is reported with the whole of its outcome, and approval is asked for with its
/// result and its question, from where it was run.
pub proof fn completions_carry_the_whole_outcome(
    job: RepositoryJob,
    device_id: Seq<char>,
    path: Seq<char>,
    outcome: JobOutcome,
    now: Timestamp,
    later: Timestamp,
)
    ensures
        ({
            let (phase, action) = next_step(
                job,
                device_id,
                RunPhaseView::Running { path },
                RunInput::RunFinished { outcome },
                now,
            );
            let (_, request) = next_step(job, device_id, phase, RunInput::Published, later);
            &&& action matches RunActionView::Publish { event }
            &&& names(event, job, device_id, now)
            &&& event.event_type == "job.completed"@
            &&& event.status == Some("completed"@)
            &&& event.result == Some(outcome@.result)
            &&& event.failure_class is None
            &&& event.worktree_path == Some(path)
            &&& event.detail == Some(outcome@.detail)
            &&& event.payload == Some(
                RepositoryPayloadView::Completed {
                    summary_markdown: outcome@.summary_markdown,
                    execution_report: outcome@.execution_report,
                },
            )
            &&& request matches RunActionView::Publish { event: asked }
            &&& names(asked, job, device_id, later)
            &&& asked.event_type == "job.awaiting_approval"@
            &&& asked.status == Some("awaiting_approval"@)
            &&& asked.result == Some(outcome@.result)
            &&& asked.failure_class is None
            &&& asked.worktree_path == Some(path)
            &&& asked.payload == Some(
                RepositoryPayloadView::ApprovalRequest {
                    action_type: "push"@,
                    summary: outcome@.approval_summary,
                },
            )
        }),
{
}

/// A job goes on in the worktree that was made for it, each answer leads to its own next step, and
/// an answer that was not awaited leads nowhere.
pub proof fn jobs_go_on_in_their_worktree(
    job: RepositoryJob,
    device_id: Seq<char>,
    phase: RunPhaseView,
    input: RunInput,
    now: Timestamp,
)
    ensures
        ({
            let (next, action) = next_step(job, device_id, phase, input, now);
            &&& action is Finish || action is BreakOff ==> next is Ended
            &&& action is Wait ==> next == phase
            &&& phase is Preparing ==> match input {
                RunInput::WorktreeReady { path } => next == (RunPhaseView::Announcing {
                    path: path@,
                }) && action == (RunActionView::Publish {
                    event: announcement(job, device_id, path@, now),
                }),
                RunInput::WorktreeFailed { error } => action == (RunActionView::BreakOff {
                    error: error@,
                }),
                _ => action is Wait,
            }
            &&& phase matches RunPhaseView::Running { path } ==> match input {
                RunInput::RunFinished { outcome } => next is Completing && next->Completing_path
                    == path,
                RunInput::RunFailed { error } => next is ReportingFailure && action == (
                RunActionView::Publish {
                    event: failure(job, device_id, Some(path), error@, now),
                }),
                _ => action is Wait,
            }
            &&& phase is Accepting && input is Published ==> next is Preparing
                && action is CreateWorktree
            &&& phase matches RunPhaseView::Announcing { path } ==> (input is Published ==> next
                == (RunPhaseView::Starting { path }) && action == (RunActionView::Publish {
                event: start(job, device_id, path, now),
            }))
            &&& phase matches RunPhaseView::Starting { path } ==> (input is Published ==> next
                == (RunPhaseView::Running { path }) && action == (RunActionView::Run { path }))
            &&& phase is Completing && input is Published ==> next is RequestingApproval
                && action is Publish
            &&& (phase is RequestingApproval || phase is ReportingFailure) && input is Published
                ==> action is Finish
            &&& !(phase is Preparing || phase is Running || phase is Ended) ==> (input
                matches RunInput::NotPublished { error } ==> action == (RunActionView::BreakOff {
                error: error@,
            }))
            &&& phase is Ended ==> action is Wait
        }),
        first_step(job, device_id, now).0 is Accepting,
        first_step(job, device_id, now).1 == (RunActionView::Publish {
            event: acceptance(job, device_id, now),
        }),
{
}

/// The worktree of a job is made from the repository that it names below the workspace root, as that
/// of any job on a repository, but its request is its own.
pub proof fn worktrees_hold_the_request_of_the_job(
    style: PathStyle,
    job: RepositoryJob,
    workspace_root: Seq<char>,
    worktree_root: Seq<char>,
    phase: WorkspacePhaseView,
    input: WorkspaceInput,
)
    ensures
        ({
            let repo_root = paths::join(style, workspace_root, job.repo_name@);
            let first = first_worktree_step(style, job, workspace_root);
            let step = next_worktree_step(style, job, worktree_root, phase, input);
            let common = workspace::next_workspace_step(
                style,
                dispatch_of(job),
                worktree_root,
                phase,
                input,
            );
            &&& first.0 == (WorkspacePhaseView::Inspecting {
                branch: job.branch_name@,
                base: job.base_branch@,
                repo_root,
            })
            &&& first.1 == (WorkspaceActionView::Inspect { repo_root })
            &&& step.0 == common.0
            &&& !(common.1 is WriteFile) ==> step.1 == common.1
            &&& common.1 is WriteFile ==> step.1 == (WorkspaceActionView::WriteFile {
                path: common.1->WriteFile_path,
                body: standalone::request_body(job),
            })
        }),
        dispatch_of(job).target_kind is Repository,
        dispatch_of(job).target_name == job.repo_name,
        dispatch_of(job).short_id == job.short_id,
        dispatch_of(job).branch_name == Some(job.branch_name),
        dispatch_of(job).base_branch == Some(job.base_branch),
        dispatch_of(job).prompt == job.request_text,
        dispatch_of(job).job_id == job.job_id,
        dispatch_of(job).thread_id == job.thread_id,
        dispatch_of(job).title == job.title,
{
}

/// Each event says in words what happened.
pub proof fn events_say_what_happened(
    job: RepositoryJob,
    device_id: Seq<char>,
    path: Seq<char>,
    active_job_id: Seq<char>,
    result: Seq<char>,
    summary: Seq<char>,
    now: Timestamp,
)
    ensures
        rejection(job, device_id, active_job_id, now).detail == Some(
            "edge device is already running active job "@ + active_job_id,
        ),
        acceptance(job, device_id, now).detail == Some("edge accepted dispatched job"@),
        announcement(job, device_id, path, now).detail == Some(
            "git worktree created for dispatched job"@,
        ),
        start(job, device_id, path, now).detail == Some("job execution started"@),
        approval_request(job, device_id, path, result, summary, now).detail == Some(
            "push remains gated behind explicit approval"@,
        ),
{
}

/// What is shown of a value is what it holds, field by field.
pub proof fn what_is_held_is_shown(
    repository_event: RepositoryEvent,
    register_repository_device: RegisterRepositoryDevice,
)
    ensures
        repository_event@.job_id == repository_event.job_id@,
        repository_event@.device_id == repository_event.device_id@,
        repository_event@.event_type == repository_event.event_type@,
        repository_event@.status == text::opt_text(repository_event.status),
        repository_event@.result == text::opt_text(repository_event.result),
        repository_event@.failure_class == text::opt_text(repository_event.failure_class),
        repository_event@.worktree_path == text::opt_text(repository_event.worktree_path),
        repository_event@.detail == text::opt_text(repository_event.detail),
        repository_event@.payload == (match repository_event.payload { Some(inner) => Some(inner@), None => None, }),
        repository_event@.created_at == repository_event.created_at,
        register_repository_device@.name == register_repository_device.name@,
        register_repository_device@.primary_flag == register_repository_device.primary_flag,
        register_repository_device@.allowed_repos == text::texts(register_repository_device.allowed_repos@),
        register_repository_device@.capabilities == text::texts(register_repository_device.capabilities@),
{
}

/// A device is registered as it is configured: under its name, as the primary one or not, with all
/// its repositories and all it can do.
pub proof fn registrations_repeat_the_configuration(config: EdgeConfig)
    ensures
        ({
            let request = registration_of(config);
            &&& request.name == config.device_name@
            &&& request.primary_flag == config.primary_flag
            &&& request.allowed_repos.len() == config.allowed_repos@.len()
            &&& forall|i: int|
                0 <= i < config.allowed_repos@.len() ==> request.allowed_repos[i] == (
                #[trigger] config.allowed_repos@[i])@
            &&& request.capabilities.len() == config.capabilities@.len()
            &&& forall|i: int|
                0 <= i < config.capabilities@.len() ==> request.capabilities[i] == (
                #[trigger] config.capabilities@[i])@
        }),
{
}

/// What is shown of a value is its kind and what it holds.
pub proof fn kinds_are_shown_with_what_they_hold(
    repository_payload: RepositoryPayload,
)
    ensures
        repository_payload matches RepositoryPayload::ActiveJob { active_job_id } ==> repository_payload@ == (RepositoryPayloadView::ActiveJob {
            active_job_id: active_job_id@,
        }),
        repository_payload matches RepositoryPayload::Target {
            repo_name,
            branch_name,
            base_branch,
        } ==> repository_payload@ == (RepositoryPayloadView::Target {
            repo_name: repo_name@,
            branch_name: branch_name@,
            base_branch: base_branch@,
        }),
        repository_payload matches RepositoryPayload::Completed {
            summary_markdown,
            execution_report,
        } ==> repository_payload@ == (RepositoryPayloadView::Completed {
            summary_markdown: summary_markdown@,
            execution_report: execution_report@,
        }),
        repository_payload matches RepositoryPayload::ApprovalRequest {
            action_type,
            summary,
        } ==> repository_payload@ == (RepositoryPayloadView::ApprovalRequest {
            action_type: action_type@,
            summary: summary@,
        }),
{
}

} // verus!
