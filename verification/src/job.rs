//! The life of a dispatched job: who may run, and which events report how far it has got.

use vstd::prelude::*;

use crate::contracts::{
    EventPayload, EventPayloadView, JobDispatchMessage, JobLifecycleEvent, JobLifecycleEventView,
    JobTargetKind,
};
use crate::error::EdgeError;
use crate::execution::{CommandOutcome, CommandOutcomeView};
use crate::sandbox;
use crate::text;
use crate::timestamp::Timestamp;

verus! {

/// The one place for an active job. A device runs at most one job at a time.
#[derive(Debug)]
pub struct JobSlot {
    active: Option<String>,
}

impl View for JobSlot {
    type V = Option<Seq<char>>;

    closed spec fn view(&self) -> Option<Seq<char>> {
        text::opt_text(self.active)
    }
}

/// The slot after a job tried to claim it: whoever holds it keeps it.
pub open spec fn claimed(slot: Option<Seq<char>>, job_id: Seq<char>) -> Option<Seq<char>> {
    match slot {
        Some(holder) => Some(holder),
        None => Some(job_id),
    }
}

/// The slot after a job gave it back: only its holder can.
pub open spec fn released(slot: Option<Seq<char>>, job_id: Seq<char>) -> Option<Seq<char>> {
    if slot == Some(job_id) {
        None
    } else {
        slot
    }
}

impl JobSlot {
    /// An idle slot.
    pub fn new() -> (slot: JobSlot)
        ensures
            slot@ is None,
    {
        JobSlot { active: None }
    }

    /// The active job.
    pub fn current(&self) -> (job_id: Option<String>)
        ensures
            text::opt_text(job_id) == self@,
    {
        text::copy_opt(&self.active)
    }

    /// Claims the slot for a new job. Where it is taken, whoever holds it, even the same job, keeps
    /// it and is returned.
    pub fn claim(&mut self, job_id: &str) -> (busy_with: Option<String>)
        ensures
            final(self)@ == claimed(old(self)@, job_id@),
            text::opt_text(busy_with) == old(self)@,
    {
        match &self.active {
            Some(holder) => Some(holder.clone()),
            None => {
                self.active = Some(job_id.to_owned());
                None
            },
        }
    }

    /// Claims the slot for a job that may hold it already. Says whether the job holds it now.
    pub fn wait_for_idle_slot(&mut self, next_job_id: &str) -> (holds: bool)
        ensures
            final(self)@ == claimed(old(self)@, next_job_id@),
            holds == (final(self)@ == Some(next_job_id@)),
    {
        match &self.active {
            Some(holder) => text::text_eq(holder, next_job_id),
            None => {
                self.active = Some(next_job_id.to_owned());
                true
            },
        }
    }

    /// Gives the slot back, if the job holds it.
    pub fn release(&mut self, job_id: &str)
        ensures
            final(self)@ == released(old(self)@, job_id@),
    {
        let holds = match &self.active {
            Some(holder) => text::text_eq(holder, job_id),
            None => false,
        };
        if holds {
            self.active = None;
        }
    }
}

/// A claim is undone by the release of the same job, and never takes the slot from another job.
pub proof fn claims_do_not_evict(slot: Option<Seq<char>>, job_id: Seq<char>, other: Seq<char>)
    ensures
        slot is None ==> claimed(slot, job_id) == Some(job_id) && released(
            claimed(slot, job_id),
            job_id,
        ) == slot,
        slot == Some(other) ==> claimed(slot, job_id) == Some(other),
        other != job_id && slot == Some(other) ==> released(slot, job_id) == slot,
        released(slot, job_id) != Some(job_id),
{
}

/// An event about a dispatched job.
pub open spec fn event_for(
    dispatch: JobDispatchMessage,
    device_id: Seq<char>,
    event_type: Seq<char>,
    status: Seq<char>,
    detail: Seq<char>,
    now: Timestamp,
) -> JobLifecycleEventView {
    JobLifecycleEventView {
        job_id: dispatch.job_id@,
        correlation_id: dispatch.correlation_id@,
        device_id,
        event_type,
        status: Some(status),
        result: None,
        failure_class: None,
        worktree_path: None,
        detail: Some(detail),
        payload: None,
        created_at: now,
    }
}

/// An event about a dispatched job.
fn new_event(
    dispatch: &JobDispatchMessage,
    device_id: &str,
    event_type: &str,
    status: &str,
    detail: String,
    now: Timestamp,
) -> (event: JobLifecycleEvent)
    ensures
        event@ == event_for(*dispatch, device_id@, event_type@, status@, detail@, now),
{
    JobLifecycleEvent {
        job_id: dispatch.job_id.clone(),
        correlation_id: dispatch.correlation_id.clone(),
        device_id: device_id.to_owned(),
        event_type: event_type.to_owned(),
        status: Some(status.to_owned()),
        result: None,
        failure_class: None,
        worktree_path: None,
        detail: Some(detail),
        payload: None,
        created_at: now,
    }
}

/// The event that turns a job away from a busy device.
pub open spec fn rejection(
    dispatch: JobDispatchMessage,
    device_id: Seq<char>,
    active_job_id: Seq<char>,
    now: Timestamp,
) -> JobLifecycleEventView {
    JobLifecycleEventView {
        payload: Some(EventPayloadView::ActiveJob { active_job_id }),
        ..event_for(
            dispatch,
            device_id,
            "job.rejected"@,
            "pending"@,
            "edge device is already running active job "@ + active_job_id,
            now,
        )
    }
}

/// The event that reports a job whose execution broke off.
pub open spec fn broken_off(
    dispatch: JobDispatchMessage,
    device_id: Seq<char>,
    message: Seq<char>,
    now: Timestamp,
) -> JobLifecycleEventView {
    JobLifecycleEventView {
        result: Some("failure"@),
        failure_class: Some("execution"@),
        ..event_for(dispatch, device_id, "job.failed"@, "failed"@, message, now)
    }
}

/// The contents of an optional event.
pub open spec fn opt_event(event: Option<JobLifecycleEvent>) -> Option<JobLifecycleEventView> {
    match event {
        Some(inner) => Some(inner@),
        None => None,
    }
}

/// Takes a dispatched job in, or turns it away. A job that is taken in holds the slot and is to be
/// run; for one that is turned away the event to publish is returned, and the slot is unchanged.
pub fn handle_job_dispatch(
    slot: &mut JobSlot,
    dispatch: &JobDispatchMessage,
    device_id: &str,
    now: Timestamp,
) -> (rejected: Option<JobLifecycleEvent>)
    ensures
        final(slot)@ == claimed(old(slot)@, dispatch.job_id@),
        opt_event(rejected) == (match old(slot)@ {
            Some(active) => Some(rejection(*dispatch, device_id@, active, now)),
            None => None,
        }),
{
    match slot.claim(&dispatch.job_id) {
        None => None,
        Some(active) => {
            let mut detail = "edge device is already running active job ".to_owned();
            detail.append(&active);
            let mut event = new_event(dispatch, device_id, "job.rejected", "pending", detail, now);
            event.payload = Some(EventPayload::ActiveJob { active_job_id: active });
            Some(event)
        },
    }
}

/// Ends a job that was taken in: the slot is given back, and where the execution broke off the
/// event to publish is returned.
pub fn finish_job_dispatch(
    slot: &mut JobSlot,
    dispatch: &JobDispatchMessage,
    device_id: &str,
    failure: &Option<EdgeError>,
    now: Timestamp,
) -> (failed: Option<JobLifecycleEvent>)
    ensures
        final(slot)@ == released(old(slot)@, dispatch.job_id@),
        opt_event(failed) == (match *failure {
            Some(error) => Some(broken_off(*dispatch, device_id@, error@, now)),
            None => None,
        }),
{
    slot.release(&dispatch.job_id);
    match failure {
        None => None,
        Some(error) => {
            let mut event = new_event(
                dispatch,
                device_id,
                "job.failed",
                "failed",
                error.to_text(),
                now,
            );
            event.result = Some("failure".to_owned());
            event.failure_class = Some("execution".to_owned());
            Some(event)
        },
    }
}

/// What the execution of a job waits for.
#[derive(Clone, Debug, PartialEq, Eq)]
pub enum JobPhase {
    /// The acceptance is being published.
    Accepting,
    /// The workspace is being created.
    Preparing,
    /// The worktree is being announced.
    Announcing { path: String },
    /// The start is being published.
    Starting { path: String },
    /// The runner is at work.
    Running { path: String },
    /// The completion is being published.
    Completing { path: String, result: String, failure_class: Option<String>, approval_summary: Option<String> },
    /// The request for approval is being published.
    RequestingApproval,
    /// The failure of the runner is being published.
    ReportingFailure,
    /// Nothing: the execution has ended.
    Ended,
}

/// The contents of a [`JobPhase`].
pub enum JobPhaseView {
    Accepting,
    Preparing,
    Announcing { path: Seq<char> },
    Starting { path: Seq<char> },
    Running { path: Seq<char> },
    Completing { path: Seq<char>, result: Seq<char>, failure_class: Option<Seq<char>>, approval_summary: Option<Seq<char>> },
    RequestingApproval,
    ReportingFailure,
    Ended,
}

impl View for JobPhase {
    type V = JobPhaseView;

    open spec fn view(&self) -> JobPhaseView {
        match *self {
            JobPhase::Accepting => JobPhaseView::Accepting,
            JobPhase::Preparing => JobPhaseView::Preparing,
            JobPhase::Announcing { path } => JobPhaseView::Announcing {
                path: path@,
            },
            JobPhase::Starting { path } => JobPhaseView::Starting {
                path: path@,
            },
            JobPhase::Running { path } => JobPhaseView::Running {
                path: path@,
            },
            JobPhase::Completing { path, result, failure_class, approval_summary } => JobPhaseView::Completing {
                path: path@,
                result: result@,
                failure_class: text::opt_text(failure_class),
                approval_summary: text::opt_text(approval_summary),
            },
            JobPhase::RequestingApproval => JobPhaseView::RequestingApproval,
            JobPhase::ReportingFailure => JobPhaseView::ReportingFailure,
            JobPhase::Ended => JobPhaseView::Ended,
        }
    }
}

/// What is to be done next for a job.
#[derive(Clone, Debug, PartialEq, Eq)]
pub enum JobAction {
    /// An event is to be published.
    Publish { event: JobLifecycleEvent },
    /// The workspace is to be created.
    CreateWorkspace,
    /// The runner is to be started in the workspace.
    Run { path: String },
    /// The execution has ended.
    Finish,
    /// The execution has broken off.
    BreakOff { error: String },
    /// Nothing: what was reported is not what the job waits for.
    Wait,
}

/// The contents of a [`JobAction`].
pub enum JobActionView {
    Publish { event: JobLifecycleEventView },
    CreateWorkspace,
    Run { path: Seq<char> },
    Finish,
    BreakOff { error: Seq<char> },
    Wait,
}

impl View for JobAction {
    type V = JobActionView;

    open spec fn view(&self) -> JobActionView {
        match *self {
            JobAction::Publish { event } => JobActionView::Publish {
                event: event@,
            },
            JobAction::CreateWorkspace => JobActionView::CreateWorkspace,
            JobAction::Run { path } => JobActionView::Run {
                path: path@,
            },
            JobAction::Finish => JobActionView::Finish,
            JobAction::BreakOff { error } => JobActionView::BreakOff {
                error: error@,
            },
            JobAction::Wait => JobActionView::Wait,
        }
    }
}

/// What was done for a job.
pub enum JobInput {
    /// The event was published.
    Published,
    /// The event could not be published.
    NotPublished { error: EdgeError },
    /// The workspace is ready.
    WorkspaceReady { path: String },
    /// The workspace could not be created.
    WorkspaceFailed { error: EdgeError },
    /// The runner has come to an outcome.
    RunFinished { outcome: CommandOutcome },
    /// The runner failed.
    RunFailed { error: EdgeError },
}

/// The event that reports that a job was accepted.
pub open spec fn acceptance(
    dispatch: JobDispatchMessage,
    device_id: Seq<char>,
    now: Timestamp,
) -> JobLifecycleEventView {
    JobLifecycleEventView {
        payload: Some(target_payload(dispatch)),
        ..event_for(
            dispatch,
            device_id,
            "job.accepted"@,
            "accepted"@,
            "edge accepted dispatched job"@,
            now,
        )
    }
}

/// What a job is aimed at.
pub open spec fn target_payload(dispatch: JobDispatchMessage) -> EventPayloadView {
    EventPayloadView::Target {
        target_kind: dispatch.target_kind,
        target_name: dispatch.target_name@,
        branch_name: text::opt_text(dispatch.branch_name),
        base_branch: text::opt_text(dispatch.base_branch),
    }
}

/// The path that is reported for a workspace: only a worktree of a repository has one.
pub open spec fn reported_path(dispatch: JobDispatchMessage, path: Seq<char>) -> Option<Seq<char>> {
    if dispatch.target_kind is Repository {
        Some(path)
    } else {
        None
    }
}

/// The event that announces a worktree.
pub open spec fn announcement(
    dispatch: JobDispatchMessage,
    device_id: Seq<char>,
    path: Seq<char>,
    now: Timestamp,
) -> JobLifecycleEventView {
    JobLifecycleEventView {
        worktree_path: reported_path(dispatch, path),
        payload: Some(target_payload(dispatch)),
        ..event_for(
            dispatch,
            device_id,
            "job.worktree_created"@,
            "accepted"@,
            "git worktree created for dispatched job"@,
            now,
        )
    }
}

/// The event that reports that a job has started.
pub open spec fn start(
    dispatch: JobDispatchMessage,
    device_id: Seq<char>,
    path: Seq<char>,
    now: Timestamp,
) -> JobLifecycleEventView {
    JobLifecycleEventView {
        worktree_path: reported_path(dispatch, path),
        ..event_for(
            dispatch,
            device_id,
            "job.started"@,
            "running"@,
            "job execution started"@,
            now,
        )
    }
}

/// The event that reports that the runner of a job failed.
pub open spec fn runner_failure(
    dispatch: JobDispatchMessage,
    device_id: Seq<char>,
    path: Seq<char>,
    message: Seq<char>,
    now: Timestamp,
) -> JobLifecycleEventView {
    JobLifecycleEventView {
        result: Some("failure"@),
        failure_class: Some(sandbox::failure_of(message).0),
        worktree_path: reported_path(dispatch, path),
        ..event_for(
            dispatch,
            device_id,
            "job.failed"@,
            "failed"@,
            sandbox::failure_of(message).1,
            now,
        )
    }
}

/// The event that reports how a job ended.
pub open spec fn completion(
    dispatch: JobDispatchMessage,
    device_id: Seq<char>,
    path: Seq<char>,
    outcome: CommandOutcomeView,
    now: Timestamp,
) -> JobLifecycleEventView {
    JobLifecycleEventView {
        result: Some(outcome.result),
        failure_class: outcome.failure_class,
        worktree_path: reported_path(dispatch, path),
        payload: Some(
            EventPayloadView::Completed {
                summary_markdown: outcome.summary_markdown,
                execution_report: outcome.execution_report,
                push_required: outcome.approval_summary is Some,
            },
        ),
        ..event_for(dispatch, device_id, "job.completed"@, "completed"@, outcome.detail, now)
    }
}

/// The event that asks for the approval of a push.
pub open spec fn approval_request(
    dispatch: JobDispatchMessage,
    device_id: Seq<char>,
    path: Seq<char>,
    result: Seq<char>,
    failure_class: Option<Seq<char>>,
    summary: Seq<char>,
    now: Timestamp,
) -> JobLifecycleEventView {
    JobLifecycleEventView {
        result: Some(result),
        failure_class,
        worktree_path: reported_path(dispatch, path),
        payload: Some(EventPayloadView::ApprovalRequest { action_type: "push"@, summary }),
        ..event_for(
            dispatch,
            device_id,
            "job.awaiting_approval"@,
            "awaiting_approval"@,
            "push remains gated behind explicit approval"@,
            now,
        )
    }
}

/// The first step of a job that was taken in: its acceptance is published.
pub fn run_job_execution(dispatch: &JobDispatchMessage, device_id: &str, now: Timestamp) -> (step: (
    JobPhase,
    JobAction,
))
    ensures
        (step.0@, step.1@) == first_step(*dispatch, device_id@, now),
{
    let mut event = new_event(
        dispatch,
        device_id,
        "job.accepted",
        "accepted",
        "edge accepted dispatched job".to_owned(),
        now,
    );
    event.payload = Some(target_of(dispatch));
    (JobPhase::Accepting, JobAction::Publish { event })
}

/// The first step of a job that was taken in.
pub open spec fn first_step(
    dispatch: JobDispatchMessage,
    device_id: Seq<char>,
    now: Timestamp,
) -> (JobPhaseView, JobActionView) {
    (
        JobPhaseView::Accepting,
        JobActionView::Publish { event: acceptance(dispatch, device_id, now) },
    )
}

/// A phase in which an event is being published.
pub open spec fn is_publishing(phase: JobPhaseView) -> bool {
    match phase {
        JobPhaseView::Preparing => false,
        JobPhaseView::Running { .. } => false,
        JobPhaseView::Ended => false,
        _ => true,
    }
}

/// The step that follows the publication of a phase's event.
pub open spec fn after_publishing(
    dispatch: JobDispatchMessage,
    device_id: Seq<char>,
    phase: JobPhaseView,
    now: Timestamp,
) -> (JobPhaseView, JobActionView) {
    match phase {
        JobPhaseView::Accepting => (JobPhaseView::Preparing, JobActionView::CreateWorkspace),
        JobPhaseView::Announcing { path } => (
            JobPhaseView::Starting { path },
            JobActionView::Publish { event: start(dispatch, device_id, path, now) },
        ),
        JobPhaseView::Starting { path } => (
            JobPhaseView::Running { path },
            JobActionView::Run { path },
        ),
        JobPhaseView::Completing { path, result, failure_class, approval_summary } =>
            match approval_summary {
                Some(summary) => (
                    JobPhaseView::RequestingApproval,
                    JobActionView::Publish {
                        event: approval_request(
                            dispatch,
                            device_id,
                            path,
                            result,
                            failure_class,
                            summary,
                            now,
                        ),
                    },
                ),
                None => (JobPhaseView::Ended, JobActionView::Finish),
            },
        _ => (JobPhaseView::Ended, JobActionView::Finish),
    }
}

/// The step that follows what was done for a job.
pub open spec fn next_step(
    dispatch: JobDispatchMessage,
    device_id: Seq<char>,
    phase: JobPhaseView,
    input: JobInput,
    now: Timestamp,
) -> (JobPhaseView, JobActionView) {
    match input {
        JobInput::Published => if is_publishing(phase) {
            after_publishing(dispatch, device_id, phase, now)
        } else {
            (phase, JobActionView::Wait)
        },
        JobInput::NotPublished { error } => if is_publishing(phase) {
            (JobPhaseView::Ended, JobActionView::BreakOff { error: error@ })
        } else {
            (phase, JobActionView::Wait)
        },
        JobInput::WorkspaceReady { path } => match phase {
            JobPhaseView::Preparing => if dispatch.target_kind is Repository {
                (
                    JobPhaseView::Announcing { path: path@ },
                    JobActionView::Publish { event: announcement(dispatch, device_id, path@, now) },
                )
            } else {
                (
                    JobPhaseView::Starting { path: path@ },
                    JobActionView::Publish { event: start(dispatch, device_id, path@, now) },
                )
            },
            _ => (phase, JobActionView::Wait),
        },
        JobInput::WorkspaceFailed { error } => match phase {
            JobPhaseView::Preparing => (
                JobPhaseView::Ended,
                JobActionView::BreakOff { error: error@ },
            ),
            _ => (phase, JobActionView::Wait),
        },
        JobInput::RunFinished { outcome } => match phase {
            JobPhaseView::Running { path } => (
                JobPhaseView::Completing {
                    path,
                    result: outcome@.result,
                    failure_class: outcome@.failure_class,
                    approval_summary: outcome@.approval_summary,
                },
                JobActionView::Publish { event: completion(dispatch, device_id, path, outcome@, now) },
            ),
            _ => (phase, JobActionView::Wait),
        },
        JobInput::RunFailed { error } => match phase {
            JobPhaseView::Running { path } => (
                JobPhaseView::ReportingFailure,
                JobActionView::Publish {
                    event: runner_failure(dispatch, device_id, path, error@, now),
                },
            ),
            _ => (phase, JobActionView::Wait),
        },
    }
}

/// What a job is aimed at.
fn target_of(dispatch: &JobDispatchMessage) -> (payload: EventPayload)
    ensures
        payload@ == target_payload(*dispatch),
{
    EventPayload::Target {
        target_kind: dispatch.target_kind,
        target_name: dispatch.target_name().to_owned(),
        branch_name: text::copy_opt(&dispatch.branch_name),
        base_branch: text::copy_opt(&dispatch.base_branch),
    }
}

/// The path that is reported for a workspace.
fn path_to_report(dispatch: &JobDispatchMessage, path: &str) -> (out: Option<String>)
    ensures
        text::opt_text(out) == reported_path(*dispatch, path@),
{
    match dispatch.target_kind {
        JobTargetKind::Repository => Some(path.to_owned()),
        JobTargetKind::Capability => None,
    }
}

/// The event that reports that a job has started.
fn start_event(
    dispatch: &JobDispatchMessage,
    device_id: &str,
    path: &str,
    now: Timestamp,
) -> (event: JobLifecycleEvent)
    ensures
        event@ == start(*dispatch, device_id@, path@, now),
{
    let mut event = new_event(
        dispatch,
        device_id,
        "job.started",
        "running",
        "job execution started".to_owned(),
        now,
    );
    event.worktree_path = path_to_report(dispatch, path);
    event
}

/// The step that follows the publication of a phase's event.
fn step_after_publishing(
    dispatch: &JobDispatchMessage,
    device_id: &str,
    phase: JobPhase,
    now: Timestamp,
) -> (step: (JobPhase, JobAction))
    requires
        is_publishing(phase@),
    ensures
        (step.0@, step.1@) == after_publishing(*dispatch, device_id@, phase@, now),
{
    match phase {
        JobPhase::Accepting => (JobPhase::Preparing, JobAction::CreateWorkspace),
        JobPhase::Announcing { path } => {
            let event = start_event(dispatch, device_id, &path, now);
            (JobPhase::Starting { path }, JobAction::Publish { event })
        },
        JobPhase::Starting { path } => {
            let again = path.clone();
            (JobPhase::Running { path }, JobAction::Run { path: again })
        },
        JobPhase::Completing { path, result, failure_class, approval_summary } => {
            match approval_summary {
                Some(summary) => {
                    let mut event = new_event(
                        dispatch,
                        device_id,
                        "job.awaiting_approval",
                        "awaiting_approval",
                        "push remains gated behind explicit approval".to_owned(),
                        now,
                    );
                    event.result = Some(result);
                    event.failure_class = failure_class;
                    event.worktree_path = path_to_report(dispatch, &path);
                    event.payload = Some(
                        EventPayload::ApprovalRequest { action_type: "push".to_owned(), summary },
                    );
                    (JobPhase::RequestingApproval, JobAction::Publish { event })
                },
                None => (JobPhase::Ended, JobAction::Finish),
            }
        },
        _ => (JobPhase::Ended, JobAction::Finish),
    }
}

/// Whether an event is being published in a phase.
fn publishing(phase: &JobPhase) -> (yes: bool)
    ensures
        yes == is_publishing(phase@),
{
    match phase {
        JobPhase::Preparing => false,
        JobPhase::Running { .. } => false,
        JobPhase::Ended => false,
        _ => true,
    }
}

/// The step that follows what was done for a job.
pub fn advance_job(
    dispatch: &JobDispatchMessage,
    device_id: &str,
    phase: JobPhase,
    input: JobInput,
    now: Timestamp,
) -> (step: (JobPhase, JobAction))
    ensures
        (step.0@, step.1@) == next_step(*dispatch, device_id@, phase@, input, now),
{
    match input {
        JobInput::Published => if publishing(&phase) {
            step_after_publishing(dispatch, device_id, phase, now)
        } else {
            (phase, JobAction::Wait)
        },
        JobInput::NotPublished { error } => if publishing(&phase) {
            (JobPhase::Ended, JobAction::BreakOff { error: error.message })
        } else {
            (phase, JobAction::Wait)
        },
        JobInput::WorkspaceReady { path } => match phase {
            JobPhase::Preparing => match dispatch.target_kind {
                JobTargetKind::Repository => {
                    let mut event = new_event(
                        dispatch,
                        device_id,
                        "job.worktree_created",
                        "accepted",
                        "git worktree created for dispatched job".to_owned(),
                        now,
                    );
                    event.worktree_path = path_to_report(dispatch, &path);
                    event.payload = Some(target_of(dispatch));
                    (JobPhase::Announcing { path }, JobAction::Publish { event })
                },
                JobTargetKind::Capability => {
                    let event = start_event(dispatch, device_id, &path, now);
                    (JobPhase::Starting { path }, JobAction::Publish { event })
                },
            },
            other => (other, JobAction::Wait),
        },
        JobInput::WorkspaceFailed { error } => match phase {
            JobPhase::Preparing => (JobPhase::Ended, JobAction::BreakOff { error: error.message }),
            other => (other, JobAction::Wait),
        },
        JobInput::RunFinished { outcome } => match phase {
            JobPhase::Running { path } => {
                let mut event = new_event(
                    dispatch,
                    device_id,
                    "job.completed",
                    "completed",
                    outcome.detail,
                    now,
                );
                let push_required = match &outcome.approval_summary {
                    Some(_) => true,
                    None => false,
                };
                event.result = Some(outcome.result.clone());
                event.failure_class = text::copy_opt(&outcome.failure_class);
                event.worktree_path = path_to_report(dispatch, &path);
                event.payload = Some(
                    EventPayload::Completed {
                        summary_markdown: outcome.summary_markdown,
                        execution_report: outcome.execution_report,
                        push_required,
                    },
                );
                (
                    JobPhase::Completing {
                        path,
                        result: outcome.result,
                        failure_class: outcome.failure_class,
                        approval_summary: outcome.approval_summary,
                    },
                    JobAction::Publish { event },
                )
            },
            other => (other, JobAction::Wait),
        },
        JobInput::RunFailed { error } => match phase {
            JobPhase::Running { path } => {
                let (failure_class, detail) = sandbox::classify_failure(&error);
                let mut event = new_event(dispatch, device_id, "job.failed", "failed", detail, now);
                event.result = Some("failure".to_owned());
                event.failure_class = Some(failure_class);
                event.worktree_path = path_to_report(dispatch, &path);
                (JobPhase::ReportingFailure, JobAction::Publish { event })
            },
            other => (other, JobAction::Wait),
        },
    }
}

/// The types of the events that a job publishes from a step on, while it is told what was done,
/// each time at another point in time.
pub open spec fn published_types(
    dispatch: JobDispatchMessage,
    device_id: Seq<char>,
    step: (JobPhaseView, JobActionView),
    inputs: Seq<JobInput>,
    times: Seq<Timestamp>,
) -> Seq<Seq<char>>
    decreases inputs.len(),
{
    let here = match step.1 {
        JobActionView::Publish { event } => seq![event.event_type],
        _ => Seq::<Seq<char>>::empty(),
    };
    if inputs.len() == 0 {
        here
    } else {
        here + published_types(
            dispatch,
            device_id,
            next_step(dispatch, device_id, step.0, inputs[0], times[0]),
            inputs.drop_first(),
            times.drop_first(),
        )
    }
}

/// The step that a job comes to from another, while it is told what was done, each time at another
/// point in time.
pub open spec fn step_reached(
    dispatch: JobDispatchMessage,
    device_id: Seq<char>,
    step: (JobPhaseView, JobActionView),
    inputs: Seq<JobInput>,
    times: Seq<Timestamp>,
) -> (JobPhaseView, JobActionView)
    decreases inputs.len(),
{
    if inputs.len() == 0 {
        step
    } else {
        step_reached(
            dispatch,
            device_id,
            next_step(dispatch, device_id, step.0, inputs[0], times[0]),
            inputs.drop_first(),
            times.drop_first(),
        )
    }
}

/// What is done for a job where every event can be published and the workspace can be created.
pub open spec fn undisturbed_inputs(
    dispatch: JobDispatchMessage,
    path: String,
    run: Result<CommandOutcome, EdgeError>,
) -> Seq<JobInput> {
    let prepared = seq![JobInput::Published, JobInput::WorkspaceReady { path }];
    let announced = if dispatch.target_kind is Repository {
        prepared + seq![JobInput::Published]
    } else {
        prepared
    };
    announced + match run {
        Ok(outcome) => if outcome.approval_summary is Some {
            seq![
                JobInput::Published,
                JobInput::RunFinished { outcome },
                JobInput::Published,
                JobInput::Published,
            ]
        } else {
            seq![JobInput::Published, JobInput::RunFinished { outcome }, JobInput::Published]
        },
        Err(error) => seq![
            JobInput::Published,
            JobInput::RunFailed { error },
            JobInput::Published,
        ],
    }
}

/// The events of a job that is not disturbed, in order.
pub open spec fn life_of_a_job(
    dispatch: JobDispatchMessage,
    run: Result<CommandOutcome, EdgeError>,
) -> Seq<Seq<char>> {
    let accepted = seq!["job.accepted"@];
    let announced = if dispatch.target_kind is Repository {
        accepted + seq!["job.worktree_created"@]
    } else {
        accepted
    };
    announced + seq!["job.started"@] + match run {
        Err(_) => seq!["job.failed"@],
        Ok(outcome) => if outcome.approval_summary is Some {
            seq!["job.completed"@, "job.awaiting_approval"@]
        } else {
            seq!["job.completed"@]
        },
    }
}

/// A job that is not disturbed reports its acceptance, its worktree where it has one, its start,
/// and then either the failure of the runner or its completion; approval of a push is asked for
/// last, and only where the outcome asks for it. With that the job has come to its end, whenever
/// each of its steps was taken.
pub proof fn undisturbed_jobs_report_their_whole_life(
    dispatch: JobDispatchMessage,
    device_id: Seq<char>,
    path: String,
    run: Result<CommandOutcome, EdgeError>,
    start: Timestamp,
    times: Seq<Timestamp>,
)
    requires
        times.len() == undisturbed_inputs(dispatch, path, run).len(),
    ensures
        published_types(
            dispatch,
            device_id,
            first_step(dispatch, device_id, start),
            undisturbed_inputs(dispatch, path, run),
            times,
        ) == life_of_a_job(dispatch, run),
        step_reached(
            dispatch,
            device_id,
            first_step(dispatch, device_id, start),
            undisturbed_inputs(dispatch, path, run),
            times,
        ) == (JobPhaseView::Ended, JobActionView::Finish),
{
    reveal_with_fuel(published_types, 8);
    reveal_with_fuel(step_reached, 8);
    let inputs = undisturbed_inputs(dispatch, path, run);
    let first = first_step(dispatch, device_id, start);
    let all = published_types(dispatch, device_id, first, inputs, times);
    assert(all =~= life_of_a_job(dispatch, run));
}

/// The completion of a job announces a push exactly where the approval of one is asked for next,
/// and only a completion is followed by such a request.
pub proof fn approval_follows_an_announced_push(
    dispatch: JobDispatchMessage,
    device_id: Seq<char>,
    phase: JobPhaseView,
    outcome: CommandOutcome,
    now: Timestamp,
    later: Timestamp,
)
    requires
        phase is Running,
    ensures
        ({
            let (next, action) = next_step(
                dispatch,
                device_id,
                phase,
                JobInput::RunFinished { outcome },
                now,
            );
            let (after, reply) = next_step(dispatch, device_id, next, JobInput::Published, later);
            &&& action matches JobActionView::Publish { event }
            &&& event.payload matches Some(EventPayloadView::Completed { push_required, .. })
            &&& push_required <==> after is RequestingApproval
            &&& push_required <==> reply is Publish
        }),
{
}

/// A job that broke off or came to its end does nothing any more.
pub proof fn ended_jobs_stay_ended(
    dispatch: JobDispatchMessage,
    device_id: Seq<char>,
    input: JobInput,
    now: Timestamp,
)
    ensures
        next_step(dispatch, device_id, JobPhaseView::Ended, input, now) == (
            JobPhaseView::Ended,
            JobActionView::Wait,
        ),
{
}

/// Every event that a job publishes tells which job it is about, on which device and when, and has
/// something to say.
pub proof fn events_tell_what_they_are_about(
    dispatch: JobDispatchMessage,
    device_id: Seq<char>,
    phase: JobPhaseView,
    input: JobInput,
    active_job_id: Seq<char>,
    message: Seq<char>,
    now: Timestamp,
)
    ensures
        forall|event: JobLifecycleEventView|
            {
                ||| first_step(dispatch, device_id, now).1 == (JobActionView::Publish { event })
                ||| next_step(dispatch, device_id, phase, input, now).1 == (JobActionView::Publish {
                    event,
                })
                ||| event == rejection(dispatch, device_id, active_job_id, now)
                ||| event == broken_off(dispatch, device_id, message, now)
            } ==> {
                &&& #[trigger] event.job_id == dispatch.job_id@
                &&& event.correlation_id == dispatch.correlation_id@
                &&& event.device_id == device_id
                &&& event.created_at == now
                &&& event.status is Some
                &&& event.detail is Some
            },
{
}

/// The completion of a job reports exactly the outcome of its run, and nothing of it is lost: the
/// result, the class of a failure, the detail, the summary and the report. It says that a push is
/// required exactly where the outcome asks for the approval of one.
pub proof fn completions_carry_the_outcome(
    dispatch: JobDispatchMessage,
    device_id: Seq<char>,
    path: Seq<char>,
    outcome: CommandOutcome,
    now: Timestamp,
)
    ensures
        ({
            let (next, action) = next_step(
                dispatch,
                device_id,
                JobPhaseView::Running { path },
                JobInput::RunFinished { outcome },
                now,
            );
            &&& action matches JobActionView::Publish { event }
            &&& event.event_type == "job.completed"@
            &&& event.status == Some("completed"@)
            &&& event.result == Some(outcome.result@)
            &&& event.failure_class is Some <==> outcome.failure_class is Some
            &&& outcome.failure_class matches Some(class) ==> event.failure_class == Some(class@)
            &&& event.detail == Some(outcome.detail@)
            &&& event.worktree_path == if dispatch.target_kind is Repository {
                Some(path)
            } else {
                None
            }
            &&& event.payload matches Some(
                EventPayloadView::Completed { summary_markdown, execution_report, push_required },
            )
            &&& summary_markdown == outcome.summary_markdown@
            &&& execution_report == outcome.execution_report@
            &&& push_required <==> outcome.approval_summary is Some
        }),
{
}

/// The request for the approval of a push repeats what the completion before it reported, and asks
/// the question that the outcome asks, word for word. Where the outcome asks nothing, the job ends
/// with its completion.
pub proof fn approval_requests_repeat_the_outcome(
    dispatch: JobDispatchMessage,
    device_id: Seq<char>,
    path: Seq<char>,
    outcome: CommandOutcome,
    now: Timestamp,
    later: Timestamp,
)
    ensures
        ({
            let (completing, first) = next_step(
                dispatch,
                device_id,
                JobPhaseView::Running { path },
                JobInput::RunFinished { outcome },
                now,
            );
            let (after, second) = next_step(
                dispatch,
                device_id,
                completing,
                JobInput::Published,
                later,
            );
            match outcome.approval_summary {
                Some(question) => {
                    &&& first matches JobActionView::Publish { event: done }
                    &&& second matches JobActionView::Publish { event: asked }
                    &&& asked.event_type == "job.awaiting_approval"@
                    &&& asked.status == Some("awaiting_approval"@)
                    &&& asked.result == done.result
                    &&& asked.failure_class == done.failure_class
                    &&& asked.worktree_path == done.worktree_path
                    &&& asked.payload matches Some(
                        EventPayloadView::ApprovalRequest { action_type, summary },
                    )
                    &&& action_type == "push"@
                    &&& summary == question@
                },
                None => second is Finish && after is Ended,
            }
        }),
{
}

/// A runner that fails makes the job fail: the event says so, with the detail of the error, and the
/// class tells a violation of the sandbox from any other failure. An execution that breaks off is
/// a failure of the execution, reported with its message.
pub proof fn failures_are_reported_as_failures(
    dispatch: JobDispatchMessage,
    device_id: Seq<char>,
    path: Seq<char>,
    error: EdgeError,
    now: Timestamp,
)
    ensures
        ({
            let (next, action) = next_step(
                dispatch,
                device_id,
                JobPhaseView::Running { path },
                JobInput::RunFailed { error },
                now,
            );
            let blocked = sandbox::SANDBOX_ERROR_PREFIX@.is_prefix_of(error@);
            &&& action matches JobActionView::Publish { event }
            &&& event.event_type == "job.failed"@
            &&& event.status == Some("failed"@)
            &&& event.result == Some("failure"@)
            &&& event.failure_class == Some(
                if blocked {
                    "sandbox"@
                } else {
                    "execution"@
                },
            )
            &&& event.detail matches Some(detail)
            &&& blocked ==> sandbox::SANDBOX_ERROR_PREFIX@ + detail == error@
            &&& !blocked ==> detail == error@
            &&& event.worktree_path == if dispatch.target_kind is Repository {
                Some(path)
            } else {
                None
            }
        }),
        ({
            let event = broken_off(dispatch, device_id, error@, now);
            &&& event.event_type == "job.failed"@
            &&& event.status == Some("failed"@)
            &&& event.result == Some("failure"@)
            &&& event.failure_class == Some("execution"@)
            &&& event.detail == Some(error@)
            &&& event.worktree_path is None
        }),
{
    let prefix = sandbox::SANDBOX_ERROR_PREFIX@;
    if prefix.is_prefix_of(error@) {
        assert(prefix + error@.skip(prefix.len() as int) =~= error@);
    }
}

/// A job that is turned away is told which job keeps the device busy, and stays pending.
pub proof fn rejections_name_the_active_job(
    dispatch: JobDispatchMessage,
    device_id: Seq<char>,
    active: Seq<char>,
    now: Timestamp,
)
    ensures
        ({
            let event = rejection(dispatch, device_id, active, now);
            &&& event.event_type == "job.rejected"@
            &&& event.status == Some("pending"@)
            &&& event.result is None
            &&& event.failure_class is None
            &&& event.payload == Some(EventPayloadView::ActiveJob { active_job_id: active })
            &&& event.detail matches Some(detail) && active.is_suffix_of(detail)
        }),
{
    let event = rejection(dispatch, device_id, active, now);
    let detail = event.detail->0;
    assert(detail.subrange(detail.len() - active.len(), detail.len() as int) =~= active);
}

/// A job is run where its workspace was made: the path that was reported as ready is the one that
/// is announced, started and run in, and nothing else happens to it on the way. Only a repository
/// has a worktree to announce.
pub proof fn jobs_run_in_their_workspace(
    dispatch: JobDispatchMessage,
    device_id: Seq<char>,
    path: String,
    times: Seq<Timestamp>,
)
    requires
        times.len() == 4,
    ensures
        ({
            let (accepting, accepted) = first_step(dispatch, device_id, times[0]);
            let (preparing, prepare) = next_step(
                dispatch,
                device_id,
                accepting,
                JobInput::Published,
                times[0],
            );
            let (ready, announced) = next_step(
                dispatch,
                device_id,
                preparing,
                JobInput::WorkspaceReady { path },
                times[1],
            );
            let (starting, started) = if dispatch.target_kind is Repository {
                next_step(dispatch, device_id, ready, JobInput::Published, times[2])
            } else {
                (ready, announced)
            };
            let (running, run) = next_step(
                dispatch,
                device_id,
                starting,
                JobInput::Published,
                times[3],
            );
            &&& accepted matches JobActionView::Publish { event: acceptance }
            &&& acceptance.event_type == "job.accepted"@
            &&& acceptance.status == Some("accepted"@)
            &&& aims_at(acceptance.payload, dispatch)
            &&& prepare is CreateWorkspace
            &&& announced matches JobActionView::Publish { event: worktree }
            &&& dispatch.target_kind is Repository ==> {
                &&& worktree.event_type == "job.worktree_created"@
                &&& worktree.status == Some("accepted"@)
                &&& worktree.worktree_path == Some(path@)
                &&& aims_at(worktree.payload, dispatch)
            }
            &&& started matches JobActionView::Publish { event: start }
            &&& start.event_type == "job.started"@
            &&& start.status == Some("running"@)
            &&& start.worktree_path == if dispatch.target_kind is Repository {
                Some(path@)
            } else {
                None
            }
            &&& run matches JobActionView::Run { path: place }
            &&& place == path@
            &&& running == JobPhaseView::Running { path: path@ }
        }),
{
}

/// A payload that says what a job is aimed at.
pub open spec fn aims_at(payload: Option<EventPayloadView>, dispatch: JobDispatchMessage) -> bool {
    &&& payload matches Some(
        EventPayloadView::Target { target_kind, target_name, branch_name, base_branch },
    )
    &&& target_kind == dispatch.target_kind
    &&& target_name == dispatch.target_name@
    &&& branch_name is Some <==> dispatch.branch_name is Some
    &&& dispatch.branch_name matches Some(branch) ==> branch_name == Some(branch@)
    &&& base_branch is Some <==> dispatch.base_branch is Some
    &&& dispatch.base_branch matches Some(branch) ==> base_branch == Some(branch@)
}

/// An event that cannot be published, or a workspace that cannot be made, breaks a job off with the
/// error that was met. What a job does not wait for changes nothing.
pub proof fn disturbed_jobs_break_off(
    dispatch: JobDispatchMessage,
    device_id: Seq<char>,
    phase: JobPhaseView,
    input: JobInput,
    now: Timestamp,
)
    ensures
        ({
            let (next, action) = next_step(dispatch, device_id, phase, input, now);
            &&& input matches JobInput::NotPublished { error } ==> {
                if phase is Preparing || phase is Running || phase is Ended {
                    action is Wait
                } else {
                    next is Ended && action == (JobActionView::BreakOff { error: error@ })
                }
            }
            &&& input matches JobInput::WorkspaceFailed { error } ==> {
                if phase is Preparing {
                    next is Ended && action == (JobActionView::BreakOff { error: error@ })
                } else {
                    action is Wait
                }
            }
            &&& input is WorkspaceReady && !(phase is Preparing) ==> action is Wait
            &&& input is RunFinished && !(phase is Running) ==> action is Wait
            &&& input is RunFailed && !(phase is Running) ==> action is Wait
            &&& action is Wait ==> next == phase
            &&& action is Finish || action is BreakOff ==> next is Ended
            &&& action is Finish ==> input is Published
            &&& action is CreateWorkspace <==> phase is Accepting && input is Published
            &&& action is Run <==> phase is Starting && input is Published
        }),
{
}

/// Each event says in words what happened.
pub proof fn events_say_what_happened(
    dispatch: JobDispatchMessage,
    device_id: Seq<char>,
    path: Seq<char>,
    active_job_id: Seq<char>,
    result: Seq<char>,
    failure_class: Option<Seq<char>>,
    summary: Seq<char>,
    now: Timestamp,
)
    ensures
        rejection(dispatch, device_id, active_job_id, now).detail == Some(
            "edge device is already running active job "@ + active_job_id,
        ),
        acceptance(dispatch, device_id, now).detail == Some("edge accepted dispatched job"@),
        announcement(dispatch, device_id, path, now).detail == Some(
            "git worktree created for dispatched job"@,
        ),
        start(dispatch, device_id, path, now).detail == Some("job execution started"@),
        approval_request(
            dispatch,
            device_id,
            path,
            result,
            failure_class,
            summary,
            now,
        ).detail == Some("push remains gated behind explicit approval"@),
{
}

/// A job that ends gives its own slot back, and no other's.
pub proof fn jobs_give_back_their_own_slot(job_id: Seq<char>, other: Seq<char>)
    ensures
        claimed(None, job_id) == Some(job_id),
        claimed(Some(other), job_id) == Some(other),
        released(claimed(None, job_id), job_id) is None,
        released(None, job_id) is None,
        other != job_id ==> released(Some(other), job_id) == Some(other),
{
}

} // verus!
