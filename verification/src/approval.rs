//! Pushes that were explicitly approved.

use vstd::prelude::*;

use crate::contracts::{
    EventPayload, EventPayloadView, JobApprovalCommand, JobLifecycleEvent, JobLifecycleEventView,
};
use crate::encoding;
use crate::error::EdgeError;
use crate::execution;
use crate::execution::ProcessRun;
use crate::job;
use crate::job::JobSlot;
use crate::paths;
use crate::paths::PathStyle;
use crate::sandbox;
use crate::text;
use crate::text::push_text;
use crate::timestamp::Timestamp;

verus! {

/// A message that speaks of the machinery around a push rather than of the push itself.
pub open spec fn is_infrastructure(message: Seq<char>) -> bool {
    ||| text::contains_text(message, "worktree"@)
    ||| text::contains_text(message, "sandbox"@)
    ||| text::contains_text(message, "missing"@)
    ||| text::contains_text(message, "containment"@)
}

/// The failure class of a push, by the message of its failure.
pub open spec fn push_failure_class(message: Seq<char>) -> Seq<char> {
    if is_infrastructure(message) {
        "infrastructure"@
    } else {
        "execution"@
    }
}

/// The failure class of a push, and the detail that is reported with it.
pub fn classify_push_failure(error: &EdgeError) -> (out: (String, String))
    ensures
        out.0@ == push_failure_class(error@),
        out.1@ == error@,
{
    let detail = error.to_text();
    if text::has_text(&detail, "worktree") || text::has_text(&detail, "sandbox") || text::has_text(
        &detail,
        "missing",
    ) || text::has_text(&detail, "containment") {
        ("infrastructure".to_owned(), detail)
    } else {
        ("execution".to_owned(), detail)
    }
}

/// An event about an approved push.
pub open spec fn push_event(
    command: JobApprovalCommand,
    device_id: Seq<char>,
    event_type: Seq<char>,
    status: Seq<char>,
    result: Seq<char>,
    detail: Seq<char>,
    payload: EventPayloadView,
    now: Timestamp,
) -> JobLifecycleEventView {
    JobLifecycleEventView {
        job_id: command.job_id@,
        correlation_id: command.correlation_id@,
        device_id,
        event_type,
        status: Some(status),
        result: Some(result),
        failure_class: None,
        worktree_path: None,
        detail: Some(detail),
        payload: Some(payload),
        created_at: now,
    }
}

/// An event about an approved push.
fn new_push_event(
    command: &JobApprovalCommand,
    device_id: &str,
    event_type: &str,
    status: &str,
    result: &str,
    detail: String,
    payload: EventPayload,
    now: Timestamp,
) -> (event: JobLifecycleEvent)
    ensures
        event@ == push_event(
            *command,
            device_id@,
            event_type@,
            status@,
            result@,
            detail@,
            payload@,
            now,
        ),
{
    JobLifecycleEvent {
        job_id: command.job_id.clone(),
        correlation_id: command.correlation_id.clone(),
        device_id: device_id.to_owned(),
        event_type: event_type.to_owned(),
        status: Some(status.to_owned()),
        result: Some(result.to_owned()),
        failure_class: None,
        worktree_path: None,
        detail: Some(detail),
        payload: Some(payload),
        created_at: now,
    }
}

/// The event that reports a push that failed.
pub open spec fn push_failure(
    command: JobApprovalCommand,
    device_id: Seq<char>,
    message: Seq<char>,
    now: Timestamp,
) -> JobLifecycleEventView {
    JobLifecycleEventView {
        failure_class: Some(push_failure_class(message)),
        ..push_event(
            command,
            device_id,
            "job.failed"@,
            "failed"@,
            "failure"@,
            message,
            EventPayloadView::PushFailed {
                approval_id: command.approval_id@,
                action_type: command.action_type@,
                branch_name: text::opt_text(command.branch_name),
            },
            now,
        )
    }
}

/// Ends an approved push: the slot is given back, and where the push failed the event to publish
/// is returned.
pub fn handle_job_approval(
    slot: &mut JobSlot,
    command: &JobApprovalCommand,
    device_id: &str,
    failure: &Option<EdgeError>,
    now: Timestamp,
) -> (failed: Option<JobLifecycleEvent>)
    ensures
        final(slot)@ == job::released(old(slot)@, command.job_id@),
        job::opt_event(failed) == (match *failure {
            Some(error) => Some(push_failure(*command, device_id@, error@, now)),
            None => None,
        }),
{
    slot.release(&command.job_id);
    match failure {
        None => None,
        Some(error) => {
            let (failure_class, detail) = classify_push_failure(error);
            let payload = EventPayload::PushFailed {
                approval_id: command.approval_id.clone(),
                action_type: command.action_type.clone(),
                branch_name: text::copy_opt(&command.branch_name),
            };
            let mut event = new_push_event(
                command,
                device_id,
                "job.failed",
                "failed",
                "failure",
                detail,
                payload,
                now,
            );
            event.failure_class = Some(failure_class);
            Some(event)
        },
    }
}

/// What an approved push waits for.
#[derive(Clone, Debug, PartialEq, Eq)]
pub enum PushPhase {
    /// The worktree is being resolved on disk.
    Resolving { branch: String, candidate: String },
    /// The worktree is being looked for.
    Checking { branch: String, path: String },
    /// The start of the push is being published.
    Announcing { branch: String, path: String },
    /// The push is under way.
    Pushing { branch: String, path: String },
    /// The completion of the push is being published.
    Completing,
    /// Nothing: the push has ended.
    Ended,
}

/// The contents of a [`PushPhase`].
pub enum PushPhaseView {
    Resolving { branch: Seq<char>, candidate: Seq<char> },
    Checking { branch: Seq<char>, path: Seq<char> },
    Announcing { branch: Seq<char>, path: Seq<char> },
    Pushing { branch: Seq<char>, path: Seq<char> },
    Completing,
    Ended,
}

impl View for PushPhase {
    type V = PushPhaseView;

    open spec fn view(&self) -> PushPhaseView {
        match *self {
            PushPhase::Resolving { branch, candidate } => PushPhaseView::Resolving {
                branch: branch@,
                candidate: candidate@,
            },
            PushPhase::Checking { branch, path } => PushPhaseView::Checking {
                branch: branch@,
                path: path@,
            },
            PushPhase::Announcing { branch, path } => PushPhaseView::Announcing {
                branch: branch@,
                path: path@,
            },
            PushPhase::Pushing { branch, path } => PushPhaseView::Pushing {
                branch: branch@,
                path: path@,
            },
            PushPhase::Completing => PushPhaseView::Completing,
            PushPhase::Ended => PushPhaseView::Ended,
        }
    }
}

/// What is to be done next for an approved push.
#[derive(Clone, Debug, PartialEq, Eq)]
pub enum PushAction {
    /// Two paths are to be resolved on disk.
    Resolve { root: String, candidate: String },
    /// A path is to be looked for.
    Check { path: String },
    /// An event is to be published.
    Publish { event: JobLifecycleEvent },
    /// `git` is to be run with these arguments.
    Push { args: Vec<String> },
    /// The push has ended.
    Finish,
    /// The push has failed.
    BreakOff { error: String },
    /// Nothing: what was reported is not what the push waits for.
    Wait,
}

/// The contents of a [`PushAction`].
pub enum PushActionView {
    Resolve { root: Seq<char>, candidate: Seq<char> },
    Check { path: Seq<char> },
    Publish { event: JobLifecycleEventView },
    Push { args: Seq<Seq<char>> },
    Finish,
    BreakOff { error: Seq<char> },
    Wait,
}

impl View for PushAction {
    type V = PushActionView;

    open spec fn view(&self) -> PushActionView {
        match *self {
            PushAction::Resolve { root, candidate } => PushActionView::Resolve {
                root: root@,
                candidate: candidate@,
            },
            PushAction::Check { path } => PushActionView::Check {
                path: path@,
            },
            PushAction::Publish { event } => PushActionView::Publish {
                event: event@,
            },
            PushAction::Push { args } => PushActionView::Push {
                args: text::texts(args@),
            },
            PushAction::Finish => PushActionView::Finish,
            PushAction::BreakOff { error } => PushActionView::BreakOff {
                error: error@,
            },
            PushAction::Wait => PushActionView::Wait,
        }
    }
}

/// What was done for an approved push.
pub enum PushInput {
    /// Two paths were resolved, as far as they could be.
    Resolved { root: Option<String>, candidate: Option<String> },
    /// A path was looked for.
    Checked { exists: bool },
    /// The event was published.
    Published,
    /// The event could not be published.
    NotPublished { error: EdgeError },
    /// The push was run.
    Pushed { run: ProcessRun },
}

/// Where the worktree of a job stands.
pub open spec fn worktree_of(
    style: PathStyle,
    root: Seq<char>,
    target: Seq<char>,
    short_id: Seq<char>,
) -> Seq<char> {
    paths::join(style, paths::join(style, root, target), short_id)
}

/// The first step of an approved push.
pub open spec fn first_push_step(
    style: PathStyle,
    command: JobApprovalCommand,
    worktree_root: Seq<char>,
) -> (
    PushPhaseView,
    PushActionView,
) {
    match (text::opt_text(command.target_name), text::opt_text(command.branch_name)) {
        (None, _) => (
            PushPhaseView::Ended,
            PushActionView::BreakOff { error: "approved push is missing target name"@ },
        ),
        (Some(_), None) => (
            PushPhaseView::Ended,
            PushActionView::BreakOff { error: "approved push is missing branch name"@ },
        ),
        (Some(target), Some(branch)) => {
            let candidate = worktree_of(style, worktree_root, target, command.short_id@);
            (
                PushPhaseView::Resolving { branch, candidate },
                PushActionView::Resolve { root: worktree_root, candidate },
            )
        },
    }
}

/// The first step of an approved push.
pub fn run_approved_push(
    style: PathStyle,
    command: &JobApprovalCommand,
    worktree_root: &str,
) -> (step: (
    PushPhase,
    PushAction,
))
    ensures
        (step.0@, step.1@) == first_push_step(style, *command, worktree_root@),
{
    let target = match &command.target_name {
        Some(name) => name,
        None => {
            let error = "approved push is missing target name".to_owned();
            return (PushPhase::Ended, PushAction::BreakOff { error });
        },
    };
    let branch = match &command.branch_name {
        Some(name) => name,
        None => {
            let error = "approved push is missing branch name".to_owned();
            return (PushPhase::Ended, PushAction::BreakOff { error });
        },
    };
    let candidate = paths::join_path(
        style,
        &paths::join_path(style, worktree_root, target),
        &command.short_id,
    );
    (
        PushPhase::Resolving { branch: branch.clone(), candidate: candidate.clone() },
        PushAction::Resolve { root: worktree_root.to_owned(), candidate },
    )
}

/// The event that reports that an approved push has begun.
pub open spec fn push_start(
    command: JobApprovalCommand,
    device_id: Seq<char>,
    path: Seq<char>,
    now: Timestamp,
) -> JobLifecycleEventView {
    JobLifecycleEventView {
        worktree_path: Some(path),
        ..push_event(
            command,
            device_id,
            "job.push_started"@,
            "pushing"@,
            "success"@,
            "approved push started on edge"@,
            EventPayloadView::PushStarted {
                approval_id: command.approval_id@,
                action_type: command.action_type@,
                branch_name: text::opt_text(command.branch_name),
                remote: "origin"@,
            },
            now,
        )
    }
}

/// The event that reports that an approved push has succeeded.
pub open spec fn push_completion(
    command: JobApprovalCommand,
    device_id: Seq<char>,
    branch: Seq<char>,
    path: Seq<char>,
    stdout: Seq<char>,
    stderr: Seq<char>,
    now: Timestamp,
) -> JobLifecycleEventView {
    JobLifecycleEventView {
        worktree_path: Some(path),
        ..push_event(
            command,
            device_id,
            "job.push_completed"@,
            "completed"@,
            "success"@,
            "pushed branch `"@ + branch + "` to `origin`"@,
            EventPayloadView::PushCompleted {
                approval_id: command.approval_id@,
                action_type: command.action_type@,
                branch_name: text::opt_text(command.branch_name),
                remote: "origin"@,
                stdout: text::truncated(stdout, 800),
                stderr: text::truncated(stderr, 800),
            },
            now,
        )
    }
}

/// The arguments of the `git` command that pushes a branch.
pub open spec fn push_args(path: Seq<char>, branch: Seq<char>) -> Seq<Seq<char>> {
    seq!["-C"@, path, "push"@, "-u"@, "origin"@, branch]
}

/// The step that follows once the push was run.
pub open spec fn after_push(
    command: JobApprovalCommand,
    device_id: Seq<char>,
    branch: Seq<char>,
    path: Seq<char>,
    run: ProcessRun,
    now: Timestamp,
) -> (PushPhaseView, PushActionView) {
    match run {
        ProcessRun::NotRun => (
            PushPhaseView::Ended,
            PushActionView::BreakOff {
                error: "failed to execute approved push for branch "@ + branch,
            },
        ),
        ProcessRun::Exited { success, stdout, stderr } => {
            let out = text::trim(encoding::lossy_text(stdout@));
            let err = text::trim(encoding::lossy_text(stderr@));
            if success {
                (
                    PushPhaseView::Completing,
                    PushActionView::Publish {
                        event: push_completion(command, device_id, branch, path, out, err, now),
                    },
                )
            } else {
                (
                    PushPhaseView::Ended,
                    PushActionView::BreakOff {
                        error: "git push failed for `"@ + branch + "`: "@
                            + execution::process_summary(out, err),
                    },
                )
            }
        },
    }
}

/// The step that follows what was done for an approved push.
pub open spec fn next_push_step(
    style: PathStyle,
    command: JobApprovalCommand,
    device_id: Seq<char>,
    worktree_root: Seq<char>,
    phase: PushPhaseView,
    input: PushInput,
    now: Timestamp,
) -> (PushPhaseView, PushActionView) {
    match (phase, input) {
        (PushPhaseView::Resolving { branch, candidate }, PushInput::Resolved { root, candidate: found }) =>
            match sandbox::contained_path(
                style,
                worktree_root,
                candidate,
                "approved push worktree"@,
                text::opt_text(root),
                text::opt_text(found),
            ) {
                Ok(path) => (
                    PushPhaseView::Checking { branch, path },
                    PushActionView::Check { path },
                ),
                Err(error) => (PushPhaseView::Ended, PushActionView::BreakOff { error }),
            },
        (PushPhaseView::Checking { branch, path }, PushInput::Checked { exists }) => if exists {
            (
                PushPhaseView::Announcing { branch, path },
                PushActionView::Publish { event: push_start(command, device_id, path, now) },
            )
        } else {
            (
                PushPhaseView::Ended,
                PushActionView::BreakOff {
                    error: "approved push worktree is missing at "@ + path,
                },
            )
        },
        (PushPhaseView::Announcing { branch, path }, PushInput::Published) => (
            PushPhaseView::Pushing { branch, path },
            PushActionView::Push { args: push_args(path, branch) },
        ),
        (PushPhaseView::Announcing { .. }, PushInput::NotPublished { error }) => (
            PushPhaseView::Ended,
            PushActionView::BreakOff { error: error@ },
        ),
        (PushPhaseView::Pushing { branch, path }, PushInput::Pushed { run }) => after_push(
            command,
            device_id,
            branch,
            path,
            run,
            now,
        ),
        (PushPhaseView::Completing, PushInput::Published) => (
            PushPhaseView::Ended,
            PushActionView::Finish,
        ),
        (PushPhaseView::Completing, PushInput::NotPublished { error }) => (
            PushPhaseView::Ended,
            PushActionView::BreakOff { error: error@ },
        ),
        _ => (phase, PushActionView::Wait),
    }
}

/// The step that follows once the push was run.
fn step_after_push(
    command: &JobApprovalCommand,
    device_id: &str,
    branch: String,
    path: String,
    run: ProcessRun,
    now: Timestamp,
) -> (step: (PushPhase, PushAction))
    ensures
        (step.0@, step.1@) == after_push(*command, device_id@, branch@, path@, run, now),
{
    match run {
        ProcessRun::NotRun => {
            let mut error = "failed to execute approved push for branch ".to_owned();
            error.append(&branch);
            (PushPhase::Ended, PushAction::BreakOff { error })
        },
        ProcessRun::Exited { success, stdout, stderr } => {
            let out = text::trimmed_text(&encoding::text_from_lossy(stdout.as_slice()));
            let err = text::trimmed_text(&encoding::text_from_lossy(stderr.as_slice()));
            if !success {
                let mut error = "git push failed for `".to_owned();
                error.append(&branch);
                error.append("`: ");
                error.append(&execution::summarize_process_output(&out, &err));
                return (PushPhase::Ended, PushAction::BreakOff { error });
            }
            let mut detail = "pushed branch `".to_owned();
            detail.append(&branch);
            detail.append("` to `origin`");
            let payload = EventPayload::PushCompleted {
                approval_id: command.approval_id.clone(),
                action_type: command.action_type.clone(),
                branch_name: text::copy_opt(&command.branch_name),
                remote: "origin".to_owned(),
                stdout: text::truncate_text(&out, 800),
                stderr: text::truncate_text(&err, 800),
            };
            let mut event = new_push_event(
                command,
                device_id,
                "job.push_completed",
                "completed",
                "success",
                detail,
                payload,
                now,
            );
            event.worktree_path = Some(path);
            (PushPhase::Completing, PushAction::Publish { event })
        },
    }
}

/// The step that follows what was done for an approved push.
pub fn advance_push(
    style: PathStyle,
    command: &JobApprovalCommand,
    device_id: &str,
    worktree_root: &str,
    phase: PushPhase,
    input: PushInput,
    now: Timestamp,
) -> (step: (PushPhase, PushAction))
    ensures
        (step.0@, step.1@) == next_push_step(
            style,
            *command,
            device_id@,
            worktree_root@,
            phase@,
            input,
            now,
        ),
{
    match (phase, input) {
        (PushPhase::Resolving { branch, candidate }, PushInput::Resolved { root, candidate: found }) => {
            match sandbox::enforce_worktree_containment(
                style,
                worktree_root,
                &candidate,
                "approved push worktree",
                root,
                found,
            ) {
                Ok(path) => {
                    let again = path.clone();
                    (PushPhase::Checking { branch, path }, PushAction::Check { path: again })
                },
                Err(error) => (PushPhase::Ended, PushAction::BreakOff { error: error.message }),
            }
        },
        (PushPhase::Checking { branch, path }, PushInput::Checked { exists }) => {
            if !exists {
                let mut error = "approved push worktree is missing at ".to_owned();
                error.append(&path);
                return (PushPhase::Ended, PushAction::BreakOff { error });
            }
            let payload = EventPayload::PushStarted {
                approval_id: command.approval_id.clone(),
                action_type: command.action_type.clone(),
                branch_name: text::copy_opt(&command.branch_name),
                remote: "origin".to_owned(),
            };
            let mut event = new_push_event(
                command,
                device_id,
                "job.push_started",
                "pushing",
                "success",
                "approved push started on edge".to_owned(),
                payload,
                now,
            );
            event.worktree_path = Some(path.clone());
            (PushPhase::Announcing { branch, path }, PushAction::Publish { event })
        },
        (PushPhase::Announcing { branch, path }, PushInput::Published) => {
            let mut args: Vec<String> = Vec::new();
            push_text(&mut args, "-C".to_owned());
            push_text(&mut args, path.clone());
            push_text(&mut args, "push".to_owned());
            push_text(&mut args, "-u".to_owned());
            push_text(&mut args, "origin".to_owned());
            push_text(&mut args, branch.clone());
            assert(text::texts(args@) == push_args(path@, branch@));
            (PushPhase::Pushing { branch, path }, PushAction::Push { args })
        },
        (PushPhase::Announcing { .. }, PushInput::NotPublished { error }) => (
            PushPhase::Ended,
            PushAction::BreakOff { error: error.message },
        ),
        (PushPhase::Pushing { branch, path }, PushInput::Pushed { run }) => step_after_push(
            command,
            device_id,
            branch,
            path,
            run,
            now,
        ),
        (PushPhase::Completing, PushInput::Published) => (PushPhase::Ended, PushAction::Finish),
        (PushPhase::Completing, PushInput::NotPublished { error }) => (
            PushPhase::Ended,
            PushAction::BreakOff { error: error.message },
        ),
        (other, _) => (other, PushAction::Wait),
    }
}

/// `git` is run only once the start of the push has been published, and then to push the approved
/// branch out of a worktree.
pub proof fn pushes_are_announced_first(
    style: PathStyle,
    command: JobApprovalCommand,
    device_id: Seq<char>,
    worktree_root: Seq<char>,
    phase: PushPhaseView,
    input: PushInput,
    now: Timestamp,
)
    ensures
        first_push_step(style, command, worktree_root).1 !is Push,
        next_push_step(
            style,
            command,
            device_id,
            worktree_root,
            phase,
            input,
            now,
        ).1 matches PushActionView::Push {
            args,
        } ==> {
            &&& phase is Announcing
            &&& input is Published
            &&& args == push_args(phase->Announcing_path, phase->Announcing_branch)
        },
{
}

/// The worktree that is announced and pushed from lies within the worktree root.
pub proof fn pushes_stay_within_the_worktree_root(
    style: PathStyle,
    command: JobApprovalCommand,
    device_id: Seq<char>,
    worktree_root: Seq<char>,
    phase: PushPhaseView,
    root: String,
    found: Option<String>,
    now: Timestamp,
)
    requires
        phase is Resolving,
    ensures
        next_push_step(
            style,
            command,
            device_id,
            worktree_root,
            phase,
            PushInput::Resolved { root: Some(root), candidate: found },
            now,
        ).0 matches PushPhaseView::Checking { branch, path } ==> {
            &&& branch == phase->Resolving_branch
            &&& paths::lies_within(style, path, root@)
        },
        next_push_step(
            style,
            command,
            device_id,
            worktree_root,
            phase,
            PushInput::Resolved { root: None, candidate: found },
            now,
        ).1 is BreakOff,
{
}

/// A push that lacks its worktree is a failure of the infrastructure.
pub proof fn missing_worktrees_are_infrastructure(path: Seq<char>)
    ensures
        push_failure_class("approved push worktree is missing at "@ + path) == "infrastructure"@,
        push_failure_class("approved push is missing target name"@) == "infrastructure"@,
        push_failure_class("approved push is missing branch name"@) == "infrastructure"@,
{
    reveal_strlit("worktree");
    reveal_strlit("missing");
    reveal_strlit("approved push worktree is missing at ");
    reveal_strlit("approved push is missing target name");
    reveal_strlit("approved push is missing branch name");
    let message = "approved push worktree is missing at "@ + path;
    assert(message.subrange(14, 22) =~= "worktree"@);
    assert(text::occurs_at(message, "worktree"@, 14));
    assert("approved push is missing target name"@.subrange(17, 24) =~= "missing"@);
    assert(text::occurs_at("approved push is missing target name"@, "missing"@, 17));
    assert("approved push is missing branch name"@.subrange(17, 24) =~= "missing"@);
    assert(text::occurs_at("approved push is missing branch name"@, "missing"@, 17));
}

/// An event about a push tells of the command that approved it: its job, its correlation, its
/// approval, its action and its branch, with the device and the time. Each says how far the push
/// got.
pub proof fn push_events_tell_of_their_command(
    command: JobApprovalCommand,
    device_id: Seq<char>,
    branch: Seq<char>,
    path: Seq<char>,
    stdout: Seq<char>,
    stderr: Seq<char>,
    message: Seq<char>,
    now: Timestamp,
)
    ensures
        ({
            let started = push_start(command, device_id, path, now);
            let completed = push_completion(
                command,
                device_id,
                branch,
                path,
                stdout,
                stderr,
                now,
            );
            let failed = push_failure(command, device_id, message, now);
            &&& is_told_of(started, command, device_id, now)
            &&& is_told_of(completed, command, device_id, now)
            &&& is_told_of(failed, command, device_id, now)
            &&& started.event_type == "job.push_started"@
            &&& started.status == Some("pushing"@)
            &&& started.result == Some("success"@)
            &&& started.failure_class is None
            &&& started.worktree_path == Some(path)
            &&& started.detail == Some("approved push started on edge"@)
            &&& started.payload matches Some(EventPayloadView::PushStarted {
                approval_id,
                action_type,
                branch_name,
                remote,
            }) && approval_id == command.approval_id@ && action_type == command.action_type@
                && branch_name == text::opt_text(command.branch_name) && remote == "origin"@
            &&& completed.event_type == "job.push_completed"@
            &&& completed.status == Some("completed"@)
            &&& completed.result == Some("success"@)
            &&& completed.failure_class is None
            &&& completed.worktree_path == Some(path)
            &&& completed.detail matches Some(detail) && text::contains_text(detail, branch)
            &&& completed.payload matches Some(EventPayloadView::PushCompleted {
                approval_id,
                action_type,
                branch_name,
                remote,
                stdout: told_stdout,
                stderr: told_stderr,
            }) && approval_id == command.approval_id@ && action_type == command.action_type@
                && branch_name == text::opt_text(command.branch_name) && remote == "origin"@
                && told_stdout == text::truncated(stdout, 800) && told_stderr == text::truncated(
                stderr,
                800,
            )
            &&& failed.event_type == "job.failed"@
            &&& failed.status == Some("failed"@)
            &&& failed.result == Some("failure"@)
            &&& failed.failure_class is Some
            &&& failed.detail == Some(message)
            &&& failed.worktree_path is None
            &&& failed.payload matches Some(EventPayloadView::PushFailed {
                approval_id,
                action_type,
                branch_name,
            }) && approval_id == command.approval_id@ && action_type == command.action_type@
                && branch_name == text::opt_text(command.branch_name)
        }),
{
    text::parts_are_contained("pushed branch `"@, branch, "` to `origin`"@);
}

/// An event that names the job of a command, its correlation, the device and the time.
pub open spec fn is_told_of(
    event: JobLifecycleEventView,
    command: JobApprovalCommand,
    device_id: Seq<char>,
    now: Timestamp,
) -> bool {
    &&& event.job_id == command.job_id@
    &&& event.correlation_id == command.correlation_id@
    &&& event.device_id == device_id
    &&& event.created_at == now
}

/// A failed push is one of the infrastructure exactly where its message speaks of the place it was
/// to happen in, and otherwise one of the execution.
pub proof fn failed_pushes_are_classified(message: Seq<char>)
    ensures
        push_failure_class(message) == "infrastructure"@ || push_failure_class(message)
            == "execution"@,
        push_failure_class(message) == "infrastructure"@ <==> text::contains_text(
            message,
            "worktree"@,
        ) || text::contains_text(message, "sandbox"@) || text::contains_text(message, "missing"@)
            || text::contains_text(message, "containment"@),
{
    reveal_strlit("infrastructure");
    reveal_strlit("execution");
    assert("infrastructure"@.len() != "execution"@.len());
}

/// A push begins with the place of its worktree, where a target and a branch are named: below the
/// root, under the target and the job. The branch is kept.
pub proof fn pushes_begin_at_their_worktree(
    style: PathStyle,
    command: JobApprovalCommand,
    worktree_root: Seq<char>,
)
    ensures
        first_push_step(style, command, worktree_root).1 is BreakOff
            <==> command.target_name is None || command.branch_name is None,
        first_push_step(style, command, worktree_root).1 is BreakOff ==> first_push_step(
            style,
            command,
            worktree_root,
        ).0 is Ended,
        command.target_name is Some && command.branch_name is Some ==> {
            let place = paths::join(
                style,
                paths::join(style, worktree_root, command.target_name->0@),
                command.short_id@,
            );
            let (phase, action) = first_push_step(style, command, worktree_root);
            &&& phase == (PushPhaseView::Resolving {
                branch: command.branch_name->0@,
                candidate: place,
            })
            &&& action == (PushActionView::Resolve { root: worktree_root, candidate: place })
        },
{
}

/// A push goes on step by step: the worktree is found and looked for, the start is published, the
/// branch that was approved is pushed from there to `origin`, and the end is published. Whatever
/// fails breaks the push off with its message, and nothing else does.
pub proof fn pushes_go_on_step_by_step(
    style: PathStyle,
    command: JobApprovalCommand,
    device_id: Seq<char>,
    worktree_root: Seq<char>,
    phase: PushPhaseView,
    input: PushInput,
    now: Timestamp,
)
    ensures
        ({
            let (next, action) = next_push_step(
                style,
                command,
                device_id,
                worktree_root,
                phase,
                input,
                now,
            );
            &&& action is BreakOff || action is Finish ==> next is Ended
            &&& action is Finish <==> phase is Completing && input is Published
            &&& phase matches PushPhaseView::Resolving { branch, candidate } ==> {
                &&& !(input is Resolved) ==> next == phase && action is Wait
                &&& next is Checking ==> {
                    &&& next->Checking_branch == branch
                    &&& input->Resolved_candidate matches Some(found)
                    &&& next->Checking_path == found@
                    &&& action == (PushActionView::Check { path: found@ })
                }
                &&& input matches PushInput::Resolved { root: Some(root), candidate: Some(found) }
                    ==> (next is Checking <==> paths::lies_within(style, found@, root@))
                &&& input is Resolved && !(next is Checking) ==> action is BreakOff
            }
            &&& phase matches PushPhaseView::Checking { branch, path } ==> {
                &&& input matches PushInput::Checked { exists: true } ==> {
                    &&& next == (PushPhaseView::Announcing { branch, path })
                    &&& action matches PushActionView::Publish { event }
                    &&& event == push_start(command, device_id, path, now)
                }
                &&& input matches PushInput::Checked { exists: false } ==> {
                    &&& action matches PushActionView::BreakOff { error }
                    &&& path.is_suffix_of(error)
                }
                &&& !(input is Checked) ==> next == phase && action is Wait
            }
            &&& phase matches PushPhaseView::Announcing { branch, path } ==> {
                &&& input is Published ==> {
                    &&& next == (PushPhaseView::Pushing { branch, path })
                    &&& action matches PushActionView::Push { args }
                    &&& args == seq!["-C"@, path, "push"@, "-u"@, "origin"@, branch]
                }
                &&& input matches PushInput::NotPublished { error } ==> action == (
                PushActionView::BreakOff { error: error@ })
                &&& !(input is Published || input is NotPublished) ==> next == phase
                    && action is Wait
            }
            &&& phase matches PushPhaseView::Pushing { branch, path } ==> {
                &&& input matches PushInput::Pushed { run } ==> match run {
                    ProcessRun::NotRun => {
                        &&& action matches PushActionView::BreakOff { error }
                        &&& branch.is_suffix_of(error)
                    },
                    ProcessRun::Exited { success, stdout, stderr } => {
                        &&& success ==> {
                            &&& next is Completing
                            &&& action matches PushActionView::Publish { event }
                            &&& event == push_completion(
                                command,
                                device_id,
                                branch,
                                path,
                                text::trim(encoding::lossy_text(stdout@)),
                                text::trim(encoding::lossy_text(stderr@)),
                                now,
                            )
                        }
                        &&& !success ==> {
                            &&& action matches PushActionView::BreakOff { error }
                            &&& text::contains_text(error, branch)
                            &&& execution::process_summary(
                                text::trim(encoding::lossy_text(stdout@)),
                                text::trim(encoding::lossy_text(stderr@)),
                            ).is_suffix_of(error)
                        }
                    },
                }
                &&& !(input is Pushed) ==> next == phase && action is Wait
            }
            &&& phase is Completing ==> {
                &&& input matches PushInput::NotPublished { error } ==> action == (
                PushActionView::BreakOff { error: error@ })
                &&& !(input is Published || input is NotPublished) ==> next == phase
                    && action is Wait
            }
            &&& phase is Ended ==> next is Ended && action is Wait
        }),
{
    match phase {
        PushPhaseView::Checking { branch, path } => {
            text::parts_begin_and_end("approved push worktree is missing at "@, path);
        },
        PushPhaseView::Pushing { branch, path } => {
            text::parts_begin_and_end("failed to execute approved push for branch "@, branch);
            if let PushInput::Pushed { run: ProcessRun::Exited { success, stdout, stderr } } = input {
                let summary = execution::process_summary(
                    text::trim(encoding::lossy_text(stdout@)),
                    text::trim(encoding::lossy_text(stderr@)),
                );
                let head = "git push failed for `"@ + branch + "`: "@;
                text::parts_are_contained("git push failed for `"@, branch, "`: "@);
                text::containing_grows(head, summary);
                text::parts_begin_and_end(head, summary);
            }
        },
        _ => {},
    }
}

/// A push says in words how it ended.
pub proof fn pushes_say_how_they_ended(
    style: PathStyle,
    command: JobApprovalCommand,
    device_id: Seq<char>,
    worktree_root: Seq<char>,
    branch: Seq<char>,
    path: Seq<char>,
    run: ProcessRun,
    now: Timestamp,
)
    ensures
        first_push_step(style, command, worktree_root).1 matches PushActionView::BreakOff { error }
            ==> {
            &&& command.target_name is None ==> error == "approved push is missing target name"@
            &&& command.target_name is Some ==> error == "approved push is missing branch name"@
        },
        push_completion(
            command,
            device_id,
            branch,
            path,
            Seq::empty(),
            Seq::empty(),
            now,
        ).detail == Some("pushed branch `"@ + branch + "` to `origin`"@),
        after_push(
            command,
            device_id,
            branch,
            path,
            run,
            now,
        ).1 matches PushActionView::BreakOff { error } ==> match run {
            ProcessRun::NotRun => error == "failed to execute approved push for branch "@ + branch,
            ProcessRun::Exited { success, stdout, stderr } => error == "git push failed for `"@
                + branch + "`: "@ + execution::process_summary(
                text::trim(encoding::lossy_text(stdout@)),
                text::trim(encoding::lossy_text(stderr@)),
            ),
        },
{
}

/// A worktree that is refused is named as that of the push.
pub proof fn refused_worktrees_are_those_of_the_push(
    style: PathStyle,
    command: JobApprovalCommand,
    device_id: Seq<char>,
    worktree_root: Seq<char>,
    branch: Seq<char>,
    candidate: Seq<char>,
    root: String,
    now: Timestamp,
)
    ensures
        next_push_step(
            style,
            command,
            device_id,
            worktree_root,
            PushPhaseView::Resolving { branch, candidate },
            PushInput::Resolved { root: Some(root), candidate: None },
            now,
        ).1 == (PushActionView::BreakOff {
            error: "failed to resolve "@ + "approved push worktree"@ + " "@ + candidate,
        }),
{
}

} // verus!
