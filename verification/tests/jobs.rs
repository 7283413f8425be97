use elowen_edge::approval::{
    advance_push, classify_push_failure, handle_job_approval, run_approved_push, PushAction,
    PushInput, PushPhase,
};
use elowen_edge::contracts::{
    AvailabilityProbeMessage, EventPayload, ExecutionIntent, JobApprovalCommand,
    JobDispatchMessage, JobLifecycleEvent, JobTargetKind,
};
use elowen_edge::error::EdgeError;
use elowen_edge::execution::{
    finalize_command_outcome, run_simulated_codex_wrapper, CommandOutcome, CommitRecord, GitReport,
    ProcessRun, SIMULATED_DETAIL,
};
use elowen_edge::job::{
    advance_job, finish_job_dispatch, handle_job_dispatch, run_job_execution, JobAction, JobInput,
    JobPhase, JobSlot,
};
use elowen_edge::paths::PathStyle;
use elowen_edge::runtime::{
    answer_probe, approval_subject, dispatch_subject, log_filter, logs_json, probe_subject,
    route_approval, route_dispatch, ProbeAnswer, Route, EVENTS_SUBJECT,
};
use elowen_edge::sandbox::{prepare_sandbox_policy, SandboxMode};
use elowen_edge::timestamp::Timestamp;
use elowen_edge::validation::{run_validation_suite, ValidationReport};
use elowen_edge::workspace::{
    advance_workspace, create_execution_workspace, ensure_repo_root, WorkspaceAction,
    WorkspaceInput, WorkspacePhase, WriteResult,
};

fn strings(values: &[&str]) -> Vec<String> {
    values.iter().map(|value| value.to_string()).collect()
}

fn now() -> Timestamp {
    Timestamp::new(1_777_077_000, 0).unwrap()
}

fn dispatch(kind: JobTargetKind) -> JobDispatchMessage {
    JobDispatchMessage {
        job_id: "job-1".to_string(),
        short_id: "j1".to_string(),
        correlation_id: "c-1".to_string(),
        thread_id: "t-1".to_string(),
        title: "title".to_string(),
        device_id: "edge".to_string(),
        target_kind: kind,
        target_name: "repo".to_string(),
        base_branch: Some("main".to_string()),
        branch_name: Some("feature".to_string()),
        prompt: "please".to_string(),
        execution_intent: ExecutionIntent::WorkspaceChange,
        dispatched_at: now(),
    }
}

fn approval() -> JobApprovalCommand {
    JobApprovalCommand {
        approval_id: "a-1".to_string(),
        job_id: "job-1".to_string(),
        short_id: "j1".to_string(),
        correlation_id: "c-1".to_string(),
        device_id: "edge".to_string(),
        action_type: "push".to_string(),
        target_name: Some("repo".to_string()),
        branch_name: Some("feature".to_string()),
    }
}

fn outcome(dispatch: &JobDispatchMessage, commit: Option<CommitRecord>) -> CommandOutcome {
    let policy = prepare_sandbox_policy(
        PathStyle::Posix,
        SandboxMode::Workspace,
        "/w",
        "/w/repo/j1",
        Some("/w".to_string()),
        Some("/w/repo/j1".to_string()),
    )
    .unwrap();
    let (_, _, runner) = run_simulated_codex_wrapper(PathStyle::Posix, dispatch, &policy);
    let none = || ValidationReport::NotConfigured { reason: "none".to_string() };
    let results = run_validation_suite(none(), none(), "nowhere".to_string());
    let git = GitReport { status_lines: Vec::new(), diff_stat: None, changed_files: Vec::new() };
    finalize_command_outcome(dispatch, &policy, runner, SIMULATED_DETAIL, &results, git, commit)
}

fn commit() -> CommitRecord {
    CommitRecord {
        sha: "0123456789".to_string(),
        short_sha: "01234567".to_string(),
        message: "m".to_string(),
        changed_files: strings(&["a"]),
    }
}

fn event_of(action: &JobAction) -> &JobLifecycleEvent {
    match action {
        JobAction::Publish { event } => event,
        other => panic!("expected an event: {other:?}"),
    }
}

fn life(kind: JobTargetKind, end: JobInput) -> (Vec<JobLifecycleEvent>, JobPhase, JobAction) {
    let message = dispatch(kind);
    let mut end = Some(end);
    let mut events = Vec::new();
    let (mut phase, mut action) = run_job_execution(&message, "edge", now());
    loop {
        let input = match &action {
            JobAction::Publish { event } => {
                events.push(event.clone());
                JobInput::Published
            }
            JobAction::CreateWorkspace => JobInput::WorkspaceReady { path: "/w/repo/j1".to_string() },
            JobAction::Run { path } => {
                assert_eq!(path, "/w/repo/j1");
                end.take().unwrap()
            }
            _ => return (events, phase, action),
        };
        (phase, action) = advance_job(&message, "edge", phase, input, now());
    }
}

fn types(events: &[JobLifecycleEvent]) -> Vec<&str> {
    events.iter().map(|event| event.event_type.as_str()).collect()
}

#[test]
fn jobs_report_their_whole_life() {
    let message = dispatch(JobTargetKind::Repository);
    let done = outcome(&message, Some(commit()));
    let summary = done.approval_summary.clone().unwrap();
    let (events, phase, action) =
        life(JobTargetKind::Repository, JobInput::RunFinished { outcome: done });
    assert_eq!(
        types(&events),
        [
            "job.accepted",
            "job.worktree_created",
            "job.started",
            "job.completed",
            "job.awaiting_approval"
        ]
    );
    assert_eq!(phase, JobPhase::Ended);
    assert_eq!(action, JobAction::Finish);
    let statuses: Vec<&str> =
        events.iter().map(|event| event.status.as_deref().unwrap()).collect();
    assert_eq!(statuses, ["accepted", "accepted", "running", "completed", "awaiting_approval"]);
    assert_eq!(events[0].worktree_path, None);
    for event in &events[1..] {
        assert_eq!(event.worktree_path.as_deref(), Some("/w/repo/j1"));
    }
    assert_eq!(
        events[0].payload,
        Some(EventPayload::Target {
            target_kind: JobTargetKind::Repository,
            target_name: "repo".to_string(),
            branch_name: Some("feature".to_string()),
            base_branch: Some("main".to_string()),
        })
    );
    assert!(matches!(
        &events[3].payload,
        Some(EventPayload::Completed { push_required: true, .. })
    ));
    assert_eq!(
        events[4].payload,
        Some(EventPayload::ApprovalRequest { action_type: "push".to_string(), summary })
    );
}

#[test]
fn capabilities_have_no_worktree() {
    let message = dispatch(JobTargetKind::Capability);
    let done = outcome(&message, None);
    let (events, _, action) =
        life(JobTargetKind::Capability, JobInput::RunFinished { outcome: done });
    assert_eq!(types(&events), ["job.accepted", "job.started", "job.completed"]);
    assert_eq!(action, JobAction::Finish);
    for event in &events {
        assert_eq!(event.worktree_path, None);
    }
}

#[test]
fn failed_runs_are_classified() {
    let error = EdgeError::new("sandbox blocked: no way");
    let (events, _, action) = life(JobTargetKind::Repository, JobInput::RunFailed { error });
    assert_eq!(action, JobAction::Finish);
    let last = events.last().unwrap();
    assert_eq!(last.event_type, "job.failed");
    assert_eq!(last.failure_class.as_deref(), Some("sandbox"));
    assert_eq!(last.detail.as_deref(), Some("no way"));
}

#[test]
fn jobs_break_off_where_a_step_fails() {
    let message = dispatch(JobTargetKind::Repository);
    let (phase, action) = run_job_execution(&message, "edge", now());
    assert_eq!(event_of(&action).detail.as_deref(), Some("edge accepted dispatched job"));
    let failed = JobInput::NotPublished { error: EdgeError::new("gone") };
    let (phase, action) = advance_job(&message, "edge", phase, failed, now());
    assert_eq!(action, JobAction::BreakOff { error: "gone".to_string() });
    assert_eq!(phase, JobPhase::Ended);
    let (phase, action) = advance_job(&message, "edge", phase, JobInput::Published, now());
    assert_eq!((phase, action), (JobPhase::Ended, JobAction::Wait));
    let failed = JobInput::WorkspaceFailed { error: EdgeError::new("no room") };
    let (_, action) = advance_job(&message, "edge", JobPhase::Preparing, failed, now());
    assert_eq!(action, JobAction::BreakOff { error: "no room".to_string() });
}

#[test]
fn one_job_runs_at_a_time() {
    let mut slot = JobSlot::new();
    let first = dispatch(JobTargetKind::Repository);
    let mut second = dispatch(JobTargetKind::Repository);
    second.job_id = "job-2".to_string();
    assert_eq!(handle_job_dispatch(&mut slot, &first, "edge", now()), None);
    assert_eq!(slot.current().as_deref(), Some("job-1"));
    let rejected = handle_job_dispatch(&mut slot, &second, "edge", now()).unwrap();
    assert_eq!(rejected.event_type, "job.rejected");
    assert_eq!(rejected.status.as_deref(), Some("pending"));
    assert_eq!(
        rejected.detail.as_deref(),
        Some("edge device is already running active job job-1")
    );
    assert_eq!(
        rejected.payload,
        Some(EventPayload::ActiveJob { active_job_id: "job-1".to_string() })
    );
    assert_eq!(slot.current().as_deref(), Some("job-1"));
    assert!(!slot.wait_for_idle_slot("job-2"));
    assert!(slot.wait_for_idle_slot("job-1"));
    assert_eq!(finish_job_dispatch(&mut slot, &second, "edge", &None, now()), None);
    assert_eq!(slot.current().as_deref(), Some("job-1"));
    let error = Some(EdgeError::new("broken"));
    let failed = finish_job_dispatch(&mut slot, &first, "edge", &error, now()).unwrap();
    assert_eq!(failed.event_type, "job.failed");
    assert_eq!(failed.failure_class.as_deref(), Some("execution"));
    assert_eq!(failed.detail.as_deref(), Some("broken"));
    assert_eq!(slot.current(), None);
    assert!(slot.wait_for_idle_slot("job-2"));
    assert_eq!(slot.current().as_deref(), Some("job-2"));
}

fn push_error(action: PushAction) -> String {
    match action {
        PushAction::BreakOff { error } => error,
        other => panic!("expected the end: {other:?}"),
    }
}

#[test]
fn pushes_are_announced_before_they_start() {
    let command = approval();
    let step = |phase: PushPhase, input: PushInput| {
        advance_push(PathStyle::Posix, &command, "edge", "/w", phase, input, now())
    };
    let (phase, action) = run_approved_push(PathStyle::Posix, &command, "/w");
    assert_eq!(
        action,
        PushAction::Resolve { root: "/w".to_string(), candidate: "/w/repo/j1".to_string() }
    );
    let resolved = PushInput::Resolved {
        root: Some("/real".to_string()),
        candidate: Some("/real/repo/j1".to_string()),
    };
    let (phase, action) = step(phase, resolved);
    assert_eq!(action, PushAction::Check { path: "/real/repo/j1".to_string() });
    let (phase, action) = step(phase, PushInput::Checked { exists: true });
    match &action {
        PushAction::Publish { event } => {
            assert_eq!(event.event_type, "job.push_started");
            assert_eq!(event.status.as_deref(), Some("pushing"));
            assert_eq!(event.worktree_path.as_deref(), Some("/real/repo/j1"));
        }
        other => panic!("expected an event: {other:?}"),
    }
    let (phase, action) = step(phase, PushInput::Published);
    assert_eq!(
        action,
        PushAction::Push {
            args: strings(&["-C", "/real/repo/j1", "push", "-u", "origin", "feature"])
        }
    );
    let run = ProcessRun::Exited { success: true, stdout: b" ok \n".to_vec(), stderr: Vec::new() };
    let (phase, action) = step(phase, PushInput::Pushed { run });
    match &action {
        PushAction::Publish { event } => {
            assert_eq!(event.event_type, "job.push_completed");
            assert_eq!(event.detail.as_deref(), Some("pushed branch `feature` to `origin`"));
            assert_eq!(
                event.payload,
                Some(EventPayload::PushCompleted {
                    approval_id: "a-1".to_string(),
                    action_type: "push".to_string(),
                    branch_name: Some("feature".to_string()),
                    remote: "origin".to_string(),
                    stdout: "ok".to_string(),
                    stderr: "".to_string(),
                })
            );
        }
        other => panic!("expected an event: {other:?}"),
    }
    assert_eq!(step(phase, PushInput::Published), (PushPhase::Ended, PushAction::Finish));
}

#[test]
fn pushes_say_why_they_fail() {
    let command = approval();
    let step = |phase: PushPhase, input: PushInput| {
        advance_push(PathStyle::Posix, &command, "edge", "/w", phase, input, now()).1
    };
    let mut nameless = approval();
    nameless.target_name = None;
    assert_eq!(
        push_error(run_approved_push(PathStyle::Posix, &nameless, "/w").1),
        "approved push is missing target name"
    );
    let mut branchless = approval();
    branchless.branch_name = None;
    assert_eq!(
        push_error(run_approved_push(PathStyle::Posix, &branchless, "/w").1),
        "approved push is missing branch name"
    );
    let resolving = || run_approved_push(PathStyle::Posix, &command, "/w").0;
    let resolved = |root: Option<&str>, candidate: Option<&str>| PushInput::Resolved {
        root: root.map(|path| path.to_string()),
        candidate: candidate.map(|path| path.to_string()),
    };
    assert_eq!(
        push_error(step(resolving(), resolved(None, None))),
        "failed to resolve sandbox root /w"
    );
    assert_eq!(
        push_error(step(resolving(), resolved(Some("/w"), Some("/etc")))),
        "sandbox blocked: approved push worktree `/etc` escapes sandbox root `/w`"
    );
    let place = || ("feature".to_string(), "/w/repo/j1".to_string());
    let checking = || {
        let (branch, path) = place();
        PushPhase::Checking { branch, path }
    };
    assert_eq!(
        push_error(step(checking(), PushInput::Checked { exists: false })),
        "approved push worktree is missing at /w/repo/j1"
    );
    let pushing = || {
        let (branch, path) = place();
        PushPhase::Pushing { branch, path }
    };
    assert_eq!(
        push_error(step(pushing(), PushInput::Pushed { run: ProcessRun::NotRun })),
        "failed to execute approved push for branch feature"
    );
    let run = ProcessRun::Exited { success: false, stdout: Vec::new(), stderr: b"denied".to_vec() };
    assert_eq!(
        push_error(step(pushing(), PushInput::Pushed { run })),
        "git push failed for `feature`: denied"
    );
}

#[test]
fn failed_pushes_are_classified() {
    for text in ["no worktree", "sandbox blocked: x", "file is missing", "containment broken"] {
        let (class, detail) = classify_push_failure(&EdgeError::new(text));
        assert_eq!((class.as_str(), detail.as_str()), ("infrastructure", text));
    }
    assert_eq!(classify_push_failure(&EdgeError::new("denied")).0, "execution");
    let mut slot = JobSlot::new();
    assert!(slot.wait_for_idle_slot("job-1"));
    let failure = Some(EdgeError::new("denied"));
    let event = handle_job_approval(&mut slot, &approval(), "edge", &failure, now()).unwrap();
    assert_eq!(event.event_type, "job.failed");
    assert_eq!(event.failure_class.as_deref(), Some("execution"));
    assert_eq!(
        event.payload,
        Some(EventPayload::PushFailed {
            approval_id: "a-1".to_string(),
            action_type: "push".to_string(),
            branch_name: Some("feature".to_string()),
        })
    );
    assert_eq!(slot.current(), None);
    assert_eq!(handle_job_approval(&mut slot, &approval(), "edge", &None, now()), None);
}

#[test]
fn worktrees_are_added_after_the_old_one_is_cleared() {
    let message = dispatch(JobTargetKind::Repository);
    let inputs = vec![
        WorkspaceInput::Located { repo_root: "/src/repo".to_string() },
        WorkspaceInput::Inspected { exists: true, is_dir: true, has_git: true },
        WorkspaceInput::DirectoryCreated { created: true },
        WorkspaceInput::Checked { exists: true },
        WorkspaceInput::Cleared,
        WorkspaceInput::Added {
            run: ProcessRun::Exited { success: true, stdout: Vec::new(), stderr: Vec::new() },
        },
        WorkspaceInput::FileWritten { result: WriteResult::Written },
        WorkspaceInput::FileWritten { result: WriteResult::Written },
    ];
    let (mut phase, action) = create_execution_workspace(PathStyle::Posix, &message, "/w");
    let mut actions = vec![action];
    for input in inputs {
        let step = advance_workspace(PathStyle::Posix, &message, "/w", phase, input);
        phase = step.0;
        actions.push(step.1);
    }
    let path = || "/w/repo/j1".to_string();
    assert_eq!(actions[0], WorkspaceAction::Locate { repo_name: "repo".to_string() });
    assert_eq!(actions[1], WorkspaceAction::Inspect { repo_root: "/src/repo".to_string() });
    assert_eq!(actions[2], WorkspaceAction::CreateDirectory { path: "/w/repo".to_string() });
    assert_eq!(actions[3], WorkspaceAction::Check { path: path() });
    assert_eq!(
        actions[4],
        WorkspaceAction::RemoveWorktree {
            args: strings(&["-C", "/src/repo", "worktree", "remove", "--force", "/w/repo/j1"]),
            path: path(),
        }
    );
    assert_eq!(
        actions[5],
        WorkspaceAction::AddWorktree {
            args: strings(&[
                "-C", "/src/repo", "worktree", "add", "--force", "-B", "feature", "/w/repo/j1",
                "main",
            ]),
        }
    );
    assert!(matches!(
        &actions[6],
        WorkspaceAction::WriteFile { path, body }
            if path == "/w/repo/j1/elowen-job-request.md" && body.starts_with("# Elowen Job Request")
    ));
    assert_eq!(
        actions[7],
        WorkspaceAction::WriteMetadata { path: "/w/repo/j1/.elowen-job.json".to_string() }
    );
    assert_eq!(actions[8], WorkspaceAction::Finish { path: path() });
    assert_eq!(phase, WorkspacePhase::Ended);
}

#[test]
fn capability_workspaces_are_plain_directories() {
    let message = dispatch(JobTargetKind::Capability);
    let (mut phase, mut action) = create_execution_workspace(PathStyle::Posix, &message, "/w");
    let mut seen = Vec::new();
    loop {
        seen.push(action.clone());
        let input = match &action {
            WorkspaceAction::CreateDirectory { .. } => {
                WorkspaceInput::DirectoryCreated { created: true }
            }
            WorkspaceAction::Check { .. } => WorkspaceInput::Checked { exists: true },
            WorkspaceAction::RemoveDirectory { .. } => WorkspaceInput::Cleared,
            WorkspaceAction::WriteFile { .. } | WorkspaceAction::WriteMetadata { .. } => {
                WorkspaceInput::FileWritten { result: WriteResult::Written }
            }
            _ => break,
        };
        (phase, action) = advance_workspace(PathStyle::Posix, &message, "/w", phase, input);
    }
    let path = || "/w/_capability/j1".to_string();
    assert_eq!(seen[0], WorkspaceAction::CreateDirectory { path: "/w/_capability".to_string() });
    assert_eq!(seen[1], WorkspaceAction::Check { path: path() });
    assert_eq!(seen[2], WorkspaceAction::RemoveDirectory { path: path() });
    assert_eq!(seen[3], WorkspaceAction::CreateDirectory { path: path() });
    assert_eq!(seen.last(), Some(&WorkspaceAction::Finish { path: path() }));
}

fn workspace_error(action: WorkspaceAction) -> String {
    match action {
        WorkspaceAction::BreakOff { error } => error,
        other => panic!("expected the end: {other:?}"),
    }
}

#[test]
fn workspaces_say_why_they_fail() {
    let message = dispatch(JobTargetKind::Repository);
    let step = |phase: WorkspacePhase, input: WorkspaceInput| {
        workspace_error(advance_workspace(PathStyle::Posix, &message, "/w", phase, input).1)
    };
    let mut branchless = dispatch(JobTargetKind::Repository);
    branchless.branch_name = None;
    assert_eq!(
        workspace_error(create_execution_workspace(PathStyle::Posix, &branchless, "/w").1),
        "repository dispatch is missing branch_name"
    );
    let mut baseless = dispatch(JobTargetKind::Repository);
    baseless.base_branch = None;
    assert_eq!(
        workspace_error(create_execution_workspace(PathStyle::Posix, &baseless, "/w").1),
        "repository dispatch is missing base_branch"
    );
    let locating = create_execution_workspace(PathStyle::Posix, &message, "/w").0;
    let lost = WorkspaceInput::NotLocated { error: EdgeError::new("lost") };
    assert_eq!(step(locating, lost), "lost");
    let not = |created: bool| WorkspaceInput::DirectoryCreated { created };
    let creating = WorkspacePhase::CreatingParent {
        branch: "feature".to_string(),
        base: "main".to_string(),
        repo_root: "/src/repo".to_string(),
    };
    assert_eq!(step(creating, not(false)), "failed to create worktree parent /w/repo");
    let run = ProcessRun::Exited { success: false, stdout: b"o".to_vec(), stderr: b"e".to_vec() };
    assert_eq!(
        step(WorkspacePhase::Adding, WorkspaceInput::Added { run }),
        "git worktree add failed: stdout: o; stderr: e"
    );
    assert_eq!(
        step(WorkspacePhase::Adding, WorkspaceInput::Added { run: ProcessRun::NotRun }),
        "failed to create worktree for repo"
    );
    let written = |result: WriteResult| WorkspaceInput::FileWritten { result };
    assert_eq!(
        step(WorkspacePhase::WritingRequest, written(WriteResult::NotWritten)),
        "failed to write /w/repo/j1/elowen-job-request.md"
    );
    assert_eq!(
        step(WorkspacePhase::WritingMetadata, written(WriteResult::NotSerialized)),
        "failed to serialize job metadata"
    );
    assert_eq!(
        step(WorkspacePhase::WritingMetadata, written(WriteResult::NotCreated)),
        "failed to create /w/repo/j1/.elowen-job.json"
    );
    let capability = dispatch(JobTargetKind::Capability);
    let (phase, _) = create_execution_workspace(PathStyle::Posix, &capability, "/w");
    assert_eq!(
        workspace_error(advance_workspace(
            PathStyle::Posix,
            &capability,
            "/w",
            phase,
            not(false),
        ).1),
        "failed to create capability workspace parent /w/_capability"
    );
}

#[test]
fn repositories_must_be_checkouts() {
    let error = |exists: bool, is_dir: bool, has_git: bool| {
        ensure_repo_root("repo", exists, is_dir, has_git).unwrap_err().to_text()
    };
    assert_eq!(error(false, false, false), "workspace repository `repo` was not found");
    assert_eq!(error(true, false, true), "workspace repository `repo` is not a directory");
    assert_eq!(error(true, true, false), "workspace repository `repo` is not a git checkout");
    assert_eq!(ensure_repo_root("repo", true, true, true), Ok(()));
}

#[test]
fn subjects_name_the_device() {
    assert_eq!(probe_subject("d"), "elowen.devices.availability.probe.d");
    assert_eq!(dispatch_subject("d"), "elowen.jobs.dispatch.d");
    assert_eq!(approval_subject("d"), "elowen.jobs.approvals.d");
    assert_eq!(EVENTS_SUBJECT, "elowen.jobs.events");
}

#[test]
fn messages_for_other_devices_are_ignored() {
    let message = Some(dispatch(JobTargetKind::Repository));
    assert_eq!(route_dispatch(&message, "edge"), Route::Accepted);
    assert_eq!(route_dispatch(&message, "other"), Route::Mismatched);
    assert_eq!(route_dispatch(&None, "edge"), Route::NotDecoded);
    let command = Some(approval());
    assert_eq!(route_approval(&command, "edge"), Route::Accepted);
    assert_eq!(route_approval(&command, "other"), Route::Mismatched);
    assert_eq!(route_approval(&None, "edge"), Route::NotDecoded);
}

#[test]
fn probes_are_answered_with_the_slot() {
    let probe = Some(AvailabilityProbeMessage {
        probe_id: "p".to_string(),
        job_id: Some("asked".to_string()),
        device_id: "edge".to_string(),
        sent_at: now(),
    });
    let mut slot = JobSlot::new();
    match answer_probe(true, &probe, "edge", &slot, now()) {
        ProbeAnswer::Respond { snapshot } => {
            assert!(snapshot.available);
            assert_eq!(snapshot.reason, "idle");
            assert_eq!(snapshot.probe_id, "p");
            assert_eq!(snapshot.job_id.as_deref(), Some("asked"));
        }
        _ => panic!("expected an answer"),
    }
    assert_eq!(slot.claim("job-1"), None);
    match answer_probe(true, &probe, "edge", &slot, now()) {
        ProbeAnswer::Respond { snapshot } => {
            assert!(!snapshot.available);
            assert_eq!(snapshot.reason, "busy with active job job-1");
        }
        _ => panic!("expected an answer"),
    }
    assert!(matches!(
        answer_probe(false, &probe, "edge", &slot, now()),
        ProbeAnswer::NoReplySubject
    ));
    assert!(matches!(answer_probe(true, &None, "edge", &slot, now()), ProbeAnswer::NotDecoded));
    assert!(matches!(answer_probe(true, &probe, "x", &slot, now()), ProbeAnswer::Mismatched));
}

#[test]
fn logs_are_configured() {
    assert!(logs_json("JSON"));
    assert!(!logs_json("plain"));
    let some = |value: &str| Some(value.to_string());
    assert_eq!(log_filter(&some("debug"), &some("warn")), "debug");
    assert_eq!(log_filter(&None, &some("warn")), "warn");
    assert_eq!(log_filter(&None, &None), "info");
}
