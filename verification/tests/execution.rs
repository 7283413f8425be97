use elowen_edge::contracts::{ExecutionIntent, JobDispatchMessage, JobTargetKind};
use elowen_edge::error::EdgeError;
use elowen_edge::execution::{
    advance_commit, build_job_commit_message, capture_git_report, commit_args, commit_is_due,
    execution_intent_guidance, finalize_command_outcome, git_report_args,
    is_runtime_artifact_path, maybe_create_job_commit, normalize_git_status_path,
    run_simulated_codex_wrapper, summarize_command_output, summarize_process_output,
    write_job_request_files, CommandOutcome, CommitPhase, CommitRecord, GitReport, ProcessRun,
    SIMULATED_DETAIL,
};
use elowen_edge::finish::{
    advance_finish, finish_run, FinishAction, FinishInput, FinishPhase, FinishedRun,
};
use elowen_edge::paths::PathStyle;
use elowen_edge::sandbox::{prepare_sandbox_policy, SandboxMode, SandboxPolicy};
use elowen_edge::timestamp::Timestamp;
use elowen_edge::validation::{run_validation_suite, ValidationReport, ValidationResults};

fn strings(values: &[&str]) -> Vec<String> {
    values.iter().map(|value| value.to_string()).collect()
}

fn now() -> Timestamp {
    Timestamp::new(1_777_077_000, 0).unwrap()
}

fn dispatch(kind: JobTargetKind, intent: ExecutionIntent) -> JobDispatchMessage {
    JobDispatchMessage {
        job_id: "job-1".to_string(),
        short_id: "j1".to_string(),
        correlation_id: "c-1".to_string(),
        thread_id: "t-1".to_string(),
        title: "  Fix the parser  ".to_string(),
        device_id: "edge".to_string(),
        target_kind: kind,
        target_name: "repo".to_string(),
        base_branch: None,
        branch_name: Some("feature".to_string()),
        prompt: "please".to_string(),
        execution_intent: intent,
        dispatched_at: now(),
    }
}

fn policy() -> SandboxPolicy {
    prepare_sandbox_policy(
        PathStyle::Posix,
        SandboxMode::Workspace,
        "/w",
        "/w/repo/j1",
        Some("/w".to_string()),
        Some("/w/repo/j1".to_string()),
    )
    .unwrap()
}

fn report(success: bool) -> ValidationReport {
    ValidationReport::Finished {
        success,
        command: strings(&["cargo", "check"]),
        resolved_program: "cargo".to_string(),
        working_dir: "/w/repo/j1".to_string(),
        started_at: now(),
        duration_ms: 1,
        exit_code: Some(0),
        stdout: "".to_string(),
        stderr: "".to_string(),
    }
}

fn results(build: ValidationReport) -> ValidationResults {
    let test = ValidationReport::NotConfigured { reason: "none".to_string() };
    run_validation_suite(build, test, "somewhere".to_string())
}

fn blocked() -> ValidationReport {
    ValidationReport::SandboxBlocked {
        kind: "build".to_string(),
        command: strings(&["bash"]),
        working_dir: "/w".to_string(),
        started_at: now(),
        duration_ms: 1,
        reason: "no".to_string(),
    }
}

fn commit() -> CommitRecord {
    CommitRecord {
        sha: "0123456789abcdef".to_string(),
        short_sha: "01234567".to_string(),
        message: "Elowen job j1: Fix the parser".to_string(),
        changed_files: strings(&["a.rs"]),
    }
}

fn git() -> GitReport {
    GitReport {
        status_lines: strings(&[" M a.rs"]),
        diff_stat: Some("a.rs | 2 +-".to_string()),
        changed_files: strings(&["a.rs"]),
    }
}

fn outcome(
    kind: JobTargetKind,
    intent: ExecutionIntent,
    build: ValidationReport,
    made: Option<CommitRecord>,
) -> CommandOutcome {
    let message = dispatch(kind, intent);
    let (_, _, runner) = run_simulated_codex_wrapper(PathStyle::Posix, &message, &policy());
    finalize_command_outcome(
        &message,
        &policy(),
        runner,
        SIMULATED_DETAIL,
        &results(build),
        git(),
        made,
    )
}

#[test]
fn read_only_guidance_mentions_no_commit_or_push() {
    let guidance = execution_intent_guidance(&ExecutionIntent::ReadOnly);
    assert!(guidance.contains("do not create commits"));
    assert!(guidance.contains("do not ask for push approval"));
}

#[test]
fn changes_are_guided_differently() {
    let guidance = execution_intent_guidance(&ExecutionIntent::WorkspaceChange);
    assert!(guidance.starts_with("Carry out the requested work"));
}

#[test]
fn requests_are_written_down() {
    let message = dispatch(JobTargetKind::Repository, ExecutionIntent::ReadOnly);
    let (path, body) = write_job_request_files(PathStyle::Posix, &message, "/w/repo/j1");
    assert_eq!(path, "/w/repo/j1/elowen-job-request.md");
    assert_eq!(
        body,
        format!(
            "# Elowen Job Request\n\n- Job: job-1\n- Thread: t-1\n- Target kind: repository\n- Target: repo\n- Branch: feature\n- Base branch: n/a\n\n- Execution intent: read_only\n\n## Requested Work\n\nplease\n\n## Execution Guidance\n\n{}\n",
            execution_intent_guidance(&ExecutionIntent::ReadOnly)
        )
    );
    let (path, body, _) = run_simulated_codex_wrapper(PathStyle::Posix, &message, &policy());
    assert_eq!(path, "/w/repo/j1/elowen-job-summary.md");
    assert_eq!(
        body,
        "# Simulated Slice 4 Execution\n\n- Job: job-1\n- Thread: t-1\n- Target kind: repository\n- Target: repo\n- Branch: feature\n- Base branch: n/a\n- Runner: simulated\n\n## Request\n\nplease\n"
    );
}

#[test]
fn status_lines_give_paths() {
    assert_eq!(normalize_git_status_path(" M src/lib.rs"), "src/lib.rs");
    assert_eq!(normalize_git_status_path("R  old.rs -> new.rs"), "new.rs");
    assert_eq!(normalize_git_status_path("??"), "??");
    assert_eq!(normalize_git_status_path("M  "), "");
    assert_eq!(normalize_git_status_path("Mé x"), "x");
    assert_eq!(normalize_git_status_path("éé x"), "éé x");
}

#[test]
fn runtime_files_are_left_out_of_reports() {
    for path in [".elowen-job.json", "elowen-job-request.md", "elowen-job-summary.md",
        "elowen-runner-error.log", "elowen-runner-output.jsonl", "elowen-codex-last-message.txt",
        ".elowen-sandbox/", ".elowen-sandboxed"] {
        assert!(is_runtime_artifact_path(path), "{path}");
    }
    assert!(!is_runtime_artifact_path("src/elowen-job-request.md"));
    let status = b" M a.rs\n?? .elowen-sandbox/\n?? .elowen-job.json\nR  x -> y\n\n   \n";
    let report = capture_git_report(status, b" a.rs | 2 +-\n\n 1 file changed \n");
    assert_eq!(report.status_lines, strings(&[" M a.rs", "R  x -> y"]));
    assert_eq!(report.changed_files, strings(&["a.rs", "y"]));
    assert_eq!(report.diff_stat.as_deref(), Some("a.rs | 2 +-\n1 file changed"));
    let clean = capture_git_report(b"", b"\n");
    assert_eq!(clean.diff_stat, None);
    assert!(clean.changed_files.is_empty());
}

#[test]
fn process_outputs_are_summarized() {
    assert_eq!(summarize_process_output(" out ", " err "), "err");
    assert_eq!(summarize_process_output(" out ", "  "), "out");
    assert_eq!(summarize_process_output("", ""), "process exited without output");
    let long = "y".repeat(300);
    assert_eq!(summarize_process_output("", &long), format!("{}...", "y".repeat(240)));
    assert_eq!(summarize_command_output(b"a\n", b"b"), "stdout: a; stderr: b");
}

fn done(stdout: &[u8]) -> ProcessRun {
    ProcessRun::Exited { success: true, stdout: stdout.to_vec(), stderr: Vec::new() }
}

fn failed() -> ProcessRun {
    ProcessRun::Exited { success: false, stdout: b"o".to_vec(), stderr: b"e".to_vec() }
}

#[test]
fn commits_go_through_every_step() {
    let message = dispatch(JobTargetKind::Repository, ExecutionIntent::WorkspaceChange);
    let mut phase = maybe_create_job_commit(&git());
    let mut seen = Vec::new();
    for run in [done(b""), done(b"a.rs\n\n b.rs \n"), done(b""), done(b"0123456789abcdef\n")] {
        seen.push(commit_args(&phase, "/w", &message).unwrap());
        phase = advance_commit(phase, &message, &run).unwrap();
    }
    assert_eq!(seen[0], strings(&["-C", "/w", "add", "--", "a.rs"]));
    assert_eq!(seen[1], strings(&["-C", "/w", "diff", "--cached", "--name-only"]));
    assert_eq!(seen[2], strings(&["-C", "/w", "commit", "-m", "Elowen job j1: Fix the parser"]));
    assert_eq!(seen[3], strings(&["-C", "/w", "rev-parse", "HEAD"]));
    assert_eq!(commit_args(&phase, "/w", &message), None);
    match phase {
        CommitPhase::Finished { commit: Some(record) } => {
            assert_eq!(record.sha, "0123456789abcdef");
            assert_eq!(record.short_sha, "01234567");
            assert_eq!(record.changed_files, strings(&["a.rs", "b.rs"]));
        }
        _ => panic!("expected a commit"),
    }
}

#[test]
fn commits_report_their_failures() {
    let message = dispatch(JobTargetKind::Repository, ExecutionIntent::WorkspaceChange);
    let staging = || CommitPhase::Staging { changed_files: strings(&["a.rs"]) };
    let committing = || CommitPhase::Committing { staged_files: strings(&["a.rs"]) };
    let reading = || CommitPhase::Reading { staged_files: strings(&["a.rs"]) };
    let error = |phase: CommitPhase, run: ProcessRun| {
        advance_commit(phase, &message, &run).unwrap_err().to_text()
    };
    assert_eq!(error(staging(), ProcessRun::NotRun), "failed to stage job changes before commit");
    assert_eq!(
        error(staging(), failed()),
        "git add failed before job commit: stdout: o; stderr: e"
    );
    assert_eq!(
        error(CommitPhase::Inspecting, ProcessRun::NotRun),
        "failed to inspect staged job changes"
    );
    assert_eq!(error(committing(), ProcessRun::NotRun), "failed to create job commit");
    assert_eq!(
        error(committing(), failed()),
        "git commit failed for job `j1`: stdout: o; stderr: e"
    );
    assert_eq!(error(reading(), ProcessRun::NotRun), "failed to read committed job revision");
    assert_eq!(
        error(reading(), failed()),
        "git rev-parse failed after job commit: stdout: o; stderr: e"
    );
    assert_eq!(
        advance_commit(CommitPhase::Inspecting, &message, &failed()).unwrap(),
        CommitPhase::Committing { staged_files: strings(&["o"]) }
    );
    assert_eq!(
        advance_commit(CommitPhase::Inspecting, &message, &done(b"\n")).unwrap(),
        CommitPhase::Finished { commit: None }
    );
    let clean = GitReport { status_lines: Vec::new(), diff_stat: None, changed_files: Vec::new() };
    assert_eq!(maybe_create_job_commit(&clean), CommitPhase::Finished { commit: None });
}

#[test]
fn commit_messages_are_short() {
    let mut message = dispatch(JobTargetKind::Repository, ExecutionIntent::WorkspaceChange);
    message.title = "x".repeat(60);
    assert_eq!(
        build_job_commit_message(&message),
        format!("Elowen job j1: {}...", "x".repeat(48))
    );
    let (status, diff) = git_report_args("/w");
    assert_eq!(status, strings(&["-C", "/w", "status", "--short"]));
    assert_eq!(diff, strings(&["-C", "/w", "diff", "--stat"]));
}

#[test]
fn only_committed_changes_ask_for_a_push() {
    let change = outcome(
        JobTargetKind::Repository,
        ExecutionIntent::WorkspaceChange,
        report(true),
        Some(commit()),
    );
    assert_eq!(change.result, "success");
    assert_eq!(change.failure_class, None);
    assert_eq!(
        change.detail,
        "simulated Codex wrapper completed successfully; created commit 01234567 for branch feature"
    );
    assert_eq!(
        change.approval_summary.as_deref(),
        Some("Approve push for `repo` on branch `feature` with commit `01234567` after reviewing the generated summary, validation output, and 1 changed entries.")
    );
    assert_eq!(
        change.summary_markdown,
        "# Job Summary\n\n- Result: success\n- Runner: simulated\n- Target kind: repository\n- Target: repo\n- Branch: feature\n- Execution intent: workspace_change\n- Validation config: somewhere\n\n## Request\n\nplease\n\n## Validation\n\n- Build: passed\n- Test: not_configured\n\n## Commit\n\n- Commit: `01234567` (Elowen job j1: Fix the parser)\n\n## Workspace Changes\n\n- Changed entries: 1\n- Diff stat: a.rs | 2 +-\n"
    );
    assert!(!change.execution_report.read_only_change_detected);
    let read_only = outcome(
        JobTargetKind::Repository,
        ExecutionIntent::ReadOnly,
        report(true),
        Some(commit()),
    );
    assert_eq!(read_only.approval_summary, None);
    assert_eq!(read_only.execution_report.commit, None);
    assert!(read_only.execution_report.read_only_change_detected);
    assert!(read_only.detail.ends_with(
        "; read-only mode left 1 changed entries uncommitted in the disposable worktree"
    ));
    let capability = outcome(
        JobTargetKind::Capability,
        ExecutionIntent::WorkspaceChange,
        report(true),
        Some(commit()),
    );
    assert_eq!(capability.approval_summary, None);
    assert!(capability.execution_report.changed_files.is_empty());
    assert!(capability
        .detail
        .ends_with("; capability execution produced no repository worktree changes"));
    let unchanged = outcome(
        JobTargetKind::Repository,
        ExecutionIntent::WorkspaceChange,
        report(true),
        None,
    );
    assert_eq!(unchanged.approval_summary, None);
    assert!(unchanged.detail.ends_with("; no committed repo changes were detected"));
    assert!(unchanged.summary_markdown.contains("- Commit: none\n"));
}

#[test]
fn failed_validation_has_a_class() {
    let failed = outcome(
        JobTargetKind::Repository,
        ExecutionIntent::WorkspaceChange,
        report(false),
        Some(commit()),
    );
    assert_eq!(failed.result, "failure");
    assert_eq!(failed.failure_class.as_deref(), Some("validation"));
    assert_eq!(
        failed.detail,
        "validation failed after Codex execution (build: failed, test: not_configured)"
    );
    assert_eq!(failed.approval_summary, None);
    assert_eq!(failed.execution_report.commit, None);
    let stopped = outcome(
        JobTargetKind::Repository,
        ExecutionIntent::WorkspaceChange,
        blocked(),
        None,
    );
    assert_eq!(stopped.failure_class.as_deref(), Some("sandbox"));
    assert_eq!(
        stopped.detail,
        "sandbox blocked post-execution validation (build: sandbox_blocked, test: not_configured)"
    );
    let message = dispatch(JobTargetKind::Repository, ExecutionIntent::WorkspaceChange);
    assert!(commit_is_due(&message, &results(report(true))));
    assert!(!commit_is_due(&message, &results(report(false))));
}

/// The words that `git` was run with from the end of a run on, and what the job came to.
fn finish(
    kind: JobTargetKind,
    intent: ExecutionIntent,
    build: ValidationReport,
    runs: Vec<ProcessRun>,
) -> (Vec<String>, Result<CommandOutcome, String>) {
    let message = dispatch(kind, intent);
    let policy = policy();
    let (_, _, runner) = run_simulated_codex_wrapper(PathStyle::Posix, &message, &policy);
    let run = FinishedRun {
        dispatch: &message,
        sandbox: &policy,
        runner: &runner,
        base_detail: SIMULATED_DETAIL,
    };
    let mut runs = runs.into_iter();
    let mut words = Vec::new();
    let (mut phase, mut action) = finish_run();
    loop {
        let input = match action {
            FinishAction::Validate => {
                words.push("validate".to_string());
                FinishInput::Validated { results: results(build.clone()) }
            }
            FinishAction::Report { status_args, diff_args } => {
                assert_eq!(status_args, strings(&["-C", "/w/repo/j1", "status", "--short"]));
                assert_eq!(diff_args, strings(&["-C", "/w/repo/j1", "diff", "--stat"]));
                words.push("report".to_string());
                FinishInput::Reported {
                    status: runs.next().unwrap(),
                    diff_stat: runs.next().unwrap(),
                }
            }
            FinishAction::Git { args } => {
                words.push(args[2].clone());
                FinishInput::Ran { run: runs.next().unwrap() }
            }
            FinishAction::Finish { outcome } => return (words, Ok(outcome)),
            FinishAction::BreakOff { error } => return (words, Err(error)),
            FinishAction::Wait => panic!("nothing to do"),
        };
        (phase, action) = advance_finish(&run, phase, input);
    }
}

#[test]
fn outcomes_tell_the_state_after_the_commit() {
    let change = || (JobTargetKind::Repository, ExecutionIntent::WorkspaceChange);
    let (kind, intent) = change();
    let runs = vec![
        done(b" M a.rs\n"),
        done(b" a.rs | 2 +-\n"),
        done(b""),
        done(b"a.rs\n"),
        done(b""),
        done(b"0123456789abcdef\n"),
        done(b"?? left.txt\n"),
        done(b""),
    ];
    let (words, outcome) = finish(kind, intent, report(true), runs);
    assert_eq!(
        words,
        ["validate", "report", "add", "diff", "commit", "rev-parse", "report"]
    );
    let told = outcome.unwrap().execution_report;
    assert_eq!(told.git_status, ["?? left.txt"]);
    assert_eq!(told.changed_files, ["left.txt"]);
    assert_eq!(told.diff_stat, None);
    assert_eq!(told.commit.unwrap().short_sha, "01234567");

    let (kind, intent) = change();
    let (words, outcome) =
        finish(kind, intent, report(true), vec![done(b""), done(b""), done(b"?? x\n"), done(b"")]);
    assert_eq!(words, ["validate", "report", "report"]);
    assert_eq!(outcome.unwrap().execution_report.changed_files, ["x"]);

    let (kind, intent) = change();
    let (words, outcome) =
        finish(kind, intent, report(false), vec![done(b" M a.rs\n"), done(b"s")]);
    assert_eq!(words, ["validate", "report"]);
    let told = outcome.unwrap().execution_report;
    assert_eq!(told.changed_files, ["a.rs"]);
    assert_eq!(told.diff_stat.as_deref(), Some("s"));
    assert_eq!(told.commit, None);

    let (words, outcome) = finish(
        JobTargetKind::Capability,
        ExecutionIntent::WorkspaceChange,
        report(true),
        Vec::new(),
    );
    assert_eq!(words, ["validate"]);
    assert!(outcome.unwrap().execution_report.git_status.is_empty());
}

#[test]
fn runs_break_off_where_git_does() {
    let broken = |runs: Vec<ProcessRun>| {
        finish(JobTargetKind::Repository, ExecutionIntent::WorkspaceChange, report(true), runs)
            .1
            .unwrap_err()
    };
    let lost = || ProcessRun::NotRun;
    assert_eq!(broken(vec![lost(), lost()]), "failed to capture git status");
    assert_eq!(broken(vec![done(b""), lost()]), "failed to capture git diff --stat");
    assert_eq!(
        broken(vec![done(b" M a.rs\n"), done(b""), lost()]),
        "failed to stage job changes before commit"
    );
    assert_eq!(
        broken(vec![done(b""), done(b""), lost(), done(b"")]),
        "failed to capture git status"
    );
    let message = dispatch(JobTargetKind::Repository, ExecutionIntent::WorkspaceChange);
    let policy = policy();
    let (_, _, runner) = run_simulated_codex_wrapper(PathStyle::Posix, &message, &policy);
    let run = FinishedRun {
        dispatch: &message,
        sandbox: &policy,
        runner: &runner,
        base_detail: SIMULATED_DETAIL,
    };
    let refused = FinishInput::NotValidated { error: EdgeError::new("no plan") };
    match advance_finish(&run, finish_run().0, refused).1 {
        FinishAction::BreakOff { error } => assert_eq!(error, "no plan"),
        _ => panic!("expected the run to break off"),
    }
    let early = FinishInput::Ran { run: done(b"") };
    match advance_finish(&run, finish_run().0, early) {
        (FinishPhase::Validating, FinishAction::Wait) => {}
        _ => panic!("expected the run to wait"),
    }
}
