use elowen_edge::env_import::EnvOverlay;
use elowen_edge::execution::GitReport;
use elowen_edge::paths::PathStyle;
use elowen_edge::runtime::Route;
use elowen_edge::standalone::{
    capture_git_report, entries_from_json, environment_of_command, external_log,
    parse_json_list_env, parse_list_env, route_repository_job, run_external_codex_wrapper,
    run_simulated_codex_wrapper, simulated_summary_file, state_of_worktree,
    write_job_request_files, EdgeConfig, ExternalRun, JobRunner, RepositoryJob,
};
use elowen_edge::error::EdgeError;
use elowen_edge::execution::ProcessRun;
use elowen_edge::job::JobSlot;
use elowen_edge::standalone_job::{
    advance_job, advance_worktree, create_worktree, finish_job_dispatch, handle_job_dispatch,
    register_device, run_job_execution, RepositoryEvent, RepositoryPayload, RunAction, RunInput,
    RunPhase,
};
use elowen_edge::workspace::{WorkspaceAction, WorkspaceInput, WriteResult};
use elowen_edge::timestamp::Timestamp;

fn strings(values: &[&str]) -> Vec<String> {
    values.iter().map(|value| value.to_string()).collect()
}

fn env(pairs: &[(&str, &str)]) -> EnvOverlay {
    let mut overlay = EnvOverlay::new();
    for (name, value) in pairs {
        overlay.insert(name.to_string(), value.to_string());
    }
    overlay
}

fn job() -> RepositoryJob {
    RepositoryJob {
        job_id: "job-1".to_string(),
        short_id: "j1".to_string(),
        thread_id: "t-1".to_string(),
        title: "title".to_string(),
        device_id: "edge".to_string(),
        repo_name: "repo".to_string(),
        base_branch: "main".to_string(),
        branch_name: "feature".to_string(),
        request_text: "please".to_string(),
        dispatched_at: Timestamp::new(0, 0).unwrap(),
    }
}

#[test]
fn jobs_for_other_devices_are_dropped() {
    assert_eq!(route_repository_job(&Some(job()), "edge"), Route::Accepted);
    assert_eq!(route_repository_job(&Some(job()), "Edge"), Route::Mismatched);
    assert_eq!(route_repository_job(&None, "edge"), Route::NotDecoded);
}

#[test]
fn worktrees_are_read_by_two_commands() {
    let done = |stdout: &[u8]| ProcessRun::Exited {
        success: false,
        stdout: stdout.to_vec(),
        stderr: Vec::new(),
    };
    let error = |status: ProcessRun, diff_stat: ProcessRun| {
        state_of_worktree(&status, &diff_stat).unwrap_err().to_text()
    };
    assert_eq!(error(ProcessRun::NotRun, done(b"")), "failed to capture git status");
    assert_eq!(error(done(b""), ProcessRun::NotRun), "failed to capture git diff --stat");
    assert_eq!(
        state_of_worktree(&done(b"?? a\n"), &done(b" s \n")),
        Ok(capture_git_report(b"?? a\n", b" s \n"))
    );
}

fn git() -> GitReport {
    GitReport {
        status_lines: strings(&["M a"]),
        diff_stat: Some("a | 1 +".to_string()),
        changed_files: strings(&["a"]),
    }
}

#[test]
fn environments_have_defaults() {
    let config =
        EdgeConfig::from_env(
            PathStyle::Posix,
            &env(&[("ELOWEN_NATS_URL", "nats://n"), ("HOSTNAME", "My Box")]),
        )
            .unwrap();
    assert_eq!(config.api_url, "http://elowen-api:8080");
    assert_eq!(config.device_id, "my-box");
    assert_eq!(config.device_name, "My Box");
    assert!(config.primary_flag);
    assert_eq!(
        config.allowed_repos,
        ["elowen-api", "elowen-ui", "elowen-edge", "elowen-notes", "elowen-platform"]
    );
    assert_eq!(config.capabilities, ["codex", "git", "build", "test"]);
    assert_eq!(config.workspace_root, "/workspace");
    assert_eq!(config.worktree_root, "/workspace/.elowen/worktrees");
    assert_eq!(config.codex_command, None);
    assert!(config.codex_args.is_empty());
    assert_eq!(config.simulated_run_ms, 1500);
}

#[test]
fn environments_are_read() {
    let config = EdgeConfig::from_env(PathStyle::Posix, &env(&[
        ("ELOWEN_NATS_URL", "nats://n"),
        ("ELOWEN_API_URL", "http://api/"),
        ("ELOWEN_DEVICE_ID", " id "),
        ("ELOWEN_DEVICE_PRIMARY", "off"),
        ("ELOWEN_ALLOWED_REPOS", " a,,b,a"),
        ("ELOWEN_EDGE_WORKSPACE_ROOT", "/ws"),
        ("ELOWEN_CODEX_COMMAND", " codex "),
        ("ELOWEN_CODEX_ARGS_JSON", "[\"-m\",\"x\"]"),
        ("ELOWEN_SIMULATED_RUN_MS", "7"),
    ]))
    .unwrap();
    assert_eq!(config.api_url, "http://api");
    assert_eq!(config.device_id, " id ");
    assert!(!config.primary_flag);
    assert_eq!(config.allowed_repos, ["a", "b"]);
    assert_eq!(config.worktree_root, "/ws/.elowen/worktrees");
    assert_eq!(config.codex_command.as_deref(), Some("codex"));
    assert_eq!(config.codex_args, ["-m", "x"]);
    assert_eq!(config.simulated_run_ms, 7);
    assert_eq!(
        EdgeConfig::from_env(PathStyle::Posix, &env(&[])).unwrap_err().to_text(),
        "missing ELOWEN_NATS_URL"
    );
}

#[test]
fn list_variables_are_parsed() {
    let default = strings(&["x"]);
    assert_eq!(parse_list_env(&env(&[]), "L", &default), strings(&["x"]));
    assert!(parse_list_env(&env(&[("L", " , ")]), "L", &default).is_empty());
    assert_eq!(parse_json_list_env(&env(&[]), "L"), Ok(Vec::new()));
    assert_eq!(parse_json_list_env(&env(&[("L", "  ")]), "L"), Ok(Vec::new()));
    assert_eq!(parse_json_list_env(&env(&[("L", "[\"a\"]")]), "L"), Ok(strings(&["a"])));
    assert_eq!(
        parse_json_list_env(&env(&[("L", "a")]), "L").unwrap_err().to_text(),
        "failed to parse L as a JSON string array"
    );
    let given = Some("x".to_string());
    assert_eq!(entries_from_json("L", &given, Some(strings(&["a"]))), Ok(strings(&["a"])));
    assert!(entries_from_json("L", &given, None).is_err());
}

#[test]
fn job_files_are_exact() {
    assert_eq!(
        write_job_request_files(PathStyle::Posix, &job(), "/w"),
        (
            "/w/elowen-job-request.md".to_string(),
            "# Elowen Job Request\n\n- Job: job-1\n- Thread: t-1\n- Repo: repo\n- Branch: feature\n- Base branch: main\n\n## Requested Work\n\nplease\n".to_string()
        )
    );
    assert_eq!(
        simulated_summary_file(PathStyle::Posix, &job(), "/w"),
        (
            "/w/elowen-job-summary.md".to_string(),
            "# Simulated Slice 4 Execution\n\n- Job: job-1\n- Thread: t-1\n- Repo: repo\n- Branch: feature\n- Base branch: main\n- Runner: simulated\n\n## Request\n\nplease\n".to_string()
        )
    );
}

#[test]
fn reports_keep_every_line() {
    let report = capture_git_report(b" M a.rs\n?? .elowen-job.json\n\nX\n", b"");
    assert_eq!(report.status_lines, strings(&["M a.rs", "?? .elowen-job.json", "X"]));
    assert_eq!(report.changed_files, strings(&[".rs", ".elowen-job.json", "X"]));
    assert_eq!(report.diff_stat, None);
}

#[test]
fn simulated_outcomes_are_exact() {
    let outcome = run_simulated_codex_wrapper(PathStyle::Posix, &job(), "/w", git());
    assert_eq!(outcome.result, "success");
    assert_eq!(outcome.detail, "simulated Codex wrapper completed successfully");
    assert_eq!(
        outcome.summary_markdown,
        "# Job Summary\n\n- Result: success\n- Runner: simulated\n- Repo: repo\n- Branch: feature\n\n## Request\n\nplease\n\n## Validation\n\n- Build: not run\n- Test: not run\n\n## Workspace Changes\n\n- Changed entries: 1\n- Diff stat: a | 1 +\n"
    );
    assert_eq!(
        outcome.approval_summary,
        "Approve push for `repo` on branch `feature`. Review the generated summary and 1 changed entries before pushing."
    );
    assert_eq!(
        outcome.execution_report.runner,
        JobRunner::Simulated { summary_path: "/w/elowen-job-summary.md".to_string() }
    );
}

fn external(run: ExternalRun) -> Result<String, String> {
    run_external_codex_wrapper(
        PathStyle::Posix,
        &job(),
        "/w",
        "codex",
        &strings(&["-x"]),
        &run,
        git(),
    )
        .map(|outcome| outcome.summary_markdown)
        .map_err(|error| error.to_text())
}

fn exited(success: bool) -> ExternalRun {
    ExternalRun::Exited {
        success,
        status: "exit status: 2".to_string(),
        stdout: b" out ".to_vec(),
        stderr: b"err".to_vec(),
    }
}

#[test]
fn external_outcomes_are_exact() {
    assert_eq!(
        external(exited(true)),
        Ok("# Job Summary\n\n- Result: success\n- Runner: external\n- Repo: repo\n- Branch: feature\n\n## Request\n\nplease\n\n## Runner Output\n\n- Command: `codex`\n- Log: `/w/elowen-runner-output.log`\n\n## Workspace Changes\n\n- Changed entries: 1\n- Diff stat: a | 1 +\n".to_string())
    );
    assert_eq!(
        external(exited(false)),
        Err("Codex wrapper command failed with status exit status: 2".to_string())
    );
    assert_eq!(
        external(ExternalRun::NotRun),
        Err("failed to run Codex wrapper command `codex`".to_string())
    );
    assert_eq!(
        external(ExternalRun::LogNotWritten),
        Err("failed to write /w/elowen-runner-output.log".to_string())
    );
    assert_eq!(
        external_log(PathStyle::Posix, "/w", b" out ", b"err"),
        (
            "/w/elowen-runner-output.log".to_string(),
            "stdout:\nout\n\nstderr:\nerr\n".to_string()
        )
    );
    let environment = environment_of_command(&job(), "/w");
    assert_eq!(environment.len(), 9);
    assert_eq!(environment[7].name, "ELOWEN_WORKTREE_PATH");
    assert_eq!(environment[7].value, "/w");
}

fn now() -> Timestamp {
    Timestamp::new(1_777_077_000, 0).unwrap()
}

fn life(end: RunInput) -> (Vec<RepositoryEvent>, RunAction) {
    let mut end = Some(end);
    let mut events = Vec::new();
    let (mut phase, mut action) = run_job_execution(&job(), "edge", now());
    loop {
        let input = match &action {
            RunAction::Publish { event } => {
                events.push(event.clone());
                RunInput::Published
            }
            RunAction::CreateWorktree => RunInput::WorktreeReady { path: "/w/repo/j1".to_string() },
            RunAction::Run { path } => {
                assert_eq!(path, "/w/repo/j1");
                end.take().unwrap()
            }
            _ => return (events, action),
        };
        (phase, action) = advance_job(&job(), "edge", phase, input, now());
    }
}

#[test]
fn jobs_without_validation_report_their_whole_life() {
    let outcome = run_simulated_codex_wrapper(PathStyle::Posix, &job(), "/w/repo/j1", git());
    let report = outcome.execution_report.clone();
    let summary = outcome.approval_summary.clone();
    let (events, action) = life(RunInput::RunFinished { outcome });
    assert_eq!(action, RunAction::Finish);
    let types: Vec<&str> = events.iter().map(|event| event.event_type.as_str()).collect();
    assert_eq!(
        types,
        [
            "job.accepted",
            "job.worktree_created",
            "job.started",
            "job.completed",
            "job.awaiting_approval"
        ]
    );
    assert_eq!(
        events[1].payload,
        Some(RepositoryPayload::Target {
            repo_name: "repo".to_string(),
            branch_name: "feature".to_string(),
            base_branch: "main".to_string(),
        })
    );
    assert!(matches!(
        &events[3].payload,
        Some(RepositoryPayload::Completed { execution_report, .. }) if *execution_report == report
    ));
    assert_eq!(
        events[4].payload,
        Some(RepositoryPayload::ApprovalRequest { action_type: "push".to_string(), summary })
    );
    assert_eq!(events[0].worktree_path, None);
    assert_eq!(events[4].worktree_path.as_deref(), Some("/w/repo/j1"));

    let (events, action) = life(RunInput::RunFailed { error: EdgeError::new("broken") });
    assert_eq!(action, RunAction::Finish);
    let last = events.last().unwrap();
    assert_eq!(last.event_type, "job.failed");
    assert_eq!(last.failure_class.as_deref(), Some("execution"));
    assert_eq!(last.detail.as_deref(), Some("broken"));

    let lost = RunInput::NotPublished { error: EdgeError::new("gone") };
    let (phase, action) = advance_job(&job(), "edge", RunPhase::Accepting, lost, now());
    assert_eq!(phase, RunPhase::Ended);
    assert_eq!(action, RunAction::BreakOff { error: "gone".to_string() });
}

#[test]
fn jobs_without_validation_run_one_at_a_time() {
    let mut slot = JobSlot::new();
    let mut other = job();
    other.job_id = "job-2".to_string();
    assert_eq!(handle_job_dispatch(&mut slot, &job(), "edge", now()), None);
    let rejected = handle_job_dispatch(&mut slot, &other, "edge", now()).unwrap();
    assert_eq!(
        rejected.payload,
        Some(RepositoryPayload::ActiveJob { active_job_id: "job-1".to_string() })
    );
    let failure = Some(EdgeError::new("x"));
    let failed = finish_job_dispatch(&mut slot, &job(), "edge", &failure, now()).unwrap();
    assert_eq!(failed.detail.as_deref(), Some("x"));
    assert_eq!(failed.worktree_path, None);
    assert_eq!(slot.current(), None);
}

#[test]
fn repositories_stand_in_the_workspace() {
    let (mut phase, mut action) = create_worktree(PathStyle::Posix, &job(), "/ws");
    assert_eq!(action, WorkspaceAction::Inspect { repo_root: "/ws/repo".to_string() });
    let mut written = Vec::new();
    loop {
        let input = match &action {
            WorkspaceAction::Inspect { .. } => {
                WorkspaceInput::Inspected { exists: true, is_dir: true, has_git: true }
            }
            WorkspaceAction::CreateDirectory { path } => {
                assert_eq!(path, "/w/repo");
                WorkspaceInput::DirectoryCreated { created: true }
            }
            WorkspaceAction::Check { .. } => WorkspaceInput::Checked { exists: false },
            WorkspaceAction::AddWorktree { args } => {
                assert_eq!(
                    *args,
                    strings(&[
                        "-C", "/ws/repo", "worktree", "add", "--force", "-B", "feature",
                        "/w/repo/j1", "main",
                    ])
                );
                let run =
                    ProcessRun::Exited { success: true, stdout: Vec::new(), stderr: Vec::new() };
                WorkspaceInput::Added { run }
            }
            WorkspaceAction::WriteFile { path, body } => {
                written.push((path.clone(), body.clone()));
                WorkspaceInput::FileWritten { result: WriteResult::Written }
            }
            WorkspaceAction::WriteMetadata { path } => {
                assert_eq!(path, "/w/repo/j1/.elowen-job.json");
                WorkspaceInput::FileWritten { result: WriteResult::Written }
            }
            _ => break,
        };
        (phase, action) = advance_worktree(PathStyle::Posix, &job(), "/w", phase, input);
    }
    assert_eq!(action, WorkspaceAction::Finish { path: "/w/repo/j1".to_string() });
    assert_eq!(written, vec![write_job_request_files(PathStyle::Posix, &job(), "/w/repo/j1")]);
}

#[test]
fn minimal_edges_advertise_little() {
    let config = EdgeConfig::from_env(PathStyle::Posix, &env(&[
        ("ELOWEN_NATS_URL", "nats://n"),
        ("ELOWEN_DEVICE_NAME", "Box"),
        ("ELOWEN_ALLOWED_REPOS", "a"),
    ]))
    .unwrap();
    let request = register_device(&config);
    assert_eq!(request.name, "Box");
    assert!(request.primary_flag);
    assert_eq!(request.allowed_repos, ["a"]);
    assert_eq!(request.capabilities, ["codex", "git", "build", "test"]);
}
