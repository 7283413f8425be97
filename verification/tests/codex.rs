use elowen_edge::codex::{
    build_codex_exec_args, codex_detail, codex_environment, codex_paths,
    extract_codex_event_messages, is_redundant_codex_arg, preflight_codex_runner,
    preflight_version, prepare_codex_launch, run_codex_cli, validate_codex_args, CodexRun,
    VersionRun,
};
use elowen_edge::contracts::{ExecutionIntent, JobDispatchMessage, JobTargetKind};
use elowen_edge::error::EdgeError;
use elowen_edge::execution::RunnerReport;
use elowen_edge::paths::PathStyle;
use elowen_edge::sandbox::{prepare_sandbox_policy, EnvVar, SandboxMode, SandboxPolicy};
use elowen_edge::timestamp::Timestamp;

fn strings(values: &[&str]) -> Vec<String> {
    values.iter().map(|value| value.to_string()).collect()
}

fn dispatch(kind: JobTargetKind) -> JobDispatchMessage {
    JobDispatchMessage {
        job_id: "job-1".to_string(),
        short_id: "j1".to_string(),
        correlation_id: "c-1".to_string(),
        thread_id: "t-1".to_string(),
        title: "title".to_string(),
        device_id: "edge".to_string(),
        target_kind: kind,
        target_name: "repo".to_string(),
        base_branch: Some("main".to_string()),
        branch_name: None,
        prompt: "please".to_string(),
        execution_intent: ExecutionIntent::WorkspaceChange,
        dispatched_at: Timestamp::new(0, 0).unwrap(),
    }
}

fn policy() -> SandboxPolicy {
    prepare_sandbox_policy(
        PathStyle::Posix,
        SandboxMode::Workspace,
        "/w",
        "/w/repo/j1",
        Some("/w".to_string()),
        Some("/w/repo/j1".to_string()),
    )
    .unwrap()
}

fn value<'a>(environment: &'a [EnvVar], name: &str) -> Option<&'a str> {
    environment
        .iter()
        .rev()
        .find(|variable| variable.name == name)
        .map(|variable| variable.value.as_str())
}

#[test]
fn extra_arguments_must_be_extra() {
    assert_eq!(validate_codex_args(&strings(&["--full-auto", " ", "-m", "x"])), Ok(()));
    let error = |arg: &str| validate_codex_args(&strings(&["-m", arg])).unwrap_err().to_text();
    for arg in ["exec", "e", "-", "review", "resume"] {
        assert_eq!(
            error(&format!(" {arg} ")),
            format!("ELOWEN_CODEX_ARGS_JSON should contain extra Codex exec flags only; remove `{arg}`")
        );
    }
    for arg in ["-C", "--cd", "-o", "--output-last-message"] {
        assert_eq!(
            error(arg),
            format!("ELOWEN_CODEX_ARGS_JSON must not include `{arg}` because elowen-edge manages the working directory and output paths")
        );
    }
    for arg in ["--cd=/", "--output-last-message=x"] {
        assert_eq!(
            error(arg),
            "ELOWEN_CODEX_ARGS_JSON must not override Codex working directory or output file paths"
        );
    }
}

#[test]
fn arguments_are_put_together() {
    assert_eq!(
        build_codex_exec_args(&strings(&["--json", "-m", " --ephemeral ", "x"]), "/w", "/w/last"),
        Ok(strings(&[
            "exec", "--json", "--ephemeral", "-C", "/w", "-o", "/w/last", "-m", "x", "-",
        ]))
    );
    assert!(is_redundant_codex_arg(" --json "));
    assert!(!is_redundant_codex_arg("--js"));
    assert!(build_codex_exec_args(&strings(&["exec"]), "/w", "/w/last").is_err());
}

#[test]
fn environments_describe_the_job() {
    let environment = codex_environment(
        PathStyle::Posix,
        &dispatch(JobTargetKind::Repository),
        &policy(),
    );
    assert_eq!(value(&environment, "ELOWEN_JOB_ID"), Some("job-1"));
    assert_eq!(value(&environment, "ELOWEN_WORKTREE_PATH"), Some("/w/repo/j1"));
    assert_eq!(value(&environment, "ELOWEN_REQUEST_TEXT"), Some("please"));
    assert_eq!(value(&environment, "ELOWEN_JOB_TARGET_KIND"), Some("repository"));
    assert_eq!(value(&environment, "ELOWEN_REPO_NAME"), Some("repo"));
    assert_eq!(value(&environment, "ELOWEN_CAPABILITY_NAME"), None);
    assert_eq!(value(&environment, "ELOWEN_BRANCH_NAME"), None);
    assert_eq!(value(&environment, "ELOWEN_BASE_BRANCH"), Some("main"));
    assert_eq!(value(&environment, "TMP"), Some("/w/repo/j1/.elowen-sandbox/tmp"));
    let environment = codex_environment(
        PathStyle::Posix,
        &dispatch(JobTargetKind::Capability),
        &policy(),
    );
    assert_eq!(value(&environment, "ELOWEN_REPO_NAME"), None);
    assert_eq!(value(&environment, "ELOWEN_CAPABILITY_NAME"), Some("repo"));
}

#[test]
fn launches_run_in_the_worktree() {
    let message = dispatch(JobTargetKind::Repository);
    let resolved = Some("/w/repo/j1".to_string());
    let launch =
        prepare_codex_launch(
            PathStyle::Posix,
            &message,
            &policy(),
            "codex",
            &Vec::new(),
            &resolved,
        )
        .unwrap();
    assert_eq!(launch.command, "codex");
    assert_eq!(launch.working_dir, "/w/repo/j1");
    assert_eq!(launch.args.last().map(|arg| arg.as_str()), Some("-"));
    assert_eq!(
        prepare_codex_launch(PathStyle::Posix, &message, &policy(), "codex", &Vec::new(), &None)
            .unwrap_err()
            .to_text(),
        "failed to resolve sandbox root /w/repo/j1"
    );
    let bad = strings(&["-"]);
    assert!(prepare_codex_launch(
        PathStyle::Posix,
        &message,
        &policy(),
        "codex",
        &bad,
        &resolved,
    )
    .is_err());
}

#[test]
fn agent_messages_are_picked_out() {
    let stdout = b"{\"item\":{\"type\":\"agent_message\",\"text\":\" hello \"}}\nnot json\n\
{\"item\":{\"type\":\"tool\",\"text\":\"no\"}}\n{\"item\":{\"type\":\"agent_message\"}}\n\
{\"type\":\"agent_message\",\"text\":\"no\"}\n[]\n\
{\"item\":{\"text\":\"caf\\u00e9\",\"type\":\"agent_message\"}}\r\n";
    assert_eq!(extract_codex_event_messages(stdout), strings(&["hello", "café"]));
    let long = format!(
        "{{\"item\":{{\"type\":\"agent_message\",\"text\":\"{}\"}}}}",
        "x".repeat(1001)
    );
    assert_eq!(
        extract_codex_event_messages(long.as_bytes()),
        vec![format!("{}...", "x".repeat(1000))]
    );
    assert!(extract_codex_event_messages(b"").is_empty());
}

fn error(run: CodexRun) -> String {
    run_codex_cli(PathStyle::Posix, &policy(), "codex", run).unwrap_err().to_text()
}

fn exited(success: bool) -> CodexRun {
    CodexRun::Exited {
        args: strings(&["exec"]),
        success,
        status: "exit status: 3".to_string(),
        stdout: b"{\"item\":{\"type\":\"agent_message\",\"text\":\"hi\"}}\n".to_vec(),
        stderr: b" e ".to_vec(),
        last_message: Some("  \n".to_string()),
    }
}

#[test]
fn runs_are_reported() {
    let report = run_codex_cli(PathStyle::Posix, &policy(), "codex", exited(true)).unwrap();
    assert_eq!(
        report,
        RunnerReport::CodexCli {
            command: "codex".to_string(),
            args: strings(&["exec"]),
            prompt_path: "/w/repo/j1/elowen-job-request.md".to_string(),
            output_path: "/w/repo/j1/elowen-runner-output.jsonl".to_string(),
            error_path: "/w/repo/j1/elowen-runner-error.log".to_string(),
            last_message_path: "/w/repo/j1/elowen-codex-last-message.txt".to_string(),
            last_message: None,
            event_messages: strings(&["hi"]),
            stdout: "{\"item\":{\"type\":\"agent_message\",\"text\":\"hi\"}}".to_string(),
            stderr: "e".to_string(),
        }
    );
    assert_eq!(codex_detail("codex"), "Codex CLI `codex` completed successfully");
    assert_eq!(codex_paths(PathStyle::Posix, "/w").output_path, "/w/elowen-runner-output.jsonl");
}

#[test]
fn runs_say_why_they_fail() {
    assert_eq!(
        error(CodexRun::PromptNotRead),
        "failed to read /w/repo/j1/elowen-job-request.md"
    );
    assert_eq!(error(CodexRun::Refused { error: EdgeError::new("no") }), "no");
    assert_eq!(error(CodexRun::NotStarted), "failed to start Codex CLI `codex`");
    assert_eq!(error(CodexRun::NoInput), "failed to open stdin for Codex CLI process");
    assert_eq!(error(CodexRun::PromptNotSent), "failed to send prompt to Codex CLI");
    assert_eq!(error(CodexRun::NotAwaited), "failed while waiting for Codex CLI `codex`");
    assert_eq!(
        error(CodexRun::OutputNotWritten),
        "failed to write /w/repo/j1/elowen-runner-output.jsonl"
    );
    assert_eq!(
        error(CodexRun::ErrorsNotWritten),
        "failed to write /w/repo/j1/elowen-runner-error.log"
    );
    assert_eq!(
        error(exited(false)),
        "Codex CLI failed with status exit status: 3. See /w/repo/j1/elowen-runner-output.jsonl and /w/repo/j1/elowen-runner-error.log"
    );
}

#[test]
fn runners_are_checked_before_they_are_used() {
    assert_eq!(preflight_codex_runner(PathStyle::Posix, &None, &strings(&["exec"])), Ok(None));
    let codex = Some("codex".to_string());
    assert_eq!(preflight_codex_runner(PathStyle::Posix, &codex, &Vec::new()), Ok(codex.clone()));
    assert!(preflight_codex_runner(PathStyle::Posix, &codex, &strings(&["exec"])).is_err());
    assert_eq!(
        preflight_codex_runner(
            PathStyle::Posix,
            &Some("bash".to_string()),
            &Vec::new(),
        )
        .unwrap_err()
        .to_text(),
        "sandbox blocked: configured Codex command `bash` is not allowed; point ELOWEN_CODEX_COMMAND at the Codex binary directly"
    );
    assert_eq!(
        preflight_version("codex", &VersionRun::NotStarted).unwrap_err().to_text(),
        "failed to start configured Codex CLI `codex`"
    );
    let run = |success: bool| VersionRun::Exited {
        success,
        status: "exit status: 1".to_string(),
        stdout: b" 1.2.3 \n".to_vec(),
    };
    assert_eq!(preflight_version("codex", &run(true)), Ok("1.2.3".to_string()));
    assert_eq!(
        preflight_version("codex", &run(false)).unwrap_err().to_text(),
        "configured Codex CLI `codex` failed preflight with status exit status: 1"
    );
}
