use elowen_edge::error::EdgeError;
use elowen_edge::paths::{path_within, PathStyle};
use elowen_edge::sandbox::{
    apply_sandbox_environment, classify_failure, enforce_worktree_containment,
    is_disallowed_validation_program, prepare_sandbox_policy, resolve_validation_program,
    sandbox_error, sandbox_report_value, validation_program_name, EnvVar, ProgramResolution,
    SandboxMode, SandboxPolicy,
};
use elowen_edge::timestamp::Timestamp;
use elowen_edge::validation::{
    build_command_spec, decide_test, execute_validation_command, load_repo_config,
    load_validation_plan, manifest_path, prepare_validation_launch, resolve_working_dir,
    run_validation_suite, unconfigured_build_report, validation_config_path, validation_source,
    validation_status, CommandRun, CommandSpec, RepoConfigRead, ResolvedPaths, TestDecision, ValidationConfig, ValidationReport, ValidationSource,
};

fn strings(values: &[&str]) -> Vec<String> {
    values.iter().map(|value| value.to_string()).collect()
}

fn policy() -> SandboxPolicy {
    prepare_sandbox_policy(
        PathStyle::Posix,
        SandboxMode::Workspace,
        "/w",
        "/w/repo/j1",
        Some("/w".to_string()),
        Some("/w/repo/j1".to_string()),
    )
    .unwrap()
}

fn now() -> Timestamp {
    Timestamp::new(1_777_077_000, 0).unwrap()
}

#[test]
fn sandbox_mode_defaults_to_workspace() {
    assert_eq!(SandboxMode::from_env(None).unwrap(), SandboxMode::Workspace);
}

#[test]
fn sandbox_modes_are_named() {
    assert_eq!(SandboxMode::from_env(Some("  ")).unwrap(), SandboxMode::Workspace);
    assert_eq!(SandboxMode::from_env(Some(" OFF ")).unwrap(), SandboxMode::Off);
    assert_eq!(SandboxMode::from_env(Some("Workspace")).unwrap().as_str(), "workspace");
    assert_eq!(SandboxMode::Off.as_str(), "off");
    assert_eq!(
        SandboxMode::from_env(Some("Jail")).unwrap_err().to_text(),
        "unsupported ELOWEN_SANDBOX_MODE `jail`; expected `workspace` or `off`"
    );
}

#[test]
fn shell_validation_commands_are_blocked() {
    assert!(is_disallowed_validation_program(PathStyle::Posix, "powershell"));
    assert!(is_disallowed_validation_program(PathStyle::Posix, "bash"));
    assert!(!is_disallowed_validation_program(PathStyle::Posix, "cargo"));
}

#[test]
fn shells_are_blocked_however_they_are_written() {
    for shell in ["cmd", "CMD.EXE", "powershell.exe", "pwsh", "pwsh.exe", "sh", "zsh",
        "/bin/bash", r"C:\Windows\System32\cmd.exe", " sh "] {
        assert!(is_disallowed_validation_program(PathStyle::Posix, shell), "{shell}");
    }
    assert!(!is_disallowed_validation_program(PathStyle::Posix, "fish"));
}

#[test]
fn validation_program_name_uses_file_name() {
    assert_eq!(validation_program_name(PathStyle::Posix, r"C:\tools\cargo.exe"), "cargo.exe");
}

#[test]
fn program_names_on_windows() {
    let name = |program: &str| validation_program_name(PathStyle::Windows, program);
    assert_eq!(name(r"C:\tools\cargo.exe"), "cargo.exe");
    assert_eq!(name("C:/tools/Bash"), "bash");
    assert_eq!(name("C:sh"), "sh");
    assert_eq!(name(r"\\server\share"), r"\\server\share");
    assert!(is_disallowed_validation_program(PathStyle::Windows, "C:sh"));
    assert!(!is_disallowed_validation_program(PathStyle::Posix, "C:sh"));
}

#[test]
fn sandboxes_on_windows_stay_within_their_worktree() {
    let style = PathStyle::Windows;
    let root = r"\\?\C:\trees";
    let worktree = r"\\?\C:\trees\repo\j1";
    let policy = prepare_sandbox_policy(
        style,
        SandboxMode::Workspace,
        root,
        worktree,
        Some(root.to_string()),
        Some(worktree.to_string()),
    )
    .unwrap();
    assert_eq!(policy.temp_root, r"\\?\C:\trees\repo\j1\.elowen-sandbox\tmp");
    for path in [&policy.sandbox_root, &policy.temp_root, &policy.cache_root, &policy.policy_path] {
        assert!(path_within(style, path, worktree), "{path}");
    }
    let check = |path: &str| {
        enforce_worktree_containment(
            style,
            worktree,
            path,
            "program",
            Some(worktree.to_string()),
            Some(path.to_string()),
        )
    };
    assert_eq!(check(r"\\?\C:\trees\repo\j1\x.exe").unwrap(), r"\\?\C:\trees\repo\j1\x.exe");
    assert_eq!(
        check(r"\\?\C:\trees\repo\j12").unwrap_err().to_text(),
        escape_error(r"\\?\C:\trees\repo\j12", worktree)
    );
    assert!(check(r"\\?\D:\trees\repo\j1\x.exe").is_err());
    assert_eq!(
        resolve_validation_program(style, worktree, r"bin\check.exe").unwrap(),
        ProgramResolution::Contained {
            candidate: r"\\?\C:\trees\repo\j1\bin\check.exe".to_string(),
        }
    );
    assert_eq!(
        resolve_validation_program(style, worktree, "cargo.exe").unwrap(),
        ProgramResolution::SearchPath { program: "cargo.exe".to_string() }
    );
}

fn escape_error(path: &str, root: &str) -> String {
    format!("sandbox blocked: program `{path}` escapes sandbox root `{root}`")
}

#[test]
fn program_names_fall_back_to_the_program() {
    assert_eq!(validation_program_name(PathStyle::Posix, "/usr/bin/Cargo"), "cargo");
    assert_eq!(validation_program_name(PathStyle::Posix, ".."), "..");
    assert_eq!(validation_program_name(PathStyle::Posix, "/"), "/");
}

#[test]
fn policies_lie_within_the_worktree() {
    let policy = policy();
    assert_eq!(policy.sandbox_root, "/w/repo/j1/.elowen-sandbox");
    assert_eq!(policy.temp_root, "/w/repo/j1/.elowen-sandbox/tmp");
    assert_eq!(policy.cache_root, "/w/repo/j1/.elowen-sandbox/cache");
    assert_eq!(policy.policy_path, "/w/repo/j1/.elowen-sandbox/policy.json");
    let mut command: Vec<EnvVar> = Vec::new();
    apply_sandbox_environment(PathStyle::Posix, &mut command, &policy);
    assert_eq!(command.len(), 13);
    for variable in &command {
        if variable.name != "ELOWEN_SANDBOX_MODE" {
            assert!(variable.value.starts_with("/w/repo/j1"), "{variable:?}");
        }
    }
    let report = sandbox_report_value(&policy);
    assert_eq!(report.mode, "workspace");
    assert_eq!(report.cache_redirects.len(), 10);
    assert!(report.validation_shells_blocked && report.working_dir_must_stay_within_worktree);
    for name in &report.cache_redirects {
        assert!(command.iter().any(|variable| &variable.name == name));
    }
}

#[test]
fn policies_outside_the_worktree_root_are_refused() {
    let error = prepare_sandbox_policy(
        PathStyle::Posix,
        SandboxMode::Off,
        "/w",
        "/w/../etc",
        Some("/w".to_string()),
        Some("/etc".to_string()),
    )
    .unwrap_err();
    assert_eq!(
        error.to_text(),
        "sandbox blocked: job worktree `/etc` escapes sandbox root `/w`"
    );
}

#[test]
fn containment_reports_what_does_not_resolve() {
    let resolved = || Some("/w".to_string());
    assert_eq!(
        enforce_worktree_containment(
            PathStyle::Posix,
            "/w",
            "/w/x",
            "thing",
            None,
            None,
        )
        .unwrap_err()
        .to_text(),
        "failed to resolve sandbox root /w"
    );
    assert_eq!(
        enforce_worktree_containment(PathStyle::Posix, "/w", "/w/x", "thing", resolved(), None)
            .unwrap_err()
            .to_text(),
        "failed to resolve thing /w/x"
    );
    assert_eq!(
        enforce_worktree_containment(
            PathStyle::Posix,
            "/w",
            "/w/x",
            "thing",
            resolved(),
            Some("/w/x".to_string()),
        ),
        Ok("/w/x".to_string())
    );
    assert!(
        enforce_worktree_containment(
            PathStyle::Posix,
            "/w",
            "/wx",
            "thing",
            resolved(),
            Some("/wx".to_string()),
        )
            .is_err()
    );
}

#[test]
fn sandbox_errors_are_told_from_others() {
    let error = sandbox_error("no way");
    assert_eq!(error.to_text(), "sandbox blocked: no way");
    assert_eq!(classify_failure(&error), ("sandbox".to_string(), "no way".to_string()));
    let other = EdgeError::new("broken");
    assert_eq!(classify_failure(&other), ("execution".to_string(), "broken".to_string()));
}

#[test]
fn programs_are_looked_up_or_contained() {
    assert_eq!(
        resolve_validation_program(PathStyle::Posix, "/w/r", "cargo"),
        Ok(ProgramResolution::SearchPath { program: "cargo".to_string() })
    );
    assert_eq!(
        resolve_validation_program(PathStyle::Posix, "/w/r", "./run"),
        Ok(ProgramResolution::Contained { candidate: "/w/r/./run".to_string() })
    );
    assert_eq!(
        resolve_validation_program(PathStyle::Posix, "/w/r", "/usr/bin/make"),
        Ok(ProgramResolution::Contained { candidate: "/usr/bin/make".to_string() })
    );
    assert_eq!(
        resolve_validation_program(PathStyle::Posix, "/w/r", "bash").unwrap_err().to_text(),
        "sandbox blocked: validation command `bash` is not allowed; invoke a direct executable instead of a shell"
    );
}

#[test]
fn command_specs_are_trimmed() {
    assert_eq!(build_command_spec(&None, "/w"), Ok(None));
    let spec = build_command_spec(&Some(strings(&[" cargo ", "", "check"])), "/w").unwrap();
    assert_eq!(spec.unwrap().argv, strings(&["cargo", "check"]));
    assert_eq!(
        build_command_spec(&Some(strings(&[" ", ""])), "/w").unwrap_err().to_text(),
        "validation command entries must not be empty"
    );
}

#[test]
fn working_directories_must_exist() {
    assert_eq!(resolve_working_dir(PathStyle::Posix, "/w", &None, false), Ok("/w".to_string()));
    assert_eq!(
        resolve_working_dir(PathStyle::Posix, "/w", &Some("  ".to_string()), false),
        Ok("/w".to_string()),
    );
    assert_eq!(
        resolve_working_dir(PathStyle::Posix, "/w", &Some(" sub ".to_string()), true),
        Ok("/w/sub".to_string()),
    );
    assert_eq!(
        resolve_working_dir(
            PathStyle::Posix,
            "/w",
            &Some("sub".to_string()),
            false,
        )
        .unwrap_err()
        .to_text(),
        "configured validation working_dir does not exist: /w/sub"
    );
}

#[test]
fn the_repository_comes_before_its_manifest() {
    let config = || ValidationConfig {
        build: Some(strings(&["make"])),
        test: None,
        working_dir: None,
    };
    for has_manifest in [false, true] {
        match validation_source(Some(config()), has_manifest) {
            ValidationSource::Repository { config } => {
                assert_eq!(config.build, Some(strings(&["make"])));
            }
            _ => panic!("expected the configuration of the repository"),
        }
    }
    assert!(matches!(validation_source(None, true), ValidationSource::CargoManifest));
    assert!(matches!(validation_source(None, false), ValidationSource::Nothing));

    let load = |read: RepoConfigRead| load_repo_config(PathStyle::Posix, "/w", read);
    assert!(load(RepoConfigRead::Missing).unwrap().is_none());
    assert!(load(RepoConfigRead::Parsed { config: config() }).unwrap().is_some());
    let error = |read: RepoConfigRead| load(read).err().unwrap().to_text();
    assert_eq!(error(RepoConfigRead::NotRead), "failed to read /w/.assistant/config.toml");
    assert_eq!(error(RepoConfigRead::NotParsed), "failed to parse /w/.assistant/config.toml");
    assert_eq!(manifest_path(PathStyle::Posix, "/w"), "/w/Cargo.toml");
}

#[test]
fn plans_come_from_the_repository_or_its_manifest() {
    assert_eq!(validation_config_path(PathStyle::Posix, "/w"), "/w/.assistant/config.toml");
    let plan = load_validation_plan(
        PathStyle::Posix,
        "/w",
        &ValidationSource::CargoManifest,
        false,
    )
    .unwrap();
    assert_eq!(plan.build.unwrap().argv, strings(&["cargo", "check"]));
    assert_eq!(plan.test.unwrap().argv, strings(&["cargo", "test", "--quiet"]));
    assert_eq!(plan.config_source, "inferred from Cargo.toml");
    let plan = load_validation_plan(
        PathStyle::Posix,
        "/w",
        &ValidationSource::Nothing,
        false,
    )
    .unwrap();
    assert!(plan.build.is_none() && plan.test.is_none());
    assert_eq!(plan.config_source, "no repository validation config found");
    let config = ValidationConfig {
        build: None,
        test: Some(strings(&["make", "test"])),
        working_dir: Some("sub".to_string()),
    };
    let source = ValidationSource::Repository { config };
    let plan = load_validation_plan(PathStyle::Posix, "/w", &source, true).unwrap();
    assert!(plan.build.is_none());
    assert_eq!(plan.test.unwrap().working_dir, "/w/sub");
    assert_eq!(plan.config_source, "repo config at /w/.assistant/config.toml");
    assert!(load_validation_plan(PathStyle::Posix, "/w", &source, false).is_err());
}

#[test]
fn launches_stay_in_the_sandbox() {
    let policy = policy();
    let spec = CommandSpec { argv: strings(&["cargo", "check"]), working_dir: "/w/repo/j1".to_string() };
    let resolved = ResolvedPaths {
        worktree: Some("/w/repo/j1".to_string()),
        working_dir: Some("/w/repo/j1".to_string()),
        program: None,
    };
    let launch = prepare_validation_launch(PathStyle::Posix, &spec, &policy, &resolved).unwrap();
    assert_eq!(launch.program, "cargo");
    assert_eq!(launch.args, strings(&["check"]));
    assert_eq!(launch.working_dir, "/w/repo/j1");
    assert_eq!(launch.environment.len(), 13);
    let spec = CommandSpec { argv: strings(&["./run"]), working_dir: "/w/repo/j1".to_string() };
    let outside = ResolvedPaths {
        worktree: Some("/w/repo/j1".to_string()),
        working_dir: Some("/w/repo/j1".to_string()),
        program: Some("/usr/bin/run".to_string()),
    };
    assert_eq!(
        prepare_validation_launch(
            PathStyle::Posix,
            &spec,
            &policy,
            &outside,
        )
        .unwrap_err()
        .to_text(),
        "sandbox blocked: validation command path `/usr/bin/run` escapes sandbox root `/w/repo/j1`"
    );
}

fn run(kind: &str, run: CommandRun) -> ValidationReport {
    let spec = CommandSpec { argv: strings(&["cargo", "check"]), working_dir: "/w".to_string() };
    execute_validation_command(kind, &spec, 600, now(), 12, &run)
}

fn exited(success: bool, stdout: &[u8]) -> CommandRun {
    CommandRun::Exited {
        program: "cargo".to_string(),
        working_dir: "/w".to_string(),
        success,
        exit_code: Some(if success { 0 } else { 101 }),
        stdout: stdout.to_vec(),
        stderr: Vec::new(),
    }
}

#[test]
fn validation_reports_say_how_far_a_command_got() {
    let blocked = run("build", CommandRun::Blocked { error: EdgeError::new("no") });
    assert_eq!(validation_status(&blocked), "sandbox_blocked");
    let timed_out = run(
        "test",
        CommandRun::TimedOut { program: "cargo".to_string(), working_dir: "/w".to_string() },
    );
    assert_eq!(validation_status(&timed_out), "failed");
    assert!(matches!(
        timed_out,
        ValidationReport::Failed { reason, .. } if reason == "test command timed out after 600 seconds"
    ));
    let not_run = run(
        "test",
        CommandRun::NotRun {
            program: "cargo".to_string(),
            working_dir: "/w".to_string(),
            reason: "No such file".to_string(),
        },
    );
    assert_eq!(validation_status(&not_run), "failed");
    let long = vec![b'x'; 5000];
    let finished = run("build", exited(true, &long));
    assert_eq!(validation_status(&finished), "passed");
    match finished {
        ValidationReport::Finished { stdout, exit_code, .. } => {
            assert_eq!(stdout.len(), 4003);
            assert!(stdout.ends_with("x..."));
            assert_eq!(exit_code, Some(0));
        }
        _ => panic!("expected a finished command"),
    }
    let broken = run("build", exited(false, &[0xff, b'a']));
    assert_eq!(validation_status(&broken), "failed");
    assert!(matches!(
        broken,
        ValidationReport::Finished { stdout, .. } if stdout == "\u{fffd}a"
    ));
}

fn decided(build: &ValidationReport, has_test: bool) -> Option<ValidationReport> {
    match decide_test(build, has_test) {
        TestDecision::Run => None,
        TestDecision::Report { report } => Some(report),
    }
}

#[test]
fn tests_are_skipped_after_a_bad_build() {
    let failed = run("build", exited(false, b""));
    let skipped = decided(&failed, true).unwrap();
    assert_eq!(
        skipped,
        ValidationReport::Skipped {
            reason: "test command was skipped because the build command failed".to_string()
        }
    );
    assert!(!run_validation_suite(failed, skipped, "x".to_string()).overall_success);
    let blocked = run("build", CommandRun::Blocked { error: EdgeError::new("no") });
    let skipped = decided(&blocked, true).unwrap();
    assert_eq!(validation_status(&skipped), "skipped");
    assert!(!run_validation_suite(blocked, skipped, "x".to_string()).overall_success);
    let passed = run("build", exited(true, b""));
    assert!(decided(&passed, true).is_none());
    let none = decided(&unconfigured_build_report(), false).unwrap();
    assert_eq!(validation_status(&none), "not_configured");
    assert!(
        run_validation_suite(unconfigured_build_report(), none, "x".to_string()).overall_success
    );
    let test = run("test", exited(false, b""));
    assert!(!run_validation_suite(passed, test, "x".to_string()).overall_success);
}
