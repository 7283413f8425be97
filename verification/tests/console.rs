use chrono::{Local, TimeZone, Utc};
use elowen_edge::config::{
    BundleRead, DpapiRead, EdgeConfig, EdgeConfigFile, FileRead, HostFacts, OrchestratorSection,
    RepositorySection, SecretFacts, ServiceSection,
};
use elowen_edge::error::EdgeError;
use elowen_edge::execution::ProcessRun;
use elowen_edge::paths::PathStyle;
use elowen_edge::service::{
    apply_service_action, install_windows_task, powershell_path, query_service_status,
    register_script_below, render_systemd_unit, render_windows_task_command, run_service_command,
    service_name, service_status_command, windows_register_script_path, ServiceAction,
    ServiceCommand, ServiceHost, ServiceManager, ServicePlan, ServiceQuery, ServiceStatus,
};
use elowen_edge::status::{registration_guidance, runner_mode_of, trust_error_code, EdgeStatus};
use elowen_edge::timestamp::{Timestamp, FIRST_SECOND, LAST_SECOND};
use elowen_edge::tui::{
    command_for_key, config_text, dashboard_lines, diagnostics_text, discover_codex_diagnostic,
    first_run_checks, format_last_registration, has_codex, has_device, has_orchestrator, has_trust,
    has_work, lines_of_check, run_codex_preflight, service_is_installed, service_readiness_detail,
    service_text, CodexConfiguration, CodexDiscovery, Key, TuiCommand, TuiModel, TuiTab,
};

fn strings(values: &[&str]) -> Vec<String> {
    values.iter().map(|value| value.to_string()).collect()
}

fn at(secs: i64) -> Timestamp {
    Timestamp::new(secs, 0).unwrap()
}

fn file() -> EdgeConfigFile {
    EdgeConfigFile {
        orchestrator: OrchestratorSection {
            api_url: Some("http://api".to_string()),
            nats_url: Some("nats://n".to_string()),
        },
        repositories: RepositorySection {
            workspace_root: Some("/root".to_string()),
            ..Default::default()
        },
        ..Default::default()
    }
}

fn config() -> EdgeConfig {
    let missing = || SecretFacts {
        file: FileRead::Missing { error: "No such file".to_string() },
        dpapi: DpapiRead::Unavailable,
    };
    let host = HostFacts {
        style: PathStyle::Posix,
        computer_name: Some("Box".to_string()),
        host_name: None,
        allowed_roots: Vec::new(),
        excluded_paths: Vec::new(),
        trust_bundle: BundleRead::NotRead,
        edge_key: missing(),
        previous_edge_key: missing(),
        allow_broad_permissions: None,
    };
    EdgeConfig::from_file("/root/edge.toml", file(), host).unwrap()
}

fn model() -> TuiModel {
    TuiModel::load("/root/edge.toml".to_string(), Ok(file()), Ok(config()))
}

fn broken_model() -> TuiModel {
    let error = || EdgeError::new("bad config");
    TuiModel::load("/root/edge.toml".to_string(), Err(error()), Err(error()))
}

fn service(detail: &str) -> ServiceStatus {
    ServiceStatus { manager: "systemd".to_string(), detail: detail.to_string() }
}

fn status() -> EdgeStatus {
    EdgeStatus {
        config_path: "edge.toml".to_string(),
        process_started_at: at(1_777_077_000),
        updated_at: at(1_777_077_001),
        device_id: "edge".to_string(),
        runner_mode: "simulated".to_string(),
        nats_status: "connected".to_string(),
        last_registration_at: None,
        last_registration_error: None,
        last_registration_error_code: None,
        service_status: None,
    }
}

#[test]
fn tabs_support_arrow_key_ordering() {
    assert_eq!(TuiTab::Dashboard.next(), TuiTab::Wizard);
    assert_eq!(TuiTab::Wizard.next(), TuiTab::Config);
    assert_eq!(TuiTab::Diagnostics.next(), TuiTab::Dashboard);

    assert_eq!(TuiTab::Dashboard.previous(), TuiTab::Diagnostics);
    assert_eq!(TuiTab::Config.previous(), TuiTab::Wizard);
    assert_eq!(TuiTab::Diagnostics.previous(), TuiTab::Service);
}

#[test]
fn last_registration_uses_readable_utc_seconds() {
    let time = Utc.with_ymd_and_hms(2026, 4, 25, 2, 49, 39).unwrap();
    let mut status = status();
    status.last_registration_at = Some(at(time.timestamp()));

    assert_eq!(
        format_last_registration(&Some(status)),
        Utc.with_ymd_and_hms(2026, 4, 25, 2, 49, 39)
            .unwrap()
            .with_timezone(&Local)
            .format("%Y-%m-%d %H:%M:%S %:z")
            .to_string()
    );
    assert_eq!(format_last_registration(&None), "not observed locally");
}

#[test]
fn registrations_at_the_ends_of_the_calendar_are_shown() {
    for secs in [FIRST_SECOND, FIRST_SECOND + 1, LAST_SECOND - 1, LAST_SECOND] {
        let mut status = status();
        status.last_registration_at = Some(at(secs));
        let shown = Utc.timestamp_opt(secs, 0).unwrap().with_timezone(&Local);
        assert_eq!(
            format_last_registration(&Some(status)),
            shown.format("%Y-%m-%d %H:%M:%S %:z").to_string()
        );
    }
}

#[test]
fn systemd_unit_runs_edge_with_config() {
    let unit = render_systemd_unit(
        "elowen-edge",
        "/usr/local/bin/elowen-edge",
        "/etc/elowen/edge.toml",
        Some("elowen"),
    );

    assert!(unit.contains("User=elowen"));
    assert!(unit.contains("elowen-edge run --config /etc/elowen/edge.toml"));
    assert!(unit.contains("Restart=always"));
}

#[test]
fn windows_task_command_uses_hidden_registration_script() {
    let command = render_windows_task_command(
        "ElowenEdge",
        "C:\\Elowen\\elowen-edge.exe",
        "C:\\Elowen\\edge.toml",
    );

    assert!(command.contains("Register-ElowenEdgeTask.ps1"));
    assert!(command.contains("-TaskName ElowenEdge"));
    assert!(command.contains("-ConfigFile"));
}

#[test]
fn rendered_services_are_exact() {
    assert_eq!(
        render_systemd_unit("e", "/bin/e", "/c.toml", None),
        "[Unit]\nDescription=Elowen Edge Runtime (e)\nAfter=network-online.target\nWants=network-online.target\n\n[Service]\nType=simple\nExecStart=/bin/e run --config /c.toml\nRestart=always\nRestartSec=10\n\n[Install]\nWantedBy=multi-user.target\n"
    );
    assert_eq!(
        render_windows_task_command("e", "b", "c"),
        "Register-ElowenEdgeTask.ps1 -TaskName e -BinaryPath \"b\" -ConfigFile \"c\""
    );
}

#[test]
fn tabs_are_titled_and_go_round() {
    let mut tab = TuiTab::Dashboard;
    let mut titles = Vec::new();
    for _ in 0..5 {
        titles.push(tab.title());
        assert_eq!(tab.next().previous(), tab);
        tab = tab.next();
    }
    assert_eq!(tab, TuiTab::Dashboard);
    assert_eq!(titles, ["Dashboard", "First Run", "Config", "Service", "Diagnostics"]);
}

#[test]
fn keys_are_commands() {
    let tab = TuiTab::Config;
    assert_eq!(command_for_key(tab, Key::Char('q')), TuiCommand::Quit);
    assert_eq!(command_for_key(tab, Key::Esc), TuiCommand::Quit);
    assert_eq!(command_for_key(tab, Key::Down), TuiCommand::Show(TuiTab::Service));
    assert_eq!(command_for_key(tab, Key::Right), TuiCommand::Show(TuiTab::Service));
    assert_eq!(command_for_key(tab, Key::Up), TuiCommand::Show(TuiTab::Wizard));
    assert_eq!(command_for_key(tab, Key::Left), TuiCommand::Show(TuiTab::Wizard));
    for (key, shown) in [
        ('d', TuiTab::Dashboard),
        ('w', TuiTab::Wizard),
        ('c', TuiTab::Config),
        ('v', TuiTab::Service),
        ('g', TuiTab::Diagnostics),
    ] {
        assert_eq!(command_for_key(tab, Key::Char(key)), TuiCommand::Show(shown));
    }
    assert_eq!(command_for_key(tab, Key::Char('R')), TuiCommand::Reload);
    assert_eq!(command_for_key(tab, Key::Char('a')), TuiCommand::ConfigureCodex);
    for (key, action) in [
        ('i', ServiceAction::Install),
        ('s', ServiceAction::Start),
        ('x', ServiceAction::Stop),
        ('r', ServiceAction::Restart),
    ] {
        assert_eq!(command_for_key(tab, Key::Char(key)), TuiCommand::Service(action));
    }
    assert_eq!(command_for_key(tab, Key::Char('z')), TuiCommand::Ignore);
    assert_eq!(command_for_key(tab, Key::Other), TuiCommand::Ignore);
}

#[test]
fn models_follow_the_file() {
    let mut model = model();
    assert_eq!(
        model.message,
        "Arrow keys switch views. i installs, s starts, x stops, r restarts, q quits."
    );
    model.tab = TuiTab::Service;
    model.reload(Err(EdgeError::new("gone")), Err(EdgeError::new("gone")));
    assert_eq!(model.tab, TuiTab::Service);
    assert!(model.file.is_err() && model.config.is_err());
    model.apply_service_action(&Ok("done".to_string()));
    assert_eq!(model.message, "Config must parse before service actions are available.");
    model.reload(Ok(file()), Ok(config()));
    model.apply_service_action(&Ok("done".to_string()));
    assert_eq!(model.message, "done");
    model.apply_service_action(&Err(EdgeError::new("denied")));
    assert_eq!(model.message, "denied");
}

#[test]
fn codex_is_configured_from_the_console() {
    let mut model = model();
    model.configure_codex_command(CodexConfiguration::Failed { error: EdgeError::new("x") });
    assert_eq!(model.message, "Codex discovery failed: x");
    model.configure_codex_command(CodexConfiguration::NotFound);
    assert_eq!(
        model.message,
        "No runnable Codex command was found. Install Codex or add it to PATH, then press a again."
    );
    model.configure_codex_command(CodexConfiguration::NotWritten { error: EdgeError::new("y") });
    assert_eq!(model.message, "Failed to write Codex command: y");
    assert!(model.config.is_ok());
    model.configure_codex_command(CodexConfiguration::Written {
        command: "codex".to_string(),
        version: "1".to_string(),
        file: Ok(file()),
        config: Err(EdgeError::new("z")),
    });
    assert_eq!(model.message, "Configured Codex command: codex (1)");
    assert_eq!(model.config, Err(EdgeError::new("z")));
}

#[test]
fn readiness_needs_a_configuration() {
    let broken = broken_model();
    assert!(!has_orchestrator(&broken) && !has_device(&broken) && !has_work(&broken));
    assert!(!has_codex(&broken) && !has_trust(&broken));
    assert!(!service_is_installed(&broken, &service("active")));
    for check in first_run_checks(&broken, &service("active")) {
        assert!(!check.ok);
        assert!(check.detail.starts_with("config must parse before"), "{}", check.detail);
    }
}

#[test]
fn readiness_is_described() {
    let model = model();
    let checks = first_run_checks(&model, &service("active for box"));
    let labels: Vec<&str> = checks.iter().map(|check| check.label).collect();
    assert_eq!(
        labels,
        [
            "Orchestrator",
            "Device identity",
            "Work exposure",
            "Codex runner",
            "Trust material",
            "Service install"
        ]
    );
    let ok: Vec<bool> = checks.iter().map(|check| check.ok).collect();
    assert_eq!(ok, [true, true, true, false, false, true]);
    assert_eq!(checks[0].detail, "API http://api and NATS nats://n");
    assert_eq!(checks[1].detail, "Box (box)");
    assert_eq!(checks[2].detail, "0 repo roots, 5 explicit repos, 5 capabilities");
    assert_eq!(checks[3].detail, "not configured; edge will use simulated execution");
    assert_eq!(checks[4].detail, "0 trusted orchestrator key(s), edge signing key missing");
    assert_eq!(checks[5].detail, "systemd: active for box");
    assert_eq!(
        lines_of_check(&checks[0]),
        strings(&["         OK  Orchestrator - API http://api and NATS nats://n"])
    );
    assert_eq!(
        lines_of_check(&checks[3]),
        strings(&[
            "Needs setup  Codex runner - not configured; edge will use simulated execution",
            "             Next: press a to auto-discover and save [runner].codex_command, or set it manually then press Shift+R",
        ])
    );
}

#[test]
fn services_are_recognised_by_their_status() {
    let model = model();
    for detail in ["task `e` is registered for d", "Running", "Ready", "active for d"] {
        assert!(service_is_installed(&model, &service(detail)), "{detail}");
    }
    assert!(!service_is_installed(&model, &service("failed for d")));
    assert_eq!(service_readiness_detail(&model, &service("x")), "systemd: x");
}

#[test]
fn views_are_exact() {
    let model = model();
    let mut failing = status();
    failing.mark_registration_error(
        "denied: edge_key_revoked".to_string(),
        Some("edge_key_revoked".to_string()),
        at(5),
    );
    let lines = dashboard_lines(&model, &Some(failing), "never");
    assert_eq!(
        lines[..7],
        [
            "Device: Box (box)",
            "API: http://api",
            "NATS: nats://n",
            "Runner: simulated",
            "Repositories: 0 roots, 5 explicit",
            "Status file: /root/.elowen/edge-state/status.json",
            "Last registration: never",
        ]
    );
    assert_eq!(lines[7], "Last registration error: denied: edge_key_revoked");
    assert!(lines[8].starts_with("Guidance: stop this edge identity"));
    assert_eq!(
        dashboard_lines(&broken_model(), &None, "never"),
        strings(&["Config error: bad config"])
    );
    assert_eq!(
        config_text(&model),
        "Config: /root/edge.toml\nState: /root/.elowen/edge-state\nWorkspace: /root\nWorktrees: /root/.elowen/worktrees\nCapabilities: codex, git, build, test, generic_jobs\n\nEdit this TOML file in your editor, then press Shift+R here to reload validation."
    );
    assert_eq!(config_text(&broken_model()), "Config failed validation:\n\nbad config");
    assert!(service_text(&model, &service("active")).starts_with("Manager: systemd\nStatus: active\n\n"));
    assert_eq!(
        service_text(&broken_model(), &service("active")),
        "Config must validate before service controls are available:\n\nbad config"
    );
    assert_eq!(
        diagnostics_text(&model, "CODEX"),
        "Config parses successfully.\nSecret files passed permission checks.\nCODEX\n\nPress a to auto-discover and save the Codex command.\nNATS/API checks run when the service starts; see the dashboard status file after startup."
    );
    assert_eq!(diagnostics_text(&broken_model(), "CODEX"), "Config diagnostics:\n\nbad config");
}

#[test]
fn codex_diagnostics_are_exact() {
    let start = "Codex command is not configured; edge will use simulated execution.\n";
    let found =
        CodexDiscovery::Found { command: "codex".to_string(), version: "1".to_string() };
    assert_eq!(
        discover_codex_diagnostic(&found),
        format!("{start}Discovered runnable Codex command: codex (1)")
    );
    assert_eq!(
        discover_codex_diagnostic(&CodexDiscovery::NotFound),
        format!("{start}No runnable Codex command was found with Get-Command/where/which.")
    );
    assert_eq!(
        discover_codex_diagnostic(&CodexDiscovery::Failed { error: EdgeError::new("x") }),
        format!("{start}Codex discovery failed: x")
    );
    assert_eq!(run_codex_preflight(&Ok(())), "Codex preflight passed.");
    assert_eq!(
        run_codex_preflight(&Err(EdgeError::new("x"))),
        "Codex preflight failed: x"
    );
}

#[test]
fn statuses_follow_the_registration() {
    let mut status = EdgeStatus::new(&config(), at(1));
    assert_eq!(status.nats_status, "starting");
    assert_eq!(status.device_id, "box");
    assert_eq!(status.process_started_at, at(1));
    status.mark_nats("connected".to_string(), at(2));
    assert_eq!((status.nats_status.as_str(), status.updated_at), ("connected", at(2)));
    status.mark_registration_error("e".to_string(), Some("c".to_string()), at(3));
    assert_eq!(status.last_registration_error.as_deref(), Some("e"));
    assert_eq!(status.last_registration_at, None);
    status.mark_registration_success(at(4));
    assert_eq!(status.last_registration_at, Some(at(4)));
    assert_eq!(status.last_registration_error, None);
    assert_eq!(status.last_registration_error_code, None);
    assert_eq!(status.updated_at, at(4));
    assert_eq!(status.process_started_at, at(1));
    assert_eq!(runner_mode_of(&Some("codex".to_string())), "codex-cli");
}

#[test]
fn trust_errors_have_guidance() {
    for code in [
        "device_trust_revoked",
        "edge_key_revoked",
        "orchestrator_signer_retired",
        "orchestrator_signer_untrusted",
        "rotation_previous_key_mismatch",
        "rotation_previous_signature_invalid",
        "trusted_registration_required",
    ] {
        let message = format!("device registration failed with status 403: {{\"code\":\"{code}\"}}");
        assert_eq!(trust_error_code(&message).as_deref(), Some(code));
        assert!(registration_guidance(code).is_some());
    }
    assert_eq!(trust_error_code("timeout"), None);
    assert_eq!(registration_guidance("timeout"), None);
}

fn named(name: &str) -> EdgeConfigFile {
    EdgeConfigFile {
        service: ServiceSection {
            name: Some(name.to_string()),
            run_as_user: Some("elowen".to_string()),
            ..Default::default()
        },
        ..Default::default()
    }
}

fn host(manager: ServiceManager, is_root: bool) -> ServiceHost {
    ServiceHost { manager, is_root, binary_path: Some("/bin/e".to_string()) }
}

fn command(program: &str, args: &[&str]) -> ServiceCommand {
    ServiceCommand { program: program.to_string(), args: strings(args) }
}

#[test]
fn services_are_controlled_by_their_manager() {
    let plan = |action: ServiceAction, manager: ServiceManager| {
        apply_service_action(action, "/c.toml", &named("e"), &host(manager, true))
    };
    let systemd = |verb: &str| {
        Ok(ServicePlan::Run { command: command("systemctl", &[verb, "e.service"]) })
    };
    assert_eq!(plan(ServiceAction::Start, ServiceManager::Systemd), systemd("start"));
    assert_eq!(plan(ServiceAction::Stop, ServiceManager::Systemd), systemd("stop"));
    assert_eq!(plan(ServiceAction::Restart, ServiceManager::Systemd), systemd("restart"));
    let unit = render_systemd_unit("e", "/bin/e", "/c.toml", Some("elowen"));
    assert_eq!(
        plan(ServiceAction::Install, ServiceManager::Systemd),
        Ok(ServicePlan::WriteUnit {
            path: "/etc/systemd/system/e.service".to_string(),
            body: unit.clone(),
            command: command("systemctl", &["daemon-reload"]),
            message: "installed /etc/systemd/system/e.service".to_string(),
        })
    );
    assert_eq!(
        apply_service_action(
            ServiceAction::Install,
            "/c.toml",
            &named("e"),
            &host(ServiceManager::Systemd, false)
        ),
        Ok(ServicePlan::Report {
            message: format!(
                "Run as root to install, or write this unit to /etc/systemd/system/e.service:\n\n{unit}"
            ),
        })
    );
    let task = |flag: &str| command("schtasks", &[flag, "/TN", "e"]);
    assert_eq!(
        plan(ServiceAction::Restart, ServiceManager::TaskScheduler),
        Ok(ServicePlan::StopThenStart { stop: task("/End"), start: task("/Run") })
    );
    assert_eq!(
        plan(ServiceAction::Start, ServiceManager::TaskScheduler),
        Ok(ServicePlan::Run { command: task("/Run") })
    );
    assert_eq!(
        plan(ServiceAction::Install, ServiceManager::TaskScheduler),
        Ok(ServicePlan::InstallTask)
    );
    assert_eq!(
        plan(ServiceAction::Start, ServiceManager::Unsupported).unwrap_err().to_text(),
        "service management is not available for this platform"
    );
    let lost =
        ServiceHost { manager: ServiceManager::Systemd, is_root: true, binary_path: None };
    assert_eq!(
        apply_service_action(ServiceAction::Install, "/c.toml", &named("e"), &lost)
            .unwrap_err()
            .to_text(),
        "failed to resolve current executable path"
    );
}

#[test]
fn service_states_are_read() {
    assert_eq!(
        service_status_command(ServiceManager::Systemd, "e"),
        Some(command("systemctl", &["is-active", "e.service"]))
    );
    assert_eq!(
        service_status_command(ServiceManager::TaskScheduler, "e"),
        Some(command("schtasks", &["/Query", "/TN", "e"]))
    );
    assert_eq!(service_status_command(ServiceManager::Unsupported, "e"), None);
    let exited = |success: bool| ServiceQuery::Exited {
        success,
        stdout: b"inactive\n".to_vec(),
        stderr: b" ERROR \n".to_vec(),
    };
    let status = |manager: ServiceManager, query: &ServiceQuery| {
        let status = query_service_status(manager, "e", "d", query);
        (status.manager, status.detail)
    };
    let pair = |manager: &str, detail: &str| (manager.to_string(), detail.to_string());
    assert_eq!(
        status(ServiceManager::Systemd, &exited(false)),
        pair("systemd", "inactive for d")
    );
    assert_eq!(
        status(ServiceManager::TaskScheduler, &exited(true)),
        pair("Windows Task Scheduler", "task `e` is registered for d")
    );
    assert_eq!(
        status(ServiceManager::TaskScheduler, &exited(false)),
        pair("Windows Task Scheduler", "ERROR")
    );
    let lost = ServiceQuery::NotRun { error: "lost".to_string() };
    assert_eq!(status(ServiceManager::Systemd, &lost), pair("systemd", "lost"));
    assert_eq!(
        status(ServiceManager::Unsupported, &lost),
        pair(
            "unsupported",
            "No service manager integration is available for this platform."
        )
    );
}

#[test]
fn windows_tasks_are_installed_by_a_script() {
    assert_eq!(
        powershell_path(true),
        r"C:\Windows\System32\WindowsPowerShell\v1.0\powershell.exe"
    );
    assert_eq!(powershell_path(false), "powershell.exe");
    let script = r"C:\app\scripts\windows\Register-ElowenEdgeTask.ps1";
    assert_eq!(register_script_below(r"C:\app"), script);
    let app = Some(r"C:\app".to_string());
    let here = Some(r"C:\here".to_string());
    assert_eq!(
        windows_register_script_path(&app, true, &None, false),
        Ok(script.to_string())
    );
    assert_eq!(
        windows_register_script_path(&app, false, &here, true),
        Ok(r"C:\here\scripts\windows\Register-ElowenEdgeTask.ps1".to_string())
    );
    let error = |app: &Option<String>, here: &Option<String>| {
        windows_register_script_path(app, false, here, false).unwrap_err().to_text()
    };
    assert_eq!(error(&None, &None), "failed to resolve edge binary parent directory");
    assert_eq!(error(&app, &None), "failed to resolve current directory");
    assert_eq!(
        error(&app, &here),
        "Register-ElowenEdgeTask.ps1 was not found next to the installed edge binary or in the current working tree"
    );
    assert_eq!(
        install_windows_task("ps", script, "e", "c.toml", "b.exe"),
        command(
            "ps",
            &[
                "-NoProfile", "-WindowStyle", "Hidden", "-ExecutionPolicy", "Bypass", "-File",
                script, "-TaskName", "e", "-ConfigFile", "c.toml", "-BinaryPath", "b.exe",
                "-SkipTunnel",
            ]
        )
    );
}

#[test]
fn service_commands_report_their_output() {
    let run = |success: bool, stdout: &str| {
        run_service_command(&ProcessRun::Exited {
            success,
            stdout: stdout.as_bytes().to_vec(),
            stderr: b" denied\n".to_vec(),
        })
    };
    assert_eq!(run(true, " ok \n"), Ok("ok".to_string()));
    assert_eq!(run(true, "\n"), Ok("service command completed".to_string()));
    assert_eq!(run(false, "ok").unwrap_err().to_text(), "denied");
    assert_eq!(
        run_service_command(&ProcessRun::NotRun).unwrap_err().to_text(),
        "failed to run service command"
    );
    assert_eq!(service_name(&named(" e ")), " e ");
    assert_eq!(service_name(&named("  ")), "elowen-edge");
}
