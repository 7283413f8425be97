use elowen_edge::config::{
    config_directory, default_service_name, defaulted_strings, import_trust_key, import_write_error,
    load_file_secret, load_secret_from_path, load_trusted_orchestrator_keys,
    normalized_secret_reference, read_dpapi_secret, repos_by_default, resolve_existing_dirs,
    resolve_path, resolve_policy_paths, secret_path, strip_trailing_slashes, trimmed, unique_strings,
    warn_if_secret_permissions_are_broad, write_dpapi_secret, write_secret_value, BundleRead,
    DpapiRead, EdgeConfig, EdgeConfigFile, FileRead, HostFacts, OrchestratorSection, PathFact,
    RepositorySection, RunnerSection, SecretFacts, SecretProviderKind, SecretReference,
    SecretWrite, ServiceSection, TrustSection, TrustedOrchestratorKey,
};
use elowen_edge::error::EdgeError;
use elowen_edge::paths::{path_is_absolute, PathStyle};
use elowen_edge::sandbox::SandboxMode;
use elowen_edge::status::EdgeStatus;
use elowen_edge::timestamp::Timestamp;
use elowen_edge::tui::{
    first_run_checks, has_codex, has_device, has_orchestrator, write_codex_command, TuiModel,
};
use elowen_edge::service::ServiceStatus;

const NO_SUCH_FILE: &str = "No such file or directory (os error 2)";

fn missing() -> FileRead {
    FileRead::Missing { error: NO_SUCH_FILE.to_string() }
}

fn secret(file: FileRead) -> SecretFacts {
    SecretFacts { file, dpapi: DpapiRead::Unavailable }
}

fn host() -> HostFacts {
    HostFacts {
        style: PathStyle::Posix,
        computer_name: None,
        host_name: Some("box".to_string()),
        allowed_roots: Vec::new(),
        excluded_paths: Vec::new(),
        trust_bundle: BundleRead::NotRead,
        edge_key: secret(missing()),
        previous_edge_key: secret(missing()),
        allow_broad_permissions: None,
    }
}

fn file() -> EdgeConfigFile {
    EdgeConfigFile {
        orchestrator: OrchestratorSection {
            nats_url: Some("nats://127.0.0.1:4222".to_string()),
            ..Default::default()
        },
        repositories: RepositorySection {
            workspace_root: Some("/root".to_string()),
            ..Default::default()
        },
        ..Default::default()
    }
}

fn directory(path: &str) -> PathFact {
    PathFact::Resolved { path: path.to_string(), is_dir: true, exists: true }
}

fn error(file: EdgeConfigFile, host: HostFacts) -> String {
    EdgeConfig::from_file("/root/edge.toml", file, host).unwrap_err().to_text()
}

#[test]
fn toml_config_resolves_repo_roots_relative_to_config() {
    let mut file = file();
    file.repositories.allowed_roots = vec!["repos".to_string()];
    assert_eq!(resolve_path(PathStyle::Posix, "/root", "repos"), "/root/repos");
    let mut host = host();
    host.allowed_roots = vec![directory("/root/repos")];

    let config = EdgeConfig::from_file("/root/edge.toml", file, host).unwrap();

    assert_eq!(config.allowed_repo_roots, vec!["/root/repos".to_string()]);
    assert!(config.allowed_repos.is_empty());
}

#[test]
fn explicit_allowlist_defaults_when_roots_are_absent() {
    let config = EdgeConfig::from_file("/root/edge.toml", file(), host()).unwrap();

    assert!(config.allowed_repos.iter().any(|repo| repo == "elowen-api"));
    assert_eq!(config.allowed_repos, repos_by_default());
}

#[test]
fn service_name_defaults_and_trims() {
    let mut file = file();
    file.service = ServiceSection { name: Some(" ElowenEdge ".to_string()), ..Default::default() };

    let config = EdgeConfig::from_file("/root/edge.toml", file, host()).unwrap();

    assert_eq!(config.service_name, "ElowenEdge");
    assert_eq!(default_service_name(&None), "elowen-edge");
    assert_eq!(default_service_name(&Some("  ".to_string())), "elowen-edge");
}

#[test]
fn missing_secret_file_fails_config_load() {
    let mut file = file();
    file.trust = TrustSection {
        edge_signing_key_path: Some("missing.txt".to_string()),
        ..Default::default()
    };

    let error = match EdgeConfig::from_file("/root/edge.toml", file, host()) {
        Ok(_) => panic!("config load should fail for a missing secret file"),
        Err(error) => error,
    };

    assert!(
        error.to_text().contains("No such file") || error.to_text().contains("system cannot find")
    );
}

fn file_reference() -> SecretReference {
    SecretReference {
        provider: SecretProviderKind::File,
        path: Some("edge.key".to_string()),
        name: None,
    }
}

#[test]
fn provider_file_secret_loads_without_legacy_path() {
    let mut file = file();
    file.trust = TrustSection { edge_signing_key: Some(file_reference()), ..Default::default() };
    let mut host = host();
    host.edge_key = secret(FileRead::Read {
        mode: Some(0o100600),
        contents: "provider-secret".to_string(),
    });

    let config = EdgeConfig::from_file("/root/edge.toml", file, host).unwrap();

    assert_eq!(config.edge_signing_key.as_deref(), Some("provider-secret"));
    assert_eq!(
        config.edge_signing_key_ref.as_ref().map(|reference| reference.provider),
        Some(SecretProviderKind::File)
    );
}

#[test]
fn provider_and_legacy_key_path_conflict() {
    let mut file = file();
    file.trust = TrustSection {
        edge_signing_key_path: Some("edge.key".to_string()),
        edge_signing_key: Some(file_reference()),
        ..Default::default()
    };

    let error = match EdgeConfig::from_file("/root/edge.toml", file, host()) {
        Ok(_) => panic!("config load should fail when provider and legacy path both exist"),
        Err(error) => error,
    };

    assert!(error.to_text().contains("configure either"));
}

#[test]
fn import_key_file_provider_writes_trimmed_secret() {
    let secret = import_trust_key("source.key", &Some(" secret-value \n".to_string())).unwrap();
    assert_eq!(secret, "secret-value");
    assert_eq!(
        write_secret_value("nested/target.key", SecretProviderKind::File, false),
        Ok(SecretWrite::Plain)
    );
}

#[test]
fn imported_keys_need_a_source_and_a_provider() {
    assert_eq!(
        import_trust_key("source.key", &None).unwrap_err().to_text(),
        "failed to read source key source.key"
    );
    assert_eq!(
        import_trust_key("source.key", &Some("  \n".to_string())).unwrap_err().to_text(),
        "source key source.key is empty"
    );
    assert_eq!(write_dpapi_secret("k", true), Ok(SecretWrite::Protected));
    assert_eq!(
        write_dpapi_secret("k", false).unwrap_err().to_text(),
        "dpapi secret provider is only available on Windows; cannot write k"
    );
    assert_eq!(
        write_secret_value("k", SecretProviderKind::WindowsCredential, true).unwrap_err().to_text(),
        "windows-credential secret provider is reserved for a future backend; use dpapi or file"
    );
    assert_eq!(
        import_write_error(SecretProviderKind::Dpapi, "k").to_text(),
        "failed to write dpapi secret k"
    );
}

#[test]
fn status_reports_simulated_runner_when_codex_is_absent() {
    let config = EdgeConfig::from_file("/root/edge.toml", file(), host()).unwrap();

    let status = EdgeStatus::new(&config, Timestamp::new(0, 0).unwrap());

    assert_eq!(status.runner_mode, "simulated");
}

#[test]
fn wizard_checks_reflect_loaded_config() {
    let mut file = file();
    file.runner = RunnerSection { codex_command: Some("codex".to_string()), ..Default::default() };
    let config = EdgeConfig::from_file("/root/edge.toml", file.clone(), host());

    let model = TuiModel::load("/root/edge.toml".to_string(), Ok(file), config);

    assert!(has_orchestrator(&model));
    assert!(has_device(&model));
    assert!(has_codex(&model));
    let service = ServiceStatus { manager: "systemd".to_string(), detail: "active".to_string() };
    let checks = first_run_checks(&model, &service);
    assert!(checks.iter().any(|check| check.label == "Orchestrator" && check.ok));
    assert!(checks.iter().any(|check| check.label == "Codex runner" && check.ok));
}

#[test]
fn codex_command_can_be_written_to_config() {
    let loaded = Ok(file());

    let file =
        write_codex_command(loaded, r"C:\Users\ericw\AppData\Roaming\npm\codex.cmd").unwrap();

    assert_eq!(
        file.runner.codex_command.as_deref(),
        Some(r"C:\Users\ericw\AppData\Roaming\npm\codex.cmd")
    );
    assert_eq!(file.orchestrator.nats_url.as_deref(), Some("nats://127.0.0.1:4222"));
}

#[test]
fn files_that_do_not_parse_are_not_written() {
    let loaded = Err(EdgeError::new("failed to parse config"));
    assert_eq!(
        write_codex_command(loaded, "codex").unwrap_err().to_text(),
        "failed to parse config"
    );
    let mut before = file();
    before.runner.codex_args = vec!["--x".to_string()];
    before.runner.codex_command = Some("old".to_string());
    let after = write_codex_command(Ok(before.clone()), " new ").unwrap();
    before.runner.codex_command = Some(" new ".to_string());
    assert_eq!(after, before);
}

#[test]
fn resolved_paths_are_absolute_and_stay_so() {
    let check = |style: PathStyle, base: &str, path: &str| {
        let resolved = resolve_path(style, base, path);
        assert!(path_is_absolute(style, &resolved), "{base:?} {path:?}");
        for elsewhere in ["", "x", base] {
            assert_eq!(resolve_path(style, elsewhere, &resolved), resolved);
        }
    };
    for path in ["", "a", "../a", "/b", "./c/"] {
        check(PathStyle::Posix, "/srv", path);
        check(PathStyle::Posix, "/", path);
    }
    for base in [r"C:\srv", r"\\s\h", r"\\?\C:", r"\\?\UNC\s", r"\\.\COM1", r"\\?\x\y"] {
        for path in ["", "a", r"..\a", "/b", r"D:\c", r"\\s\h\d"] {
            check(PathStyle::Windows, base, path);
        }
    }
    assert_eq!(resolve_path(PathStyle::Windows, r"C:\srv", "D:x"), "D:x");
    assert!(!path_is_absolute(PathStyle::Windows, "D:x"));
}

#[test]
fn configured_paths_on_windows() {
    let resolve = |base: &str, path: &str| resolve_path(PathStyle::Windows, base, path);
    assert_eq!(resolve(r"C:\base", r"C:\x"), r"C:\x");
    assert_eq!(resolve(r"C:\base", r"x\y"), r"C:\base\x\y");
    assert_eq!(resolve(r"C:\base", "x/y"), r"C:\base\x/y");
    assert_eq!(resolve(r"C:\base", "/workspace"), "C:/workspace");
    assert_eq!(config_directory(PathStyle::Windows, r"C:\dir\edge.toml"), r"C:\dir");
    assert_eq!(config_directory(PathStyle::Windows, "edge.toml"), "");
    assert_eq!(config_directory(PathStyle::Posix, r"C:\dir\edge.toml"), "");

    let roots = vec![r"\\?\C:\srv\repos".to_string()];
    let one = vec!["x".to_string()];
    let facts = vec![directory(r"\\?\C:\srv\repos\x")];
    assert_eq!(
        resolve_policy_paths(PathStyle::Windows, &one, &facts, &roots),
        Ok(vec![r"\\?\C:\srv\repos\x".to_string()])
    );
    let facts = vec![directory(r"\\?\C:\srv\reposx")];
    assert!(resolve_policy_paths(PathStyle::Windows, &one, &facts, &roots).is_err());
    let facts = vec![directory(r"\\?\D:\srv\repos\x")];
    assert!(resolve_policy_paths(PathStyle::Windows, &one, &facts, &roots).is_err());
}

#[test]
fn configurations_on_windows() {
    let mut file = file();
    file.repositories.workspace_root = Some(r"C:\work".to_string());
    file.trust.orchestrator_keys_path = Some(r"secrets\trust.json".to_string());
    let mut host = host();
    host.style = PathStyle::Windows;
    host.trust_bundle = BundleRead::Parsed { keys: Vec::new() };
    let config = EdgeConfig::from_file(r"C:\Elowen\edge.toml", file, host).unwrap();
    assert_eq!(config.workspace_root, r"C:\work");
    assert_eq!(config.worktree_root, r"C:\work\.elowen\worktrees");
    assert_eq!(config.status_path, r"C:\work\.elowen\edge-state\status.json");
    assert_eq!(
        config.orchestrator_keys_path.as_deref(),
        Some(r"C:\Elowen\secrets\trust.json")
    );
}

#[test]
fn secrets_are_read_from_one_file() {
    let reference = |path: Option<&str>| {
        Some(SecretReference {
            provider: SecretProviderKind::Dpapi,
            path: path.map(str::to_string),
            name: None,
        })
    };
    let legacy = Some("old.txt".to_string());
    let at = |reference: &Option<SecretReference>, legacy: &Option<String>| {
        secret_path(PathStyle::Posix, "/etc", reference, legacy)
    };
    assert_eq!(at(&reference(Some("new.bin")), &legacy).as_deref(), Some("/etc/new.bin"));
    assert_eq!(at(&reference(Some("/k")), &None).as_deref(), Some("/k"));
    assert_eq!(at(&reference(None), &legacy), None);
    assert_eq!(at(&None, &legacy).as_deref(), Some("/etc/old.txt"));
    assert_eq!(at(&None, &None), None);
    assert_eq!(
        secret_path(PathStyle::Windows, r"C:\Elowen", &None, &legacy).as_deref(),
        Some(r"C:\Elowen\old.txt")
    );
}

#[test]
fn configurations_have_defaults() {
    let config = EdgeConfig::from_file("/root/edge.toml", file(), host()).unwrap();
    assert_eq!(config.api_url, "http://elowen-api:8080");
    assert_eq!(config.nats_url, "nats://127.0.0.1:4222");
    assert_eq!(config.device_id, "box");
    assert_eq!(config.capabilities, ["codex", "git", "build", "test", "generic_jobs"]);
    assert_eq!(config.workspace_root, "/root");
    assert_eq!(config.worktree_root, "/root/.elowen/worktrees");
    assert_eq!(config.state_dir, "/root/.elowen/edge-state");
    assert_eq!(config.status_path, "/root/.elowen/edge-state/status.json");
    assert_eq!(config.sandbox_mode, SandboxMode::Workspace);
    assert_eq!(config.codex_command, None);
    assert_eq!(config.rust_log, None);
    assert!(config.primary_flag);
    assert_eq!(config.simulated_run_ms, 1500);
    assert_eq!(config.validation_timeout_secs, 600);
    assert_eq!(config.log_format, "plain");
}

#[test]
fn configurations_say_what_is_wrong() {
    let mut bad = file();
    bad.orchestrator.nats_url = Some("  ".to_string());
    assert_eq!(error(bad, host()), "missing orchestrator.nats_url");
    let mut bad = file();
    bad.runner.sandbox_mode = Some("jail".to_string());
    assert!(error(bad, host()).starts_with("unsupported ELOWEN_SANDBOX_MODE `jail`"));
    let mut bad = file();
    bad.repositories.allowed_roots = vec!["repos".to_string()];
    assert_eq!(error(bad.clone(), host()), "failed to resolve repository root");
    let mut facts = host();
    facts.allowed_roots =
        vec![PathFact::Resolved { path: "/root/repos".to_string(), is_dir: false, exists: true }];
    assert_eq!(error(bad, facts), "configured repository root /root/repos is not a directory");
    let mut bad = file();
    bad.trust.orchestrator_keys_path = Some("bundle.json".to_string());
    assert_eq!(error(bad, host()), "failed to read trust bundle /root/bundle.json");
}

#[test]
fn trailing_slashes_are_stripped() {
    let mut given = file();
    given.orchestrator.api_url = Some("http://api//".to_string());
    let config = EdgeConfig::from_file("/root/edge.toml", given, host()).unwrap();
    assert_eq!(config.api_url, "http://api");
    assert_eq!(strip_trailing_slashes("///"), "");
}

#[test]
fn lists_are_cleaned_once_and_for_all() {
    let list: Vec<String> =
        [" b ", "a", "", "b", "a "].iter().map(|entry| entry.to_string()).collect();
    let cleaned = unique_strings(&list);
    assert_eq!(cleaned, vec!["b".to_string(), "a".to_string()]);
    assert_eq!(unique_strings(&cleaned), cleaned);
    assert_eq!(defaulted_strings(&list, vec!["x".to_string()]), cleaned);
    assert_eq!(defaulted_strings(&Vec::new(), vec!["x".to_string()]), vec!["x".to_string()]);
    assert!(defaulted_strings(&vec![" ".to_string()], vec!["x".to_string()]).is_empty());
    assert_eq!(trimmed(&Some("  ".to_string())), None);
    assert_eq!(trimmed(&Some(" x ".to_string())), Some("x".to_string()));
}

#[test]
fn exclusions_stay_within_the_roots() {
    let roots = vec!["/srv/repos".to_string()];
    let one = vec!["x".to_string()];
    assert_eq!(
        resolve_policy_paths(PathStyle::Posix, &one, &vec![directory("/srv/repos/x")], &roots),
        Ok(vec!["/srv/repos/x".to_string()])
    );
    assert_eq!(
        resolve_policy_paths(
            PathStyle::Posix,
            &one,
            &vec![directory("/srv/other")],
            &roots,
        )
        .unwrap_err()
        .to_text(),
        "configured repository policy path /srv/other is outside the trusted repository roots"
    );
    assert_eq!(
        resolve_policy_paths(
            PathStyle::Posix,
            &one,
            &vec![PathFact::Unresolved],
            &roots,
        )
        .unwrap_err()
        .to_text(),
        "failed to resolve repository policy path"
    );
    let two = vec!["a".to_string(), "b".to_string()];
    let same = vec![directory("/srv/repos"), directory("/srv/repos/")];
    assert_eq!(
        resolve_existing_dirs(PathStyle::Posix, &two, &same),
        Ok(vec!["/srv/repos".to_string()]),
    );
}

#[test]
fn broad_permissions_are_refused_unless_waived() {
    assert_eq!(warn_if_secret_permissions_are_broad("k", Some(0o100600), &None), Ok(()));
    assert_eq!(warn_if_secret_permissions_are_broad("k", None, &None), Ok(()));
    for mode in [0o640, 0o604, 0o601, 0o610] {
        assert_eq!(
            warn_if_secret_permissions_are_broad("k", Some(mode), &None).unwrap_err().to_text(),
            "secret file k is readable by group/other; restrict it to the service user"
        );
    }
    let waiver = Some(" TRUE ".to_string());
    assert_eq!(warn_if_secret_permissions_are_broad("k", Some(0o644), &waiver), Ok(()));
    assert!(warn_if_secret_permissions_are_broad("k", Some(0o644), &Some("no".to_string())).is_err());
}

#[test]
fn secrets_are_trimmed_and_must_not_be_blank() {
    let read = |contents: &str| FileRead::Read { mode: None, contents: contents.to_string() };
    assert_eq!(load_file_secret("k", &read(" s \n"), &None), Ok("s".to_string()));
    assert_eq!(
        load_file_secret("k", &read(" \n"), &None).unwrap_err().to_text(),
        "secret file k is empty"
    );
    assert_eq!(
        load_file_secret("k", &FileRead::NotRead { mode: None }, &None).unwrap_err().to_text(),
        "failed to read secret file k"
    );
    assert_eq!(load_file_secret("k", &missing(), &None).unwrap_err().to_text(), NO_SUCH_FILE);
    assert_eq!(
        read_dpapi_secret("k", &DpapiRead::Read { secret: b" s ".to_vec() }),
        Ok("s".to_string())
    );
    assert_eq!(
        read_dpapi_secret("k", &DpapiRead::Unavailable).unwrap_err().to_text(),
        "dpapi secret provider is only available on Windows; cannot read k"
    );
    assert_eq!(
        read_dpapi_secret("k", &DpapiRead::NotRead).unwrap_err().to_text(),
        "failed to read DPAPI secret k"
    );
    assert_eq!(
        read_dpapi_secret("k", &DpapiRead::Read { secret: vec![0xff] }).unwrap_err().to_text(),
        "DPAPI secret k is not valid UTF-8"
    );
    assert_eq!(
        read_dpapi_secret("k", &DpapiRead::NotUnprotected { error: "bad".to_string() })
            .unwrap_err()
            .to_text(),
        "bad"
    );
    assert_eq!(
        load_secret_from_path(
            SecretProviderKind::WindowsCredential,
            "k",
            &secret(missing()),
            &None
        )
        .unwrap_err()
        .to_text(),
        "windows-credential secret provider is reserved for a future backend; use dpapi or file"
    );
}

#[test]
fn references_are_normalized() {
    assert_eq!(normalized_secret_reference("key", &None, &None), Ok(None));
    assert_eq!(
        normalized_secret_reference("key", &None, &Some("edge.key".to_string())),
        Ok(Some(file_reference()))
    );
    assert_eq!(
        normalized_secret_reference("key", &Some(file_reference()), &Some("x".to_string()))
            .unwrap_err()
            .to_text(),
        "configure either the provider-backed key or legacy path x, not both"
    );
}

#[test]
fn trust_bundles_are_checked() {
    let path = Some("bundle.json".to_string());
    let key = |public_key: &str| TrustedOrchestratorKey {
        key_id: None,
        public_key: public_key.to_string(),
    };
    let load = |read: BundleRead| load_trusted_orchestrator_keys(
        PathStyle::Posix,
        "/etc",
        &path,
        read,
    );
    assert_eq!(
        load_trusted_orchestrator_keys(PathStyle::Posix, "/etc", &None, BundleRead::NotRead),
        Ok(Vec::new()),
    );
    assert_eq!(load(BundleRead::Parsed { keys: vec![key("k")] }), Ok(vec![key("k")]));
    assert_eq!(
        load(BundleRead::Parsed { keys: vec![key("k"), key(" ")] }).unwrap_err().to_text(),
        "trust bundle /etc/bundle.json contains an empty public key"
    );
    assert_eq!(
        load(BundleRead::NotParsed).unwrap_err().to_text(),
        "failed to parse trust bundle /etc/bundle.json"
    );
    assert_eq!(
        load(BundleRead::NotRead).unwrap_err().to_text(),
        "failed to read trust bundle /etc/bundle.json"
    );
    assert_eq!(
        load(BundleRead::Missing { error: NO_SUCH_FILE.to_string() }).unwrap_err().to_text(),
        NO_SUCH_FILE
    );
}
