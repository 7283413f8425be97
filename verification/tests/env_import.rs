use elowen_edge::config::TrustSection;
use elowen_edge::env_import::{
    config_from_env, import_env_file, import_trust_files, load_env_overlay, parse_env_file_value,
    parse_list_value, secret_directory, EnvOverlay, PlannedFile,
};
use elowen_edge::paths::PathStyle;

fn overlay(contents: &str) -> EnvOverlay {
    load_env_overlay("edge.env", &Some(contents.to_string())).unwrap()
}

fn error(contents: &str) -> String {
    load_env_overlay("edge.env", &Some(contents.to_string())).unwrap_err().to_text()
}

#[test]
fn import_env_writes_toml_and_secret_files() {
    let contents = "ELOWEN_NATS_URL=nats://127.0.0.1:4222\nELOWEN_EDGE_SIGNING_KEY=secret\n";

    let import = import_env_file(
        PathStyle::Posix,
        "/root/edge.env",
        &Some(contents.to_string()),
        "/root/edge.toml",
    )
    .unwrap();

    assert_eq!(import.secret_dir, "/root/secrets");
    assert_eq!(
        import.edge_key,
        Some(PlannedFile::Text {
            path: "/root/secrets/edge-signing-key.txt".to_string(),
            body: "secret".to_string(),
        })
    );
    assert_eq!(import.bundle, None);
    assert_eq!(import.previous_edge_key, None);
    let file = import.file.unwrap();
    assert_eq!(file.orchestrator.nats_url.as_deref(), Some("nats://127.0.0.1:4222"));
    assert_eq!(
        file.trust.edge_signing_key_path.as_deref(),
        Some("/root/secrets/edge-signing-key.txt")
    );
    assert_eq!(file.trust.edge_signing_key, None);
    assert_eq!(file.trust.orchestrator_keys_path, None);
    assert_eq!(file.trust.previous_edge_signing_key_path, None);
}

#[test]
fn imports_that_fail_say_why() {
    let unread = import_env_file(PathStyle::Posix, "edge.env", &None, "edge.toml");
    assert_eq!(unread.err().unwrap().to_text(), "failed to read env file edge.env");

    let contents = "ELOWEN_EDGE_SIGNING_KEY=k\nELOWEN_CODEX_ARGS_JSON=no\n".to_string();
    let import =
        import_env_file(PathStyle::Posix, "edge.env", &Some(contents), "edge.toml").unwrap();
    assert_eq!(import.secret_dir, "secrets");
    assert!(import.edge_key.is_some());
    assert_eq!(
        import.file.unwrap_err().to_text(),
        "failed to parse ELOWEN_CODEX_ARGS_JSON"
    );
}

#[test]
fn secrets_lie_beside_the_configuration() {
    let beside = |path: &str| secret_directory(PathStyle::Posix, path);
    assert_eq!(beside("/etc/elowen/edge.toml"), "/etc/elowen/secrets");
    assert_eq!(beside("edge.toml"), "secrets");
    assert_eq!(beside("/"), "./secrets");
    let beside = |path: &str| secret_directory(PathStyle::Windows, path);
    assert_eq!(beside(r"C:\Elowen\edge.toml"), r"C:\Elowen\secrets");
    assert_eq!(beside("C:edge.toml"), "C:secrets");
}

#[test]
fn assignments_are_read_line_by_line() {
    let overlay = overlay(
        "# comment\n\nexport A = one \n  B=\"two words\"\r\nC='x'\nD=\nA=last\nE=a=b\nF=\"odd'\n",
    );
    let get = |name: &str| overlay.get(name).map(|value| value.as_str());
    assert_eq!(get("A"), Some("last"));
    assert_eq!(get("B"), Some("two words"));
    assert_eq!(get("C"), Some("x"));
    assert_eq!(get("D"), Some(""));
    assert_eq!(get("E"), Some("a=b"));
    assert_eq!(get("F"), Some("\"odd'"));
    assert_eq!(get("#"), None);
}

#[test]
fn bad_lines_are_named() {
    assert_eq!(error("A=1\nnope\n"), "invalid env assignment in edge.env at line 2");
    assert_eq!(error("\n\n =x\n"), "invalid empty env key in edge.env at line 3");
    assert_eq!(
        load_env_overlay("edge.env", &None).unwrap_err().to_text(),
        "failed to read env file edge.env"
    );
}

#[test]
fn quotes_come_off_once() {
    assert_eq!(parse_env_file_value("\"\""), "");
    assert_eq!(parse_env_file_value("\""), "\"");
    assert_eq!(parse_env_file_value("''x''"), "'x'");
    assert_eq!(parse_env_file_value("plain"), "plain");
    assert_eq!(parse_env_file_value("\"é\""), "é");
}

#[test]
fn lists_are_split_at_commas() {
    assert_eq!(parse_list_value(" a, b ,,a"), vec!["a".to_string(), "b".to_string()]);
    assert!(parse_list_value("").is_empty());
}

#[test]
fn every_value_is_imported() {
    let overlay = overlay(
        "ELOWEN_API_URL=u\nELOWEN_DEVICE_ID=d\nELOWEN_DEVICE_NAME=n\nELOWEN_DEVICE_PRIMARY=no\n\
ELOWEN_DEVICE_CAPABILITIES=x,y\nELOWEN_EDGE_WORKSPACE_ROOT=/w\nELOWEN_EDGE_WORKTREE_ROOT=/t\n\
ELOWEN_ALLOWED_REPO_ROOTS=/a,/b\nELOWEN_ALLOWED_REPOS=r\nELOWEN_HIDDEN_REPOS=h\n\
ELOWEN_REPO_SCAN_EXCLUDE_PATHS=/a/x\nELOWEN_LOG_FORMAT=json\nRUST_LOG=debug\n\
ELOWEN_CODEX_COMMAND=codex\nELOWEN_CODEX_ARGS_JSON=[\"--full\", \"a b\"]\n\
ELOWEN_SIMULATED_RUN_MS=12\nELOWEN_VALIDATION_TIMEOUT_SECS=x\nELOWEN_SANDBOX_MODE=off\n",
    );
    let file = config_from_env(&overlay, TrustSection::default()).unwrap();
    assert_eq!(file.orchestrator.api_url.as_deref(), Some("u"));
    assert_eq!(file.orchestrator.nats_url, None);
    assert_eq!(file.device.id.as_deref(), Some("d"));
    assert_eq!(file.device.name.as_deref(), Some("n"));
    assert_eq!(file.device.primary, Some(false));
    assert_eq!(file.device.capabilities, ["x", "y"]);
    assert_eq!(file.repositories.workspace_root.as_deref(), Some("/w"));
    assert_eq!(file.repositories.worktree_root.as_deref(), Some("/t"));
    assert_eq!(file.repositories.allowed_roots, ["/a", "/b"]);
    assert_eq!(file.repositories.allowed_repos, ["r"]);
    assert_eq!(file.repositories.hidden_repos, ["h"]);
    assert_eq!(file.repositories.excluded_paths, ["/a/x"]);
    assert_eq!(file.runtime.log_format.as_deref(), Some("json"));
    assert_eq!(file.runtime.rust_log.as_deref(), Some("debug"));
    assert_eq!(file.runtime.state_dir, None);
    assert_eq!(file.runner.codex_command.as_deref(), Some("codex"));
    assert_eq!(file.runner.codex_args, ["--full", "a b"]);
    assert_eq!(file.runner.simulated_run_ms, Some(12));
    assert_eq!(file.runner.validation_timeout_secs, None);
    assert_eq!(file.runner.sandbox_mode.as_deref(), Some("off"));
    assert_eq!(file.trust, TrustSection::default());
}

#[test]
fn arguments_must_be_a_json_list_of_strings() {
    for value in ["", "[1]", "{}", "[\"a\"", "\"a\""] {
        let overlay = overlay(&format!("ELOWEN_CODEX_ARGS_JSON={value}\n"));
        assert_eq!(
            config_from_env(&overlay, TrustSection::default()).unwrap_err().to_text(),
            "failed to parse ELOWEN_CODEX_ARGS_JSON",
            "{value}"
        );
    }
}

#[test]
fn trust_bundles_are_planned() {
    let given = overlay("ELOWEN_TRUSTED_ORCHESTRATOR_KEYS_JSON=[]\nELOWEN_ORCHESTRATOR_PUBLIC_KEY=k\n");
    let import = import_trust_files(PathStyle::Posix, &given, "s");
    assert_eq!(
        import.bundle,
        Some(PlannedFile::Text {
            path: "s/orchestrator-trust.json".to_string(),
            body: "[]".to_string(),
        })
    );
    let given = overlay("ELOWEN_ORCHESTRATOR_PUBLIC_KEYS=a, b\nELOWEN_ORCHESTRATOR_PUBLIC_KEY=k\n");
    assert_eq!(
        import_trust_files(PathStyle::Posix, &given, "s").bundle,
        Some(PlannedFile::KeyList {
            path: "s/orchestrator-trust.json".to_string(),
            public_keys: vec!["a".to_string(), "b".to_string()],
        })
    );
    let given = overlay("ELOWEN_ORCHESTRATOR_PUBLIC_KEY=k\nELOWEN_PREVIOUS_EDGE_SIGNING_KEY=p\n");
    let import = import_trust_files(PathStyle::Posix, &given, "s");
    assert_eq!(
        import.trust.orchestrator_keys_path.as_deref(),
        Some("s/orchestrator-trust.json")
    );
    assert_eq!(
        import.trust.previous_edge_signing_key_path.as_deref(),
        Some("s/previous-edge-signing-key.txt")
    );
    assert_eq!(import.trust.edge_signing_key_path, None);
}
