use elowen_edge::command::{
    parse_command, parse_secret_provider, startup_usage, take_path_arg, take_provider_arg,
    EdgeCommand,
};
use elowen_edge::config::SecretProviderKind;

fn strings(values: &[&str]) -> Vec<String> {
    values.iter().map(|value| value.to_string()).collect()
}

fn parse(args: &[&str]) -> Result<EdgeCommand, String> {
    parse_command(strings(args)).map_err(|error| error.to_text())
}

#[test]
fn commands_are_recognised() {
    let config_path = || "edge.toml".to_string();
    assert_eq!(
        parse(&["run", "--config", "edge.toml"]),
        Ok(EdgeCommand::Run { config_path: config_path() })
    );
    assert_eq!(
        parse(&["tui", "extra", "--config", "edge.toml"]),
        Ok(EdgeCommand::Tui { config_path: config_path() })
    );
    assert_eq!(
        parse(&["config", "import-env", "--config", "edge.toml", "--env-file", "e"]),
        Ok(EdgeCommand::ImportEnv { env_file: "e".to_string(), config_path: config_path() })
    );
    assert_eq!(
        parse(&["trust", "import-key", "--from", "a", "--to", "b", "--provider", "DPAPI"]),
        Ok(EdgeCommand::ImportTrustKey {
            from_path: "a".to_string(),
            to_path: "b".to_string(),
            provider: SecretProviderKind::Dpapi,
        })
    );
    assert_eq!(parse(&["trust", "generate-keypair"]), Ok(EdgeCommand::GenerateTrustKeypair));
    assert_eq!(parse(&["--generate-trust-keypair"]), Ok(EdgeCommand::GenerateTrustKeypair));
    assert_eq!(parse(&["--help"]), Ok(EdgeCommand::Help));
    assert_eq!(parse(&["-h"]), Ok(EdgeCommand::Help));
}

#[test]
fn wrong_commands_say_why() {
    let usage = startup_usage();
    assert_eq!(parse(&[]), Err(usage.to_string()));
    assert_eq!(parse(&["go"]), Err(format!("unsupported command `go`\n\n{usage}")));
    assert_eq!(parse(&["trust"]), Err(format!("unsupported command `trust`\n\n{usage}")));
    assert_eq!(parse(&["run"]), Err(format!("missing required --config\n\n{usage}")));
    assert_eq!(
        parse(&["run", "--env-file", "edge.env"]),
        Err(format!("missing required --config\n\n{usage}"))
    );
    assert_eq!(parse(&["run", "--config"]), Err("missing value after --config".to_string()));
    assert_eq!(
        parse(&["trust", "import-key", "--from", "a", "--to", "b", "--provider", "Vault"]),
        Err("unsupported secret provider `Vault`".to_string())
    );
}

#[test]
fn usage_is_exact() {
    assert_eq!(
        startup_usage(),
        "Usage:\n\
  elowen-edge run --config PATH\n\
  elowen-edge tui --config PATH\n\
  elowen-edge config import-env --env-file PATH --config PATH\n\
  elowen-edge trust generate-keypair\n\
  elowen-edge trust import-key --from PATH --to PATH --provider file|dpapi\n\n\
TOML config is required for runtime startup. Legacy env files are supported only by import-env.\n"
    );
}

#[test]
fn named_arguments_are_taken_out() {
    let mut args = strings(&["x", "--to", "there", "y", "--to", "else"]);
    assert_eq!(take_path_arg(&mut args, "--to"), Ok("there".to_string()));
    assert_eq!(args, strings(&["x", "y", "--to", "else"]));
    let mut args = strings(&["--provider", "file"]);
    assert_eq!(take_provider_arg(&mut args, "--provider"), Ok(SecretProviderKind::File));
    assert!(args.is_empty());
}

#[test]
fn providers_are_named() {
    assert_eq!(parse_secret_provider(" File "), Ok(SecretProviderKind::File));
    assert_eq!(parse_secret_provider("windows-dpapi"), Ok(SecretProviderKind::Dpapi));
    assert_eq!(parse_secret_provider("credential"), Ok(SecretProviderKind::WindowsCredential));
    assert_eq!(
        parse_secret_provider("windows-credential"),
        Ok(SecretProviderKind::WindowsCredential)
    );
    assert_eq!(SecretProviderKind::File.label(), "file");
    assert_eq!(SecretProviderKind::Dpapi.label(), "dpapi");
    assert_eq!(SecretProviderKind::WindowsCredential.label(), "windows-credential");
}
