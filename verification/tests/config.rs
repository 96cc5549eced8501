use splitwise_cli::cli::{CategoriesCommand, Cli, CommandGroup, OutputFormat, ReferenceSubcommand};
use splitwise_cli::config::{select_env_token, Config, EnvConfig, FileConfig};
use splitwise_cli::error::CliError;

fn base_cli() -> Cli {
    Cli {
        output: None,
        json: false,
        yaml: false,
        base_url: None,
        token: None,
        config: None,
        verbose: false,
        command: CommandGroup::Categories(CategoriesCommand {
            command: ReferenceSubcommand::List,
        }),
    }
}

#[test]
fn config_precedence_is_cli_then_env_then_file() {
    let mut cli = base_cli();
    cli.output = Some(OutputFormat::Yaml);
    cli.base_url = Some("https://cli.example".to_string());
    cli.token = Some("cli-token".to_string());

    let config = Config::resolve(
        &cli,
        EnvConfig {
            base_url: Some("https://env.example".to_string()),
            token: Some("env-token".to_string()),
        },
        FileConfig {
            base_url: Some("https://file.example".to_string()),
            token: Some("file-token".to_string()),
            output: Some("json".to_string()),
        },
    )
    .expect("config should resolve");

    assert_eq!(config.base_url, "https://cli.example");
    assert_eq!(config.token, "cli-token");
    assert_eq!(config.output, OutputFormat::Yaml);
}

#[test]
fn config_uses_env_before_file() {
    let cli = base_cli();

    let config = Config::resolve(
        &cli,
        EnvConfig {
            base_url: Some("https://env.example".to_string()),
            token: Some("env-token".to_string()),
        },
        FileConfig {
            base_url: Some("https://file.example".to_string()),
            token: Some("file-token".to_string()),
            output: Some("yaml".to_string()),
        },
    )
    .expect("config should resolve");

    assert_eq!(config.base_url, "https://env.example");
    assert_eq!(config.token, "env-token");
    assert_eq!(config.output, OutputFormat::Yaml);
}

#[test]
fn json_flag_overrides_other_output_sources() {
    let mut cli = base_cli();
    cli.json = true;
    cli.output = Some(OutputFormat::Yaml);

    let config = Config::resolve(
        &cli,
        EnvConfig::default(),
        FileConfig {
            base_url: Some("https://file.example".to_string()),
            token: Some("file-token".to_string()),
            output: Some("table".to_string()),
        },
    )
    .expect("config should resolve");

    assert_eq!(config.output, OutputFormat::Json);
}

#[test]
fn config_falls_back_to_file_then_default() {
    let cli = base_cli();
    let config = Config::resolve(
        &cli,
        EnvConfig::default(),
        FileConfig {
            base_url: None,
            token: Some("file-token".to_string()),
            output: None,
        },
    )
    .expect("config should resolve");
    assert_eq!(config.base_url, "https://secure.splitwise.com/api/v3.0");
    assert_eq!(config.token, "file-token");
    assert_eq!(config.output, OutputFormat::Table);
    assert!(!config.verbose);
}

#[test]
fn config_without_token_is_missing_token() {
    let cli = base_cli();
    let error = Config::resolve(&cli, EnvConfig::default(), FileConfig::default())
        .expect_err("no token anywhere");
    assert!(matches!(error, CliError::MissingToken));
    assert_eq!(error.exit_code(), 1);
    assert!(error.message().starts_with("missing Splitwise token"));
}

#[test]
fn config_rejects_unknown_file_output_before_token() {
    let cli = base_cli();
    let error = Config::resolve(
        &cli,
        EnvConfig::default(),
        FileConfig {
            base_url: None,
            token: None,
            output: Some("xml".to_string()),
        },
    )
    .expect_err("unknown output format");
    match error {
        CliError::Config(message) => {
            assert_eq!(message, "invalid output format in config file: xml")
        }
        other => panic!("unexpected error {other:?}"),
    }
}

#[test]
fn yaml_flag_beats_output_option_and_file() {
    let mut cli = base_cli();
    cli.yaml = true;
    cli.output = Some(OutputFormat::Table);
    cli.token = Some("t".to_string());
    let config = Config::resolve(
        &cli,
        EnvConfig::default(),
        FileConfig {
            base_url: None,
            token: None,
            output: Some("json".to_string()),
        },
    )
    .expect("config should resolve");
    assert_eq!(config.output, OutputFormat::Yaml);
}

#[test]
fn env_token_is_first_set_variable_trimmed() {
    let picked = select_env_token(&vec![None, Some("  abc \n".to_string()), Some("later".to_string())]);
    assert_eq!(picked.as_deref(), Some("abc"));
    let blank_first = select_env_token(&vec![Some("   ".to_string()), Some("later".to_string())]);
    assert_eq!(blank_first, None);
    assert_eq!(select_env_token(&vec![None, None]), None);
}
