//! Projects whose phases stand in one line.

use agira::linear::config::{
    load_project_config, migrate_state_machine, Config, ConfigError, ConfigRead, PhaseConfig,
    ProjectConfigFile, VerificationConfig,
};
use agira::linear::global_config::{
    load_or_create, GlobalConfig, GlobalConfigError, GlobalRead, DEFAULT_CONFIG_TOML,
};
use agira::string_map::StringMap;

fn global_config(default_max_retries: u32) -> GlobalConfig {
    GlobalConfig { default_max_retries }
}

fn phase(name: &str, model: &str) -> PhaseConfig {
    PhaseConfig { name: name.to_owned(), model: model.to_owned() }
}

fn new_format_config(max_retries: Option<u32>) -> ConfigRead {
    ConfigRead::Parsed {
        file: ProjectConfigFile {
            stack: "rust".to_owned(),
            phases: Some(vec![phase("enriching", "opus"), phase("done", "haiku")]),
            state_machine: None,
            models: None,
            verification: VerificationConfig { commands: vec![] },
            acceptance_testing: "cli".to_owned(),
            max_retries,
            default_model: None,
            prd_path: None,
        },
    }
}

fn old_format_config() -> ConfigRead {
    ConfigRead::Parsed {
        file: ProjectConfigFile {
            stack: "rust".to_owned(),
            phases: None,
            state_machine: Some(vec!["enriching".to_owned(), "done".to_owned()]),
            models: Some(StringMap::new()),
            verification: VerificationConfig { commands: vec![] },
            acceptance_testing: "cli".to_owned(),
            max_retries: None,
            default_model: None,
            prd_path: None,
        },
    }
}

#[test]
fn new_format_loads_phases_directly() {
    let config =
        load_project_config("/s/config.json", &new_format_config(None), &global_config(3)).unwrap();

    assert_eq!(config.phases.len(), 2);
    assert_eq!(config.phases[0].name, "enriching");
    assert_eq!(config.phases[0].model, "opus");
    assert_eq!(config.phases[1].name, "done");
    assert_eq!(config.phases[1].model, "haiku");
}

#[test]
fn old_format_migrated_using_global_default() {
    let config =
        load_project_config("/s/config.json", &old_format_config(), &global_config(3)).unwrap();

    assert_eq!(config.phases.len(), 2);
    assert_eq!(config.phases[0].name, "enriching");
    assert_eq!(config.phases[0].model, "sonnet");
    assert_eq!(config.phases[1].name, "done");
    assert_eq!(config.phases[1].model, "sonnet");
}

#[test]
fn project_config_uses_global_defaults_for_max_retries() {
    let config =
        load_project_config("/s/config.json", &new_format_config(None), &global_config(5)).unwrap();

    assert_eq!(config.max_retries, 5);
}

#[test]
fn project_config_explicit_max_retries_wins() {
    let config =
        load_project_config("/s/config.json", &new_format_config(Some(7)), &global_config(5))
            .unwrap();

    assert_eq!(config.max_retries, 7);
}

#[test]
fn phase_names_helper_returns_names() {
    let config = Config {
        stack: "rust".to_owned(),
        phases: vec![phase("enriching", "opus"), phase("done", "haiku")],
        verification: VerificationConfig { commands: vec![] },
        acceptance_testing: "cli".to_owned(),
        max_retries: 3,
        prd_path: None,
    };

    assert_eq!(config.phase_names(), vec!["enriching", "done"]);
    assert_eq!(config.terminal_phase(), Some("done"));
}

#[test]
fn models_of_the_older_form_are_kept() {
    let mut models: StringMap<String> = StringMap::new();
    models.insert("enriching".to_owned(), "opus".to_owned());
    let names = vec!["enriching".to_owned(), "done".to_owned()];

    let phases = migrate_state_machine(&names, &Some(models), &Some("haiku".to_owned()));

    assert_eq!(phases, vec![phase("enriching", "opus"), phase("done", "haiku")]);
}

#[test]
fn a_line_that_cannot_be_read_is_reported() {
    let read = ConfigRead::Unreadable { message: "denied".to_owned() };
    assert_eq!(
        load_project_config("/s/config.json", &ConfigRead::Missing, &global_config(3)).unwrap_err(),
        ConfigError::NotFound { path: "/s/config.json".to_owned() }
    );
    assert!(matches!(
        load_project_config("/s/config.json", &read, &global_config(3)),
        Err(ConfigError::Read { .. })
    ));
    let read = ConfigRead::Malformed { message: "eof".to_owned() };
    assert!(matches!(
        load_project_config("/s/config.json", &read, &global_config(3)),
        Err(ConfigError::Parse { .. })
    ));
}

/// The settings as they are read from a text.
fn settings(text: &str) -> GlobalRead {
    match text.parse::<toml::Table>() {
        Err(error) => GlobalRead::Malformed { message: error.to_string() },
        Ok(table) => GlobalRead::Parsed {
            config: GlobalConfig {
                default_max_retries: match table.get("default_max_retries") {
                    Some(value) => value.as_integer().unwrap() as u32,
                    None => GlobalConfig::default().default_max_retries,
                },
            },
        },
    }
}

#[test]
fn default_config_written_on_first_run() {
    let (config, written) = load_or_create("/agira", GlobalRead::Missing);

    assert_eq!(config.unwrap().default_max_retries, 3);
    assert_eq!(written.unwrap(), DEFAULT_CONFIG_TOML);
}

#[test]
fn existing_config_loaded() {
    let (config, written) = load_or_create("/agira", settings("default_max_retries = 5\n"));

    assert_eq!(config.unwrap().default_max_retries, 5);
    assert!(written.is_none());
}

#[test]
fn old_config_with_default_model_ignored() {
    let (config, _) = load_or_create(
        "/agira",
        settings("default_max_retries = 5\ndefault_model = \"opus\"\n"),
    );

    assert_eq!(config.unwrap().default_max_retries, 5);
}

#[test]
fn malformed_toml_returns_parse_error() {
    let (config, _) = load_or_create("/agira", settings("[invalid"));

    match config.unwrap_err() {
        GlobalConfigError::Parse { path: error_path, .. } => {
            assert_eq!(error_path, "/agira/config.toml")
        }
        other => panic!("unexpected error: {other:?}"),
    }
}

#[test]
fn unknown_keys_ignored() {
    let (config, _) = load_or_create(
        "/agira",
        settings("default_max_retries = 7\nextra = \"ignored\"\n"),
    );

    assert_eq!(config.unwrap().default_max_retries, 7);
}
