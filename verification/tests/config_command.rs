//! The settings of a user, shown and changed.

use agira::commands::config::{
    canonical_key, config_get_help, config_keys_help, config_set_help, find_entry,
    format_config_get, run_config_get, run_config_set, valid_keys, ConfigCommandError, ConfigKey,
};
use agira::engine::global_config::{GlobalConfig, GlobalRead, OnRetryExhausted, TextRead};

/// The settings as they are read from a text; what it does not say is as for a new user.
fn settings(text: &str) -> GlobalRead {
    let table: toml::Table = match text.parse() {
        Ok(table) => table,
        Err(error) => return GlobalRead::Malformed { message: format!("{error}") },
    };
    let mut config = GlobalConfig::for_program("agent");
    if let Some(value) = table.get("default_max_retries") {
        config.default_max_retries = value.as_integer().unwrap() as u32;
    }
    if let Some(value) = table.get("hook_debug") {
        config.hook_debug = value.as_bool().unwrap();
    }
    if let Some(value) = table.get("on_retry_exhausted") {
        config.on_retry_exhausted = match value.as_str() {
            Some("block") => OnRetryExhausted::Block,
            Some("fail") => OnRetryExhausted::Fail,
            other => panic!("unknown policy: {other:?}"),
        };
    }
    let empty = toml::Table::new();
    let text_of = |value: &toml::Value| value.as_str().unwrap().to_owned();
    let runner = table.get("runner").map_or(&empty, |value| value.as_table().unwrap());
    if let Some(value) = runner.get("lease_ttl") {
        config.runner.lease_ttl = text_of(value);
    }
    if let Some(value) = runner.get("type") {
        config.runner.runner_type = text_of(value);
    }
    if let Some(value) = runner.get("auto_start") {
        config.runner.auto_start = value.as_bool().unwrap();
    }
    config.runner.orchestrator_template_path =
        runner.get("orchestrator_template_path").map(text_of);
    let agent = runner.get("agent").map_or(&empty, |value| value.as_table().unwrap());
    if let Some(value) = agent.get("command") {
        config.runner.claude.command = text_of(value);
    }
    if let Some(value) = agent.get("model") {
        config.runner.claude.model = text_of(value);
    }
    if let Some(value) = agent.get("permission_mode") {
        config.runner.claude.permission_mode = text_of(value);
    }
    config.runner.claude.settings_path = agent.get("settings_path").map(text_of);
    if let Some(value) = agent.get("extra_args") {
        config.runner.claude.extra_args = value.as_array().unwrap().iter().map(text_of).collect();
    }
    if let Some(value) = agent.get("env") {
        for (name, value) in value.as_table().unwrap() {
            config.runner.claude.env.insert(name.clone(), text_of(value));
        }
    }
    GlobalRead::Parsed { config }
}

/// Changes one setting in a text and gives back the text and what is said of it.
fn set(before: Option<&str>, key: &str, value: &str) -> Result<(String, String), ConfigCommandError> {
    let (read, text) = match before {
        None => (GlobalRead::Missing, TextRead::Missing),
        Some(text) => (settings(text), TextRead::Contents { text: text.to_owned() }),
    };
    run_config_set("/agira", "agent", read, &text, key, value)
        .map(|change| (change.text, change.output))
}

fn loaded(text: &str) -> GlobalConfig {
    match settings(text) {
        GlobalRead::Parsed { config } => config,
        other => panic!("not read: {other:?}"),
    }
}

#[test]
fn config_get_output_includes_every_registry_key() {
    let config = GlobalConfig::for_program("agent");
    let output = format_config_get(&config);

    for key in valid_keys() {
        assert!(
            output.contains(&format!("{key} = ")),
            "expected config get output to include {key}"
        );
    }
    assert!(!output.contains("hook-debug"));
    assert!(!output.contains("default-max-retries"));
}

#[test]
fn runner_auto_start_round_trips_false_and_true_through_config_set() {
    for value in ["true", "false"] {
        let (text, _) = set(None, "runner.auto_start", value).expect("set auto_start");

        assert_eq!(loaded(&text).runner.auto_start, value == "true");
    }
}

#[test]
fn unknown_key_error_lists_registry_canonical_keys() {
    let error = set(None, "runner.missing", "true").expect_err("unknown key");
    let message = error.message();

    for key in valid_keys() {
        assert!(
            message.contains(&key),
            "expected unknown-key message to include {key}: {message}"
        );
    }
    assert!(!message.contains("hook-debug"));
    assert!(!message.ends_with('.'));
}

#[test]
fn invalid_bool_value_has_kind_specific_error() {
    let error = set(None, "runner.auto_start", "yes").expect_err("invalid bool");

    assert_eq!(
        error.message(),
        "invalid value for runner.auto_start: yes; expected true or false"
    );
}

#[test]
fn invalid_u32_value_has_kind_specific_error() {
    let error = set(None, "default_max_retries", "many").expect_err("invalid u32");

    assert_eq!(
        error.message(),
        "invalid value for default_max_retries: many; expected an unsigned 32-bit integer"
    );
}

#[test]
fn invalid_enum_value_has_kind_specific_error() {
    let error = set(None, "on_retry_exhausted", "retry").expect_err("invalid enum");

    assert_eq!(
        error.message(),
        "invalid value for on_retry_exhausted: retry; expected block or fail"
    );
}

#[test]
fn invalid_duration_value_reuses_existing_duration_validation() {
    let error = set(None, "runner.lease_ttl", "soon").expect_err("invalid duration");
    let message = error.message();

    assert!(message.contains("invalid value for runner.lease_ttl: soon"));
    assert!(message.contains("invalid runner.lease_ttl 'soon'"));
    assert!(!message.ends_with('.'));
}

#[test]
fn legacy_kebab_aliases_set_underlying_fields() {
    let (text, _) = set(None, "hook-debug", "true").expect("set hook_debug alias");
    let (text, _) = set(Some(&text), "default-max-retries", "7").expect("set retries alias");
    let loaded = loaded(&text);

    assert!(loaded.hook_debug);
    assert_eq!(loaded.default_max_retries, 7);
}

#[test]
fn config_set_prints_canonical_key_even_when_alias_is_used() {
    let (_, output) = set(None, "hook-debug", "true").expect("set hook_debug alias");

    assert_eq!(output, "hook_debug = true\n");
}

#[test]
fn config_set_writes_runner_values_through_save_merge_path() {
    let before = "# keep me\ncustom_key = \"untouched\"\n[runner]\nlease_ttl = \"5m\"\n";

    let (text, _) = set(Some(before), "runner.lease_ttl", "10m").expect("set lease ttl");
    let (contents, _) =
        set(Some(&text), "runner.type", "custom-runner").expect("set runner type");
    let loaded = loaded(&contents);

    assert!(contents.contains("custom_key = \"untouched\""));
    assert_eq!(loaded.runner.lease_ttl, "10m");
    assert_eq!(loaded.runner.runner_type, "custom-runner");
}

#[test]
fn settings_are_shown_as_they_are() {
    assert_eq!(
        run_config_get("/agira", "agent", GlobalRead::Missing).unwrap(),
        format_config_get(&GlobalConfig::for_program("agent"))
    );
    assert!(matches!(
        run_config_get("/agira", "agent", GlobalRead::Malformed { message: "m".to_owned() }),
        Err(ConfigCommandError::GlobalConfig(_))
    ));
    assert!(matches!(
        run_config_set(
            "/agira",
            "agent",
            GlobalRead::Missing,
            &TextRead::Unreadable { message: "m".to_owned() },
            "hook_debug",
            "true"
        ),
        Err(ConfigCommandError::Save(_))
    ));
}

#[test]
fn each_setting_is_found_by_its_name() {
    assert_eq!(valid_keys().len(), 6);
    assert_eq!(canonical_key("default-max-retries"), "default_max_retries");
    assert_eq!(canonical_key("other"), "other");
    assert_eq!(find_entry("hook_debug"), Some(ConfigKey::HookDebug));
    assert_eq!(find_entry("nothing"), None);
    for help in [config_keys_help(), config_get_help(), config_set_help()] {
        assert!(help.contains("runner.lease_ttl"));
    }
}
