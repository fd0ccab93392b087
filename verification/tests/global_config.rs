//! The settings of a user, read and saved.

use agira::engine::global_config::{
    default_config_toml, duration_in_range, load_or_create, parse_duration, save_global_config,
    settings_to_write, ClaudeRunnerConfig, GlobalConfig, GlobalConfigError, GlobalRead,
    OnRetryExhausted, SaveGlobalConfigError, TextRead,
};

/// The settings as they are read from a text; what it does not say is as for a new user.
fn settings(text: &str) -> GlobalRead {
    let table: toml::Table = match text.parse() {
        Ok(table) => table,
        Err(error) => return GlobalRead::Malformed { message: format!("{error}") },
    };
    let mut config = GlobalConfig::for_program("agent");
    if let Some(value) = table.get("default_max_retries") {
        config.default_max_retries = value.as_integer().unwrap() as u32;
    }
    if let Some(value) = table.get("hook_debug") {
        config.hook_debug = value.as_bool().unwrap();
    }
    if let Some(value) = table.get("on_retry_exhausted") {
        config.on_retry_exhausted = match value.as_str() {
            Some("block") => OnRetryExhausted::Block,
            Some("fail") => OnRetryExhausted::Fail,
            other => panic!("unknown policy: {other:?}"),
        };
    }
    let empty = toml::Table::new();
    let text_of = |value: &toml::Value| value.as_str().unwrap().to_owned();
    let runner = table.get("runner").map_or(&empty, |value| value.as_table().unwrap());
    if let Some(value) = runner.get("lease_ttl") {
        config.runner.lease_ttl = text_of(value);
    }
    if let Some(value) = runner.get("type") {
        config.runner.runner_type = text_of(value);
    }
    if let Some(value) = runner.get("auto_start") {
        config.runner.auto_start = value.as_bool().unwrap();
    }
    config.runner.orchestrator_template_path =
        runner.get("orchestrator_template_path").map(text_of);
    let agent = runner.get("agent").map_or(&empty, |value| value.as_table().unwrap());
    if let Some(value) = agent.get("command") {
        config.runner.claude.command = text_of(value);
    }
    if let Some(value) = agent.get("model") {
        config.runner.claude.model = text_of(value);
    }
    if let Some(value) = agent.get("permission_mode") {
        config.runner.claude.permission_mode = text_of(value);
    }
    config.runner.claude.settings_path = agent.get("settings_path").map(text_of);
    if let Some(value) = agent.get("extra_args") {
        config.runner.claude.extra_args = value.as_array().unwrap().iter().map(text_of).collect();
    }
    if let Some(value) = agent.get("env") {
        for (name, value) in value.as_table().unwrap() {
            config.runner.claude.env.insert(name.clone(), text_of(value));
        }
    }
    GlobalRead::Parsed { config }
}

fn load(text: &str) -> GlobalConfig {
    load_or_create("/agira", "agent", settings(text)).expect("load config")
}

fn save(config: &GlobalConfig) -> String {
    save_global_config("/agira", "agent", &TextRead::Missing, config).expect("save config")
}

fn default_config() -> GlobalConfig {
    GlobalConfig::for_program("agent")
}

#[test]
fn global_config_defaults_to_block_policy() {
    let config = load("");

    assert_eq!(config.on_retry_exhausted, OnRetryExhausted::Block);
}

#[test]
fn global_config_defaults_runner_lease_ttl_to_five_minutes() {
    let config = load("");

    assert_eq!(config.runner.lease_ttl_duration().expect("parse ttl"), 5 * 60);
}

#[test]
fn global_config_defaults_orchestrator_template_path_to_none() {
    let config = load("");

    assert_eq!(config.runner.orchestrator_template_path, None);
}

#[test]
fn global_config_parses_runner_lease_ttl_duration() {
    let config = load("[runner]\nlease_ttl = \"15m\"\n");

    assert_eq!(config.runner.lease_ttl_duration().expect("parse ttl"), 15 * 60);
}

#[test]
fn global_config_rejects_invalid_runner_lease_ttl() {
    let error = load_or_create("/agira", "agent", settings("[runner]\nlease_ttl = \"soon\"\n"))
        .expect_err("invalid ttl");

    assert!(error.message().contains("invalid global config"));
    assert!(error.message().contains("invalid runner.lease_ttl"));
}

#[test]
fn global_config_fail_policy_round_trips() {
    let mut config = default_config();
    config.on_retry_exhausted = OnRetryExhausted::Fail;

    let loaded = load(&save(&config));

    assert_eq!(loaded.on_retry_exhausted, OnRetryExhausted::Fail);
}

#[test]
fn global_config_orchestrator_template_path_round_trips() {
    let template_path = "/tmp/agira/orchestrator-template.md".to_owned();
    let mut config = default_config();
    config.runner.orchestrator_template_path = Some(template_path.clone());

    let loaded = load(&save(&config));

    assert_eq!(
        loaded.runner.orchestrator_template_path,
        Some(template_path)
    );
}

#[test]
fn runner_config_defaults_runner_type_to_claude_tmux() {
    let config = load("");

    assert_eq!(config.runner.runner_type, "agent-tmux");
}

#[test]
fn runner_config_defaults_auto_start_to_false() {
    let config = load("");

    assert!(!config.runner.auto_start);
}

#[test]
fn claude_runner_config_defaults_when_section_absent() {
    let config = load("");

    assert_eq!(config.runner.claude.command, "agent");
    assert_eq!(config.runner.claude.model, "sonnet");
    assert_eq!(config.runner.claude.permission_mode, "auto");
    assert_eq!(config.runner.claude.settings_path, None);
    assert!(config.runner.claude.extra_args.is_empty());
    assert!(config.runner.claude.env.is_empty());
}

#[test]
fn claude_runner_config_full_round_trips_through_save_and_load() {
    let mut config = default_config();
    config.runner.claude = ClaudeRunnerConfig {
        command: "/opt/bin/agent-wrapper".to_owned(),
        model: "opus".to_owned(),
        permission_mode: "dontAsk".to_owned(),
        settings_path: Some("/tmp/agent-settings.json".to_owned()),
        extra_args: vec![
            "--add-dir".to_owned(),
            "/tmp/work".to_owned(),
            "--mcp-config".to_owned(),
        ],
        env: config.runner.claude.env,
    };
    config.runner.claude.env.insert(
        "AGENT_BASE_URL".to_owned(),
        "https://example.test".to_owned(),
    );
    config.runner.claude.env.insert(
        "HTTPS_PROXY".to_owned(),
        "http://127.0.0.1:8080".to_owned(),
    );

    let loaded = load(&save(&config));

    assert_eq!(loaded.runner.claude, config.runner.claude);
}

#[test]
fn claude_runner_config_rejects_invalid_permission_mode_at_load() {
    let error = load_or_create(
        "/agira",
        "agent",
        settings("[runner.agent]\npermission_mode = \"yolo\"\n"),
    )
    .expect_err("invalid permission mode");
    let message = error.message();

    assert!(message.contains("invalid global config"));
    assert!(message.contains("runner.agent.permission_mode"));
    assert!(message.contains("yolo"));
    assert!(message.contains(
        "expected one of auto, acceptEdits, bypassPermissions, dontAsk, default, plan"
    ));
    assert!(!message.ends_with('.'));
}

#[test]
fn claude_runner_config_parses_env_table() {
    let config = load(
        "[runner.agent.env]\nAGENT_BASE_URL = \"https://example.test\"\nHTTPS_PROXY = \"http://127.0.0.1:8080\"\n",
    );

    assert_eq!(
        config.runner.claude.env.get("AGENT_BASE_URL"),
        Some(&"https://example.test".to_owned())
    );
    assert_eq!(
        config.runner.claude.env.get("HTTPS_PROXY"),
        Some(&"http://127.0.0.1:8080".to_owned())
    );
}

#[test]
fn runner_config_without_claude_section_loads_default_claude_config() {
    let loaded =
        load("[runner]\nlease_ttl = \"10m\"\ntype = \"agent-tmux\"\nauto_start = true\n");

    assert_eq!(loaded.runner.claude, ClaudeRunnerConfig::for_program("agent"));
}

#[test]
fn every_claude_runner_permission_mode_is_accepted_at_load() {
    for permission_mode in
        ["auto", "acceptEdits", "bypassPermissions", "dontAsk", "default", "plan"]
    {
        let loaded = load(&format!("[runner.agent]\npermission_mode = \"{permission_mode}\"\n"));

        assert_eq!(loaded.runner.claude.permission_mode, permission_mode);
    }
}

#[test]
fn runner_type_round_trips_through_save_and_load() {
    let mut config = default_config();
    config.runner.runner_type = "custom-backend".to_owned();

    let loaded = load(&save(&config));

    assert_eq!(loaded.runner.runner_type, "custom-backend");
}

#[test]
fn auto_start_round_trips_through_save_and_load() {
    let mut config = default_config();
    config.runner.auto_start = true;

    let loaded = load(&save(&config));

    assert!(loaded.runner.auto_start);
}

#[test]
fn save_preserves_existing_runner_keys_alongside_new_fields() {
    let before = TextRead::Contents {
        text: "[runner]\nlease_ttl = \"10m\"\norchestrator_template_path = \"/tmp/tmpl.md\"\n"
            .to_owned(),
    };
    let mut config = default_config();
    config.runner.lease_ttl = "10m".to_owned();
    config.runner.orchestrator_template_path = Some("/tmp/tmpl.md".to_owned());
    config.runner.runner_type = "agent-tmux".to_owned();
    config.runner.auto_start = true;

    let text = save_global_config("/agira", "agent", &before, &config).expect("save config");
    let loaded = load(&text);

    assert_eq!(loaded.runner.lease_ttl, "10m");
    assert_eq!(
        loaded.runner.orchestrator_template_path,
        Some("/tmp/tmpl.md".to_owned())
    );
    assert_eq!(loaded.runner.runner_type, "agent-tmux");
    assert!(loaded.runner.auto_start);
}

#[test]
fn settings_of_a_new_user_are_written_once() {
    assert_eq!(
        settings_to_write("agent", &GlobalRead::Missing),
        Some(default_config_toml("agent"))
    );
    assert_eq!(settings_to_write("agent", &settings("")), None);
    assert_eq!(
        load_or_create("/agira", "agent", GlobalRead::Missing).unwrap(),
        load(&default_config_toml("agent"))
    );
}

#[test]
fn settings_that_cannot_be_read_are_reported() {
    assert_eq!(
        load_or_create("/agira", "agent", GlobalRead::Unreadable { message: "m".to_owned() })
            .unwrap_err(),
        GlobalConfigError::Read {
            path: "/agira/config.toml".to_owned(),
            message: "m".to_owned(),
        }
    );
    assert!(matches!(
        load_or_create("/agira", "agent", settings("[open")),
        Err(GlobalConfigError::Parse { .. })
    ));
}

#[test]
fn what_else_a_settings_file_holds_is_kept() {
    let text = |text: &str| TextRead::Contents { text: text.to_owned() };
    let saved = save_global_config(
        "/agira",
        "agent",
        &text("mine = [1, 2]\n[runner]\nother = true\n[runner.agent]\nextra = 1\n"),
        &default_config(),
    )
    .unwrap();
    let table: toml::Table = saved.parse().unwrap();
    assert_eq!(table["mine"].as_array().unwrap().len(), 2);
    assert_eq!(table["runner"]["other"].as_bool(), Some(true));
    assert!(matches!(
        save_global_config("/agira", "agent", &text("[open"), &default_config()),
        Err(SaveGlobalConfigError::Parse { .. })
    ));
    assert!(matches!(
        save_global_config(
            "/agira",
            "agent",
            &TextRead::Unreadable { message: "m".to_owned() },
            &default_config()
        ),
        Err(SaveGlobalConfigError::Read { .. })
    ));
}

#[test]
fn durations_are_numbers_with_a_unit() {
    assert_eq!(parse_duration("30s"), Ok(30));
    assert_eq!(parse_duration("5m"), Ok(300));
    assert_eq!(parse_duration("2h"), Ok(7200));
    for wrong in ["", "m", "5", "-5m", "0m", "5x", "soon"] {
        assert!(parse_duration(wrong).is_err(), "{wrong}");
    }
    assert!(duration_in_range("5m"));
    assert!(!duration_in_range("9223372036854775807h"));
}
