//! Setting up a project.

use agira::commands::init::{
    bare_invocation_prompt, default_phases, package_facts, parse_phases_flag, run_init,
    scan_project, scan_result_for_stack, AgentFiles, InitError, InitFlags, InitStep, RepoSeen,
};
use agira::engine::config::{normalize_palette_and_sequence, PhaseDef};
use agira::engine::global_config::GlobalConfig;
use agira::engine::hooks::HookConfig;
use agira::engine::project::Project;

fn agent_files() -> AgentFiles {
    AgentFiles {
        notes: "AGENT.md".to_owned(),
        settings: ".agent/settings.json".to_owned(),
    }
}

#[test]
fn init_prompt_sets_gate_on_implementing_phase() {
    let defaults = scan_result_for_stack(
        "rust",
        vec![
            "cargo fmt -- --check".to_owned(),
            "cargo clippy -- -D warnings".to_owned(),
            "cargo test".to_owned(),
        ],
        2,
    );
    let prompt = bare_invocation_prompt(&defaults.config, &defaults.commands, &agent_files());
    // (a) must instruct setting a gate on the implementing / in_progress phase
    assert!(
        prompt.contains("in_progress --set-gate"),
        "prompt must contain 'in_progress --set-gate', got:\n{prompt}"
    );
}

#[test]
fn init_prompt_presents_enriching_as_alternative_not_recommended_default() {
    let defaults = scan_result_for_stack("rust", vec![], 2);
    let prompt = bare_invocation_prompt(&defaults.config, &defaults.commands, &agent_files());
    // (b) enriching must appear as an alternative option, not the default
    // The prompt should describe it as "Option 2" or "alternative"
    let lower = prompt.to_lowercase();
    assert!(
        lower.contains("option 2") || lower.contains("alternative"),
        "prompt must present enriching as an alternative (Option 2), got:\n{prompt}"
    );
    // enriching:opus must appear in an example that is NOT the first/recommended option
    assert!(
        prompt.contains("enriching"),
        "prompt must mention 'enriching', got:\n{prompt}"
    );
}

#[test]
fn init_prompt_does_not_recommend_standalone_verifying_agent_phase() {
    let defaults = scan_result_for_stack("rust", vec![], 2);
    let prompt = bare_invocation_prompt(&defaults.config, &defaults.commands, &agent_files());
    // (c) must NOT recommend a standalone verifying agent phase
    // The recommended/Option 1 example must not contain "verifying"
    // We look for the Option 1 example line and ensure it doesn't include verifying
    assert!(
        !prompt.contains("verifying:haiku"),
        "prompt must not recommend 'verifying:haiku' phase, got:\n{prompt}"
    );
    // The phrase "verifying vs accepting" block should not appear
    assert!(
        !prompt.contains("verifying` vs `accepting"),
        "prompt must not contain old 'verifying vs accepting' block, got:\n{prompt}"
    );
}

#[test]
fn default_phases_seed_only_in_progress_and_accepting() {
    let phases = default_phases();

    assert_eq!(
        phases,
        vec![
            (
                "in_progress".to_owned(),
                PhaseDef {
                    model: Some("sonnet".to_owned()),
                    duty: None,
                    gate: None,
                },
            ),
            (
                "accepting".to_owned(),
                PhaseDef {
                    model: Some("sonnet".to_owned()),
                    duty: None,
                    gate: None,
                },
            ),
        ]
    );

    let names = phases
        .iter()
        .map(|(name, _)| name.as_str())
        .collect::<Vec<_>>();
    assert!(!names.contains(&"enriching"));
    assert!(!names.contains(&"verifying"));

    let (_, sequence) = normalize_palette_and_sequence(phases, Vec::new());
    assert_eq!(
        sequence,
        vec![
            "pending".to_owned(),
            "in_progress".to_owned(),
            "accepting".to_owned(),
            "done".to_owned(),
        ]
    );
}

fn project() -> Project {
    Project {
        git_root: "/src/app".to_owned(),
        slug: "app".to_owned(),
        state_dir: "/home/me/.agira/app".to_owned(),
        global_config: GlobalConfig::for_program("agent"),
        global_hooks: HookConfig::default(),
        project_hooks: HookConfig::default(),
    }
}

fn empty_repo() -> RepoSeen {
    RepoSeen {
        cargo_toml: false,
        package_json: false,
        package_text: None,
        go_mod: false,
        pyproject_toml: false,
        pom_xml: false,
        build_gradle: false,
        build_gradle_kts: false,
        pubspec_yaml: false,
        pubspec_text: None,
        tsconfig_json: false,
        bun_lockb: false,
        pnpm_lock_yaml: false,
        yarn_lock: false,
    }
}

fn package(text: &str) -> RepoSeen {
    RepoSeen {
        package_json: true,
        package_text: Some(text.to_owned()),
        ..empty_repo()
    }
}

fn stack_and_commands(seen: &RepoSeen) -> (String, Vec<String>) {
    let found = scan_project(seen, 3);
    (found.config.stack.clone(), found.commands.clone())
}

#[test]
fn prompt_names_the_files_of_the_agent() {
    let defaults = scan_result_for_stack("rust", vec!["cargo test".to_owned()], 2);
    let prompt = bare_invocation_prompt(&defaults.config, &defaults.commands, &agent_files());
    assert!(prompt.starts_with("# agira init — agent setup required\n"));
    assert!(prompt.contains("read `AGENT.md`, `.agent/settings.json` if present."));
    assert!(prompt.contains("## Step 7 — Write AGENT.md"));
    assert!(prompt.contains("- `stack=rust`\n"));
    assert!(prompt.contains("gate commands: `cargo test`\n"));
    assert!(!prompt.contains('^'));
    assert!(prompt.ends_with("`.agent/settings.json`, CI files, Makefile, etc.)\n"));
}

#[test]
fn unknown_stack_is_said_to_be_unknown() {
    let defaults = scan_result_for_stack("unknown", vec![], 2);
    let prompt = bare_invocation_prompt(&defaults.config, &defaults.commands, &agent_files());
    assert!(prompt.contains("could not auto-detect reliable defaults"));
}

#[test]
fn stacks_are_found_by_their_files() {
    let cases = [
        (
            RepoSeen {
                cargo_toml: true,
                package_json: true,
                ..empty_repo()
            },
            "rust",
            "cargo clippy -- -D warnings",
        ),
        (
            RepoSeen {
                go_mod: true,
                ..empty_repo()
            },
            "go",
            "go test ./...",
        ),
        (
            RepoSeen {
                pyproject_toml: true,
                ..empty_repo()
            },
            "python",
            "python -m pytest",
        ),
        (
            RepoSeen {
                pom_xml: true,
                ..empty_repo()
            },
            "java",
            "mvn verify",
        ),
        (
            RepoSeen {
                build_gradle_kts: true,
                ..empty_repo()
            },
            "java",
            "./gradlew test",
        ),
        (
            RepoSeen {
                pubspec_yaml: true,
                pubspec_text: Some("dependencies:\n  flutter:\n    sdk: flutter\n".to_owned()),
                ..empty_repo()
            },
            "flutter",
            "flutter test",
        ),
        (
            RepoSeen {
                pubspec_yaml: true,
                ..empty_repo()
            },
            "dart",
            "dart test",
        ),
    ];
    for (seen, stack, last) in cases {
        let (found, commands) = stack_and_commands(&seen);
        assert_eq!(found, stack);
        assert_eq!(commands.last().unwrap(), last);
    }
    assert_eq!(
        stack_and_commands(&empty_repo()),
        ("unknown".to_owned(), vec![])
    );
}

#[test]
fn packages_are_read_for_manager_language_and_scripts() {
    let seen = package(
        r#"{"packageManager": "pnpm@9.1.0", "devDependencies": {"typescript": "^5"},
            "scripts": {"test": "vitest", "format": "prettier ."}}"#,
    );
    assert_eq!(
        stack_and_commands(&seen),
        (
            "typescript".to_owned(),
            vec!["pnpm test".to_owned(), "pnpm format".to_owned()]
        )
    );

    let seen = RepoSeen {
        bun_lockb: true,
        tsconfig_json: true,
        ..package("{}")
    };
    assert_eq!(
        stack_and_commands(&seen),
        (
            "typescript".to_owned(),
            vec![
                "bun test".to_owned(),
                "bunx eslint .".to_owned(),
                "bunx prettier --check .".to_owned()
            ]
        )
    );

    let seen = RepoSeen {
        yarn_lock: true,
        ..package(r#"{"packageManager": "npm", "scripts": {"lint": "eslint", "test": "jest"}}"#)
    };
    assert_eq!(
        stack_and_commands(&seen),
        (
            "javascript".to_owned(),
            vec!["npm test".to_owned(), "npm run lint".to_owned()]
        )
    );

    let seen = RepoSeen {
        yarn_lock: true,
        ..package("{broken")
    };
    assert_eq!(
        stack_and_commands(&seen).1,
        vec!["yarn test", "yarn lint", "yarn format"]
    );
}

#[test]
fn package_facts_take_only_what_has_its_form() {
    let value: serde_json::Value =
        serde_json::from_str(r#"{"packageManager": 7, "scripts": ["test"]}"#).unwrap();
    let facts = package_facts(&value);
    assert_eq!(facts.manager, None);
    assert!(!facts.has_test && !facts.has_lint && !facts.has_format && !facts.typescript);
}

#[test]
fn phases_flag_gives_names_and_models() {
    let phases = parse_phases_flag(" enriching : opus ,in_progress: dispatch -a codex,pending").unwrap();
    assert_eq!(
        phases,
        vec![
            (
                "enriching".to_owned(),
                PhaseDef {
                    model: Some("opus".to_owned()),
                    duty: None,
                    gate: None,
                },
            ),
            (
                "in_progress".to_owned(),
                PhaseDef {
                    model: Some("dispatch -a codex".to_owned()),
                    duty: None,
                    gate: None,
                },
            ),
        ]
    );
    for input in ["", "a,,b", "a:", ":opus", "a, "] {
        assert_eq!(parse_phases_flag(input), Err(InitError::InvalidPhases));
    }
}

#[test]
fn init_asks_writes_or_complains() {
    let none = InitFlags {
        stack: None,
        phases: None,
    };
    assert!(matches!(
        run_init(&project(), &none, &empty_repo(), &agent_files()),
        Ok(InitStep::Prompt { .. })
    ));

    let half = InitFlags {
        stack: Some("rust".to_owned()),
        phases: None,
    };
    let error = run_init(&project(), &half, &empty_repo(), &agent_files()).unwrap_err();
    assert_eq!(
        error.message(),
        "agira init requires all flags or none; missing: --phases"
    );

    let blank = InitFlags {
        stack: Some("  ".to_owned()),
        phases: Some("in_progress".to_owned()),
    };
    let error = run_init(&project(), &blank, &empty_repo(), &agent_files()).unwrap_err();
    assert_eq!(
        error,
        InitError::MissingFlags {
            missing: vec!["--stack".to_owned()],
        }
    );

    let whole = InitFlags {
        stack: Some(" rust ".to_owned()),
        phases: Some("in_progress:sonnet".to_owned()),
    };
    match run_init(&project(), &whole, &empty_repo(), &agent_files()).unwrap() {
        InitStep::WriteConfig { path, config } => {
            assert_eq!(path, "/home/me/.agira/app/config.json");
            assert_eq!(config.stack, "rust");
            assert_eq!(config.max_retries, 3);
            assert_eq!(config.sequence("default"), ["pending", "in_progress", "done"]);
            assert_eq!(config.validate(), Ok(()));
        }
        other => panic!("unexpected step: {other:?}"),
    }
}
