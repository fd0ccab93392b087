//! Starting, watching and stopping a runner.

use std::collections::VecDeque;

use agira::commands::launch::{
    claude_launch_command, claude_tui_input_cleared, claude_tui_input_ready, merge_settings_text,
    pane_pid, runner_hooks_settings, shell_quote_path, stderr_message,
};
use agira::commands::runner::{
    claude_runner_settings_argument, cold_start_runner, format_status_output, generate_runner_id,
    hook_wait_step, kickoff_step, open_runners, run_runner_attach, run_runner_logs,
    run_runner_start, run_runner_stop, runner_event, runner_is_live, runner_log_path,
    screen_wait_step, session_name, start_runner, status_runner, stop_runner, ColdStartFiles,
    KickStep, PaneSeen, RunnerAction, RunnerCommandError, RunnerEventKind, RunnerStartOutput, RunnerStatusOutput,
    SessionSeen, StartNext, WaitStep, FALLBACK_NOTE, HOOK_READY_MAX_ATTEMPTS,
    KICKOFF_SUBMIT_MAX_ATTEMPTS, TUI_READY_MAX_ATTEMPTS,
};
use agira::engine::config::{Config, ConfigError, ConfigRead, PhaseDef};
use agira::engine::global_config::{ClaudeRunnerConfig, GlobalConfig, TextRead};
use agira::engine::hooks::HookConfig;
use agira::engine::orchestrator::DEFAULT_ORCHESTRATOR_KICKOFF;
use agira::engine::project::Project;
use agira::engine::runner::{Runner, RunnerRegistry, RunnerStore, RunnersRead};
use agira::time::Instant;

const MINUTES: i64 = 60;
const SESSION: &str = "agira-runner-repo";

/// A terminal that notes what is asked of it.
struct RecordingTmux {
    live: bool,
    pane: PaneSeen,
    ready: bool,
    pane_snapshots: VecDeque<String>,
    calls: Vec<Vec<String>>,
}

impl Default for RecordingTmux {
    fn default() -> Self {
        Self {
            live: false,
            pane: PaneSeen::Dead,
            ready: true,
            pane_snapshots: VecDeque::new(),
            calls: Vec::new(),
        }
    }
}

impl RecordingTmux {
    fn live() -> Self {
        Self { live: true, pane: PaneSeen::Agent, ..Self::default() }
    }

    fn zombie() -> Self {
        Self { live: true, pane: PaneSeen::Dead, ..Self::default() }
    }

    fn shell_pane() -> Self {
        Self { live: true, pane: PaneSeen::Shell, ..Self::default() }
    }

    fn never_ready() -> Self {
        Self { ready: false, ..Self::default() }
    }

    fn with_pane_snapshots(mut self, snapshots: &[&str]) -> Self {
        self.pane_snapshots = snapshots
            .iter()
            .map(|snapshot| (*snapshot).to_owned())
            .collect();
        self
    }

    fn call(&mut self, words: &[&str]) {
        self.calls.push(words.iter().map(|word| (*word).to_owned()).collect());
    }

    /// What is seen of the session.
    fn look(&mut self) -> SessionSeen {
        self.call(&["has-session", "-t", SESSION]);
        if self.live {
            SessionSeen::Present { pane: self.pane.clone() }
        } else {
            SessionSeen::Absent
        }
    }

    fn perform(&mut self, actions: &[RunnerAction]) {
        for action in actions {
            match action {
                RunnerAction::KillSession { session } => {
                    self.call(&["kill-session", "-t", session]);
                    self.live = false;
                }
                RunnerAction::KillProcessGroup { pgid } => self.call(&["killpg", &pgid.to_string()]),
                RunnerAction::NewSession { session, command } => {
                    self.call(&["new-session", "-d", "-s", session, command]);
                    self.live = true;
                }
                RunnerAction::PipePane { session, log_path } => {
                    let command = format!("cat >> {}", shell_quote_path(log_path));
                    self.call(&["pipe-pane", "-t", session, "-o", &command]);
                }
                RunnerAction::WriteFile { path, contents } => {
                    self.call(&["write", path, contents])
                }
                RunnerAction::SaveRunners { .. } => {}
            }
        }
    }

    fn capture_pane(&mut self) -> String {
        self.call(&["capture-pane", "-p", "-t", SESSION]);
        self.pane_snapshots
            .pop_front()
            .unwrap_or_else(|| "│ > \n".to_owned())
    }

    fn kick(&mut self, store: &RunnerStore, runner_id: &str) -> Result<(), RunnerCommandError> {
        if let WaitStep::LookAtScreen { note } = hook_wait_step(store, runner_id, 0, 1) {
            assert_eq!(note, FALLBACK_NOTE);
            self.call(&["wait-for-ready", "-t", SESSION]);
            let pane = if self.ready { "│ > \n" } else { "Loading…\n" };
            screen_wait_step(pane, TUI_READY_MAX_ATTEMPTS - 1)?;
        }
        self.call(&["send-keys", "-t", SESSION, DEFAULT_ORCHESTRATOR_KICKOFF]);
        self.call(&["send-keys", "-t", SESSION, "Enter"]);
        let mut attempt = 0usize;
        loop {
            let pane = self.capture_pane();
            match kickoff_step(&pane, attempt)? {
                KickStep::Submitted => return Ok(()),
                KickStep::PressAgain => self.call(&["send-keys", "-t", SESSION, "Enter"]),
            }
            attempt += 1;
        }
    }

    fn start(
        &mut self,
        project: &Project,
        runner_type: Option<&str>,
        store: &mut RunnerStore,
        files: &ColdStartFiles,
        now: Instant,
    ) -> Result<RunnerStartOutput, RunnerCommandError> {
        let seen = self.look();
        let plan = start_runner(project, store, &seen, now)?;
        self.perform(&plan.actions);
        match plan.next {
            StartNext::ColdStart => {
                let cold = cold_start_runner(
                    project, "agent", "Agent", runner_type, store, files, now, 77,
                )?;
                self.perform(&cold.actions);
                Ok(cold.output)
            }
            StartNext::Kick { output } => {
                self.kick(store, &output.runner_id)?;
                Ok(output)
            }
            StartNext::Finished { output } => Ok(output),
        }
    }
}

fn fixed_now() -> Instant {
    Instant::parse("2026-06-11T12:00:00Z").expect("parse fixed time")
}

fn test_config() -> Config {
    Config::new_single_workflow(
        "rust",
        vec![
            (
                "implementing".to_owned(),
                PhaseDef {
                    model: Some("dispatch exec -a codex".to_owned()),
                    duty: Some("write tests first".to_owned()),
                    gate: None,
                },
            ),
            (
                "verifying".to_owned(),
                PhaseDef {
                    model: Some("sonnet".to_owned()),
                    duty: Some("run cargo test".to_owned()),
                    gate: None,
                },
            ),
        ],
        3,
    )
}

fn project() -> Project {
    Project {
        git_root: "/tmp/runner-repo".to_owned(),
        slug: "runner-repo".to_owned(),
        state_dir: "/home/.agira/runner-repo".to_owned(),
        global_config: GlobalConfig::for_program("agent"),
        global_hooks: HookConfig::default(),
        project_hooks: HookConfig::default(),
    }
}

fn files() -> ColdStartFiles {
    ColdStartFiles {
        config: ConfigRead::Parsed {
            contents: "\"max_retries\"".to_owned(),
            config: test_config(),
        },
        template: TextRead::Missing,
        agent_settings: TextRead::Missing,
    }
}

fn empty_store(project: &Project) -> RunnerStore {
    open_runners(project, RunnersRead::Missing).expect("open store")
}

fn registered(project: &Project, id: &str) -> RunnerStore {
    let mut store = empty_store(project);
    store
        .register_at(id, "agent-tmux", SESSION, fixed_now())
        .expect("register runner");
    store
}

fn busy(project: &Project, id: &str, task: &str, ttl: i64) -> RunnerStore {
    let mut store = registered(project, id);
    store.acquire_lease(id, task, ttl, fixed_now()).expect("acquire lease");
    store
}

/// Changes one runner of a store.
fn change_runner(store: &mut RunnerStore, id: &str, change: impl FnOnce(&mut Runner)) {
    let mut registry: RunnerRegistry = store.registry().clone();
    let mut runner = registry.runners.get(id).expect("runner exists").clone();
    change(&mut runner);
    registry.runners.insert(id.to_owned(), runner);
    store.save(registry);
}

fn read(store: &RunnerStore) -> RunnersRead {
    RunnersRead::Parsed { registry: store.registry().clone() }
}

fn status(
    project: &Project,
    store: &RunnerStore,
    tmux: &mut RecordingTmux,
    now: Instant,
) -> RunnerStatusOutput {
    status_runner(project, read(store), &tmux.look(), now).expect("status runner")
}

#[test]
fn start_spawns_pipe_pane_and_registers_default_runner_type() {
    let project = project();
    let mut store = empty_store(&project);
    let mut tmux = RecordingTmux::default();

    let output = tmux
        .start(&project, None, &mut store, &files(), fixed_now())
        .expect("start runner");

    assert_eq!(output.session_name, "agira-runner-repo");
    assert!(!output.already_running);
    assert_eq!(tmux.calls[0], ["has-session", "-t", "agira-runner-repo"]);
    assert_eq!(
        &tmux.calls[1][..4],
        ["new-session", "-d", "-s", "agira-runner-repo"]
    );
    assert!(tmux.calls[1][4].starts_with("AGIRA_RUNNER_ID='runner-"));
    assert!(tmux.calls[1][4].contains("' 'agent' --model 'sonnet' --permission-mode 'auto'"));
    assert!(tmux.calls[1][4].contains("agira-orchestrator-template-v2"));
    assert!(tmux.calls[1][4]
        .contains("| implementing | dispatch exec -a codex | write tests first |"));

    assert_eq!(
        &tmux.calls[2][..3],
        ["pipe-pane", "-t", "agira-runner-repo"]
    );
    assert_eq!(tmux.calls[2][3], "-o");
    let pipe_command = &tmux.calls[2][4];
    assert!(pipe_command.ends_with("/runner/runner.log'"));
    assert!(tmux.calls[1][4].contains(" --settings '"));
    assert!(tmux.calls[1][4].contains("agira runner event ready --runner"));
    assert!(tmux.calls[1][4].contains("agira runner event idle --runner"));
    assert!(tmux.calls[1][4].contains("agira runner event heartbeat --runner"));
    assert!(tmux.calls[1][4].contains("agira task todo --runner \"$AGIRA_RUNNER_ID\""));
    assert!(!tmux.calls.iter().any(|call| call[0] == "wait-for-ready"));
    assert!(!tmux.calls.iter().any(|call| call[0] == "send-keys"));

    let runner = store
        .get_runner(&output.runner_id)
        .expect("runner registered");
    assert_eq!(runner.runner_type, "agent-tmux");
    assert_eq!(runner.tmux_session, "agira-runner-repo");
}

#[test]
fn start_records_custom_runner_type() {
    let project = project();
    let mut store = empty_store(&project);
    let mut tmux = RecordingTmux::default();

    let output = tmux
        .start(&project, Some("custom"), &mut store, &files(), fixed_now())
        .expect("start runner");

    let runner = store
        .get_runner(&output.runner_id)
        .expect("runner registered");
    assert_eq!(runner.runner_type, "custom");
}

#[test]
fn start_injects_override_template_on_cold_start() {
    let mut project = project();
    project.global_config.runner.orchestrator_template_path =
        Some("/tmp/override-template.md".to_owned());
    let mut files = files();
    files.template = TextRead::Contents {
        text: "custom static marker\n\nThin-orchestrator rule: delegate only".to_owned(),
    };
    let mut store = empty_store(&project);
    let mut tmux = RecordingTmux::default();

    tmux.start(&project, None, &mut store, &files, fixed_now())
        .expect("start runner");

    let launch_command = &tmux.calls[1][4];
    assert!(launch_command.contains("custom static marker"));
    assert!(!launch_command.contains("agira-orchestrator-template-v2"));
    assert!(launch_command.contains("| verifying | sonnet | run cargo test |"));
}

#[test]
fn start_uses_embedded_template_when_override_template_is_missing() {
    let mut project = project();
    project.global_config.runner.orchestrator_template_path =
        Some("/tmp/missing-template.md".to_owned());
    let mut store = empty_store(&project);
    let mut tmux = RecordingTmux::default();

    tmux.start(&project, None, &mut store, &files(), fixed_now())
        .expect("start runner");

    let launch_command = &tmux.calls[1][4];
    assert!(launch_command.contains("agira-orchestrator-template-v2"));
    assert!(launch_command.contains("| verifying | sonnet | run cargo test |"));
}

#[test]
fn start_errors_before_creating_session_when_config_is_missing() {
    let project = project();
    let mut files = files();
    files.config = ConfigRead::Missing;
    let mut store = empty_store(&project);
    let mut tmux = RecordingTmux::default();

    let result = tmux.start(&project, None, &mut store, &files, fixed_now());

    assert!(matches!(
        result,
        Err(RunnerCommandError::Config(ConfigError::NotFound { .. }))
    ));
    assert_eq!(tmux.calls, vec![vec!["has-session", "-t", "agira-runner-repo"]]);
}

#[test]
fn start_does_not_wait_or_cleanup_when_runner_tui_is_not_ready_on_cold_start() {
    let project = project();
    let mut store = empty_store(&project);
    let mut tmux = RecordingTmux::never_ready();

    let output = tmux
        .start(&project, None, &mut store, &files(), fixed_now())
        .expect("start runner");

    assert_eq!(
        tmux.calls,
        vec![
            vec!["has-session", "-t", "agira-runner-repo"],
            vec![
                "new-session",
                "-d",
                "-s",
                "agira-runner-repo",
                &tmux.calls[1][4],
            ],
            vec![
                "pipe-pane",
                "-t",
                "agira-runner-repo",
                "-o",
                &tmux.calls[2][4],
            ],
        ]
    );
    assert!(store.get_runner(&output.runner_id).is_some());
}

#[test]
fn start_rebuilds_zombie_session_and_removes_stale_registry_entry() {
    let project = project();
    let mut store = registered(&project, "runner-zombie");
    let mut tmux = RecordingTmux::zombie();

    let output = tmux
        .start(
            &project,
            None,
            &mut store,
            &files(),
            fixed_now().plus_seconds(MINUTES),
        )
        .expect("start runner");

    assert_ne!(output.runner_id, "runner-zombie");
    assert!(!output.already_running);
    assert_eq!(
        tmux.calls,
        [
            vec!["has-session", "-t", "agira-runner-repo"],
            vec!["kill-session", "-t", "agira-runner-repo"],
            vec![
                "new-session",
                "-d",
                "-s",
                "agira-runner-repo",
                &tmux.calls[2][4]
            ],
            vec![
                "pipe-pane",
                "-t",
                "agira-runner-repo",
                "-o",
                &tmux.calls[3][4]
            ],
        ]
    );
    assert!(store.get_runner("runner-zombie").is_none());
    assert!(store.get_runner(&output.runner_id).is_some());
}

#[test]
fn start_releases_stale_lease_and_takes_over_live_session() {
    let project = project();
    let mut store = busy(&project, "runner-stale", "task-122", 5 * MINUTES);
    let mut tmux = RecordingTmux::live();

    let output = tmux
        .start(
            &project,
            None,
            &mut store,
            &files(),
            fixed_now().plus_seconds(6 * MINUTES),
        )
        .expect("start runner");

    assert_eq!(output.runner_id, "runner-stale");
    assert!(output.already_running);
    let runner = store.get_runner("runner-stale").expect("runner exists");
    assert!(runner.current_task.is_none());
    assert!(runner.lease_expires_at.is_none());
    assert!(runner.last_heartbeat.is_none());
}

#[test]
fn start_releases_stale_heartbeat_with_fresh_lease() {
    let project = project();
    let mut store = busy(&project, "runner-stale-hb", "task-122", 15 * MINUTES);
    let stale_hb = fixed_now().minus_seconds(11 * MINUTES).text();
    change_runner(&mut store, "runner-stale-hb", |runner| {
        runner.last_heartbeat = Some(stale_hb);
    });

    let mut tmux = RecordingTmux::live();
    let output = tmux
        .start(&project, None, &mut store, &files(), fixed_now())
        .expect("start runner");

    assert_eq!(output.runner_id, "runner-stale-hb");
    assert!(output.already_running);
    let runner = store.get_runner("runner-stale-hb").expect("runner exists");
    assert!(runner.current_task.is_none(), "lease should be released");
    assert!(runner.lease_expires_at.is_none());
    assert!(runner.last_heartbeat.is_none());
}

#[test]
fn start_keeps_fresh_live_session_idempotent() {
    let project = project();
    let mut store = busy(&project, "runner-fresh", "task-122", 5 * MINUTES);
    let before: RunnerRegistry = store.registry().clone();
    let mut tmux = RecordingTmux::live();

    let output = tmux
        .start(
            &project,
            None,
            &mut store,
            &files(),
            fixed_now().plus_seconds(MINUTES),
        )
        .expect("start runner");

    assert_eq!(output.runner_id, "runner-fresh");
    assert!(output.already_running);
    assert_eq!(store.registry(), &before);
    let runner = store.get_runner("runner-fresh").expect("runner exists");
    assert_eq!(runner.current_task.as_deref(), Some("task-122"));
}

#[test]
fn start_treats_unparseable_lease_as_live_fail_safe() {
    let project = project();
    let mut store = registered(&project, "runner-ambiguous");
    change_runner(&mut store, "runner-ambiguous", |runner| {
        runner.current_task = Some("task-122".to_owned());
        runner.lease_expires_at = Some("not-a-timestamp".to_owned());
        runner.last_heartbeat = Some("not-a-timestamp".to_owned());
    });
    let mut tmux = RecordingTmux::live();

    let output = tmux
        .start(
            &project,
            None,
            &mut store,
            &files(),
            fixed_now().plus_seconds(24 * 60 * MINUTES),
        )
        .expect("start runner");

    assert_eq!(output.runner_id, "runner-ambiguous");
    assert!(output.already_running);
    let runner = store.get_runner("runner-ambiguous").expect("runner exists");
    assert_eq!(runner.current_task.as_deref(), Some("task-122"));
    assert_eq!(runner.lease_expires_at.as_deref(), Some("not-a-timestamp"));
}

#[test]
fn start_reaps_recorded_process_group_when_session_is_gone() {
    let project = project();
    let mut store = registered(&project, "runner-gone");
    change_runner(&mut store, "runner-gone", |runner| runner.pgid = Some(4242));
    let mut tmux = RecordingTmux::default();

    tmux.start(
        &project,
        None,
        &mut store,
        &files(),
        fixed_now().plus_seconds(MINUTES),
    )
    .expect("start runner");

    assert!(tmux.calls.contains(&vec!["killpg".into(), "4242".into()]));
}

#[test]
fn start_is_idempotent_when_live_session_and_registry_entry_exist() {
    let project = project();
    let mut store = busy(&project, "runner-existing", "task-busy", 5 * MINUTES);
    let mut tmux = RecordingTmux::live();

    let output = tmux
        .start(
            &project,
            None,
            &mut store,
            &files(),
            fixed_now().plus_seconds(MINUTES),
        )
        .expect("start runner");

    assert_eq!(output.runner_id, "runner-existing");
    assert!(output.already_running);
    assert!(!tmux.calls.iter().any(|call| call[0] == "send-keys"));
    assert_eq!(tmux.calls, vec![vec!["has-session", "-t", "agira-runner-repo"]]);
}

#[test]
fn stop_kills_deregisters_and_releases_lease() {
    let project = project();
    let mut store = busy(&project, "runner-stop", "task-120", 5 * MINUTES);
    let mut tmux = RecordingTmux::live();

    let seen = tmux.look();
    let actions = stop_runner(&project, &mut store, &seen).expect("stop runner");
    tmux.perform(&actions);

    assert_eq!(
        tmux.calls,
        vec![
            vec!["has-session", "-t", "agira-runner-repo"],
            vec!["kill-session", "-t", "agira-runner-repo"],
        ]
    );
    assert!(store.get_runner("runner-stop").is_none());
}

#[test]
fn stop_without_runner_returns_user_error() {
    let project = project();
    let mut store = empty_store(&project);

    let result = stop_runner(&project, &mut store, &SessionSeen::Absent);

    assert!(matches!(
        result,
        Err(RunnerCommandError::NoRunnerRegistered)
    ));
}

#[test]
fn status_reports_liveness_type_current_task_and_heartbeat_age() {
    let project = project();
    let mut store = empty_store(&project);
    store
        .register_at("runner-status", "custom", "agira-runner-repo", fixed_now())
        .expect("register runner");
    store
        .acquire_lease("runner-status", "task-120", 5 * MINUTES, fixed_now())
        .expect("acquire lease");
    let mut tmux = RecordingTmux::live();

    let status = status(&project, &store, &mut tmux, fixed_now().plus_seconds(12));
    let output = format_status_output(&status);

    assert!(output.contains("type: custom"));
    assert!(output.contains("current task: task-120"));
    assert!(output.contains("liveness: live"));
    assert!(output.contains("heartbeat: 12s ago"));
}

#[test]
fn status_distinguishes_registered_dead_session() {
    let project = project();
    let store = registered(&project, "runner-dead");
    let mut tmux = RecordingTmux::default();

    let status = status(&project, &store, &mut tmux, fixed_now());

    assert_eq!(status.liveness, "stale");
}

#[test]
fn status_reports_zombie_without_mutating_registry_or_session() {
    let project = project();
    let store = registered(&project, "runner-zombie-status");
    let mut tmux = RecordingTmux::zombie();

    let status = status(&project, &store, &mut tmux, fixed_now());

    assert_eq!(status.liveness, "zombie");
    assert!(!tmux.calls.iter().any(|call| call[0] == "kill-session"));
    assert!(!tmux.calls.iter().any(|call| call[0] == "killpg"));
}

#[test]
fn status_reports_stale_lease_without_releasing_it() {
    let project = project();
    let store = busy(&project, "runner-stale-status", "task-122", 5 * MINUTES);
    let mut tmux = RecordingTmux::live();

    let status = status(&project, &store, &mut tmux, fixed_now().plus_seconds(6 * MINUTES));

    assert_eq!(status.liveness, "stale");
    assert_eq!(status.current_task.as_deref(), Some("task-122"));
}

#[test]
fn status_without_registered_runner_exits_successfully_with_message() {
    let project = project();
    let mut tmux = RecordingTmux::default();

    let status = status(&project, &empty_store(&project), &mut tmux, fixed_now());

    assert_eq!(format_status_output(&status), "no runner registered");
    assert_eq!(tmux.calls, vec![vec!["has-session", "-t", "agira-runner-repo"]]);
}

#[test]
fn status_reports_orphaned_live_session_without_registry_entry() {
    let project = project();
    let mut tmux = RecordingTmux::live();

    let status = status(&project, &empty_store(&project), &mut tmux, fixed_now());

    assert_eq!(
        format_status_output(&status),
        "session running but no runner registered"
    );
    assert_eq!(tmux.calls, vec![vec!["has-session", "-t", "agira-runner-repo"]]);
}

#[test]
fn attach_invokes_tmux_attach_for_live_session() {
    let mut tmux = RecordingTmux::live();

    let session = run_runner_attach(&project(), &tmux.look()).expect("attach runner");

    assert_eq!(session, "agira-runner-repo");
}

#[test]
fn attach_errors_when_session_is_not_live() {
    let mut tmux = RecordingTmux::default();

    let result = run_runner_attach(&project(), &tmux.look());

    assert!(matches!(result, Err(RunnerCommandError::SessionNotAlive)));
}

#[test]
fn logs_reads_pipe_pane_file_to_stdout() {
    let project = project();
    assert_eq!(
        runner_log_path(&project),
        "/home/.agira/runner-repo/runner/runner.log"
    );

    let output = run_runner_logs(&project, TextRead::Contents { text: "one\ntwo\n".to_owned() })
        .expect("read logs");

    assert_eq!(output, "one\ntwo\n");
}

#[test]
fn logs_missing_file_returns_error() {
    let result = run_runner_logs(&project(), TextRead::Missing);

    assert!(matches!(
        result,
        Err(RunnerCommandError::LogFileNotFound { .. })
    ));
}

#[test]
fn runner_hooks_settings_wires_expected_lifecycle_events() {
    let settings = runner_hooks_settings();
    let parsed: serde_json::Value =
        serde_json::from_str(&settings).expect("settings are valid json");

    assert_eq!(
        parsed["hooks"]["SessionStart"][0]["hooks"][0]["command"],
        "agira runner event ready --runner \"$AGIRA_RUNNER_ID\""
    );
    assert!(parsed["hooks"]["SessionStart"][0].get("matcher").is_none());
    assert_eq!(
        parsed["hooks"]["Stop"][0]["hooks"][0]["command"],
        "agira runner event idle --runner \"$AGIRA_RUNNER_ID\""
    );
    assert!(parsed["hooks"]["Stop"][0].get("matcher").is_none());
    assert_eq!(parsed["hooks"]["PostToolUse"][0]["matcher"], "*");
    assert_eq!(
        parsed["hooks"]["PostToolUse"][0]["hooks"][0]["command"],
        "agira runner event heartbeat --runner \"$AGIRA_RUNNER_ID\""
    );
}

#[test]
fn claude_launch_command_uses_default_config_shape() {
    let hooks_settings = runner_hooks_settings();
    let command = claude_launch_command(
        &ClaudeRunnerConfig::for_program("agent"),
        "runner-123",
        "system prompt",
        Some(&hooks_settings),
        "kickoff now",
    );

    assert!(command.starts_with(
        "AGIRA_RUNNER_ID='runner-123' 'agent' --model 'sonnet' --permission-mode 'auto'"
    ));
    assert!(!command.contains("--settings ''"));
    assert!(command.contains(" --settings '{\"hooks\":"));
    assert!(command.contains(" --append-system-prompt 'system prompt' 'kickoff now'"));
}

#[test]
fn claude_launch_command_uses_full_config_in_token_order() {
    let mut config = ClaudeRunnerConfig {
        command: "/opt/bin/agent-wrapper".to_owned(),
        model: "opus".to_owned(),
        permission_mode: "dontAsk".to_owned(),
        settings_path: Some("/tmp/agent runner/settings.json".to_owned()),
        extra_args: vec!["--debug".to_owned(), "category='hooks'".to_owned()],
        ..ClaudeRunnerConfig::for_program("agent")
    };
    config.env.insert("AGENT_BASE_URL".to_owned(), "https://example.test".to_owned());
    config.env.insert("HTTPS_PROXY".to_owned(), "http://127.0.0.1:8080".to_owned());

    let command = claude_launch_command(
        &config,
        "runner-xyz",
        "prompt with ' quote",
        Some("/tmp/agira-runner/agent-runner-settings.json"),
        "claim next",
    );

    assert!(command.starts_with(
        "AGENT_BASE_URL='https://example.test' HTTPS_PROXY='http://127.0.0.1:8080' AGIRA_RUNNER_ID='runner-xyz' '/opt/bin/agent-wrapper' --model 'opus' --permission-mode 'dontAsk' --settings '/tmp/agira-runner/agent-runner-settings.json' '--debug' 'category='\\''hooks'\\'''"
    ));
    assert_eq!(command.matches("--settings").count(), 1);
    assert!(
        command.ends_with(" --append-system-prompt 'prompt with '\\'' quote' 'claim next'")
    );
}

#[test]
fn claude_launch_command_omits_user_settings_path_when_unset_or_empty() {
    let hooks_settings = runner_hooks_settings();
    let config = ClaudeRunnerConfig {
        settings_path: Some(String::new()),
        ..ClaudeRunnerConfig::for_program("agent")
    };
    let (argument, overlay) = claude_runner_settings_argument(
        "agent",
        &config,
        &hooks_settings,
        "/runner",
        &TextRead::Missing,
    )
    .expect("settings arg");
    assert!(overlay.is_none());
    let command = claude_launch_command(
        &config,
        "runner-123",
        "prompt",
        Some(&argument),
        "kickoff",
    );

    assert_eq!(command.matches("--settings").count(), 1);
    assert!(command.contains(" --settings '{\"hooks\":"));
}

#[test]
fn claude_launch_command_sorts_env_and_runner_id_wins() {
    let mut config = ClaudeRunnerConfig::for_program("agent");
    config.env.insert("ZZZ".to_owned(), "z value".to_owned());
    config.env.insert("AAA".to_owned(), "a'value $(rm -rf /)".to_owned());
    config.env.insert("AGIRA_RUNNER_ID".to_owned(), "user-runner".to_owned());

    let command = claude_launch_command(
        &config,
        "real-runner",
        "prompt",
        Some(&runner_hooks_settings()),
        "kickoff",
    );

    assert!(command.starts_with(
        "AAA='a'\\''value $(rm -rf /)' AGIRA_RUNNER_ID='user-runner' ZZZ='z value' AGIRA_RUNNER_ID='real-runner'"
    ));
}

#[test]
fn claude_runner_settings_argument_merges_hooks_with_user_settings_path() {
    let user_settings = TextRead::Contents {
        text: r#"{
  "allowedTools": ["Bash(git *)"],
  "hooks": {
    "Stop": [
      {
        "hooks": [
          {
            "type": "command",
            "command": "echo user stop"
          }
        ]
      }
    ]
  }
}"#
        .to_owned(),
    };
    let runner_dir = "/work/runner";

    let (settings_arg, overlay) = claude_runner_settings_argument(
        "agent",
        &ClaudeRunnerConfig {
            settings_path: Some("/work/user-settings.json".to_owned()),
            ..ClaudeRunnerConfig::for_program("agent")
        },
        &runner_hooks_settings(),
        runner_dir,
        &user_settings,
    )
    .expect("settings arg");

    assert_eq!(settings_arg, format!("{runner_dir}/agent-runner-settings.json"));
    let overlay: serde_json::Value =
        serde_json::from_str(&overlay.expect("overlay settings")).expect("overlay json");

    assert_eq!(overlay["allowedTools"][0], "Bash(git *)");
    assert_eq!(
        overlay["hooks"]["Stop"][0]["hooks"][0]["command"],
        "echo user stop"
    );
    assert_eq!(
        overlay["hooks"]["SessionStart"][0]["hooks"][0]["command"],
        "agira runner event ready --runner \"$AGIRA_RUNNER_ID\""
    );
    assert_eq!(
        overlay["hooks"]["Stop"][1]["hooks"][0]["command"],
        "agira runner event idle --runner \"$AGIRA_RUNNER_ID\""
    );
    assert_eq!(
        overlay["hooks"]["PostToolUse"][0]["hooks"][0]["command"],
        "agira runner event heartbeat --runner \"$AGIRA_RUNNER_ID\""
    );
}

#[test]
fn runner_event_command_records_ready_idle_and_heartbeat() {
    let mut store = registered(&project(), "runner-event");

    runner_event(
        &mut store,
        RunnerEventKind::Idle,
        Some("runner-event"),
        fixed_now(),
    )
    .expect("record idle");
    runner_event(
        &mut store,
        RunnerEventKind::Ready,
        Some("runner-event"),
        fixed_now().plus_seconds(1),
    )
    .expect("record ready");
    runner_event(
        &mut store,
        RunnerEventKind::Heartbeat,
        Some("runner-event"),
        fixed_now().plus_seconds(2),
    )
    .expect("record heartbeat");

    let runner = store.get_runner("runner-event").expect("runner exists");
    assert!(runner.idle_since.is_none());
    assert_eq!(
        runner.last_heartbeat.as_deref(),
        Some("2026-06-11T12:00:02+00:00")
    );
}

#[test]
fn runner_event_without_resolved_runner_is_noop() {
    let mut store = empty_store(&project());

    let result = runner_event(&mut store, RunnerEventKind::Ready, None, fixed_now())
        .expect("missing runner is non-fatal");

    assert!(result.is_none());
    assert!(store.registry().runners.is_empty());
}

#[test]
fn start_rekicks_idle_live_claude_session() {
    let project = project();
    let mut store = registered(&project, "runner-idle");
    let mut tmux = RecordingTmux::live();

    let output = tmux
        .start(&project, None, &mut store, &files(), fixed_now())
        .expect("start runner");

    assert_eq!(output.runner_id, "runner-idle");
    assert!(output.already_running);

    let wait_idx = tmux
        .calls
        .iter()
        .position(|c| c[0] == "wait-for-ready")
        .expect("wait-for-ready not called");
    assert_eq!(tmux.calls[wait_idx + 1][0], "send-keys");
    assert_eq!(tmux.calls[wait_idx + 2][0], "send-keys");
    assert_eq!(tmux.calls[wait_idx + 2][3], "Enter");

    assert!(store.get_runner("runner-idle").is_some());
}

#[test]
fn start_rekick_retries_standalone_enter_when_initial_enter_is_swallowed() {
    let project = project();
    let mut store = registered(&project, "runner-idle-swallowed-enter");
    let mut tmux = RecordingTmux::live()
        .with_pane_snapshots(&[&format!("│ > {DEFAULT_ORCHESTRATOR_KICKOFF}\n"), "│ > \n"]);

    let output = tmux
        .start(&project, None, &mut store, &files(), fixed_now())
        .expect("start runner");

    assert_eq!(output.runner_id, "runner-idle-swallowed-enter");
    assert!(output.already_running);
    let send_keys: Vec<&Vec<String>> = tmux
        .calls
        .iter()
        .filter(|call| call[0] == "send-keys")
        .collect();
    assert_eq!(send_keys.len(), 3);
    assert_eq!(send_keys[0][3], DEFAULT_ORCHESTRATOR_KICKOFF);
    assert_eq!(send_keys[1][3], "Enter");
    assert_eq!(send_keys[2][3], "Enter");
    let capture_count = tmux
        .calls
        .iter()
        .filter(|call| call[0] == "capture-pane")
        .count();
    assert_eq!(capture_count, 2);
}

#[test]
fn start_rekick_does_not_retry_when_initial_submit_clears_input() {
    let project = project();
    let mut store = registered(&project, "runner-idle-first-submit");
    let mut tmux = RecordingTmux::live().with_pane_snapshots(&["│ > \n"]);

    let output = tmux
        .start(&project, None, &mut store, &files(), fixed_now())
        .expect("start runner");

    assert_eq!(output.runner_id, "runner-idle-first-submit");
    assert!(output.already_running);
    let send_keys: Vec<&Vec<String>> = tmux
        .calls
        .iter()
        .filter(|call| call[0] == "send-keys")
        .collect();
    assert_eq!(send_keys.len(), 2);
    assert_eq!(send_keys[0][3], DEFAULT_ORCHESTRATOR_KICKOFF);
    assert_eq!(send_keys[1][3], "Enter");
}

#[test]
fn start_rekick_returns_error_when_kickoff_submission_never_clears() {
    let project = project();
    let mut store = registered(&project, "runner-idle-never-submits");
    let mut tmux = RecordingTmux::live().with_pane_snapshots(&[
        &format!("│ > {DEFAULT_ORCHESTRATOR_KICKOFF}\n"),
        &format!("│ > {DEFAULT_ORCHESTRATOR_KICKOFF}\n"),
        &format!("│ > {DEFAULT_ORCHESTRATOR_KICKOFF}\n"),
    ]);

    let result = tmux.start(&project, None, &mut store, &files(), fixed_now());

    assert!(matches!(
        result,
        Err(RunnerCommandError::KickoffNotSubmitted)
    ));
    let send_keys: Vec<&Vec<String>> = tmux
        .calls
        .iter()
        .filter(|call| call[0] == "send-keys")
        .collect();
    assert_eq!(send_keys.len(), 4);
    assert_eq!(send_keys[0][3], DEFAULT_ORCHESTRATOR_KICKOFF);
    assert_eq!(send_keys[1][3], "Enter");
    assert_eq!(send_keys[2][3], "Enter");
    assert_eq!(send_keys[3][3], "Enter");
}

#[test]
fn start_rekick_failure_does_not_deregister_idle_session() {
    let project = project();
    let mut store = registered(&project, "runner-idle-fail");
    let mut tmux = RecordingTmux { ready: false, ..RecordingTmux::live() };

    let result = tmux.start(&project, None, &mut store, &files(), fixed_now());

    assert!(matches!(result, Err(RunnerCommandError::RunnerNotReady)));
    assert!(!tmux.calls.iter().any(|c| c[0] == "kill-session"));
    assert!(store.get_runner("runner-idle-fail").is_some());
}

#[test]
fn start_busy_live_claude_session_triggers_no_send_keys() {
    let project = project();
    let mut store = busy(&project, "runner-busy", "task-active", 10 * MINUTES);
    let mut tmux = RecordingTmux::live();

    let output = tmux
        .start(
            &project,
            None,
            &mut store,
            &files(),
            fixed_now().plus_seconds(MINUTES),
        )
        .expect("start runner");

    assert_eq!(output.runner_id, "runner-busy");
    assert!(output.already_running);
    assert!(!tmux.calls.iter().any(|c| c[0] == "send-keys"));
    assert!(!tmux.calls.iter().any(|c| c[0] == "wait-for-ready"));
}

#[test]
fn start_rebuilds_shell_pane_zombie_and_cold_starts() {
    let project = project();
    let mut store = registered(&project, "runner-shell");
    let mut tmux = RecordingTmux::shell_pane();

    let output = tmux
        .start(
            &project,
            None,
            &mut store,
            &files(),
            fixed_now().plus_seconds(MINUTES),
        )
        .expect("start runner");

    assert_ne!(output.runner_id, "runner-shell");
    assert!(!output.already_running);
    assert!(tmux.calls.iter().any(|c| c[0] == "kill-session"));

    assert!(store.get_runner("runner-shell").is_none());
    assert!(store.get_runner(&output.runner_id).is_some());
}

#[test]
fn status_reports_idle_for_live_claude_pane_with_no_current_task() {
    let project = project();
    let store = registered(&project, "runner-idle-status");
    let mut tmux = RecordingTmux::live();

    let status = status(&project, &store, &mut tmux, fixed_now());

    assert_eq!(status.liveness, "idle");
    let output = format_status_output(&status);
    assert!(output.contains("liveness: idle"));
}

#[test]
fn status_reports_zombie_for_live_session_with_shell_pane() {
    let project = project();
    let store = registered(&project, "runner-shell-status");
    let mut tmux = RecordingTmux::shell_pane();

    let status = status(&project, &store, &mut tmux, fixed_now());

    assert_eq!(status.liveness, "zombie");
    let output = format_status_output(&status);
    assert!(output.contains("liveness: zombie"));
    assert!(!tmux.calls.iter().any(|c| c[0] == "kill-session"));
}

#[test]
fn status_reports_live_for_busy_fresh_runner_with_claude_pane() {
    let project = project();
    let store = busy(&project, "runner-live-status", "task-live", 10 * MINUTES);
    let mut tmux = RecordingTmux::live();

    let status = status(&project, &store, &mut tmux, fixed_now().plus_seconds(MINUTES));

    assert_eq!(status.liveness, "live");
    assert!(format_status_output(&status).contains("liveness: live"));
}

#[test]
fn a_runner_is_named_by_a_digest() {
    let project = project();
    let id = generate_runner_id(&project, &session_name(&project), fixed_now(), 77);
    assert!(id.starts_with("runner-"));
    assert_eq!(id.len(), "runner-".len() + 12);
    assert!(id["runner-".len()..].chars().all(|c| c.is_ascii_hexdigit()));
    assert_ne!(id, generate_runner_id(&project, &session_name(&project), fixed_now(), 78));
    assert_ne!(id, generate_runner_id(&project, "another-session", fixed_now(), 77));
}

#[test]
fn a_runner_that_says_it_is_ready_is_not_watched() {
    let mut store = registered(&project(), "runner-a");
    assert_eq!(
        hook_wait_step(&store, "runner-a", 0, HOOK_READY_MAX_ATTEMPTS),
        WaitStep::Again
    );
    store.record_ready("runner-a", fixed_now()).unwrap();
    assert_eq!(
        hook_wait_step(&store, "runner-a", 0, HOOK_READY_MAX_ATTEMPTS),
        WaitStep::Ready
    );
    assert_eq!(screen_wait_step("Loading…\n", 0), Ok(WaitStep::Again));
    assert_eq!(
        kickoff_step("❯ go", KICKOFF_SUBMIT_MAX_ATTEMPTS - 1),
        Err(RunnerCommandError::KickoffNotSubmitted)
    );
}

#[test]
fn what_a_terminal_says_is_understood() {
    assert_eq!(pane_pid("\nnot a number\n 4711 \n12\n"), Some(4711));
    assert_eq!(pane_pid(""), None);
    assert_eq!(stderr_message(" no server running \n"), "no server running");
    assert_eq!(stderr_message(""), "tmux command exited non-zero");
    assert_eq!(RunnerEventKind::parse("idle"), Some(RunnerEventKind::Idle));
    assert_eq!(RunnerEventKind::parse("other"), None);
}

#[test]
fn settings_that_are_no_object_give_way() {
    let merged = merge_settings_text("[1]", "{\"hooks\": {\"Stop\": []}}").unwrap();
    let value: serde_json::Value = serde_json::from_str(&merged).unwrap();
    assert!(value["hooks"]["Stop"].is_array());
    assert!(matches!(merge_settings_text("{", "{}"), Err((true, _))));
    assert!(matches!(merge_settings_text("{}", "{"), Err((false, _))));
}

#[test]
fn a_runner_is_announced() {
    let mut output = RunnerStartOutput {
        runner_id: "runner-1".to_owned(),
        session_name: SESSION.to_owned(),
        already_running: false,
    };
    assert_eq!(run_runner_start(&output), "runner runner-1\nsession agira-runner-repo");
    output.already_running = true;
    assert_eq!(
        run_runner_start(&output),
        "runner runner-1\nsession agira-runner-repo\nalready running"
    );
    let project = project();
    let mut store = registered(&project, "runner-1");
    let mut tmux = RecordingTmux::live();
    let (actions, message) = run_runner_stop(&project, &mut store, &tmux.look()).unwrap();
    tmux.perform(&actions);
    assert_eq!(message, "runner stopped");
    assert_eq!(
        start_runner(&project, &mut store, &RecordingTmux::live().look(), fixed_now()),
        Err(RunnerCommandError::UnregisteredLiveSession)
    );
}

#[test]
fn claude_launch_command_preserves_extra_arg_order_before_hooks_overlay() {
    let config = ClaudeRunnerConfig {
        extra_args: vec!["--first".to_owned(), "--second=value".to_owned()],
        ..ClaudeRunnerConfig::for_program("agent")
    };

    let command = claude_launch_command(
        &config,
        "runner-123",
        "prompt",
        Some("{\"hooks\":{}}"),
        "kickoff",
    );

    assert!(command.contains(
        "--permission-mode 'auto' --settings '{\"hooks\":{}}' '--first' '--second=value'"
    ));
}

#[test]
fn tui_input_ready_detects_ascii_prompt() {
    assert!(claude_tui_input_ready("│ > \n"));
    assert!(claude_tui_input_ready("  > type here\n"));
}

#[test]
fn tui_input_ready_detects_heavy_angle_prompt() {
    assert!(claude_tui_input_ready("❯ \n"));
    assert!(claude_tui_input_ready("  ❯ \n"));
    assert!(claude_tui_input_ready("│ ❯ \n"));
}

#[test]
fn tui_input_ready_rejects_pane_without_prompt() {
    assert!(!claude_tui_input_ready("Loading…\n"));
    assert!(!claude_tui_input_ready("│ ▐▛███▜▌ Agent Code v2.1.175\n"));
    assert!(!claude_tui_input_ready(""));
}

#[test]
fn tui_input_ready_is_independent_of_binary_path() {
    assert!(claude_tui_input_ready("/opt/bin/agent-wrapper\n│ > \n"));
}

#[test]
fn tui_input_cleared_requires_empty_prompt_after_glyph() {
    assert!(claude_tui_input_cleared("/opt/bin/agent-wrapper\n│ > \n"));
    assert!(claude_tui_input_cleared("prefix\n❯ \n"));
    assert!(!claude_tui_input_cleared("prefix\n│ > kickoff now\n"));
    assert!(!claude_tui_input_cleared("prefix\n❯ kickoff now\n"));
}

#[test]
fn a_runner_is_live_where_it_works_or_waits() {
    let project = project();
    let live = |store: &RunnerStore, tmux: &mut RecordingTmux, now: Instant| {
        runner_is_live(&project, read(store), &tmux.look(), now)
    };
    let working = busy(&project, "runner-a", "task-001", 5 * MINUTES);
    let waiting = registered(&project, "runner-a");

    assert_eq!(live(&working, &mut RecordingTmux::live(), fixed_now()), Ok(true));
    assert_eq!(live(&waiting, &mut RecordingTmux::live(), fixed_now()), Ok(true));
    assert_eq!(
        live(&working, &mut RecordingTmux::live(), fixed_now().plus_seconds(6 * MINUTES)),
        Ok(false)
    );
    assert_eq!(live(&waiting, &mut RecordingTmux::default(), fixed_now()), Ok(false));
    assert_eq!(live(&waiting, &mut RecordingTmux::zombie(), fixed_now()), Ok(false));
    assert_eq!(
        live(&empty_store(&project), &mut RecordingTmux::live(), fixed_now()),
        Ok(false)
    );
}
