//! Choosing the next task and writing what is said about it.

use agira::engine::config::{Config, PhaseDef, DEFAULT_WORKFLOW_NAME};
use agira::engine::pick::{
    format_task_prompt_output, select_next_task_for_runner, strip_acceptance_criteria,
};
use agira::engine::runner::{Runner, RunnerRegistry};
use agira::engine::tasks::{Clarification, HistoryEntry, Task};
use agira::string_map::StringMap;
use agira::time::Instant;

fn test_config() -> Config {
    Config::new_single_workflow(
        "test",
        vec![(
            "implementing".to_owned(),
            PhaseDef {
                model: Some("dispatch exec -a codex".to_owned()),
                duty: Some("Implement the task.".to_owned()),
                gate: None,
            },
        )],
        3,
    )
}

fn test_task() -> Task {
    Task {
        id: "task-109".to_owned(),
        title: "inject previous review feedback".to_owned(),
        description: "Implement retry feedback in the todo prompt so later implementers can see the most recent rejection and inspect previously written attachment evidence before changing code.".to_owned(),
        state: "implementing".to_owned(),
        blocked_at_phase: None,
        blocked_reason: None,
        clarifications: Vec::new(),
        dependencies: Vec::new(),
        retry_count: 0,
        max_retries: 3,
        phases: StringMap::new(),
        history: Vec::new(),
        created_at: "2026-06-10T05:00:00Z".to_owned(),
        workflow: DEFAULT_WORKFLOW_NAME.to_owned(),
        locked_at: None,
        acceptance_criteria: None,
    }
}

fn task_with_id(id: &str, state: &str) -> Task {
    Task {
        id: id.to_owned(),
        title: format!("{id} title"),
        description: "description".to_owned(),
        state: state.to_owned(),
        blocked_at_phase: None,
        blocked_reason: None,
        clarifications: Vec::new(),
        dependencies: Vec::new(),
        retry_count: 0,
        max_retries: 3,
        phases: StringMap::new(),
        history: Vec::new(),
        created_at: "2026-06-10T00:00:00Z".to_owned(),
        workflow: DEFAULT_WORKFLOW_NAME.to_owned(),
        locked_at: None,
        acceptance_criteria: None,
    }
}

fn runner_with_lease(id: &str, task_id: &str, lease_expires_at: &str) -> Runner {
    Runner {
        id: id.to_owned(),
        runner_type: "local".to_owned(),
        tmux_session: String::new(),
        pgid: None,
        status: "running".to_owned(),
        current_task: Some(task_id.to_owned()),
        lease_expires_at: Some(lease_expires_at.to_owned()),
        last_heartbeat: Some("2026-06-11T12:00:00Z".to_owned()),
        idle_since: None,
        registered_at: "2026-06-11T12:00:00Z".to_owned(),
    }
}

fn fixed_now() -> Instant {
    Instant::parse("2026-06-11T12:00:00Z").expect("parse fixed time")
}

fn attachments_path(state_dir: &str, task_id: &str) -> String {
    format!("{state_dir}/attachments/{task_id}")
}

#[test]
fn runner_selection_skips_task_held_by_other_live_lease() {
    let config = test_config();
    let tasks = vec![
        task_with_id("task-001", "implementing"),
        task_with_id("task-002", "implementing"),
    ];
    let mut registry = RunnerRegistry::default();
    registry.runners.insert(
        "runner-other".to_owned(),
        runner_with_lease("runner-other", "task-001", "2026-06-11T12:05:00Z"),
    );

    let selected =
        select_next_task_for_runner(&tasks, &config, &registry, "runner-me", fixed_now())
            .expect("select task");

    assert_eq!(selected.id, "task-002");
}

#[test]
fn runner_selection_allows_task_held_by_other_expired_lease() {
    let config = test_config();
    let tasks = vec![
        task_with_id("task-001", "implementing"),
        task_with_id("task-002", "implementing"),
    ];
    let mut registry = RunnerRegistry::default();
    registry.runners.insert(
        "runner-other".to_owned(),
        runner_with_lease("runner-other", "task-001", "2026-06-11T11:59:59Z"),
    );

    let selected =
        select_next_task_for_runner(&tasks, &config, &registry, "runner-me", fixed_now())
            .expect("select task");

    assert_eq!(selected.id, "task-001");
}

#[test]
fn runner_selection_allows_task_held_by_requesting_runner() {
    let config = test_config();
    let tasks = vec![
        task_with_id("task-001", "implementing"),
        task_with_id("task-002", "implementing"),
    ];
    let mut registry = RunnerRegistry::default();
    registry.runners.insert(
        "runner-me".to_owned(),
        runner_with_lease("runner-me", "task-001", "2026-06-11T12:05:00Z"),
    );

    let selected =
        select_next_task_for_runner(&tasks, &config, &registry, "runner-me", fixed_now())
            .expect("select task");

    assert_eq!(selected.id, "task-001");
}

#[test]
fn task_prompt_includes_previous_review_feedback_on_retry() {
    let config = test_config();
    let state_dir = "/tmp/agira-state";
    let mut task = test_task();
    task.retry_count = 1;
    task.history.push(HistoryEntry {
        from: Some("reviewing".to_owned()),
        to: "implementing".to_owned(),
        timestamp: "2026-06-10T05:30:00Z".to_owned(),
        reason: "retry 1/3: handle the nil retry feedback case".to_owned(),
    });

    let output = format_task_prompt_output(&task, &config, state_dir);

    assert!(output.contains("## Previous Review Feedback"));
    assert!(output.contains("handle the nil retry feedback case"));
    assert!(output.contains("Read any existing files under"));
    assert!(output.contains(&attachments_path(state_dir, &task.id)));
}

#[test]
fn task_prompt_omits_previous_review_feedback_on_first_attempt() {
    let config = test_config();
    let state_dir = "/tmp/agira-state";
    let task = test_task();

    let output = format_task_prompt_output(&task, &config, state_dir);
    // The implementing phase has a model ("dispatch exec -a codex"), so ## Completion is
    // omitted — the orchestrator advances the task, not the sub-agent.
    let expected = "# Agira Task Prompt\n\n## Task\n- ID: task-109\n- Title: inject previous review feedback\n- Current phase: implementing\n- Agent role: dispatch exec -a codex\n\n## Description\nImplement retry feedback in the todo prompt so later implementers can see the most recent rejection and inspect previously written attachment evidence before changing code.\n\n## Phase Duty\nImplement the task.\n\n## Attachments\nSave evidence files (screenshots, recordings, test output) to:\n/tmp/agira-state/attachments/task-109/\nCreate the directory if it does not exist. Reference saved files in your --artifact text.\n\n## Checkpoints\nNEVER ask the user a question in-session. If a user decision is required to proceed, block the task instead of proceeding or guessing. Blocking is the correct escalation path whenever a checkpoint is needed, not a last resort. Write each question clearly on its own line in the reason, then stop. Run:\n`agira task block task-109 --reason \"<questions>\"`";

    assert_eq!(output, expected);
    assert!(!output.contains("## Previous Review Feedback"));
    assert!(!output.contains("Read any existing files under"));
    assert!(
        !output.contains("## Completion"),
        "dispatched phase must not expose Completion"
    );
}

#[test]
fn task_prompt_requires_blocking_instead_of_in_session_questions() {
    let config = test_config();
    let state_dir = "/tmp/agira-state";
    let task = test_task();

    let output = format_task_prompt_output(&task, &config, state_dir);

    assert!(output.contains("NEVER ask the user a question in-session."));
    assert!(output.contains(
        "If a user decision is required to proceed, block the task instead of proceeding or guessing."
    ));
    assert!(
        output
            .contains("Write each question clearly on its own line in the reason, then stop.")
    );
    assert!(output.contains("`agira task block task-109 --reason \"<questions>\"`"));
    assert!(!output.contains("--task task-109 --reason"));
}

#[test]
fn task_prompt_includes_resolved_clarifications_when_present() {
    let config = test_config();
    let state_dir = "/tmp/agira-state";
    let mut task = test_task();
    task.clarifications.push(Clarification {
        question: "Which API should be used?".to_owned(),
        answer: "Use the stable v2 endpoint.".to_owned(),
        phase: "implementing".to_owned(),
        timestamp: "2026-06-13T10:00:00Z".to_owned(),
    });

    let output = format_task_prompt_output(&task, &config, state_dir);

    assert!(output.contains("## 已澄清事项"));
    assert!(output.contains("Question: Which API should be used?"));
    assert!(output.contains("Answer: Use the stable v2 endpoint."));
    assert!(output.contains("Phase: implementing"));
}

#[test]
fn task_prompt_omits_resolved_clarifications_when_empty() {
    let config = test_config();
    let state_dir = "/tmp/agira-state";
    let task = test_task();

    let output = format_task_prompt_output(&task, &config, state_dir);

    assert!(!output.contains("## 已澄清事项"));
}

// -----------------------------------------------------------------------
// strip_acceptance_criteria unit tests
// -----------------------------------------------------------------------

/// AC section followed by another heading: only the AC section is removed;
/// Goal, Changes, and Constraints survive.
#[test]
fn strip_ac_removes_ac_section_preserves_others() {
    let input = "## Goal\nDo the thing.\n\n## Acceptance Criteria\n- AC item 1\n- AC item 2\n\n## Constraints\nDo not do X.";
    let result = strip_acceptance_criteria(input);
    assert!(
        !result.contains("Acceptance Criteria"),
        "AC heading must be gone"
    );
    assert!(!result.contains("AC item 1"), "AC body must be gone");
    assert!(result.contains("## Goal"), "Goal must survive");
    assert!(
        result.contains("## Constraints"),
        "Constraints must survive"
    );
}

/// AC section as the last section (no trailing heading): stripped to end-of-string.
#[test]
fn strip_ac_removes_ac_section_when_last() {
    let input = "## Goal\nDo the thing.\n\n## Acceptance Criteria\n- AC item 1\n- AC item 2\n";
    let result = strip_acceptance_criteria(input);
    assert!(!result.contains("Acceptance Criteria"));
    assert!(!result.contains("AC item"));
    assert!(result.contains("## Goal"));
}

/// No AC heading: output is byte-identical to input.
#[test]
fn strip_ac_noop_when_no_ac_heading() {
    let input = "## Goal\nDo the thing.\n\n## Constraints\nDo not do X.";
    let result = strip_acceptance_criteria(input);
    assert_eq!(result, input);
}

/// Localized heading `## 验收标准` is also stripped.
#[test]
fn strip_ac_strips_localized_heading_yan_shou_biao_zhun() {
    let input =
        "## Goal\nDo the thing.\n\n## 验收标准\n- 条件 1\n\n## Constraints\nDo not do X.";
    let result = strip_acceptance_criteria(input);
    assert!(!result.contains("验收标准"));
    assert!(!result.contains("条件 1"));
    assert!(result.contains("## Goal"));
    assert!(result.contains("## Constraints"));
}

/// Localized heading `## 验收` is also stripped.
#[test]
fn strip_ac_strips_localized_heading_yan_shou() {
    let input = "## Goal\nDo the thing.\n\n## 验收\n- 条件 1\n\n## Constraints\nDo not do X.";
    let result = strip_acceptance_criteria(input);
    assert!(!result.contains("验收"));
    assert!(!result.contains("条件 1"));
    assert!(result.contains("## Constraints"));
}

// -----------------------------------------------------------------------
// format_task_prompt_output: AC stripping integrated tests
// -----------------------------------------------------------------------

fn gated_config() -> Config {
    Config::new_single_workflow(
        "test",
        vec![(
            "in_progress".to_owned(),
            PhaseDef {
                model: Some("sonnet".to_owned()),
                duty: Some("Implement the task.".to_owned()),
                gate: Some("cargo test".to_owned()),
            },
        )],
        3,
    )
}

fn ungated_config() -> Config {
    Config::new_single_workflow(
        "test",
        vec![(
            "accepting".to_owned(),
            PhaseDef {
                model: Some("opus".to_owned()),
                duty: Some("Accept the task.".to_owned()),
                gate: None,
            },
        )],
        3,
    )
}

fn task_with_ac_description(state: &str) -> Task {
    Task {
        id: "task-200".to_owned(),
        title: "feature with ac".to_owned(),
        description: "## Goal\nBuild the feature.\n\n## Acceptance Criteria\n- Must pass tests\n- Must lint clean\n\n## Constraints\nNo new deps.".to_owned(),
        state: state.to_owned(),
        blocked_at_phase: None,
        blocked_reason: None,
        clarifications: Vec::new(),
        dependencies: Vec::new(),
        retry_count: 0,
        max_retries: 3,
        phases: StringMap::new(),
        history: Vec::new(),
        created_at: "2026-06-18T00:00:00Z".to_owned(),
        workflow: DEFAULT_WORKFLOW_NAME.to_owned(),
        locked_at: None,
        acceptance_criteria: None,
    }
}

/// Gated phase: AC section is stripped from the rendered Description.
#[test]
fn prompt_gated_phase_strips_ac_from_description() {
    let config = gated_config();
    let state_dir = "/tmp/agira-state";
    let task = task_with_ac_description("in_progress");

    let output = format_task_prompt_output(&task, &config, state_dir);

    assert!(
        !output.contains("Acceptance Criteria"),
        "AC must be absent for gated phase"
    );
    assert!(
        !output.contains("Must pass tests"),
        "AC body must be absent"
    );
    assert!(output.contains("## Goal"), "Goal must be present");
    assert!(
        output.contains("## Constraints"),
        "Constraints must be present"
    );
}

/// Ungated phase: Description is rendered verbatim including AC section.
#[test]
fn prompt_ungated_phase_keeps_ac_in_description() {
    let config = ungated_config();
    let state_dir = "/tmp/agira-state";
    let task = task_with_ac_description("accepting");

    let output = format_task_prompt_output(&task, &config, state_dir);

    assert!(
        output.contains("Acceptance Criteria"),
        "AC must be present for ungated phase"
    );
    assert!(
        output.contains("Must pass tests"),
        "AC body must be present"
    );
}

/// Gated phase with a Description that has no AC section: output is not changed.
#[test]
fn prompt_gated_phase_no_ac_description_unchanged() {
    let config = gated_config();
    let state_dir = "/tmp/agira-state";
    let mut task = task_with_ac_description("in_progress");
    task.description = "## Goal\nBuild the feature.\n\n## Constraints\nNo new deps.".to_owned();

    let output = format_task_prompt_output(&task, &config, state_dir);

    assert!(output.contains("## Goal"));
    assert!(output.contains("## Constraints"));
    // No extra blank lines or corruption
    assert!(!output.contains("Acceptance Criteria"));
}

// -----------------------------------------------------------------------
// Completion section visibility: keyed off model presence
// -----------------------------------------------------------------------

fn config_with_model() -> Config {
    Config::new_single_workflow(
        "test",
        vec![(
            "in_progress".to_owned(),
            PhaseDef {
                model: Some("sonnet".to_owned()),
                duty: Some("Implement the task.".to_owned()),
                gate: None,
            },
        )],
        3,
    )
}

fn config_without_model() -> Config {
    Config::new_single_workflow(
        "test",
        vec![(
            "in_progress".to_owned(),
            PhaseDef {
                model: None,
                duty: Some("Accept the task.".to_owned()),
                gate: None,
            },
        )],
        3,
    )
}

fn task_in_phase(phase: &str) -> Task {
    Task {
        id: "task-300".to_owned(),
        title: "test task".to_owned(),
        description: "A long enough description for testing purposes that exceeds one hundred and fifty characters in total length, so no warning fires.".to_owned(),
        state: phase.to_owned(),
        blocked_at_phase: None,
        blocked_reason: None,
        clarifications: Vec::new(),
        dependencies: Vec::new(),
        retry_count: 0,
        max_retries: 3,
        phases: StringMap::new(),
        history: Vec::new(),
        created_at: "2026-06-18T00:00:00Z".to_owned(),
        workflow: DEFAULT_WORKFLOW_NAME.to_owned(),
        locked_at: None,
        acceptance_criteria: None,
    }
}

/// Phase with a model (dispatched to sub-agent): ## Completion must be absent.
/// ## Checkpoints and ## Phase Duty must still be present.
#[test]
fn prompt_with_model_omits_completion_section() {
    let config = config_with_model();
    let state_dir = "/tmp/agira-state";
    let task = task_in_phase("in_progress");

    let output = format_task_prompt_output(&task, &config, state_dir);

    assert!(
        !output.contains("## Completion"),
        "Completion must be absent when phase has a model"
    );
    assert!(
        output.contains("## Checkpoints"),
        "Checkpoints must still be present"
    );
    assert!(
        output.contains("## Phase Duty"),
        "Phase Duty must still be present"
    );
}

/// Phase without a model (direct human/CLI execution): ## Completion must be present.
#[test]
fn prompt_without_model_includes_completion_section() {
    let config = config_without_model();
    let state_dir = "/tmp/agira-state";
    let task = task_in_phase("in_progress");

    let output = format_task_prompt_output(&task, &config, state_dir);

    assert!(
        output.contains("## Completion"),
        "Completion must be present when phase has no model"
    );
    assert!(
        output.contains("`agira task todo --task task-300 --from in_progress --artifact"),
        "Completion command must reference task id and phase"
    );
}

/// Phase whose model is the empty text (handed to no model): ## Completion must be present.
#[test]
fn prompt_with_empty_model_includes_completion_section() {
    let mut config = config_without_model();
    config.phases.insert(
        "in_progress".to_owned(),
        PhaseDef { model: Some(String::new()), duty: None, gate: None },
    );
    let task = task_in_phase("in_progress");

    let output = format_task_prompt_output(&task, &config, "/tmp/agira-state");

    assert!(output.contains("\n- Agent role: \n"));
    assert!(output.ends_with(&format!(
        "## Completion\n`agira task todo --task {} --from in_progress --artifact \"<evidence>\"`",
        task.id
    )));
}
