//! The prompt of an orchestrator.

use agira::engine::config::{Config, PhaseDef};
use agira::engine::orchestrator::{
    assemble_orchestrator_prompt, default_orchestrator_template, render_phase_table,
    DEFAULT_ORCHESTRATOR_KICKOFF,
};

fn config() -> Config {
    Config::new_single_workflow(
        "rust",
        vec![
            (
                "implementing".to_owned(),
                PhaseDef {
                    model: Some("dispatch exec -a codex".to_owned()),
                    duty: Some("write tests | then code".to_owned()),
                    gate: None,
                },
            ),
            (
                "verifying".to_owned(),
                PhaseDef {
                    model: Some("sonnet".to_owned()),
                    duty: Some("run cargo test\nrun clippy".to_owned()),
                    gate: None,
                },
            ),
        ],
        3,
    )
}

#[test]
fn render_phase_table_uses_default_workflow_order_and_phase_fields() {
    let table = render_phase_table(&config());

    assert!(table.contains("| pending | none | none |"));
    assert!(
        table.contains("| implementing | dispatch exec -a codex | write tests \\| then code |")
    );
    assert!(table.contains("| verifying | sonnet | run cargo test<br>run clippy |"));
    assert!(table.contains("| done | none | none |"));
    assert!(
        table.find("| pending |").expect("pending row")
            < table.find("| implementing |").expect("implementing row")
    );
}

#[test]
fn assemble_orchestrator_prompt_concatenates_static_template_and_phase_table() {
    let prompt = assemble_orchestrator_prompt(&default_orchestrator_template("agent", "Agent"), &config());

    assert!(prompt.contains("agira-orchestrator-template-v1"));
    assert!(prompt.contains("Thin-orchestrator rule"));
    assert!(prompt.contains("`agira task todo --runner \"$AGIRA_RUNNER_ID\"`"));
    assert!(prompt.contains(
        "Use the exact `## Completion` command from the task prompt: `agira task todo --task <id> --from <phase> --artifact \"<evidence>\"`"
    ));
    assert!(prompt.contains("| implementing | dispatch exec -a codex |"));
}

#[test]
fn default_orchestrator_kickoff_claims_runner_task() {
    assert!(
        DEFAULT_ORCHESTRATOR_KICKOFF.contains("agira task todo --runner \"$AGIRA_RUNNER_ID\"")
    );
    assert!(DEFAULT_ORCHESTRATOR_KICKOFF.contains("idle-wait"));
}
