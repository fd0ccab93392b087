//! The texts that manage a skill.

use agira::commands::skill::{
    run_skill_install, run_skill_uninstall, INSTALL_PROMPT, UNINSTALL_PROMPT,
};

#[test]
fn install_prompt_names_the_managed_skill() {
    assert!(
        INSTALL_PROMPT.contains("agira-task-add"),
        "install prompt should name the skill it creates"
    );
}

#[test]
fn install_prompt_describes_task_add_trigger() {
    assert!(
        INSTALL_PROMPT.contains("add, create, or register an Agira task"),
        "install prompt should describe when the skill triggers"
    );
}

#[test]
fn install_prompt_points_at_project_discovery() {
    assert!(
        INSTALL_PROMPT.contains("agira project list"),
        "install prompt should discover projects via 'agira project list'"
    );
}

#[test]
fn install_prompt_runs_task_add_from_workspace() {
    assert!(
        INSTALL_PROMPT.contains("agira task add"),
        "install prompt should run 'agira task add'"
    );
    assert!(
        INSTALL_PROMPT.contains("Confirm the chosen workspace"),
        "install prompt should require workspace confirmation before acting"
    );
}

#[test]
fn install_prompt_forbids_direct_state_edits() {
    assert!(
        INSTALL_PROMPT.contains("tasks.json"),
        "install prompt should forbid editing tasks.json directly"
    );
}

#[test]
fn uninstall_prompt_scopes_deletion_to_the_managed_skill() {
    assert!(
        UNINSTALL_PROMPT.contains("agira-task-add"),
        "uninstall prompt should name the skill it deletes"
    );
    assert!(
        UNINSTALL_PROMPT.contains("only"),
        "uninstall prompt should scope deletion to only the managed skill"
    );
    assert!(
        UNINSTALL_PROMPT.contains("Do not delete"),
        "uninstall prompt should warn against deleting other skills"
    );
}

#[test]
fn skill_commands_give_the_prompts() {
    assert_eq!(run_skill_install().unwrap(), INSTALL_PROMPT);
    assert_eq!(run_skill_uninstall().unwrap(), UNINSTALL_PROMPT);
}
