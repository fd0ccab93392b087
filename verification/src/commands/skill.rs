//! Texts that ask an agent to write or to delete a skill for adding tasks.

use vstd::prelude::*;

verus! {

/// Why a text could not be given. None of the functions here returns it.
#[derive(Debug)]
pub struct SkillError;

/// What asks an agent to write the skill.
pub const INSTALL_PROMPT: &'static str =
    "Write a personal skill named `agira-task-add` that helps add tasks to Agira.\n\nDo not create the skill in this conversation by guessing file paths. Instead,\nfollow your environment's documented procedure for authoring a personal skill,\nand give that skill the behavior described below.\n\n## When the skill should trigger\nActivate whenever the user asks to add, create, or register an Agira task — for\nexample \"add an agira task\", \"create a task to ...\", or \"register a follow-up in agira\".\n\n## What the skill should do\n1. Discover which Agira projects are initialized by running `agira project list`,\n   which prints each project's slug and its workspace path.\n2. Infer the correct workspace for the request from the user's current directory\n   and the discovered project paths. If the workspace is ambiguous, ask the user\n   which project to target instead of guessing.\n3. Confirm the chosen workspace before making any change.\n4. From that workspace, run `agira task add \"<title>\" --description \"<details>\"`\n   (adding `--depends-on` or `--phase` only when the user supplies them).\n5. Never edit `~/.agira/<slug>/tasks.json` or any other Agira state file directly;\n   always go through the `agira` CLI so IDs, history, and the state machine stay valid.\n\n## Safety\nTreat task creation as a real side effect: confirm the workspace and the task\ndetails with the user before running `agira task add`. Do not add tasks to a\nproject the user did not intend.\n";

/// What asks an agent to delete the skill.
pub const UNINSTALL_PROMPT: &'static str =
    "Delete the personal skill named `agira-task-add` that was previously created from\nthe `agira skill install` guidance.\n\nRemove only that skill. Do not delete, disable, or modify any other personal\nskills — including unrelated Agira skills or skills that merely mention Agira.\nIf you cannot find a skill named `agira-task-add`, report that nothing was removed\nrather than deleting a different skill.\n";

/// What is printed to ask an agent to write the skill.
pub fn run_skill_install() -> (r: Result<String, SkillError>)
    ensures
        r matches Ok(text) && text@ == INSTALL_PROMPT@,
{
    Ok(INSTALL_PROMPT.to_owned())
}

/// What is printed to ask an agent to delete the skill.
pub fn run_skill_uninstall() -> (r: Result<String, SkillError>)
    ensures
        r matches Ok(text) && text@ == UNINSTALL_PROMPT@,
{
    Ok(UNINSTALL_PROMPT.to_owned())
}

} // verus!
