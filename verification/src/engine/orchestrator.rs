//! The prompt of the process that hands tasks out.

use vstd::prelude::*;

use crate::engine::config::{Config, ConfigView, PhaseDefView};
use crate::string_map::{has_key, lookup};
use crate::text::{replace, replace_char, trim_end, trim_end_str};

verus! {

/// What the process is told in any project: the name of the program that runs it, and the name of
/// the agents it hands work to, stand where they belong.
pub open spec fn default_template(program: Seq<char>, agent: Seq<char>) -> Seq<char> {
    "# agira "@
        + program
        + "-tmux orchestrator\n\nstatic marker: agira-orchestrator-template-v1\nstatic marker: agira-orchestrator-template-v2\n\nYou are the thin Agira orchestrator for this project.\n\nIdle-wait protocol:\n- When no task is actionable, wait silently for a task notification or user instruction.\n- While delegated work is running, do not do unrelated analysis or phase work in this context.\n\nAgira CLI protocol:\n- Call `agira task todo --runner \"$AGIRA_RUNNER_ID\"` to claim and print the next task prompt.\n- Use the exact `## Completion` command from the task prompt: `agira task todo --task <id> --from <phase> --artifact \"<evidence>\"`.\n- Include the runner identity through `AGIRA_RUNNER_ID` for all runner-owned task claims.\n\nBackend routing:\n- Route each phase according to the phase table below.\n- "@
        + agent
        + " model phases delegate to a background "@
        + agent
        + " sub-agent.\n- `dispatch exec -a codex` phases run as a Bash one-shot `codex exec` command using `AGIRA_PROMPT_FILE`.\n\nThin-orchestrator rule:\n- Never implement, verify, review, fix, or enrich phase work directly in this interactive session.\n- Only claim tasks, dispatch the configured backend, wait for completion, and advance with evidence.\n"@
}

/// What the process is told in any project.
pub fn default_orchestrator_template(program: &str, agent: &str) -> (r: String)
    ensures
        r@ == default_template(program@, agent@),
{
    let mut out = "# agira ".to_owned();
    out.push_str(program);
    out.push_str(
        "-tmux orchestrator\n\nstatic marker: agira-orchestrator-template-v1\nstatic marker: agira-orchestrator-template-v2\n\nYou are the thin Agira orchestrator for this project.\n\nIdle-wait protocol:\n- When no task is actionable, wait silently for a task notification or user instruction.\n- While delegated work is running, do not do unrelated analysis or phase work in this context.\n\nAgira CLI protocol:\n- Call `agira task todo --runner \"$AGIRA_RUNNER_ID\"` to claim and print the next task prompt.\n- Use the exact `## Completion` command from the task prompt: `agira task todo --task <id> --from <phase> --artifact \"<evidence>\"`.\n- Include the runner identity through `AGIRA_RUNNER_ID` for all runner-owned task claims.\n\nBackend routing:\n- Route each phase according to the phase table below.\n- ",
    );
    out.push_str(agent);
    out.push_str(
        " model phases delegate to a background ",
    );
    out.push_str(agent);
    out.push_str(
        " sub-agent.\n- `dispatch exec -a codex` phases run as a Bash one-shot `codex exec` command using `AGIRA_PROMPT_FILE`.\n\nThin-orchestrator rule:\n- Never implement, verify, review, fix, or enrich phase work directly in this interactive session.\n- Only claim tasks, dispatch the configured backend, wait for completion, and advance with evidence.\n",
    );
    out
}

/// What sets the process going.
pub const DEFAULT_ORCHESTRATOR_KICKOFF: &'static str =
    "Start the Agira orchestration loop now. Claim the next actionable task with `agira task todo --runner \"$AGIRA_RUNNER_ID\"`, follow the orchestrator protocol from your system prompt exactly, and when no task is actionable, idle-wait silently for the next task notification or user instruction.";

/// A text as it stands in a cell of a table.
pub open spec fn table_cell(s: Seq<char>) -> Seq<char> {
    replace(replace(s, '|', "\\|"@), '\n', "<br>"@)
}

/// A text as it stands in a cell of a table.
pub fn escape_table_cell(value: &str) -> (r: String)
    ensures
        r@ == table_cell(value@),
{
    let bars = replace_char(value, '|', "\\|");
    replace_char(bars.as_str(), '\n', "<br>")
}

/// A text, or `none` where there is none.
pub open spec fn or_none(s: Option<Seq<char>>) -> Seq<char> {
    match s {
        Some(x) => x,
        None => "none"@,
    }
}

fn or_none_str(s: &Option<String>) -> (r: String)
    ensures
        r@ == or_none(s.deep_view()),
{
    match s {
        Some(x) => x.clone(),
        None => "none".to_owned(),
    }
}

/// The rows of the table of phases.
pub open spec fn phase_rows(
    phases: Seq<(Seq<char>, PhaseDefView)>,
    steps: Seq<Seq<char>>,
) -> Seq<char>
    decreases steps.len(),
{
    if steps.len() == 0 {
        "\n## phase routing table\n\n| phase | backend | duty |\n|---|---|---|\n"@
    } else {
        let def = lookup(phases, steps.last())->0;
        phase_rows(phases, steps.drop_last()) + "| "@ + table_cell(steps.last()) + " | "@
            + table_cell(or_none(def.model)) + " | "@ + table_cell(or_none(def.duty)) + " |\n"@
    }
}

/// The table of the phases of the default workflow.
pub open spec fn phase_table(config: ConfigView) -> Seq<char> {
    phase_rows(config.phases, config.sequence(config.default_workflow))
}

/// The phases of the default workflow have definitions.
pub open spec fn phases_defined(config: ConfigView) -> bool {
    let steps = config.sequence(config.default_workflow);
    forall|i: int| 0 <= i < steps.len() ==> has_key(config.phases, #[trigger] steps[i])
}

/// The phases of a configuration that can be used have definitions.
pub proof fn law_valid_config_defines_phases(config: ConfigView)
    requires
        config.valid(),
    ensures
        phases_defined(config),
{
    if has_key(config.workflows, config.default_workflow) {
        let at = crate::string_map::lemma_lookup_some(config.workflows, config.default_workflow);
        assert(crate::engine::config::valid_steps(config.phases, config.workflows[at].1));
    }
}

/// The table of the phases of the default workflow.
pub fn render_phase_table(config: &Config) -> (r: String)
    requires
        phases_defined(config@),
    ensures
        r@ == phase_table(config@),
{
    let steps = config.sequence(config.default_workflow.as_str());
    let ghost all = steps.deep_view();
    let mut out =
        "\n## phase routing table\n\n| phase | backend | duty |\n|---|---|---|\n".to_owned();
    let mut i: usize = 0;
    assert(all.take(0) =~= Seq::<Seq<char>>::empty());
    while i < steps.len()
        invariant
            i <= steps.len(),
            all == steps.deep_view(),
            all == config@.sequence(config@.default_workflow),
            phases_defined(config@),
            out@ == phase_rows(config@.phases, all.take(i as int)),
        decreases steps.len() - i,
    {
        let name = steps[i].as_str();
        assert(all[i as int] == name@);
        assert(has_key(config@.phases, all[i as int]));
        assert(all.take(i + 1).drop_last() =~= all.take(i as int));
        assert(all.take(i + 1).last() == name@);
        match config.phase_def(name) {
            Some(def) => {
                out.push_str("| ");
                out.push_str(escape_table_cell(name).as_str());
                out.push_str(" | ");
                out.push_str(escape_table_cell(or_none_str(&def.model).as_str()).as_str());
                out.push_str(" | ");
                out.push_str(escape_table_cell(or_none_str(&def.duty).as_str()).as_str());
                out.push_str(" |\n");
            },
            None => {},
        }
        i = i + 1;
    }
    assert(all.take(i as int) =~= all);
    out
}

/// The prompt made of a template and the phases of a project.
pub fn assemble_orchestrator_prompt(template: &str, config: &Config) -> (r: String)
    requires
        phases_defined(config@),
    ensures
        r@ == trim_end(template@) + "\n"@ + phase_table(config@),
{
    let mut out = trim_end_str(template).to_owned();
    out.push_str("\n");
    out.push_str(render_phase_table(config).as_str());
    out
}

} // verus!
