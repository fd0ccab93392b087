//! What a prompt tells the one who works on a task.

use vstd::prelude::*;

use crate::engine::advance::{commit_request, convention_section, indented};
use crate::engine::config::{ConfigView, PhaseDefView};
use crate::engine::orchestrator::{or_none, phase_rows, phase_table, table_cell};
use crate::engine::pick::{
    all_done, checkpoint_section, chosen, clarification_lines, completed_after, completed_lines,
    completion_section, completion_summary, context_section, description_too_short, final_artifact,
    hashes, latest_phase, latest_retry, law_chosen_task_is_eligible, opens_criteria, opens_section,
    or_else, outcome_lines, outcomes, pick_number, pick_output, prior_outcomes, review_feedback,
    section_end, shown_description, standstill_summary, task_duty, task_model, task_prompt,
    warning_section, without_criteria, ByNumber,
};
use crate::engine::pick_laws::{
    law_chosen_task_may_be_taken_up, law_furthest_task_is_chosen, may_be_taken_up,
};
use crate::engine::runner::RunnerRegistryView;
use crate::engine::tasks::{
    law_position_is_the_first, lemma_position, ClarificationView, HistoryEntryView, Task,
    TaskPhaseView, TaskView,
};
use crate::sorting::{is_order, law_sorting_keeps_elements, law_sorting_orders, order_of, sorted_by};
use crate::string_map::lookup;
use crate::text::{
    after_first, blank, decimal, find_from, first_where, join, lemma_first_where, lines, lowercase,
    occurs_at, path_join, split, starts, trim,
};
use crate::time::{law_time_is_a_line, on_the_line, rfc3339, Instant};

verus! {

/// A text holds another one.
pub open spec fn says(text: Seq<char>, part: Seq<char>) -> bool {
    exists|before: Seq<char>, after: Seq<char>| text == #[trigger] (before + part + after)
}

/// A text that is put together says what its parts say.
pub proof fn lemma_says()
    ensures
        forall|x: Seq<char>, y: Seq<char>, p: Seq<char>|
            says(x, p) || says(y, p) ==> #[trigger] says(x + y, p),
        forall|p: Seq<char>| #[trigger] says(p, p),
{
    assert forall|x: Seq<char>, y: Seq<char>, p: Seq<char>|
        says(x, p) || says(y, p) implies #[trigger] says(x + y, p) by {
        if says(x, p) {
            let (a, b) = choose|a: Seq<char>, b: Seq<char>| x == #[trigger] (a + p + b);
            assert(x + y =~= a + p + (b + y));
        } else {
            let (a, b) = choose|a: Seq<char>, b: Seq<char>| y == #[trigger] (a + p + b);
            assert(x + y =~= (x + a) + p + b);
        }
    }
    assert forall|p: Seq<char>| #[trigger] says(p, p) by {
        assert(p =~= Seq::<char>::empty() + p + Seq::<char>::empty());
    }
}

/// The prompt for a task that is begun tells its id, its title and its phase, how to ask for help,
/// what is to be done in the phase where that is written, and how to hand the outcome in unless
/// the phase is handed to a model.
pub proof fn law_prompt_tells_the_task(t: TaskView, config: ConfigView, state_dir: Seq<char>)
    requires
        t.state != "pending"@,
    ensures
        ({
            let prompt = task_prompt(t, config, state_dir);
            let def = lookup(config.phases, t.state);
            let steps = config.sequence(t.workflow);
            let model = steps.contains(t.state) && t.state != "done"@ && def is Some
                && def->0.model is Some && def->0.model->0.len() > 0;
            &&& says(prompt, "## Task\n- ID: "@ + t.id + "\n- Title: "@ + t.title
                + "\n- Current phase: "@ + t.state)
            &&& says(prompt, "`agira task block "@ + t.id + " --reason \"<questions>\"`"@)
            &&& steps.contains(t.state) && def is Some && def->0.duty is Some
                && def->0.duty->0.len() > 0 ==> says(prompt, "\n\n## Phase Duty\n"@ + def->0.duty->0)
            &&& model ==> says(prompt, "\n- Agent role: "@ + def->0.model->0)
            &&& !model ==> says(
                prompt,
                "\n\n## Completion\n`agira task todo --task "@ + t.id + " --from "@ + t.state
                    + " --artifact \"<evidence>\"`"@,
            )
            &&& t.description.len() == 0 ==> says(
                prompt,
                "\n\n## Description\n"@ + "No description provided."@,
            )
            &&& t.description.len() > 0 && (def is None || def->0.gate is None
                || def->0.gate->0.len() == 0) ==> says(
                prompt,
                "\n\n## Description\n"@ + t.description,
            )
            &&& t.description.len() > 0 && def is Some && def->0.gate is Some
                && def->0.gate->0.len() > 0 ==> says(
                prompt,
                "\n\n## Description\n"@ + without_criteria(t.description),
            )
        }),
{
    lemma_literals();
    lemma_prompt_shape(t, config, state_dir);
    let core = "## Task\n- ID: "@ + t.id + "\n- Title: "@ + t.title + "\n- Current phase: "@
        + t.state;
    let lead = "# Agira Task Prompt\n\n"@;
    assert(prompt_head(t) =~= lead + core);
    lemma_behind(lead, core);
    let ask = "`agira task block "@ + t.id + " --reason \"<questions>\"`"@;
    assert(checkpoint_section(t) =~= checkpoint_lead() + ask);
    lemma_behind(checkpoint_lead(), ask);
    lemma_parts_say(t, config, state_dir, core);
    lemma_parts_say(t, config, state_dir, ask);
    lemma_itself(prompt_role(t, config));
    lemma_itself(prompt_description(t, config));
    lemma_itself(prompt_duty(t, config));
    lemma_itself(completion_section(t, config));
    lemma_parts_say(t, config, state_dir, prompt_role(t, config));
    lemma_parts_say(t, config, state_dir, prompt_description(t, config));
    lemma_parts_say(t, config, state_dir, prompt_duty(t, config));
    lemma_parts_say(t, config, state_dir, completion_section(t, config));
}

spec fn prompt_head(t: TaskView) -> Seq<char> {
    "# Agira Task Prompt\n\n## Task\n- ID: "@ + t.id + "\n- Title: "@ + t.title
        + "\n- Current phase: "@ + t.state
}

spec fn prompt_role(t: TaskView, config: ConfigView) -> Seq<char> {
    match task_model(t, t.state, config) {
        Some(m) => "\n- Agent role: "@ + m,
        None => Seq::empty(),
    }
}

spec fn prompt_description(t: TaskView, config: ConfigView) -> Seq<char> {
    "\n\n## Description\n"@ + shown_description(t, config)
}

spec fn prompt_duty(t: TaskView, config: ConfigView) -> Seq<char> {
    match task_duty(t, t.state, config) {
        Some(duty) => "\n\n## Phase Duty\n"@ + duty,
        None => Seq::empty(),
    }
}

spec fn prompt_past(t: TaskView, config: ConfigView) -> Seq<char> {
    if t.phases.len() > 0 {
        "\n\n## Acceptance Criteria"@ + outcome_lines(prior_outcomes(t, config))
    } else {
        Seq::empty()
    }
}

proof fn lemma_prompt_shape(t: TaskView, config: ConfigView, state_dir: Seq<char>)
    requires
        t.state != "pending"@,
    ensures
        task_prompt(t, config, state_dir) == prompt_head(t) + prompt_role(t, config)
            + prompt_description(t, config) + warning_section(t, config) + prompt_duty(t, config)
            + prompt_past(t, config) + context_section(t, state_dir) + checkpoint_section(t)
            + completion_section(t, config),
{
    let x = prompt_head(t) + prompt_role(t, config);
    let d = "\n\n## Description\n"@;
    let s = shown_description(t, config);
    assert(x + d + s =~= x + (d + s));
}

proof fn lemma_itself(p: Seq<char>)
    ensures
        says(p, p),
{
    assert(p =~= Seq::<char>::empty() + p + Seq::<char>::empty());
}

proof fn lemma_behind(x: Seq<char>, p: Seq<char>)
    ensures
        says(x + p, p),
{
    assert(x + p =~= x + p + Seq::<char>::empty());
}

proof fn lemma_either(x: Seq<char>, y: Seq<char>, p: Seq<char>)
    ensures
        says(x, p) || says(y, p) ==> says(x + y, p),
{
    lemma_says();
}

/// What a part of the prompt says, the prompt says.
proof fn lemma_parts_say(t: TaskView, config: ConfigView, state_dir: Seq<char>, p: Seq<char>)
    requires
        t.state != "pending"@,
    ensures
        says(prompt_head(t), p) || says(prompt_role(t, config), p) || says(
            prompt_description(t, config),
            p,
        ) || says(warning_section(t, config), p) || says(prompt_duty(t, config), p) || says(
            prompt_past(t, config),
            p,
        ) || says(context_section(t, state_dir), p) || says(checkpoint_section(t), p) || says(
            completion_section(t, config),
            p,
        ) ==> says(task_prompt(t, config, state_dir), p),
{
    lemma_prompt_shape(t, config, state_dir);
    let a = prompt_head(t);
    let b = a + prompt_role(t, config);
    let c = b + prompt_description(t, config);
    let d = c + warning_section(t, config);
    let e = d + prompt_duty(t, config);
    let f = e + prompt_past(t, config);
    let g = f + context_section(t, state_dir);
    let h = g + checkpoint_section(t);
    lemma_either(a, prompt_role(t, config), p);
    lemma_either(b, prompt_description(t, config), p);
    lemma_either(c, warning_section(t, config), p);
    lemma_either(d, prompt_duty(t, config), p);
    lemma_either(e, prompt_past(t, config), p);
    lemma_either(f, context_section(t, state_dir), p);
    lemma_either(g, checkpoint_section(t), p);
    lemma_either(h, completion_section(t, config), p);
}

spec fn checkpoint_lead() -> Seq<char> {
    "\n\n## Checkpoints\nNEVER ask the user a question in-session. If a user decision is required to proceed, block the task instead of proceeding or guessing. Blocking is the correct escalation path whenever a checkpoint is needed, not a last resort. Write each question clearly on its own line in the reason, then stop. Run:\n"@
}

proof fn lemma_literals()
    ensures
        "# Agira Task Prompt\n\n## Task\n- ID: "@ == "# Agira Task Prompt\n\n"@
            + "## Task\n- ID: "@,
        "\n\n## Checkpoints\nNEVER ask the user a question in-session. If a user decision is required to proceed, block the task instead of proceeding or guessing. Blocking is the correct escalation path whenever a checkpoint is needed, not a last resort. Write each question clearly on its own line in the reason, then stop. Run:\n`agira task block "@
            == checkpoint_lead() + "`agira task block "@,
{
    reveal_strlit("# Agira Task Prompt\n\n## Task\n- ID: ");
    reveal_strlit("# Agira Task Prompt\n\n");
    reveal_strlit("## Task\n- ID: ");
    assert("# Agira Task Prompt\n\n## Task\n- ID: "@ =~= "# Agira Task Prompt\n\n"@
        + "## Task\n- ID: "@);
    reveal_strlit(
        "\n\n## Checkpoints\nNEVER ask the user a question in-session. If a user decision is required to proceed, block the task instead of proceeding or guessing. Blocking is the correct escalation path whenever a checkpoint is needed, not a last resort. Write each question clearly on its own line in the reason, then stop. Run:\n`agira task block ",
    );
    reveal_strlit(
        "\n\n## Checkpoints\nNEVER ask the user a question in-session. If a user decision is required to proceed, block the task instead of proceeding or guessing. Blocking is the correct escalation path whenever a checkpoint is needed, not a last resort. Write each question clearly on its own line in the reason, then stop. Run:\n",
    );
    reveal_strlit("`agira task block ");
    assert("\n\n## Checkpoints\nNEVER ask the user a question in-session. If a user decision is required to proceed, block the task instead of proceeding or guessing. Blocking is the correct escalation path whenever a checkpoint is needed, not a last resort. Write each question clearly on its own line in the reason, then stop. Run:\n`agira task block "@
        =~= checkpoint_lead() + "`agira task block "@);
}

/// The prompt of a task that is not yet begun says how to accept it, and nothing else.
pub proof fn law_prompt_of_a_new_task(t: TaskView, config: ConfigView, state_dir: Seq<char>)
    requires
        t.state == "pending"@,
    ensures
        task_prompt(t, config, state_dir)
            == "Run: agira task todo --artifact \"task accepted\" to advance the task to the next phase."@,
{
}

/// The prompt tells what came out of each phase of the workflow that lies before the present one.
pub proof fn law_prompt_tells_earlier_outcomes(
    t: TaskView,
    config: ConfigView,
    state_dir: Seq<char>,
    k: int,
    outcome: TaskPhaseView,
)
    requires
        t.state != "pending"@,
        config.sequence(t.workflow).index_of_first(t.state) is Some,
        0 <= k < config.sequence(t.workflow).index_of_first(t.state)->0,
        lookup(t.phases, config.sequence(t.workflow)[k]) == Some(outcome),
    ensures
        says(
            task_prompt(t, config, state_dir),
            "\n- Phase: "@ + config.sequence(t.workflow)[k] + "\n  Completed at: "@
                + outcome.completed_at + "\n  Artifact: "@ + if outcome.artifact.len() == 0 {
                "<empty>"@
            } else {
                outcome.artifact
            },
        ),
{
    lemma_says();
    let steps = config.sequence(t.workflow);
    law_position_is_the_first(steps, t.state);
    lemma_position(steps, t.state);
    let at = steps.index_of_first(t.state)->0;
    let before = steps.take(at);
    lemma_outcomes(t.phases, before, k);
    let m = choose|m: int|
        0 <= m < outcomes(t.phases, before).len() && #[trigger] outcomes(t.phases, before)[m] == (
            steps[k],
            outcome,
        );
    lemma_outcome_lines(outcomes(t.phases, before), m);
    assert(t.phases.len() > 0) by {
        if t.phases.len() == 0 {
            assert(lookup(t.phases, steps[k]) is None);
        }
    }
    let part = "\n- Phase: "@ + steps[k] + "\n  Completed at: "@ + outcome.completed_at
        + "\n  Artifact: "@ + if outcome.artifact.len() == 0 {
        "<empty>"@
    } else {
        outcome.artifact
    };
    assert(says(prompt_past(t, config), part));
    lemma_parts_say(t, config, state_dir, part);
}

proof fn lemma_outcomes(
    phases: Seq<(Seq<char>, TaskPhaseView)>,
    steps: Seq<Seq<char>>,
    k: int,
)
    requires
        0 <= k < steps.len(),
        lookup(phases, steps[k]) is Some,
    ensures
        exists|m: int|
            0 <= m < outcomes(phases, steps).len() && #[trigger] outcomes(phases, steps)[m] == (
                steps[k],
                lookup(phases, steps[k])->0,
            ),
    decreases steps.len(),
{
    let front = steps.drop_last();
    let item = (steps[k], lookup(phases, steps[k])->0);
    if k < front.len() {
        lemma_outcomes(phases, front, k);
        let m = choose|m: int|
            0 <= m < outcomes(phases, front).len() && #[trigger] outcomes(phases, front)[m] == item;
        assert(outcomes(phases, steps)[m] == item);
    } else {
        assert(outcomes(phases, steps)[outcomes(phases, steps).len() - 1] == item);
    }
}

proof fn lemma_outcome_lines(phases: Seq<(Seq<char>, TaskPhaseView)>, m: int)
    requires
        0 <= m < phases.len(),
    ensures
        says(
            outcome_lines(phases),
            "\n- Phase: "@ + phases[m].0 + "\n  Completed at: "@ + phases[m].1.completed_at
                + "\n  Artifact: "@ + or_else(phases[m].1.artifact, "<empty>"@),
        ),
    decreases phases.len(),
{
    lemma_says();
    let front = phases.drop_last();
    let last = phases.last();
    let part = "\n- Phase: "@ + last.0 + "\n  Completed at: "@ + last.1.completed_at
        + "\n  Artifact: "@ + or_else(last.1.artifact, "<empty>"@);
    assert(outcome_lines(phases) =~= outcome_lines(front) + part);
    if m < front.len() {
        lemma_outcome_lines(front, m);
    }
}

/// The prompt of a task that is begun and not done tells where to save evidence, each question that
/// was answered with its answer, and what was said when the task was last sent back.
pub proof fn law_prompt_tells_what_was_said(
    t: TaskView,
    config: ConfigView,
    state_dir: Seq<char>,
    q: int,
    h: int,
    count: Seq<char>,
    feedback: Seq<char>,
)
    requires
        t.state != "pending"@,
        t.state != "done"@,
    ensures
        ({
            let prompt = task_prompt(t, config, state_dir);
            let path = path_join(path_join(state_dir, "attachments"@), t.id);
            &&& says(
                prompt,
                "\n\n## Attachments\nSave evidence files (screenshots, recordings, test output) to:\n"@
                    + path,
            )
            &&& 0 <= q < t.clarifications.len() ==> says(
                prompt,
                "\n- Phase: "@ + t.clarifications[q].phase + "\n  Question: "@
                    + t.clarifications[q].question + "\n  Answer: "@ + t.clarifications[q].answer,
            )
            &&& t.retry_count > 0 && 0 <= h < t.history.len() && t.history[h].reason == "retry "@
                + count + ": "@ + feedback && !count.contains(':') && (forall|j: int|
                h < j < t.history.len() ==> !starts((#[trigger] t.history[j]).reason, "retry "@))
                ==> says(prompt, "\n\n## Previous Review Feedback\n"@ + feedback)
        }),
{
    lemma_says();
    let path = path_join(path_join(state_dir, "attachments"@), t.id);
    if 0 <= q < t.clarifications.len() {
        lemma_clarification_lines(t.clarifications, q);
        let part = "\n- Phase: "@ + t.clarifications[q].phase + "\n  Question: "@
            + t.clarifications[q].question + "\n  Answer: "@ + t.clarifications[q].answer;
        assert(says(context_section(t, state_dir), part));
        lemma_parts_say(t, config, state_dir, part);
    }
    if t.retry_count > 0 && 0 <= h < t.history.len() && t.history[h].reason == "retry "@ + count
        + ": "@ + feedback && !count.contains(':') && (forall|j: int|
        h < j < t.history.len() ==> !starts((#[trigger] t.history[j]).reason, "retry "@)) {
        let rest = count + ": "@ + feedback;
        assert(t.history[h].reason =~= "retry "@ + rest);
        assert(t.history[h].reason.subrange(0, "retry "@.len() as int) =~= "retry "@);
        assert(starts(t.history[h].reason, "retry "@));
        lemma_latest_retry(t.history, h);
        assert(t.history[h].reason.skip("retry "@.len() as int) =~= rest);
        lemma_after_first(count, feedback);
        assert(review_feedback(t) == Some(feedback));
        let part = "\n\n## Previous Review Feedback\n"@ + feedback;
        assert(says(context_section(t, state_dir), part));
        lemma_parts_say(t, config, state_dir, part);
    }
    let place = "\n\n## Attachments\nSave evidence files (screenshots, recordings, test output) to:\n"@
        + path;
    assert(says(context_section(t, state_dir), place));
    lemma_parts_say(t, config, state_dir, place);
}

proof fn lemma_after_first(count: Seq<char>, feedback: Seq<char>)
    requires
        !count.contains(':'),
    ensures
        after_first(count + ": "@ + feedback, ": "@) == feedback,
{
    reveal_strlit(": ");
    let s = count + ": "@ + feedback;
    let p = ": "@;
    assert(s.subrange(count.len() as int, count.len() as int + p.len()) =~= p);
    lemma_find_colon(s, p, 0, count.len() as int);
    assert(s.skip(count.len() as int + p.len()) =~= feedback);
}

proof fn lemma_find_colon(s: Seq<char>, p: Seq<char>, i: int, at: int)
    requires
        0 <= i <= at,
        p.len() > 0,
        occurs_at(s, p, at),
        forall|j: int| i <= j < at ==> #[trigger] s[j] != p[0],
    ensures
        find_from(s, p, i) == Some(at),
    decreases at - i,
{
    if i < at {
        if occurs_at(s, p, i) {
            assert(s.subrange(i, i + p.len())[0] == s[i]);
        }
        lemma_find_colon(s, p, i + 1, at);
    }
}

proof fn lemma_latest_retry(history: Seq<HistoryEntryView>, h: int)
    requires
        0 <= h < history.len(),
        starts(history[h].reason, "retry "@),
        forall|j: int|
            h < j < history.len() ==> !starts((#[trigger] history[j]).reason, "retry "@),
    ensures
        latest_retry(history) == Some(history[h].reason.skip("retry "@.len() as int)),
    decreases history.len(),
{
    if h < history.len() - 1 {
        assert(!starts(history[history.len() - 1].reason, "retry "@));
        let front = history.drop_last();
        assert forall|j: int| h < j < front.len() implies !starts(
            (#[trigger] front[j]).reason,
            "retry "@,
        ) by {
            assert(front[j] == history[j]);
        }
        lemma_latest_retry(front, h);
    }
}

proof fn lemma_clarification_lines(items: Seq<ClarificationView>, q: int)
    requires
        0 <= q < items.len(),
    ensures
        says(
            clarification_lines(items),
            "\n- Phase: "@ + items[q].phase + "\n  Question: "@ + items[q].question
                + "\n  Answer: "@ + items[q].answer,
        ),
    decreases items.len(),
{
    lemma_says();
    let front = items.drop_last();
    let last = items.last();
    let part = "\n- Phase: "@ + last.phase + "\n  Question: "@ + last.question + "\n  Answer: "@
        + last.answer;
    assert(clarification_lines(items) =~= clarification_lines(front) + part);
    if q < front.len() {
        lemma_clarification_lines(front, q);
    }
}

/// A description of fewer than a hundred and fifty characters is warned of once the phase in which
/// it is filled in is over; where there is no such phase, once the task is begun.
pub proof fn law_thin_description_is_warned_of(t: TaskView, config: ConfigView)
    ensures
        ({
            let steps = config.sequence(config.default_workflow);
            let filled = steps.index_of_first("enriching"@);
            let here = steps.index_of_first(t.state);
            let over = if filled is Some {
                here is Some && here->0 > filled->0
            } else {
                t.state != "pending"@
            };
            &&& warning_section(t, config).len() > 0 <==> t.description.len() < 150 && over
            &&& t.description.len() < 150 && over ==> says(
                warning_section(t, config),
                "short ("@ + decimal(t.description.len()),
            ) && says(warning_section(t, config), "agira task update "@ + t.id)
        }),
{
    lemma_says();
    let steps = config.sequence(config.default_workflow);
    law_position_is_the_first(steps, "enriching"@);
    law_position_is_the_first(steps, t.state);
    reveal_strlit("\n\n## Description Quality Warning\nThis description is short (");
    reveal_strlit("\n\n## Description Quality Warning\nThis description is ");
    reveal_strlit("short (");
    assert("\n\n## Description Quality Warning\nThis description is short ("@
        =~= "\n\n## Description Quality Warning\nThis description is "@ + "short ("@);
    reveal_strlit(
        " chars). If the enriching phase did not produce a complete spec, update it before proceeding:\n  agira task update ",
    );
    reveal_strlit(
        " chars). If the enriching phase did not produce a complete spec, update it before proceeding:\n  ",
    );
    reveal_strlit("agira task update ");
    assert(" chars). If the enriching phase did not produce a complete spec, update it before proceeding:\n  agira task update "@
        =~= " chars). If the enriching phase did not produce a complete spec, update it before proceeding:\n  "@
        + "agira task update "@);
    let lead = "\n\n## Description Quality Warning\nThis description is "@;
    let size = "short ("@ + decimal(t.description.len());
    let middle = " chars). If the enriching phase did not produce a complete spec, update it before proceeding:\n  "@;
    let order = "agira task update "@ + t.id;
    let rest = " --description \"<complete spec>\"\nOr block for clarification:\n  agira task block "@
        + t.id + " --reason \"description too thin to implement\""@;
    if description_too_short(t, config) {
        assert(warning_section(t, config) =~= lead + size + middle + order + rest);
    }
}

/// What is shown next: that there are no tasks, what came out of all of them where all are done,
/// the prompt of the task that is chosen, or where each task stands where none can be taken up.
pub proof fn law_next_is_shown(
    config: ConfigView,
    tasks: Seq<TaskView>,
    state_dir: Seq<char>,
    runner: Option<(RunnerRegistryView, Seq<char>)>,
    now: Instant,
    i: int,
)
    requires
        config.sequence(config.default_workflow).len() > 0,
    ensures
        ({
            let shown = pick_output(config, tasks, state_dir, runner, now);
            let end = config.sequence(config.default_workflow).last();
            let done = forall|j: int| 0 <= j < tasks.len() ==> (#[trigger] tasks[j]).state == end;
            let free = exists|j: int|
                0 <= j < tasks.len() && may_be_taken_up(
                    #[trigger] tasks[j],
                    tasks,
                    config,
                    runner,
                    now,
                );
            &&& tasks.len() == 0 ==> shown
                == "No tasks found. Add tasks with `agira task add \"<title>\"`"@
            &&& tasks.len() > 0 && done && 0 <= i < tasks.len() ==> says(
                shown,
                "\n- "@ + tasks[i].id + ": "@ + tasks[i].title + "\n  Final artifact: "@
                    + final_artifact(tasks[i]),
            )
            &&& tasks.len() > 0 && !done && free ==> chosen(tasks, config, runner, now) is Some
                && shown == task_prompt(chosen(tasks, config, runner, now)->0, config, state_dir)
            &&& tasks.len() > 0 && !done && !free && 0 <= i < tasks.len() ==> says(
                shown,
                "\n- "@ + tasks[i].id + ": "@ + tasks[i].title + " ("@ + tasks[i].state + ")"@,
            )
        }),
{
    let done = forall|j: int|
        0 <= j < tasks.len() ==> (#[trigger] tasks[j]).state == config.sequence(
            config.default_workflow,
        ).last();
    let free = exists|j: int|
        0 <= j < tasks.len() && may_be_taken_up(#[trigger] tasks[j], tasks, config, runner, now);
    law_chosen_task_is_eligible(tasks, config, runner, now);
    if free {
        let j = choose|j: int|
            0 <= j < tasks.len() && may_be_taken_up(
                #[trigger] tasks[j],
                tasks,
                config,
                runner,
                now,
            );
        law_furthest_task_is_chosen(tasks, config, runner, now, j);
    }
    if !free && chosen(tasks, config, runner, now) is Some {
        law_chosen_task_may_be_taken_up(tasks, config, runner, now);
        let t = chosen(tasks, config, runner, now)->0;
        let j = tasks.index_of(t);
        assert(may_be_taken_up(tasks[j], tasks, config, runner, now));
    }
    if tasks.len() > 0 && done && 0 <= i < tasks.len() {
        assert(all_done(tasks, config));
        let sorted = sorted_by(tasks, order_of::<Task, ByNumber>());
        law_sorting_keeps_elements(tasks, order_of::<Task, ByNumber>());
        broadcast use vstd::seq_lib::group_to_multiset_ensures;
        assert(tasks.to_multiset().count(tasks[i]) > 0) by {
            assert(tasks.contains(tasks[i]));
        }
        assert(sorted.contains(tasks[i]));
        let m = sorted.index_of(tasks[i]);
        lemma_completed_lines(sorted, m);
    }
    if tasks.len() > 0 && !done && !free && 0 <= i < tasks.len() {
        lemma_standstill(tasks, i);
    }
}

proof fn lemma_completed_lines(tasks: Seq<TaskView>, m: int)
    requires
        0 <= m < tasks.len(),
    ensures
        says(
            completed_lines(tasks),
            "\n- "@ + tasks[m].id + ": "@ + tasks[m].title + "\n  Final artifact: "@
                + final_artifact(tasks[m]),
        ),
    decreases tasks.len(),
{
    lemma_says();
    let front = tasks.drop_last();
    let last = tasks.last();
    let part = "\n- "@ + last.id + ": "@ + last.title + "\n  Final artifact: "@ + final_artifact(
        last,
    );
    assert(completed_lines(tasks) =~= completed_lines(front) + part);
    if m < front.len() {
        lemma_completed_lines(front, m);
    }
}

proof fn lemma_standstill(tasks: Seq<TaskView>, m: int)
    requires
        0 <= m < tasks.len(),
    ensures
        says(
            standstill_summary(tasks),
            "\n- "@ + tasks[m].id + ": "@ + tasks[m].title + " ("@ + tasks[m].state + ")"@,
        ),
    decreases tasks.len(),
{
    lemma_says();
    let front = tasks.drop_last();
    let last = tasks.last();
    let part = "\n- "@ + last.id + ": "@ + last.title + " ("@ + last.state + ")"@;
    assert(standstill_summary(tasks) =~= standstill_summary(front) + part);
    if m < front.len() {
        lemma_standstill(front, m);
    }
}

/// The final artifact of a task is one of the outcomes of its phases, and none of them was completed
/// later.
pub proof fn law_final_artifact_is_the_latest(t: TaskView, k: int)
    requires
        forall|j: int|
            0 <= j < t.phases.len() ==> rfc3339((#[trigger] t.phases[j]).1.completed_at) is Some
                && rfc3339(t.phases[j].1.completed_at)->0.nanos < 1_000_000_000,
        0 <= k < t.phases.len(),
    ensures
        exists|m: int|
            0 <= m < t.phases.len() && final_artifact(t) == (if (#[trigger] t.phases[m]).1.artifact.len()
                == 0 {
                "<none>"@
            } else {
                t.phases[m].1.artifact
            }) && on_the_line(rfc3339(t.phases[m].1.completed_at)->0) >= on_the_line(
                rfc3339(t.phases[k].1.completed_at)->0,
            ),
{
    let m = lemma_latest_phase(t.phases, k);
    assert(t.phases[m].1 == latest_phase(t.phases)->0);
}

proof fn lemma_latest_phase(phases: Seq<(Seq<char>, TaskPhaseView)>, k: int) -> (m: int)
    requires
        forall|j: int|
            0 <= j < phases.len() ==> rfc3339((#[trigger] phases[j]).1.completed_at) is Some
                && rfc3339(phases[j].1.completed_at)->0.nanos < 1_000_000_000,
        phases.len() > 0,
        0 <= k < phases.len(),
    ensures
        0 <= m < phases.len(),
        latest_phase(phases) == Some(phases[m].1),
        on_the_line(rfc3339(phases[m].1.completed_at)->0) >= on_the_line(
            rfc3339(phases[k].1.completed_at)->0,
        ),
    decreases phases.len(),
{
    let front = phases.drop_last();
    let n = phases.len() - 1;
    assert forall|j: int| 0 <= j < front.len() implies rfc3339(
        (#[trigger] front[j]).1.completed_at,
    ) is Some && rfc3339(front[j].1.completed_at)->0.nanos < 1_000_000_000 by {
        assert(front[j] == phases[j]);
    }
    assert(phases[n] == phases.last());
    if front.len() == 0 {
        n
    } else {
        let best = lemma_latest_phase(
            front,
            if k < front.len() {
                k
            } else {
                0
            },
        );
        let a = rfc3339(phases[best].1.completed_at)->0;
        let b = rfc3339(phases[n].1.completed_at)->0;
        law_time_is_a_line(a, b, 0);
        law_time_is_a_line(b, a, 0);
        assert(front[best] == phases[best]);
        if completed_after(phases[best].1.completed_at, phases[n].1.completed_at) {
            best
        } else {
            n
        }
    }
}

/// The section with the criteria is left out of a description, with the empty lines around it; what
/// stands before and behind it stays, two empty lines apart.
pub proof fn law_criteria_are_left_out(
    before: Seq<Seq<char>>,
    heading: Seq<char>,
    section: Seq<Seq<char>>,
    after: Seq<Seq<char>>,
    text: Seq<char>,
)
    requires
        split(text, '\n') == before.push(heading) + section + after,
        opens_criteria()(heading),
        forall|j: int| 0 <= j < before.len() ==> !opens_criteria()(#[trigger] before[j]),
        forall|j: int| 0 <= j < section.len() ==> !opens_section()(#[trigger] section[j]),
        after.len() > 0 ==> opens_section()(after[0]) && !blank(after[0]),
        before.len() > 0 ==> !blank(before.last()),
    ensures
        without_criteria(text) == if before.len() == 0 {
            join(after, "\n"@)
        } else if after.len() == 0 {
            join(before, "\n"@)
        } else {
            join(before + seq![Seq::empty(), Seq::empty()] + after, "\n"@)
        },
{
    let lines = split(text, '\n');
    let p = opens_criteria();
    lemma_first_where(lines, p);
    assert(lines[before.len() as int] == heading);
    let start = first_where(lines, p)->0;
    assert(start == before.len()) by {
        if start < before.len() {
            assert(lines[start] == before[start]);
        }
    }
    let rest = lines.skip(start + 1);
    assert(rest =~= section + after);
    let s = opens_section();
    lemma_first_where(rest, s);
    if after.len() > 0 {
        assert(rest[section.len() as int] == after[0]);
        let rel = first_where(rest, s)->0;
        if rel < section.len() {
            assert(rest[rel] == section[rel]);
        }
        assert(rel == section.len());
    } else if first_where(rest, s) is Some {
        let rel = first_where(rest, s)->0;
        assert(rest[rel] == section[rel]);
    }
    assert(lines.take(start) =~= before);
    assert(lines.skip(section_end(lines, start)) =~= after);
    assert(before.push(Seq::empty()).push(Seq::empty()) + after =~= before + seq![
        Seq::empty(),
        Seq::empty(),
    ] + after);
}

/// A heading of the second level opens the criteria where it is one of three titles, in whatever
/// letters and with spaces around it; a heading of the first or second level ends them.
pub proof fn law_criteria_have_a_heading(title: Seq<char>)
    requires
        title.len() == 0 || title[0] != '#',
    ensures
        opens_criteria()("## "@ + title) <==> lowercase(trim(trim(" "@ + title)))
            == "acceptance criteria"@ || lowercase(trim(trim(" "@ + title))) == "验收"@ || lowercase(
            trim(trim(" "@ + title)),
        ) == "验收标准"@,
        opens_section()("# "@ + title),
        opens_section()("## "@ + title),
        !opens_section()("### "@ + title),
        !opens_criteria()("# "@ + title),
        !opens_criteria()("### "@ + title),
{
    reveal_strlit("# ");
    reveal_strlit("## ");
    reveal_strlit("### ");
    reveal_strlit(" ");
    reveal_with_fuel(hashes, 5);
    let one = "# "@ + title;
    let two = "## "@ + title;
    let three = "### "@ + title;
    assert(one.skip(1)[0] == ' ');
    assert(two.skip(1).skip(1) =~= " "@ + title);
    assert(two.skip(1)[0] == '#' && two.skip(1).skip(1)[0] == ' ');
    assert(three.skip(1)[0] == '#' && three.skip(1).skip(1)[0] == '#'
        && three.skip(1).skip(1).skip(1)[0] == ' ');
    assert(hashes(one) == 1);
    assert(hashes(two) == 2);
    assert(hashes(three) == 3);
    assert(two.skip(2) =~= " "@ + title);
}

/// A request to commit names the task, and shows the latest commits, each on a line of its own.
pub proof fn law_commit_request_names_the_task(
    id: Seq<char>,
    title: Seq<char>,
    log: Option<Seq<char>>,
    k: int,
)
    ensures
        says(commit_request(id, title, log), "Task "@ + id + " \""@ + title + "\""@),
        says(commit_request(id, title, log), "feat("@ + id + "): "@ + title),
        log is None ==> says(commit_request(id, title, log), "No recent commits found."@),
        log is Some && 0 <= k < lines(log->0).len() ==> says(
            commit_request(id, title, log),
            "  "@ + lines(log->0)[k],
        ),
{
    lemma_says();
    reveal_strlit("# Commit\n\nTask ");
    reveal_strlit("# Commit\n\n");
    reveal_strlit("Task ");
    reveal_strlit("\" is complete — please commit.\n\n");
    reveal_strlit("\"");
    reveal_strlit(" is complete — please commit.\n\n");
    reveal_strlit("\n\nSuggested commit message:\n  feat(");
    reveal_strlit("\n\nSuggested commit message:\n  ");
    reveal_strlit("feat(");
    assert("# Commit\n\nTask "@ =~= "# Commit\n\n"@ + "Task "@);
    assert("\" is complete — please commit.\n\n"@ =~= "\""@ + " is complete — please commit.\n\n"@);
    assert("\n\nSuggested commit message:\n  feat("@ =~= "\n\nSuggested commit message:\n  "@
        + "feat("@);
    let named = "Task "@ + id + " \""@ + title + "\""@;
    let offered = "feat("@ + id + "): "@ + title;
    assert(commit_request(id, title, log) =~= "# Commit\n\n"@ + named
        + " is complete — please commit.\n\n"@ + convention_section(log)
        + "\n\nSuggested commit message:\n  "@ + offered);
    if log is Some && 0 <= k < lines(log->0).len() {
        let shown = indented(lines(log->0));
        lemma_join_says(shown, "\n"@, k);
        assert(shown[k] == "  "@ + lines(log->0)[k]);
    }
}

/// Parts that are joined are all in the whole.
pub proof fn lemma_join_says(parts: Seq<Seq<char>>, sep: Seq<char>, k: int)
    requires
        0 <= k < parts.len(),
    ensures
        says(join(parts, sep), parts[k]),
    decreases parts.len(),
{
    lemma_says();
    if parts.len() > 1 && k < parts.len() - 1 {
        lemma_join_says(parts.drop_last(), sep, k);
    }
}

/// The routing table has a row for each phase of the usual workflow, with its model and its duty
/// where they are written; a bar or a line break in them is written so that it stays in its cell.
pub proof fn law_table_has_a_row_for_each_phase(config: ConfigView, k: int)
    requires
        0 <= k < config.sequence(config.default_workflow).len(),
        lookup(config.phases, config.sequence(config.default_workflow)[k]) is Some,
    ensures
        ({
            let phase = config.sequence(config.default_workflow)[k];
            let def = lookup(config.phases, phase)->0;
            let model = if def.model is Some { def.model->0 } else { "none"@ };
            let duty = if def.duty is Some { def.duty->0 } else { "none"@ };
            says(
                phase_table(config),
                "| "@ + table_cell(phase) + " | "@ + table_cell(model) + " | "@ + table_cell(duty)
                    + " |\n"@,
            )
        }),
{
    lemma_phase_rows(config.phases, config.sequence(config.default_workflow), k);
}

proof fn lemma_phase_rows(
    phases: Seq<(Seq<char>, PhaseDefView)>,
    steps: Seq<Seq<char>>,
    k: int,
)
    requires
        0 <= k < steps.len(),
    ensures
        says(
            phase_rows(phases, steps),
            "| "@ + table_cell(steps[k]) + " | "@ + table_cell(
                or_none(lookup(phases, steps[k])->0.model),
            ) + " | "@ + table_cell(or_none(lookup(phases, steps[k])->0.duty)) + " |\n"@,
        ),
    decreases steps.len(),
{
    lemma_says();
    let front = steps.drop_last();
    let last = steps.last();
    let def = lookup(phases, last)->0;
    let row = "| "@ + table_cell(last) + " | "@ + table_cell(or_none(def.model)) + " | "@
        + table_cell(or_none(def.duty)) + " |\n"@;
    assert(phase_rows(phases, steps) =~= phase_rows(phases, front) + row);
    if k < front.len() {
        lemma_phase_rows(phases, front, k);
    }
}

/// No outcome of a phase that does not lie before the present one is told.
pub proof fn law_later_outcomes_are_left_out(t: TaskView, config: ConfigView, k: int)
    requires
        0 <= k < prior_outcomes(t, config).len(),
    ensures
        ({
            let steps = config.sequence(t.workflow);
            let at = steps.index_of_first(t.state);
            let (name, outcome) = prior_outcomes(t, config)[k];
            &&& at is Some
            &&& steps.take(at->0).contains(name)
            &&& lookup(t.phases, name) == Some(outcome)
        }),
{
    let steps = config.sequence(t.workflow);
    law_position_is_the_first(steps, t.state);
    steps.index_of_first_ensures(t.state);
    lemma_outcome_of(t.phases, steps.take(steps.index_of_first(t.state)->0), k);
}

proof fn lemma_outcome_of(
    phases: Seq<(Seq<char>, TaskPhaseView)>,
    steps: Seq<Seq<char>>,
    k: int,
)
    requires
        0 <= k < outcomes(phases, steps).len(),
    ensures
        steps.contains(outcomes(phases, steps)[k].0),
        lookup(phases, outcomes(phases, steps)[k].0) == Some(outcomes(phases, steps)[k].1),
    decreases steps.len(),
{
    if steps.len() > 0 {
        let front = steps.drop_last();
        let before = outcomes(phases, front);
        if k < before.len() {
            lemma_outcome_of(phases, front, k);
            let m = front.index_of(before[k].0);
            assert(steps[m] == before[k].0);
            assert(outcomes(phases, steps)[k] == before[k]);
        } else {
            assert(steps[steps.len() - 1] == outcomes(phases, steps)[k].0);
        }
    }
}

/// Tasks that are done are told of in the order of their numbers.
pub proof fn law_completed_tasks_go_up(tasks: Seq<TaskView>) -> (told: Seq<TaskView>)
    ensures
        completion_summary(tasks) == completed_lines(told),
        told.to_multiset() == tasks.to_multiset(),
        forall|i: int, j: int|
            0 <= i < j < told.len() ==> pick_number((#[trigger] told[i]).id) <= pick_number(
                (#[trigger] told[j]).id,
            ),
{
    let before = order_of::<Task, ByNumber>();
    let told = sorted_by(tasks, before);
    law_sorting_keeps_elements(tasks, before);
    assert(is_order(before));
    law_sorting_orders(tasks, before);
    assert forall|i: int, j: int| 0 <= i < j < told.len() implies pick_number(
        (#[trigger] told[i]).id,
    ) <= pick_number((#[trigger] told[j]).id) by {
        assert(!before(told[j], told[i]));
    }
    told
}

} // verus!
