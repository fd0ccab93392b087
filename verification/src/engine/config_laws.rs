//! What a configuration and the tasks of a project are taken to be once they are read.

use vstd::prelude::*;

use crate::engine::config::{
    is_middle, law_loaded_config_is_valid, loaded_config, plain_phase, steps_problem,
    workflow_problem, workflows_problem, writable, ConfigReadView, ConfigView, PhaseDefView,
};
use crate::engine::tasks::{opened, TaskView, TaskWireView, TasksReadView};
use crate::string_map::{
    has_key, lemma_lookup_at, lemma_lookup_none, lemma_lookup_some, lemma_put, lookup, put, sorted,
};
use crate::text::{law_keeping_is_filtering, occurs};

verus! {

/// A phase between the first and the last one.
pub open spec fn in_the_middle(p: Seq<char>) -> bool {
    p != "pending"@ && p != "done"@
}

/// A configuration that is read is used with the names it has. Each of its workflows starts with
/// the phase for what is not yet begun, ends with the phase for what is done, and has its other
/// phases between them, in their order. The two phases have no model, duty or gate; the others are
/// as they were read. The number of attempts is at least one, and the usual one where none is
/// written.
pub proof fn law_loaded_config_is_as_written(
    path: Seq<char>,
    contents: Seq<char>,
    config: ConfigView,
    default_max_retries: u32,
)
    requires
        sorted(config.phases),
        loaded_config(path, ConfigReadView::Parsed { contents, config }, default_max_retries) is Ok,
    ensures
        ({
            let c = loaded_config(
                path,
                ConfigReadView::Parsed { contents, config },
                default_max_retries,
            )->Ok_0;
            &&& c.stack == config.stack
            &&& c.default_workflow == config.default_workflow
            &&& c.workflows.len() == config.workflows.len()
            &&& forall|k: int|
                0 <= k < c.workflows.len() ==> (#[trigger] c.workflows[k]).0 == config.workflows[k].0
                    && c.workflows[k].1 == seq!["pending"@] + config.workflows[k].1.filter(
                    |p: Seq<char>| in_the_middle(p),
                ) + seq!["done"@]
            &&& forall|p: Seq<char>|
                in_the_middle(p) ==> #[trigger] lookup(c.phases, p) == lookup(config.phases, p)
            &&& lookup(c.phases, "pending"@) == Some(
                PhaseDefView { model: None, duty: None, gate: None },
            )
            &&& lookup(c.phases, "done"@) == Some(
                PhaseDefView { model: None, duty: None, gate: None },
            )
            &&& config.max_retries > 1 ==> c.max_retries == config.max_retries
            &&& config.max_retries <= 1 && occurs(contents, "\"max_retries\""@) ==> c.max_retries
                == 1
            &&& config.max_retries <= 1 && !occurs(contents, "\"max_retries\""@) ==> c.max_retries
                == default_max_retries
            &&& exists|k: int|
                0 <= k < c.workflows.len() && (#[trigger] c.workflows[k]).0 == c.default_workflow
            &&& forall|k: int|
                0 <= k < c.workflows.len() ==> sound_steps(
                    c.phases,
                    (#[trigger] c.workflows[k]).1,
                )
        }),
{
    let c = loaded_config(
        path,
        ConfigReadView::Parsed { contents, config },
        default_max_retries,
    )->Ok_0;
    law_loaded_config_is_valid(
        path,
        ConfigReadView::Parsed { contents, config },
        default_max_retries,
    );
    lemma_ends_differ();
    let once = put(config.phases, "pending"@, plain_phase());
    lemma_put(config.phases, "pending"@, plain_phase());
    lemma_put(once, "done"@, plain_phase());
    assert forall|k: int| 0 <= k < c.workflows.len() implies (#[trigger] c.workflows[k]).0
        == config.workflows[k].0 && c.workflows[k].1 == seq!["pending"@]
        + config.workflows[k].1.filter(|p: Seq<char>| in_the_middle(p)) + seq!["done"@] by {
        let p = |p: Seq<char>| in_the_middle(p);
        assert(is_middle() =~= p);
        law_keeping_is_filtering(config.workflows[k].1, p);
    }
    let at = lemma_lookup_some(c.workflows, c.default_workflow);
    assert(c.workflows[at].0 == c.default_workflow);
}

/// The steps of a workflow that can be used: each is a phase, none comes twice, and the last one is
/// for what is done.
pub open spec fn sound_steps(
    phases: Seq<(Seq<char>, PhaseDefView)>,
    steps: Seq<Seq<char>>,
) -> bool {
    &&& steps.len() > 0
    &&& steps[steps.len() - 1] == "done"@
    &&& forall|i: int, j: int|
        0 <= i < j < steps.len() ==> (#[trigger] steps[i]) != (#[trigger] steps[j])
    &&& forall|i: int| 0 <= i < steps.len() ==> lookup(phases, #[trigger] steps[i]) is Some
}

proof fn lemma_ends_differ()
    ensures
        "pending"@ != "done"@,
{
    reveal_strlit("pending");
    reveal_strlit("done");
    assert("pending"@.len() == 7 && "done"@.len() == 4);
}

/// A configuration is used exactly where its usual workflow is there and the steps of each workflow
/// can be used.
pub proof fn law_sound_config_is_used(path: Seq<char>, config: ConfigView)
    ensures
        config.problem() is None <==> {
            &&& exists|k: int|
                0 <= k < config.workflows.len() && (#[trigger] config.workflows[k]).0
                    == config.default_workflow
            &&& forall|k: int|
                0 <= k < config.workflows.len() ==> sound_steps(
                    config.phases,
                    (#[trigger] config.workflows[k]).1,
                )
        },
        writable(path, config) is Ok <==> config.problem() is None,
{
    let found = exists|k: int|
        0 <= k < config.workflows.len() && (#[trigger] config.workflows[k]).0
            == config.default_workflow;
    if found {
        if !has_key(config.workflows, config.default_workflow) {
            let k = choose|k: int|
                0 <= k < config.workflows.len() && (#[trigger] config.workflows[k]).0
                    == config.default_workflow;
            lemma_key_there(config.workflows, k);
        }
    }
    if has_key(config.workflows, config.default_workflow) {
        let at = lemma_lookup_some(config.workflows, config.default_workflow);
        assert(config.workflows[at].0 == config.default_workflow);
    }
    lemma_workflows(config.phases, config.workflows, 0);
}

proof fn lemma_key_there<T>(m: Seq<(Seq<char>, T)>, k: int)
    requires
        0 <= k < m.len(),
    ensures
        has_key(m, m[k].0),
    decreases m.len(),
{
    if k < m.len() - 1 {
        lemma_key_there(m.drop_last(), k);
    }
}

proof fn lemma_workflows(
    phases: Seq<(Seq<char>, PhaseDefView)>,
    ws: Seq<(Seq<char>, Seq<Seq<char>>)>,
    i: int,
)
    requires
        0 <= i <= ws.len(),
    ensures
        workflows_problem(phases, ws, i) is None <==> forall|k: int|
            i <= k < ws.len() ==> sound_steps(phases, (#[trigger] ws[k]).1),
    decreases ws.len() - i,
{
    if i < ws.len() {
        lemma_workflows(phases, ws, i + 1);
        lemma_steps(phases, ws[i].0, ws[i].1, 0);
        let steps = ws[i].1;
        if workflow_problem(phases, ws[i].0, steps) is None {
            assert(sound_steps(phases, steps));
        }
    }
}

proof fn lemma_steps(
    phases: Seq<(Seq<char>, PhaseDefView)>,
    name: Seq<char>,
    steps: Seq<Seq<char>>,
    j: int,
)
    requires
        0 <= j <= steps.len(),
    ensures
        steps_problem(phases, name, steps, j) is None <==> {
            &&& forall|k: int, i: int|
                j <= k < steps.len() && 0 <= i < k ==> (#[trigger] steps[i]) != (
                #[trigger] steps[k])
            &&& forall|k: int| j <= k < steps.len() ==> lookup(phases, #[trigger] steps[k]) is Some
        },
    decreases steps.len() - j,
{
    if j < steps.len() {
        lemma_steps(phases, name, steps, j + 1);
        if steps.take(j).contains(steps[j]) {
            let i = steps.take(j).index_of(steps[j]);
            assert(steps[i] == steps[j]);
        } else {
            assert forall|i: int| 0 <= i < j implies (#[trigger] steps[i]) != steps[j] by {
                assert(steps.take(j)[i] == steps[i]);
            }
        }
        if has_key(phases, steps[j]) {
            let at = lemma_lookup_some(phases, steps[j]);
        } else {
            lemma_no_key(phases, steps[j]);
        }
    }
}

proof fn lemma_no_key<T>(m: Seq<(Seq<char>, T)>, key: Seq<char>)
    ensures
        has_key(m, key) <==> lookup(m, key) is Some,
    decreases m.len(),
{
    if m.len() > 0 {
        lemma_no_key(m.drop_last(), key);
    }
}

/// The phases of a workflow are those that are written under its name; an unknown workflow has
/// none.
pub proof fn law_phases_are_looked_up(config: ConfigView, k: int, name: Seq<char>)
    requires
        sorted(config.workflows),
    ensures
        0 <= k < config.workflows.len() ==> config.sequence(config.workflows[k].0)
            == config.workflows[k].1,
        (forall|j: int| 0 <= j < config.workflows.len() ==> (#[trigger] config.workflows[j]).0 != name)
            ==> config.sequence(name).len() == 0,
        0 <= k < config.workflows.len() && config.workflows[k].0 == config.default_workflow
            && config.workflows[k].1.len() > 0 ==> config.initial() == Some(config.workflows[k].1[0])
            && config.terminal() == Some(config.workflows[k].1.last()),
{
    if 0 <= k < config.workflows.len() {
        lemma_lookup_at(config.workflows, k);
    }
    if forall|j: int| 0 <= j < config.workflows.len() ==> (#[trigger] config.workflows[j]).0 != name {
        lemma_lookup_none(config.workflows, name);
    }
}

/// Tasks are taken as they are read; one that names no workflow is in the usual one. They are
/// written again where one of them was in an older form. Where there is no file there are none.
pub proof fn law_tasks_are_as_read(
    state_dir: Seq<char>,
    wires: Seq<TaskWireView>,
    config: ConfigView,
)
    ensures
        ({
            let none = opened(state_dir, TasksReadView::Missing, config);
            let some = opened(state_dir, TasksReadView::Parsed { tasks: wires }, config);
            let s = some->Ok_0;
            &&& none is Ok
            &&& none->Ok_0.tasks.len() == 0
            &&& none->Ok_0.config == config
            &&& none->Ok_0.max_retries == config.max_retries
            &&& !none->Ok_0.migrated
            &&& some is Ok
            &&& s.config == config
            &&& s.max_retries == config.max_retries
            &&& s.tasks.len() == wires.len()
            &&& forall|k: int|
                0 <= k < wires.len() ==> (#[trigger] s.tasks[k]) == (TaskView {
                    workflow: s.tasks[k].workflow,
                    ..wires[k].task
                })
            &&& forall|k: int|
                0 <= k < wires.len() && wires[k].workflow is Some && wires[k].workflow->0.len() > 0
                    ==> (#[trigger] s.tasks[k]).workflow == wires[k].workflow->0
            &&& forall|k: int|
                0 <= k < wires.len() && (wires[k].workflow is None || wires[k].workflow->0.len()
                    == 0) ==> (#[trigger] s.tasks[k]).workflow == config.default_workflow
            &&& s.migrated <==> exists|k: int|
                0 <= k < wires.len() && ((#[trigger] wires[k]).has_state_machine || wires[k].workflow
                    is None || wires[k].workflow->0.len() == 0)
        }),
{
    let s = opened(state_dir, TasksReadView::Parsed { tasks: wires }, config)->Ok_0;
    if exists|k: int|
        0 <= k < wires.len() && ((#[trigger] wires[k]).has_state_machine || wires[k].workflow is None
            || wires[k].workflow->0.len() == 0) {
        let k = choose|k: int|
            0 <= k < wires.len() && ((#[trigger] wires[k]).has_state_machine || wires[k].workflow
                is None || wires[k].workflow->0.len() == 0);
        assert(wires[k].outdated());
    }
}

} // verus!
