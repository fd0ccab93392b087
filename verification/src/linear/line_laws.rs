//! What the commands on a single line of phases do.

use vstd::prelude::*;

use crate::engine::change_laws::{
    differs_at, law_advance_goes_to_the_next_phase, law_first_task_is_found,
    law_found_task_stands_somewhere, law_given_up_task_is_failed,
    law_outcome_is_kept_under_its_phase, stands_at, tells_of_the_move, under_way_in,
};
use crate::engine::tasks::{
    find_task, law_position_is_the_first, opened, StoreErrorView, Task, TaskPhaseView,
    TaskStoreView, TaskView,
};
use crate::json_doc::{json_parsed, json_pretty, JsonItem};
use crate::linear::config::{
    as_workflow, loaded_line, ConfigErrorView, ConfigView, ProjectConfigFileView,
};
use crate::linear::config_phases::{
    busy_ids, phases_after, phases_changed, phases_checked, phases_left, place_is_left,
    DocumentSeenView, InPhase, OtherThan, PhasesChangeView,
};
use crate::linear::done::{done_recorded, waits_for};
use crate::linear::fail::{failure, failure_recorded};
use crate::linear::global_config::{
    loaded_settings, GlobalConfigErrorView, GlobalConfigView, GlobalReadView,
};
use crate::linear::project::{config_path, LineFilesView, ProjectView};
use crate::rows::choice;
use crate::string_map::{lookup, sorted};
use crate::text::{blank, decimal, join, keep, law_keeping_is_filtering};
use crate::time::{rfc3339_text, Instant};

verus! {

/// What a command finds in a project: its phases, of which there is one at least, and its tasks.
pub open spec fn finds_line(
    project: ProjectView,
    files: LineFilesView,
    config: ConfigView,
    s: TaskStoreView,
) -> bool {
    &&& loaded_line(
        config_path(project),
        files.config,
        project.global_config.default_max_retries,
    ) == Ok::<ConfigView, ConfigErrorView>(config)
    &&& config.phases.len() > 0
    &&& opened(project.state_dir, files.tasks, as_workflow(config)) == Ok::<
        TaskStoreView,
        StoreErrorView,
    >(s)
    &&& s.config == as_workflow(config)
}

/// A file in the older form has one phase for each name, in their order, each with the model that is
/// written for it, or else the usual one.
pub proof fn law_older_phases_have_models(
    file: ProjectConfigFileView,
    default_max_retries: u32,
    k: int,
)
    requires
        file.phases is None,
        file.state_machine is Some,
        0 <= k < file.state_machine->0.len(),
    ensures
        ({
            let config = file.in_use(default_max_retries);
            let name = file.state_machine->0[k];
            &&& config.phases.len() == file.state_machine->0.len()
            &&& config.phases[k].name == name
            &&& file.models is Some && lookup(file.models->0, name) is Some
                ==> config.phases[k].model == lookup(file.models->0, name)->0
            &&& file.models is None && file.default_model is Some ==> config.phases[k].model
                == file.default_model->0
            &&& file.models is None && file.default_model is None ==> config.phases[k].model
                == "sonnet"@
        }),
{
}

/// A configuration is used as it is written; the usual number of attempts stands in where none is.
pub proof fn law_line_is_as_written(file: ProjectConfigFileView, default_max_retries: u32)
    ensures
        ({
            let config = file.in_use(default_max_retries);
            &&& config.stack == file.stack
            &&& config.verification == file.verification
            &&& config.acceptance_testing == file.acceptance_testing
            &&& config.prd_path == file.prd_path
            &&& file.max_retries is Some ==> config.max_retries == file.max_retries->0
            &&& file.max_retries is None ==> config.max_retries == default_max_retries
            &&& file.phases is Some ==> config.phases == file.phases->0
            &&& file.phases is None && file.state_machine is None ==> config.phases.len() == 0
        }),
{
}

proof fn lemma_line(config: ConfigView, t: TaskView)
    requires
        t.workflow == "default"@,
    ensures
        as_workflow(config).sequence(t.workflow) == config.names(),
        config.names().len() == config.phases.len(),
        forall|k: int|
            0 <= k < config.phases.len() ==> #[trigger] config.names()[k] == config.phases[k].name,
{
    let ws = as_workflow(config).workflows;
    assert(ws.last().0 == "default"@);
}

/// Recording that a phase is done keeps its outcome, with the time, under the phase in which the
/// task was, keeps the outcomes of other phases, and moves the task to the next phase. No other
/// task changes. The task was neither done nor given up, and what it depends on was done.
pub proof fn law_line_outcome_is_kept(
    project: ProjectView,
    files: LineFilesView,
    config: ConfigView,
    s: TaskStoreView,
    id: Seq<char>,
    i: int,
    artifact: Option<Seq<char>>,
    now: Instant,
)
    requires
        finds_line(project, files, config, s),
        stands_at(s.tasks, id, i),
        s.tasks[i].workflow == "default"@,
        sorted(s.tasks[i].phases),
        done_recorded(project, files, id, artifact, now).1 is Ok,
    ensures
        ({
            let report = done_recorded(project, files, id, artifact, now).0;
            let after = report.tasks->0;
            let t = s.tasks[i];
            let u = after[i];
            let steps = config.names();
            let at = steps.index_of_first(t.state);
            let end = config.phases.last().name;
            &&& artifact is Some
            &&& !blank(artifact->0)
            &&& report.tasks is Some
            &&& after.len() == s.tasks.len()
            &&& forall|j: int|
                0 <= j < after.len() && j != i ==> #[trigger] after[j] == s.tasks[j]
            &&& lookup(u.phases, t.state) == Some(
                TaskPhaseView { artifact: artifact->0, completed_at: rfc3339_text(now) },
            )
            &&& forall|phase: Seq<char>|
                phase != t.state ==> #[trigger] lookup(u.phases, phase) == lookup(t.phases, phase)
            &&& at is Some
            &&& u.state == config.phases[at->0 + 1].name
            &&& u == TaskView {
                state: u.state,
                history: u.history,
                phases: u.phases,
                locked_at: None,
                ..t
            }
            &&& t.state != "failed"@
            &&& t.state != end
            &&& forall|k: int|
                0 <= k < t.dependencies.len() ==> ended_at(
                    s.tasks,
                    #[trigger] t.dependencies[k],
                    end,
                )
            &&& report.output == seq![
                if u.state == end {
                    id + " done ✓"@
                } else {
                    id + " → "@ + u.state
                },
            ]
        }),
{
    let t = s.tasks[i];
    let outcome = TaskPhaseView { artifact: artifact->0, completed_at: rfc3339_text(now) };
    let steps = config.names();
    lemma_line(config, t);
    assert(steps.last() == config.phases.last().name);
    law_first_task_is_found(s.tasks, id, i);
    law_outcome_is_kept_under_its_phase(s, id, i, outcome);
    let kept = s.record(id, outcome)->Ok_0.0;
    lemma_stays_put(s, kept, id, i);
    law_advance_goes_to_the_next_phase(kept, id, i, rfc3339_text(now));
    let moved = kept.advance(id, rfc3339_text(now))->Ok_0.0;
    lemma_stays_put(kept, moved, id, i);
    assert forall|j: int| 0 <= j < moved.tasks.len() && j != i implies #[trigger] moved.tasks[j]
        == s.tasks[j] by {
        assert(kept.tasks[j] == s.tasks[j]);
    }
    steps.index_of_first_ensures(t.state);
    lemma_waits(s.tasks, t.dependencies, steps.last(), 0);
    let at = steps.index_of_first(t.state)->0;
    assert(at + 1 < steps.len()) by {
        assert(steps[at] == t.state);
        assert(steps.last() == steps[steps.len() - 1]);
    }
}

/// The task with an id is there and in the phase given.
pub open spec fn ended_at(tasks: Seq<TaskView>, id: Seq<char>, end: Seq<char>) -> bool {
    exists|m: int| #[trigger] stands_at(tasks, id, m) && tasks[m].state == end
}

proof fn lemma_waits(tasks: Seq<TaskView>, deps: Seq<Seq<char>>, terminal: Seq<char>, j: int)
    requires
        0 <= j <= deps.len(),
        waits_for(tasks, deps, terminal, j) is None,
    ensures
        forall|k: int| j <= k < deps.len() ==> ended_at(tasks, #[trigger] deps[k], terminal),
    decreases deps.len() - j,
{
    if j < deps.len() {
        lemma_waits(tasks, deps, terminal, j + 1);
        let m = law_found_task_stands_somewhere(tasks, deps[j]);
        assert(ended_at(tasks, deps[j], terminal));
    }
}

proof fn lemma_stays_put(s: TaskStoreView, after: TaskStoreView, id: Seq<char>, i: int)
    requires
        stands_at(s.tasks, id, i),
        differs_at(s, after, i),
        after.tasks[i].id == id,
    ensures
        stands_at(after.tasks, id, i),
        find_task(after.tasks, id) == Some(after.tasks[i]),
{
    assert forall|j: int| 0 <= j < i implies (#[trigger] after.tasks[j]).id != id by {
        assert(after.tasks[j] == s.tasks[j]);
    }
    law_first_task_is_found(after.tasks, id, i);
}

/// A failure gives the task up exactly where this was the last attempt. Otherwise the attempt is
/// counted and the task starts over from the first phase. No other task changes.
pub proof fn law_line_last_attempt_gives_up(
    s: TaskStoreView,
    terminal: Seq<char>,
    id: Seq<char>,
    i: int,
    reason: Seq<char>,
    timestamp: Seq<char>,
)
    requires
        stands_at(s.tasks, id, i),
        under_way_in(s.config, s.tasks[i]),
        s.tasks[i].state != terminal,
        s.config.sequence(s.tasks[i].workflow)[0] != "failed"@,
        s.tasks[i].retry_count < u32::MAX,
    ensures
        ({
            let r = failure(s, terminal, id, reason, timestamp);
            let after = r->Ok_0.0;
            let t = s.tasks[i];
            let u = after.tasks[i];
            &&& r is Ok
            &&& differs_at(s, after, i)
            &&& u.state == "failed"@ <==> t.retry_count + 1 >= t.max_retries
            &&& t.retry_count + 1 >= t.max_retries ==> u == (TaskView {
                state: u.state,
                history: u.history,
                locked_at: None,
                ..t
            }) && tells_of_the_move(t, u, timestamp, "failed (max retries): "@ + reason) && r->Ok_0.1
                == id + " failed — max retries reached"@
            &&& t.retry_count + 1 < t.max_retries ==> u.state == s.config.sequence(t.workflow)[0]
                && u.retry_count == t.retry_count + 1 && u == (TaskView {
                state: u.state,
                history: u.history,
                locked_at: None,
                retry_count: u.retry_count,
                ..t
            }) && r->Ok_0.1 == id + " retrying ("@ + decimal(u.retry_count as nat) + "/"@ + decimal(
                t.max_retries as nat,
            ) + "): "@ + reason
        }),
{
    law_first_task_is_found(s.tasks, id, i);
    law_given_up_task_is_failed(s, id, i, "failed (max retries): "@ + reason, timestamp);
}

/// The command records the failure of a task of the project, for a reason that says something; what
/// is refused changes nothing.
pub proof fn law_line_fail_command(
    project: ProjectView,
    files: LineFilesView,
    config: ConfigView,
    s: TaskStoreView,
    id: Seq<char>,
    reason: Option<Seq<char>>,
    now: Instant,
)
    requires
        finds_line(project, files, config, s),
    ensures
        ({
            let (report, result) = failure_recorded(project, files, id, reason, now);
            let end = config.phases.last().name;
            let r = failure(s, end, id, reason->0, rfc3339_text(now));
            &&& reason is None || blank(reason->0) ==> result is Err && report.tasks is None
            &&& reason is Some && !blank(reason->0) ==> {
                &&& result is Ok <==> r is Ok
                &&& r is Ok ==> report.tasks == Some(r->Ok_0.0.tasks) && report.output == seq![
                    r->Ok_0.1,
                ]
                &&& r is Err ==> report.tasks == if s.migrated {
                    Some(s.tasks)
                } else {
                    None
                }
            }
            &&& report.hooks.len() == 0
        }),
{
}

/// A phase is put right behind the one it is to come after, right in front of the one it is to come
/// before, or at the end; a phase that is to go is left out first.
pub proof fn law_phases_are_placed(
    names: Seq<Seq<char>>,
    change: PhasesChangeView,
)
    requires
        change.add is Some,
        place_is_left(phases_left(names, change.remove), change),
    ensures
        ({
            let left = if change.remove is Some {
                names.filter(|p: Seq<char>| p != change.remove->0)
            } else {
                names
            };
            let after = phases_after(names, change);
            let name = change.add->0;
            &&& after.len() == left.len() + 1
            &&& change.after is Some ==> left.index_of_first(change.after->0) is Some
                && after[left.index_of_first(change.after->0)->0 + 1] == name && after.remove(
                left.index_of_first(change.after->0)->0 + 1,
            ) == left
            &&& change.after is None && change.before is Some ==> left.index_of_first(
                change.before->0,
            ) is Some && after[left.index_of_first(change.before->0)->0] == name && after.remove(
                left.index_of_first(change.before->0)->0,
            ) == left
            &&& change.after is None && change.before is None ==> after == left.push(name)
        }),
{
    let left = phases_left(names, change.remove);
    if change.remove is Some {
        let q = |p: Seq<char>| p != change.remove->0;
        assert(choice::<String, String, OtherThan>(change.remove->0) =~= q);
        law_keeping_is_filtering(names, q);
    }
    let name = change.add->0;
    if change.after is Some {
        law_position_is_the_first(left, change.after->0);
        left.index_of_first_ensures(change.after->0);
        let at = left.index_of_first(change.after->0)->0;
        assert(left.insert(at + 1, name).remove(at + 1) =~= left);
    } else if change.before is Some {
        law_position_is_the_first(left, change.before->0);
        left.index_of_first_ensures(change.before->0);
        let at = left.index_of_first(change.before->0)->0;
        assert(left.insert(at, name).remove(at) =~= left);
    }
}

/// A change of the phases is refused where nothing is asked for, where two places are given, where a
/// place is not there or the new phase is, and where a task is in the phase that is to go.
pub proof fn law_phases_command_is_checked(
    project: ProjectView,
    files: LineFilesView,
    config: ConfigView,
    s: TaskStoreView,
    change: PhasesChangeView,
)
    requires
        finds_line(project, files, config, s),
    ensures
        phases_checked(project, files, change).1 is Ok <==> {
            let names = config.names();
            &&& change.add is Some || change.remove is Some
            &&& change.after is None || change.before is None
            &&& change.after is Some ==> names.contains(change.after->0)
            &&& change.before is Some ==> names.contains(change.before->0)
            &&& change.add is Some ==> !names.contains(change.add->0)
            &&& change.remove is Some ==> forall|j: int|
                0 <= j < s.tasks.len() ==> (#[trigger] s.tasks[j]).state != change.remove->0
        },
        phases_checked(project, files, change).1 matches Ok(names) ==> names == config.names(),
{
    if change.remove is Some {
        lemma_none_busy(s.tasks, change.remove->0);
    }
}

proof fn lemma_none_busy(tasks: Seq<TaskView>, phase: Seq<char>)
    ensures
        busy_ids(tasks, phase).len() == 0 <==> forall|j: int|
            0 <= j < tasks.len() ==> (#[trigger] tasks[j]).state != phase,
{
    lemma_keep_empty(tasks, phase);
}

proof fn lemma_keep_empty(tasks: Seq<TaskView>, phase: Seq<char>)
    ensures
        keep(tasks, choice::<Task, String, InPhase>(phase)).len() == 0 <==> forall|j: int|
            0 <= j < tasks.len() ==> (#[trigger] tasks[j]).state != phase,
    decreases tasks.len(),
{
    if tasks.len() > 0 {
        let front = tasks.drop_last();
        lemma_keep_empty(front, phase);
        if forall|j: int| 0 <= j < tasks.len() ==> (#[trigger] tasks[j]).state != phase {
            assert forall|j: int| 0 <= j < front.len() implies (#[trigger] front[j]).state != phase by {
                assert(front[j] == tasks[j]);
            }
            assert(tasks[tasks.len() - 1].state != phase);
        }
        if forall|j: int| 0 <= j < front.len() ==> (#[trigger] front[j]).state != phase {
            if tasks.last().state != phase {
                assert forall|j: int| 0 <= j < tasks.len() implies (#[trigger] tasks[j]).state
                    != phase by {
                    if j < front.len() {
                        assert(front[j] == tasks[j]);
                    }
                }
            } else {
                assert(tasks[tasks.len() - 1].state == phase);
            }
        }
    }
}

/// The phases that a change leaves are written where the older form has them, and are said.
pub proof fn law_changed_phases_are_written(
    project: ProjectView,
    files: LineFilesView,
    text: Seq<char>,
    members: Map<Seq<char>, JsonItem>,
    change: PhasesChangeView,
)
    requires
        json_parsed(text) == Ok::<JsonItem, Seq<char>>(JsonItem::Object(members)),
    ensures
        ({
            let checked = phases_checked(project, files, change).1;
            let (report, result) = phases_changed(
                project,
                files,
                DocumentSeenView::Text { text },
                change,
            );
            let names = phases_after(checked->Ok_0, change);
            &&& result is Ok <==> checked is Ok
            &&& result is Ok ==> report.config_text == Some(
                json_pretty(
                    JsonItem::Object(
                        members.insert(
                            "state_machine"@,
                            JsonItem::List(names.map_values(|s: Seq<char>| JsonItem::Text(s))),
                        ),
                    ),
                ),
            ) && report.report.output.last() == "state_machine: "@ + join(names, " → "@)
            &&& result is Err ==> report.config_text is None
        }),
{
}

/// Where a user has no settings there are three attempts; otherwise as many as are written.
pub proof fn law_line_settings(agira_root: Seq<char>, config: GlobalConfigView)
    ensures
        loaded_settings(agira_root, GlobalReadView::Missing) matches Ok(c) && c.default_max_retries
            == 3,
        loaded_settings(agira_root, GlobalReadView::Parsed { config }) == Ok::<
            GlobalConfigView,
            GlobalConfigErrorView,
        >(config),
{
}

} // verus!
