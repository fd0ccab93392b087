//! What handing in the outcome of a phase does, and what is said where none is handed in.

use vstd::prelude::*;

use crate::commands::report::ProjectFilesView;
use crate::commands::task_command_laws::{finds, told_of};
use crate::commands::todo::{finished_all, law_commit_target_moved_last, todo, GitSeenView};
use crate::engine::advance::commit_request;
use crate::engine::change_laws::{
    complete_among, differs_at, law_advance_goes_to_the_next_phase, law_first_task_is_found,
    law_outcome_is_kept_under_its_phase, stands_at, tells_of_the_move, under_way_in,
    waits_for_nothing,
};
use crate::engine::config::ConfigView;
use crate::engine::hooks::law_commands_of_an_event_are_run;
use crate::engine::pick::{chosen, pick_output};
use crate::engine::project::ProjectView;
use crate::engine::tasks::{find_task, TaskPhaseView, TaskStoreView, TaskView};
use crate::string_map::{lookup, sorted};
use crate::text::blank;
use crate::time::{rfc3339_text, Instant};

verus! {

/// The task whose phase is completed by a command: the one that is named, or else the one that is
/// chosen next.
pub open spec fn meant(
    config: ConfigView,
    s: TaskStoreView,
    task_id: Option<Seq<char>>,
    now: Instant,
) -> Option<Seq<char>> {
    match task_id {
        Some(id) => Some(id),
        None => match chosen(s.tasks, config, None, now) {
            Some(t) => Some(t.id),
            None => None,
        },
    }
}

/// Handing in an outcome keeps it, with the time, under the phase in which the task was, keeps the
/// outcomes of other phases, and moves the task to the next phase. No other task changes. The
/// commands for that phase are run, and those for the end of all work where every task is done or
/// given up.
pub proof fn law_outcome_is_kept(
    project: ProjectView,
    files: ProjectFilesView,
    git: GitSeenView,
    config: ConfigView,
    s: TaskStoreView,
    artifact: Seq<char>,
    task_id: Option<Seq<char>>,
    from_phase: Option<Seq<char>>,
    now: Instant,
    id: Seq<char>,
    i: int,
)
    requires
        finds(project, files, config, s),
        meant(config, s, task_id, now) == Some(id),
        stands_at(s.tasks, id, i),
        sorted(s.tasks[i].phases),
        todo(project, files, git, Some(artifact), task_id, from_phase, now).1 is Ok,
    ensures
        ({
            let report = todo(project, files, git, Some(artifact), task_id, from_phase, now).0;
            let after = report.tasks->0;
            let t = s.tasks[i];
            let u = after[i];
            let steps = s.config.sequence(t.workflow);
            let usual = config.sequence(config.default_workflow);
            let ended = forall|j: int|
                0 <= j < after.len() ==> (#[trigger] after[j]).state == "done"@ || after[j].state
                    == "failed"@;
            &&& report.tasks is Some
            &&& after.len() == s.tasks.len()
            &&& forall|j: int|
                0 <= j < after.len() && j != i ==> #[trigger] after[j] == s.tasks[j]
            &&& lookup(u.phases, t.state) == Some(
                TaskPhaseView { artifact: artifact, completed_at: rfc3339_text(now) },
            )
            &&& forall|phase: Seq<char>|
                phase != t.state ==> #[trigger] lookup(u.phases, phase) == lookup(t.phases, phase)
            &&& steps.index_of_first(t.state) is Some
            &&& u.state == steps[steps.index_of_first(t.state)->0 + 1]
            &&& tells_of_the_move(t, u, rfc3339_text(now), "advanced to next phase"@)
            &&& u == TaskView {
                state: u.state,
                history: u.history,
                phases: u.phases,
                locked_at: None,
                ..t
            }
            &&& task_id is Some && from_phase is Some ==> t.state == from_phase->0
            &&& report.hooks.len() == if ended {
                2int
            } else {
                1int
            }
            &&& told_of(report.hooks[0], project, u.state, u, t.state, u.state, artifact)
            &&& ended ==> told_of(
                report.hooks[1],
                project,
                "all_tasks_done"@,
                u,
                t.state,
                u.state,
                artifact,
            )
            &&& u.state != usual.last() ==> report.output == seq![id + " → "@ + u.state]
            &&& u.state == usual.last() ==> report.output.len() == 3 && report.output[0] == id
                + " done ✓"@
            &&& report.warnings.len() == if task_id is None {
                1int
            } else {
                0int
            }
        }),
{
    let t = s.tasks[i];
    let outcome = TaskPhaseView { artifact, completed_at: rfc3339_text(now) };
    law_first_task_is_found(s.tasks, id, i);
    law_outcome_is_kept_under_its_phase(s, id, i, outcome);
    let recorded = s.record(id, outcome)->Ok_0.0;
    lemma_still_there(s, recorded, id, i);
    law_advance_goes_to_the_next_phase(recorded, id, i, rfc3339_text(now));
    let moved = recorded.advance(id, rfc3339_text(now))->Ok_0.0;
    lemma_still_there(recorded, moved, id, i);
    let after = moved.tasks;
    let u = after[i];
    assert forall|j: int| 0 <= j < after.len() && j != i implies #[trigger] after[j]
        == s.tasks[j] by {
        assert(recorded.tasks[j] == s.tasks[j]);
    }
    assert(tells_of_the_move(t, u, rfc3339_text(now), "advanced to next phase"@));
    law_commands_of_an_event_are_run(project.global_hooks, project.project_hooks, u.state);
    law_commands_of_an_event_are_run(project.global_hooks, project.project_hooks, "all_tasks_done"@);
    if finished_all(after) {
        assert forall|j: int| 0 <= j < after.len() implies (#[trigger] after[j]).state == "done"@
            || after[j].state == "failed"@ by {
            assert(after[j].finished());
        }
    }
}

proof fn lemma_still_there(s: TaskStoreView, after: TaskStoreView, id: Seq<char>, i: int)
    requires
        stands_at(s.tasks, id, i),
        differs_at(s, after, i),
        after.tasks[i].id == id,
    ensures
        stands_at(after.tasks, id, i),
        find_task(after.tasks, id) == Some(after.tasks[i]),
{
    assert forall|j: int| 0 <= j < i implies (#[trigger] after.tasks[j]).id != id by {
        assert(after.tasks[j] == s.tasks[j]);
    }
    law_first_task_is_found(after.tasks, id, i);
}

/// An outcome that says something is taken for a task that is under way, waits for nothing, and is
/// in the phase in which it is taken to be; and for no other.
pub proof fn law_outcome_is_taken(
    project: ProjectView,
    files: ProjectFilesView,
    git: GitSeenView,
    config: ConfigView,
    s: TaskStoreView,
    artifact: Seq<char>,
    id: Seq<char>,
    from_phase: Option<Seq<char>>,
    now: Instant,
    i: int,
)
    requires
        finds(project, files, config, s),
        stands_at(s.tasks, id, i),
        sorted(s.tasks[i].phases),
        s.config == config,
    ensures
        todo(project, files, git, Some(artifact), Some(id), from_phase, now).1 is Ok <==> {
            let t = s.tasks[i];
            &&& !blank(artifact)
            &&& t.state != "blocked"@
            &&& t.state != "failed"@
            &&& t.state != config.sequence(config.default_workflow).last()
            &&& from_phase is Some ==> t.state == from_phase->0
            &&& under_way_in(config, t)
            &&& waits_for_nothing(s, t)
        },
{
    let outcome = TaskPhaseView { artifact, completed_at: rfc3339_text(now) };
    law_first_task_is_found(s.tasks, id, i);
    law_outcome_is_kept_under_its_phase(s, id, i, outcome);
    let recorded = s.record(id, outcome)->Ok_0.0;
    lemma_still_there(s, recorded, id, i);
    law_advance_goes_to_the_next_phase(recorded, id, i, rfc3339_text(now));
    let t = s.tasks[i];
    let u = recorded.tasks[i];
    assert forall|d: Seq<char>| complete_among(s, d) <==> #[trigger] complete_among(
        recorded,
        d,
    ) by {
        if complete_among(s, d) {
            let m = choose|m: int|
                #[trigger] stands_at(s.tasks, d, m) && s.config.sequence(s.tasks[m].workflow).len()
                    > 0 && s.tasks[m].state == s.config.sequence(s.tasks[m].workflow).last();
            lemma_same_places(s, recorded, i, d, m);
        }
        if complete_among(recorded, d) {
            let m = choose|m: int|
                #[trigger] stands_at(recorded.tasks, d, m) && recorded.config.sequence(
                    recorded.tasks[m].workflow,
                ).len() > 0 && recorded.tasks[m].state == recorded.config.sequence(
                    recorded.tasks[m].workflow,
                ).last();
            lemma_same_places(recorded, s, i, d, m);
        }
    }
    assert(waits_for_nothing(s, t) <==> waits_for_nothing(recorded, u)) by {
        if waits_for_nothing(s, t) {
            assert forall|k: int| 0 <= k < u.dependencies.len() implies complete_among(
                recorded,
                #[trigger] u.dependencies[k],
            ) by {
                assert(complete_among(s, t.dependencies[k]));
            }
        }
        if waits_for_nothing(recorded, u) {
            assert forall|k: int| 0 <= k < t.dependencies.len() implies complete_among(
                s,
                #[trigger] t.dependencies[k],
            ) by {
                assert(complete_among(recorded, u.dependencies[k]));
            }
        }
    }
}

proof fn lemma_same_places(
    s: TaskStoreView,
    after: TaskStoreView,
    i: int,
    d: Seq<char>,
    m: int,
)
    requires
        0 <= i < s.tasks.len(),
        differs_at(s, after, i),
        after.tasks[i].id == s.tasks[i].id,
        stands_at(s.tasks, d, m),
    ensures
        stands_at(after.tasks, d, m),
        m != i ==> after.tasks[m] == s.tasks[m],
{
    assert forall|j: int| 0 <= j < s.tasks.len() implies (#[trigger] after.tasks[j]).id
        == s.tasks[j].id by {
        if j != i {
            assert(after.tasks[j] == s.tasks[j]);
        }
    }
}

/// Where no outcome is handed in, nothing changes. Where the working tree is clean the next task is
/// shown; where it is not, a request to commit is, for the started task that moved last.
pub proof fn law_next_task_is_shown(
    project: ProjectView,
    files: ProjectFilesView,
    git: GitSeenView,
    config: ConfigView,
    s: TaskStoreView,
    task_id: Option<Seq<char>>,
    from_phase: Option<Seq<char>>,
    now: Instant,
)
    requires
        finds(project, files, config, s),
    ensures
        ({
            let (report, result) = todo(project, files, git, None, task_id, from_phase, now);
            &&& result is Ok
            &&& report.hooks.len() == 0
            &&& report.tasks == if s.migrated {
                Some(s.tasks)
            } else {
                None
            }
            &&& !git.dirty ==> report.output == seq![
                pick_output(config, s.tasks, project.state_dir, None, now),
            ]
            &&& git.dirty ==> report.output.len() == 2
            &&& git.dirty && (exists|j: int|
                0 <= j < s.tasks.len() && (#[trigger] s.tasks[j]).state != config.sequence(
                    config.default_workflow,
                )[0]) ==> exists|t: TaskView|
                #![trigger s.tasks.contains(t)]
                s.tasks.contains(t) && t.state != config.sequence(config.default_workflow)[0]
                    && report.output[0] == commit_request(t.id, t.title, git.recent_commits)
        }),
{
    let initial = config.sequence(config.default_workflow)[0];
    law_commit_target_moved_last(s.tasks, initial);
}

} // verus!
