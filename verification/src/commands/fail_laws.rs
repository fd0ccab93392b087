//! What a failure does to a task and to those that wait for it.

use vstd::prelude::*;

use crate::commands::fail::{
    along_with, cascade, cascade_reason, cascaded, fail, fail_flow,
    law_failure_takes_dependents_along, left_by_failure, lemma_fail_keeps_ids, lemma_unvisited_same,
    lemma_visit_more, open_dependents, unvisited,
};
use crate::commands::report::ProjectFilesView;
use crate::commands::task_command_laws::{finds, left_alone, told_of};
use crate::commands::todo::finished_all;
use crate::engine::change_laws::{
    differs_at, law_first_task_is_found, law_found_task_stands_somewhere,
    law_given_up_task_is_failed, law_retried_task_goes_back, stands_at, tells_of_the_move,
    under_way_in,
};
use crate::engine::config::ConfigView;
use crate::engine::hooks::law_commands_of_an_event_are_run;
use crate::engine::project::ProjectView;
use crate::engine::task_laws::{lemma_state_names, unique_ids};
use crate::engine::tasks::{
    find_task, law_position_is_the_first, lemma_position, StoreErrorView, TaskStoreView, TaskView,
};
use crate::text::{blank, decimal};
use crate::time::{rfc3339_text, Instant};

verus! {

/// A task failed along with others: it was under way, and only its state, its lock and its history
/// changed.
pub open spec fn failed_from(
    config: ConfigView,
    before: TaskView,
    after: TaskView,
    timestamp: Seq<char>,
) -> bool {
    &&& under_way_in(config, before)
    &&& after.state == "failed"@
    &&& after == TaskView { state: after.state, history: after.history, locked_at: None, ..before }
    &&& tells_of_the_move(before, after, timestamp, after.history.last().reason)
}

/// Whatever fails along with a task, tasks that are not under way stay as they are, and so do all
/// ids.
proof fn lemma_cascade_fails(
    s: TaskStoreView,
    queue: Seq<(Seq<char>, Seq<char>)>,
    visited: Seq<Seq<char>>,
    terminal: Seq<char>,
    timestamp: Seq<char>,
)
    ensures
        ({
            let after = cascade(s, queue, visited, terminal, timestamp).0;
            &&& after.config == s.config
            &&& after.tasks.len() == s.tasks.len()
            &&& forall|j: int|
                0 <= j < s.tasks.len() ==> (#[trigger] after.tasks[j] == s.tasks[j] || failed_from(
                    s.config,
                    s.tasks[j],
                    after.tasks[j],
                    timestamp,
                ))
        }),
    decreases unvisited(s.tasks, visited) + queue.len(),
{
    if queue.len() > 0 {
        let (id, blocker) = queue[0];
        match s.fail(id, cascade_reason(blocker), timestamp) {
            Err(StoreErrorView::AlreadyTerminal) => {
                lemma_cascade_fails(s, queue.skip(1), visited, terminal, timestamp);
            },
            Err(_) => {},
            Ok((next, _)) => {
                let found = open_dependents(next.tasks, id, terminal, visited);
                lemma_fail_keeps_ids(s, id, cascade_reason(blocker), timestamp);
                lemma_unvisited_same(s.tasks, next.tasks, visited);
                lemma_visit_more(next.tasks, id, terminal, visited);
                let i = law_found_task_stands_somewhere(s.tasks, id);
                law_given_up_task_is_failed(s, id, i, cascade_reason(blocker), timestamp);
                lemma_cascade_fails(
                    next,
                    queue.skip(1) + along_with(found, id),
                    visited + found,
                    terminal,
                    timestamp,
                );
                let after = cascade(s, queue, visited, terminal, timestamp).0;
                assert forall|j: int| 0 <= j < s.tasks.len() implies (#[trigger] after.tasks[j]
                    == s.tasks[j] || failed_from(
                    s.config,
                    s.tasks[j],
                    after.tasks[j],
                    timestamp,
                )) by {
                    assert(after.tasks[j] == next.tasks[j] || failed_from(
                        next.config,
                        next.tasks[j],
                        after.tasks[j],
                        timestamp,
                    ));
                    if j != i {
                        assert(next.tasks[j] == s.tasks[j]);
                    }
                }
            },
        }
    }
}

/// A task that can fail: it is under way, also for the command, and its attempts can be counted.
pub open spec fn can_fail(s: TaskStoreView, id: Seq<char>, i: int, terminal: Seq<char>) -> bool {
    &&& stands_at(s.tasks, id, i)
    &&& under_way_in(s.config, s.tasks[i])
    &&& s.tasks[i].state != terminal
    &&& !s.config.sequence(s.tasks[i].workflow).contains("failed"@)
    &&& s.tasks[i].retry_count < u32::MAX
}

/// A failure gives the task up exactly where this was the last attempt. Otherwise the attempt is
/// counted, the task goes back to a phase of its workflow, and no other task changes.
pub proof fn law_last_attempt_gives_up(
    project: ProjectView,
    s: TaskStoreView,
    terminal: Seq<char>,
    id: Seq<char>,
    i: int,
    reason: Seq<char>,
    timestamp: Seq<char>,
)
    requires
        can_fail(s, id, i, terminal),
    ensures
        ({
            let (report, result) = fail_flow(project, s, terminal, id, reason, timestamp);
            let after = left_by_failure(s, report);
            let t = s.tasks[i];
            let u = after.tasks[i];
            let steps = s.config.sequence(t.workflow);
            let from = steps.index_of_first(t.state)->0;
            &&& after.tasks.len() == s.tasks.len()
            &&& u.id == id
            &&& u.max_retries == t.max_retries
            &&& u.state == "failed"@ <==> t.retry_count + 1 >= t.max_retries
            &&& t.retry_count + 1 >= t.max_retries ==> {
                &&& u == TaskView { state: u.state, history: u.history, locked_at: None, ..t }
                &&& tells_of_the_move(t, u, timestamp, "failed (max retries): "@ + reason)
                &&& report.report.tasks is Some
                &&& report.report.tasks->0[i] == u
            }
            &&& t.retry_count + 1 < t.max_retries ==> {
                &&& result is Ok
                &&& u.retry_count == t.retry_count + 1
                &&& steps.contains(u.state)
                &&& u.state == if t.retry_count == 0 && from >= 2 {
                    steps[from - 1]
                } else {
                    steps[1]
                }
                &&& u == TaskView {
                    state: u.state,
                    history: u.history,
                    locked_at: None,
                    retry_count: u.retry_count,
                    ..t
                }
                &&& differs_at(s, after, i)
                &&& report.report.tasks == Some(after.tasks)
                &&& report.along is None
                &&& report.closing is None
            }
        }),
{
    law_first_task_is_found(s.tasks, id, i);
    let t = s.tasks[i];
    let steps = s.config.sequence(t.workflow);
    law_position_is_the_first(steps, t.state);
    lemma_position(steps, t.state);
    if t.retry_count + 1 < t.max_retries {
        law_retried_task_goes_back(s, id, i, reason, timestamp);
    } else {
        let why = "failed (max retries): "@ + reason;
        law_given_up_task_is_failed(s, id, i, why, timestamp);
        let failed = s.fail(id, why, timestamp)->Ok_0.0;
        let found = open_dependents(failed.tasks, id, terminal, Seq::empty());
        lemma_cascade_fails(failed, along_with(found, id), found, terminal, timestamp);
        let after = cascaded(failed, id, terminal, timestamp).0;
        assert(after.tasks[i] == failed.tasks[i]);
    }
}

/// What is run and said for a failure: the commands for the phase to which the task goes back, or
/// for tasks that are given up. The commands for the end of all work are run where every task is
/// done or given up.
pub proof fn law_failure_is_told(
    project: ProjectView,
    s: TaskStoreView,
    terminal: Seq<char>,
    id: Seq<char>,
    i: int,
    reason: Seq<char>,
    timestamp: Seq<char>,
)
    requires
        can_fail(s, id, i, terminal),
    ensures
        ({
            let (report, result) = fail_flow(project, s, terminal, id, reason, timestamp);
            let after = left_by_failure(s, report);
            let t = s.tasks[i];
            let u = after.tasks[i];
            let ended = forall|j: int|
                0 <= j < after.tasks.len() ==> (#[trigger] after.tasks[j]).state == "done"@
                    || after.tasks[j].state == "failed"@;
            &&& report.report.hooks.len() == 1
            &&& told_of(
                report.report.hooks[0],
                project,
                u.state,
                u,
                t.state,
                u.state,
                Seq::empty(),
            )
            &&& u.state != "failed"@ ==> report.report.output == seq![
                id + " retrying ("@ + decimal(u.retry_count as nat) + "/"@ + decimal(
                    t.max_retries as nat,
                ) + "): "@ + reason,
            ]
            &&& u.state == "failed"@ && result is Ok ==> {
                &&& report.report.output == seq![id + " failed — max retries reached"@]
                &&& report.closing is Some <==> ended
                &&& report.closing is Some ==> told_of(
                    report.closing->0,
                    project,
                    "all_tasks_done"@,
                    u,
                    t.state,
                    "failed"@,
                    Seq::empty(),
                )
            }
            &&& result is Err ==> report.closing is None
        }),
{
    reveal_strlit("");
    assert(""@ =~= Seq::<char>::empty());
    law_last_attempt_gives_up(project, s, terminal, id, i, reason, timestamp);
    law_first_task_is_found(s.tasks, id, i);
    let (report, result) = fail_flow(project, s, terminal, id, reason, timestamp);
    let after = left_by_failure(s, report);
    let t = s.tasks[i];
    let u = after.tasks[i];
    law_commands_of_an_event_are_run(project.global_hooks, project.project_hooks, u.state);
    law_commands_of_an_event_are_run(project.global_hooks, project.project_hooks, "all_tasks_done"@);
    if t.retry_count + 1 < t.max_retries {
        law_retried_task_goes_back(s, id, i, reason, timestamp);
        lemma_found_again(s, after, id, i);
    } else {
        let why = "failed (max retries): "@ + reason;
        law_given_up_task_is_failed(s, id, i, why, timestamp);
        let failed = s.fail(id, why, timestamp)->Ok_0.0;
        lemma_found_again(s, failed, id, i);
        assert(finished_all(after.tasks) <==> forall|j: int|
            0 <= j < after.tasks.len() ==> (#[trigger] after.tasks[j]).state == "done"@
                || after.tasks[j].state == "failed"@) by {
            if finished_all(after.tasks) {
                assert forall|j: int| 0 <= j < after.tasks.len() implies (
                #[trigger] after.tasks[j]).state == "done"@ || after.tasks[j].state
                    == "failed"@ by {
                    assert(after.tasks[j].finished());
                }
            }
        }
    }
}

proof fn lemma_found_again(s: TaskStoreView, after: TaskStoreView, id: Seq<char>, i: int)
    requires
        stands_at(s.tasks, id, i),
        differs_at(s, after, i),
        after.tasks[i].id == id,
    ensures
        stands_at(after.tasks, id, i),
        find_task(after.tasks, id) == Some(after.tasks[i]),
{
    assert forall|j: int| 0 <= j < i implies (#[trigger] after.tasks[j]).id != id by {
        assert(after.tasks[j] == s.tasks[j]);
    }
    law_first_task_is_found(after.tasks, id, i);
}

/// Every task is in a phase of its workflow, or was given up, or is blocked.
pub open spec fn all_known(s: TaskStoreView) -> bool {
    forall|j: int|
        0 <= j < s.tasks.len() ==> (s.config.sequence((#[trigger] s.tasks[j]).workflow).contains(
            s.tasks[j].state,
        ) || s.tasks[j].state == "failed"@ || s.tasks[j].state == "blocked"@)
}

/// Every workflow of a task ends in the phase given.
pub open spec fn all_end_in(s: TaskStoreView, terminal: Seq<char>) -> bool {
    forall|j: int|
        0 <= j < s.tasks.len() ==> {
            let steps = s.config.sequence((#[trigger] s.tasks[j]).workflow);
            steps.len() > 0 && steps.last() == terminal
        }
}

/// The queue holds tasks that are there.
spec fn all_there(s: TaskStoreView, queue: Seq<(Seq<char>, Seq<char>)>) -> bool {
    forall|k: int| 0 <= k < queue.len() ==> queued_there(s, (#[trigger] queue[k]).0)
}

/// A task that is not blocked has the id.
spec fn queued_there(s: TaskStoreView, id: Seq<char>) -> bool {
    exists|j: int|
        0 <= j < s.tasks.len() && (#[trigger] s.tasks[j]).id == id && s.tasks[j].state != "blocked"@
}

proof fn lemma_dependents_there(
    s: TaskStoreView,
    tasks: Seq<TaskView>,
    id: Seq<char>,
    terminal: Seq<char>,
    visited: Seq<Seq<char>>,
)
    requires
        tasks.len() <= s.tasks.len(),
        tasks == s.tasks.take(tasks.len() as int),
    ensures
        forall|k: int|
            0 <= k < open_dependents(tasks, id, terminal, visited).len() ==> queued_there(
                s,
                #[trigger] open_dependents(tasks, id, terminal, visited)[k],
            ),
    decreases tasks.len(),
{
    if tasks.len() > 0 {
        let rest = tasks.drop_last();
        assert(rest =~= s.tasks.take(rest.len() as int));
        lemma_dependents_there(s, rest, id, terminal, visited);
        let last = s.tasks[tasks.len() - 1];
        assert(tasks.last() == last);
        let before = open_dependents(rest, id, terminal, visited);
        let found = open_dependents(tasks, id, terminal, visited);
        assert forall|k: int| 0 <= k < found.len() implies queued_there(s, #[trigger] found[k]) by {
            if k < before.len() {
                assert(found[k] == before[k]);
            } else {
                assert(last.id == found[k] && last.state != "blocked"@);
            }
        }
    }
}

proof fn lemma_cascade_succeeds(
    s: TaskStoreView,
    queue: Seq<(Seq<char>, Seq<char>)>,
    visited: Seq<Seq<char>>,
    terminal: Seq<char>,
    timestamp: Seq<char>,
)
    requires
        unique_ids(s.tasks),
        all_known(s),
        all_end_in(s, terminal),
        all_there(s, queue),
    ensures
        cascade(s, queue, visited, terminal, timestamp).1 is Ok,
    decreases unvisited(s.tasks, visited) + queue.len(),
{
    if queue.len() > 0 {
        let (id, blocker) = queue[0];
        let rest = queue.skip(1);
        assert forall|k: int| 0 <= k < rest.len() implies queued_there(s, (#[trigger] rest[k]).0) by {
            assert(rest[k] == queue[k + 1]);
        }
        assert(queued_there(s, queue[0].0));
        let i = choose|j: int|
            0 <= j < s.tasks.len() && (#[trigger] s.tasks[j]).id == id && s.tasks[j].state
                != "blocked"@;
        assert(stands_at(s.tasks, id, i));
        law_first_task_is_found(s.tasks, id, i);
        law_given_up_task_is_failed(s, id, i, cascade_reason(blocker), timestamp);
        match s.fail(id, cascade_reason(blocker), timestamp) {
            Err(_) => {
                lemma_cascade_succeeds(s, rest, visited, terminal, timestamp);
            },
            Ok((next, _)) => {
                let found = open_dependents(next.tasks, id, terminal, visited);
                lemma_fail_keeps_ids(s, id, cascade_reason(blocker), timestamp);
                lemma_unvisited_same(s.tasks, next.tasks, visited);
                lemma_visit_more(next.tasks, id, terminal, visited);
                assert(next.tasks.take(next.tasks.len() as int) =~= next.tasks);
                lemma_dependents_there(next, next.tasks, id, terminal, visited);
                let all = rest + along_with(found, id);
                lemma_state_names();
                assert forall|x: Seq<char>| queued_there(s, x) implies #[trigger] queued_there(
                    next,
                    x,
                ) by {
                    let j = choose|j: int|
                        0 <= j < s.tasks.len() && (#[trigger] s.tasks[j]).id == x
                            && s.tasks[j].state != "blocked"@;
                    if j != i {
                        assert(next.tasks[j] == s.tasks[j]);
                    } else {
                        assert(next.tasks[i].id == x);
                    }
                }
                assert forall|k: int| 0 <= k < all.len() implies queued_there(
                    next,
                    (#[trigger] all[k]).0,
                ) by {
                    if k < rest.len() {
                        assert(queued_there(s, rest[k].0));
                    } else {
                        assert(all[k] == (found[k - rest.len()], id));
                        assert(queued_there(next, found[k - rest.len()]));
                    }
                }
                assert forall|j: int| 0 <= j < next.tasks.len() implies (s.config.sequence(
                    (#[trigger] next.tasks[j]).workflow,
                ).contains(next.tasks[j].state) || next.tasks[j].state == "failed"@
                    || next.tasks[j].state == "blocked"@) by {
                    assert(next.tasks[j].workflow == s.tasks[j].workflow);
                }
                assert forall|j: int| 0 <= j < next.tasks.len() implies ({
                    let steps = s.config.sequence((#[trigger] next.tasks[j]).workflow);
                    steps.len() > 0 && steps.last() == terminal
                }) by {
                    assert(next.tasks[j].workflow == s.tasks[j].workflow);
                }
                assert(unique_ids(next.tasks)) by {
                    assert forall|j: int| 0 <= j < s.tasks.len() implies (
                    #[trigger] next.tasks[j]).id == s.tasks[j].id by {}
                }
                lemma_cascade_succeeds(next, all, visited + found, terminal, timestamp);
            },
        }
    }
}

/// Where the last attempt at a task fails, the tasks under way that wait for it fail along with it,
/// and those that wait for these, and no others: each for a reason that names the task that it
/// waits for. None that is left under way waits for one of them.
pub proof fn law_waiting_tasks_fail_along(
    project: ProjectView,
    s: TaskStoreView,
    terminal: Seq<char>,
    id: Seq<char>,
    i: int,
    reason: Seq<char>,
    timestamp: Seq<char>,
)
    requires
        can_fail(s, id, i, terminal),
        s.tasks[i].retry_count + 1 >= s.tasks[i].max_retries,
        unique_ids(s.tasks),
        all_known(s),
        all_end_in(s, terminal),
    ensures
        ({
            let (report, result) = fail_flow(project, s, terminal, id, reason, timestamp);
            let after = left_by_failure(s, report).tasks;
            &&& result is Ok
            &&& after.len() == s.tasks.len()
            &&& forall|j: int|
                0 <= j < after.len() && j != i && #[trigger] after[j] != s.tasks[j] ==> {
                    &&& failed_from(s.config, s.tasks[j], after[j], timestamp)
                    &&& s.tasks[j].state != terminal
                    &&& s.tasks[j].state != "blocked"@
                    &&& exists|d: Seq<char>|
                        s.tasks[j].dependencies.contains(d) && fell(s.tasks, after, d)
                            && after[j].history.last().reason == #[trigger] ("dependency "@ + d)
                            + " failed"@
                }
            &&& forall|j: int, d: Seq<char>|
                0 <= j < after.len() && (#[trigger] after[j]).state != "failed"@ && after[j].state
                    != "blocked"@ && after[j].state != terminal
                    && #[trigger] after[j].dependencies.contains(d) ==> !fell(s.tasks, after, d)
        }),
{
    let t = s.tasks[i];
    let why = "failed (max retries): "@ + reason;
    law_first_task_is_found(s.tasks, id, i);
    law_last_attempt_gives_up(project, s, terminal, id, i, reason, timestamp);
    law_given_up_task_is_failed(s, id, i, why, timestamp);
    lemma_state_names();
    let failed = s.fail(id, why, timestamp)->Ok_0.0;
    assert forall|j: int| 0 <= j < s.tasks.len() implies (#[trigger] failed.tasks[j]).id
        == s.tasks[j].id && failed.tasks[j].workflow == s.tasks[j].workflow && (
    failed.tasks[j].state == s.tasks[j].state || failed.tasks[j].state == "failed"@) by {}
    let found = open_dependents(failed.tasks, id, terminal, Seq::empty());
    let queue = along_with(found, id);
    assert(failed.tasks.take(failed.tasks.len() as int) =~= failed.tasks);
    lemma_dependents_there(failed, failed.tasks, id, terminal, Seq::empty());
    assert forall|k: int| 0 <= k < queue.len() implies queued_there(failed, (#[trigger] queue[k]).0) by {
        assert(queue[k] == (found[k], id));
        assert(queued_there(failed, found[k]));
    }
    lemma_cascade_succeeds(failed, queue, found, terminal, timestamp);
    lemma_cascade_fails(failed, queue, found, terminal, timestamp);
    law_failure_takes_dependents_along(failed, id, terminal, timestamp);
    let after = left_by_failure(
        s,
        fail_flow(project, s, terminal, id, reason, timestamp).0,
    ).tasks;
    assert(after == cascaded(failed, id, terminal, timestamp).0.tasks);
    let gone = |x: Seq<char>| x == id || exists|j: int|
        0 <= j < failed.tasks.len() && (#[trigger] failed.tasks[j]).id == x && after[j]
            != failed.tasks[j];
    assert(after[i] == failed.tasks[i]);
    assert forall|x: Seq<char>| #[trigger] fell(s.tasks, after, x) <==> gone(x) by {
        if fell(s.tasks, after, x) {
            let j = choose|j: int|
                0 <= j < s.tasks.len() && (#[trigger] s.tasks[j]).id == x && after[j] != s.tasks[j];
            assert(failed.tasks[j].id == x);
            if j != i {
                assert(failed.tasks[j] == s.tasks[j]);
            }
        }
        if gone(x) {
            if x == id {
                assert(s.tasks[i].id == x && after[i] != s.tasks[i]);
            } else {
                let j = choose|j: int|
                    0 <= j < failed.tasks.len() && (#[trigger] failed.tasks[j]).id == x && after[j]
                        != failed.tasks[j];
                assert(failed.tasks[j] == s.tasks[j]);
                assert(s.tasks[j].id == x && after[j] != s.tasks[j]);
            }
        }
    }
    assert forall|j: int|
        0 <= j < after.len() && j != i && #[trigger] after[j] != s.tasks[j] implies {
        &&& failed_from(s.config, s.tasks[j], after[j], timestamp)
        &&& s.tasks[j].state != terminal
        &&& s.tasks[j].state != "blocked"@
        &&& exists|d: Seq<char>|
            s.tasks[j].dependencies.contains(d) && fell(s.tasks, after, d)
                && after[j].history.last().reason == #[trigger] ("dependency "@ + d) + " failed"@
    } by {
        assert(failed.tasks[j] == s.tasks[j]);
        let d = choose|d: Seq<char>|
            failed.tasks[j].dependencies.contains(d) && gone(d) && after[j].history.last().reason
                == #[trigger] cascade_reason(d);
        assert(after[j].history.last().reason == ("dependency "@ + d) + " failed"@);
        assert(fell(s.tasks, after, d));
    }
    assert forall|j: int, d: Seq<char>|
        0 <= j < after.len() && (#[trigger] after[j]).state != "failed"@ && after[j].state
            != "blocked"@ && after[j].state != terminal && #[trigger] after[j].dependencies.contains(
            d,
        ) implies !fell(s.tasks, after, d) by {
        if fell(s.tasks, after, d) {
            assert(gone(d));
        }
    }
}

/// The task with an id is not as it was.
pub open spec fn fell(before: Seq<TaskView>, after: Seq<TaskView>, id: Seq<char>) -> bool {
    exists|j: int|
        0 <= j < before.len() && (#[trigger] before[j]).id == id && after[j] != before[j]
}

/// The tasks after a number of failures of one of them.
pub open spec fn after_failures(
    project: ProjectView,
    s: TaskStoreView,
    terminal: Seq<char>,
    id: Seq<char>,
    reason: Seq<char>,
    timestamp: Seq<char>,
    n: nat,
) -> TaskStoreView
    decreases n,
{
    if n == 0 {
        s
    } else {
        let before = after_failures(
            project,
            s,
            terminal,
            id,
            reason,
            timestamp,
            (n - 1) as nat,
        );
        left_by_failure(before, fail_flow(project, before, terminal, id, reason, timestamp).0)
    }
}

/// A task that was never tried again is given up after as many failures as it has attempts, and
/// not before: till then it is in a phase of its workflow, and each failure is counted.
pub proof fn law_task_has_its_attempts(
    project: ProjectView,
    s: TaskStoreView,
    terminal: Seq<char>,
    id: Seq<char>,
    i: int,
    reason: Seq<char>,
    timestamp: Seq<char>,
    n: nat,
)
    requires
        can_fail(s, id, i, terminal),
        s.tasks[i].retry_count == 0,
        0 < n <= s.tasks[i].max_retries,
        ({
            let steps = s.config.sequence(s.tasks[i].workflow);
            &&& steps.len() >= 3
            &&& steps.no_duplicates()
            &&& steps.last() == terminal
        }),
    ensures
        ({
            let after = after_failures(project, s, terminal, id, reason, timestamp, n);
            let u = after.tasks[i];
            &&& after.tasks.len() == s.tasks.len()
            &&& u.id == id
            &&& u.state == "failed"@ <==> n == s.tasks[i].max_retries
            &&& n < s.tasks[i].max_retries ==> {
                &&& can_fail(after, id, i, terminal)
                &&& u.retry_count == n
                &&& after.config == s.config
                &&& u.workflow == s.tasks[i].workflow
                &&& u.max_retries == s.tasks[i].max_retries
                &&& differs_at(s, after, i)
            }
        }),
    decreases n,
{
    let before = after_failures(project, s, terminal, id, reason, timestamp, (n - 1) as nat);
    if n > 1 {
        law_task_has_its_attempts(
            project,
            s,
            terminal,
            id,
            i,
            reason,
            timestamp,
            (n - 1) as nat,
        );
    }
    assert(after_failures(project, s, terminal, id, reason, timestamp, 0) == s);
    law_last_attempt_gives_up(project, before, terminal, id, i, reason, timestamp);
    let after = after_failures(project, s, terminal, id, reason, timestamp, n);
    if n < s.tasks[i].max_retries {
        let t = before.tasks[i];
        let steps = s.config.sequence(t.workflow);
        law_position_is_the_first(steps, t.state);
        lemma_position(steps, t.state);
        lemma_found_again(before, after, id, i);
        assert(steps.last() == steps[steps.len() - 1]);
        assert(steps.contains(steps[1]));
    }
}

/// The command records the failure of a task of the project, for a reason that says something, in
/// the words in which it was given.
pub proof fn law_fail_command(
    project: ProjectView,
    files: ProjectFilesView,
    config: ConfigView,
    s: TaskStoreView,
    id: Seq<char>,
    reason: Seq<char>,
    now: Instant,
)
    requires
        finds(project, files, config, s),
        !blank(reason),
    ensures
        fail(project, files, id, Some(reason), now) == fail_flow(
            project,
            s,
            config.sequence(config.default_workflow).last(),
            id,
            reason,
            rfc3339_text(now),
        ),
{
}

/// A task that is not there, was given up or is done does not fail again, and nothing is changed.
pub proof fn law_finished_task_does_not_fail(
    project: ProjectView,
    s: TaskStoreView,
    terminal: Seq<char>,
    id: Seq<char>,
    reason: Seq<char>,
    timestamp: Seq<char>,
)
    requires
        forall|j: int|
            #[trigger] stands_at(s.tasks, id, j) ==> s.tasks[j].state == "failed"@
                || s.tasks[j].state == terminal,
    ensures
        ({
            let (report, result) = fail_flow(project, s, terminal, id, reason, timestamp);
            &&& result is Err
            &&& left_alone(report.report, s)
            &&& report.along is None
            &&& report.closing is None
        }),
{
    if find_task(s.tasks, id) is Some {
        let j = law_found_task_stands_somewhere(s.tasks, id);
    }
}

} // verus!
