//! What holds of tasks whatever is done to them.

use vstd::prelude::*;

use crate::engine::config::{ConfigView, TERMINAL_PHASE_NAME};
use crate::engine::tasks::{
    depends_on_id, find_task, id_is, id_is_not, id_number, largest_number, lemma_position,
    lemma_task_index, missing_dependency, numbered_id, open_dependency, opened, position,
    task_index, BLOCKED_STATE, FAILED_STATE, StoreErrorView, TaskPhaseView, TaskStoreView, TaskView,
    TaskWireView, TasksReadView,
};
use crate::text::{
    decimal_padded, lemma_decimal_round_trip, lemma_first_is, lemma_first_where, lemma_keep,
    lemma_keep_from, lemma_keep_has,
};

verus! {

/// No two tasks have the same id.
pub open spec fn unique_ids(tasks: Seq<TaskView>) -> bool {
    forall|i: int, j: int|
        0 <= i < tasks.len() && 0 <= j < tasks.len() && i != j ==> (#[trigger] tasks[i]).id != (
        #[trigger] tasks[j]).id
}

/// A task stands in a phase of its workflow, or was given up, or is blocked in such a phase.
pub open spec fn placed(config: ConfigView, t: TaskView) -> bool {
    let steps = config.sequence(t.workflow);
    ||| steps.contains(t.state)
    ||| t.state == FAILED_STATE@
    ||| t.state == BLOCKED_STATE@ && t.blocked_at_phase is Some && steps.contains(
        t.blocked_at_phase->0,
    )
}

/// Each task stands where its workflow allows it.
pub open spec fn all_placed(s: TaskStoreView) -> bool {
    forall|i: int| 0 <= i < s.tasks.len() ==> placed(s.config, #[trigger] s.tasks[i])
}

/// The second history goes on from the first.
pub open spec fn history_kept(before: TaskView, after: TaskView) -> bool {
    before.history.is_prefix_of(after.history)
}

/// The names of the two states outside every workflow differ.
pub proof fn lemma_state_names()
    ensures
        FAILED_STATE@ != BLOCKED_STATE@,
        FAILED_STATE@ != TERMINAL_PHASE_NAME@,
        BLOCKED_STATE@ != TERMINAL_PHASE_NAME@,
{
    reveal_strlit("failed");
    reveal_strlit("blocked");
    reveal_strlit("done");
    assert("failed"@.len() == 6);
    assert("blocked"@.len() == 7);
    assert("done"@.len() == 4);
}

// ---------------------------------------------------------------------------------------------
// Adding tasks
// ---------------------------------------------------------------------------------------------

/// The id made of a number has that number.
pub proof fn law_id_has_its_number(n: nat)
    requires
        n <= usize::MAX,
    ensures
        id_number(numbered_id(n)) == Some(n),
{
    let id = numbered_id(n);
    let p = "task-"@;
    let digits = decimal_padded(n, 3);
    assert(id.take(p.len() as int) =~= p);
    assert(id.skip(p.len() as int) =~= digits);
    lemma_decimal_round_trip(n, 3, usize::MAX as nat);
}

proof fn lemma_largest(tasks: Seq<TaskView>, i: int)
    requires
        0 <= i < tasks.len(),
    ensures
        id_number(tasks[i].id) matches Some(n) ==> n <= largest_number(tasks),
    decreases tasks.len(),
{
    if i < tasks.len() - 1 {
        lemma_largest(tasks.drop_last(), i);
    }
}

/// A task that is added gets an id that no task had, stands at the end, and is found under its id;
/// the tasks that were there stay as they were.
pub proof fn law_added_task_is_new(
    s: TaskStoreView,
    title: Seq<char>,
    description: Seq<char>,
    dependencies: Seq<Seq<char>>,
    phase: Option<Seq<char>>,
    workflow: Seq<char>,
    timestamp: Seq<char>,
)
    requires
        largest_number(s.tasks) < usize::MAX,
        s.add(title, description, dependencies, phase, workflow, timestamp) is Ok,
    ensures
        ({
            let (after, task) = s.add(title, description, dependencies, phase, workflow, timestamp)->Ok_0;
            &&& forall|i: int| 0 <= i < s.tasks.len() ==> (#[trigger] s.tasks[i]).id != task.id
            &&& after.tasks == s.tasks.push(task)
            &&& find_task(after.tasks, task.id) == Some(task)
            &&& unique_ids(s.tasks) ==> unique_ids(after.tasks)
        }),
{
    let (after, task) = s.add(title, description, dependencies, phase, workflow, timestamp)->Ok_0;
    let n = largest_number(s.tasks) + 1;
    law_id_has_its_number(n);
    assert forall|i: int| 0 <= i < s.tasks.len() implies (#[trigger] s.tasks[i]).id != task.id by {
        lemma_largest(s.tasks, i);
    }
    let last = s.tasks.len() as int;
    assert forall|j: int| 0 <= j < last implies !id_is(task.id)(#[trigger] after.tasks[j]) by {
        assert(after.tasks[j] == s.tasks[j]);
    }
    lemma_first_is(after.tasks, id_is(task.id), last);
}

/// A task that is added stands where its workflow allows it.
pub proof fn law_added_task_is_placed(
    s: TaskStoreView,
    title: Seq<char>,
    description: Seq<char>,
    dependencies: Seq<Seq<char>>,
    phase: Option<Seq<char>>,
    workflow: Seq<char>,
    timestamp: Seq<char>,
)
    requires
        all_placed(s),
        s.add(title, description, dependencies, phase, workflow, timestamp) is Ok,
    ensures
        all_placed(s.add(title, description, dependencies, phase, workflow, timestamp)->Ok_0.0),
{
    let (after, task) = s.add(title, description, dependencies, phase, workflow, timestamp)->Ok_0;
    let steps = s.config.sequence(workflow);
    assert(steps.contains(task.state)) by {
        if phase is None {
            assert(steps[0] == task.state);
        }
    }
    assert forall|i: int| 0 <= i < after.tasks.len() implies placed(
        after.config,
        #[trigger] after.tasks[i],
    ) by {
        if i < s.tasks.len() {
            assert(after.tasks[i] == s.tasks[i]);
        }
    }
}

proof fn lemma_missing_none(tasks: Seq<TaskView>, deps: Seq<Seq<char>>, j: int)
    requires
        0 <= j <= deps.len(),
        missing_dependency(tasks, deps, j) is None,
    ensures
        forall|k: int| j <= k < deps.len() ==> task_index(tasks, #[trigger] deps[k]) is Some,
    decreases deps.len() - j,
{
    if j < deps.len() {
        lemma_missing_none(tasks, deps, j + 1);
    }
}

/// A task can only be added with dependencies that are there.
pub proof fn law_added_dependencies_exist(
    s: TaskStoreView,
    title: Seq<char>,
    description: Seq<char>,
    dependencies: Seq<Seq<char>>,
    phase: Option<Seq<char>>,
    workflow: Seq<char>,
    timestamp: Seq<char>,
)
    requires
        s.add(title, description, dependencies, phase, workflow, timestamp) is Ok,
    ensures
        forall|k: int|
            0 <= k < dependencies.len() ==> find_task(s.tasks, #[trigger] dependencies[k]) is Some,
{
    lemma_missing_none(s.tasks, dependencies, 0);
}

// ---------------------------------------------------------------------------------------------
// Advancing
// ---------------------------------------------------------------------------------------------

proof fn lemma_open_none(s: TaskStoreView, id: Seq<char>, deps: Seq<Seq<char>>, j: int)
    requires
        0 <= j <= deps.len(),
        open_dependency(s, id, deps, j) is None,
    ensures
        forall|k: int|
            j <= k < deps.len() ==> (find_task(s.tasks, #[trigger] deps[k]) matches Some(d)
                && s.config.sequence(d.workflow).len() > 0 && d.state == s.config.sequence(
                d.workflow,
            ).last()),
    decreases deps.len() - j,
{
    if j < deps.len() {
        lemma_open_none(s, id, deps, j + 1);
    }
}

/// A task advances only when each task it depends on stands in the last phase of its workflow.
pub proof fn law_advance_needs_dependencies(s: TaskStoreView, id: Seq<char>)
    requires
        s.next_step(id) is Ok,
    ensures
        ({
            let deps = s.tasks[s.next_step(id)->Ok_0.0].dependencies;
            forall|k: int|
                0 <= k < deps.len() ==> (find_task(s.tasks, #[trigger] deps[k]) matches Some(d)
                    && s.config.sequence(d.workflow).len() > 0 && d.state == s.config.sequence(
                    d.workflow,
                ).last())
        }),
{
    let i = s.next_step(id)->Ok_0.0;
    lemma_open_none(s, id, s.tasks[i].dependencies, 0);
}

/// Advancing moves a task from its phase to the one right after it, and leaves the lock behind.
pub proof fn law_advance_is_one_step(s: TaskStoreView, id: Seq<char>, timestamp: Seq<char>)
    requires
        s.advance(id, timestamp) is Ok,
    ensures
        ({
            let before = find_task(s.tasks, id)->0;
            let after = find_task(s.advance(id, timestamp)->Ok_0.0.tasks, id)->0;
            let steps = s.config.sequence(before.workflow);
            &&& find_task(s.tasks, id) is Some
            &&& find_task(s.advance(id, timestamp)->Ok_0.0.tasks, id) is Some
            &&& position(steps, before.state) is Some
            &&& after.state == steps[position(steps, before.state)->0 + 1]
            &&& steps.no_duplicates() ==> position(steps, after.state) == Some(
                position(steps, before.state)->0 + 1,
            )
            &&& after.locked_at is None
            &&& after.history.len() == before.history.len() + 1
            &&& history_kept(before, after)
        }),
{
    let (i, to) = s.next_step(id)->Ok_0;
    let t = s.tasks[i];
    let steps = s.config.sequence(t.workflow);
    lemma_task_index(s.tasks, id);
    lemma_position(steps, t.state);
    let k = position(steps, t.state)->0;
    assert(k + 1 < steps.len());
    lemma_position(steps, steps[k + 1]);
    let moved = t.moved(to, timestamp, "advanced to next phase"@);
    lemma_found_after(s, id, i, moved);
    if steps.no_duplicates() {
        let m = position(steps, steps[k + 1]);
        assert(steps.contains(steps[k + 1]));
        assert(steps[m->0] == steps[k + 1]);
    }
}

/// After a change of the task with an id that keeps the id, that task is found under it.
proof fn lemma_found_after(s: TaskStoreView, id: Seq<char>, i: int, t: TaskView)
    requires
        task_index(s.tasks, id) == Some(i),
        t.id == id,
    ensures
        0 <= i < s.tasks.len(),
        task_index(s.with_task(i, t).tasks, id) == Some(i),
        find_task(s.with_task(i, t).tasks, id) == Some(t),
{
    lemma_task_index(s.tasks, id);
    let after = s.with_task(i, t).tasks;
    assert forall|j: int| 0 <= j < i implies !id_is(id)(#[trigger] after[j]) by {
        assert(after[j] == s.tasks[j]);
    }
    lemma_first_is(after, id_is(id), i);
}

/// A task in the last phase of its workflow, or one that was given up, does not advance, fail or
/// get blocked.
pub proof fn law_finished_tasks_stay(s: TaskStoreView, id: Seq<char>, reason: Seq<char>, timestamp: Seq<char>)
    requires
        find_task(s.tasks, id) is Some,
        ({
            let t = find_task(s.tasks, id)->0;
            let steps = s.config.sequence(t.workflow);
            steps.len() > 0 && (t.state == steps.last() || t.state == FAILED_STATE@) && t.state
                != BLOCKED_STATE@
        }),
    ensures
        s.advance(id, timestamp) == Err::<(TaskStoreView, ()), StoreErrorView>(
            StoreErrorView::AlreadyTerminal,
        ),
        s.fail(id, reason, timestamp) == Err::<(TaskStoreView, ()), StoreErrorView>(
            StoreErrorView::AlreadyTerminal,
        ),
        s.block(id, reason, timestamp) == Err::<(TaskStoreView, ()), StoreErrorView>(
            StoreErrorView::AlreadyTerminal,
        ),
        s.retry(id, reason, timestamp) == Err::<(TaskStoreView, (u32, u32)), StoreErrorView>(
            StoreErrorView::AlreadyTerminal,
        ),
{
    lemma_state_names();
}

/// Completing a phase records its artifact under the phase and then does what advancing does.
pub proof fn law_complete_is_record_and_advance(
    s: TaskStoreView,
    id: Seq<char>,
    artifact: TaskPhaseView,
    timestamp: Seq<char>,
)
    requires
        s.complete(id, artifact, timestamp) is Ok,
    ensures
        s.record(id, artifact) is Ok,
        s.record(id, artifact)->Ok_0.0.advance(id, timestamp) is Ok,
        s.complete(id, artifact, timestamp)->Ok_0.0 == s.record(id, artifact)->Ok_0.0.advance(
            id,
            timestamp,
        )->Ok_0.0,
        s.complete(id, artifact, timestamp)->Ok_0.1 == s.record(id, artifact)->Ok_0.1,
{
    let (i, to) = s.next_step(id)->Ok_0;
    let t = s.tasks[i];
    lemma_task_index(s.tasks, id);
    let recorded = t.with_artifact(artifact);
    lemma_found_after(s, id, i, recorded);
    let mid = s.with_task(i, recorded);
    lemma_open_same(s, mid, i, id, t.dependencies, 0);
    assert(mid.next_step(id) == Ok::<(int, Seq<char>), StoreErrorView>((i, to)));
    assert(mid.advance(id, timestamp)->Ok_0.0.tasks =~= s.complete(id, artifact, timestamp)->Ok_0.0.tasks);
}

proof fn lemma_open_same(
    a: TaskStoreView,
    b: TaskStoreView,
    i: int,
    id: Seq<char>,
    deps: Seq<Seq<char>>,
    j: int,
)
    requires
        0 <= i < a.tasks.len(),
        b.config == a.config,
        b.tasks.len() == a.tasks.len(),
        forall|k: int|
            0 <= k < a.tasks.len() ==> (#[trigger] b.tasks[k]).id == a.tasks[k].id && b.tasks[k].state
                == a.tasks[k].state && b.tasks[k].workflow == a.tasks[k].workflow,
        0 <= j <= deps.len(),
    ensures
        open_dependency(a, id, deps, j) == open_dependency(b, id, deps, j),
    decreases deps.len() - j,
{
    if j < deps.len() {
        lemma_open_same(a, b, i, id, deps, j + 1);
        lemma_task_index(a.tasks, deps[j]);
        lemma_task_index(b.tasks, deps[j]);
        match task_index(a.tasks, deps[j]) {
            Some(m) => {
                assert(b.tasks[m].id == deps[j]);
                assert forall|q: int| 0 <= q < m implies !id_is(deps[j])(#[trigger] b.tasks[q]) by {
                    assert(a.tasks[q].id != deps[j]);
                    assert(b.tasks[q].id == a.tasks[q].id);
                }
                lemma_first_is(b.tasks, id_is(deps[j]), m);
            },
            None => {
                if task_index(b.tasks, deps[j]) is Some {
                    let m = task_index(b.tasks, deps[j])->0;
                    assert(a.tasks[m].id == b.tasks[m].id);
                }
            },
        }
    }
}

// ---------------------------------------------------------------------------------------------
// Blocking, failing, closing, retrying, locking
// ---------------------------------------------------------------------------------------------

/// Unblocking a task that was just blocked puts it back in the phase it was in, with neither a
/// blocking phase nor a reason; but for the lock, which is gone, and the history, it is as before.
pub proof fn law_unblock_undoes_block(
    s: TaskStoreView,
    id: Seq<char>,
    reason: Seq<char>,
    blocked_at: Seq<char>,
    unblocked_at: Seq<char>,
)
    requires
        s.block(id, reason, blocked_at) is Ok,
        find_task(s.tasks, id)->0.blocked_at_phase is None,
        find_task(s.tasks, id)->0.blocked_reason is None,
    ensures
        s.block(id, reason, blocked_at)->Ok_0.0.unblock(id, unblocked_at) is Ok,
        ({
            let before = find_task(s.tasks, id)->0;
            let after = find_task(
                s.block(id, reason, blocked_at)->Ok_0.0.unblock(id, unblocked_at)->Ok_0.0.tasks,
                id,
            )->0;
            &&& after == TaskView { locked_at: None, history: after.history, ..before }
            &&& history_kept(before, after)
            &&& after.history.len() == before.history.len() + 2
        }),
{
    lemma_task_index(s.tasks, id);
    let i = task_index(s.tasks, id)->0;
    let b = s.block(id, reason, blocked_at)->Ok_0.0;
    lemma_found_after(s, id, i, b.tasks[i]);
    let u = b.unblock(id, unblocked_at)->Ok_0.0;
    lemma_found_after(b, id, i, u.tasks[i]);
    let before = s.tasks[i];
    let after = u.tasks[i];
    assert(after =~= TaskView { locked_at: None, history: after.history, ..before });
}

/// A task that was given up can be closed, and then counts as done.
pub proof fn law_failed_tasks_can_be_closed(
    s: TaskStoreView,
    id: Seq<char>,
    reason: Seq<char>,
    timestamp: Seq<char>,
)
    requires
        find_task(s.tasks, id) is Some,
    ensures
        s.close(id, reason, TERMINAL_PHASE_NAME@, timestamp) is Ok <==> find_task(s.tasks, id)->0.state
            == FAILED_STATE@,
        s.close(id, reason, TERMINAL_PHASE_NAME@, timestamp) matches Ok(done) ==> find_task(
            done.0.tasks,
            id,
        )->0.finished() && find_task(done.0.tasks, id)->0.state == TERMINAL_PHASE_NAME@,
{
    lemma_task_index(s.tasks, id);
    let i = task_index(s.tasks, id)->0;
    if s.tasks[i].state == FAILED_STATE@ {
        let done = s.close(id, reason, TERMINAL_PHASE_NAME@, timestamp)->Ok_0.0;
        lemma_found_after(s, id, i, done.tasks[i]);
    }
}

/// A retry never moves a task forward, except out of the initial phase into the one after it.
pub proof fn law_retry_does_not_skip_ahead(
    s: TaskStoreView,
    id: Seq<char>,
    reason: Seq<char>,
    timestamp: Seq<char>,
)
    requires
        s.retry(id, reason, timestamp) is Ok,
        s.retry_count_fits(id),
    ensures
        ({
            let before = find_task(s.tasks, id)->0;
            let after = find_task(s.retry(id, reason, timestamp)->Ok_0.0.tasks, id)->0;
            let steps = s.config.sequence(before.workflow);
            let from = position(steps, before.state)->0;
            &&& after.retry_count == before.retry_count + 1
            &&& after.locked_at is None
            &&& exists|to: int|
                1 <= to < steps.len() && after.state == #[trigger] steps[to] && (to <= from || to
                    == 1)
        }),
{
    lemma_task_index(s.tasks, id);
    let i = task_index(s.tasks, id)->0;
    let t = s.tasks[i];
    let steps = s.config.sequence(t.workflow);
    lemma_position(steps, t.state);
    let k = position(steps, t.state)->0;
    assert(k + 1 < steps.len());
    let after = s.retry(id, reason, timestamp)->Ok_0.0;
    lemma_found_after(s, id, i, after.tasks[i]);
    let target = if t.retry_count + 1 == 1 && k >= 2 {
        k - 1
    } else {
        1
    };
    assert(after.tasks[i].state == steps[target]);
}

/// Unlocking a task that was locked leaves it as it was but for the lock, which is gone; locking
/// changes nothing but the lock.
pub proof fn law_lock_changes_only_the_lock(s: TaskStoreView, id: Seq<char>, at: Seq<char>)
    requires
        find_task(s.tasks, id) is Some,
    ensures
        ({
            let before = find_task(s.tasks, id)->0;
            let locked = s.set_lock(id, Some(at))->Ok_0.0;
            let unlocked = locked.set_lock(id, None)->Ok_0.0;
            &&& s.set_lock(id, Some(at)) is Ok
            &&& locked.set_lock(id, None) is Ok
            &&& find_task(locked.tasks, id) == Some(TaskView { locked_at: Some(at), ..before })
            &&& find_task(unlocked.tasks, id) == Some(TaskView { locked_at: None, ..before })
        }),
{
    lemma_task_index(s.tasks, id);
    let i = task_index(s.tasks, id)->0;
    let locked = s.set_lock(id, Some(at))->Ok_0.0;
    lemma_found_after(s, id, i, locked.tasks[i]);
    let unlocked = locked.set_lock(id, None)->Ok_0.0;
    lemma_found_after(locked, id, i, unlocked.tasks[i]);
}

// ---------------------------------------------------------------------------------------------
// What every change keeps
// ---------------------------------------------------------------------------------------------

/// The changes of a single task.
pub enum Change {
    Record { artifact: TaskPhaseView },
    Advance { timestamp: Seq<char> },
    Complete { artifact: TaskPhaseView, timestamp: Seq<char> },
    Fail { reason: Seq<char>, timestamp: Seq<char> },
    Block { reason: Seq<char>, timestamp: Seq<char> },
    Unblock { timestamp: Seq<char> },
    Close { reason: Seq<char>, terminal: Seq<char>, timestamp: Seq<char> },
    Update {
        title: Option<Seq<char>>,
        description: Option<Seq<char>>,
        depends_on: Option<Seq<Seq<char>>>,
        acceptance_criteria: Option<Option<Seq<char>>>,
    },
    Retry { reason: Seq<char>, timestamp: Seq<char> },
    SetLock { at: Option<Seq<char>> },
}

/// The store after a change of the task with an id, where the change is not refused.
pub open spec fn changed(s: TaskStoreView, id: Seq<char>, change: Change) -> Option<TaskStoreView> {
    match change {
        Change::Record { artifact } => match s.record(id, artifact) {
            Ok((t, _)) => Some(t),
            Err(_) => None,
        },
        Change::Advance { timestamp } => match s.advance(id, timestamp) {
            Ok((t, _)) => Some(t),
            Err(_) => None,
        },
        Change::Complete { artifact, timestamp } => match s.complete(id, artifact, timestamp) {
            Ok((t, _)) => Some(t),
            Err(_) => None,
        },
        Change::Fail { reason, timestamp } => match s.fail(id, reason, timestamp) {
            Ok((t, _)) => Some(t),
            Err(_) => None,
        },
        Change::Block { reason, timestamp } => match s.block(id, reason, timestamp) {
            Ok((t, _)) => Some(t),
            Err(_) => None,
        },
        Change::Unblock { timestamp } => match s.unblock(id, timestamp) {
            Ok((t, _)) => Some(t),
            Err(_) => None,
        },
        Change::Close { reason, terminal, timestamp } => match s.close(
            id,
            reason,
            terminal,
            timestamp,
        ) {
            Ok((t, _)) => Some(t),
            Err(_) => None,
        },
        Change::Update { title, description, depends_on, acceptance_criteria } => match s.update(
            id,
            title,
            description,
            depends_on,
            acceptance_criteria,
        ) {
            Ok((t, _)) => Some(t),
            Err(_) => None,
        },
        Change::Retry { reason, timestamp } => match s.retry(id, reason, timestamp) {
            Ok((t, _)) => Some(t),
            Err(_) => None,
        },
        Change::SetLock { at } => match s.set_lock(id, at) {
            Ok((t, _)) => Some(t),
            Err(_) => None,
        },
    }
}

/// A change touches the first task with the id and no other; the task keeps its id, its workflow
/// and the day it was made, and its history only grows.
pub proof fn law_change_touches_one_task(s: TaskStoreView, id: Seq<char>, change: Change)
    requires
        changed(s, id, change) is Some,
    ensures
        ({
            let after = changed(s, id, change)->0;
            let i = task_index(s.tasks, id)->0;
            &&& task_index(s.tasks, id) is Some
            &&& 0 <= i < s.tasks.len()
            &&& after.config == s.config
            &&& after.tasks == s.tasks.update(i, after.tasks[i])
            &&& after.tasks[i].id == s.tasks[i].id
            &&& after.tasks[i].workflow == s.tasks[i].workflow
            &&& after.tasks[i].created_at == s.tasks[i].created_at
            &&& after.tasks[i].max_retries == s.tasks[i].max_retries
            &&& history_kept(s.tasks[i], after.tasks[i])
        }),
{
    lemma_task_index(s.tasks, id);
}

/// A task that was changed is found under the id that it had.
pub proof fn law_changed_task_is_found(s: TaskStoreView, id: Seq<char>, change: Change)
    requires
        changed(s, id, change) is Some,
    ensures
        find_task(changed(s, id, change)->0.tasks, id) is Some,
        task_index(changed(s, id, change)->0.tasks, id) == task_index(s.tasks, id),
{
    law_change_touches_one_task(s, id, change);
    lemma_task_index(s.tasks, id);
    let i = task_index(s.tasks, id)->0;
    let after = changed(s, id, change)->0;
    assert(s.with_task(i, after.tasks[i]).tasks =~= after.tasks);
    lemma_found_after(s, id, i, after.tasks[i]);
}

/// Changes keep the ids unique.
pub proof fn law_change_keeps_ids_unique(s: TaskStoreView, id: Seq<char>, change: Change)
    requires
        changed(s, id, change) is Some,
        unique_ids(s.tasks),
    ensures
        unique_ids(changed(s, id, change)->0.tasks),
{
    law_change_touches_one_task(s, id, change);
    let after = changed(s, id, change)->0.tasks;
    assert forall|i: int, j: int| 0 <= i < after.len() && 0 <= j < after.len() && i != j implies (
    #[trigger] after[i]).id != (#[trigger] after[j]).id by {
        assert(after[i].id == s.tasks[i].id);
        assert(after[j].id == s.tasks[j].id);
    }
}

/// Changes keep each task where its workflow allows it, given that closing moves a task to a phase
/// of its workflow.
pub proof fn law_change_keeps_tasks_placed(s: TaskStoreView, id: Seq<char>, change: Change)
    requires
        changed(s, id, change) is Some,
        all_placed(s),
        forall|i: int|
            0 <= i < s.tasks.len() ==> !s.config.sequence((#[trigger] s.tasks[i]).workflow).contains(
                BLOCKED_STATE@,
            ),
        change matches Change::Close { terminal, .. } ==> s.config.sequence(
            find_task(s.tasks, id)->0.workflow,
        ).contains(terminal),
    ensures
        all_placed(changed(s, id, change)->0),
{
    law_change_touches_one_task(s, id, change);
    lemma_state_names();
    let after = changed(s, id, change)->0;
    let i = task_index(s.tasks, id)->0;
    let t = s.tasks[i];
    let steps = s.config.sequence(t.workflow);
    assert(placed(s.config, t));
    lemma_position(steps, t.state);
    match change {
        Change::Advance { timestamp } => {
            let k = position(steps, t.state)->0;
            assert(steps.contains(steps[k + 1]));
        },
        Change::Complete { artifact, timestamp } => {
            let k = position(steps, t.state)->0;
            assert(steps.contains(steps[k + 1]));
        },
        Change::Retry { reason, timestamp } => {
            let k = position(steps, t.state)->0;
            assert(k + 1 < steps.len());
            assert(steps.contains(steps[1]));
            if k >= 2 {
                assert(steps.contains(steps[k - 1]));
            }
        },
        _ => {},
    }
    assert(placed(s.config, after.tasks[i]));
    assert forall|j: int| 0 <= j < after.tasks.len() implies placed(
        after.config,
        #[trigger] after.tasks[j],
    ) by {
        if j != i {
            assert(after.tasks[j] == s.tasks[j]);
        }
    }
}

/// Removing a task takes away the tasks with its id and no other, and only where no task that
/// stays depends on it.
pub proof fn law_removed_task_is_gone(s: TaskStoreView, id: Seq<char>)
    requires
        s.remove(id) is Ok,
    ensures
        ({
            let after = s.remove(id)->Ok_0.0.tasks;
            &&& find_task(after, id) is None
            &&& forall|i: int| 0 <= i < after.len() ==> s.tasks.contains(#[trigger] after[i])
            &&& forall|i: int|
                0 <= i < s.tasks.len() && (#[trigger] s.tasks[i]).id != id ==> after.contains(
                    s.tasks[i],
                )
            &&& forall|i: int|
                0 <= i < after.len() ==> !(#[trigger] after[i]).dependencies.contains(id)
        }),
{
    let after = s.remove(id)->Ok_0.0.tasks;
    lemma_keep(s.tasks, id_is_not(id));
    lemma_task_index(after, id);
    assert forall|i: int| 0 <= i < after.len() implies s.tasks.contains(#[trigger] after[i]) by {
        lemma_keep_from(s.tasks, id_is_not(id), i);
    }
    assert forall|i: int| 0 <= i < s.tasks.len() && (#[trigger] s.tasks[i]).id != id implies after.contains(
        s.tasks[i],
    ) by {
        lemma_keep_has(s.tasks, id_is_not(id), i);
    }
    lemma_first_where(s.tasks, depends_on_id(id));
    assert forall|i: int| 0 <= i < after.len() implies !(#[trigger] after[i]).dependencies.contains(
        id,
    ) by {
        assert(id_is_not(id)(after[i]));
        lemma_keep_from(s.tasks, id_is_not(id), i);
        let k = choose|k: int| 0 <= k < s.tasks.len() && s.tasks[k] == after[i];
        assert(!depends_on_id(id)(s.tasks[k]));
    }
    if task_index(after, id) is Some {
        let i = task_index(after, id)->0;
        assert(id_is_not(id)(after[i]));
    }
}

/// What reading a file with some tasks in their present form gives.
pub open spec fn written(tasks: Seq<TaskView>) -> TasksReadView {
    TasksReadView::Parsed {
        tasks: tasks.map_values(
            |t: TaskView|
                TaskWireView { task: t, workflow: Some(t.workflow), has_state_machine: false },
        ),
    }
}

/// Tasks that are saved and read again are the same, and are not brought up to date again.
pub proof fn law_saved_tasks_are_read_back(
    state_dir: Seq<char>,
    config: ConfigView,
    tasks: Seq<TaskView>,
)
    requires
        forall|i: int| 0 <= i < tasks.len() ==> (#[trigger] tasks[i]).workflow.len() > 0,
    ensures
        ({
            let again = opened(state_dir, written(tasks), config);
            again is Ok && again->Ok_0.tasks == tasks && !again->Ok_0.migrated
        }),
{
    assert(opened(state_dir, written(tasks), config)->Ok_0.tasks =~= tasks);
}

/// Tasks in an older form are brought up to date once: each then names its workflow, so that it is
/// read back as it was saved.
pub proof fn law_tasks_are_brought_up_to_date_once(
    state_dir: Seq<char>,
    config: ConfigView,
    read: TasksReadView,
)
    requires
        opened(state_dir, read, config) is Ok,
        config.default_workflow.len() > 0,
    ensures
        ({
            let store = opened(state_dir, read, config)->Ok_0;
            opened(state_dir, written(store.tasks), config) == Ok::<_, StoreErrorView>(
                TaskStoreView { migrated: false, ..store },
            )
        }),
{
    let store = opened(state_dir, read, config)->Ok_0;
    assert forall|i: int| 0 <= i < store.tasks.len() implies (
    #[trigger] store.tasks[i]).workflow.len() > 0 by {}
    law_saved_tasks_are_read_back(state_dir, config, store.tasks);
    assert(opened(state_dir, written(store.tasks), config)->Ok_0 =~= TaskStoreView {
        migrated: false,
        ..store
    });
}

} // verus!
