//! What each change of a task does, and when it is refused.

use vstd::prelude::*;

use crate::engine::config::ConfigView;
use crate::engine::task_laws::{
    law_added_dependencies_exist, law_id_has_its_number, lemma_state_names,
};
use crate::engine::tasks::{
    depends_on_id, find_task, id_is_not, id_number, largest_number, law_position_is_the_first,
    lemma_position, lemma_task_index, missing_dependency, open_dependency, task_index,
    StoreErrorView, TaskPhaseView, TaskStoreView, TaskView,
};
use crate::string_map::{lemma_put, lookup, sorted};
use crate::text::{decimal, decimal_padded, law_keeping_is_filtering, lemma_first_where};

verus! {

/// The first task with an id stands at a place.
pub open spec fn stands_at(tasks: Seq<TaskView>, id: Seq<char>, i: int) -> bool {
    &&& 0 <= i < tasks.len()
    &&& tasks[i].id == id
    &&& forall|j: int| 0 <= j < i ==> (#[trigger] tasks[j]).id != id
}

/// A store in which the task at a place is another one, and all else is as it was.
pub open spec fn differs_at(before: TaskStoreView, after: TaskStoreView, i: int) -> bool {
    &&& after.config == before.config
    &&& after.max_retries == before.max_retries
    &&& after.tasks_path == before.tasks_path
    &&& after.migrated == before.migrated
    &&& after.tasks.len() == before.tasks.len()
    &&& forall|j: int|
        0 <= j < before.tasks.len() && j != i ==> #[trigger] after.tasks[j] == before.tasks[j]
}

/// A task whose history tells of one more move, from the state in which the task was to the one in
/// which it is.
pub open spec fn tells_of_the_move(
    before: TaskView,
    after: TaskView,
    timestamp: Seq<char>,
    reason: Seq<char>,
) -> bool {
    &&& after.history.len() == before.history.len() + 1
    &&& forall|h: int| 0 <= h < before.history.len() ==> #[trigger] after.history[h] == before.history[h]
    &&& after.history.last().from == Some(before.state)
    &&& after.history.last().to == after.state
    &&& after.history.last().timestamp == timestamp
    &&& after.history.last().reason == reason
}

/// A task that is under way: it is in a phase of its workflow that is not the last one.
pub open spec fn under_way_in(config: ConfigView, t: TaskView) -> bool {
    let steps = config.sequence(t.workflow);
    &&& steps.contains(t.state)
    &&& t.state != steps.last()
    &&& t.state != "failed"@
}

/// Every task that a task depends on is there and in the last phase of its workflow.
pub open spec fn waits_for_nothing(s: TaskStoreView, t: TaskView) -> bool {
    forall|k: int|
        0 <= k < t.dependencies.len() ==> complete_among(s, #[trigger] t.dependencies[k])
}

/// The task with an id is there and in the last phase of its workflow.
pub open spec fn complete_among(s: TaskStoreView, id: Seq<char>) -> bool {
    exists|i: int|
        #[trigger] stands_at(s.tasks, id, i) && s.config.sequence(s.tasks[i].workflow).len() > 0
            && s.tasks[i].state == s.config.sequence(s.tasks[i].workflow).last()
}

/// The task that is found under an id is the first that has it.
pub proof fn law_first_task_is_found(tasks: Seq<TaskView>, id: Seq<char>, i: int)
    requires
        stands_at(tasks, id, i),
    ensures
        task_index(tasks, id) == Some(i),
        find_task(tasks, id) == Some(tasks[i]),
{
    lemma_task_index(tasks, id);
    let m = task_index(tasks, id);
    if m is None {
        assert(tasks[i].id != id);
    } else if m->0 < i {
        assert(tasks[m->0].id != id);
    }
}

/// A task that is found under an id stands somewhere among the tasks.
pub proof fn law_found_task_stands_somewhere(tasks: Seq<TaskView>, id: Seq<char>) -> (i: int)
    requires
        find_task(tasks, id) is Some,
    ensures
        stands_at(tasks, id, i),
        find_task(tasks, id) == Some(tasks[i]),
        task_index(tasks, id) == Some(i),
{
    lemma_task_index(tasks, id);
    task_index(tasks, id)->0
}

/// A new task is put behind the others. It says what it was given, is in the phase that was given
/// or else in the first one of its workflow, and was never tried.
pub proof fn law_added_task_is_as_asked(
    s: TaskStoreView,
    title: Seq<char>,
    description: Seq<char>,
    dependencies: Seq<Seq<char>>,
    phase: Option<Seq<char>>,
    workflow: Seq<char>,
    timestamp: Seq<char>,
)
    requires
        s.add(title, description, dependencies, phase, workflow, timestamp) is Ok,
    ensures
        ({
            let (after, t) = s.add(title, description, dependencies, phase, workflow, timestamp)->Ok_0;
            &&& after.tasks.len() == s.tasks.len() + 1
            &&& forall|j: int| 0 <= j < s.tasks.len() ==> #[trigger] after.tasks[j] == s.tasks[j]
            &&& after.tasks.last() == t
            &&& after.config == s.config
            &&& after.max_retries == s.max_retries
            &&& t.title == title
            &&& t.description == description
            &&& t.dependencies == dependencies
            &&& t.workflow == workflow
            &&& phase is Some ==> t.state == phase->0
            &&& phase is None ==> t.state == s.config.sequence(workflow)[0]
            &&& s.config.sequence(workflow).contains(t.state)
            &&& t.created_at == timestamp
            &&& t.retry_count == 0
            &&& t.max_retries == s.max_retries
            &&& t.blocked_at_phase is None
            &&& t.blocked_reason is None
            &&& t.locked_at is None
            &&& t.acceptance_criteria is None
            &&& t.phases.len() == 0
            &&& t.clarifications.len() == 0
            &&& t.history.len() == 1
            &&& t.history[0].from is None
            &&& t.history[0].to == t.state
            &&& t.history[0].timestamp == timestamp
            &&& t.history[0].reason == "task created"@
        }),
{
    let steps = s.config.sequence(workflow);
    assert(steps.contains(steps[0]));
}

/// A new task has a number that is larger than that of any other, by no more than one.
pub proof fn law_added_task_has_the_next_number(
    s: TaskStoreView,
    title: Seq<char>,
    description: Seq<char>,
    dependencies: Seq<Seq<char>>,
    phase: Option<Seq<char>>,
    workflow: Seq<char>,
    timestamp: Seq<char>,
    n: nat,
)
    requires
        s.add(title, description, dependencies, phase, workflow, timestamp) is Ok,
        n < usize::MAX,
        forall|i: int, m: nat|
            #![trigger s.tasks[i], decimal_padded(m, 3)]
            0 <= i < s.tasks.len() && s.tasks[i].id == "task-"@ + decimal_padded(m, 3) && m
                <= usize::MAX ==> m <= n,
        forall|i: int| 0 <= i < s.tasks.len() ==> numbered(#[trigger] s.tasks[i]),
        n == 0 || exists|i: int|
            0 <= i < s.tasks.len() && (#[trigger] s.tasks[i]).id == "task-"@ + decimal_padded(n, 3),
    ensures
        s.add(title, description, dependencies, phase, workflow, timestamp)->Ok_0.1.id == "task-"@
            + decimal_padded(n + 1, 3),
{
    lemma_largest_is(s.tasks, n);
}

/// A task whose id is made of a number.
pub open spec fn numbered(t: TaskView) -> bool {
    exists|m: nat| m <= usize::MAX && t.id == "task-"@ + #[trigger] decimal_padded(m, 3)
}

proof fn lemma_largest_is(tasks: Seq<TaskView>, n: nat)
    requires
        n <= usize::MAX,
        forall|i: int, m: nat|
            #![trigger tasks[i], decimal_padded(m, 3)]
            0 <= i < tasks.len() && tasks[i].id == "task-"@ + decimal_padded(m, 3) && m
                <= usize::MAX ==> m <= n,
        forall|i: int| 0 <= i < tasks.len() ==> numbered(#[trigger] tasks[i]),
    ensures
        largest_number(tasks) <= n,
        (exists|i: int|
            0 <= i < tasks.len() && (#[trigger] tasks[i]).id == "task-"@ + decimal_padded(n, 3))
            ==> largest_number(tasks) == n,
    decreases tasks.len(),
{
    if tasks.len() > 0 {
        let rest = tasks.drop_last();
        assert forall|i: int| 0 <= i < rest.len() implies numbered(#[trigger] rest[i]) by {
            assert(rest[i] == tasks[i]);
        }
        lemma_largest_is(rest, n);
        assert(numbered(tasks[tasks.len() - 1]));
        let m = choose|m: nat|
            m <= usize::MAX && tasks.last().id == "task-"@ + #[trigger] decimal_padded(m, 3);
        law_id_has_its_number(m);
        assert(id_number(tasks.last().id) == Some(m));
        assert(m <= n);
        if exists|i: int|
            0 <= i < tasks.len() && (#[trigger] tasks[i]).id == "task-"@ + decimal_padded(n, 3) {
            let i = choose|i: int|
                0 <= i < tasks.len() && (#[trigger] tasks[i]).id == "task-"@ + decimal_padded(n, 3);
            law_id_has_its_number(n);
            if i < rest.len() {
                assert(rest[i] == tasks[i]);
            }
        }
    }
}

/// A task is added wherever its workflow is known, the phase given is one of it, and the tasks that
/// it depends on are there.
pub proof fn law_sound_task_is_added(
    s: TaskStoreView,
    title: Seq<char>,
    description: Seq<char>,
    dependencies: Seq<Seq<char>>,
    phase: Option<Seq<char>>,
    workflow: Seq<char>,
    timestamp: Seq<char>,
)
    ensures
        s.add(title, description, dependencies, phase, workflow, timestamp) is Ok <==> {
            &&& s.config.sequence(workflow).len() > 0
            &&& phase is Some ==> s.config.sequence(workflow).contains(phase->0)
            &&& forall|k: int|
                0 <= k < dependencies.len() ==> exists|i: int|
                    0 <= i < s.tasks.len() && (#[trigger] s.tasks[i]).id == #[trigger] dependencies[k]
        },
{
    let all_there = forall|k: int|
        0 <= k < dependencies.len() ==> exists|i: int|
            0 <= i < s.tasks.len() && (#[trigger] s.tasks[i]).id == #[trigger] dependencies[k];
    if s.add(title, description, dependencies, phase, workflow, timestamp) is Ok {
        law_added_dependencies_exist(
            s,
            title,
            description,
            dependencies,
            phase,
            workflow,
            timestamp,
        );
        assert forall|k: int| 0 <= k < dependencies.len() implies exists|i: int|
            0 <= i < s.tasks.len() && (#[trigger] s.tasks[i]).id == #[trigger] dependencies[k] by {
            let i = law_found_task_stands_somewhere(s.tasks, dependencies[k]);
            assert(s.tasks[i].id == dependencies[k]);
        }
    }
    if all_there {
        assert forall|k: int| 0 <= k < dependencies.len() implies task_index(
            s.tasks,
            #[trigger] dependencies[k],
        ) is Some by {
            lemma_task_index(s.tasks, dependencies[k]);
            let i = choose|i: int|
                0 <= i < s.tasks.len() && (#[trigger] s.tasks[i]).id == dependencies[k];
            assert(s.tasks[i].id == dependencies[k]);
        }
        lemma_nothing_missing(s.tasks, dependencies, 0);
    }
}

proof fn lemma_nothing_missing(tasks: Seq<TaskView>, deps: Seq<Seq<char>>, j: int)
    requires
        0 <= j <= deps.len(),
        forall|k: int| 0 <= k < deps.len() ==> task_index(tasks, #[trigger] deps[k]) is Some,
    ensures
        missing_dependency(tasks, deps, j) is None,
    decreases deps.len() - j,
{
    if j < deps.len() {
        assert(task_index(tasks, deps[j]) is Some);
        lemma_nothing_missing(tasks, deps, j + 1);
    }
}

/// What came out of a phase is kept under the name of the phase, and what came out of others stays.
pub proof fn law_outcome_is_kept_under_its_phase(
    s: TaskStoreView,
    id: Seq<char>,
    i: int,
    outcome: TaskPhaseView,
)
    requires
        stands_at(s.tasks, id, i),
        sorted(s.tasks[i].phases),
    ensures
        s.record(id, outcome) is Ok,
        s.record(id, outcome)->Ok_0.1 == s.tasks[i].state,
        ({
            let after = s.record(id, outcome)->Ok_0.0;
            let t = s.tasks[i];
            let u = after.tasks[i];
            &&& differs_at(s, after, i)
            &&& u == TaskView { phases: u.phases, ..t }
            &&& lookup(u.phases, t.state) == Some(outcome)
            &&& forall|phase: Seq<char>|
                phase != t.state ==> #[trigger] lookup(u.phases, phase) == lookup(t.phases, phase)
            &&& sorted(u.phases)
        }),
{
    law_first_task_is_found(s.tasks, id, i);
    lemma_put(s.tasks[i].phases, s.tasks[i].state, outcome);
}

/// A task advances wherever it is under way and waits for nothing, and only there. It is then in
/// the phase right after the one in which it was, and its history tells of it.
pub proof fn law_advance_goes_to_the_next_phase(
    s: TaskStoreView,
    id: Seq<char>,
    i: int,
    timestamp: Seq<char>,
)
    requires
        stands_at(s.tasks, id, i),
    ensures
        s.advance(id, timestamp) is Ok <==> under_way_in(s.config, s.tasks[i]) && waits_for_nothing(
            s,
            s.tasks[i],
        ),
        s.advance(id, timestamp) matches Ok((after, _)) ==> {
            let t = s.tasks[i];
            let u = after.tasks[i];
            let steps = s.config.sequence(t.workflow);
            &&& differs_at(s, after, i)
            &&& steps.index_of_first(t.state) is Some
            &&& u.state == steps[steps.index_of_first(t.state)->0 + 1]
            &&& tells_of_the_move(t, u, timestamp, "advanced to next phase"@)
            &&& u == TaskView { state: u.state, history: u.history, locked_at: None, ..t }
        },
{
    law_first_task_is_found(s.tasks, id, i);
    let t = s.tasks[i];
    let steps = s.config.sequence(t.workflow);
    law_position_is_the_first(steps, t.state);
    lemma_position(steps, t.state);
    lemma_open_dependency(s, id, t.dependencies, 0);
    if waits_for_nothing(s, t) {
        assert forall|k: int| 0 <= k < t.dependencies.len() implies complete_among(
            s,
            #[trigger] t.dependencies[k],
        ) by {}
    }
}

proof fn lemma_open_dependency(s: TaskStoreView, id: Seq<char>, deps: Seq<Seq<char>>, j: int)
    requires
        0 <= j <= deps.len(),
    ensures
        open_dependency(s, id, deps, j) is None <==> forall|k: int|
            j <= k < deps.len() ==> complete_among(s, #[trigger] deps[k]),
    decreases deps.len() - j,
{
    if j < deps.len() {
        lemma_open_dependency(s, id, deps, j + 1);
        match task_index(s.tasks, deps[j]) {
            Some(_) => {
                let i = law_found_task_stands_somewhere(s.tasks, deps[j]);
                if complete_among(s, deps[j]) {
                    let m = choose|m: int|
                        #[trigger] stands_at(s.tasks, deps[j], m) && s.config.sequence(
                            s.tasks[m].workflow,
                        ).len() > 0 && s.tasks[m].state == s.config.sequence(
                            s.tasks[m].workflow,
                        ).last();
                    law_first_task_is_found(s.tasks, deps[j], m);
                }
            },
            None => {
                if complete_among(s, deps[j]) {
                    let m = choose|m: int|
                        #[trigger] stands_at(s.tasks, deps[j], m) && s.config.sequence(
                            s.tasks[m].workflow,
                        ).len() > 0 && s.tasks[m].state == s.config.sequence(
                            s.tasks[m].workflow,
                        ).last();
                    law_first_task_is_found(s.tasks, deps[j], m);
                }
            },
        }
    }
}

/// A phase can be completed wherever the task can advance.
pub proof fn law_phase_is_completed_where_the_task_advances(
    s: TaskStoreView,
    id: Seq<char>,
    outcome: TaskPhaseView,
    timestamp: Seq<char>,
)
    ensures
        s.complete(id, outcome, timestamp) is Ok <==> s.advance(id, timestamp) is Ok,
{
}

/// A task is given up wherever it is under way, and only there. It keeps all but its state, its
/// lock and its history.
pub proof fn law_given_up_task_is_failed(
    s: TaskStoreView,
    id: Seq<char>,
    i: int,
    reason: Seq<char>,
    timestamp: Seq<char>,
)
    requires
        stands_at(s.tasks, id, i),
    ensures
        s.fail(id, reason, timestamp) is Ok <==> under_way_in(s.config, s.tasks[i]),
        s.fail(id, reason, timestamp) matches Ok((after, _)) ==> {
            let t = s.tasks[i];
            let u = after.tasks[i];
            &&& differs_at(s, after, i)
            &&& u.state == "failed"@
            &&& tells_of_the_move(t, u, timestamp, reason)
            &&& u == TaskView { state: u.state, history: u.history, locked_at: None, ..t }
        },
{
    law_first_task_is_found(s.tasks, id, i);
    lemma_state_names();
}

/// A task is blocked wherever it is under way and not blocked. It remembers the phase in which it
/// was, and why.
pub proof fn law_blocked_task_says_why(
    s: TaskStoreView,
    id: Seq<char>,
    i: int,
    reason: Seq<char>,
    timestamp: Seq<char>,
)
    requires
        stands_at(s.tasks, id, i),
    ensures
        s.block(id, reason, timestamp) is Ok <==> under_way_in(s.config, s.tasks[i])
            && s.tasks[i].state != "blocked"@,
        s.block(id, reason, timestamp) matches Ok((after, _)) ==> {
            let t = s.tasks[i];
            let u = after.tasks[i];
            &&& differs_at(s, after, i)
            &&& u.state == "blocked"@
            &&& u.blocked_at_phase == Some(t.state)
            &&& u.blocked_reason == Some(reason)
            &&& tells_of_the_move(t, u, timestamp, reason)
            &&& u == TaskView {
                state: u.state,
                history: u.history,
                blocked_at_phase: u.blocked_at_phase,
                blocked_reason: u.blocked_reason,
                locked_at: None,
                ..t
            }
        },
{
    law_first_task_is_found(s.tasks, id, i);
    lemma_state_names();
}

/// A blocked task goes back to the phase in which it was blocked.
pub proof fn law_unblocked_task_goes_back(
    s: TaskStoreView,
    id: Seq<char>,
    i: int,
    timestamp: Seq<char>,
)
    requires
        stands_at(s.tasks, id, i),
    ensures
        s.unblock(id, timestamp) is Ok <==> s.tasks[i].state == "blocked"@
            && s.tasks[i].blocked_at_phase is Some,
        s.unblock(id, timestamp) matches Ok((after, _)) ==> {
            let t = s.tasks[i];
            let u = after.tasks[i];
            &&& differs_at(s, after, i)
            &&& Some(u.state) == t.blocked_at_phase
            &&& u.blocked_at_phase is None
            &&& u.blocked_reason is None
            &&& tells_of_the_move(t, u, timestamp, "unblocked"@)
            &&& u == TaskView {
                state: u.state,
                history: u.history,
                blocked_at_phase: None,
                blocked_reason: None,
                ..t
            }
        },
{
    law_first_task_is_found(s.tasks, id, i);
}

/// A task that was given up, and no other, can be closed. It is then in the phase given, and its
/// history says why.
pub proof fn law_closed_task_is_done(
    s: TaskStoreView,
    id: Seq<char>,
    i: int,
    reason: Seq<char>,
    terminal: Seq<char>,
    timestamp: Seq<char>,
)
    requires
        stands_at(s.tasks, id, i),
    ensures
        s.close(id, reason, terminal, timestamp) is Ok <==> s.tasks[i].state == "failed"@,
        s.close(id, reason, terminal, timestamp) matches Ok((after, _)) ==> {
            let t = s.tasks[i];
            let u = after.tasks[i];
            &&& differs_at(s, after, i)
            &&& u.state == terminal
            &&& tells_of_the_move(t, u, timestamp, "closed: "@ + reason)
            &&& u == TaskView { state: u.state, history: u.history, locked_at: None, ..t }
        },
{
    law_first_task_is_found(s.tasks, id, i);
}

/// A task says what it was told to say, and goes on saying what it was not told to change. Tasks
/// that are done or given up are not told anything.
pub proof fn law_updated_task_says_what_it_is_told(
    s: TaskStoreView,
    id: Seq<char>,
    i: int,
    title: Option<Seq<char>>,
    description: Option<Seq<char>>,
    depends_on: Option<Seq<Seq<char>>>,
    acceptance_criteria: Option<Option<Seq<char>>>,
)
    requires
        stands_at(s.tasks, id, i),
    ensures
        s.update(id, title, description, depends_on, acceptance_criteria) matches Ok((after, _)) ==> {
            let t = s.tasks[i];
            let u = after.tasks[i];
            &&& differs_at(s, after, i)
            &&& t.state != "failed"@
            &&& t.state != s.config.sequence(t.workflow).last()
            &&& u.title == if title is Some { title->0 } else { t.title }
            &&& u.description == if description is Some { description->0 } else { t.description }
            &&& u.dependencies == if depends_on is Some { depends_on->0 } else { t.dependencies }
            &&& u.acceptance_criteria == if acceptance_criteria is Some {
                acceptance_criteria->0
            } else {
                t.acceptance_criteria
            }
            &&& u == TaskView {
                title: u.title,
                description: u.description,
                dependencies: u.dependencies,
                acceptance_criteria: u.acceptance_criteria,
                ..t
            }
            &&& depends_on is Some ==> forall|k: int|
                0 <= k < depends_on->0.len() ==> find_task(
                    s.tasks,
                    #[trigger] depends_on->0[k],
                ) is Some
        },
        s.config.sequence(s.tasks[i].workflow).len() > 0 && s.tasks[i].state != "failed"@
            && s.tasks[i].state != s.config.sequence(s.tasks[i].workflow).last() && depends_on is None
            ==> s.update(id, title, description, depends_on, acceptance_criteria) is Ok,
{
    law_first_task_is_found(s.tasks, id, i);
    if depends_on is Some && missing_dependency(s.tasks, depends_on->0, 0) is None {
        lemma_all_there(s.tasks, depends_on->0, 0);
    }
}

proof fn lemma_all_there(tasks: Seq<TaskView>, deps: Seq<Seq<char>>, j: int)
    requires
        0 <= j <= deps.len(),
        missing_dependency(tasks, deps, j) is None,
    ensures
        forall|k: int| j <= k < deps.len() ==> find_task(tasks, #[trigger] deps[k]) is Some,
    decreases deps.len() - j,
{
    if j < deps.len() {
        lemma_all_there(tasks, deps, j + 1);
    }
}

/// A task is tried again wherever it is under way, and only there. The first time it goes back by
/// one phase, later to the first phase after the initial one; it never goes back to the initial
/// one. The attempt is counted.
pub proof fn law_retried_task_goes_back(
    s: TaskStoreView,
    id: Seq<char>,
    i: int,
    reason: Seq<char>,
    timestamp: Seq<char>,
)
    requires
        stands_at(s.tasks, id, i),
        s.tasks[i].retry_count < u32::MAX,
    ensures
        s.retry(id, reason, timestamp) is Ok <==> under_way_in(s.config, s.tasks[i]),
        s.retry(id, reason, timestamp) matches Ok((after, counts)) ==> {
            let t = s.tasks[i];
            let u = after.tasks[i];
            let steps = s.config.sequence(t.workflow);
            let from = steps.index_of_first(t.state)->0;
            &&& differs_at(s, after, i)
            &&& u.retry_count == t.retry_count + 1
            &&& counts == (u.retry_count, t.max_retries)
            &&& t.retry_count == 0 && from >= 2 ==> u.state == steps[from - 1]
            &&& t.retry_count == 0 && from < 2 ==> u.state == steps[1]
            &&& t.retry_count > 0 ==> u.state == steps[1]
            &&& tells_of_the_move(
                t,
                u,
                timestamp,
                "retry "@ + decimal(u.retry_count as nat) + "/"@ + decimal(t.max_retries as nat)
                    + ": "@ + reason,
            )
            &&& u == TaskView {
                state: u.state,
                history: u.history,
                retry_count: u.retry_count,
                locked_at: None,
                ..t
            }
        },
{
    law_first_task_is_found(s.tasks, id, i);
    let t = s.tasks[i];
    let steps = s.config.sequence(t.workflow);
    law_position_is_the_first(steps, t.state);
    lemma_position(steps, t.state);
}

/// Locking a task notes the time; unlocking it takes the time away; nothing else changes.
pub proof fn law_lock_notes_the_time(s: TaskStoreView, id: Seq<char>, i: int, at: Option<Seq<char>>)
    requires
        stands_at(s.tasks, id, i),
    ensures
        s.set_lock(id, at) is Ok,
        ({
            let after = s.set_lock(id, at)->Ok_0.0;
            &&& differs_at(s, after, i)
            &&& after.tasks[i] == TaskView { locked_at: at, ..s.tasks[i] }
        }),
{
    law_first_task_is_found(s.tasks, id, i);
}

/// A task can be removed wherever it is in the first phase of its workflow and no other task
/// depends on it, and only there.
pub proof fn law_removable_task(s: TaskStoreView, id: Seq<char>, i: int)
    requires
        stands_at(s.tasks, id, i),
    ensures
        s.remove(id) is Ok <==> {
            &&& s.config.sequence(s.tasks[i].workflow).len() > 0
            &&& s.tasks[i].state == s.config.sequence(s.tasks[i].workflow)[0]
            &&& forall|j: int|
                0 <= j < s.tasks.len() && (#[trigger] s.tasks[j]).id != id
                    ==> !s.tasks[j].dependencies.contains(id)
        },
        s.remove(id) matches Ok((after, _)) ==> after.config == s.config && after.tasks
            == s.tasks.filter(|t: TaskView| t.id != id),
{
    law_first_task_is_found(s.tasks, id, i);
    let others = |t: TaskView| t.id != id;
    assert(id_is_not(id) =~= others);
    law_keeping_is_filtering(s.tasks, others);
    lemma_first_where(s.tasks, depends_on_id(id));
    if s.remove(id) is Ok {
        assert forall|j: int| 0 <= j < s.tasks.len() && (#[trigger] s.tasks[j]).id != id implies !s.tasks[j].dependencies.contains(
            id,
        ) by {
            assert(!depends_on_id(id)(s.tasks[j]));
        }
    }
}

/// A change of a task that is not there is refused, and the refusal says so.
pub proof fn law_missing_task_is_not_found(
    s: TaskStoreView,
    id: Seq<char>,
    reason: Seq<char>,
    timestamp: Seq<char>,
    outcome: TaskPhaseView,
)
    requires
        forall|i: int| 0 <= i < s.tasks.len() ==> (#[trigger] s.tasks[i]).id != id,
    ensures
        s.record(id, outcome) matches Err(StoreErrorView::NotFound),
        s.advance(id, timestamp) matches Err(StoreErrorView::NotFound),
        s.complete(id, outcome, timestamp) matches Err(StoreErrorView::NotFound),
        s.fail(id, reason, timestamp) matches Err(StoreErrorView::NotFound),
        s.block(id, reason, timestamp) matches Err(StoreErrorView::NotFound),
        s.unblock(id, timestamp) matches Err(StoreErrorView::NotFound),
        s.close(id, reason, reason, timestamp) matches Err(StoreErrorView::NotFound),
        s.retry(id, reason, timestamp) matches Err(StoreErrorView::NotFound),
        s.set_lock(id, None) matches Err(StoreErrorView::NotFound),
        s.remove(id) matches Err(StoreErrorView::NotFound),
{
    lemma_task_index(s.tasks, id);
    if task_index(s.tasks, id) is Some {
        assert(s.tasks[task_index(s.tasks, id)->0].id != id);
    }
}

} // verus!
