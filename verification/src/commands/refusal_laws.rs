//! Why a command on tasks is refused, and what is said where it is not.

use vstd::prelude::*;

use crate::commands::add::{has_title, task_added, AddErrorView};
use crate::commands::block::{block, BlockErrorView};
use crate::commands::close::{close, CloseErrorView};
use crate::commands::fail::{fail, FailErrorView};
use crate::commands::lock::{lock, LockErrorView};
use crate::commands::remove::{remove, RemoveErrorView};
use crate::commands::report::ProjectFilesView;
use crate::commands::task_command_laws::finds;
use crate::commands::todo::{todo, GitSeenView, TodoErrorView};
use crate::commands::unblock::{unblock, UnblockErrorView};
use crate::commands::unlock::{unlock, UnlockErrorView};
use crate::commands::update::{update, UpdateErrorView, UpdateInputView};
use crate::engine::change_laws::{law_first_task_is_found, stands_at};
use crate::engine::config::ConfigView;
use crate::engine::project::ProjectView;
use crate::engine::tasks::{
    lemma_task_index, missing_dependency, task_index, TaskStoreView, TaskView,
};
use crate::text::{blank, first_where, lemma_first_where, lowercase, path_join};
use crate::time::Instant;

verus! {

/// No task has an id.
pub open spec fn nowhere(tasks: Seq<TaskView>, id: Seq<char>) -> bool {
    forall|j: int| 0 <= j < tasks.len() ==> (#[trigger] tasks[j]).id != id
}

/// Without a reason a command that needs one says that it is missing, and for a reason that says
/// nothing that it is empty.
pub proof fn law_reason_is_asked_for(
    project: ProjectView,
    files: ProjectFilesView,
    id: Seq<char>,
    reason: Seq<char>,
    now: Instant,
)
    requires
        blank(reason),
    ensures
        block(project, files, id, None, now).1 == Err::<(), BlockErrorView>(
            BlockErrorView::MissingReason,
        ),
        block(project, files, id, Some(reason), now).1 == Err::<(), BlockErrorView>(
            BlockErrorView::EmptyReason,
        ),
        close(project, files, id, None, now).1 == Err::<(), CloseErrorView>(
            CloseErrorView::MissingReason,
        ),
        close(project, files, id, Some(reason), now).1 == Err::<(), CloseErrorView>(
            CloseErrorView::EmptyReason,
        ),
        fail(project, files, id, None, now).1 == Err::<(), FailErrorView>(
            FailErrorView::MissingReason,
        ),
        fail(project, files, id, Some(reason), now).1 == Err::<(), FailErrorView>(
            FailErrorView::EmptyReason,
        ),
{
}

/// A command on a task that is not there says so and changes nothing.
pub proof fn law_unknown_task_is_told(
    project: ProjectView,
    files: ProjectFilesView,
    git: GitSeenView,
    config: ConfigView,
    s: TaskStoreView,
    id: Seq<char>,
    reason: Seq<char>,
    from_phase: Option<Seq<char>>,
    title: Seq<char>,
    now: Instant,
)
    requires
        finds(project, files, config, s),
        nowhere(s.tasks, id),
        !blank(reason),
    ensures
        block(project, files, id, Some(reason), now).1 == Err::<(), BlockErrorView>(
            BlockErrorView::TaskNotFound { id },
        ),
        unblock(project, files, id, now).1 == Err::<(), UnblockErrorView>(
            UnblockErrorView::TaskNotFound { id },
        ),
        close(project, files, id, Some(reason), now).1 == Err::<(), CloseErrorView>(
            CloseErrorView::TaskNotFound { id },
        ),
        fail(project, files, id, Some(reason), now).1 == Err::<(), FailErrorView>(
            FailErrorView::TaskNotFound { id },
        ),
        lock(project, files, id, now).1 == Err::<(), LockErrorView>(
            LockErrorView::TaskNotFound { id },
        ),
        unlock(project, files, id).1 == Err::<(), UnlockErrorView>(
            UnlockErrorView::TaskNotFound { id },
        ),
        remove(project, files, id).1 == Err::<(), RemoveErrorView>(
            RemoveErrorView::TaskNotFound { id },
        ),
        update(
            project,
            files,
            id,
            UpdateInputView {
                title: Some(title),
                description: None,
                depends_on: None,
                acceptance_criteria: None,
            },
        ).1 == Err::<(), UpdateErrorView>(UpdateErrorView::TaskNotFound { id }),
        todo(project, files, git, Some(reason), Some(id), from_phase, now).1 == Err::<
            (),
            TodoErrorView,
        >(TodoErrorView::TaskNotFound { id }),
{
    lemma_task_index(s.tasks, id);
    if task_index(s.tasks, id) is Some {
        assert(s.tasks[task_index(s.tasks, id)->0].id != id);
    }
}

/// A command on a task that is not in a state for it says which state it is in.
pub proof fn law_wrong_state_is_told(
    project: ProjectView,
    files: ProjectFilesView,
    git: GitSeenView,
    config: ConfigView,
    s: TaskStoreView,
    id: Seq<char>,
    i: int,
    reason: Seq<char>,
    from_phase: Seq<char>,
    now: Instant,
)
    requires
        finds(project, files, config, s),
        stands_at(s.tasks, id, i),
        !blank(reason),
    ensures
        ({
            let state = s.tasks[i].state;
            let usual = config.sequence(config.default_workflow);
            let resting = state == "failed"@ || state == "blocked"@ || state == usual.last();
            &&& resting ==> block(project, files, id, Some(reason), now).1 == Err::<
                (),
                BlockErrorView,
            >(BlockErrorView::AlreadyTerminal { id, state })
            &&& state != "blocked"@ ==> unblock(project, files, id, now).1 == Err::<
                (),
                UnblockErrorView,
            >(UnblockErrorView::NotBlocked { id })
            &&& state != "failed"@ ==> close(project, files, id, Some(reason), now).1 == Err::<
                (),
                CloseErrorView,
            >(CloseErrorView::NotFailed { id })
            &&& state == "failed"@ ==> fail(project, files, id, Some(reason), now).1 == Err::<
                (),
                FailErrorView,
            >(FailErrorView::AlreadyFailed { id })
            &&& state != "failed"@ && state == usual.last() ==> fail(
                project,
                files,
                id,
                Some(reason),
                now,
            ).1 == Err::<(), FailErrorView>(FailErrorView::AlreadyTerminal { id, state })
            &&& state != usual[0] ==> remove(project, files, id).1 == Err::<(), RemoveErrorView>(
                RemoveErrorView::NotPending { id, state },
            )
            &&& resting ==> todo(project, files, git, Some(reason), Some(id), None, now).1 == Err::<
                (),
                TodoErrorView,
            >(TodoErrorView::NotAdvanceable { id, state })
            &&& !resting && state != from_phase ==> todo(
                project,
                files,
                git,
                Some(reason),
                Some(id),
                Some(from_phase),
                now,
            ).1 == Err::<(), TodoErrorView>(
                TodoErrorView::AlreadyAdvancedPast { id, phase: from_phase },
            )
        }),
{
    law_first_task_is_found(s.tasks, id, i);
}

/// A task on which another one depends is not removed, and the first one that does is named.
pub proof fn law_dependent_is_named(
    project: ProjectView,
    files: ProjectFilesView,
    config: ConfigView,
    s: TaskStoreView,
    id: Seq<char>,
    i: int,
    d: int,
)
    requires
        finds(project, files, config, s),
        stands_at(s.tasks, id, i),
        s.tasks[i].state == config.sequence(config.default_workflow)[0],
        0 <= d < s.tasks.len(),
        s.tasks[d].id != id,
        s.tasks[d].dependencies.contains(id),
        forall|j: int|
            0 <= j < d ==> (#[trigger] s.tasks[j]).id == id || !s.tasks[j].dependencies.contains(id),
    ensures
        remove(project, files, id).1 == Err::<(), RemoveErrorView>(
            RemoveErrorView::HasDependents { id, dependent_id: s.tasks[d].id },
        ),
{
    law_first_task_is_found(s.tasks, id, i);
    let p = crate::commands::remove::waits_for(id);
    lemma_first_where(s.tasks, p);
    assert(p(s.tasks[d]));
    let f = first_where(s.tasks, p)->0;
    if f < d {
        assert(p(s.tasks[f]));
        assert(s.tasks[f].id == id || !s.tasks[f].dependencies.contains(id));
    }
}

/// A task that is done or was given up is not told anything; neither is one told to depend on a task
/// that is not there, and the first such is named.
pub proof fn law_refused_update_is_told(
    project: ProjectView,
    files: ProjectFilesView,
    config: ConfigView,
    s: TaskStoreView,
    id: Seq<char>,
    i: int,
    title: Seq<char>,
    deps: Seq<Seq<char>>,
    k: int,
)
    requires
        finds(project, files, config, s),
        stands_at(s.tasks, id, i),
        s.config.sequence(s.tasks[i].workflow).len() > 0,
    ensures
        ({
            let t = s.tasks[i];
            let over = t.state == "failed"@ || t.state == s.config.sequence(t.workflow).last();
            let titled = UpdateInputView {
                title: Some(title),
                description: None,
                depends_on: None,
                acceptance_criteria: None,
            };
            let depending = UpdateInputView {
                title: None,
                description: None,
                depends_on: Some(deps),
                acceptance_criteria: None,
            };
            let nothing = UpdateInputView {
                title: None,
                description: None,
                depends_on: None,
                acceptance_criteria: None,
            };
            &&& update(project, files, id, nothing).1 == Err::<(), UpdateErrorView>(
                UpdateErrorView::NoFields,
            )
            &&& over ==> update(project, files, id, titled).1 == Err::<(), UpdateErrorView>(
                UpdateErrorView::CannotUpdate { id, state: t.state },
            )
            &&& !over && 0 <= k < deps.len() && nowhere(s.tasks, deps[k]) && (forall|j: int|
                0 <= j < k ==> !nowhere(s.tasks, #[trigger] deps[j])) ==> update(
                project,
                files,
                id,
                depending,
            ).1 == Err::<(), UpdateErrorView>(UpdateErrorView::UnknownDependency { id: deps[k] })
            &&& !over ==> update(project, files, id, titled).0.output == seq![id + " updated"@]
        }),
{
    law_first_task_is_found(s.tasks, id, i);
    if 0 <= k < deps.len() && nowhere(s.tasks, deps[k]) && (forall|j: int|
        0 <= j < k ==> !nowhere(s.tasks, #[trigger] deps[j])) {
        lemma_first_missing(s.tasks, deps, 0, k);
    }
}

proof fn lemma_first_missing(tasks: Seq<TaskView>, deps: Seq<Seq<char>>, j: int, k: int)
    requires
        0 <= j <= k < deps.len(),
        nowhere(tasks, deps[k]),
        forall|m: int| j <= m < k ==> !nowhere(tasks, #[trigger] deps[m]),
    ensures
        missing_dependency(tasks, deps, j) == Some(deps[k]),
    decreases k - j,
{
    lemma_task_index(tasks, deps[j]);
    if j < k {
        assert(!nowhere(tasks, deps[j]));
        let m = choose|m: int| 0 <= m < tasks.len() && (#[trigger] tasks[m]).id == deps[j];
        assert(task_index(tasks, deps[j]) is Some);
        lemma_first_missing(tasks, deps, j + 1, k);
    } else if task_index(tasks, deps[j]) is Some {
        assert(tasks[task_index(tasks, deps[j])->0].id != deps[j]);
    }
}

/// Why a task is not added: an open task has its title, its workflow or its phase is not known, or a
/// task that it depends on is not there.
pub proof fn law_refused_task_is_told(
    project: ProjectView,
    files: ProjectFilesView,
    config: ConfigView,
    s: TaskStoreView,
    title: Seq<char>,
    description: Option<Seq<char>>,
    deps: Seq<Seq<char>>,
    phase: Option<Seq<char>>,
    workflow: Option<Seq<char>>,
    runner: Option<Seq<char>>,
    now: Instant,
    i: int,
    k: int,
)
    requires
        finds(project, files, config, s),
        s.config == config,
    ensures
        ({
            let (r, result) = task_added(
                project,
                files,
                None,
                title,
                description,
                deps,
                phase,
                workflow,
                runner,
                now,
            );
            let end = config.sequence(config.default_workflow).last();
            let alike = |t: TaskView| t.state != end && lowercase(t.title) == lowercase(title);
            let steps = if workflow is Some {
                config.sequence(workflow->0)
            } else {
                config.sequence(config.default_workflow)
            };
            let free = forall|j: int| 0 <= j < s.tasks.len() ==> !alike(#[trigger] s.tasks[j]);
            let there = forall|j: int| 0 <= j < deps.len() ==> !nowhere(s.tasks, #[trigger] deps[j]);
            &&& 0 <= i < s.tasks.len() && alike(s.tasks[i]) && (forall|j: int|
                0 <= j < i ==> !alike(#[trigger] s.tasks[j])) ==> result == Err::<(), AddErrorView>(
                AddErrorView::DuplicateTitle { id: s.tasks[i].id, title: s.tasks[i].title },
            )
            &&& free && workflow is Some && steps.len() == 0 ==> result is Err && result->Err_0
                is UnknownWorkflow && result->Err_0->UnknownWorkflow_name == workflow->0
            &&& free && steps.len() > 0 && 0 <= k < deps.len() && nowhere(s.tasks, deps[k]) && (
            forall|j: int| 0 <= j < k ==> !nowhere(s.tasks, #[trigger] deps[j])) ==> result == Err::<
                (),
                AddErrorView,
            >(AddErrorView::UnknownDependency { id: deps[k] })
            &&& free && steps.len() > 0 && there && phase is Some && !steps.contains(phase->0)
                ==> result == Err::<(), AddErrorView>(
                AddErrorView::UnknownPhase { phase: phase->0 },
            )
            &&& result is Ok ==> r.report.output == seq![
                "added "@ + r.report.tasks->0.last().id + ": "@ + title,
            ]
        }),
{
    let end = config.sequence(config.default_workflow).last();
    let p = has_title(title, config.terminal());
    lemma_first_where(s.tasks, p);
    let alike = |t: TaskView| t.state != end && lowercase(t.title) == lowercase(title);
    assert(p =~= alike);
    if first_where(s.tasks, p) is Some {
        let f = first_where(s.tasks, p)->0;
        assert(alike(s.tasks[f]));
        if 0 <= i < s.tasks.len() && f < i {
            assert(alike(s.tasks[f]));
        }
    } else if 0 <= i < s.tasks.len() {
        assert(!p(s.tasks[i]));
    }
    if 0 <= k < deps.len() && nowhere(s.tasks, deps[k]) && (forall|j: int|
        0 <= j < k ==> !nowhere(s.tasks, #[trigger] deps[j])) {
        lemma_first_missing(s.tasks, deps, 0, k);
    }
    if forall|j: int| 0 <= j < deps.len() ==> !nowhere(s.tasks, #[trigger] deps[j]) {
        lemma_nothing_is_missing(s.tasks, deps, 0);
    }
}

proof fn lemma_nothing_is_missing(tasks: Seq<TaskView>, deps: Seq<Seq<char>>, j: int)
    requires
        0 <= j <= deps.len(),
        forall|m: int| j <= m < deps.len() ==> !nowhere(tasks, #[trigger] deps[m]),
    ensures
        missing_dependency(tasks, deps, j) is None,
    decreases deps.len() - j,
{
    if j < deps.len() {
        assert(!nowhere(tasks, deps[j]));
        lemma_task_index(tasks, deps[j]);
        let m = choose|m: int| 0 <= m < tasks.len() && (#[trigger] tasks[m]).id == deps[j];
        assert(task_index(tasks, deps[j]) is Some);
        lemma_nothing_is_missing(tasks, deps, j + 1);
    }
}

/// A change that is made is said, with the task and the reason.
pub proof fn law_change_is_said(
    project: ProjectView,
    files: ProjectFilesView,
    config: ConfigView,
    s: TaskStoreView,
    id: Seq<char>,
    i: int,
    reason: Seq<char>,
    now: Instant,
)
    requires
        finds(project, files, config, s),
        stands_at(s.tasks, id, i),
        !blank(reason),
    ensures
        ({
            let blocked = block(project, files, id, Some(reason), now);
            let closed = close(project, files, id, Some(reason), now);
            let removed = remove(project, files, id);
            &&& blocked.1 is Ok ==> blocked.0.output == seq![id + " blocked: "@ + reason]
            &&& closed.1 is Ok ==> closed.0.output == seq![id + " closed: "@ + reason]
            &&& removed.1 is Ok ==> removed.0.output == seq![id + " removed"@]
            &&& lock(project, files, id, now).0.output == seq![id + " locked"@]
            &&& unlock(project, files, id).0.output == seq![id + " unlocked"@]
        }),
{
    law_first_task_is_found(s.tasks, id, i);
}

/// A project whose configuration is missing, cannot be read or cannot be used is told so, with the
/// file, and nothing is changed.
pub proof fn law_missing_configuration_is_told(
    project: ProjectView,
    files: ProjectFilesView,
    git: GitSeenView,
    id: Seq<char>,
    reason: Seq<char>,
    now: Instant,
)
    requires
        files.config is Missing,
        !blank(reason),
    ensures
        ({
            let path = path_join(project.state_dir, "config.json"@);
            &&& block(project, files, id, Some(reason), now).1 == Err::<(), BlockErrorView>(
                BlockErrorView::ConfigNotFound { path },
            )
            &&& unblock(project, files, id, now).1 == Err::<(), UnblockErrorView>(
                UnblockErrorView::ConfigNotFound { path },
            )
            &&& close(project, files, id, Some(reason), now).1 == Err::<(), CloseErrorView>(
                CloseErrorView::ConfigNotFound { path },
            )
            &&& fail(project, files, id, Some(reason), now).1 == Err::<(), FailErrorView>(
                FailErrorView::ConfigNotFound { path },
            )
            &&& remove(project, files, id).1 == Err::<(), RemoveErrorView>(
                RemoveErrorView::ConfigNotFound { path },
            )
            &&& todo(project, files, git, Some(reason), Some(id), None, now).1 is Err
            &&& block(project, files, id, Some(reason), now).0.tasks is None
            &&& unblock(project, files, id, now).0.tasks is None
            &&& close(project, files, id, Some(reason), now).0.tasks is None
            &&& fail(project, files, id, Some(reason), now).0.report.tasks is None
            &&& remove(project, files, id).0.tasks is None
        }),
{
}

} // verus!
