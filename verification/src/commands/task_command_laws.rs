//! What the commands on tasks do.

use vstd::prelude::*;

use crate::commands::add::{has_title, task_added};
use crate::commands::block::block;
use crate::commands::close::close;
use crate::commands::fail::fail;
use crate::commands::lock::lock;
use crate::commands::remove::{remove, waits_for};
use crate::commands::report::{project_config, HookRunView, ProjectFilesView, ReportView};
use crate::commands::unblock::unblock;
use crate::commands::unlock::unlock;
use crate::commands::update::{update, UpdateInputView};
use crate::engine::change_laws::{
    differs_at, law_blocked_task_says_why, law_closed_task_is_done, law_first_task_is_found,
    law_lock_notes_the_time, law_removable_task, law_unblocked_task_goes_back, stands_at,
};
use crate::engine::config::{ConfigErrorView, ConfigView};
use crate::engine::file_lock::FileLockErrorView;
use crate::engine::hooks::{law_commands_of_an_event_are_run, HookEntryView};
use crate::engine::project::ProjectView;
use crate::engine::task_laws::lemma_state_names;
use crate::engine::tasks::{find_task, opened, StoreErrorView, TaskStoreView, TaskView};
use crate::text::{blank, decimal, first_where, join, lemma_first_where, lowercase};
use crate::time::{rfc3339_text, Instant};

verus! {

/// What a command finds in a project: its configuration and its tasks.
pub open spec fn finds(
    project: ProjectView,
    files: ProjectFilesView,
    config: ConfigView,
    s: TaskStoreView,
) -> bool {
    &&& project_config(project, files.config) == Ok::<ConfigView, ConfigErrorView>(config)
    &&& opened(project.state_dir, files.tasks, config) == Ok::<TaskStoreView, StoreErrorView>(s)
    &&& config.sequence(config.default_workflow).len() > 0
}

/// Nothing was changed: no commands are run, nothing is said, and the tasks are written only where
/// they were read in an older form.
pub open spec fn left_alone(report: ReportView, s: TaskStoreView) -> bool {
    &&& report.tasks == if s.migrated {
        Some(s.tasks)
    } else {
        None
    }
    &&& report.hooks.len() == 0
    &&& report.output.len() == 0
}

/// The commands for an event are run and are told of a task, where it came from and where it went.
pub open spec fn told_of(
    run: HookRunView,
    project: ProjectView,
    event: Seq<char>,
    t: TaskView,
    from: Seq<char>,
    to: Seq<char>,
    artifact: Seq<char>,
) -> bool {
    &&& run.event == event
    &&& run.hooks == project.global_hooks.hooks.filter(
        |h: HookEntryView| h.on == event || h.on == "*"@,
    ) + project.project_hooks.hooks.filter(|h: HookEntryView| h.on == event || h.on == "*"@)
    &&& run.context.task_id == t.id
    &&& run.context.task_title == t.title
    &&& run.context.task_description == t.description
    &&& run.context.task_state == t.state
    &&& run.context.task_created_at == t.created_at
    &&& run.context.task_dependencies == join(t.dependencies, ","@)
    &&& run.context.task_retry_count == decimal(t.retry_count as nat)
    &&& run.context.task_max_retries == decimal(t.max_retries as nat)
    &&& run.context.project_slug == project.slug
    &&& run.context.project_path == project.git_root
    &&& run.context.state_dir == project.state_dir
    &&& run.context.from_phase == from
    &&& run.context.to_phase == to
    &&& run.context.artifact == artifact
}

/// Blocking a task, with a reason that says something, does what is done to a task that is under
/// way; the commands for it are told the phase in which it was and the reason. Otherwise nothing is
/// changed.
pub proof fn law_block_command(
    project: ProjectView,
    files: ProjectFilesView,
    config: ConfigView,
    s: TaskStoreView,
    id: Seq<char>,
    i: int,
    reason: Seq<char>,
    now: Instant,
)
    requires
        finds(project, files, config, s),
        stands_at(s.tasks, id, i),
        !blank(reason),
    ensures
        ({
            let (report, result) = block(project, files, id, Some(reason), now);
            let t = s.tasks[i];
            let after = s.block(id, reason, rfc3339_text(now));
            let usual = config.sequence(config.default_workflow);
            &&& result is Ok <==> after is Ok && t.state != usual.last()
            &&& result is Ok ==> {
                &&& report.tasks == Some(after->Ok_0.0.tasks)
                &&& report.hooks.len() == 1
                &&& told_of(
                    report.hooks[0],
                    project,
                    "blocked"@,
                    after->Ok_0.0.tasks[i],
                    t.state,
                    "blocked"@,
                    reason,
                )
            }
            &&& result is Err ==> left_alone(report, s)
        }),
{
    law_first_task_is_found(s.tasks, id, i);
    law_blocked_task_says_why(s, id, i, reason, rfc3339_text(now));
    law_commands_of_an_event_are_run(project.global_hooks, project.project_hooks, "blocked"@);
    lemma_state_names();
    let after = s.block(id, reason, rfc3339_text(now));
    if after is Ok {
        lemma_stays_there(s, after->Ok_0.0, id, i);
    }
}

proof fn lemma_stays_there(s: TaskStoreView, after: TaskStoreView, id: Seq<char>, i: int)
    requires
        stands_at(s.tasks, id, i),
        differs_at(s, after, i),
        after.tasks[i].id == id,
    ensures
        stands_at(after.tasks, id, i),
        find_task(after.tasks, id) == Some(after.tasks[i]),
{
    assert forall|j: int| 0 <= j < i implies (#[trigger] after.tasks[j]).id != id by {
        assert(after.tasks[j] == s.tasks[j]);
    }
    law_first_task_is_found(after.tasks, id, i);
}

/// Without a reason, or with one that says nothing, a task is not blocked, closed or made to fail.
pub proof fn law_reason_is_needed(
    project: ProjectView,
    files: ProjectFilesView,
    id: Seq<char>,
    reason: Option<Seq<char>>,
    now: Instant,
)
    requires
        reason matches Some(text) ==> blank(text),
    ensures
        block(project, files, id, reason, now).1 is Err,
        block(project, files, id, reason, now).0.tasks is None,
        close(project, files, id, reason, now).1 is Err,
        close(project, files, id, reason, now).0.tasks is None,
        fail(project, files, id, reason, now).1 is Err,
        fail(project, files, id, reason, now).0.report.tasks is None,
        fail(project, files, id, reason, now).0.along is None,
{
}

/// Unblocking a task sends it back to the phase in which it was blocked, and says which.
pub proof fn law_unblock_command(
    project: ProjectView,
    files: ProjectFilesView,
    config: ConfigView,
    s: TaskStoreView,
    id: Seq<char>,
    i: int,
    now: Instant,
)
    requires
        finds(project, files, config, s),
        stands_at(s.tasks, id, i),
    ensures
        ({
            let (report, result) = unblock(project, files, id, now);
            let after = s.unblock(id, rfc3339_text(now));
            &&& result is Ok <==> after is Ok
            &&& result is Ok ==> {
                &&& report.tasks == Some(after->Ok_0.0.tasks)
                &&& report.hooks.len() == 0
                &&& report.output == seq![
                    id + " unblocked: "@ + after->Ok_0.0.tasks[i].state,
                ]
            }
            &&& result is Err ==> left_alone(report, s)
        }),
{
    law_first_task_is_found(s.tasks, id, i);
    law_unblocked_task_goes_back(s, id, i, rfc3339_text(now));
}

/// Closing a task that was given up puts it in the phase in which tasks end, and the commands for
/// that phase are run.
pub proof fn law_close_command(
    project: ProjectView,
    files: ProjectFilesView,
    config: ConfigView,
    s: TaskStoreView,
    id: Seq<char>,
    i: int,
    reason: Seq<char>,
    now: Instant,
)
    requires
        finds(project, files, config, s),
        stands_at(s.tasks, id, i),
        !blank(reason),
    ensures
        ({
            let (report, result) = close(project, files, id, Some(reason), now);
            let end = config.sequence(config.default_workflow).last();
            let after = s.close(id, reason, end, rfc3339_text(now));
            &&& result is Ok <==> s.tasks[i].state == "failed"@
            &&& result is Ok ==> {
                &&& report.tasks == Some(after->Ok_0.0.tasks)
                &&& after->Ok_0.0.tasks[i].state == end
                &&& report.hooks.len() == 1
                &&& told_of(
                    report.hooks[0],
                    project,
                    end,
                    after->Ok_0.0.tasks[i],
                    "failed"@,
                    end,
                    reason,
                )
            }
            &&& result is Err ==> left_alone(report, s)
        }),
{
    let end = config.sequence(config.default_workflow).last();
    law_first_task_is_found(s.tasks, id, i);
    law_closed_task_is_done(s, id, i, reason, end, rfc3339_text(now));
    law_commands_of_an_event_are_run(project.global_hooks, project.project_hooks, end);
    let after = s.close(id, reason, end, rfc3339_text(now));
    if after is Ok {
        lemma_stays_there(s, after->Ok_0.0, id, i);
    }
}

/// Locking a task notes the present time on it, and unlocking it takes the time away.
pub proof fn law_lock_commands(
    project: ProjectView,
    files: ProjectFilesView,
    config: ConfigView,
    s: TaskStoreView,
    id: Seq<char>,
    i: int,
    now: Instant,
)
    requires
        finds(project, files, config, s),
        stands_at(s.tasks, id, i),
    ensures
        lock(project, files, id, now).1 is Ok,
        lock(project, files, id, now).0.tasks == Some(
            s.set_lock(id, Some(rfc3339_text(now)))->Ok_0.0.tasks,
        ),
        lock(project, files, id, now).0.hooks.len() == 0,
        unlock(project, files, id).1 is Ok,
        unlock(project, files, id).0.tasks == Some(s.set_lock(id, None)->Ok_0.0.tasks),
        unlock(project, files, id).0.hooks.len() == 0,
{
    law_lock_notes_the_time(s, id, i, None);
    law_lock_notes_the_time(s, id, i, Some(rfc3339_text(now)));
}

/// Changing what a task says changes just what was asked for, and something must be asked for.
pub proof fn law_update_command(
    project: ProjectView,
    files: ProjectFilesView,
    config: ConfigView,
    s: TaskStoreView,
    id: Seq<char>,
    input: UpdateInputView,
)
    requires
        finds(project, files, config, s),
    ensures
        ({
            let (report, result) = update(project, files, id, input);
            let criteria: Option<Option<Seq<char>>> = match input.acceptance_criteria {
                Some(text) => Some(Some(text)),
                None => None,
            };
            let after = s.update(id, input.title, input.description, input.depends_on, criteria);
            let asked = input.title is Some || input.description is Some || input.depends_on is Some
                || input.acceptance_criteria is Some;
            &&& result is Ok <==> asked && after is Ok
            &&& result is Ok ==> report.tasks == Some(after->Ok_0.0.tasks)
            &&& !asked ==> report.tasks is None
            &&& asked && result is Err ==> left_alone(report, s)
        }),
{
}

/// Removing a task takes it away where that can be done.
pub proof fn law_remove_command(
    project: ProjectView,
    files: ProjectFilesView,
    config: ConfigView,
    s: TaskStoreView,
    id: Seq<char>,
    i: int,
)
    requires
        finds(project, files, config, s),
        stands_at(s.tasks, id, i),
    ensures
        ({
            let (report, result) = remove(project, files, id);
            let usual = config.sequence(config.default_workflow);
            &&& result is Ok <==> s.remove(id) is Ok && s.tasks[i].state == usual[0]
            &&& result is Ok ==> report.tasks == Some(s.remove(id)->Ok_0.0.tasks)
            &&& result is Err ==> left_alone(report, s)
        }),
{
    law_first_task_is_found(s.tasks, id, i);
    law_removable_task(s, id, i);
    lemma_first_where(s.tasks, waits_for(id));
    if first_where(s.tasks, waits_for(id)) is Some {
        let j = first_where(s.tasks, waits_for(id))->0;
        assert(s.tasks[j].id != id && s.tasks[j].dependencies.contains(id));
    }
}

/// A task is added as it was asked for: under its title and description, in the workflow and phase
/// that were given, or else in the usual workflow and its first phase. A title that an open task
/// has, in whatever letters, is refused.
pub proof fn law_add_command(
    project: ProjectView,
    files: ProjectFilesView,
    config: ConfigView,
    s: TaskStoreView,
    title: Seq<char>,
    description: Option<Seq<char>>,
    depends_on: Seq<Seq<char>>,
    phase: Option<Seq<char>>,
    workflow: Option<Seq<char>>,
    runner: Option<Seq<char>>,
    now: Instant,
)
    requires
        finds(project, files, config, s),
    ensures
        ({
            let (r, result) = task_added(
                project,
                files,
                None,
                title,
                description,
                depends_on,
                phase,
                workflow,
                runner,
                now,
            );
            let end = config.sequence(config.default_workflow).last();
            let name = match workflow {
                Some(x) => x,
                None => config.default_workflow,
            };
            let text = match description {
                Some(x) => x,
                None => Seq::empty(),
            };
            let taken = exists|j: int|
                0 <= j < s.tasks.len() && (#[trigger] s.tasks[j]).state != end && lowercase(
                    s.tasks[j].title,
                ) == lowercase(title);
            let after = s.add(title, text, depends_on, phase, name, rfc3339_text(now));
            let inside = runner matches Some(x) && !blank(x);
            let auto_start = project.global_config.runner.auto_start;
            &&& result is Ok <==> !taken && after is Ok
            &&& result is Ok ==> {
                &&& r.report.tasks == Some(after->Ok_0.0.tasks)
                &&& r.report.hooks.len() == 1
                &&& told_of(
                    r.report.hooks[0],
                    project,
                    "task_added"@,
                    after->Ok_0.1,
                    Seq::empty(),
                    after->Ok_0.1.state,
                    Seq::empty(),
                )
                &&& r.ensure_runner == if auto_start && !inside {
                    Some(project.global_config.runner.runner_type)
                } else {
                    None
                }
                &&& r.hint == (!auto_start && !inside)
            }
            &&& result is Err ==> left_alone(r.report, s) && r.ensure_runner is None && !r.hint
        }),
{
    reveal_strlit("");
    assert(""@ =~= Seq::<char>::empty());
    let end = config.sequence(config.default_workflow).last();
    let p = has_title(title, config.terminal());
    lemma_first_where(s.tasks, p);
    law_commands_of_an_event_are_run(project.global_hooks, project.project_hooks, "task_added"@);
    if first_where(s.tasks, p) is None {
        assert forall|j: int| 0 <= j < s.tasks.len() implies (#[trigger] s.tasks[j]).state == end
            || lowercase(s.tasks[j].title) != lowercase(title) by {
            assert(!p(s.tasks[j]));
        }
    } else {
        let j = first_where(s.tasks, p)->0;
        assert(s.tasks[j].state != end);
    }
}

/// A task is not added while the tasks are locked by another.
pub proof fn law_nothing_is_added_without_the_lock(
    project: ProjectView,
    files: ProjectFilesView,
    lock: FileLockErrorView,
    title: Seq<char>,
    description: Option<Seq<char>>,
    depends_on: Seq<Seq<char>>,
    phase: Option<Seq<char>>,
    workflow: Option<Seq<char>>,
    runner: Option<Seq<char>>,
    now: Instant,
)
    ensures
        ({
            let (r, result) = task_added(
                project,
                files,
                Some(lock),
                title,
                description,
                depends_on,
                phase,
                workflow,
                runner,
                now,
            );
            result is Err && r.report.tasks is None && r.report.hooks.len() == 0
        }),
{
}

} // verus!
