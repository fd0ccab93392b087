//! Handing out the next task, and recording that a phase of one is complete.

use vstd::prelude::*;

use crate::commands::report::{
    config_file, config_path, context_of, hook_run, load_config, on_open, on_save, project_config,
    quiet, run_for, task_context, ProjectFiles, ProjectFilesView, Report, ReportView,
};
use crate::duplicate::{outcome, Duplicate};
use crate::engine::advance::{commit_prompt, commit_request};
use crate::engine::config::{Config, ConfigError, ConfigErrorView, ConfigView};
use crate::engine::hooks::ALL_TASKS_DONE_EVENT;
use crate::engine::pick::{
    as_str_opt, at_rest, chosen, format_pick_output_at, is_non_actionable_state, pick_output,
    select_next_task_at,
};
use crate::engine::project::{Project, ProjectView};
use crate::engine::tasks::{
    all_tasks_done, find_task, opened, StoreError, StoreErrorView, Task, TaskPhaseView, TaskStore,
    TaskStoreView, TaskView, TasksReadView,
};
use crate::text::{blank, is_blank, lex_lt, str_eq, str_lt};
use crate::time::{rfc3339_text, Instant};

verus! {

/// What is said where changes are not committed.
pub const DIRTY_WORKING_TREE_MESSAGE: &'static str =
    "Working tree is dirty — commit your changes, then run `agira task todo` again.";

/// What is said where the task to advance is not named.
pub const DEPRECATION_WARNING: &'static str =
    "warning: --artifact without --task is deprecated; use --task <id> --from <phase> to target explicitly";

/// Why no task was handed out or advanced.
#[derive(Debug, PartialEq, Eq)]
pub enum TodoError {
    NoActionableTask,
    EmptyArtifact,
    TaskNotFound { id: String },
    AlreadyAdvancedPast { id: String, phase: String },
    NotAdvanceable { id: String, state: String },
    Io { path: String, message: String },
    ConfigLoad { path: String, message: String },
    InvalidConfig { path: String, reason: String },
    StoreError(StoreError),
}

/// The contents of a `TodoError`.
#[verifier::ext_equal]
pub enum TodoErrorView {
    NoActionableTask,
    EmptyArtifact,
    TaskNotFound { id: Seq<char> },
    AlreadyAdvancedPast { id: Seq<char>, phase: Seq<char> },
    NotAdvanceable { id: Seq<char>, state: Seq<char> },
    Io { path: Seq<char>, message: Seq<char> },
    ConfigLoad { path: Seq<char>, message: Seq<char> },
    InvalidConfig { path: Seq<char>, reason: Seq<char> },
    StoreError(StoreErrorView),
}

impl View for TodoError {
    type V = TodoErrorView;

    open spec fn view(&self) -> TodoErrorView {
        match self {
            TodoError::NoActionableTask => TodoErrorView::NoActionableTask,
            TodoError::EmptyArtifact => TodoErrorView::EmptyArtifact,
            TodoError::TaskNotFound { id } => TodoErrorView::TaskNotFound { id: id@ },
            TodoError::AlreadyAdvancedPast { id, phase } => TodoErrorView::AlreadyAdvancedPast { id: id@, phase: phase@ },
            TodoError::NotAdvanceable { id, state } => TodoErrorView::NotAdvanceable { id: id@, state: state@ },
            TodoError::Io { path, message } => TodoErrorView::Io { path: path@, message: message@ },
            TodoError::ConfigLoad { path, message } => TodoErrorView::ConfigLoad { path: path@, message: message@ },
            TodoError::InvalidConfig { path, reason } => TodoErrorView::InvalidConfig { path: path@, reason: reason@ },
            TodoError::StoreError(inner) => TodoErrorView::StoreError(inner@),
        }
    }
}

impl DeepView for TodoError {
    type V = TodoErrorView;

    open spec fn deep_view(&self) -> TodoErrorView {
        self@
    }
}

impl Duplicate for TodoError {
    fn duplicate(&self) -> (r: Self) {
        match self {
            TodoError::NoActionableTask => TodoError::NoActionableTask,
            TodoError::EmptyArtifact => TodoError::EmptyArtifact,
            TodoError::TaskNotFound { id } => TodoError::TaskNotFound { id: id.duplicate() },
            TodoError::AlreadyAdvancedPast { id, phase } => TodoError::AlreadyAdvancedPast { id: id.duplicate(), phase: phase.duplicate() },
            TodoError::NotAdvanceable { id, state } => TodoError::NotAdvanceable { id: id.duplicate(), state: state.duplicate() },
            TodoError::Io { path, message } => TodoError::Io { path: path.duplicate(), message: message.duplicate() },
            TodoError::ConfigLoad { path, message } => TodoError::ConfigLoad { path: path.duplicate(), message: message.duplicate() },
            TodoError::InvalidConfig { path, reason } => TodoError::InvalidConfig { path: path.duplicate(), reason: reason.duplicate() },
            TodoError::StoreError(inner) => TodoError::StoreError(inner.duplicate()),
        }
    }
}

impl Clone for TodoError {
    fn clone(&self) -> (r: Self)
        ensures
            r@ == self@,
    {
        self.duplicate()
    }
}

impl TodoErrorView {
    /// The text shown for the error.
    pub open spec fn message(self) -> Seq<char> {
        match self {
            TodoErrorView::NoActionableTask => "no actionable task — all remaining tasks are blocked, failed, or complete"@,
            TodoErrorView::EmptyArtifact => "artifact must not be empty"@,
            TodoErrorView::TaskNotFound { id } => "task "@ + id + " not found"@,
            TodoErrorView::AlreadyAdvancedPast { id, phase } => "task "@ + id + " already advanced past "@ + phase,
            TodoErrorView::NotAdvanceable { id, state } => "task "@ + id + " is "@ + state + " and cannot be advanced"@,
            TodoErrorView::Io { path, .. } => "failed to read "@ + path,
            TodoErrorView::ConfigLoad { path, message } => "failed to load config "@ + path + ": "@ + message,
            TodoErrorView::InvalidConfig { path, reason } => "invalid config "@ + path + ": "@ + reason,
            TodoErrorView::StoreError(inner) => inner.message(),
        }
    }
}

impl TodoError {
    /// The text shown for the error.
    pub fn message(&self) -> (r: String)
        ensures
            r@ == self@.message(),
    {
        match self {
            TodoError::NoActionableTask => "no actionable task — all remaining tasks are blocked, failed, or complete".to_owned(),
            TodoError::EmptyArtifact => "artifact must not be empty".to_owned(),
            TodoError::TaskNotFound { id } => {
                let mut out = "task ".to_owned();
                out.push_str(id.as_str());
                out.push_str(" not found");
                out
            },
            TodoError::AlreadyAdvancedPast { id, phase } => {
                let mut out = "task ".to_owned();
                out.push_str(id.as_str());
                out.push_str(" already advanced past ");
                out.push_str(phase.as_str());
                out
            },
            TodoError::NotAdvanceable { id, state } => {
                let mut out = "task ".to_owned();
                out.push_str(id.as_str());
                out.push_str(" is ");
                out.push_str(state.as_str());
                out.push_str(" and cannot be advanced");
                out
            },
            TodoError::Io { path, .. } => {
                let mut out = "failed to read ".to_owned();
                out.push_str(path.as_str());
                out
            },
            TodoError::ConfigLoad { path, message } => {
                let mut out = "failed to load config ".to_owned();
                out.push_str(path.as_str());
                out.push_str(": ");
                out.push_str(message.as_str());
                out
            },
            TodoError::InvalidConfig { path, reason } => {
                let mut out = "invalid config ".to_owned();
                out.push_str(path.as_str());
                out.push_str(": ");
                out.push_str(reason.as_str());
                out
            },
            TodoError::StoreError(inner) => inner.message(),
        }
    }
}


/// What was found in a repository.
#[derive(Debug, PartialEq, Eq)]
pub struct GitSeen {
    /// Whether there are changes that are not committed.
    pub dirty: bool,
    /// The latest commits, a line for each.
    pub recent_commits: Option<String>,
}

/// The contents of a `GitSeen`.
#[verifier::ext_equal]
pub struct GitSeenView {
    pub dirty: bool,
    pub recent_commits: Option<Seq<char>>,
}

impl View for GitSeen {
    type V = GitSeenView;

    open spec fn view(&self) -> GitSeenView {
        GitSeenView {
            dirty: self.dirty,
            recent_commits: self.recent_commits.deep_view(),
        }
    }
}

impl DeepView for GitSeen {
    type V = GitSeenView;

    open spec fn deep_view(&self) -> GitSeenView {
        self@
    }
}

impl Duplicate for GitSeen {
    fn duplicate(&self) -> (r: Self) {
        GitSeen {
            dirty: self.dirty,
            recent_commits: self.recent_commits.duplicate(),
        }
    }
}

impl Clone for GitSeen {
    fn clone(&self) -> (r: Self)
        ensures
            r@ == self@,
    {
        self.duplicate()
    }
}


/// The error for a configuration that could not be used.
pub open spec fn config_error(e: ConfigErrorView) -> TodoErrorView {
    match e {
        ConfigErrorView::NotFound { path } => TodoErrorView::Io {
            path,
            message: "config file not found"@,
        },
        ConfigErrorView::Read { path, message } => TodoErrorView::Io { path, message },
        ConfigErrorView::Parse { path, message } => TodoErrorView::ConfigLoad { path, message },
        ConfigErrorView::Invalid { path, reason } => TodoErrorView::InvalidConfig { path, reason },
    }
}

fn map_config_error(error: ConfigError) -> (r: TodoError)
    ensures
        r@ == config_error(error@),
{
    match error {
        ConfigError::NotFound { path } => TodoError::Io {
            path,
            message: "config file not found".to_owned(),
        },
        ConfigError::Read { path, message } => TodoError::Io { path, message },
        ConfigError::Parse { path, message } => TodoError::ConfigLoad { path, message },
        ConfigError::Invalid { path, reason } => TodoError::InvalidConfig { path, reason },
    }
}

/// When a task last moved.
pub open spec fn last_moved(t: TaskView) -> Seq<char> {
    if t.history.len() > 0 {
        t.history.last().timestamp
    } else {
        t.created_at
    }
}

fn latest_history_timestamp(task: &Task) -> (r: &str)
    ensures
        r@ == last_moved(task@),
{
    let n: usize = task.history.len();
    if n > 0 {
        assert(task@.history.last() == task.history@[n - 1]@);
        task.history[n - 1].timestamp.as_str()
    } else {
        task.created_at.as_str()
    }
}

/// The started task that moved last, the later one of two that moved at the same time.
pub open spec fn last_moved_task(tasks: Seq<TaskView>, initial: Seq<char>) -> Option<TaskView>
    decreases tasks.len(),
{
    if tasks.len() == 0 {
        None
    } else {
        let t = tasks.last();
        match last_moved_task(tasks.drop_last(), initial) {
            _ if t.state == initial => last_moved_task(tasks.drop_last(), initial),
            Some(b) if lex_lt(last_moved(t), last_moved(b)) => Some(b),
            _ => Some(t),
        }
    }
}

/// The task that changes which are not committed are taken to belong to.
pub open spec fn commit_target(tasks: Seq<TaskView>, config: ConfigView) -> Option<TaskView> {
    match config.initial() {
        Some(initial) => last_moved_task(tasks, initial),
        None => None,
    }
}

/// The task that changes which are not committed are taken to belong to.
pub fn dirty_commit_target<'a>(tasks: &'a [Task], config: &Config) -> (r: Option<&'a Task>)
    ensures
        r.deep_view() == commit_target(tasks.deep_view(), config@),
{
    let initial = match config.initial_phase() {
        Some(p) => p,
        None => {
            return None;
        },
    };
    let ghost all = tasks.deep_view();
    let mut best: Option<&'a Task> = None;
    let mut i: usize = 0;
    assert(all.take(0) =~= Seq::<TaskView>::empty());
    while i < tasks.len()
        invariant
            i <= tasks.len(),
            all == tasks.deep_view(),
            best.deep_view() == last_moved_task(all.take(i as int), initial@),
        decreases tasks.len() - i,
    {
        let t: &'a Task = &tasks[i];
        assert(all.take(i + 1).drop_last() =~= all.take(i as int));
        assert(all.take(i + 1).last() == t@);
        if !str_eq(t.state.as_str(), initial) {
            match best {
                Some(b) => {
                    if !str_lt(latest_history_timestamp(t), latest_history_timestamp(b)) {
                        best = Some(t);
                    }
                },
                None => {
                    best = Some(t);
                },
            }
        }
        i = i + 1;
    }
    assert(all.take(i as int) =~= all);
    best
}

/// The changes that are not committed belong to a started task, and no started task moved later.
pub proof fn law_commit_target_moved_last(tasks: Seq<TaskView>, initial: Seq<char>)
    ensures
        match last_moved_task(tasks, initial) {
            Some(t) => {
                &&& tasks.contains(t)
                &&& t.state != initial
                &&& forall|i: int|
                    0 <= i < tasks.len() && (#[trigger] tasks[i]).state != initial ==> !lex_lt(
                        last_moved(t),
                        last_moved(tasks[i]),
                    )
            },
            None => forall|i: int| 0 <= i < tasks.len() ==> (#[trigger] tasks[i]).state == initial,
        },
    decreases tasks.len(),
{
    if tasks.len() > 0 {
        let rest = tasks.drop_last();
        let last = tasks.last();
        law_commit_target_moved_last(rest, initial);
        assert(tasks.contains(last)) by {
            assert(tasks[tasks.len() - 1] == last);
        }
        assert forall|i: int| 0 <= i < tasks.len() implies i == tasks.len() - 1 || tasks[i] == #[trigger] rest[i] by {}
        match last_moved_task(rest, initial) {
            Some(b) => {
                let k = rest.index_of(b);
                assert(tasks[k] == b);
                assert(tasks.contains(b));
                crate::text::lemma_lex_irreflexive(last_moved(last));
                assert forall|i: int|
                    0 <= i < tasks.len() && (#[trigger] tasks[i]).state != initial implies !lex_lt(
                    last_moved(last_moved_task(tasks, initial)->0),
                    last_moved(tasks[i]),
                ) by {
                    if i < rest.len() {
                        assert(rest[i] == tasks[i]);
                        if last.state != initial && !lex_lt(last_moved(last), last_moved(b)) {
                            if lex_lt(last_moved(last), last_moved(tasks[i])) {
                                crate::text::lemma_lex_total(last_moved(last), last_moved(b));
                                if lex_lt(last_moved(b), last_moved(last)) {
                                    crate::text::lemma_lex_transitive(
                                        last_moved(b),
                                        last_moved(last),
                                        last_moved(tasks[i]),
                                    );
                                }
                            }
                        }
                    } else if last.state != initial && lex_lt(last_moved(last), last_moved(b)) {
                        crate::text::lemma_lex_asymmetric(last_moved(last), last_moved(b));
                    }
                }
            },
            None => {
                crate::text::lemma_lex_irreflexive(last_moved(last));
                assert forall|i: int|
                    0 <= i < tasks.len() && (#[trigger] tasks[i]).state != initial implies i
                    == tasks.len() - 1 by {
                    if i < rest.len() {
                        assert(rest[i] == tasks[i]);
                    }
                }
            },
        }
    }
}

/// What is said where no artifact is given: the next task, or a request to commit first.
pub open spec fn next_report(
    project: ProjectView,
    config: ConfigView,
    store: TaskStoreView,
    git: GitSeenView,
    now: Instant,
) -> ReportView {
    if git.dirty {
        let request = match commit_target(store.tasks, config) {
            Some(t) => commit_request(t.id, t.title, git.recent_commits),
            None => commit_request("uncommitted"@, "Uncommitted changes"@, git.recent_commits),
        };
        on_open(store).said(request).said(DIRTY_WORKING_TREE_MESSAGE@)
    } else {
        on_open(store).said(pick_output(config, store.tasks, project.state_dir, None, now))
    }
}

fn write_next(project: &Project, config: &Config, store: &TaskStore, git: &GitSeen, now: Instant) -> (r:
    Report)
    ensures
        r@ == next_report(project@, config@, store@, git@, now),
{
    let mut report = Report::on_open(store);
    if git.dirty {
        let commits = as_str_opt(&git.recent_commits);
        let request = match dirty_commit_target(store.all_tasks(), config) {
            Some(t) => commit_prompt(t.id.as_str(), t.title.as_str(), commits),
            None => commit_prompt("uncommitted", "Uncommitted changes", commits),
        };
        report.say(request);
        report.say(DIRTY_WORKING_TREE_MESSAGE.to_owned());
    } else {
        report.say(
            format_pick_output_at(config, store.all_tasks(), project.state_dir.as_str(), now),
        );
    }
    report
}

/// The task that is advanced: the one that is named, where it can move on and is still in the
/// phase that it is taken to be in, or else the next one.
pub open spec fn target(
    store: TaskStoreView,
    config: ConfigView,
    terminal: Seq<char>,
    task_id: Option<Seq<char>>,
    from_phase: Option<Seq<char>>,
    now: Instant,
) -> Result<Seq<char>, TodoErrorView> {
    match task_id {
        Some(id) => match find_task(store.tasks, id) {
            None => Err(TodoErrorView::TaskNotFound { id }),
            Some(t) => if at_rest(t.state, terminal) {
                Err(TodoErrorView::NotAdvanceable { id, state: t.state })
            } else if from_phase is Some && t.state != from_phase->0 {
                Err(TodoErrorView::AlreadyAdvancedPast { id, phase: from_phase->0 })
            } else {
                Ok(id)
            },
        },
        None => match chosen(store.tasks, config, None, now) {
            None => Err(TodoErrorView::NoActionableTask),
            Some(t) => Ok(t.id),
        },
    }
}

fn find_target(
    store: &TaskStore,
    config: &Config,
    terminal: &str,
    task_id: Option<&str>,
    from_phase: Option<&str>,
    now: Instant,
) -> (r: Result<String, TodoError>)
    ensures
        outcome(r) == target(
            store@,
            config@,
            terminal@,
            task_id.deep_view(),
            from_phase.deep_view(),
            now,
        ),
{
    match task_id {
        Some(id) => match store.get_task(id) {
            None => Err(TodoError::TaskNotFound { id: id.to_owned() }),
            Some(t) => {
                if is_non_actionable_state(t.state.as_str(), terminal) {
                    return Err(
                        TodoError::NotAdvanceable { id: id.to_owned(), state: t.state.clone() },
                    );
                }
                match from_phase {
                    Some(phase) => {
                        if !str_eq(t.state.as_str(), phase) {
                            return Err(
                                TodoError::AlreadyAdvancedPast {
                                    id: id.to_owned(),
                                    phase: phase.to_owned(),
                                },
                            );
                        }
                    },
                    None => {},
                }
                Ok(id.to_owned())
            },
        },
        None => match select_next_task_at(store.all_tasks(), config, now) {
            None => Err(TodoError::NoActionableTask),
            Some(t) => Ok(t.id.clone()),
        },
    }
}

/// Each of some tasks is done or given up, and there are some.
pub open spec fn finished_all(tasks: Seq<TaskView>) -> bool {
    tasks.len() > 0 && forall|i: int| 0 <= i < tasks.len() ==> (#[trigger] tasks[i]).finished()
}

/// What is said and run once a task has moved on.
pub open spec fn advanced_report(
    project: ProjectView,
    config: ConfigView,
    store: TaskStoreView,
    git: GitSeenView,
    id: Seq<char>,
    from_phase: Seq<char>,
    artifact: Seq<char>,
    terminal: Seq<char>,
    now: Instant,
) -> ReportView {
    let task = find_task(store.tasks, id)->0;
    let context = task_context(project, task, from_phase, task.state, artifact);
    let moved = on_save(store).ran(hook_run(project, task.state, context));
    let ran = if finished_all(store.tasks) {
        moved.ran(hook_run(project, ALL_TASKS_DONE_EVENT@, context))
    } else {
        moved
    };
    if task.state == terminal {
        ran.said(id + " done ✓"@).said(commit_request(id, task.title, git.recent_commits)).said(
            pick_output(config, store.tasks, project.state_dir, None, now),
        )
    } else {
        ran.said(id + " → "@ + task.state)
    }
}

fn write_advanced(
    project: &Project,
    config: &Config,
    store: &TaskStore,
    git: &GitSeen,
    id: &str,
    from_phase: &str,
    artifact: &str,
    terminal: &str,
    now: Instant,
) -> (r: Report)
    requires
        find_task(store@.tasks, id@) is Some,
    ensures
        r@ == advanced_report(
            project@,
            config@,
            store@,
            git@,
            id@,
            from_phase@,
            artifact@,
            terminal@,
            now,
        ),
{
    let mut report = Report::on_save(store);
    match store.get_task(id) {
        Some(task) => {
            let context = context_of(project, task, from_phase, task.state.as_str(), artifact);
            report.run(run_for(project, task.state.as_str(), &context));
            if all_tasks_done(store.all_tasks()) {
                report.run(run_for(project, ALL_TASKS_DONE_EVENT, &context));
            }
            if str_eq(task.state.as_str(), terminal) {
                let mut done = id.to_owned();
                done.push_str(" done ✓");
                report.say(done);
                report.say(
                    commit_prompt(id, task.title.as_str(), as_str_opt(&git.recent_commits)),
                );
                report.say(
                    format_pick_output_at(
                        config,
                        store.all_tasks(),
                        project.state_dir.as_str(),
                        now,
                    ),
                );
            } else {
                let mut moved = id.to_owned();
                moved.push_str(" → ");
                moved.push_str(task.state.as_str());
                report.say(moved);
            }
        },
        None => {},
    }
    report
}

/// What opening the tasks leaves to be done, with the warning for a task that is not named.
pub open spec fn todo_opened(store: TaskStoreView, task_id: Option<Seq<char>>) -> ReportView {
    if task_id is Some {
        on_open(store)
    } else {
        on_open(store).warned(DEPRECATION_WARNING@)
    }
}

/// What recording an artifact leaves to be done.
pub open spec fn advanced(
    project: ProjectView,
    config: ConfigView,
    store: TaskStoreView,
    git: GitSeenView,
    artifact: Seq<char>,
    terminal: Seq<char>,
    task_id: Option<Seq<char>>,
    from_phase: Option<Seq<char>>,
    now: Instant,
) -> (ReportView, Result<(), TodoErrorView>) {
    let before = todo_opened(store, task_id);
    let timestamp = rfc3339_text(now);
    match target(store, config, terminal, task_id, from_phase, now) {
        Err(e) => (before, Err(e)),
        Ok(id) => match store.record(id, TaskPhaseView { artifact, completed_at: timestamp }) {
            Err(e) => (before, Err(TodoErrorView::StoreError(e))),
            Ok((recorded, from)) => match recorded.advance(id, timestamp) {
                Err(e) => (
                    ReportView { warnings: before.warnings, ..on_save(recorded) },
                    Err(TodoErrorView::StoreError(e)),
                ),
                Ok((moved, _)) => (
                    ReportView {
                        warnings: before.warnings,
                        ..advanced_report(
                            project,
                            config,
                            moved,
                            git,
                            id,
                            from,
                            artifact,
                            terminal,
                            now,
                        )
                    },
                    Ok(()),
                ),
            },
        },
    }
}

/// What asking for the next task, or recording an artifact, leaves to be done.
pub open spec fn todo(
    project: ProjectView,
    files: ProjectFilesView,
    git: GitSeenView,
    artifact: Option<Seq<char>>,
    task_id: Option<Seq<char>>,
    from_phase: Option<Seq<char>>,
    now: Instant,
) -> (ReportView, Result<(), TodoErrorView>) {
    match project_config(project, files.config) {
        Err(e) => (quiet(), Err(config_error(e))),
        Ok(config) => match artifact {
            None => match opened(project.state_dir, files.tasks, config) {
                Err(e) => (quiet(), Err(TodoErrorView::StoreError(e))),
                Ok(store) => (next_report(project, config, store, git, now), Ok(())),
            },
            Some(text) => if blank(text) {
                (quiet(), Err(TodoErrorView::EmptyArtifact))
            } else {
                match config.terminal() {
                    None => (
                        quiet(),
                        Err(
                            TodoErrorView::InvalidConfig {
                                path: config_path(project),
                                reason: "phases must not be empty"@,
                            },
                        ),
                    ),
                    Some(terminal) => match opened(project.state_dir, files.tasks, config) {
                        Err(e) => (quiet(), Err(TodoErrorView::StoreError(e))),
                        Ok(store) => advanced(
                            project,
                            config,
                            store,
                            git,
                            text,
                            terminal,
                            task_id,
                            from_phase,
                            now,
                        ),
                    },
                }
            },
        },
    }
}

fn advance_task(
    project: &Project,
    config: &Config,
    mut store: TaskStore,
    git: &GitSeen,
    artifact: &str,
    terminal: &str,
    task_id: Option<&str>,
    from_phase: Option<&str>,
    now: Instant,
) -> (r: (Report, Result<(), TodoError>))
    requires
        now.on_calendar(),
    ensures
        (r.0@, outcome(r.1)) == advanced(
            project@,
            config@,
            store@,
            git@,
            artifact@,
            terminal@,
            task_id.deep_view(),
            from_phase.deep_view(),
            now,
        ),
{
    let mut before = Report::on_open(&store);
    if task_id.is_none() {
        before.warn(DEPRECATION_WARNING.to_owned());
    }
    let timestamp = now.text();
    let id = match find_target(&store, config, terminal, task_id, from_phase, now) {
        Err(e) => {
            return (before, Err(e));
        },
        Ok(id) => id,
    };
    let from = match store.record_phase_artifact(id.as_str(), artifact, timestamp.clone()) {
        Err(e) => {
            return (before, Err(TodoError::StoreError(e)));
        },
        Ok(from) => from,
    };
    let ghost recorded = store@;
    match store.next_phase_at(id.as_str(), timestamp.as_str()) {
        Err(e) => {
            let mut report = Report::on_save(&store);
            report.warnings = before.warnings;
            (report, Err(TodoError::StoreError(e)))
        },
        Ok(_) => {
            proof {
                crate::engine::task_laws::law_advance_is_one_step(recorded, id@, timestamp@);
            }
            let mut report = write_advanced(
                project,
                config,
                &store,
                git,
                id.as_str(),
                from.as_str(),
                artifact,
                terminal,
                now,
            );
            report.warnings = before.warnings;
            (report, Ok(()))
        },
    }
}

/// Gives the next task at a point in time, or records that a phase of a task is complete.
pub fn run_todo_at(
    project: &Project,
    files: &ProjectFiles,
    git: &GitSeen,
    artifact: Option<&str>,
    task_id: Option<&str>,
    from_phase: Option<&str>,
    now: Instant,
) -> (r: (Report, Result<(), TodoError>))
    requires
        now.on_calendar(),
    ensures
        (r.0@, outcome(r.1)) == todo(
            project@,
            files@,
            git@,
            artifact.deep_view(),
            task_id.deep_view(),
            from_phase.deep_view(),
            now,
        ),
{
    let config = match load_config(project, &files.config) {
        Err(e) => {
            return (Report::quiet(), Err(map_config_error(e)));
        },
        Ok(c) => c,
    };
    match artifact {
        None => match TaskStore::new(project.state_dir.as_str(), files.tasks.duplicate(), &config) {
            Err(e) => (Report::quiet(), Err(TodoError::StoreError(e))),
            Ok(store) => (write_next(project, &config, &store, git, now), Ok(())),
        },
        Some(text) => {
            if is_blank(text) {
                return (Report::quiet(), Err(TodoError::EmptyArtifact));
            }
            let terminal = match config.terminal_phase() {
                None => {
                    return (
                        Report::quiet(),
                        Err(
                            TodoError::InvalidConfig {
                                path: config_file(project),
                                reason: "phases must not be empty".to_owned(),
                            },
                        ),
                    );
                },
                Some(p) => p,
            };
            match TaskStore::new(project.state_dir.as_str(), files.tasks.duplicate(), &config) {
                Err(e) => (Report::quiet(), Err(TodoError::StoreError(e))),
                Ok(store) => advance_task(
                    project,
                    &config,
                    store,
                    git,
                    text,
                    terminal,
                    task_id,
                    from_phase,
                    now,
                ),
            }
        },
    }
}

/// Gives the next task, or records that a phase of a task is complete.
pub fn run_todo(
    project: &Project,
    files: &ProjectFiles,
    git: &GitSeen,
    artifact: Option<&str>,
    task_id: Option<&str>,
    from_phase: Option<&str>,
) -> (r: (Report, Result<(), TodoError>))
    ensures
        exists|now: Instant|
            now.on_calendar() && (r.0@, outcome(r.1)) == #[trigger] todo(
                project@,
                files@,
                git@,
                artifact.deep_view(),
                task_id.deep_view(),
                from_phase.deep_view(),
                now,
            ),
{
    run_todo_at(project, files, git, artifact, task_id, from_phase, Instant::now())
}

/// An artifact that is refused for its task, or for being empty, is not recorded: nothing is said
/// or run, and tasks are saved only where they were read in an older form.
pub proof fn law_refused_artifact_is_not_recorded(
    project: ProjectView,
    files: ProjectFilesView,
    git: GitSeenView,
    artifact: Seq<char>,
    task_id: Option<Seq<char>>,
    from_phase: Option<Seq<char>>,
    now: Instant,
)
    ensures
        ({
            let (report, result) = todo(
                project,
                files,
                git,
                Some(artifact),
                task_id,
                from_phase,
                now,
            );
            result is Err && !(result->Err_0 is StoreError) ==> {
                &&& report.output.len() == 0
                &&& report.hooks.len() == 0
                &&& report.tasks is Some ==> (files.tasks matches TasksReadView::Parsed { tasks }
                    && exists|i: int| 0 <= i < tasks.len() && (#[trigger] tasks[i]).outdated())
            }
        }),
{
}

/// A task that is named is advanced only from the phase that it is taken to be in.
pub proof fn law_named_task_is_where_it_was_seen(
    store: TaskStoreView,
    config: ConfigView,
    terminal: Seq<char>,
    id: Seq<char>,
    from_phase: Seq<char>,
    now: Instant,
)
    ensures
        target(store, config, terminal, Some(id), Some(from_phase), now) is Ok ==> {
            &&& target(store, config, terminal, Some(id), Some(from_phase), now)->Ok_0 == id
            &&& find_task(store.tasks, id) matches Some(t) && t.state == from_phase && !at_rest(
                t.state,
                terminal,
            )
        },
{
}

} // verus!
