//! Adding a task.

use vstd::prelude::*;

use crate::commands::report::{
    context_of, hook_run, load_config, on_open, on_save, project_config, quiet, run_for,
    task_context, HookRun, HookRunView, ProjectFiles, ProjectFilesView, Report, ReportView,
};
use crate::commands::runner::text_or;
use crate::duplicate::{outcome, Duplicate};
use crate::engine::config::{Config, ConfigError, ConfigErrorView, ConfigRead, ConfigView};
use crate::engine::file_lock::{FileLockError, FileLockErrorView};
use crate::engine::hooks::TASK_ADDED_EVENT;
use crate::engine::project::{Project, ProjectView};
use crate::engine::tasks::{
    largest_number, largest_task_number, opened, StoreError, StoreErrorView, Task, TaskStore,
    TaskStoreView, TaskView,
};
use crate::string_map::keys;
use crate::text::{
    blank, first_where, follow, is_blank, is_first, join, join_strs, lemma_first_is,
    lemma_first_none, lemma_first_where, lowercase, str_eq, to_lowercase,
};
use crate::time::{rfc3339_text, Instant};

verus! {

/// What is said where a task is added and nothing will work on it.
pub const NO_RUNNER_HINT: &'static str =
    "hint: no runner is running; start one with 'agira runner start' or set runner.auto_start = true in ~/.agira/config.toml";

/// Why a task could not be added.
#[derive(Debug, PartialEq, Eq)]
pub enum AddError {
    UnknownDependency { id: String },
    UnknownPhase { phase: String },
    UnknownWorkflow { name: String, available: String },
    DuplicateTitle { id: String, title: String },
    ConfigNotFound { path: String },
    ConfigRead { path: String, message: String },
    ConfigLoad { path: String, message: String },
    InvalidConfig { path: String, reason: String },
    StoreError(StoreError),
    FileLockError(FileLockError),
}

/// The contents of a `AddError`.
#[verifier::ext_equal]
pub enum AddErrorView {
    UnknownDependency { id: Seq<char> },
    UnknownPhase { phase: Seq<char> },
    UnknownWorkflow { name: Seq<char>, available: Seq<char> },
    DuplicateTitle { id: Seq<char>, title: Seq<char> },
    ConfigNotFound { path: Seq<char> },
    ConfigRead { path: Seq<char>, message: Seq<char> },
    ConfigLoad { path: Seq<char>, message: Seq<char> },
    InvalidConfig { path: Seq<char>, reason: Seq<char> },
    StoreError(StoreErrorView),
    FileLockError(FileLockErrorView),
}

impl View for AddError {
    type V = AddErrorView;

    open spec fn view(&self) -> AddErrorView {
        match self {
            AddError::UnknownDependency { id } => AddErrorView::UnknownDependency { id: id@ },
            AddError::UnknownPhase { phase } => AddErrorView::UnknownPhase { phase: phase@ },
            AddError::UnknownWorkflow { name, available } => AddErrorView::UnknownWorkflow { name: name@, available: available@ },
            AddError::DuplicateTitle { id, title } => AddErrorView::DuplicateTitle { id: id@, title: title@ },
            AddError::ConfigNotFound { path } => AddErrorView::ConfigNotFound { path: path@ },
            AddError::ConfigRead { path, message } => AddErrorView::ConfigRead { path: path@, message: message@ },
            AddError::ConfigLoad { path, message } => AddErrorView::ConfigLoad { path: path@, message: message@ },
            AddError::InvalidConfig { path, reason } => AddErrorView::InvalidConfig { path: path@, reason: reason@ },
            AddError::StoreError(inner) => AddErrorView::StoreError(inner@),
            AddError::FileLockError(inner) => AddErrorView::FileLockError(inner@),
        }
    }
}

impl DeepView for AddError {
    type V = AddErrorView;

    open spec fn deep_view(&self) -> AddErrorView {
        self@
    }
}

impl Duplicate for AddError {
    fn duplicate(&self) -> (r: Self) {
        match self {
            AddError::UnknownDependency { id } => AddError::UnknownDependency { id: id.duplicate() },
            AddError::UnknownPhase { phase } => AddError::UnknownPhase { phase: phase.duplicate() },
            AddError::UnknownWorkflow { name, available } => AddError::UnknownWorkflow { name: name.duplicate(), available: available.duplicate() },
            AddError::DuplicateTitle { id, title } => AddError::DuplicateTitle { id: id.duplicate(), title: title.duplicate() },
            AddError::ConfigNotFound { path } => AddError::ConfigNotFound { path: path.duplicate() },
            AddError::ConfigRead { path, message } => AddError::ConfigRead { path: path.duplicate(), message: message.duplicate() },
            AddError::ConfigLoad { path, message } => AddError::ConfigLoad { path: path.duplicate(), message: message.duplicate() },
            AddError::InvalidConfig { path, reason } => AddError::InvalidConfig { path: path.duplicate(), reason: reason.duplicate() },
            AddError::StoreError(inner) => AddError::StoreError(inner.duplicate()),
            AddError::FileLockError(inner) => AddError::FileLockError(inner.duplicate()),
        }
    }
}

impl Clone for AddError {
    fn clone(&self) -> (r: Self)
        ensures
            r@ == self@,
    {
        self.duplicate()
    }
}

impl AddErrorView {
    /// The text shown for the error.
    pub open spec fn message(self) -> Seq<char> {
        match self {
            AddErrorView::UnknownDependency { id } => "unknown dependency: "@ + id,
            AddErrorView::UnknownPhase { phase } => "unknown phase: "@ + phase,
            AddErrorView::UnknownWorkflow { name, available } => "unknown workflow '"@ + name + "'; available: "@ + available,
            AddErrorView::DuplicateTitle { id, title } => "a task with this title already exists: "@ + id + " \""@ + title + "\""@,
            AddErrorView::ConfigNotFound { path } => "config file not found: "@ + path,
            AddErrorView::ConfigRead { path, .. } => "failed to read "@ + path,
            AddErrorView::ConfigLoad { path, message } => "failed to load config "@ + path + ": "@ + message,
            AddErrorView::InvalidConfig { path, reason } => "invalid config "@ + path + ": "@ + reason,
            AddErrorView::StoreError(inner) => inner.message(),
            AddErrorView::FileLockError(inner) => inner.message(),
        }
    }
}

impl AddError {
    /// The text shown for the error.
    pub fn message(&self) -> (r: String)
        ensures
            r@ == self@.message(),
    {
        match self {
            AddError::UnknownDependency { id } => {
                let mut out = "unknown dependency: ".to_owned();
                out.push_str(id.as_str());
                out
            },
            AddError::UnknownPhase { phase } => {
                let mut out = "unknown phase: ".to_owned();
                out.push_str(phase.as_str());
                out
            },
            AddError::UnknownWorkflow { name, available } => {
                let mut out = "unknown workflow '".to_owned();
                out.push_str(name.as_str());
                out.push_str("'; available: ");
                out.push_str(available.as_str());
                out
            },
            AddError::DuplicateTitle { id, title } => {
                let mut out = "a task with this title already exists: ".to_owned();
                out.push_str(id.as_str());
                out.push_str(" \"");
                out.push_str(title.as_str());
                out.push_str("\"");
                out
            },
            AddError::ConfigNotFound { path } => {
                let mut out = "config file not found: ".to_owned();
                out.push_str(path.as_str());
                out
            },
            AddError::ConfigRead { path, .. } => {
                let mut out = "failed to read ".to_owned();
                out.push_str(path.as_str());
                out
            },
            AddError::ConfigLoad { path, message } => {
                let mut out = "failed to load config ".to_owned();
                out.push_str(path.as_str());
                out.push_str(": ");
                out.push_str(message.as_str());
                out
            },
            AddError::InvalidConfig { path, reason } => {
                let mut out = "invalid config ".to_owned();
                out.push_str(path.as_str());
                out.push_str(": ");
                out.push_str(reason.as_str());
                out
            },
            AddError::StoreError(inner) => inner.message(),
            AddError::FileLockError(inner) => inner.message(),
        }
    }
}


/// What adding tasks leaves to be done, whether or not it succeeded.
#[derive(Debug, PartialEq, Eq)]
pub struct AddReport {
    /// The type of the runner that is to be started first, if one is.
    pub ensure_runner: Option<String>,
    pub report: Report,
    /// Whether the user is to be told where no runner is at work.
    pub hint: bool,
}

/// The contents of a `AddReport`.
#[verifier::ext_equal]
pub struct AddReportView {
    pub ensure_runner: Option<Seq<char>>,
    pub report: ReportView,
    pub hint: bool,
}

impl View for AddReport {
    type V = AddReportView;

    open spec fn view(&self) -> AddReportView {
        AddReportView {
            ensure_runner: self.ensure_runner.deep_view(),
            report: self.report@,
            hint: self.hint,
        }
    }
}

impl DeepView for AddReport {
    type V = AddReportView;

    open spec fn deep_view(&self) -> AddReportView {
        self@
    }
}

impl Duplicate for AddReport {
    fn duplicate(&self) -> (r: Self) {
        AddReport {
            ensure_runner: self.ensure_runner.duplicate(),
            report: self.report.duplicate(),
            hint: self.hint,
        }
    }
}

impl Clone for AddReport {
    fn clone(&self) -> (r: Self)
        ensures
            r@ == self@,
    {
        self.duplicate()
    }
}


/// The error for a configuration that could not be used.
pub open spec fn add_config_error(e: ConfigErrorView) -> AddErrorView {
    match e {
        ConfigErrorView::NotFound { path } => AddErrorView::ConfigNotFound { path },
        ConfigErrorView::Read { path, message } => AddErrorView::ConfigRead { path, message },
        ConfigErrorView::Parse { path, message } => AddErrorView::ConfigLoad { path, message },
        ConfigErrorView::Invalid { path, reason } => AddErrorView::InvalidConfig { path, reason },
    }
}

/// The error for a configuration that could not be used.
pub fn map_add_config_error(error: ConfigError) -> (r: AddError)
    ensures
        r@ == add_config_error(error@),
{
    match error {
        ConfigError::NotFound { path } => AddError::ConfigNotFound { path },
        ConfigError::Read { path, message } => AddError::ConfigRead { path, message },
        ConfigError::Parse { path, message } => AddError::ConfigLoad { path, message },
        ConfigError::Invalid { path, reason } => AddError::InvalidConfig { path, reason },
    }
}

/// The error for a task that the tasks refused.
pub open spec fn add_store_error(e: StoreErrorView) -> AddErrorView {
    match e {
        StoreErrorView::DependencyBlocked { blocking_id, .. } => AddErrorView::UnknownDependency {
            id: blocking_id,
        },
        StoreErrorView::UnknownPhase { phase } => AddErrorView::UnknownPhase { phase },
        other => AddErrorView::StoreError(other),
    }
}

/// The error for a task that the tasks refused.
pub fn map_add_store_error(error: StoreError) -> (r: AddError)
    ensures
        r@ == add_store_error(error@),
{
    match error {
        StoreError::DependencyBlocked { blocking_id, .. } => AddError::UnknownDependency {
            id: blocking_id,
        },
        StoreError::UnknownPhase { phase } => AddError::UnknownPhase { phase },
        other => AddError::StoreError(other),
    }
}

/// A task that is not done and has a title, whatever the case of its letters.
pub open spec fn has_title(title: Seq<char>, terminal: Option<Seq<char>>) -> spec_fn(TaskView) -> bool {
    |t: TaskView| Some(t.state) != terminal && lowercase(t.title) == lowercase(title)
}

/// The first task that is not done and has a title.
pub fn first_with_title(tasks: &[Task], title: &str, terminal: Option<&str>) -> (r: Option<usize>)
    ensures
        match r {
            Some(i) => first_where(tasks.deep_view(), has_title(title@, terminal.deep_view()))
                == Some(i as int) && i < tasks@.len(),
            None => first_where(
                tasks.deep_view(),
                has_title(title@, terminal.deep_view()),
            ) is None,
        },
{
    let ghost all = tasks.deep_view();
    let ghost p = has_title(title@, terminal.deep_view());
    let wanted = to_lowercase(title);
    let mut i: usize = 0;
    while i < tasks.len()
        invariant
            i <= tasks.len(),
            all == tasks.deep_view(),
            wanted@ == lowercase(title@),
            p == has_title(title@, terminal.deep_view()),
            forall|j: int| 0 <= j < i ==> !p(#[trigger] all[j]),
        decreases tasks.len() - i,
    {
        assert(all[i as int] == tasks@[i as int]@);
        let done = match terminal {
            Some(state) => str_eq(tasks[i].state.as_str(), state),
            None => false,
        };
        if !done && str_eq(to_lowercase(tasks[i].title.as_str()).as_str(), wanted.as_str()) {
            proof {
                assert(is_first(all, p, i as int));
                lemma_first_is(all, p, i as int);
            }
            return Some(i);
        }
        i = i + 1;
    }
    proof {
        lemma_first_none(all, p);
    }
    None
}

/// The workflow of a new task: the one that is asked for, where there is one, or the default one.
pub open spec fn workflow_for(config: ConfigView, asked: Option<Seq<char>>) -> Result<
    Seq<char>,
    AddErrorView,
> {
    match asked {
        Some(name) => if config.sequence(name).len() == 0 {
            Err(
                AddErrorView::UnknownWorkflow {
                    name,
                    available: join(keys(config.workflows), ", "@),
                },
            )
        } else {
            Ok(name)
        },
        None => Ok(config.default_workflow),
    }
}

fn find_workflow(config: &Config, asked: Option<&str>) -> (r: Result<String, AddError>)
    ensures
        outcome(r) == workflow_for(config@, asked.deep_view()),
{
    match asked {
        Some(name) => {
            let steps = config.sequence(name);
            assert(steps.deep_view().len() == steps@.len());
            if steps.len() == 0 {
                let names = config.workflows.key_list();
                Err(
                    AddError::UnknownWorkflow {
                        name: name.to_owned(),
                        available: join_strs(&names, ", "),
                    },
                )
            } else {
                Ok(name.to_owned())
            }
        },
        None => Ok(config.default_workflow.clone()),
    }
}

/// What is run for a task that was added.
pub open spec fn added_run(project: ProjectView, task: TaskView) -> HookRunView {
    hook_run(project, TASK_ADDED_EVENT@, task_context(project, task, ""@, task.state, ""@))
}

/// What is run for a task that was added.
pub fn dispatch_task_added_hooks(project: &Project, task: &Task) -> (r: HookRun)
    ensures
        r@ == added_run(project@, task@),
{
    let context = context_of(project, task, "", task.state.as_str(), "");
    run_for(project, TASK_ADDED_EVENT, &context)
}

/// What a task that was added leaves to be done: a runner is started first where the settings say
/// so, and the user is told where none is at work; neither from within a runner.
pub open spec fn side_effects(
    project: ProjectView,
    s: TaskStoreView,
    task: TaskView,
    auto_start: bool,
    inside_runner: bool,
    runner_type: Seq<char>,
) -> AddReportView {
    AddReportView {
        ensure_runner: if auto_start && !inside_runner {
            Some(runner_type)
        } else {
            None
        },
        report: on_save(s).ran(added_run(project, task)).said(
            "added "@ + task.id + ": "@ + task.title,
        ),
        hint: !auto_start && !inside_runner,
    }
}

/// What a task that was added leaves to be done.
pub fn run_add_side_effects(
    project: &Project,
    store: &TaskStore,
    task: &Task,
    auto_start: bool,
    inside_runner: bool,
    runner_type: &str,
) -> (r: AddReport)
    ensures
        r@ == side_effects(project@, store@, task@, auto_start, inside_runner, runner_type@),
{
    let mut report = Report::on_save(store);
    report.run(dispatch_task_added_hooks(project, task));
    let mut line = follow("added ", task.id.as_str());
    line.push_str(": ");
    line.push_str(task.title.as_str());
    report.say(line);
    AddReport {
        ensure_runner: if auto_start && !inside_runner {
            Some(runner_type.to_owned())
        } else {
            None
        },
        report,
        hint: !auto_start && !inside_runner,
    }
}

/// What is said where a runner could not be started.
pub fn ensure_warning(message: &str) -> (r: String)
    ensures
        r@ == "warning: ensure-runner failed: "@ + message@,
{
    follow("warning: ensure-runner failed: ", message)
}

/// What is said where it is to be told that no runner is at work. Where it is not known whether
/// one is, nothing is said.
pub fn runner_hint(asked: bool, live: Option<bool>) -> (r: Option<String>)
    ensures
        r.deep_view() == if asked && live == Some(false) {
            Some(NO_RUNNER_HINT@)
        } else {
            None
        },
{
    match live {
        Some(live) => if asked && !live {
            return Some(NO_RUNNER_HINT.to_owned());
        },
        None => {},
    }
    None
}

/// Whether a command is given from within a runner.
pub fn inside_runner(variable: Option<&str>) -> (r: bool)
    ensures
        r == (variable is Some && !blank(variable->0@)),
{
    match variable {
        Some(id) => !is_blank(id),
        None => false,
    }
}

/// The tasks of a project have a number left.
pub open spec fn numbers_left(project: ProjectView, files: ProjectFilesView, count: nat) -> bool {
    match project_config(project, files.config) {
        Ok(config) => match opened(project.state_dir, files.tasks, config) {
            Ok(s) => largest_number(s.tasks) + count <= usize::MAX,
            Err(_) => true,
        },
        Err(_) => true,
    }
}

/// Whether the tasks of a project have a number left.
pub fn has_numbers_left(project: &Project, files: &ProjectFiles, count: usize) -> (r: bool)
    ensures
        r == numbers_left(project@, files@, count as nat),
{
    match load_config(project, &files.config) {
        Ok(config) => match TaskStore::new(
            project.state_dir.as_str(),
            files.tasks.duplicate(),
            &config,
        ) {
            Ok(store) => largest_task_number(store.all_tasks()) <= usize::MAX - count,
            Err(_) => true,
        },
        Err(_) => true,
    }
}

/// A change that leaves nothing beside a report.
pub open spec fn add_nothing(report: ReportView) -> AddReportView {
    AddReportView { ensure_runner: None, report, hint: false }
}

fn nothing_added(report: Report) -> (r: AddReport)
    ensures
        r@ == add_nothing(report@),
{
    AddReport { ensure_runner: None, report, hint: false }
}

/// What the command to add a task leaves to be done.
pub open spec fn task_added(
    project: ProjectView,
    files: ProjectFilesView,
    lock: Option<FileLockErrorView>,
    title: Seq<char>,
    description: Option<Seq<char>>,
    depends_on: Seq<Seq<char>>,
    phase: Option<Seq<char>>,
    workflow: Option<Seq<char>>,
    runner: Option<Seq<char>>,
    now: Instant,
) -> (AddReportView, Result<(), AddErrorView>) {
    match project_config(project, files.config) {
        Err(e) => (add_nothing(quiet()), Err(add_config_error(e))),
        Ok(config) => match lock {
            Some(e) => (add_nothing(quiet()), Err(AddErrorView::FileLockError(e))),
            None => match opened(project.state_dir, files.tasks, config) {
                Err(e) => (add_nothing(quiet()), Err(AddErrorView::StoreError(e))),
                Ok(s) => match first_where(s.tasks, has_title(title, config.terminal())) {
                    Some(i) => (
                        add_nothing(on_open(s)),
                        Err(
                            AddErrorView::DuplicateTitle {
                                id: s.tasks[i].id,
                                title: s.tasks[i].title,
                            },
                        ),
                    ),
                    None => match workflow_for(config, workflow) {
                        Err(e) => (add_nothing(on_open(s)), Err(e)),
                        Ok(name) => match s.add(
                            title,
                            text_or(description, ""@),
                            depends_on,
                            phase,
                            name,
                            rfc3339_text(now),
                        ) {
                            Err(e) => (add_nothing(on_open(s)), Err(add_store_error(e))),
                            Ok((after, task)) => (
                                side_effects(
                                    project,
                                    after,
                                    task,
                                    project.global_config.runner.auto_start,
                                    runner is Some && !blank(runner->0),
                                    project.global_config.runner.runner_type,
                                ),
                                Ok(()),
                            ),
                        },
                    },
                },
            },
        },
    }
}

/// Adds a task at a point in time.
pub fn run_add_at(
    project: &Project,
    files: &ProjectFiles,
    lock: Option<FileLockError>,
    title: &str,
    description: Option<&str>,
    depends_on: &Vec<String>,
    phase: Option<&str>,
    workflow: Option<&str>,
    runner: Option<&str>,
    now: Instant,
) -> (r: (AddReport, Result<(), AddError>))
    requires
        now.on_calendar(),
        numbers_left(project@, files@, 1),
    ensures
        (r.0@, outcome(r.1)) == task_added(
            project@,
            files@,
            lock.deep_view(),
            title@,
            description.deep_view(),
            depends_on.deep_view(),
            phase.deep_view(),
            workflow.deep_view(),
            runner.deep_view(),
            now,
        ),
{
    let config = match load_config(project, &files.config) {
        Err(e) => {
            return (nothing_added(Report::quiet()), Err(map_add_config_error(e)));
        },
        Ok(c) => c,
    };
    match lock {
        Some(e) => {
            return (nothing_added(Report::quiet()), Err(AddError::FileLockError(e)));
        },
        None => {},
    }
    let mut store = match TaskStore::new(
        project.state_dir.as_str(),
        files.tasks.duplicate(),
        &config,
    ) {
        Err(e) => {
            return (nothing_added(Report::quiet()), Err(AddError::StoreError(e)));
        },
        Ok(s) => s,
    };
    let before = Report::on_open(&store);
    let all = store.all_tasks();
    match first_with_title(all, title, config.terminal_phase()) {
        Some(i) => {
            assert(all.deep_view()[i as int] == all@[i as int]@);
            return (
                nothing_added(before),
                Err(
                    AddError::DuplicateTitle {
                        id: all[i].id.clone(),
                        title: all[i].title.clone(),
                    },
                ),
            );
        },
        None => {},
    }
    let name = match find_workflow(&config, workflow) {
        Err(e) => {
            return (nothing_added(before), Err(e));
        },
        Ok(n) => n,
    };
    let text: &str = match description {
        Some(d) => d,
        None => "",
    };
    match store.add_task_at(
        title,
        text,
        depends_on.duplicate(),
        phase,
        name,
        now.text().as_str(),
    ) {
        Err(e) => (nothing_added(before), Err(map_add_store_error(e))),
        Ok(task) => (
            run_add_side_effects(
                project,
                &store,
                &task,
                project.global_config.runner.auto_start,
                inside_runner(runner),
                project.global_config.runner.runner_type.as_str(),
            ),
            Ok(()),
        ),
    }
}

/// Adds a task.
pub fn run_add(
    project: &Project,
    files: &ProjectFiles,
    lock: Option<FileLockError>,
    title: &str,
    description: Option<&str>,
    depends_on: &Vec<String>,
    phase: Option<&str>,
    workflow: Option<&str>,
    runner: Option<&str>,
) -> (r: (AddReport, Result<(), AddError>))
    requires
        numbers_left(project@, files@, 1),
    ensures
        exists|now: Instant|
            now.on_calendar() && (r.0@, outcome(r.1)) == #[trigger] task_added(
                project@,
                files@,
                lock.deep_view(),
                title@,
                description.deep_view(),
                depends_on.deep_view(),
                phase.deep_view(),
                workflow.deep_view(),
                runner.deep_view(),
                now,
            ),
{
    run_add_at(
        project,
        files,
        lock,
        title,
        description,
        depends_on,
        phase,
        workflow,
        runner,
        Instant::now(),
    )
}

/// No two tasks that are under way have the same title: where a task is added, no task that is not
/// done had its title, whatever the case of the letters.
pub proof fn law_added_title_is_new(
    project: ProjectView,
    files: ProjectFilesView,
    title: Seq<char>,
    description: Option<Seq<char>>,
    depends_on: Seq<Seq<char>>,
    phase: Option<Seq<char>>,
    workflow: Option<Seq<char>>,
    runner: Option<Seq<char>>,
    now: Instant,
)
    ensures
        task_added(
            project,
            files,
            None,
            title,
            description,
            depends_on,
            phase,
            workflow,
            runner,
            now,
        ).1 is Ok ==> {
            let config = project_config(project, files.config)->Ok_0;
            let s = opened(project.state_dir, files.tasks, config)->Ok_0;
            forall|i: int|
                0 <= i < s.tasks.len() && Some((#[trigger] s.tasks[i]).state) != config.terminal()
                    ==> lowercase(s.tasks[i].title) != lowercase(title)
        },
{
    if project_config(project, files.config) is Ok {
        let config = project_config(project, files.config)->Ok_0;
        if opened(project.state_dir, files.tasks, config) is Ok {
            let s = opened(project.state_dir, files.tasks, config)->Ok_0;
            let p = has_title(title, config.terminal());
            lemma_first_where(s.tasks, p);
            if first_where(s.tasks, p) is None {
                assert forall|i: int|
                    0 <= i < s.tasks.len() && Some((#[trigger] s.tasks[i]).state)
                        != config.terminal() implies lowercase(s.tasks[i].title) != lowercase(
                    title,
                ) by {
                    assert(!p(s.tasks[i]));
                }
            }
        }
    }
}

} // verus!
