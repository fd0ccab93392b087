//! What a command finds and what it leaves to be done.

use vstd::prelude::*;

use crate::duplicate::{outcome, Duplicate};
use crate::engine::config::{
    load_project_config, loaded_config, Config, ConfigError, ConfigErrorView, ConfigRead,
    ConfigReadView, ConfigView,
};
use crate::engine::hooks::{
    event_hooks, hook_context, hooks_for_event, HookContext, HookContextView, HookEntry,
    HookEntryView,
};
use crate::engine::project::{Project, ProjectView};
use crate::engine::tasks::{
    opened, StoreError, StoreErrorView, Task, TaskStore, TaskStoreView, TaskView, TasksRead,
    TasksReadView,
};
use crate::text::{blank, is_blank, join_path, path_join};

verus! {

/// What a command found in the directory of a project.
#[derive(Debug, PartialEq, Eq)]
pub struct ProjectFiles {
    pub config: ConfigRead,
    pub tasks: TasksRead,
}

/// The contents of a `ProjectFiles`.
#[verifier::ext_equal]
pub struct ProjectFilesView {
    pub config: ConfigReadView,
    pub tasks: TasksReadView,
}

impl View for ProjectFiles {
    type V = ProjectFilesView;

    open spec fn view(&self) -> ProjectFilesView {
        ProjectFilesView {
            config: self.config@,
            tasks: self.tasks@,
        }
    }
}

impl DeepView for ProjectFiles {
    type V = ProjectFilesView;

    open spec fn deep_view(&self) -> ProjectFilesView {
        self@
    }
}

impl Duplicate for ProjectFiles {
    fn duplicate(&self) -> (r: Self) {
        ProjectFiles {
            config: self.config.duplicate(),
            tasks: self.tasks.duplicate(),
        }
    }
}

impl Clone for ProjectFiles {
    fn clone(&self) -> (r: Self)
        ensures
            r@ == self@,
    {
        self.duplicate()
    }
}


/// Commands that are to be run for an event.
#[derive(Debug, PartialEq, Eq)]
pub struct HookRun {
    pub hooks: Vec<HookEntry>,
    pub event: String,
    pub context: HookContext,
}

/// The contents of a `HookRun`.
#[verifier::ext_equal]
pub struct HookRunView {
    pub hooks: Seq<HookEntryView>,
    pub event: Seq<char>,
    pub context: HookContextView,
}

impl View for HookRun {
    type V = HookRunView;

    open spec fn view(&self) -> HookRunView {
        HookRunView {
            hooks: self.hooks.deep_view(),
            event: self.event@,
            context: self.context@,
        }
    }
}

impl DeepView for HookRun {
    type V = HookRunView;

    open spec fn deep_view(&self) -> HookRunView {
        self@
    }
}

impl Duplicate for HookRun {
    fn duplicate(&self) -> (r: Self) {
        HookRun {
            hooks: self.hooks.duplicate(),
            event: self.event.duplicate(),
            context: self.context.duplicate(),
        }
    }
}

impl Clone for HookRun {
    fn clone(&self) -> (r: Self)
        ensures
            r@ == self@,
    {
        self.duplicate()
    }
}


/// What a command leaves to be done, whether or not it succeeded.
#[derive(Debug, PartialEq, Eq)]
pub struct Report {
    /// The tasks to write to the file of tasks.
    pub tasks: Option<Vec<Task>>,
    /// The commands to run, in their order.
    pub hooks: Vec<HookRun>,
    /// What to tell the user on the side.
    pub warnings: Vec<String>,
    /// What to tell the user, in their order.
    pub output: Vec<String>,
}

/// The contents of a `Report`.
#[verifier::ext_equal]
pub struct ReportView {
    pub tasks: Option<Seq<TaskView>>,
    pub hooks: Seq<HookRunView>,
    pub warnings: Seq<Seq<char>>,
    pub output: Seq<Seq<char>>,
}

impl View for Report {
    type V = ReportView;

    open spec fn view(&self) -> ReportView {
        ReportView {
            tasks: self.tasks.deep_view(),
            hooks: self.hooks.deep_view(),
            warnings: self.warnings.deep_view(),
            output: self.output.deep_view(),
        }
    }
}

impl DeepView for Report {
    type V = ReportView;

    open spec fn deep_view(&self) -> ReportView {
        self@
    }
}

impl Duplicate for Report {
    fn duplicate(&self) -> (r: Self) {
        Report {
            tasks: self.tasks.duplicate(),
            hooks: self.hooks.duplicate(),
            warnings: self.warnings.duplicate(),
            output: self.output.duplicate(),
        }
    }
}

impl Clone for Report {
    fn clone(&self) -> (r: Self)
        ensures
            r@ == self@,
    {
        self.duplicate()
    }
}


/// Nothing is left to be done.
pub open spec fn quiet() -> ReportView {
    ReportView { tasks: None, hooks: Seq::empty(), warnings: Seq::empty(), output: Seq::empty() }
}

/// What opening the tasks of a project leaves to be done: tasks of an older form are written again.
pub open spec fn on_open(store: TaskStoreView) -> ReportView {
    ReportView {
        tasks: if store.migrated {
            Some(store.tasks)
        } else {
            None
        },
        ..quiet()
    }
}

/// The tasks are to be written.
pub open spec fn on_save(store: TaskStoreView) -> ReportView {
    ReportView { tasks: Some(store.tasks), ..quiet() }
}

/// The tasks as a report leaves them.
pub open spec fn left_by(store: TaskStoreView, report: ReportView) -> TaskStoreView {
    match report.tasks {
        Some(tasks) => TaskStoreView { tasks, ..store },
        None => store,
    }
}

impl ReportView {
    /// The same with one more text for the user.
    pub open spec fn said(self, line: Seq<char>) -> ReportView {
        ReportView { output: self.output.push(line), ..self }
    }

    /// The same with one more text on the side.
    pub open spec fn warned(self, line: Seq<char>) -> ReportView {
        ReportView { warnings: self.warnings.push(line), ..self }
    }

    /// The same with more commands to run.
    pub open spec fn ran(self, run: HookRunView) -> ReportView {
        ReportView { hooks: self.hooks.push(run), ..self }
    }
}

impl Report {
    /// Nothing is left to be done.
    pub fn quiet() -> (r: Report)
        ensures
            r@ == quiet(),
    {
        let r = Report { tasks: None, hooks: Vec::new(), warnings: Vec::new(), output: Vec::new() };
        assert(r@ =~= quiet());
        r
    }

    /// What opening the tasks of a project leaves to be done.
    pub fn on_open(store: &TaskStore) -> (r: Report)
        ensures
            r@ == on_open(store@),
    {
        let mut r = Report::quiet();
        if store.migrated() {
            r.tasks = Some(crate::duplicate::copy_slice(store.all_tasks()));
        }
        r
    }

    /// The tasks are to be written.
    pub fn on_save(store: &TaskStore) -> (r: Report)
        ensures
            r@ == on_save(store@),
    {
        let mut r = Report::quiet();
        r.tasks = Some(crate::duplicate::copy_slice(store.all_tasks()));
        r
    }

    /// Adds a text for the user.
    pub fn say(&mut self, line: String)
        ensures
            final(self)@ == old(self)@.said(line@),
    {
        let ghost before = self@;
        self.output.push(line);
        assert(self@ =~= before.said(line@));
    }

    /// Adds a text on the side.
    pub fn warn(&mut self, line: String)
        ensures
            final(self)@ == old(self)@.warned(line@),
    {
        let ghost before = self@;
        self.warnings.push(line);
        assert(self@ =~= before.warned(line@));
    }

    /// Adds commands to run.
    pub fn run(&mut self, run: HookRun)
        ensures
            final(self)@ == old(self)@.ran(run@),
    {
        let ghost before = self@;
        self.hooks.push(run);
        assert(self@ =~= before.ran(run@));
    }
}

/// The file that holds the configuration of a project.
pub open spec fn config_path(project: ProjectView) -> Seq<char> {
    path_join(project.state_dir, "config.json"@)
}

/// The file that holds the configuration of a project.
pub fn config_file(project: &Project) -> (r: String)
    ensures
        r@ == config_path(project@),
{
    join_path(project.state_dir.as_str(), "config.json")
}

/// The configuration of a project.
pub open spec fn project_config(project: ProjectView, read: ConfigReadView) -> Result<
    ConfigView,
    ConfigErrorView,
> {
    loaded_config(config_path(project), read, project.global_config.default_max_retries)
}

/// The configuration of a project.
pub fn load_config(project: &Project, read: &ConfigRead) -> (r: Result<Config, ConfigError>)
    ensures
        outcome(r) == project_config(project@, read@),
{
    load_project_config(config_file(project).as_str(), read.duplicate(), &project.global_config)
}

/// What a command is told about a task of a project.
pub open spec fn task_context(
    project: ProjectView,
    task: TaskView,
    from_phase: Seq<char>,
    to_phase: Seq<char>,
    artifact: Seq<char>,
) -> HookContextView {
    hook_context(
        task,
        project.slug,
        project.git_root,
        project.state_dir,
        from_phase,
        to_phase,
        artifact,
    )
}

/// What a command is told about a task of a project.
pub fn context_of(
    project: &Project,
    task: &Task,
    from_phase: &str,
    to_phase: &str,
    artifact: &str,
) -> (r: HookContext)
    ensures
        r@ == task_context(project@, task@, from_phase@, to_phase@, artifact@),
{
    HookContext::new(
        task,
        project.slug.as_str(),
        project.git_root.as_str(),
        project.state_dir.as_str(),
        from_phase,
        to_phase,
        artifact,
    )
}

/// The commands of a user and a project for an event.
pub open spec fn hook_run(project: ProjectView, event: Seq<char>, context: HookContextView) -> HookRunView {
    HookRunView {
        hooks: event_hooks(project.global_hooks, project.project_hooks, event),
        event,
        context,
    }
}

/// The commands of a user and a project for an event.
pub fn run_for(project: &Project, event: &str, context: &HookContext) -> (r: HookRun)
    ensures
        r@ == hook_run(project@, event@, context@),
{
    HookRun {
        hooks: hooks_for_event(&project.global_hooks, &project.project_hooks, event),
        event: event.to_owned(),
        context: context.duplicate(),
    }
}

/// Why the tasks of a project could not be worked on.
#[derive(Debug, PartialEq, Eq)]
pub enum OpenError {
    Config(ConfigError),
    NoPhases { path: String },
    Store(StoreError),
}

/// The contents of a `OpenError`.
#[verifier::ext_equal]
pub enum OpenErrorView {
    Config(ConfigErrorView),
    NoPhases { path: Seq<char> },
    Store(StoreErrorView),
}

impl View for OpenError {
    type V = OpenErrorView;

    open spec fn view(&self) -> OpenErrorView {
        match self {
            OpenError::Config(inner) => OpenErrorView::Config(inner@),
            OpenError::NoPhases { path } => OpenErrorView::NoPhases { path: path@ },
            OpenError::Store(inner) => OpenErrorView::Store(inner@),
        }
    }
}

impl DeepView for OpenError {
    type V = OpenErrorView;

    open spec fn deep_view(&self) -> OpenErrorView {
        self@
    }
}

impl Duplicate for OpenError {
    fn duplicate(&self) -> (r: Self) {
        match self {
            OpenError::Config(inner) => OpenError::Config(inner.duplicate()),
            OpenError::NoPhases { path } => OpenError::NoPhases { path: path.duplicate() },
            OpenError::Store(inner) => OpenError::Store(inner.duplicate()),
        }
    }
}

impl Clone for OpenError {
    fn clone(&self) -> (r: Self)
        ensures
            r@ == self@,
    {
        self.duplicate()
    }
}

impl OpenErrorView {
    /// The text shown for the error.
    pub open spec fn message(self) -> Seq<char> {
        match self {
            OpenErrorView::Config(inner) => inner.message(),
            OpenErrorView::NoPhases { path } => "invalid config "@ + path + ": phases must not be empty"@,
            OpenErrorView::Store(inner) => inner.message(),
        }
    }
}

impl OpenError {
    /// The text shown for the error.
    pub fn message(&self) -> (r: String)
        ensures
            r@ == self@.message(),
    {
        match self {
            OpenError::Config(inner) => inner.message(),
            OpenError::NoPhases { path } => {
                let mut out = "invalid config ".to_owned();
                out.push_str(path.as_str());
                out.push_str(": phases must not be empty");
                out
            },
            OpenError::Store(inner) => inner.message(),
        }
    }
}


/// The configuration of a project, the phase in which its tasks end, and its tasks.
pub open spec fn opening(project: ProjectView, files: ProjectFilesView) -> Result<
    (ConfigView, Seq<char>, TaskStoreView),
    OpenErrorView,
> {
    match project_config(project, files.config) {
        Err(e) => Err(OpenErrorView::Config(e)),
        Ok(config) => match config.terminal() {
            None => Err(OpenErrorView::NoPhases { path: config_path(project) }),
            Some(terminal) => match opened(project.state_dir, files.tasks, config) {
                Err(e) => Err(OpenErrorView::Store(e)),
                Ok(store) => Ok((config, terminal, store)),
            },
        },
    }
}

/// The configuration of a project, the phase in which its tasks end, and its tasks.
pub fn open_project(project: &Project, files: &ProjectFiles) -> (r: Result<
    (Config, String, TaskStore),
    OpenError,
>)
    ensures
        match r {
            Ok((config, terminal, store)) => opening(project@, files@) == Ok::<
                (ConfigView, Seq<char>, TaskStoreView),
                OpenErrorView,
            >((config@, terminal@, store@)),
            Err(e) => opening(project@, files@) == Err::<
                (ConfigView, Seq<char>, TaskStoreView),
                OpenErrorView,
            >(e@),
        },
{
    let config = match load_config(project, &files.config) {
        Err(e) => {
            return Err(OpenError::Config(e));
        },
        Ok(c) => c,
    };
    let terminal = match config.terminal_phase() {
        None => {
            return Err(OpenError::NoPhases { path: config_file(project) });
        },
        Some(p) => p.to_owned(),
    };
    match TaskStore::new(project.state_dir.as_str(), files.tasks.duplicate(), &config) {
        Err(e) => Err(OpenError::Store(e)),
        Ok(store) => Ok((config, terminal, store)),
    }
}

/// A reason that a user gave.
#[derive(Debug, PartialEq, Eq)]
pub enum ReasonGiven {
    Missing,
    Empty,
    Given { reason: String },
}

/// The contents of a `ReasonGiven`.
#[verifier::ext_equal]
pub enum ReasonGivenView {
    Missing,
    Empty,
    Given { reason: Seq<char> },
}

impl View for ReasonGiven {
    type V = ReasonGivenView;

    open spec fn view(&self) -> ReasonGivenView {
        match self {
            ReasonGiven::Missing => ReasonGivenView::Missing,
            ReasonGiven::Empty => ReasonGivenView::Empty,
            ReasonGiven::Given { reason } => ReasonGivenView::Given { reason: reason@ },
        }
    }
}

impl DeepView for ReasonGiven {
    type V = ReasonGivenView;

    open spec fn deep_view(&self) -> ReasonGivenView {
        self@
    }
}

impl Duplicate for ReasonGiven {
    fn duplicate(&self) -> (r: Self) {
        match self {
            ReasonGiven::Missing => ReasonGiven::Missing,
            ReasonGiven::Empty => ReasonGiven::Empty,
            ReasonGiven::Given { reason } => ReasonGiven::Given { reason: reason.duplicate() },
        }
    }
}

impl Clone for ReasonGiven {
    fn clone(&self) -> (r: Self)
        ensures
            r@ == self@,
    {
        self.duplicate()
    }
}


/// What a user gave as a reason.
pub open spec fn reason_given(reason: Option<Seq<char>>) -> ReasonGivenView {
    match reason {
        None => ReasonGivenView::Missing,
        Some(text) => if blank(text) {
            ReasonGivenView::Empty
        } else {
            ReasonGivenView::Given { reason: text }
        },
    }
}

/// What a user gave as a reason.
pub fn check_reason(reason: Option<&str>) -> (r: ReasonGiven)
    ensures
        r@ == reason_given(reason.deep_view()),
{
    match reason {
        None => ReasonGiven::Missing,
        Some(text) => if is_blank(text) {
            ReasonGiven::Empty
        } else {
            ReasonGiven::Given { reason: text.to_owned() }
        },
    }
}

} // verus!
