//! Recording that a phase of a task is done.

use vstd::prelude::*;

use crate::commands::report::{left_by, on_open, on_save, quiet, Report, ReportView};
use crate::duplicate::{outcome, Duplicate};
use crate::engine::global_config::list_has;
use crate::engine::tasks::{
    find_task, opened, FAILED_STATE, StoreError, StoreErrorView, TaskPhaseView, TaskStore,
    TaskStoreView, TaskView,
};
use crate::linear::config::{
    as_workflow, line_as_workflow, load_project_config, loaded_line, ConfigError, ConfigErrorView,
    ConfigRead,
};
use crate::linear::project::{
    config_file, config_path, LineFiles, LineFilesView, Project, ProjectView,
};
use crate::text::{blank, follow, is_blank, str_eq};
use crate::time::{rfc3339_text, Instant};

verus! {

/// Why a phase could not be recorded as done.
#[derive(Debug, PartialEq, Eq)]
pub enum DoneError {
    MissingArtifact,
    EmptyArtifact,
    TaskNotFound { id: String },
    AlreadyTerminal { id: String, state: String },
    ConfigNotFound { path: String },
    ConfigRead { path: String, message: String },
    ConfigLoad { path: String, message: String },
    InvalidConfig { path: String, reason: String },
    StoreError(StoreError),
}

/// The contents of a `DoneError`.
#[verifier::ext_equal]
pub enum DoneErrorView {
    MissingArtifact,
    EmptyArtifact,
    TaskNotFound { id: Seq<char> },
    AlreadyTerminal { id: Seq<char>, state: Seq<char> },
    ConfigNotFound { path: Seq<char> },
    ConfigRead { path: Seq<char>, message: Seq<char> },
    ConfigLoad { path: Seq<char>, message: Seq<char> },
    InvalidConfig { path: Seq<char>, reason: Seq<char> },
    StoreError(StoreErrorView),
}

impl View for DoneError {
    type V = DoneErrorView;

    open spec fn view(&self) -> DoneErrorView {
        match self {
            DoneError::MissingArtifact => DoneErrorView::MissingArtifact,
            DoneError::EmptyArtifact => DoneErrorView::EmptyArtifact,
            DoneError::TaskNotFound { id } => DoneErrorView::TaskNotFound { id: id@ },
            DoneError::AlreadyTerminal { id, state } => DoneErrorView::AlreadyTerminal { id: id@, state: state@ },
            DoneError::ConfigNotFound { path } => DoneErrorView::ConfigNotFound { path: path@ },
            DoneError::ConfigRead { path, message } => DoneErrorView::ConfigRead { path: path@, message: message@ },
            DoneError::ConfigLoad { path, message } => DoneErrorView::ConfigLoad { path: path@, message: message@ },
            DoneError::InvalidConfig { path, reason } => DoneErrorView::InvalidConfig { path: path@, reason: reason@ },
            DoneError::StoreError(inner) => DoneErrorView::StoreError(inner@),
        }
    }
}

impl DeepView for DoneError {
    type V = DoneErrorView;

    open spec fn deep_view(&self) -> DoneErrorView {
        self@
    }
}

impl Duplicate for DoneError {
    fn duplicate(&self) -> (r: Self) {
        match self {
            DoneError::MissingArtifact => DoneError::MissingArtifact,
            DoneError::EmptyArtifact => DoneError::EmptyArtifact,
            DoneError::TaskNotFound { id } => DoneError::TaskNotFound { id: id.duplicate() },
            DoneError::AlreadyTerminal { id, state } => DoneError::AlreadyTerminal { id: id.duplicate(), state: state.duplicate() },
            DoneError::ConfigNotFound { path } => DoneError::ConfigNotFound { path: path.duplicate() },
            DoneError::ConfigRead { path, message } => DoneError::ConfigRead { path: path.duplicate(), message: message.duplicate() },
            DoneError::ConfigLoad { path, message } => DoneError::ConfigLoad { path: path.duplicate(), message: message.duplicate() },
            DoneError::InvalidConfig { path, reason } => DoneError::InvalidConfig { path: path.duplicate(), reason: reason.duplicate() },
            DoneError::StoreError(inner) => DoneError::StoreError(inner.duplicate()),
        }
    }
}

impl Clone for DoneError {
    fn clone(&self) -> (r: Self)
        ensures
            r@ == self@,
    {
        self.duplicate()
    }
}

impl DoneErrorView {
    /// The text shown for the error.
    pub open spec fn message(self) -> Seq<char> {
        match self {
            DoneErrorView::MissingArtifact => "--artifact is required"@,
            DoneErrorView::EmptyArtifact => "artifact must not be empty"@,
            DoneErrorView::TaskNotFound { id } => "task "@ + id + " not found"@,
            DoneErrorView::AlreadyTerminal { id, state } => "task "@ + id + " is already "@ + state,
            DoneErrorView::ConfigNotFound { path } => "config file not found: "@ + path,
            DoneErrorView::ConfigRead { path, .. } => "failed to read "@ + path,
            DoneErrorView::ConfigLoad { path, message } => "failed to load config "@ + path + ": "@ + message,
            DoneErrorView::InvalidConfig { path, reason } => "invalid config "@ + path + ": "@ + reason,
            DoneErrorView::StoreError(inner) => inner.message(),
        }
    }
}

impl DoneError {
    /// The text shown for the error.
    pub fn message(&self) -> (r: String)
        ensures
            r@ == self@.message(),
    {
        match self {
            DoneError::MissingArtifact => "--artifact is required".to_owned(),
            DoneError::EmptyArtifact => "artifact must not be empty".to_owned(),
            DoneError::TaskNotFound { id } => {
                let mut out = "task ".to_owned();
                out.push_str(id.as_str());
                out.push_str(" not found");
                out
            },
            DoneError::AlreadyTerminal { id, state } => {
                let mut out = "task ".to_owned();
                out.push_str(id.as_str());
                out.push_str(" is already ");
                out.push_str(state.as_str());
                out
            },
            DoneError::ConfigNotFound { path } => {
                let mut out = "config file not found: ".to_owned();
                out.push_str(path.as_str());
                out
            },
            DoneError::ConfigRead { path, .. } => {
                let mut out = "failed to read ".to_owned();
                out.push_str(path.as_str());
                out
            },
            DoneError::ConfigLoad { path, message } => {
                let mut out = "failed to load config ".to_owned();
                out.push_str(path.as_str());
                out.push_str(": ");
                out.push_str(message.as_str());
                out
            },
            DoneError::InvalidConfig { path, reason } => {
                let mut out = "invalid config ".to_owned();
                out.push_str(path.as_str());
                out.push_str(": ");
                out.push_str(reason.as_str());
                out
            },
            DoneError::StoreError(inner) => inner.message(),
        }
    }
}


/// The error for a configuration that could not be used.
pub open spec fn done_config_error(e: ConfigErrorView) -> DoneErrorView {
    match e {
        ConfigErrorView::NotFound { path } => DoneErrorView::ConfigNotFound { path },
        ConfigErrorView::Read { path, message } => DoneErrorView::ConfigRead { path, message },
        ConfigErrorView::Parse { path, message } => DoneErrorView::ConfigLoad { path, message },
    }
}

fn map_config_error(error: ConfigError) -> (r: DoneError)
    ensures
        r@ == done_config_error(error@),
{
    match error {
        ConfigError::NotFound { path } => DoneError::ConfigNotFound { path },
        ConfigError::Read { path, message } => DoneError::ConfigRead { path, message },
        ConfigError::Parse { path, message } => DoneError::ConfigLoad { path, message },
    }
}

/// The first of some dependencies from position `j` on that is not done.
pub open spec fn waits_for(tasks: Seq<TaskView>, deps: Seq<Seq<char>>, terminal: Seq<char>, j: int) -> Option<
    Seq<char>,
>
    decreases deps.len() - j,
{
    if j < 0 || j >= deps.len() {
        None
    } else if find_task(tasks, deps[j]) is Some && find_task(tasks, deps[j])->0.state == terminal {
        waits_for(tasks, deps, terminal, j + 1)
    } else {
        Some(deps[j])
    }
}

fn first_open_dependency(store: &TaskStore, deps: &Vec<String>, terminal: &str) -> (r: Option<String>)
    ensures
        r.deep_view() == waits_for(store@.tasks, deps.deep_view(), terminal@, 0),
{
    let mut j: usize = 0;
    while j < deps.len()
        invariant
            j <= deps.len(),
            waits_for(store@.tasks, deps.deep_view(), terminal@, 0) == waits_for(
                store@.tasks,
                deps.deep_view(),
                terminal@,
                j as int,
            ),
        decreases deps.len() - j,
    {
        assert(deps.deep_view()[j as int] == deps@[j as int]@);
        let done = match store.get_task(deps[j].as_str()) {
            Some(task) => str_eq(task.state.as_str(), terminal),
            None => false,
        };
        if !done {
            return Some(deps[j].clone());
        }
        j = j + 1;
    }
    None
}

/// Why the present phase of a task cannot be recorded as done.
pub open spec fn obstacle(s: TaskStoreView, names: Seq<Seq<char>>, id: Seq<char>) -> Option<DoneErrorView> {
    match find_task(s.tasks, id) {
        None => Some(DoneErrorView::TaskNotFound { id }),
        Some(t) => if t.state == names.last() || t.state == FAILED_STATE@ {
            Some(DoneErrorView::AlreadyTerminal { id, state: t.state })
        } else if !names.contains(t.state) {
            Some(
                DoneErrorView::StoreError(
                    StoreErrorView::InvalidTransition { from: t.state, to: Seq::empty() },
                ),
            )
        } else {
            match waits_for(s.tasks, t.dependencies, names.last(), 0) {
                Some(blocking_id) => Some(
                    DoneErrorView::StoreError(
                        StoreErrorView::DependencyBlocked { task_id: id, blocking_id },
                    ),
                ),
                None => None,
            }
        },
    }
}

fn find_obstacle(store: &TaskStore, names: &Vec<String>, id: &str) -> (r: Option<DoneError>)
    requires
        names@.len() > 0,
    ensures
        r.deep_view() == obstacle(store@, names.deep_view(), id@),
{
    let terminal = names[names.len() - 1].as_str();
    assert(names.deep_view().last() == terminal@);
    let task = match store.get_task(id) {
        None => {
            return Some(DoneError::TaskNotFound { id: id.to_owned() });
        },
        Some(t) => t,
    };
    let state = task.state.as_str();
    if str_eq(state, terminal) || str_eq(state, FAILED_STATE) {
        return Some(DoneError::AlreadyTerminal { id: id.to_owned(), state: state.to_owned() });
    }
    if !list_has(names, state) {
        return Some(
            DoneError::StoreError(
                StoreError::InvalidTransition { from: state.to_owned(), to: String::new() },
            ),
        );
    }
    match first_open_dependency(store, &task.dependencies, terminal) {
        Some(blocking_id) => Some(
            DoneError::StoreError(
                StoreError::DependencyBlocked { task_id: id.to_owned(), blocking_id },
            ),
        ),
        None => None,
    }
}

/// What is said of a task that advanced.
pub open spec fn advanced_line(id: Seq<char>, state: Seq<char>, terminal: Seq<char>) -> Seq<char> {
    if state == terminal {
        id + " done ✓"@
    } else {
        id + " → "@ + state
    }
}

/// What recording a phase of a task comes to where nothing is in the way: what came out of it is
/// kept, also where the task cannot advance then.
pub open spec fn phase_done(
    s: TaskStoreView,
    terminal: Seq<char>,
    id: Seq<char>,
    artifact: Seq<char>,
    timestamp: Seq<char>,
) -> (ReportView, Result<(), DoneErrorView>) {
    match s.record(id, TaskPhaseView { artifact, completed_at: timestamp }) {
        Err(e) => (on_open(s), Err(DoneErrorView::StoreError(e))),
        Ok((kept, _)) => match kept.advance(id, timestamp) {
            Err(e) => (on_save(kept), Err(DoneErrorView::StoreError(e))),
            Ok((after, _)) => (
                on_save(after).said(
                    advanced_line(
                        id,
                        match find_task(after.tasks, id) {
                            Some(t) => t.state,
                            None => terminal,
                        },
                        terminal,
                    ),
                ),
                Ok(()),
            ),
        },
    }
}

fn complete_phase(store: &mut TaskStore, terminal: &str, id: &str, artifact: &str, timestamp: &str) -> (r: (
    Report,
    Result<(), DoneError>,
))
    ensures
        (r.0@, outcome(r.1)) == phase_done(old(store)@, terminal@, id@, artifact@, timestamp@),
        final(store)@ == left_by(old(store)@, r.0@),
{
    let before = Report::on_open(store);
    match store.record_phase_artifact(id, artifact, timestamp.to_owned()) {
        Err(e) => {
            return (before, Err(DoneError::StoreError(e)));
        },
        Ok(_) => {},
    }
    let kept = Report::on_save(store);
    match store.next_phase_at(id, timestamp) {
        Err(e) => {
            return (kept, Err(DoneError::StoreError(e)));
        },
        Ok(_) => {},
    }
    let mut report = Report::on_save(store);
    let state = match store.get_task(id) {
        Some(t) => t.state.as_str(),
        None => terminal,
    };
    let line = if str_eq(state, terminal) {
        follow(id, " done ✓")
    } else {
        let mut text = follow(id, " → ");
        text.push_str(state);
        text
    };
    report.say(line);
    (report, Ok(()))
}

/// What recording a phase of a task as done leaves to be done.
pub open spec fn done_recorded(
    project: ProjectView,
    files: LineFilesView,
    id: Seq<char>,
    artifact: Option<Seq<char>>,
    now: Instant,
) -> (ReportView, Result<(), DoneErrorView>) {
    if artifact is None {
        (quiet(), Err(DoneErrorView::MissingArtifact))
    } else if blank(artifact->0) {
        (quiet(), Err(DoneErrorView::EmptyArtifact))
    } else {
        match loaded_line(
            config_path(project),
            files.config,
            project.global_config.default_max_retries,
        ) {
            Err(e) => (quiet(), Err(done_config_error(e))),
            Ok(config) => if config.names().len() == 0 {
                (
                    quiet(),
                    Err(
                        DoneErrorView::InvalidConfig {
                            path: config_path(project),
                            reason: "state_machine must not be empty"@,
                        },
                    ),
                )
            } else {
                match opened(project.state_dir, files.tasks, as_workflow(config)) {
                    Err(e) => (quiet(), Err(DoneErrorView::StoreError(e))),
                    Ok(s) => match obstacle(s, config.names(), id) {
                        Some(e) => (on_open(s), Err(e)),
                        None => phase_done(
                            s,
                            config.names().last(),
                            id,
                            artifact->0,
                            rfc3339_text(now),
                        ),
                    },
                }
            },
        }
    }
}

/// Records the present phase of a task as done at a point in time.
pub fn run_done_at(project: &Project, files: &LineFiles, id: &str, artifact: Option<&str>, now: Instant) -> (r: (
    Report,
    Result<(), DoneError>,
))
    requires
        now.on_calendar(),
    ensures
        (r.0@, outcome(r.1)) == done_recorded(project@, files@, id@, artifact.deep_view(), now),
{
    let artifact = match artifact {
        None => {
            return (Report::quiet(), Err(DoneError::MissingArtifact));
        },
        Some(text) => text,
    };
    if is_blank(artifact) {
        return (Report::quiet(), Err(DoneError::EmptyArtifact));
    }
    let path = config_file(project);
    let config = match load_project_config(path.as_str(), &files.config, &project.global_config) {
        Err(e) => {
            return (Report::quiet(), Err(map_config_error(e)));
        },
        Ok(c) => c,
    };
    let names = config.phase_names();
    assert(names.deep_view().len() == names.len());
    if names.len() == 0 {
        return (
            Report::quiet(),
            Err(
                DoneError::InvalidConfig {
                    path,
                    reason: "state_machine must not be empty".to_owned(),
                },
            ),
        );
    }
    let mut store = match TaskStore::new(
        project.state_dir.as_str(),
        files.tasks.duplicate(),
        &line_as_workflow(&config),
    ) {
        Err(e) => {
            return (Report::quiet(), Err(DoneError::StoreError(e)));
        },
        Ok(s) => s,
    };
    match find_obstacle(&store, &names, id) {
        Some(e) => {
            return (Report::on_open(&store), Err(e));
        },
        None => {},
    }
    let terminal = names[names.len() - 1].as_str();
    assert(names.deep_view().last() == terminal@);
    complete_phase(&mut store, terminal, id, artifact, now.text().as_str())
}

/// Records the present phase of a task as done.
pub fn run_done(project: &Project, files: &LineFiles, id: &str, artifact: Option<&str>) -> (r: (
    Report,
    Result<(), DoneError>,
))
    ensures
        exists|now: Instant|
            now.on_calendar() && (r.0@, outcome(r.1)) == #[trigger] done_recorded(
                project@,
                files@,
                id@,
                artifact.deep_view(),
                now,
            ),
{
    run_done_at(project, files, id, artifact, Instant::now())
}

} // verus!
