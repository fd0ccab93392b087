//! Taking a task out that was not started.

use vstd::prelude::*;

use crate::commands::report::{
    config_file, config_path, left_by, on_open, on_save, open_project, opening, quiet, OpenError,
    OpenErrorView, ProjectFiles, ProjectFilesView, Report, ReportView,
};
use crate::duplicate::{outcome, Duplicate};
use crate::engine::config::{ConfigError, ConfigErrorView};
use crate::engine::global_config::list_has;
use crate::engine::project::{Project, ProjectView};
use crate::engine::tasks::{
    find_task, StoreError, StoreErrorView, Task, TaskStore, TaskStoreView, TaskView,
};
use crate::text::{first_where, follow, is_first, lemma_first_is, lemma_first_none, str_eq};

verus! {

/// Why a task could not be taken out.
#[derive(Debug, PartialEq, Eq)]
pub enum RemoveError {
    TaskNotFound { id: String },
    NotPending { id: String, state: String },
    HasDependents { id: String, dependent_id: String },
    ConfigNotFound { path: String },
    ConfigLoad { path: String, message: String },
    InvalidConfig { path: String, message: String },
    StoreError(StoreError),
}

/// The contents of a `RemoveError`.
#[verifier::ext_equal]
pub enum RemoveErrorView {
    TaskNotFound { id: Seq<char> },
    NotPending { id: Seq<char>, state: Seq<char> },
    HasDependents { id: Seq<char>, dependent_id: Seq<char> },
    ConfigNotFound { path: Seq<char> },
    ConfigLoad { path: Seq<char>, message: Seq<char> },
    InvalidConfig { path: Seq<char>, message: Seq<char> },
    StoreError(StoreErrorView),
}

impl View for RemoveError {
    type V = RemoveErrorView;

    open spec fn view(&self) -> RemoveErrorView {
        match self {
            RemoveError::TaskNotFound { id } => RemoveErrorView::TaskNotFound { id: id@ },
            RemoveError::NotPending { id, state } => RemoveErrorView::NotPending { id: id@, state: state@ },
            RemoveError::HasDependents { id, dependent_id } => RemoveErrorView::HasDependents { id: id@, dependent_id: dependent_id@ },
            RemoveError::ConfigNotFound { path } => RemoveErrorView::ConfigNotFound { path: path@ },
            RemoveError::ConfigLoad { path, message } => RemoveErrorView::ConfigLoad { path: path@, message: message@ },
            RemoveError::InvalidConfig { path, message } => RemoveErrorView::InvalidConfig { path: path@, message: message@ },
            RemoveError::StoreError(inner) => RemoveErrorView::StoreError(inner@),
        }
    }
}

impl DeepView for RemoveError {
    type V = RemoveErrorView;

    open spec fn deep_view(&self) -> RemoveErrorView {
        self@
    }
}

impl Duplicate for RemoveError {
    fn duplicate(&self) -> (r: Self) {
        match self {
            RemoveError::TaskNotFound { id } => RemoveError::TaskNotFound { id: id.duplicate() },
            RemoveError::NotPending { id, state } => RemoveError::NotPending { id: id.duplicate(), state: state.duplicate() },
            RemoveError::HasDependents { id, dependent_id } => RemoveError::HasDependents { id: id.duplicate(), dependent_id: dependent_id.duplicate() },
            RemoveError::ConfigNotFound { path } => RemoveError::ConfigNotFound { path: path.duplicate() },
            RemoveError::ConfigLoad { path, message } => RemoveError::ConfigLoad { path: path.duplicate(), message: message.duplicate() },
            RemoveError::InvalidConfig { path, message } => RemoveError::InvalidConfig { path: path.duplicate(), message: message.duplicate() },
            RemoveError::StoreError(inner) => RemoveError::StoreError(inner.duplicate()),
        }
    }
}

impl Clone for RemoveError {
    fn clone(&self) -> (r: Self)
        ensures
            r@ == self@,
    {
        self.duplicate()
    }
}

impl RemoveErrorView {
    /// The text shown for the error.
    pub open spec fn message(self) -> Seq<char> {
        match self {
            RemoveErrorView::TaskNotFound { id } => "task "@ + id + " not found"@,
            RemoveErrorView::NotPending { id, state } => "task "@ + id + " is "@ + state + " and cannot be removed"@,
            RemoveErrorView::HasDependents { id, dependent_id } => "task "@ + id + " is depended on by "@ + dependent_id,
            RemoveErrorView::ConfigNotFound { path } => "config file not found: "@ + path,
            RemoveErrorView::ConfigLoad { path, message } => "failed to load config "@ + path + ": "@ + message,
            RemoveErrorView::InvalidConfig { path, message } => "invalid config "@ + path + ": "@ + message,
            RemoveErrorView::StoreError(inner) => inner.message(),
        }
    }
}

impl RemoveError {
    /// The text shown for the error.
    pub fn message(&self) -> (r: String)
        ensures
            r@ == self@.message(),
    {
        match self {
            RemoveError::TaskNotFound { id } => {
                let mut out = "task ".to_owned();
                out.push_str(id.as_str());
                out.push_str(" not found");
                out
            },
            RemoveError::NotPending { id, state } => {
                let mut out = "task ".to_owned();
                out.push_str(id.as_str());
                out.push_str(" is ");
                out.push_str(state.as_str());
                out.push_str(" and cannot be removed");
                out
            },
            RemoveError::HasDependents { id, dependent_id } => {
                let mut out = "task ".to_owned();
                out.push_str(id.as_str());
                out.push_str(" is depended on by ");
                out.push_str(dependent_id.as_str());
                out
            },
            RemoveError::ConfigNotFound { path } => {
                let mut out = "config file not found: ".to_owned();
                out.push_str(path.as_str());
                out
            },
            RemoveError::ConfigLoad { path, message } => {
                let mut out = "failed to load config ".to_owned();
                out.push_str(path.as_str());
                out.push_str(": ");
                out.push_str(message.as_str());
                out
            },
            RemoveError::InvalidConfig { path, message } => {
                let mut out = "invalid config ".to_owned();
                out.push_str(path.as_str());
                out.push_str(": ");
                out.push_str(message.as_str());
                out
            },
            RemoveError::StoreError(inner) => inner.message(),
        }
    }
}


/// The error for tasks that could not be worked on.
pub open spec fn remove_open_error(e: OpenErrorView) -> RemoveErrorView {
    match e {
        OpenErrorView::Config(c) => match c {
            ConfigErrorView::NotFound { path } => RemoveErrorView::ConfigNotFound { path },
            ConfigErrorView::Read { path, message } => RemoveErrorView::ConfigLoad { path, message },
            ConfigErrorView::Parse { path, message } => RemoveErrorView::ConfigLoad { path, message },
            ConfigErrorView::Invalid { path, reason } => RemoveErrorView::InvalidConfig {
                path,
                message: reason,
            },
        },
        OpenErrorView::NoPhases { path } => RemoveErrorView::InvalidConfig {
            path,
            message: "phases must not be empty"@,
        },
        OpenErrorView::Store(s) => RemoveErrorView::StoreError(s),
    }
}

fn map_open_error(error: OpenError) -> (r: RemoveError)
    ensures
        r@ == remove_open_error(error@),
{
    match error {
        OpenError::Config(c) => match c {
            ConfigError::NotFound { path } => RemoveError::ConfigNotFound { path },
            ConfigError::Read { path, message } => RemoveError::ConfigLoad { path, message },
            ConfigError::Parse { path, message } => RemoveError::ConfigLoad { path, message },
            ConfigError::Invalid { path, reason } => RemoveError::InvalidConfig {
                path,
                message: reason,
            },
        },
        OpenError::NoPhases { path } => RemoveError::InvalidConfig {
            path,
            message: "phases must not be empty".to_owned(),
        },
        OpenError::Store(s) => RemoveError::StoreError(s),
    }
}

/// The error for a change that the tasks refused.
pub open spec fn remove_store_error(e: StoreErrorView, s: TaskStoreView, id: Seq<char>) -> RemoveErrorView {
    match e {
        StoreErrorView::NotFound => RemoveErrorView::TaskNotFound { id },
        StoreErrorView::NotInPendingPhase { .. } => match find_task(s.tasks, id) {
            Some(t) => RemoveErrorView::NotPending { id, state: t.state },
            None => RemoveErrorView::TaskNotFound { id },
        },
        StoreErrorView::DependedOnBy { dependent_id, .. } => RemoveErrorView::HasDependents {
            id,
            dependent_id,
        },
        other => RemoveErrorView::StoreError(other),
    }
}

fn map_store_error(error: StoreError, store: &TaskStore, id: &str) -> (r: RemoveError)
    ensures
        r@ == remove_store_error(error@, store@, id@),
{
    match error {
        StoreError::NotFound => RemoveError::TaskNotFound { id: id.to_owned() },
        StoreError::NotInPendingPhase { .. } => match store.get_task(id) {
            Some(t) => RemoveError::NotPending { id: id.to_owned(), state: t.state.clone() },
            None => RemoveError::TaskNotFound { id: id.to_owned() },
        },
        StoreError::DependedOnBy { dependent_id, .. } => RemoveError::HasDependents {
            id: id.to_owned(),
            dependent_id,
        },
        other => RemoveError::StoreError(other),
    }
}

/// Another task that waits for the one with an id.
pub open spec fn waits_for(id: Seq<char>) -> spec_fn(TaskView) -> bool {
    |t: TaskView| t.id != id && t.dependencies.contains(id)
}

fn first_waiting(tasks: &[Task], id: &str) -> (r: Option<usize>)
    ensures
        match r {
            Some(i) => first_where(tasks.deep_view(), waits_for(id@)) == Some(i as int) && i
                < tasks@.len(),
            None => first_where(tasks.deep_view(), waits_for(id@)) is None,
        },
{
    let ghost all = tasks.deep_view();
    let ghost p = waits_for(id@);
    let mut i: usize = 0;
    while i < tasks.len()
        invariant
            i <= tasks.len(),
            all == tasks.deep_view(),
            p == waits_for(id@),
            forall|j: int| 0 <= j < i ==> !p(#[trigger] all[j]),
        decreases tasks.len() - i,
    {
        assert(all[i as int] == tasks@[i as int]@);
        if !str_eq(tasks[i].id.as_str(), id) && list_has(&tasks[i].dependencies, id) {
            proof {
                assert(is_first(all, p, i as int));
                lemma_first_is(all, p, i as int);
            }
            return Some(i);
        }
        i = i + 1;
    }
    proof {
        lemma_first_none(all, p);
    }
    None
}

/// What taking a task out leaves to be done.
pub open spec fn remove_flow(s: TaskStoreView, pending: Seq<char>, id: Seq<char>) -> (
    ReportView,
    Result<(), RemoveErrorView>,
) {
    match find_task(s.tasks, id) {
        None => (on_open(s), Err(RemoveErrorView::TaskNotFound { id })),
        Some(t) => if t.state != pending {
            (on_open(s), Err(RemoveErrorView::NotPending { id, state: t.state }))
        } else {
            match first_where(s.tasks, waits_for(id)) {
                Some(i) => (
                    on_open(s),
                    Err(RemoveErrorView::HasDependents { id, dependent_id: s.tasks[i].id }),
                ),
                None => match s.remove(id) {
                    Err(e) => (on_open(s), Err(remove_store_error(e, s, id))),
                    Ok((after, _)) => (on_save(after).said(id + " removed"@), Ok(())),
                },
            }
        },
    }
}

/// What the command to take a task out leaves to be done.
pub open spec fn remove(project: ProjectView, files: ProjectFilesView, id: Seq<char>) -> (
    ReportView,
    Result<(), RemoveErrorView>,
) {
    match opening(project, files) {
        Err(e) => (quiet(), Err(remove_open_error(e))),
        Ok((config, _, store)) => match config.initial() {
            None => (
                quiet(),
                Err(remove_open_error(OpenErrorView::NoPhases { path: config_path(project) })),
            ),
            Some(pending) => remove_flow(store, pending, id),
        },
    }
}

/// Takes a task out of a store.
pub fn remove_task_flow(store: &mut TaskStore, pending_phase: &str, id: &str) -> (r: (
    Report,
    Result<(), RemoveError>,
))
    ensures
        (r.0@, outcome(r.1)) == remove_flow(old(store)@, pending_phase@, id@),
        final(store)@ == left_by(old(store)@, r.0@),
{
    let before = Report::on_open(store);
    match store.get_task(id) {
        None => {
            return (before, Err(RemoveError::TaskNotFound { id: id.to_owned() }));
        },
        Some(t) => {
            if !str_eq(t.state.as_str(), pending_phase) {
                return (
                    before,
                    Err(RemoveError::NotPending { id: id.to_owned(), state: t.state.clone() }),
                );
            }
        },
    }
    let all = store.all_tasks();
    match first_waiting(all, id) {
        Some(i) => {
            assert(all.deep_view()[i as int] == all@[i as int]@);
            return (
                before,
                Err(
                    RemoveError::HasDependents {
                        id: id.to_owned(),
                        dependent_id: all[i].id.clone(),
                    },
                ),
            );
        },
        None => {},
    }
    match store.remove_task(id) {
        Err(e) => (before, Err(map_store_error(e, store, id))),
        Ok(_) => {
            let mut report = Report::on_save(store);
            report.say(follow(id, " removed"));
            (report, Ok(()))
        },
    }
}

/// Takes a task out that was not started.
pub fn run_remove(project: &Project, files: &ProjectFiles, id: &str) -> (r: (
    Report,
    Result<(), RemoveError>,
))
    ensures
        (r.0@, outcome(r.1)) == remove(project@, files@, id@),
{
    match open_project(project, files) {
        Err(e) => (Report::quiet(), Err(map_open_error(e))),
        Ok((config, _, store)) => match config.initial_phase() {
            None => (
                Report::quiet(),
                Err(map_open_error(OpenError::NoPhases { path: config_file(project) })),
            ),
            Some(pending) => {
                let mut store = store;
                remove_task_flow(&mut store, pending, id)
            },
        },
    }
}

} // verus!
