//! Giving a task back that was kept.

use vstd::prelude::*;

use crate::commands::report::{
    on_open, on_save, open_project, opening, quiet, OpenError, OpenErrorView, ProjectFiles,
    ProjectFilesView, Report, ReportView,
};
use crate::duplicate::{outcome, Duplicate};
use crate::engine::config::{ConfigError, ConfigErrorView, ConfigRead};
use crate::engine::project::{Project, ProjectView};
use crate::engine::tasks::{StoreError, StoreErrorView};
use crate::text::follow;

verus! {

/// Why a task could not be unlocked.
#[derive(Debug, PartialEq, Eq)]
pub enum UnlockError {
    TaskNotFound { id: String },
    ConfigNotFound { path: String },
    ConfigRead { path: String, message: String },
    ConfigLoad { path: String, message: String },
    InvalidConfig { path: String, reason: String },
    StoreError(StoreError),
}

/// The contents of a `UnlockError`.
#[verifier::ext_equal]
pub enum UnlockErrorView {
    TaskNotFound { id: Seq<char> },
    ConfigNotFound { path: Seq<char> },
    ConfigRead { path: Seq<char>, message: Seq<char> },
    ConfigLoad { path: Seq<char>, message: Seq<char> },
    InvalidConfig { path: Seq<char>, reason: Seq<char> },
    StoreError(StoreErrorView),
}

impl View for UnlockError {
    type V = UnlockErrorView;

    open spec fn view(&self) -> UnlockErrorView {
        match self {
            UnlockError::TaskNotFound { id } => UnlockErrorView::TaskNotFound { id: id@ },
            UnlockError::ConfigNotFound { path } => UnlockErrorView::ConfigNotFound { path: path@ },
            UnlockError::ConfigRead { path, message } => UnlockErrorView::ConfigRead { path: path@, message: message@ },
            UnlockError::ConfigLoad { path, message } => UnlockErrorView::ConfigLoad { path: path@, message: message@ },
            UnlockError::InvalidConfig { path, reason } => UnlockErrorView::InvalidConfig { path: path@, reason: reason@ },
            UnlockError::StoreError(inner) => UnlockErrorView::StoreError(inner@),
        }
    }
}

impl DeepView for UnlockError {
    type V = UnlockErrorView;

    open spec fn deep_view(&self) -> UnlockErrorView {
        self@
    }
}

impl Duplicate for UnlockError {
    fn duplicate(&self) -> (r: Self) {
        match self {
            UnlockError::TaskNotFound { id } => UnlockError::TaskNotFound { id: id.duplicate() },
            UnlockError::ConfigNotFound { path } => UnlockError::ConfigNotFound { path: path.duplicate() },
            UnlockError::ConfigRead { path, message } => UnlockError::ConfigRead { path: path.duplicate(), message: message.duplicate() },
            UnlockError::ConfigLoad { path, message } => UnlockError::ConfigLoad { path: path.duplicate(), message: message.duplicate() },
            UnlockError::InvalidConfig { path, reason } => UnlockError::InvalidConfig { path: path.duplicate(), reason: reason.duplicate() },
            UnlockError::StoreError(inner) => UnlockError::StoreError(inner.duplicate()),
        }
    }
}

impl Clone for UnlockError {
    fn clone(&self) -> (r: Self)
        ensures
            r@ == self@,
    {
        self.duplicate()
    }
}

impl UnlockErrorView {
    /// The text shown for the error.
    pub open spec fn message(self) -> Seq<char> {
        match self {
            UnlockErrorView::TaskNotFound { id } => "task "@ + id + " not found"@,
            UnlockErrorView::ConfigNotFound { path } => "config file not found: "@ + path,
            UnlockErrorView::ConfigRead { path, .. } => "failed to read "@ + path,
            UnlockErrorView::ConfigLoad { path, message } => "failed to load config "@ + path + ": "@ + message,
            UnlockErrorView::InvalidConfig { path, reason } => "invalid config "@ + path + ": "@ + reason,
            UnlockErrorView::StoreError(inner) => inner.message(),
        }
    }
}

impl UnlockError {
    /// The text shown for the error.
    pub fn message(&self) -> (r: String)
        ensures
            r@ == self@.message(),
    {
        match self {
            UnlockError::TaskNotFound { id } => {
                let mut out = "task ".to_owned();
                out.push_str(id.as_str());
                out.push_str(" not found");
                out
            },
            UnlockError::ConfigNotFound { path } => {
                let mut out = "config file not found: ".to_owned();
                out.push_str(path.as_str());
                out
            },
            UnlockError::ConfigRead { path, .. } => {
                let mut out = "failed to read ".to_owned();
                out.push_str(path.as_str());
                out
            },
            UnlockError::ConfigLoad { path, message } => {
                let mut out = "failed to load config ".to_owned();
                out.push_str(path.as_str());
                out.push_str(": ");
                out.push_str(message.as_str());
                out
            },
            UnlockError::InvalidConfig { path, reason } => {
                let mut out = "invalid config ".to_owned();
                out.push_str(path.as_str());
                out.push_str(": ");
                out.push_str(reason.as_str());
                out
            },
            UnlockError::StoreError(inner) => inner.message(),
        }
    }
}


/// The error for tasks that could not be worked on.
pub open spec fn unlock_open_error(e: OpenErrorView) -> UnlockErrorView {
    match e {
        OpenErrorView::Config(c) => match c {
            ConfigErrorView::NotFound { path } => UnlockErrorView::ConfigNotFound { path },
            ConfigErrorView::Read { path, message } => UnlockErrorView::ConfigRead { path, message },
            ConfigErrorView::Parse { path, message } => UnlockErrorView::ConfigLoad { path, message },
            ConfigErrorView::Invalid { path, reason } => UnlockErrorView::InvalidConfig { path, reason },
        },
        OpenErrorView::NoPhases { path } => UnlockErrorView::InvalidConfig {
            path,
            reason: "phases must not be empty"@,
        },
        OpenErrorView::Store(s) => UnlockErrorView::StoreError(s),
    }
}

fn map_open_error(error: OpenError) -> (r: UnlockError)
    ensures
        r@ == unlock_open_error(error@),
{
    match error {
        OpenError::Config(c) => match c {
            ConfigError::NotFound { path } => UnlockError::ConfigNotFound { path },
            ConfigError::Read { path, message } => UnlockError::ConfigRead { path, message },
            ConfigError::Parse { path, message } => UnlockError::ConfigLoad { path, message },
            ConfigError::Invalid { path, reason } => UnlockError::InvalidConfig { path, reason },
        },
        OpenError::NoPhases { path } => UnlockError::InvalidConfig {
            path,
            reason: "phases must not be empty".to_owned(),
        },
        OpenError::Store(s) => UnlockError::StoreError(s),
    }
}

/// The error for a change that the tasks refused.
pub open spec fn unlock_store_error(e: StoreErrorView, id: Seq<char>) -> UnlockErrorView {
    match e {
        StoreErrorView::NotFound => UnlockErrorView::TaskNotFound { id },
        other => UnlockErrorView::StoreError(other),
    }
}

fn map_store_error(error: StoreError, id: &str) -> (r: UnlockError)
    ensures
        r@ == unlock_store_error(error@, id@),
{
    match error {
        StoreError::NotFound => UnlockError::TaskNotFound { id: id.to_owned() },
        other => UnlockError::StoreError(other),
    }
}

/// What the command leaves to be done.
pub open spec fn unlock(project: ProjectView, files: ProjectFilesView, id: Seq<char>) -> (
    ReportView,
    Result<(), UnlockErrorView>,
) {
    match opening(project, files) {
        Err(e) => (quiet(), Err(unlock_open_error(e))),
        Ok((_, _, store)) => match store.set_lock(id, None) {
            Err(e) => (on_open(store), Err(unlock_store_error(e, id))),
            Ok((after, _)) => (on_save(after).said(id + " unlocked"@), Ok(())),
        },
    }
}

/// Gives a task back that was kept.
pub fn run_unlock(project: &Project, files: &ProjectFiles, id: &str) -> (r: (
    Report,
    Result<(), UnlockError>,
))
    ensures
        (r.0@, outcome(r.1)) == unlock(project@, files@, id@),
{
    match open_project(project, files) {
        Err(e) => (Report::quiet(), Err(map_open_error(e))),
        Ok((_, _, store)) => {
            let mut store = store;
            let before = Report::on_open(&store);
            match store.unlock_task(id) {
                Err(e) => (before, Err(map_store_error(e, id))),
                Ok(_) => {
                    let mut report = Report::on_save(&store);
                    report.say(follow(id, " unlocked"));
                    (report, Ok(()))
                },
            }
        },
    }
}

} // verus!
