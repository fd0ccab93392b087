//! Keeping a task to oneself.

use vstd::prelude::*;

use crate::commands::report::{
    on_open, on_save, open_project, opening, quiet, OpenError, OpenErrorView, ProjectFiles,
    ProjectFilesView, Report, ReportView,
};
use crate::duplicate::{outcome, Duplicate};
use crate::engine::config::{ConfigError, ConfigErrorView, ConfigRead};
use crate::engine::project::{Project, ProjectView};
use crate::engine::tasks::{StoreError, StoreErrorView};
use crate::text::follow;
use crate::time::{rfc3339_text, Instant};

verus! {

/// Why a task could not be locked.
#[derive(Debug, PartialEq, Eq)]
pub enum LockError {
    TaskNotFound { id: String },
    ConfigNotFound { path: String },
    ConfigRead { path: String, message: String },
    ConfigLoad { path: String, message: String },
    InvalidConfig { path: String, reason: String },
    StoreError(StoreError),
}

/// The contents of a `LockError`.
#[verifier::ext_equal]
pub enum LockErrorView {
    TaskNotFound { id: Seq<char> },
    ConfigNotFound { path: Seq<char> },
    ConfigRead { path: Seq<char>, message: Seq<char> },
    ConfigLoad { path: Seq<char>, message: Seq<char> },
    InvalidConfig { path: Seq<char>, reason: Seq<char> },
    StoreError(StoreErrorView),
}

impl View for LockError {
    type V = LockErrorView;

    open spec fn view(&self) -> LockErrorView {
        match self {
            LockError::TaskNotFound { id } => LockErrorView::TaskNotFound { id: id@ },
            LockError::ConfigNotFound { path } => LockErrorView::ConfigNotFound { path: path@ },
            LockError::ConfigRead { path, message } => LockErrorView::ConfigRead { path: path@, message: message@ },
            LockError::ConfigLoad { path, message } => LockErrorView::ConfigLoad { path: path@, message: message@ },
            LockError::InvalidConfig { path, reason } => LockErrorView::InvalidConfig { path: path@, reason: reason@ },
            LockError::StoreError(inner) => LockErrorView::StoreError(inner@),
        }
    }
}

impl DeepView for LockError {
    type V = LockErrorView;

    open spec fn deep_view(&self) -> LockErrorView {
        self@
    }
}

impl Duplicate for LockError {
    fn duplicate(&self) -> (r: Self) {
        match self {
            LockError::TaskNotFound { id } => LockError::TaskNotFound { id: id.duplicate() },
            LockError::ConfigNotFound { path } => LockError::ConfigNotFound { path: path.duplicate() },
            LockError::ConfigRead { path, message } => LockError::ConfigRead { path: path.duplicate(), message: message.duplicate() },
            LockError::ConfigLoad { path, message } => LockError::ConfigLoad { path: path.duplicate(), message: message.duplicate() },
            LockError::InvalidConfig { path, reason } => LockError::InvalidConfig { path: path.duplicate(), reason: reason.duplicate() },
            LockError::StoreError(inner) => LockError::StoreError(inner.duplicate()),
        }
    }
}

impl Clone for LockError {
    fn clone(&self) -> (r: Self)
        ensures
            r@ == self@,
    {
        self.duplicate()
    }
}

impl LockErrorView {
    /// The text shown for the error.
    pub open spec fn message(self) -> Seq<char> {
        match self {
            LockErrorView::TaskNotFound { id } => "task "@ + id + " not found"@,
            LockErrorView::ConfigNotFound { path } => "config file not found: "@ + path,
            LockErrorView::ConfigRead { path, .. } => "failed to read "@ + path,
            LockErrorView::ConfigLoad { path, message } => "failed to load config "@ + path + ": "@ + message,
            LockErrorView::InvalidConfig { path, reason } => "invalid config "@ + path + ": "@ + reason,
            LockErrorView::StoreError(inner) => inner.message(),
        }
    }
}

impl LockError {
    /// The text shown for the error.
    pub fn message(&self) -> (r: String)
        ensures
            r@ == self@.message(),
    {
        match self {
            LockError::TaskNotFound { id } => {
                let mut out = "task ".to_owned();
                out.push_str(id.as_str());
                out.push_str(" not found");
                out
            },
            LockError::ConfigNotFound { path } => {
                let mut out = "config file not found: ".to_owned();
                out.push_str(path.as_str());
                out
            },
            LockError::ConfigRead { path, .. } => {
                let mut out = "failed to read ".to_owned();
                out.push_str(path.as_str());
                out
            },
            LockError::ConfigLoad { path, message } => {
                let mut out = "failed to load config ".to_owned();
                out.push_str(path.as_str());
                out.push_str(": ");
                out.push_str(message.as_str());
                out
            },
            LockError::InvalidConfig { path, reason } => {
                let mut out = "invalid config ".to_owned();
                out.push_str(path.as_str());
                out.push_str(": ");
                out.push_str(reason.as_str());
                out
            },
            LockError::StoreError(inner) => inner.message(),
        }
    }
}


/// The error for tasks that could not be worked on.
pub open spec fn lock_open_error(e: OpenErrorView) -> LockErrorView {
    match e {
        OpenErrorView::Config(c) => match c {
            ConfigErrorView::NotFound { path } => LockErrorView::ConfigNotFound { path },
            ConfigErrorView::Read { path, message } => LockErrorView::ConfigRead { path, message },
            ConfigErrorView::Parse { path, message } => LockErrorView::ConfigLoad { path, message },
            ConfigErrorView::Invalid { path, reason } => LockErrorView::InvalidConfig { path, reason },
        },
        OpenErrorView::NoPhases { path } => LockErrorView::InvalidConfig {
            path,
            reason: "phases must not be empty"@,
        },
        OpenErrorView::Store(s) => LockErrorView::StoreError(s),
    }
}

fn map_open_error(error: OpenError) -> (r: LockError)
    ensures
        r@ == lock_open_error(error@),
{
    match error {
        OpenError::Config(c) => match c {
            ConfigError::NotFound { path } => LockError::ConfigNotFound { path },
            ConfigError::Read { path, message } => LockError::ConfigRead { path, message },
            ConfigError::Parse { path, message } => LockError::ConfigLoad { path, message },
            ConfigError::Invalid { path, reason } => LockError::InvalidConfig { path, reason },
        },
        OpenError::NoPhases { path } => LockError::InvalidConfig {
            path,
            reason: "phases must not be empty".to_owned(),
        },
        OpenError::Store(s) => LockError::StoreError(s),
    }
}

/// The error for a change that the tasks refused.
pub open spec fn lock_store_error(e: StoreErrorView, id: Seq<char>) -> LockErrorView {
    match e {
        StoreErrorView::NotFound => LockErrorView::TaskNotFound { id },
        other => LockErrorView::StoreError(other),
    }
}

fn map_store_error(error: StoreError, id: &str) -> (r: LockError)
    ensures
        r@ == lock_store_error(error@, id@),
{
    match error {
        StoreError::NotFound => LockError::TaskNotFound { id: id.to_owned() },
        other => LockError::StoreError(other),
    }
}

/// What the command leaves to be done.
pub open spec fn lock(project: ProjectView, files: ProjectFilesView, id: Seq<char>, now: Instant) -> (
    ReportView,
    Result<(), LockErrorView>,
) {
    match opening(project, files) {
        Err(e) => (quiet(), Err(lock_open_error(e))),
        Ok((_, _, store)) => match store.set_lock(id, Some(rfc3339_text(now))) {
            Err(e) => (on_open(store), Err(lock_store_error(e, id))),
            Ok((after, _)) => (on_save(after).said(id + " locked"@), Ok(())),
        },
    }
}

/// Keeps a task to oneself from a point in time.
pub fn run_lock_at(project: &Project, files: &ProjectFiles, id: &str, now: Instant) -> (r: (
    Report,
    Result<(), LockError>,
))
    requires
        now.on_calendar(),
    ensures
        (r.0@, outcome(r.1)) == lock(project@, files@, id@, now),
{
    match open_project(project, files) {
        Err(e) => (Report::quiet(), Err(map_open_error(e))),
        Ok((_, _, store)) => {
            let mut store = store;
            let before = Report::on_open(&store);
            match store.lock_task_at(id, now.text().as_str()) {
                Err(e) => (before, Err(map_store_error(e, id))),
                Ok(_) => {
                    let mut report = Report::on_save(&store);
                    report.say(follow(id, " locked"));
                    (report, Ok(()))
                },
            }
        },
    }
}

/// Keeps a task to oneself.
pub fn run_lock(project: &Project, files: &ProjectFiles, id: &str) -> (r: (
    Report,
    Result<(), LockError>,
))
    ensures
        exists|now: Instant|
            now.on_calendar() && (r.0@, outcome(r.1)) == #[trigger] lock(
                project@,
                files@,
                id@,
                now,
            ),
{
    run_lock_at(project, files, id, Instant::now())
}

} // verus!
