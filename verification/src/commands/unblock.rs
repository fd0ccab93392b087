//! Taking a task up again once a decision is made.

use vstd::prelude::*;

use crate::commands::report::{
    left_by, on_open, on_save, open_project, opening, quiet, OpenError, OpenErrorView, ProjectFiles,
    ProjectFilesView, Report, ReportView,
};
use crate::commands::runner::{text_or, text_or_str};
use crate::duplicate::{outcome, Duplicate};
use crate::engine::config::{ConfigError, ConfigErrorView, ConfigRead};
use crate::engine::project::{Project, ProjectView};
use crate::engine::tasks::{
    find_task, BLOCKED_STATE, StoreError, StoreErrorView, TaskStore, TaskStoreView,
};
use crate::text::{follow, str_eq};
use crate::time::{rfc3339_text, Instant};

verus! {

/// Why a task could not be taken up again.
#[derive(Debug, PartialEq, Eq)]
pub enum UnblockError {
    TaskNotFound { id: String },
    NotBlocked { id: String },
    ConfigNotFound { path: String },
    ConfigRead { path: String, message: String },
    ConfigLoad { path: String, message: String },
    InvalidConfig { path: String, reason: String },
    StoreError(StoreError),
}

/// The contents of a `UnblockError`.
#[verifier::ext_equal]
pub enum UnblockErrorView {
    TaskNotFound { id: Seq<char> },
    NotBlocked { id: Seq<char> },
    ConfigNotFound { path: Seq<char> },
    ConfigRead { path: Seq<char>, message: Seq<char> },
    ConfigLoad { path: Seq<char>, message: Seq<char> },
    InvalidConfig { path: Seq<char>, reason: Seq<char> },
    StoreError(StoreErrorView),
}

impl View for UnblockError {
    type V = UnblockErrorView;

    open spec fn view(&self) -> UnblockErrorView {
        match self {
            UnblockError::TaskNotFound { id } => UnblockErrorView::TaskNotFound { id: id@ },
            UnblockError::NotBlocked { id } => UnblockErrorView::NotBlocked { id: id@ },
            UnblockError::ConfigNotFound { path } => UnblockErrorView::ConfigNotFound { path: path@ },
            UnblockError::ConfigRead { path, message } => UnblockErrorView::ConfigRead { path: path@, message: message@ },
            UnblockError::ConfigLoad { path, message } => UnblockErrorView::ConfigLoad { path: path@, message: message@ },
            UnblockError::InvalidConfig { path, reason } => UnblockErrorView::InvalidConfig { path: path@, reason: reason@ },
            UnblockError::StoreError(inner) => UnblockErrorView::StoreError(inner@),
        }
    }
}

impl DeepView for UnblockError {
    type V = UnblockErrorView;

    open spec fn deep_view(&self) -> UnblockErrorView {
        self@
    }
}

impl Duplicate for UnblockError {
    fn duplicate(&self) -> (r: Self) {
        match self {
            UnblockError::TaskNotFound { id } => UnblockError::TaskNotFound { id: id.duplicate() },
            UnblockError::NotBlocked { id } => UnblockError::NotBlocked { id: id.duplicate() },
            UnblockError::ConfigNotFound { path } => UnblockError::ConfigNotFound { path: path.duplicate() },
            UnblockError::ConfigRead { path, message } => UnblockError::ConfigRead { path: path.duplicate(), message: message.duplicate() },
            UnblockError::ConfigLoad { path, message } => UnblockError::ConfigLoad { path: path.duplicate(), message: message.duplicate() },
            UnblockError::InvalidConfig { path, reason } => UnblockError::InvalidConfig { path: path.duplicate(), reason: reason.duplicate() },
            UnblockError::StoreError(inner) => UnblockError::StoreError(inner.duplicate()),
        }
    }
}

impl Clone for UnblockError {
    fn clone(&self) -> (r: Self)
        ensures
            r@ == self@,
    {
        self.duplicate()
    }
}

impl UnblockErrorView {
    /// The text shown for the error.
    pub open spec fn message(self) -> Seq<char> {
        match self {
            UnblockErrorView::TaskNotFound { id } => "task "@ + id + " not found"@,
            UnblockErrorView::NotBlocked { id } => "task "@ + id + " is not blocked"@,
            UnblockErrorView::ConfigNotFound { path } => "config file not found: "@ + path,
            UnblockErrorView::ConfigRead { path, .. } => "failed to read "@ + path,
            UnblockErrorView::ConfigLoad { path, message } => "failed to load config "@ + path + ": "@ + message,
            UnblockErrorView::InvalidConfig { path, reason } => "invalid config "@ + path + ": "@ + reason,
            UnblockErrorView::StoreError(inner) => inner.message(),
        }
    }
}

impl UnblockError {
    /// The text shown for the error.
    pub fn message(&self) -> (r: String)
        ensures
            r@ == self@.message(),
    {
        match self {
            UnblockError::TaskNotFound { id } => {
                let mut out = "task ".to_owned();
                out.push_str(id.as_str());
                out.push_str(" not found");
                out
            },
            UnblockError::NotBlocked { id } => {
                let mut out = "task ".to_owned();
                out.push_str(id.as_str());
                out.push_str(" is not blocked");
                out
            },
            UnblockError::ConfigNotFound { path } => {
                let mut out = "config file not found: ".to_owned();
                out.push_str(path.as_str());
                out
            },
            UnblockError::ConfigRead { path, .. } => {
                let mut out = "failed to read ".to_owned();
                out.push_str(path.as_str());
                out
            },
            UnblockError::ConfigLoad { path, message } => {
                let mut out = "failed to load config ".to_owned();
                out.push_str(path.as_str());
                out.push_str(": ");
                out.push_str(message.as_str());
                out
            },
            UnblockError::InvalidConfig { path, reason } => {
                let mut out = "invalid config ".to_owned();
                out.push_str(path.as_str());
                out.push_str(": ");
                out.push_str(reason.as_str());
                out
            },
            UnblockError::StoreError(inner) => inner.message(),
        }
    }
}


/// The error for tasks that could not be worked on.
pub open spec fn unblock_open_error(e: OpenErrorView) -> UnblockErrorView {
    match e {
        OpenErrorView::Config(c) => match c {
            ConfigErrorView::NotFound { path } => UnblockErrorView::ConfigNotFound { path },
            ConfigErrorView::Read { path, message } => UnblockErrorView::ConfigRead { path, message },
            ConfigErrorView::Parse { path, message } => UnblockErrorView::ConfigLoad { path, message },
            ConfigErrorView::Invalid { path, reason } => UnblockErrorView::InvalidConfig { path, reason },
        },
        OpenErrorView::NoPhases { path } => UnblockErrorView::InvalidConfig {
            path,
            reason: "phases must not be empty"@,
        },
        OpenErrorView::Store(s) => UnblockErrorView::StoreError(s),
    }
}

fn map_open_error(error: OpenError) -> (r: UnblockError)
    ensures
        r@ == unblock_open_error(error@),
{
    match error {
        OpenError::Config(c) => match c {
            ConfigError::NotFound { path } => UnblockError::ConfigNotFound { path },
            ConfigError::Read { path, message } => UnblockError::ConfigRead { path, message },
            ConfigError::Parse { path, message } => UnblockError::ConfigLoad { path, message },
            ConfigError::Invalid { path, reason } => UnblockError::InvalidConfig { path, reason },
        },
        OpenError::NoPhases { path } => UnblockError::InvalidConfig {
            path,
            reason: "phases must not be empty".to_owned(),
        },
        OpenError::Store(s) => UnblockError::StoreError(s),
    }
}

/// The error for a change that the tasks refused.
pub open spec fn unblock_store_error(e: StoreErrorView, id: Seq<char>) -> UnblockErrorView {
    match e {
        StoreErrorView::NotFound => UnblockErrorView::TaskNotFound { id },
        StoreErrorView::NotBlocked => UnblockErrorView::NotBlocked { id },
        other => UnblockErrorView::StoreError(other),
    }
}

fn map_store_error(error: StoreError, id: &str) -> (r: UnblockError)
    ensures
        r@ == unblock_store_error(error@, id@),
{
    match error {
        StoreError::NotFound => UnblockError::TaskNotFound { id: id.to_owned() },
        StoreError::NotBlocked => UnblockError::NotBlocked { id: id.to_owned() },
        other => UnblockError::StoreError(other),
    }
}

/// What taking a task up again leaves to be done.
pub open spec fn unblock_flow(s: TaskStoreView, id: Seq<char>, timestamp: Seq<char>) -> (
    ReportView,
    Result<(), UnblockErrorView>,
) {
    match find_task(s.tasks, id) {
        None => (on_open(s), Err(UnblockErrorView::TaskNotFound { id })),
        Some(t) => if t.state != BLOCKED_STATE@ {
            (on_open(s), Err(UnblockErrorView::NotBlocked { id }))
        } else {
            match s.unblock(id, timestamp) {
                Err(e) => (on_open(s), Err(unblock_store_error(e, id))),
                Ok((after, _)) => (
                    on_save(after).said(
                        id + " unblocked: "@ + text_or(t.blocked_at_phase, "unknown"@),
                    ),
                    Ok(()),
                ),
            }
        },
    }
}

/// What the command to take a task up again leaves to be done.
pub open spec fn unblock(project: ProjectView, files: ProjectFilesView, id: Seq<char>, now: Instant) -> (
    ReportView,
    Result<(), UnblockErrorView>,
) {
    match opening(project, files) {
        Err(e) => (quiet(), Err(unblock_open_error(e))),
        Ok((_, _, store)) => unblock_flow(store, id, rfc3339_text(now)),
    }
}

/// Takes a task of a store up again.
pub fn unblock_task_flow(store: &mut TaskStore, id: &str, timestamp: &str) -> (r: (
    Report,
    Result<(), UnblockError>,
))
    ensures
        (r.0@, outcome(r.1)) == unblock_flow(old(store)@, id@, timestamp@),
        final(store)@ == left_by(old(store)@, r.0@),
{
    let before = Report::on_open(store);
    let target: String = match store.get_task(id) {
        None => {
            return (before, Err(UnblockError::TaskNotFound { id: id.to_owned() }));
        },
        Some(t) => {
            if !str_eq(t.state.as_str(), BLOCKED_STATE) {
                return (before, Err(UnblockError::NotBlocked { id: id.to_owned() }));
            }
            text_or_str(&t.blocked_at_phase, "unknown").to_owned()
        },
    };
    match store.unblock_task_at(id, timestamp) {
        Err(e) => (before, Err(map_store_error(e, id))),
        Ok(_) => {
            let mut report = Report::on_save(store);
            let mut line = follow(id, " unblocked: ");
            line.push_str(target.as_str());
            report.say(line);
            (report, Ok(()))
        },
    }
}

/// Takes a task up again at a point in time.
pub fn run_unblock_at(project: &Project, files: &ProjectFiles, id: &str, now: Instant) -> (r: (
    Report,
    Result<(), UnblockError>,
))
    requires
        now.on_calendar(),
    ensures
        (r.0@, outcome(r.1)) == unblock(project@, files@, id@, now),
{
    match open_project(project, files) {
        Err(e) => (Report::quiet(), Err(map_open_error(e))),
        Ok((_, _, store)) => {
            let mut store = store;
            unblock_task_flow(&mut store, id, now.text().as_str())
        },
    }
}

/// Takes a task up again.
pub fn run_unblock(project: &Project, files: &ProjectFiles, id: &str) -> (r: (
    Report,
    Result<(), UnblockError>,
))
    ensures
        exists|now: Instant|
            now.on_calendar() && (r.0@, outcome(r.1)) == #[trigger] unblock(
                project@,
                files@,
                id@,
                now,
            ),
{
    run_unblock_at(project, files, id, Instant::now())
}

} // verus!
