//! Closing a task that was given up.

use vstd::prelude::*;

use crate::commands::report::{
    check_reason, context_of, hook_run, left_by, on_open, on_save, open_project, opening, quiet,
    reason_given, run_for, task_context, OpenError, OpenErrorView, ProjectFiles, ProjectFilesView,
    ReasonGiven, ReasonGivenView, Report, ReportView,
};
use crate::duplicate::{outcome, Duplicate};
use crate::engine::config::{ConfigError, ConfigErrorView, ConfigRead};
use crate::engine::project::{Project, ProjectView};
use crate::engine::task_laws::{law_changed_task_is_found, Change};
use crate::engine::tasks::{
    find_task, FAILED_STATE, StoreError, StoreErrorView, TaskStore, TaskStoreView,
};
use crate::text::{follow, str_eq};
use crate::time::{rfc3339_text, Instant};

verus! {

/// Why a task could not be closed.
#[derive(Debug, PartialEq, Eq)]
pub enum CloseError {
    MissingReason,
    EmptyReason,
    TaskNotFound { id: String },
    NotFailed { id: String },
    ConfigNotFound { path: String },
    ConfigRead { path: String, message: String },
    ConfigLoad { path: String, message: String },
    InvalidConfig { path: String, reason: String },
    StoreError(StoreError),
}

/// The contents of a `CloseError`.
#[verifier::ext_equal]
pub enum CloseErrorView {
    MissingReason,
    EmptyReason,
    TaskNotFound { id: Seq<char> },
    NotFailed { id: Seq<char> },
    ConfigNotFound { path: Seq<char> },
    ConfigRead { path: Seq<char>, message: Seq<char> },
    ConfigLoad { path: Seq<char>, message: Seq<char> },
    InvalidConfig { path: Seq<char>, reason: Seq<char> },
    StoreError(StoreErrorView),
}

impl View for CloseError {
    type V = CloseErrorView;

    open spec fn view(&self) -> CloseErrorView {
        match self {
            CloseError::MissingReason => CloseErrorView::MissingReason,
            CloseError::EmptyReason => CloseErrorView::EmptyReason,
            CloseError::TaskNotFound { id } => CloseErrorView::TaskNotFound { id: id@ },
            CloseError::NotFailed { id } => CloseErrorView::NotFailed { id: id@ },
            CloseError::ConfigNotFound { path } => CloseErrorView::ConfigNotFound { path: path@ },
            CloseError::ConfigRead { path, message } => CloseErrorView::ConfigRead { path: path@, message: message@ },
            CloseError::ConfigLoad { path, message } => CloseErrorView::ConfigLoad { path: path@, message: message@ },
            CloseError::InvalidConfig { path, reason } => CloseErrorView::InvalidConfig { path: path@, reason: reason@ },
            CloseError::StoreError(inner) => CloseErrorView::StoreError(inner@),
        }
    }
}

impl DeepView for CloseError {
    type V = CloseErrorView;

    open spec fn deep_view(&self) -> CloseErrorView {
        self@
    }
}

impl Duplicate for CloseError {
    fn duplicate(&self) -> (r: Self) {
        match self {
            CloseError::MissingReason => CloseError::MissingReason,
            CloseError::EmptyReason => CloseError::EmptyReason,
            CloseError::TaskNotFound { id } => CloseError::TaskNotFound { id: id.duplicate() },
            CloseError::NotFailed { id } => CloseError::NotFailed { id: id.duplicate() },
            CloseError::ConfigNotFound { path } => CloseError::ConfigNotFound { path: path.duplicate() },
            CloseError::ConfigRead { path, message } => CloseError::ConfigRead { path: path.duplicate(), message: message.duplicate() },
            CloseError::ConfigLoad { path, message } => CloseError::ConfigLoad { path: path.duplicate(), message: message.duplicate() },
            CloseError::InvalidConfig { path, reason } => CloseError::InvalidConfig { path: path.duplicate(), reason: reason.duplicate() },
            CloseError::StoreError(inner) => CloseError::StoreError(inner.duplicate()),
        }
    }
}

impl Clone for CloseError {
    fn clone(&self) -> (r: Self)
        ensures
            r@ == self@,
    {
        self.duplicate()
    }
}

impl CloseErrorView {
    /// The text shown for the error.
    pub open spec fn message(self) -> Seq<char> {
        match self {
            CloseErrorView::MissingReason => "--reason is required"@,
            CloseErrorView::EmptyReason => "--reason must not be empty"@,
            CloseErrorView::TaskNotFound { id } => "task "@ + id + " not found"@,
            CloseErrorView::NotFailed { id } => "task "@ + id + " is not in a failed state"@,
            CloseErrorView::ConfigNotFound { path } => "config file not found: "@ + path,
            CloseErrorView::ConfigRead { path, .. } => "failed to read "@ + path,
            CloseErrorView::ConfigLoad { path, message } => "failed to load config "@ + path + ": "@ + message,
            CloseErrorView::InvalidConfig { path, reason } => "invalid config "@ + path + ": "@ + reason,
            CloseErrorView::StoreError(inner) => inner.message(),
        }
    }
}

impl CloseError {
    /// The text shown for the error.
    pub fn message(&self) -> (r: String)
        ensures
            r@ == self@.message(),
    {
        match self {
            CloseError::MissingReason => "--reason is required".to_owned(),
            CloseError::EmptyReason => "--reason must not be empty".to_owned(),
            CloseError::TaskNotFound { id } => {
                let mut out = "task ".to_owned();
                out.push_str(id.as_str());
                out.push_str(" not found");
                out
            },
            CloseError::NotFailed { id } => {
                let mut out = "task ".to_owned();
                out.push_str(id.as_str());
                out.push_str(" is not in a failed state");
                out
            },
            CloseError::ConfigNotFound { path } => {
                let mut out = "config file not found: ".to_owned();
                out.push_str(path.as_str());
                out
            },
            CloseError::ConfigRead { path, .. } => {
                let mut out = "failed to read ".to_owned();
                out.push_str(path.as_str());
                out
            },
            CloseError::ConfigLoad { path, message } => {
                let mut out = "failed to load config ".to_owned();
                out.push_str(path.as_str());
                out.push_str(": ");
                out.push_str(message.as_str());
                out
            },
            CloseError::InvalidConfig { path, reason } => {
                let mut out = "invalid config ".to_owned();
                out.push_str(path.as_str());
                out.push_str(": ");
                out.push_str(reason.as_str());
                out
            },
            CloseError::StoreError(inner) => inner.message(),
        }
    }
}


/// The error for tasks that could not be worked on.
pub open spec fn close_open_error(e: OpenErrorView) -> CloseErrorView {
    match e {
        OpenErrorView::Config(c) => match c {
            ConfigErrorView::NotFound { path } => CloseErrorView::ConfigNotFound { path },
            ConfigErrorView::Read { path, message } => CloseErrorView::ConfigRead { path, message },
            ConfigErrorView::Parse { path, message } => CloseErrorView::ConfigLoad { path, message },
            ConfigErrorView::Invalid { path, reason } => CloseErrorView::InvalidConfig { path, reason },
        },
        OpenErrorView::NoPhases { path } => CloseErrorView::InvalidConfig {
            path,
            reason: "phases must not be empty"@,
        },
        OpenErrorView::Store(s) => CloseErrorView::StoreError(s),
    }
}

fn map_open_error(error: OpenError) -> (r: CloseError)
    ensures
        r@ == close_open_error(error@),
{
    match error {
        OpenError::Config(c) => match c {
            ConfigError::NotFound { path } => CloseError::ConfigNotFound { path },
            ConfigError::Read { path, message } => CloseError::ConfigRead { path, message },
            ConfigError::Parse { path, message } => CloseError::ConfigLoad { path, message },
            ConfigError::Invalid { path, reason } => CloseError::InvalidConfig { path, reason },
        },
        OpenError::NoPhases { path } => CloseError::InvalidConfig {
            path,
            reason: "phases must not be empty".to_owned(),
        },
        OpenError::Store(s) => CloseError::StoreError(s),
    }
}

/// The reason that a user gave.
pub open spec fn close_reason(reason: Option<Seq<char>>) -> Result<Seq<char>, CloseErrorView> {
    match reason_given(reason) {
        ReasonGivenView::Missing => Err(CloseErrorView::MissingReason),
        ReasonGivenView::Empty => Err(CloseErrorView::EmptyReason),
        ReasonGivenView::Given { reason } => Ok(reason),
    }
}

/// The reason that a user gave.
pub fn validate_reason(reason: Option<&str>) -> (r: Result<String, CloseError>)
    ensures
        outcome(r) == close_reason(reason.deep_view()),
{
    match check_reason(reason) {
        ReasonGiven::Missing => Err(CloseError::MissingReason),
        ReasonGiven::Empty => Err(CloseError::EmptyReason),
        ReasonGiven::Given { reason } => Ok(reason),
    }
}

/// The error for a change that the tasks refused.
pub open spec fn close_store_error(e: StoreErrorView, id: Seq<char>) -> CloseErrorView {
    match e {
        StoreErrorView::NotFound => CloseErrorView::TaskNotFound { id },
        StoreErrorView::NotFailed { .. } => CloseErrorView::NotFailed { id },
        other => CloseErrorView::StoreError(other),
    }
}

fn map_store_error(error: StoreError, id: &str) -> (r: CloseError)
    ensures
        r@ == close_store_error(error@, id@),
{
    match error {
        StoreError::NotFound => CloseError::TaskNotFound { id: id.to_owned() },
        StoreError::NotFailed { .. } => CloseError::NotFailed { id: id.to_owned() },
        other => CloseError::StoreError(other),
    }
}

/// What closing a task leaves to be done.
pub open spec fn close_flow(
    project: ProjectView,
    s: TaskStoreView,
    terminal: Seq<char>,
    id: Seq<char>,
    reason: Seq<char>,
    timestamp: Seq<char>,
) -> (ReportView, Result<(), CloseErrorView>) {
    match find_task(s.tasks, id) {
        None => (on_open(s), Err(CloseErrorView::TaskNotFound { id })),
        Some(t) => if t.state != FAILED_STATE@ {
            (on_open(s), Err(CloseErrorView::NotFailed { id }))
        } else {
            match s.close(id, reason, terminal, timestamp) {
                Err(e) => (on_open(s), Err(close_store_error(e, id))),
                Ok((after, _)) => {
                    let task = find_task(after.tasks, id)->0;
                    let context = task_context(project, task, FAILED_STATE@, terminal, reason);
                    (
                        on_save(after).ran(hook_run(project, terminal, context)).said(
                            id + " closed: "@ + reason,
                        ),
                        Ok(()),
                    )
                },
            }
        },
    }
}

/// What the command to close a task leaves to be done.
pub open spec fn close(
    project: ProjectView,
    files: ProjectFilesView,
    id: Seq<char>,
    reason: Option<Seq<char>>,
    now: Instant,
) -> (ReportView, Result<(), CloseErrorView>) {
    match close_reason(reason) {
        Err(e) => (quiet(), Err(e)),
        Ok(text) => match opening(project, files) {
            Err(e) => (quiet(), Err(close_open_error(e))),
            Ok((_, terminal, store)) => close_flow(
                project,
                store,
                terminal,
                id,
                text,
                rfc3339_text(now),
            ),
        },
    }
}

/// Closes a task of a store.
pub fn close_task_flow(
    project: &Project,
    store: &mut TaskStore,
    terminal_phase: &str,
    id: &str,
    reason: &str,
    timestamp: &str,
) -> (r: (Report, Result<(), CloseError>))
    ensures
        (r.0@, outcome(r.1)) == close_flow(
            project@,
            old(store)@,
            terminal_phase@,
            id@,
            reason@,
            timestamp@,
        ),
        final(store)@ == left_by(old(store)@, r.0@),
{
    let before = Report::on_open(store);
    match store.get_task(id) {
        None => {
            return (before, Err(CloseError::TaskNotFound { id: id.to_owned() }));
        },
        Some(t) => {
            if !str_eq(t.state.as_str(), FAILED_STATE) {
                return (before, Err(CloseError::NotFailed { id: id.to_owned() }));
            }
        },
    }
    let ghost given = store@;
    match store.close_task_at(id, reason, terminal_phase, timestamp) {
        Err(e) => (before, Err(map_store_error(e, id))),
        Ok(_) => {
            proof {
                law_changed_task_is_found(
                    given,
                    id@,
                    Change::Close {
                        reason: reason@,
                        terminal: terminal_phase@,
                        timestamp: timestamp@,
                    },
                );
            }
            let mut report = Report::on_save(store);
            match store.get_task(id) {
                Some(task) => {
                    let context = context_of(project, task, FAILED_STATE, terminal_phase, reason);
                    report.run(run_for(project, terminal_phase, &context));
                },
                None => {},
            }
            let mut line = follow(id, " closed: ");
            line.push_str(reason);
            report.say(line);
            (report, Ok(()))
        },
    }
}

/// Closes a task at a point in time.
pub fn run_close_at(
    project: &Project,
    files: &ProjectFiles,
    id: &str,
    reason: Option<&str>,
    now: Instant,
) -> (r: (Report, Result<(), CloseError>))
    requires
        now.on_calendar(),
    ensures
        (r.0@, outcome(r.1)) == close(project@, files@, id@, reason.deep_view(), now),
{
    let reason: String = match validate_reason(reason) {
        Err(e) => {
            return (Report::quiet(), Err(e));
        },
        Ok(reason) => reason,
    };
    match open_project(project, files) {
        Err(e) => (Report::quiet(), Err(map_open_error(e))),
        Ok((_, terminal, store)) => {
            let mut store = store;
            close_task_flow(
                project,
                &mut store,
                terminal.as_str(),
                id,
                reason.as_str(),
                now.text().as_str(),
            )
        },
    }
}

/// Closes a task.
pub fn run_close(project: &Project, files: &ProjectFiles, id: &str, reason: Option<&str>) -> (r: (
    Report,
    Result<(), CloseError>,
))
    ensures
        exists|now: Instant|
            now.on_calendar() && (r.0@, outcome(r.1)) == #[trigger] close(
                project@,
                files@,
                id@,
                reason.deep_view(),
                now,
            ),
{
    run_close_at(project, files, id, reason, Instant::now())
}

} // verus!
