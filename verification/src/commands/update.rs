//! Changing what is known about a task.

use vstd::prelude::*;

use crate::commands::report::{
    on_open, on_save, open_project, opening, quiet, OpenError, OpenErrorView, ProjectFiles,
    ProjectFilesView, Report, ReportView,
};
use crate::duplicate::{outcome, Duplicate};
use crate::engine::config::{ConfigError, ConfigErrorView, ConfigRead};
use crate::engine::pick::as_str_opt;
use crate::engine::project::{Project, ProjectView};
use crate::engine::tasks::{StoreError, StoreErrorView};
use crate::text::follow;

verus! {

/// Why a task could not be changed.
#[derive(Debug, PartialEq, Eq)]
pub enum UpdateError {
    NoFields,
    TaskNotFound { id: String },
    UnknownDependency { id: String },
    CannotUpdate { id: String, state: String },
    ConfigNotFound { path: String },
    ConfigRead { path: String, message: String },
    ConfigLoad { path: String, message: String },
    InvalidConfig { path: String, reason: String },
    StoreError(StoreError),
}

/// The contents of a `UpdateError`.
#[verifier::ext_equal]
pub enum UpdateErrorView {
    NoFields,
    TaskNotFound { id: Seq<char> },
    UnknownDependency { id: Seq<char> },
    CannotUpdate { id: Seq<char>, state: Seq<char> },
    ConfigNotFound { path: Seq<char> },
    ConfigRead { path: Seq<char>, message: Seq<char> },
    ConfigLoad { path: Seq<char>, message: Seq<char> },
    InvalidConfig { path: Seq<char>, reason: Seq<char> },
    StoreError(StoreErrorView),
}

impl View for UpdateError {
    type V = UpdateErrorView;

    open spec fn view(&self) -> UpdateErrorView {
        match self {
            UpdateError::NoFields => UpdateErrorView::NoFields,
            UpdateError::TaskNotFound { id } => UpdateErrorView::TaskNotFound { id: id@ },
            UpdateError::UnknownDependency { id } => UpdateErrorView::UnknownDependency { id: id@ },
            UpdateError::CannotUpdate { id, state } => UpdateErrorView::CannotUpdate { id: id@, state: state@ },
            UpdateError::ConfigNotFound { path } => UpdateErrorView::ConfigNotFound { path: path@ },
            UpdateError::ConfigRead { path, message } => UpdateErrorView::ConfigRead { path: path@, message: message@ },
            UpdateError::ConfigLoad { path, message } => UpdateErrorView::ConfigLoad { path: path@, message: message@ },
            UpdateError::InvalidConfig { path, reason } => UpdateErrorView::InvalidConfig { path: path@, reason: reason@ },
            UpdateError::StoreError(inner) => UpdateErrorView::StoreError(inner@),
        }
    }
}

impl DeepView for UpdateError {
    type V = UpdateErrorView;

    open spec fn deep_view(&self) -> UpdateErrorView {
        self@
    }
}

impl Duplicate for UpdateError {
    fn duplicate(&self) -> (r: Self) {
        match self {
            UpdateError::NoFields => UpdateError::NoFields,
            UpdateError::TaskNotFound { id } => UpdateError::TaskNotFound { id: id.duplicate() },
            UpdateError::UnknownDependency { id } => UpdateError::UnknownDependency { id: id.duplicate() },
            UpdateError::CannotUpdate { id, state } => UpdateError::CannotUpdate { id: id.duplicate(), state: state.duplicate() },
            UpdateError::ConfigNotFound { path } => UpdateError::ConfigNotFound { path: path.duplicate() },
            UpdateError::ConfigRead { path, message } => UpdateError::ConfigRead { path: path.duplicate(), message: message.duplicate() },
            UpdateError::ConfigLoad { path, message } => UpdateError::ConfigLoad { path: path.duplicate(), message: message.duplicate() },
            UpdateError::InvalidConfig { path, reason } => UpdateError::InvalidConfig { path: path.duplicate(), reason: reason.duplicate() },
            UpdateError::StoreError(inner) => UpdateError::StoreError(inner.duplicate()),
        }
    }
}

impl Clone for UpdateError {
    fn clone(&self) -> (r: Self)
        ensures
            r@ == self@,
    {
        self.duplicate()
    }
}

impl UpdateErrorView {
    /// The text shown for the error.
    pub open spec fn message(self) -> Seq<char> {
        match self {
            UpdateErrorView::NoFields => "at least one of --title, --description, or --depends-on is required"@,
            UpdateErrorView::TaskNotFound { id } => "task "@ + id + " not found"@,
            UpdateErrorView::UnknownDependency { id } => "unknown dependency: "@ + id,
            UpdateErrorView::CannotUpdate { id, state } => "task "@ + id + " is "@ + state + " and cannot be updated"@,
            UpdateErrorView::ConfigNotFound { path } => "config file not found: "@ + path,
            UpdateErrorView::ConfigRead { path, .. } => "failed to read "@ + path,
            UpdateErrorView::ConfigLoad { path, message } => "failed to load config "@ + path + ": "@ + message,
            UpdateErrorView::InvalidConfig { path, reason } => "invalid config "@ + path + ": "@ + reason,
            UpdateErrorView::StoreError(inner) => inner.message(),
        }
    }
}

impl UpdateError {
    /// The text shown for the error.
    pub fn message(&self) -> (r: String)
        ensures
            r@ == self@.message(),
    {
        match self {
            UpdateError::NoFields => "at least one of --title, --description, or --depends-on is required".to_owned(),
            UpdateError::TaskNotFound { id } => {
                let mut out = "task ".to_owned();
                out.push_str(id.as_str());
                out.push_str(" not found");
                out
            },
            UpdateError::UnknownDependency { id } => {
                let mut out = "unknown dependency: ".to_owned();
                out.push_str(id.as_str());
                out
            },
            UpdateError::CannotUpdate { id, state } => {
                let mut out = "task ".to_owned();
                out.push_str(id.as_str());
                out.push_str(" is ");
                out.push_str(state.as_str());
                out.push_str(" and cannot be updated");
                out
            },
            UpdateError::ConfigNotFound { path } => {
                let mut out = "config file not found: ".to_owned();
                out.push_str(path.as_str());
                out
            },
            UpdateError::ConfigRead { path, .. } => {
                let mut out = "failed to read ".to_owned();
                out.push_str(path.as_str());
                out
            },
            UpdateError::ConfigLoad { path, message } => {
                let mut out = "failed to load config ".to_owned();
                out.push_str(path.as_str());
                out.push_str(": ");
                out.push_str(message.as_str());
                out
            },
            UpdateError::InvalidConfig { path, reason } => {
                let mut out = "invalid config ".to_owned();
                out.push_str(path.as_str());
                out.push_str(": ");
                out.push_str(reason.as_str());
                out
            },
            UpdateError::StoreError(inner) => inner.message(),
        }
    }
}


/// What is to be changed about a task.
#[derive(Debug, PartialEq, Eq)]
pub struct UpdateInput {
    pub title: Option<String>,
    pub description: Option<String>,
    pub depends_on: Option<Vec<String>>,
    pub acceptance_criteria: Option<String>,
}

/// The contents of a `UpdateInput`.
#[verifier::ext_equal]
pub struct UpdateInputView {
    pub title: Option<Seq<char>>,
    pub description: Option<Seq<char>>,
    pub depends_on: Option<Seq<Seq<char>>>,
    pub acceptance_criteria: Option<Seq<char>>,
}

impl View for UpdateInput {
    type V = UpdateInputView;

    open spec fn view(&self) -> UpdateInputView {
        UpdateInputView {
            title: self.title.deep_view(),
            description: self.description.deep_view(),
            depends_on: self.depends_on.deep_view(),
            acceptance_criteria: self.acceptance_criteria.deep_view(),
        }
    }
}

impl DeepView for UpdateInput {
    type V = UpdateInputView;

    open spec fn deep_view(&self) -> UpdateInputView {
        self@
    }
}

impl Duplicate for UpdateInput {
    fn duplicate(&self) -> (r: Self) {
        UpdateInput {
            title: self.title.duplicate(),
            description: self.description.duplicate(),
            depends_on: self.depends_on.duplicate(),
            acceptance_criteria: self.acceptance_criteria.duplicate(),
        }
    }
}

impl Clone for UpdateInput {
    fn clone(&self) -> (r: Self)
        ensures
            r@ == self@,
    {
        self.duplicate()
    }
}


/// The error for tasks that could not be worked on.
pub open spec fn update_open_error(e: OpenErrorView) -> UpdateErrorView {
    match e {
        OpenErrorView::Config(c) => match c {
            ConfigErrorView::NotFound { path } => UpdateErrorView::ConfigNotFound { path },
            ConfigErrorView::Read { path, message } => UpdateErrorView::ConfigRead { path, message },
            ConfigErrorView::Parse { path, message } => UpdateErrorView::ConfigLoad { path, message },
            ConfigErrorView::Invalid { path, reason } => UpdateErrorView::InvalidConfig { path, reason },
        },
        OpenErrorView::NoPhases { path } => UpdateErrorView::InvalidConfig {
            path,
            reason: "phases must not be empty"@,
        },
        OpenErrorView::Store(s) => UpdateErrorView::StoreError(s),
    }
}

fn map_open_error(error: OpenError) -> (r: UpdateError)
    ensures
        r@ == update_open_error(error@),
{
    match error {
        OpenError::Config(c) => match c {
            ConfigError::NotFound { path } => UpdateError::ConfigNotFound { path },
            ConfigError::Read { path, message } => UpdateError::ConfigRead { path, message },
            ConfigError::Parse { path, message } => UpdateError::ConfigLoad { path, message },
            ConfigError::Invalid { path, reason } => UpdateError::InvalidConfig { path, reason },
        },
        OpenError::NoPhases { path } => UpdateError::InvalidConfig {
            path,
            reason: "phases must not be empty".to_owned(),
        },
        OpenError::Store(s) => UpdateError::StoreError(s),
    }
}

/// The error for a change that the tasks refused.
pub open spec fn update_store_error(e: StoreErrorView, id: Seq<char>) -> UpdateErrorView {
    match e {
        StoreErrorView::NotFound => UpdateErrorView::TaskNotFound { id },
        StoreErrorView::DependencyBlocked { blocking_id, .. } => UpdateErrorView::UnknownDependency {
            id: blocking_id,
        },
        StoreErrorView::CannotUpdateTerminal { id, state } => UpdateErrorView::CannotUpdate {
            id,
            state,
        },
        other => UpdateErrorView::StoreError(other),
    }
}

fn map_store_error(error: StoreError, id: &str) -> (r: UpdateError)
    ensures
        r@ == update_store_error(error@, id@),
{
    match error {
        StoreError::NotFound => UpdateError::TaskNotFound { id: id.to_owned() },
        StoreError::DependencyBlocked { blocking_id, .. } => UpdateError::UnknownDependency {
            id: blocking_id,
        },
        StoreError::CannotUpdateTerminal { id, state } => UpdateError::CannotUpdate { id, state },
        other => UpdateError::StoreError(other),
    }
}

/// What the command to change a task leaves to be done. What is not given stays as it is.
pub open spec fn update(
    project: ProjectView,
    files: ProjectFilesView,
    id: Seq<char>,
    input: UpdateInputView,
) -> (ReportView, Result<(), UpdateErrorView>) {
    if input.title is None && input.description is None && input.depends_on is None
        && input.acceptance_criteria is None {
        (quiet(), Err(UpdateErrorView::NoFields))
    } else {
        match opening(project, files) {
            Err(e) => (quiet(), Err(update_open_error(e))),
            Ok((_, _, store)) => match store.update(
                id,
                input.title,
                input.description,
                input.depends_on,
                match input.acceptance_criteria {
                    Some(text) => Some(Some(text)),
                    None => None,
                },
            ) {
                Err(e) => (on_open(store), Err(update_store_error(e, id))),
                Ok((after, _)) => (on_save(after).said(id + " updated"@), Ok(())),
            },
        }
    }
}

/// Changes what is known about a task.
pub fn run_update(project: &Project, files: &ProjectFiles, id: &str, input: UpdateInput) -> (r: (
    Report,
    Result<(), UpdateError>,
))
    ensures
        (r.0@, outcome(r.1)) == update(project@, files@, id@, input@),
{
    if input.title.is_none() && input.description.is_none() && input.depends_on.is_none()
        && input.acceptance_criteria.is_none() {
        return (Report::quiet(), Err(UpdateError::NoFields));
    }
    match open_project(project, files) {
        Err(e) => (Report::quiet(), Err(map_open_error(e))),
        Ok((_, _, store)) => {
            let mut store = store;
            let before = Report::on_open(&store);
            let criteria: Option<Option<&str>> = match &input.acceptance_criteria {
                Some(text) => Some(Some(text.as_str())),
                None => None,
            };
            let depends_on: Option<&Vec<String>> = match &input.depends_on {
                Some(list) => Some(list),
                None => None,
            };
            match store.update_task_with_ac(
                id,
                as_str_opt(&input.title),
                as_str_opt(&input.description),
                depends_on,
                criteria,
            ) {
                Err(e) => (before, Err(map_store_error(e, id))),
                Ok(_) => {
                    let mut report = Report::on_save(&store);
                    report.say(follow(id, " updated"));
                    (report, Ok(()))
                },
            }
        },
    }
}

} // verus!
