//! Setting a task aside until a decision is made.

use vstd::prelude::*;

use crate::commands::report::{
    check_reason, context_of, hook_run, left_by, on_open, on_save, open_project, opening, quiet,
    reason_given, run_for, task_context, OpenError, OpenErrorView, ProjectFiles, ProjectFilesView,
    ReasonGiven, ReasonGivenView, Report, ReportView,
};
use crate::commands::runner::{text_or, text_or_str};
use crate::duplicate::{outcome, Duplicate};
use crate::engine::config::{ConfigError, ConfigErrorView, ConfigRead};
use crate::engine::pick::{at_rest, is_non_actionable_state};
use crate::engine::project::{Project, ProjectView};
use crate::engine::task_laws::{law_changed_task_is_found, Change};
use crate::engine::tasks::{
    find_task, BLOCKED_STATE, StoreError, StoreErrorView, TaskStore, TaskStoreView,
};
use crate::text::follow;
use crate::time::{rfc3339_text, Instant};

verus! {

/// Why a task could not be blocked.
#[derive(Debug, PartialEq, Eq)]
pub enum BlockError {
    MissingReason,
    EmptyReason,
    TaskNotFound { id: String },
    AlreadyTerminal { id: String, state: String },
    ConfigNotFound { path: String },
    ConfigRead { path: String, message: String },
    ConfigLoad { path: String, message: String },
    InvalidConfig { path: String, reason: String },
    StoreError(StoreError),
}

/// The contents of a `BlockError`.
#[verifier::ext_equal]
pub enum BlockErrorView {
    MissingReason,
    EmptyReason,
    TaskNotFound { id: Seq<char> },
    AlreadyTerminal { id: Seq<char>, state: Seq<char> },
    ConfigNotFound { path: Seq<char> },
    ConfigRead { path: Seq<char>, message: Seq<char> },
    ConfigLoad { path: Seq<char>, message: Seq<char> },
    InvalidConfig { path: Seq<char>, reason: Seq<char> },
    StoreError(StoreErrorView),
}

impl View for BlockError {
    type V = BlockErrorView;

    open spec fn view(&self) -> BlockErrorView {
        match self {
            BlockError::MissingReason => BlockErrorView::MissingReason,
            BlockError::EmptyReason => BlockErrorView::EmptyReason,
            BlockError::TaskNotFound { id } => BlockErrorView::TaskNotFound { id: id@ },
            BlockError::AlreadyTerminal { id, state } => BlockErrorView::AlreadyTerminal { id: id@, state: state@ },
            BlockError::ConfigNotFound { path } => BlockErrorView::ConfigNotFound { path: path@ },
            BlockError::ConfigRead { path, message } => BlockErrorView::ConfigRead { path: path@, message: message@ },
            BlockError::ConfigLoad { path, message } => BlockErrorView::ConfigLoad { path: path@, message: message@ },
            BlockError::InvalidConfig { path, reason } => BlockErrorView::InvalidConfig { path: path@, reason: reason@ },
            BlockError::StoreError(inner) => BlockErrorView::StoreError(inner@),
        }
    }
}

impl DeepView for BlockError {
    type V = BlockErrorView;

    open spec fn deep_view(&self) -> BlockErrorView {
        self@
    }
}

impl Duplicate for BlockError {
    fn duplicate(&self) -> (r: Self) {
        match self {
            BlockError::MissingReason => BlockError::MissingReason,
            BlockError::EmptyReason => BlockError::EmptyReason,
            BlockError::TaskNotFound { id } => BlockError::TaskNotFound { id: id.duplicate() },
            BlockError::AlreadyTerminal { id, state } => BlockError::AlreadyTerminal { id: id.duplicate(), state: state.duplicate() },
            BlockError::ConfigNotFound { path } => BlockError::ConfigNotFound { path: path.duplicate() },
            BlockError::ConfigRead { path, message } => BlockError::ConfigRead { path: path.duplicate(), message: message.duplicate() },
            BlockError::ConfigLoad { path, message } => BlockError::ConfigLoad { path: path.duplicate(), message: message.duplicate() },
            BlockError::InvalidConfig { path, reason } => BlockError::InvalidConfig { path: path.duplicate(), reason: reason.duplicate() },
            BlockError::StoreError(inner) => BlockError::StoreError(inner.duplicate()),
        }
    }
}

impl Clone for BlockError {
    fn clone(&self) -> (r: Self)
        ensures
            r@ == self@,
    {
        self.duplicate()
    }
}

impl BlockErrorView {
    /// The text shown for the error.
    pub open spec fn message(self) -> Seq<char> {
        match self {
            BlockErrorView::MissingReason => "--reason is required"@,
            BlockErrorView::EmptyReason => "--reason must not be empty"@,
            BlockErrorView::TaskNotFound { id } => "task "@ + id + " not found"@,
            BlockErrorView::AlreadyTerminal { id, state } => "task "@ + id + " is already "@ + state,
            BlockErrorView::ConfigNotFound { path } => "config file not found: "@ + path,
            BlockErrorView::ConfigRead { path, .. } => "failed to read "@ + path,
            BlockErrorView::ConfigLoad { path, message } => "failed to load config "@ + path + ": "@ + message,
            BlockErrorView::InvalidConfig { path, reason } => "invalid config "@ + path + ": "@ + reason,
            BlockErrorView::StoreError(inner) => inner.message(),
        }
    }
}

impl BlockError {
    /// The text shown for the error.
    pub fn message(&self) -> (r: String)
        ensures
            r@ == self@.message(),
    {
        match self {
            BlockError::MissingReason => "--reason is required".to_owned(),
            BlockError::EmptyReason => "--reason must not be empty".to_owned(),
            BlockError::TaskNotFound { id } => {
                let mut out = "task ".to_owned();
                out.push_str(id.as_str());
                out.push_str(" not found");
                out
            },
            BlockError::AlreadyTerminal { id, state } => {
                let mut out = "task ".to_owned();
                out.push_str(id.as_str());
                out.push_str(" is already ");
                out.push_str(state.as_str());
                out
            },
            BlockError::ConfigNotFound { path } => {
                let mut out = "config file not found: ".to_owned();
                out.push_str(path.as_str());
                out
            },
            BlockError::ConfigRead { path, .. } => {
                let mut out = "failed to read ".to_owned();
                out.push_str(path.as_str());
                out
            },
            BlockError::ConfigLoad { path, message } => {
                let mut out = "failed to load config ".to_owned();
                out.push_str(path.as_str());
                out.push_str(": ");
                out.push_str(message.as_str());
                out
            },
            BlockError::InvalidConfig { path, reason } => {
                let mut out = "invalid config ".to_owned();
                out.push_str(path.as_str());
                out.push_str(": ");
                out.push_str(reason.as_str());
                out
            },
            BlockError::StoreError(inner) => inner.message(),
        }
    }
}


/// The error for tasks that could not be worked on.
pub open spec fn block_open_error(e: OpenErrorView) -> BlockErrorView {
    match e {
        OpenErrorView::Config(c) => match c {
            ConfigErrorView::NotFound { path } => BlockErrorView::ConfigNotFound { path },
            ConfigErrorView::Read { path, message } => BlockErrorView::ConfigRead { path, message },
            ConfigErrorView::Parse { path, message } => BlockErrorView::ConfigLoad { path, message },
            ConfigErrorView::Invalid { path, reason } => BlockErrorView::InvalidConfig { path, reason },
        },
        OpenErrorView::NoPhases { path } => BlockErrorView::InvalidConfig {
            path,
            reason: "phases must not be empty"@,
        },
        OpenErrorView::Store(s) => BlockErrorView::StoreError(s),
    }
}

fn map_open_error(error: OpenError) -> (r: BlockError)
    ensures
        r@ == block_open_error(error@),
{
    match error {
        OpenError::Config(c) => match c {
            ConfigError::NotFound { path } => BlockError::ConfigNotFound { path },
            ConfigError::Read { path, message } => BlockError::ConfigRead { path, message },
            ConfigError::Parse { path, message } => BlockError::ConfigLoad { path, message },
            ConfigError::Invalid { path, reason } => BlockError::InvalidConfig { path, reason },
        },
        OpenError::NoPhases { path } => BlockError::InvalidConfig {
            path,
            reason: "phases must not be empty".to_owned(),
        },
        OpenError::Store(s) => BlockError::StoreError(s),
    }
}

/// The error for a change that the tasks refused.
pub open spec fn block_store_error(e: StoreErrorView, s: TaskStoreView, id: Seq<char>) -> BlockErrorView {
    match e {
        StoreErrorView::NotFound => BlockErrorView::TaskNotFound { id },
        StoreErrorView::AlreadyBlocked | StoreErrorView::AlreadyTerminal => match find_task(
            s.tasks,
            id,
        ) {
            Some(t) => BlockErrorView::AlreadyTerminal { id, state: t.state },
            None => BlockErrorView::TaskNotFound { id },
        },
        other => BlockErrorView::StoreError(other),
    }
}

fn map_store_error(error: StoreError, store: &TaskStore, id: &str) -> (r: BlockError)
    ensures
        r@ == block_store_error(error@, store@, id@),
{
    match error {
        StoreError::NotFound => BlockError::TaskNotFound { id: id.to_owned() },
        StoreError::AlreadyBlocked | StoreError::AlreadyTerminal => match store.get_task(id) {
            Some(t) => BlockError::AlreadyTerminal { id: id.to_owned(), state: t.state.clone() },
            None => BlockError::TaskNotFound { id: id.to_owned() },
        },
        other => BlockError::StoreError(other),
    }
}

/// What blocking a task leaves to be done.
pub open spec fn block_flow(
    project: ProjectView,
    s: TaskStoreView,
    terminal: Seq<char>,
    id: Seq<char>,
    reason: Seq<char>,
    timestamp: Seq<char>,
) -> (ReportView, Result<(), BlockErrorView>) {
    match find_task(s.tasks, id) {
        None => (on_open(s), Err(BlockErrorView::TaskNotFound { id })),
        Some(t) => if at_rest(t.state, terminal) {
            (on_open(s), Err(BlockErrorView::AlreadyTerminal { id, state: t.state }))
        } else {
            match s.block(id, reason, timestamp) {
                Err(e) => (on_open(s), Err(block_store_error(e, s, id))),
                Ok((after, _)) => {
                    let task = find_task(after.tasks, id)->0;
                    let context = task_context(
                        project,
                        task,
                        text_or(task.blocked_at_phase, ""@),
                        BLOCKED_STATE@,
                        reason,
                    );
                    (
                        on_save(after).ran(hook_run(project, BLOCKED_STATE@, context)).said(
                            id + " blocked: "@ + reason,
                        ),
                        Ok(()),
                    )
                },
            }
        },
    }
}

/// What the command to block a task leaves to be done.
pub open spec fn block(
    project: ProjectView,
    files: ProjectFilesView,
    id: Seq<char>,
    reason: Option<Seq<char>>,
    now: Instant,
) -> (ReportView, Result<(), BlockErrorView>) {
    match reason_given(reason) {
        ReasonGivenView::Missing => (quiet(), Err(BlockErrorView::MissingReason)),
        ReasonGivenView::Empty => (quiet(), Err(BlockErrorView::EmptyReason)),
        ReasonGivenView::Given { reason } => match opening(project, files) {
            Err(e) => (quiet(), Err(block_open_error(e))),
            Ok((_, terminal, store)) => block_flow(
                project,
                store,
                terminal,
                id,
                reason,
                rfc3339_text(now),
            ),
        },
    }
}

/// Blocks a task of a store.
pub fn block_task_flow(
    project: &Project,
    store: &mut TaskStore,
    terminal_phase: &str,
    id: &str,
    reason: &str,
    timestamp: &str,
) -> (r: (Report, Result<(), BlockError>))
    ensures
        (r.0@, outcome(r.1)) == block_flow(
            project@,
            old(store)@,
            terminal_phase@,
            id@,
            reason@,
            timestamp@,
        ),
        final(store)@ == left_by(old(store)@, r.0@),
{
    let before = Report::on_open(store);
    match store.get_task(id) {
        None => {
            return (before, Err(BlockError::TaskNotFound { id: id.to_owned() }));
        },
        Some(t) => {
            if is_non_actionable_state(t.state.as_str(), terminal_phase) {
                return (
                    before,
                    Err(BlockError::AlreadyTerminal { id: id.to_owned(), state: t.state.clone() }),
                );
            }
        },
    }
    let ghost given = store@;
    match store.block_task_at(id, reason, timestamp) {
        Err(e) => (before, Err(map_store_error(e, store, id))),
        Ok(_) => {
            proof {
                law_changed_task_is_found(
                    given,
                    id@,
                    Change::Block { reason: reason@, timestamp: timestamp@ },
                );
            }
            let mut report = Report::on_save(store);
            match store.get_task(id) {
                Some(task) => {
                    let context = context_of(
                        project,
                        task,
                        text_or_str(&task.blocked_at_phase, ""),
                        BLOCKED_STATE,
                        reason,
                    );
                    report.run(run_for(project, BLOCKED_STATE, &context));
                },
                None => {},
            }
            let mut line = follow(id, " blocked: ");
            line.push_str(reason);
            report.say(line);
            (report, Ok(()))
        },
    }
}

/// Blocks a task at a point in time.
pub fn run_block_at(
    project: &Project,
    files: &ProjectFiles,
    id: &str,
    reason: Option<&str>,
    now: Instant,
) -> (r: (Report, Result<(), BlockError>))
    requires
        now.on_calendar(),
    ensures
        (r.0@, outcome(r.1)) == block(project@, files@, id@, reason.deep_view(), now),
{
    let reason: String = match check_reason(reason) {
        ReasonGiven::Missing => {
            return (Report::quiet(), Err(BlockError::MissingReason));
        },
        ReasonGiven::Empty => {
            return (Report::quiet(), Err(BlockError::EmptyReason));
        },
        ReasonGiven::Given { reason } => reason,
    };
    match open_project(project, files) {
        Err(e) => (Report::quiet(), Err(map_open_error(e))),
        Ok((_, terminal, store)) => {
            let mut store = store;
            block_task_flow(
                project,
                &mut store,
                terminal.as_str(),
                id,
                reason.as_str(),
                now.text().as_str(),
            )
        },
    }
}

/// Blocks a task.
pub fn run_block(project: &Project, files: &ProjectFiles, id: &str, reason: Option<&str>) -> (r: (
    Report,
    Result<(), BlockError>,
))
    ensures
        exists|now: Instant|
            now.on_calendar() && (r.0@, outcome(r.1)) == #[trigger] block(
                project@,
                files@,
                id@,
                reason.deep_view(),
                now,
            ),
{
    run_block_at(project, files, id, reason, Instant::now())
}

} // verus!
