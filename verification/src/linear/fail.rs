//! Recording that work on a task failed.

use vstd::prelude::*;

use crate::commands::report::{
    check_reason, on_open, on_save, quiet, reason_given, ReasonGiven, ReasonGivenView, Report,
    ReportView,
};
use crate::duplicate::{outcome, Duplicate};
use crate::engine::tasks::{
    find_task, moved, opened, position_of, retry_reason, stepped, task_index, FAILED_STATE,
    StoreError, StoreErrorView, TaskStore, TaskStoreView, TaskView,
};
use crate::linear::config::{
    as_workflow, line_as_workflow, load_project_config, loaded_line, ConfigError, ConfigErrorView,
    ConfigRead,
};
use crate::linear::project::{
    config_file, config_path, LineFiles, LineFilesView, Project, ProjectView,
};
use crate::text::{decimal, decimal_str, follow, str_eq};
use crate::time::{rfc3339_text, Instant};

verus! {

/// Why a failure could not be recorded.
#[derive(Debug, PartialEq, Eq)]
pub enum FailError {
    MissingReason,
    EmptyReason,
    TaskNotFound { id: String },
    AlreadyFailed { id: String },
    AlreadyTerminal { id: String, state: String },
    ConfigNotFound { path: String },
    ConfigRead { path: String, message: String },
    ConfigLoad { path: String, message: String },
    InvalidConfig { path: String, reason: String },
    StoreError(StoreError),
}

/// The contents of a `FailError`.
#[verifier::ext_equal]
pub enum FailErrorView {
    MissingReason,
    EmptyReason,
    TaskNotFound { id: Seq<char> },
    AlreadyFailed { id: Seq<char> },
    AlreadyTerminal { id: Seq<char>, state: Seq<char> },
    ConfigNotFound { path: Seq<char> },
    ConfigRead { path: Seq<char>, message: Seq<char> },
    ConfigLoad { path: Seq<char>, message: Seq<char> },
    InvalidConfig { path: Seq<char>, reason: Seq<char> },
    StoreError(StoreErrorView),
}

impl View for FailError {
    type V = FailErrorView;

    open spec fn view(&self) -> FailErrorView {
        match self {
            FailError::MissingReason => FailErrorView::MissingReason,
            FailError::EmptyReason => FailErrorView::EmptyReason,
            FailError::TaskNotFound { id } => FailErrorView::TaskNotFound { id: id@ },
            FailError::AlreadyFailed { id } => FailErrorView::AlreadyFailed { id: id@ },
            FailError::AlreadyTerminal { id, state } => FailErrorView::AlreadyTerminal { id: id@, state: state@ },
            FailError::ConfigNotFound { path } => FailErrorView::ConfigNotFound { path: path@ },
            FailError::ConfigRead { path, message } => FailErrorView::ConfigRead { path: path@, message: message@ },
            FailError::ConfigLoad { path, message } => FailErrorView::ConfigLoad { path: path@, message: message@ },
            FailError::InvalidConfig { path, reason } => FailErrorView::InvalidConfig { path: path@, reason: reason@ },
            FailError::StoreError(inner) => FailErrorView::StoreError(inner@),
        }
    }
}

impl DeepView for FailError {
    type V = FailErrorView;

    open spec fn deep_view(&self) -> FailErrorView {
        self@
    }
}

impl Duplicate for FailError {
    fn duplicate(&self) -> (r: Self) {
        match self {
            FailError::MissingReason => FailError::MissingReason,
            FailError::EmptyReason => FailError::EmptyReason,
            FailError::TaskNotFound { id } => FailError::TaskNotFound { id: id.duplicate() },
            FailError::AlreadyFailed { id } => FailError::AlreadyFailed { id: id.duplicate() },
            FailError::AlreadyTerminal { id, state } => FailError::AlreadyTerminal { id: id.duplicate(), state: state.duplicate() },
            FailError::ConfigNotFound { path } => FailError::ConfigNotFound { path: path.duplicate() },
            FailError::ConfigRead { path, message } => FailError::ConfigRead { path: path.duplicate(), message: message.duplicate() },
            FailError::ConfigLoad { path, message } => FailError::ConfigLoad { path: path.duplicate(), message: message.duplicate() },
            FailError::InvalidConfig { path, reason } => FailError::InvalidConfig { path: path.duplicate(), reason: reason.duplicate() },
            FailError::StoreError(inner) => FailError::StoreError(inner.duplicate()),
        }
    }
}

impl Clone for FailError {
    fn clone(&self) -> (r: Self)
        ensures
            r@ == self@,
    {
        self.duplicate()
    }
}

impl FailErrorView {
    /// The text shown for the error.
    pub open spec fn message(self) -> Seq<char> {
        match self {
            FailErrorView::MissingReason => "--reason is required"@,
            FailErrorView::EmptyReason => "reason must not be empty"@,
            FailErrorView::TaskNotFound { id } => "task "@ + id + " not found"@,
            FailErrorView::AlreadyFailed { id } => "task "@ + id + " is already failed"@,
            FailErrorView::AlreadyTerminal { id, state } => "task "@ + id + " is already "@ + state,
            FailErrorView::ConfigNotFound { path } => "config file not found: "@ + path,
            FailErrorView::ConfigRead { path, .. } => "failed to read "@ + path,
            FailErrorView::ConfigLoad { path, message } => "failed to load config "@ + path + ": "@ + message,
            FailErrorView::InvalidConfig { path, reason } => "invalid config "@ + path + ": "@ + reason,
            FailErrorView::StoreError(inner) => inner.message(),
        }
    }
}

impl FailError {
    /// The text shown for the error.
    pub fn message(&self) -> (r: String)
        ensures
            r@ == self@.message(),
    {
        match self {
            FailError::MissingReason => "--reason is required".to_owned(),
            FailError::EmptyReason => "reason must not be empty".to_owned(),
            FailError::TaskNotFound { id } => {
                let mut out = "task ".to_owned();
                out.push_str(id.as_str());
                out.push_str(" not found");
                out
            },
            FailError::AlreadyFailed { id } => {
                let mut out = "task ".to_owned();
                out.push_str(id.as_str());
                out.push_str(" is already failed");
                out
            },
            FailError::AlreadyTerminal { id, state } => {
                let mut out = "task ".to_owned();
                out.push_str(id.as_str());
                out.push_str(" is already ");
                out.push_str(state.as_str());
                out
            },
            FailError::ConfigNotFound { path } => {
                let mut out = "config file not found: ".to_owned();
                out.push_str(path.as_str());
                out
            },
            FailError::ConfigRead { path, .. } => {
                let mut out = "failed to read ".to_owned();
                out.push_str(path.as_str());
                out
            },
            FailError::ConfigLoad { path, message } => {
                let mut out = "failed to load config ".to_owned();
                out.push_str(path.as_str());
                out.push_str(": ");
                out.push_str(message.as_str());
                out
            },
            FailError::InvalidConfig { path, reason } => {
                let mut out = "invalid config ".to_owned();
                out.push_str(path.as_str());
                out.push_str(": ");
                out.push_str(reason.as_str());
                out
            },
            FailError::StoreError(inner) => inner.message(),
        }
    }
}


/// The error for a configuration that could not be used.
pub open spec fn fail_config_error(e: ConfigErrorView) -> FailErrorView {
    match e {
        ConfigErrorView::NotFound { path } => FailErrorView::ConfigNotFound { path },
        ConfigErrorView::Read { path, message } => FailErrorView::ConfigRead { path, message },
        ConfigErrorView::Parse { path, message } => FailErrorView::ConfigLoad { path, message },
    }
}

fn map_config_error(error: ConfigError) -> (r: FailError)
    ensures
        r@ == fail_config_error(error@),
{
    match error {
        ConfigError::NotFound { path } => FailError::ConfigNotFound { path },
        ConfigError::Read { path, message } => FailError::ConfigRead { path, message },
        ConfigError::Parse { path, message } => FailError::ConfigLoad { path, message },
    }
}

/// The error for a change that the tasks refused.
pub open spec fn fail_store_error(e: StoreErrorView, s: TaskStoreView, id: Seq<char>) -> FailErrorView {
    match e {
        StoreErrorView::NotFound => FailErrorView::TaskNotFound { id },
        StoreErrorView::AlreadyTerminal => match find_task(s.tasks, id) {
            Some(t) => if t.state == FAILED_STATE@ {
                FailErrorView::AlreadyFailed { id }
            } else {
                FailErrorView::AlreadyTerminal { id, state: t.state }
            },
            None => FailErrorView::TaskNotFound { id },
        },
        other => FailErrorView::StoreError(other),
    }
}

fn map_store_error(error: StoreError, store: &TaskStore, id: &str) -> (r: FailError)
    ensures
        r@ == fail_store_error(error@, store@, id@),
{
    match error {
        StoreError::NotFound => FailError::TaskNotFound { id: id.to_owned() },
        StoreError::AlreadyTerminal => match store.get_task(id) {
            Some(t) => if str_eq(t.state.as_str(), FAILED_STATE) {
                FailError::AlreadyFailed { id: id.to_owned() }
            } else {
                FailError::AlreadyTerminal { id: id.to_owned(), state: t.state.clone() }
            },
            None => FailError::TaskNotFound { id: id.to_owned() },
        },
        other => FailError::StoreError(other),
    }
}

/// A reason that can be used.
pub open spec fn usable_reason(reason: Option<Seq<char>>) -> Result<Seq<char>, FailErrorView> {
    match reason_given(reason) {
        ReasonGivenView::Missing => Err(FailErrorView::MissingReason),
        ReasonGivenView::Empty => Err(FailErrorView::EmptyReason),
        ReasonGivenView::Given { reason } => Ok(reason),
    }
}

/// A reason that can be used.
pub fn validate_reason(reason: Option<&str>) -> (r: Result<String, FailError>)
    ensures
        outcome(r) == usable_reason(reason.deep_view()),
{
    match check_reason(reason) {
        ReasonGiven::Missing => Err(FailError::MissingReason),
        ReasonGiven::Empty => Err(FailError::EmptyReason),
        ReasonGiven::Given { reason } => Ok(reason),
    }
}

/// The number after another one, where there is one.
pub open spec fn one_more(n: u32) -> u32 {
    if n == u32::MAX {
        n
    } else {
        (n + 1) as u32
    }
}

/// Another try at a task: it goes back to the first phase of its line.
pub open spec fn started_over(s: TaskStoreView, id: Seq<char>, reason: Seq<char>, timestamp: Seq<char>) -> Result<
    (TaskStoreView, (u32, u32)),
    StoreErrorView,
> {
    match task_index(s.tasks, id) {
        None => Err(StoreErrorView::NotFound),
        Some(i) => {
            let t = s.tasks[i];
            let steps = s.config.sequence(t.workflow);
            if steps.len() == 0 {
                Err(StoreErrorView::UnknownWorkflow { workflow: t.workflow })
            } else if t.state == FAILED_STATE@ || t.state == steps.last() {
                Err(StoreErrorView::AlreadyTerminal)
            } else if !steps.contains(t.state) {
                Err(StoreErrorView::InvalidTransition { from: t.state, to: steps[0] })
            } else {
                let count = (t.retry_count + 1) as u32;
                let u = TaskView {
                    retry_count: count,
                    ..t.moved(steps[0], timestamp, retry_reason(count, t.max_retries, reason))
                };
                Ok((s.with_task(i, u), (count, t.max_retries)))
            }
        },
    }
}

/// Sends a task back to the first phase of its line for another try.
pub fn start_over(store: &mut TaskStore, id: &str, reason: &str, timestamp: &str) -> (r: Result<
    (u32, u32),
    StoreError,
>)
    requires
        old(store)@.retry_count_fits(id@),
    ensures
        stepped(
            old(store)@,
            final(store)@,
            outcome(r),
            started_over(old(store)@, id@, reason@, timestamp@),
        ),
{
    let i: usize = match store.task_index(id) {
        Ok(i) => i,
        Err(e) => {
            return Err(e);
        },
    };
    let before = store.all_tasks()[i].duplicate();
    let steps: Vec<String> = match store.sequence_for(&before) {
        Ok(s) => s,
        Err(e) => {
            return Err(e);
        },
    };
    let n: usize = steps.len();
    assert(steps.deep_view().last() == steps@[n - 1]@);
    assert(steps.deep_view()[0] == steps@[0]@);
    if str_eq(before.state.as_str(), FAILED_STATE) || str_eq(
        before.state.as_str(),
        steps[n - 1].as_str(),
    ) {
        return Err(StoreError::AlreadyTerminal);
    }
    if position_of(steps.as_slice(), before.state.as_str()).is_none() {
        return Err(StoreError::InvalidTransition { from: before.state, to: steps[0].clone() });
    }
    let count: u32 = before.retry_count + 1;
    let max_retries: u32 = before.max_retries;
    let mut text = "retry ".to_owned();
    text.push_str(decimal_str(count as u64).as_str());
    text.push_str("/");
    text.push_str(decimal_str(max_retries as u64).as_str());
    text.push_str(": ");
    text.push_str(reason);
    let mut task = moved(before, steps[0].as_str(), timestamp, text.as_str());
    task.retry_count = count;
    store.replace_task(i, task);
    Ok((count, max_retries))
}

/// What a failure of a task comes to: another try where there is one left, and else the end of it.
pub open spec fn failure(s: TaskStoreView, terminal: Seq<char>, id: Seq<char>, reason: Seq<char>, timestamp: Seq<char>) -> Result<
    (TaskStoreView, Seq<char>),
    FailErrorView,
> {
    match find_task(s.tasks, id) {
        None => Err(FailErrorView::TaskNotFound { id }),
        Some(t) => if t.state == FAILED_STATE@ {
            Err(FailErrorView::AlreadyFailed { id })
        } else if t.state == terminal {
            Err(FailErrorView::AlreadyTerminal { id, state: t.state })
        } else if one_more(t.retry_count) < t.max_retries {
            match started_over(s, id, reason, timestamp) {
                Err(e) => Err(fail_store_error(e, s, id)),
                Ok((after, (count, max))) => Ok(
                    (
                        after,
                        id + " retrying ("@ + decimal(count as nat) + "/"@ + decimal(max as nat)
                            + "): "@ + reason,
                    ),
                ),
            }
        } else {
            match s.fail(id, "failed (max retries): "@ + reason, timestamp) {
                Err(e) => Err(fail_store_error(e, s, id)),
                Ok((after, _)) => Ok((after, id + " failed — max retries reached"@)),
            }
        },
    }
}

/// Records a failure of a task, and says what it came to.
pub fn fail_task_flow(store: &mut TaskStore, terminal_phase: &str, id: &str, reason: &str, timestamp: &str) -> (r:
    Result<String, FailError>)
    ensures
        match failure(old(store)@, terminal_phase@, id@, reason@, timestamp@) {
            Ok((after, line)) => {
                &&& outcome(r) == Ok::<Seq<char>, FailErrorView>(line)
                &&& final(store)@ == after
            },
            Err(e) => {
                &&& outcome(r) == Err::<Seq<char>, FailErrorView>(e)
                &&& final(store)@ == old(store)@
            },
        },
{
    let (state, retries, max_retries) = match store.get_task(id) {
        None => {
            return Err(FailError::TaskNotFound { id: id.to_owned() });
        },
        Some(task) => (task.state.clone(), task.retry_count, task.max_retries),
    };
    if str_eq(state.as_str(), FAILED_STATE) {
        return Err(FailError::AlreadyFailed { id: id.to_owned() });
    }
    if str_eq(state.as_str(), terminal_phase) {
        return Err(FailError::AlreadyTerminal { id: id.to_owned(), state });
    }
    if retries < u32::MAX && retries + 1 < max_retries {
        match start_over(store, id, reason, timestamp) {
            Err(e) => Err(map_store_error(e, store, id)),
            Ok((count, max)) => {
                let mut line = follow(id, " retrying (");
                line.push_str(decimal_str(count as u64).as_str());
                line.push_str("/");
                line.push_str(decimal_str(max as u64).as_str());
                line.push_str("): ");
                line.push_str(reason);
                Ok(line)
            },
        }
    } else {
        let whole = follow("failed (max retries): ", reason);
        match store.fail_task_at(id, whole.as_str(), timestamp) {
            Err(e) => Err(map_store_error(e, store, id)),
            Ok(_) => Ok(follow(id, " failed — max retries reached")),
        }
    }
}

/// What recording a failure leaves to be done.
pub open spec fn failure_recorded(
    project: ProjectView,
    files: LineFilesView,
    id: Seq<char>,
    reason: Option<Seq<char>>,
    now: Instant,
) -> (ReportView, Result<(), FailErrorView>) {
    match usable_reason(reason) {
        Err(e) => (quiet(), Err(e)),
        Ok(text) => match loaded_line(
            config_path(project),
            files.config,
            project.global_config.default_max_retries,
        ) {
            Err(e) => (quiet(), Err(fail_config_error(e))),
            Ok(config) => match config.terminal() {
                None => (
                    quiet(),
                    Err(
                        FailErrorView::InvalidConfig {
                            path: config_path(project),
                            reason: "phases must not be empty"@,
                        },
                    ),
                ),
                Some(terminal) => match opened(project.state_dir, files.tasks, as_workflow(config)) {
                    Err(e) => (quiet(), Err(FailErrorView::StoreError(e))),
                    Ok(s) => match failure(s, terminal, id, text, rfc3339_text(now)) {
                        Err(e) => (on_open(s), Err(e)),
                        Ok((after, line)) => (on_save(after).said(line), Ok(())),
                    },
                },
            },
        },
    }
}

/// Records a failure of a task at a point in time.
pub fn run_fail_at(project: &Project, files: &LineFiles, id: &str, reason: Option<&str>, now: Instant) -> (r: (
    Report,
    Result<(), FailError>,
))
    requires
        now.on_calendar(),
    ensures
        (r.0@, outcome(r.1)) == failure_recorded(project@, files@, id@, reason.deep_view(), now),
{
    let text = match validate_reason(reason) {
        Err(e) => {
            return (Report::quiet(), Err(e));
        },
        Ok(t) => t,
    };
    let path = config_file(project);
    let config = match load_project_config(path.as_str(), &files.config, &project.global_config) {
        Err(e) => {
            return (Report::quiet(), Err(map_config_error(e)));
        },
        Ok(c) => c,
    };
    let terminal = match config.terminal_phase() {
        None => {
            return (
                Report::quiet(),
                Err(
                    FailError::InvalidConfig { path, reason: "phases must not be empty".to_owned() },
                ),
            );
        },
        Some(p) => p,
    };
    let mut store = match TaskStore::new(
        project.state_dir.as_str(),
        files.tasks.duplicate(),
        &line_as_workflow(&config),
    ) {
        Err(e) => {
            return (Report::quiet(), Err(FailError::StoreError(e)));
        },
        Ok(s) => s,
    };
    let before = Report::on_open(&store);
    match fail_task_flow(&mut store, terminal, id, text.as_str(), now.text().as_str()) {
        Err(e) => (before, Err(e)),
        Ok(line) => {
            let mut report = Report::on_save(&store);
            report.say(line);
            (report, Ok(()))
        },
    }
}

/// Records a failure of a task.
pub fn run_fail(project: &Project, files: &LineFiles, id: &str, reason: Option<&str>) -> (r: (
    Report,
    Result<(), FailError>,
))
    ensures
        exists|now: Instant|
            now.on_calendar() && (r.0@, outcome(r.1)) == #[trigger] failure_recorded(
                project@,
                files@,
                id@,
                reason.deep_view(),
                now,
            ),
{
    run_fail_at(project, files, id, reason, Instant::now())
}

} // verus!
