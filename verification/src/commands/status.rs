//! Showing the tasks of a project.

use vstd::prelude::*;

use crate::commands::report::{
    config_file, config_path, load_config, on_open, project_config, quiet, ProjectFiles,
    ProjectFilesView, Report, ReportView,
};
use crate::commands::runner::{
    runner_status, status_runner, text_or, text_or_str, without_runner, RunnerStatusOutput,
    RunnerStatusOutputView, SessionSeen, SessionSeenView,
};
use crate::duplicate::{outcome, Duplicate};
use crate::engine::config::{Config, ConfigError, ConfigErrorView, ConfigRead, ConfigView};
use crate::engine::global_config::{TextRead, TextReadView};
use crate::engine::project::{Project, ProjectView};
use crate::engine::runner::{RunnersRead, RunnersReadView};
use crate::engine::tasks::{
    find_task, opened, HistoryEntry, HistoryEntryView, StoreError, StoreErrorView, Task, TaskPhase,
    TaskPhaseView, TaskStore, TaskStoreView, TaskView,
};
use crate::json_doc::{
    get_member, json_empty_list, json_item, json_object, json_optional, json_parsed, json_pretty,
    json_single, json_text, json_to_pretty, new_object, no_members, object_of, optional_item,
    parse_json, set_member, single_member, JsonItem,
};
use crate::rows::{
    pad, pad_left, padded, padded_left, paginate, rows_of, truncate_chars, truncated, window,
    write_rows, RowWriter,
};
use crate::sorting::{
    is_order, law_sorting_keeps_elements, law_sorting_orders, order_of, sorted_by, stable_sort,
    StableOrder,
};
use crate::string_map::StringMap;
use crate::text::{
    after_last, after_last_str, decimal, decimal_str, join, join_path, join_strs,
    lemma_lex_irreflexive, lemma_lex_total, lemma_lex_transitive, lex_lt, lines, lines_of,
    parse_u64, parse_unsigned, path_join, repeat_char, repeated, split, split_str, str_eq, str_lt,
};
use crate::time::{rfc3339, Instant, MIN_SECONDS};

verus! {

/// What is said where there are no tasks.
pub const NO_TASKS_MESSAGE: &'static str = "No tasks. Run `agira task add` to get started.";

/// The characters of a title that are shown.
pub const TITLE_LIMIT: usize = 40;

/// The characters of the last action that are shown.
pub const LAST_ACTION_LIMIT: usize = 30;

/// The characters of a state that are shown.
pub const STATE_LIMIT: usize = 13;

/// The characters of the name of a workflow that are shown.
pub const WORKFLOW_LIMIT: usize = 14;

/// The tasks that are shown where nothing else is asked for.
pub const DEFAULT_LIMIT: usize = 20;

/// Why the tasks of a project could not be shown.
#[derive(Debug, PartialEq, Eq)]
pub enum StatusError {
    ConfigNotFound { path: String },
    ConfigRead { path: String, message: String },
    ConfigLoad { path: String, message: String },
    InvalidConfig { path: String, reason: String },
    StoreError(StoreError),
    JsonOutput { path: String, message: String },
    TaskNotFound { id: String },
}

/// The contents of a `StatusError`.
#[verifier::ext_equal]
pub enum StatusErrorView {
    ConfigNotFound { path: Seq<char> },
    ConfigRead { path: Seq<char>, message: Seq<char> },
    ConfigLoad { path: Seq<char>, message: Seq<char> },
    InvalidConfig { path: Seq<char>, reason: Seq<char> },
    StoreError(StoreErrorView),
    JsonOutput { path: Seq<char>, message: Seq<char> },
    TaskNotFound { id: Seq<char> },
}

impl View for StatusError {
    type V = StatusErrorView;

    open spec fn view(&self) -> StatusErrorView {
        match self {
            StatusError::ConfigNotFound { path } => StatusErrorView::ConfigNotFound { path: path@ },
            StatusError::ConfigRead { path, message } => StatusErrorView::ConfigRead { path: path@, message: message@ },
            StatusError::ConfigLoad { path, message } => StatusErrorView::ConfigLoad { path: path@, message: message@ },
            StatusError::InvalidConfig { path, reason } => StatusErrorView::InvalidConfig { path: path@, reason: reason@ },
            StatusError::StoreError(inner) => StatusErrorView::StoreError(inner@),
            StatusError::JsonOutput { path, message } => StatusErrorView::JsonOutput { path: path@, message: message@ },
            StatusError::TaskNotFound { id } => StatusErrorView::TaskNotFound { id: id@ },
        }
    }
}

impl DeepView for StatusError {
    type V = StatusErrorView;

    open spec fn deep_view(&self) -> StatusErrorView {
        self@
    }
}

impl Duplicate for StatusError {
    fn duplicate(&self) -> (r: Self) {
        match self {
            StatusError::ConfigNotFound { path } => StatusError::ConfigNotFound { path: path.duplicate() },
            StatusError::ConfigRead { path, message } => StatusError::ConfigRead { path: path.duplicate(), message: message.duplicate() },
            StatusError::ConfigLoad { path, message } => StatusError::ConfigLoad { path: path.duplicate(), message: message.duplicate() },
            StatusError::InvalidConfig { path, reason } => StatusError::InvalidConfig { path: path.duplicate(), reason: reason.duplicate() },
            StatusError::StoreError(inner) => StatusError::StoreError(inner.duplicate()),
            StatusError::JsonOutput { path, message } => StatusError::JsonOutput { path: path.duplicate(), message: message.duplicate() },
            StatusError::TaskNotFound { id } => StatusError::TaskNotFound { id: id.duplicate() },
        }
    }
}

impl Clone for StatusError {
    fn clone(&self) -> (r: Self)
        ensures
            r@ == self@,
    {
        self.duplicate()
    }
}

impl StatusErrorView {
    /// The text shown for the error.
    pub open spec fn message(self) -> Seq<char> {
        match self {
            StatusErrorView::ConfigNotFound { path } => "config file not found: "@ + path,
            StatusErrorView::ConfigRead { path, .. } => "failed to read "@ + path,
            StatusErrorView::ConfigLoad { path, message } => "failed to load config "@ + path + ": "@ + message,
            StatusErrorView::InvalidConfig { path, reason } => "invalid config "@ + path + ": "@ + reason,
            StatusErrorView::StoreError(inner) => inner.message(),
            StatusErrorView::JsonOutput { path, .. } => "failed to read "@ + path,
            StatusErrorView::TaskNotFound { id } => "task not found: "@ + id,
        }
    }
}

impl StatusError {
    /// The text shown for the error.
    pub fn message(&self) -> (r: String)
        ensures
            r@ == self@.message(),
    {
        match self {
            StatusError::ConfigNotFound { path } => {
                let mut out = "config file not found: ".to_owned();
                out.push_str(path.as_str());
                out
            },
            StatusError::ConfigRead { path, .. } => {
                let mut out = "failed to read ".to_owned();
                out.push_str(path.as_str());
                out
            },
            StatusError::ConfigLoad { path, message } => {
                let mut out = "failed to load config ".to_owned();
                out.push_str(path.as_str());
                out.push_str(": ");
                out.push_str(message.as_str());
                out
            },
            StatusError::InvalidConfig { path, reason } => {
                let mut out = "invalid config ".to_owned();
                out.push_str(path.as_str());
                out.push_str(": ");
                out.push_str(reason.as_str());
                out
            },
            StatusError::StoreError(inner) => inner.message(),
            StatusError::JsonOutput { path, .. } => {
                let mut out = "failed to read ".to_owned();
                out.push_str(path.as_str());
                out
            },
            StatusError::TaskNotFound { id } => {
                let mut out = "task not found: ".to_owned();
                out.push_str(id.as_str());
                out
            },
        }
    }
}


/// What was found where a file may be.
#[derive(Debug, PartialEq, Eq)]
pub enum FileSeen {
    Missing,
    /// It could not be looked at.
    Unreadable { message: String },
    There,
}

/// The contents of a `FileSeen`.
#[verifier::ext_equal]
pub enum FileSeenView {
    Missing,
    Unreadable { message: Seq<char> },
    There,
}

impl View for FileSeen {
    type V = FileSeenView;

    open spec fn view(&self) -> FileSeenView {
        match self {
            FileSeen::Missing => FileSeenView::Missing,
            FileSeen::Unreadable { message } => FileSeenView::Unreadable { message: message@ },
            FileSeen::There => FileSeenView::There,
        }
    }
}

impl DeepView for FileSeen {
    type V = FileSeenView;

    open spec fn deep_view(&self) -> FileSeenView {
        self@
    }
}

impl Duplicate for FileSeen {
    fn duplicate(&self) -> (r: Self) {
        match self {
            FileSeen::Missing => FileSeen::Missing,
            FileSeen::Unreadable { message } => FileSeen::Unreadable { message: message.duplicate() },
            FileSeen::There => FileSeen::There,
        }
    }
}

impl Clone for FileSeen {
    fn clone(&self) -> (r: Self)
        ensures
            r@ == self@,
    {
        self.duplicate()
    }
}


/// What was found about the tasks of a project and its runner.
#[derive(Debug, PartialEq, Eq)]
pub struct StatusSeen {
    /// Whether the file of tasks is there.
    pub tasks_file: FileSeen,
    pub files: ProjectFiles,
    /// The text of the file of tasks.
    pub tasks_text: TextRead,
    pub runners: RunnersRead,
    pub session: SessionSeen,
    /// The log of failed commands.
    pub hook_log: Vec<String>,
    /// Where that log is.
    pub hook_log_path: String,
}

/// The contents of a `StatusSeen`.
#[verifier::ext_equal]
pub struct StatusSeenView {
    pub tasks_file: FileSeenView,
    pub files: ProjectFilesView,
    pub tasks_text: TextReadView,
    pub runners: RunnersReadView,
    pub session: SessionSeenView,
    pub hook_log: Seq<Seq<char>>,
    pub hook_log_path: Seq<char>,
}

impl View for StatusSeen {
    type V = StatusSeenView;

    open spec fn view(&self) -> StatusSeenView {
        StatusSeenView {
            tasks_file: self.tasks_file@,
            files: self.files@,
            tasks_text: self.tasks_text@,
            runners: self.runners@,
            session: self.session@,
            hook_log: self.hook_log.deep_view(),
            hook_log_path: self.hook_log_path@,
        }
    }
}

impl DeepView for StatusSeen {
    type V = StatusSeenView;

    open spec fn deep_view(&self) -> StatusSeenView {
        self@
    }
}

impl Duplicate for StatusSeen {
    fn duplicate(&self) -> (r: Self) {
        StatusSeen {
            tasks_file: self.tasks_file.duplicate(),
            files: self.files.duplicate(),
            tasks_text: self.tasks_text.duplicate(),
            runners: self.runners.duplicate(),
            session: self.session.duplicate(),
            hook_log: self.hook_log.duplicate(),
            hook_log_path: self.hook_log_path.duplicate(),
        }
    }
}

impl Clone for StatusSeen {
    fn clone(&self) -> (r: Self)
        ensures
            r@ == self@,
    {
        self.duplicate()
    }
}


/// What showing tasks leaves to be done, whether or not it succeeded.
#[derive(Debug, PartialEq, Eq)]
pub struct StatusReport {
    pub report: Report,
    /// A text to show as it is.
    pub raw: Option<String>,
    /// A task to show in the form that the file of tasks has.
    pub task: Option<Task>,
}

/// The contents of a `StatusReport`.
#[verifier::ext_equal]
pub struct StatusReportView {
    pub report: ReportView,
    pub raw: Option<Seq<char>>,
    pub task: Option<TaskView>,
}

impl View for StatusReport {
    type V = StatusReportView;

    open spec fn view(&self) -> StatusReportView {
        StatusReportView {
            report: self.report@,
            raw: self.raw.deep_view(),
            task: self.task.deep_view(),
        }
    }
}

impl DeepView for StatusReport {
    type V = StatusReportView;

    open spec fn deep_view(&self) -> StatusReportView {
        self@
    }
}

impl Duplicate for StatusReport {
    fn duplicate(&self) -> (r: Self) {
        StatusReport {
            report: self.report.duplicate(),
            raw: self.raw.duplicate(),
            task: self.task.duplicate(),
        }
    }
}

impl Clone for StatusReport {
    fn clone(&self) -> (r: Self)
        ensures
            r@ == self@,
    {
        self.duplicate()
    }
}


/// The error for a configuration that could not be used.
pub open spec fn status_config_error(e: ConfigErrorView) -> StatusErrorView {
    match e {
        ConfigErrorView::NotFound { path } => StatusErrorView::ConfigNotFound { path },
        ConfigErrorView::Read { path, message } => StatusErrorView::ConfigRead { path, message },
        ConfigErrorView::Parse { path, message } => StatusErrorView::ConfigLoad { path, message },
        ConfigErrorView::Invalid { path, reason } => StatusErrorView::InvalidConfig { path, reason },
    }
}

/// The error for a configuration that could not be used.
pub fn map_status_config_error(error: ConfigError) -> (r: StatusError)
    ensures
        r@ == status_config_error(error@),
{
    match error {
        ConfigError::NotFound { path } => StatusError::ConfigNotFound { path },
        ConfigError::Read { path, message } => StatusError::ConfigRead { path, message },
        ConfigError::Parse { path, message } => StatusError::ConfigLoad { path, message },
        ConfigError::Invalid { path, reason } => StatusError::InvalidConfig { path, reason },
    }
}

// ---------------------------------------------------------------------------------------------
// The runner
// ---------------------------------------------------------------------------------------------

/// The state of a runner as one of six words.
pub open spec fn plain_liveness(status: RunnerStatusOutputView) -> Seq<char> {
    if status.liveness == "live"@ {
        if status.current_task is Some {
            "live"@
        } else {
            "idle"@
        }
    } else if status.liveness == "no runner registered"@ {
        "none"@
    } else if status.liveness == "session running but no runner registered"@ {
        "unregistered"@
    } else {
        status.liveness
    }
}

/// What is known about the runner of a project, where nothing that goes wrong matters.
pub open spec fn header_status(
    project: ProjectView,
    read: RunnersReadView,
    seen: SessionSeenView,
    now: Instant,
) -> RunnerStatusOutputView {
    match runner_status(project, read, seen, now) {
        Err(_) => without_runner("none"@),
        Ok(status) => RunnerStatusOutputView { liveness: plain_liveness(status), ..status },
    }
}

/// What is known about the runner of a project, where nothing that goes wrong matters.
pub fn runner_header_with_tmux(project: &Project, read: &RunnersRead, seen: &SessionSeen, now: Instant) -> (r:
    RunnerStatusOutput)
    requires
        now.on_calendar(),
    ensures
        r@ == header_status(project@, read@, seen@, now),
{
    match status_runner(project, read.duplicate(), seen, now) {
        Err(_) => RunnerStatusOutput {
            runner_id: None,
            runner_type: None,
            current_task: None,
            liveness: "none".to_owned(),
            heartbeat_age: None,
        },
        Ok(status) => {
            let liveness = if str_eq(status.liveness.as_str(), "live") {
                if status.current_task.is_some() {
                    "live".to_owned()
                } else {
                    "idle".to_owned()
                }
            } else if str_eq(status.liveness.as_str(), "no runner registered") {
                "none".to_owned()
            } else if str_eq(
                status.liveness.as_str(),
                "session running but no runner registered",
            ) {
                "unregistered".to_owned()
            } else {
                status.liveness.clone()
            };
            let mut status = status;
            status.liveness = liveness;
            status
        },
    }
}

/// A line about the runner of a project.
pub open spec fn runner_header(status: RunnerStatusOutputView) -> Seq<char> {
    if status.runner_id is None {
        if status.liveness == "unregistered"@ {
            "runner session running but unregistered"@
        } else {
            "no runner"@
        }
    } else {
        let label = "runner "@ + status.runner_id->0 + " ("@ + text_or(
            status.runner_type,
            "unknown"@,
        ) + ")"@;
        let heartbeat = text_or(status.heartbeat_age, "unknown"@);
        if status.liveness == "live"@ && status.current_task is Some {
            status.current_task->0 + " held by "@ + label + ", heartbeat "@ + heartbeat
        } else if status.liveness == "live"@ || status.liveness == "idle"@ {
            label + " idle, heartbeat "@ + heartbeat
        } else if status.current_task is Some {
            status.current_task->0 + " held by "@ + label + " — stale"@
        } else {
            label + " stale"@
        }
    }
}

/// A line about the runner of a project.
pub fn format_runner_header(status: &RunnerStatusOutput) -> (r: String)
    ensures
        r@ == runner_header(status@),
{
    let id: &String = match &status.runner_id {
        None => {
            return if str_eq(status.liveness.as_str(), "unregistered") {
                "runner session running but unregistered".to_owned()
            } else {
                "no runner".to_owned()
            };
        },
        Some(id) => id,
    };
    let mut label = "runner ".to_owned();
    label.push_str(id.as_str());
    label.push_str(" (");
    label.push_str(text_or_str(&status.runner_type, "unknown"));
    label.push_str(")");
    let heartbeat = text_or_str(&status.heartbeat_age, "unknown");
    let live = str_eq(status.liveness.as_str(), "live");
    let idle = str_eq(status.liveness.as_str(), "idle");
    match &status.current_task {
        Some(task) => {
            if live {
                let mut out = task.clone();
                out.push_str(" held by ");
                out.push_str(label.as_str());
                out.push_str(", heartbeat ");
                out.push_str(heartbeat);
                out
            } else if idle {
                label.push_str(" idle, heartbeat ");
                label.push_str(heartbeat);
                label
            } else {
                let mut out = task.clone();
                out.push_str(" held by ");
                out.push_str(label.as_str());
                out.push_str(" — stale");
                out
            }
        },
        None => {
            if live || idle {
                label.push_str(" idle, heartbeat ");
                label.push_str(heartbeat);
            } else {
                label.push_str(" stale");
            }
            label
        },
    }
}

// ---------------------------------------------------------------------------------------------
// The table of tasks
// ---------------------------------------------------------------------------------------------

/// The number at the end of an id, behind the last hyphen.
pub open spec fn trailing_number(id: Seq<char>) -> Option<nat> {
    match after_last(id, '-') {
        Some(text) => parse_unsigned(text, u64::MAX as nat),
        None => None,
    }
}

fn trailing_number_of(id: &str) -> (r: Option<u64>)
    ensures
        match r {
            Some(n) => trailing_number(id@) == Some(n as nat),
            None => trailing_number(id@) is None,
        },
{
    match after_last_str(id, '-') {
        Some(text) => parse_u64(text.as_str(), u64::MAX),
        None => None,
    }
}

/// The order of ids: by their numbers and then by their texts, those without a number behind.
pub open spec fn id_before(a: Seq<char>, b: Seq<char>) -> bool {
    match (trailing_number(a), trailing_number(b)) {
        (Some(n), Some(m)) => n < m || (n == m && lex_lt(a, b)),
        (Some(_), None) => true,
        (None, Some(_)) => false,
        (None, None) => lex_lt(a, b),
    }
}

/// The order of tasks by their ids.
pub struct ById;

impl StableOrder<Task> for ById {
    open spec fn precedes(a: TaskView, b: TaskView) -> bool {
        id_before(a.id, b.id)
    }

    fn check(a: &Task, b: &Task) -> (r: bool) {
        let x = a.id.as_str();
        let y = b.id.as_str();
        match (trailing_number_of(x), trailing_number_of(y)) {
            (Some(n), Some(m)) => n < m || (n == m && str_lt(x, y)),
            (Some(_), None) => true,
            (None, Some(_)) => false,
            (None, None) => str_lt(x, y),
        }
    }
}

/// Tasks in the order of their ids.
pub open spec fn by_id(tasks: Seq<TaskView>) -> Seq<TaskView> {
    sorted_by(tasks, order_of::<Task, ById>())
}

/// Tasks in the order of their ids.
pub fn sort_tasks_by_id_asc(tasks: &[Task]) -> (r: Vec<Task>)
    ensures
        r.deep_view() == by_id(tasks.deep_view()),
{
    stable_sort::<Task, ById>(tasks)
}

/// The order of ids is an order: no id is in front of itself, and it goes over from one to the
/// next.
pub proof fn law_ids_are_ordered()
    ensures
        is_order(order_of::<Task, ById>()),
{
    let before = order_of::<Task, ById>();
    assert forall|a: TaskView| !#[trigger] before(a, a) by {
        lemma_lex_irreflexive(a.id);
    }
    assert forall|a: TaskView, b: TaskView, c: TaskView|
        #![trigger before(a, b), before(b, c)]
        before(a, b) && before(b, c) implies before(a, c) by {
        if lex_lt(a.id, b.id) && lex_lt(b.id, c.id) {
            lemma_lex_transitive(a.id, b.id, c.id);
        }
    }
    assert forall|a: TaskView, b: TaskView, c: TaskView|
        #![trigger before(a, b), before(c, b)]
        before(a, b) && !before(c, b) implies before(a, c) by {
        lemma_lex_total(c.id, b.id);
        if lex_lt(a.id, b.id) && lex_lt(b.id, c.id) {
            lemma_lex_transitive(a.id, b.id, c.id);
        }
    }
}

/// A table shows each task of a list once, and the ids go up.
pub proof fn law_table_is_ordered(tasks: Seq<TaskView>)
    ensures
        by_id(tasks).to_multiset() == tasks.to_multiset(),
        forall|i: int, j: int|
            0 <= i < j < by_id(tasks).len() ==> !id_before(
                (#[trigger] by_id(tasks)[j]).id,
                (#[trigger] by_id(tasks)[i]).id,
            ),
{
    law_ids_are_ordered();
    law_sorting_keeps_elements(tasks, order_of::<Task, ById>());
    law_sorting_orders(tasks, order_of::<Task, ById>());
    let s = by_id(tasks);
    assert forall|i: int, j: int| 0 <= i < j < s.len() implies !id_before(
        (#[trigger] s[j]).id,
        (#[trigger] s[i]).id,
    ) by {
        assert(!order_of::<Task, ById>()(s[j], s[i]));
    }
}

/// A state as the table shows it.
pub open spec fn shown_state(state: Seq<char>, terminal: Seq<char>) -> Seq<char> {
    truncated(
        if state == "blocked"@ {
            "⊘ blocked"@
        } else if state == "failed"@ {
            "✗ failed"@
        } else if state == terminal {
            "✓ "@ + state
        } else {
            state
        },
        13,
    )
}

/// A state as the table shows it.
pub fn format_state(state: &str, terminal_phase: &str) -> (r: String)
    ensures
        r@ == shown_state(state@, terminal_phase@),
{
    let display = if str_eq(state, "blocked") {
        "⊘ blocked".to_owned()
    } else if str_eq(state, "failed") {
        "✗ failed".to_owned()
    } else if str_eq(state, terminal_phase) {
        let mut out = "✓ ".to_owned();
        out.push_str(state);
        out
    } else {
        state.to_owned()
    };
    truncate_chars(display.as_str(), STATE_LIMIT)
}

/// A title as the table shows it.
pub fn format_title(title: &str) -> (r: String)
    ensures
        r@ == truncated(title@, 40),
{
    truncate_chars(title, TITLE_LIMIT)
}

/// Why a task moved last.
pub open spec fn last_reason(t: TaskView) -> Seq<char> {
    if t.history.len() > 0 {
        t.history.last().reason
    } else {
        "-"@
    }
}

fn last_reason_of(task: &Task) -> (r: &str)
    ensures
        r@ == last_reason(task@),
{
    let n: usize = task.history.len();
    if n > 0 {
        assert(task@.history.last() == task.history@[n - 1]@);
        task.history[n - 1].reason.as_str()
    } else {
        "-"
    }
}

/// How often a task was and may be tried again.
pub open spec fn retries(t: TaskView) -> Seq<char> {
    decimal(t.retry_count as nat) + "/"@ + decimal(t.max_retries as nat)
}

fn retries_of(task: &Task) -> (r: String)
    ensures
        r@ == retries(task@),
{
    let mut out = decimal_str(task.retry_count as u64);
    out.push_str("/");
    out.push_str(decimal_str(task.max_retries as u64).as_str());
    out
}

/// Six columns of the table.
pub open spec fn columns(
    id: Seq<char>,
    title: Seq<char>,
    state: Seq<char>,
    retries: Seq<char>,
    workflow: Seq<char>,
    action: Seq<char>,
) -> Seq<char> {
    padded(id, 10) + "  "@ + padded(title, 41) + "  "@ + padded(state, 15) + "  "@ + padded_left(
        retries,
        7,
    ) + "  "@ + padded(workflow, 15) + "  "@ + action
}

fn write_columns(id: &str, title: &str, state: &str, retries: &str, workflow: &str, action: &str) -> (r:
    String)
    ensures
        r@ == columns(id@, title@, state@, retries@, workflow@, action@),
{
    let mut out = pad(id, 10);
    out.push_str("  ");
    out.push_str(pad(title, 41).as_str());
    out.push_str("  ");
    out.push_str(pad(state, 15).as_str());
    out.push_str("  ");
    out.push_str(pad_left(retries, 7).as_str());
    out.push_str("  ");
    out.push_str(pad(workflow, 15).as_str());
    out.push_str("  ");
    out.push_str(action);
    out
}

/// The row of a task, where tasks end in the phase given.
pub struct StatusRow;

impl RowWriter<Task, String> for StatusRow {
    open spec fn row(t: TaskView, terminal: Seq<char>) -> Seq<char> {
        columns(
            t.id,
            truncated(t.title, 40),
            shown_state(t.state, terminal),
            retries(t),
            truncated(t.workflow, 14),
            truncated(last_reason(t), 30),
        )
    }

    fn write(task: &Task, terminal: &String) -> (r: String) {
        format_status_row(task, terminal.as_str())
    }
}

/// The row of a task.
pub fn format_status_row(task: &Task, terminal_phase: &str) -> (r: String)
    ensures
        r@ == StatusRow::row(task@, terminal_phase@),
{
    let title = format_title(task.title.as_str());
    let state = format_state(task.state.as_str(), terminal_phase);
    let retried = retries_of(task);
    let workflow = truncate_chars(task.workflow.as_str(), WORKFLOW_LIMIT);
    let action = truncate_chars(last_reason_of(task), LAST_ACTION_LIMIT);
    write_columns(
        task.id.as_str(),
        title.as_str(),
        state.as_str(),
        retried.as_str(),
        workflow.as_str(),
        action.as_str(),
    )
}

/// The lines at the top of the table.
pub open spec fn table_head() -> Seq<Seq<char>> {
    seq![
        columns("ID"@, "Title"@, "State"@, "Retries"@, "Workflow"@, "Last Action"@),
        repeated('-', 10) + "  "@ + repeated('-', 41) + "  "@ + repeated('-', 15) + "  "@
            + repeated('-', 7) + "  "@ + repeated('-', 15) + "  "@ + repeated('-', 30),
    ]
}

/// The table of some tasks.
pub open spec fn status_table(tasks: Seq<TaskView>, terminal: Seq<char>) -> Seq<char> {
    join(table_head() + rows_of::<Task, String, StatusRow>(tasks, terminal), "\n"@)
}

/// The table of some tasks.
pub fn format_status_table(tasks: &[Task], terminal_phase: &str) -> (r: String)
    ensures
        r@ == status_table(tasks.deep_view(), terminal_phase@),
{
    let mut line = repeat_char('-', 10);
    line.push_str("  ");
    line.push_str(repeat_char('-', 41).as_str());
    line.push_str("  ");
    line.push_str(repeat_char('-', 15).as_str());
    line.push_str("  ");
    line.push_str(repeat_char('-', 7).as_str());
    line.push_str("  ");
    line.push_str(repeat_char('-', 15).as_str());
    line.push_str("  ");
    line.push_str(repeat_char('-', 30).as_str());
    let mut all: Vec<String> = vec![
        write_columns("ID", "Title", "State", "Retries", "Workflow", "Last Action"),
        line,
    ];
    assert(all.deep_view() =~= table_head());
    let terminal = terminal_phase.to_owned();
    let mut rows = write_rows::<Task, String, StatusRow>(tasks, &terminal);
    let ghost a = all.deep_view();
    let ghost b = rows.deep_view();
    all.append(&mut rows);
    assert(all.deep_view() =~= a + b);
    join_strs(&all, "\n")
}

/// What is said below the table where it does not show all tasks.
pub open spec fn page_note(limit: nat, total: nat, explicit: bool) -> Seq<char> {
    if limit != 0 && total > limit {
        "\n"@ + if explicit {
            "Showing "@
        } else {
            "Showing latest "@
        } + decimal(limit) + " of "@ + decimal(total)
            + " tasks. Use --offset or --limit to see more."@
    } else {
        Seq::empty()
    }
}

fn write_page_note(limit: usize, total: usize, explicit: bool) -> (r: String)
    ensures
        r@ == page_note(limit as nat, total as nat, explicit),
{
    if limit != 0 && total > limit {
        let mut out = "\n".to_owned();
        out.push_str(
            if explicit {
                "Showing "
            } else {
                "Showing latest "
            },
        );
        out.push_str(decimal_str(limit as u64).as_str());
        out.push_str(" of ");
        out.push_str(decimal_str(total as u64).as_str());
        out.push_str(" tasks. Use --offset or --limit to see more.");
        out
    } else {
        String::new()
    }
}

/// A page of the table: the part that is asked for, or else the end of it.
pub open spec fn table_page(
    tasks: Seq<TaskView>,
    terminal: Seq<char>,
    limit: Option<usize>,
    offset: Option<usize>,
) -> Seq<char> {
    let sorted = by_id(tasks);
    let explicit = limit is Some || offset is Some;
    let count: nat = match limit {
        Some(n) => n as nat,
        None => 20,
    };
    let from: nat = if explicit {
        match offset {
            Some(n) => n as nat,
            None => 0,
        }
    } else if sorted.len() >= 20 {
        (sorted.len() - 20) as nat
    } else {
        0
    };
    status_table(window(sorted, count, from), terminal) + page_note(count, sorted.len(), explicit)
}

fn write_table_page(
    tasks: &[Task],
    terminal: &str,
    limit: Option<usize>,
    offset: Option<usize>,
) -> (r: String)
    ensures
        r@ == table_page(tasks.deep_view(), terminal@, limit, offset),
{
    let sorted = sort_tasks_by_id_asc(tasks);
    let total: usize = sorted.len();
    let explicit = limit.is_some() || offset.is_some();
    let count: usize = match limit {
        Some(n) => n,
        None => DEFAULT_LIMIT,
    };
    let from: usize = if explicit {
        match offset {
            Some(n) => n,
            None => 0,
        }
    } else if total >= 20 {
        total - 20
    } else {
        0
    };
    let page = paginate(sorted.as_slice(), count, from);
    let mut out = format_status_table(page.as_slice(), terminal);
    out.push_str(write_page_note(count, total, explicit).as_str());
    out
}

/// Where nothing else is asked for and there are at least twenty tasks, the table shows the last
/// twenty of them; with fewer tasks it shows all.
pub proof fn law_default_page_is_the_end(tasks: Seq<TaskView>)
    ensures
        ({
            let n = by_id(tasks).len();
            let from: nat = if n >= 20 {
                (n - 20) as nat
            } else {
                0
            };
            let page = window(by_id(tasks), 20, from);
            &&& page == by_id(tasks).skip(from as int)
            &&& n >= 20 ==> page.len() == 20
            &&& n < 20 ==> page == by_id(tasks)
        }),
{
    let s = by_id(tasks);
    assert(s.skip(0) =~= s);
    if s.len() == 0 {
        assert(window(s, 20, 0) =~= s);
    }
}

// ---------------------------------------------------------------------------------------------
// The details of a task
// ---------------------------------------------------------------------------------------------

/// A line with spaces in front, and a sign in place of an empty one.
pub open spec fn indented_line(line: Seq<char>, indent: nat, nothing: Seq<char>) -> Seq<char> {
    repeated(' ', indent) + if line.len() == 0 {
        nothing
    } else {
        line
    }
}

/// The lines of a text, each with spaces in front.
pub open spec fn indented_lines(value: Seq<char>, indent: nat, nothing: Seq<char>) -> Seq<char> {
    join(lines(value).map_values(|l: Seq<char>| indented_line(l, indent, nothing)), "\n"@)
}

/// The lines of a text, each with spaces in front.
pub fn indent_lines(value: &str, indent: usize, nothing: &str) -> (r: String)
    ensures
        r@ == indented_lines(value@, indent as nat, nothing@),
{
    let items: Vec<String> = lines_of(value);
    let prefix = repeat_char(' ', indent);
    let ghost all = lines(value@).map_values(
        |l: Seq<char>| indented_line(l, indent as nat, nothing@),
    );
    let mut out: Vec<String> = Vec::new();
    let mut i: usize = 0;
    assert(out.deep_view() =~= all.take(0));
    while i < items.len()
        invariant
            i <= items.len(),
            items.deep_view() == lines(value@),
            prefix@ == repeated(' ', indent as nat),
            all == lines(value@).map_values(
                |l: Seq<char>| indented_line(l, indent as nat, nothing@),
            ),
            out.deep_view() == all.take(i as int),
        decreases items.len() - i,
    {
        let ghost before = out.deep_view();
        let line = items[i].as_str();
        assert(lines(value@)[i as int] == line@);
        let mut row = prefix.clone();
        row.push_str(
            if line.unicode_len() == 0 {
                nothing
            } else {
                line
            },
        );
        out.push(row);
        assert(out.deep_view() =~= before.push(all[i as int]));
        assert(all.take(i + 1) =~= all.take(i as int).push(all[i as int]));
        i = i + 1;
    }
    assert(all.take(i as int) =~= all);
    join_strs(&out, "\n")
}

/// A text as the details of a task show it.
pub open spec fn detail_text(value: Seq<char>, indent: nat) -> Seq<char> {
    if value.len() == 0 {
        repeated(' ', indent) + "—"@
    } else {
        indented_lines(value, indent, "—"@)
    }
}

/// A text as the details of a task show it.
pub fn format_multiline_value(value: &str, indent: usize) -> (r: String)
    ensures
        r@ == detail_text(value@, indent as nat),
{
    if value.unicode_len() == 0 {
        let mut out = repeat_char(' ', indent);
        out.push_str("—");
        out
    } else {
        indent_lines(value, indent, "—")
    }
}

/// What holds a task up.
pub open spec fn blocked_text(t: TaskView) -> Seq<char> {
    match (t.blocked_at_phase, t.blocked_reason) {
        (None, None) => "—"@,
        (Some(phase), Some(reason)) => phase + " — "@ + reason,
        (Some(phase), None) => phase + " — —"@,
        (None, Some(reason)) => "— — "@ + reason,
    }
}

/// What holds a task up.
pub fn format_blocked(task: &Task) -> (r: String)
    ensures
        r@ == blocked_text(task@),
{
    match (&task.blocked_at_phase, &task.blocked_reason) {
        (None, None) => "—".to_owned(),
        (Some(phase), Some(reason)) => {
            let mut out = phase.clone();
            out.push_str(" — ");
            out.push_str(reason.as_str());
            out
        },
        (Some(phase), None) => {
            let mut out = phase.clone();
            out.push_str(" — —");
            out
        },
        (None, Some(reason)) => {
            let mut out = "— — ".to_owned();
            out.push_str(reason.as_str());
            out
        },
    }
}

/// The lines about the phases of a task that are complete.
pub open spec fn phase_lines(phases: Seq<(Seq<char>, TaskPhaseView)>) -> Seq<char>
    decreases phases.len(),
{
    if phases.len() == 0 {
        Seq::empty()
    } else {
        let (name, phase) = phases.last();
        phase_lines(phases.drop_last()) + "  "@ + name + " (completed "@ + phase.completed_at
            + "):\n"@ + detail_text(phase.artifact, 4) + "\n"@
    }
}

fn write_phase_lines(phases: &StringMap<TaskPhase>) -> (r: String)
    ensures
        r@ == phase_lines(phases@),
{
    let ghost all = phases@;
    let mut out = String::new();
    let mut i: usize = 0;
    assert(all.take(0) =~= Seq::<(Seq<char>, TaskPhaseView)>::empty());
    while i < phases.len()
        invariant
            i <= all.len(),
            all == phases@,
            out@ == phase_lines(all.take(i as int)),
        decreases all.len() - i,
    {
        assert(all.take(i + 1).drop_last() =~= all.take(i as int));
        assert(all.take(i + 1).last() == all[i as int]);
        let phase = phases.value_at(i);
        out.push_str("  ");
        out.push_str(phases.key_at(i).as_str());
        out.push_str(" (completed ");
        out.push_str(phase.completed_at.as_str());
        out.push_str("):\n");
        out.push_str(format_multiline_value(phase.artifact.as_str(), 4).as_str());
        out.push_str("\n");
        i = i + 1;
    }
    assert(all.take(i as int) =~= all);
    out
}

/// The line about a move of a task.
pub struct HistoryRow;

impl RowWriter<HistoryEntry, ()> for HistoryRow {
    open spec fn row(e: HistoryEntryView, context: ()) -> Seq<char> {
        "  "@ + text_or(e.from, "(none)"@) + " → "@ + e.to + "  "@ + e.timestamp + "  "@ + e.reason
    }

    fn write(entry: &HistoryEntry, context: &()) -> (r: String) {
        let mut out = "  ".to_owned();
        out.push_str(text_or_str(&entry.from, "(none)"));
        out.push_str(" → ");
        out.push_str(entry.to.as_str());
        out.push_str("  ");
        out.push_str(entry.timestamp.as_str());
        out.push_str("  ");
        out.push_str(entry.reason.as_str());
        out
    }
}

/// The lines about the moves of a task.
pub open spec fn history_lines(history: Seq<HistoryEntryView>) -> Seq<char> {
    if history.len() == 0 {
        "  —"@
    } else {
        join(rows_of::<HistoryEntry, (), HistoryRow>(history, ()), "\n"@)
    }
}

/// The ids that a task waits for.
pub open spec fn dependency_list(t: TaskView) -> Seq<char> {
    if t.dependencies.len() == 0 {
        "—"@
    } else {
        join(t.dependencies, ", "@)
    }
}

/// The details of a task.
pub open spec fn task_detail(t: TaskView) -> Seq<char> {
    "ID:           "@ + t.id + "\nTitle:        "@ + t.title + "\nState:        "@ + t.state
        + "\nWorkflow:     "@ + t.workflow + "\nCreated:      "@ + t.created_at
        + "\nRetries:      "@ + retries(t) + "\nDepends on:   "@ + dependency_list(t)
        + "\nBlocked:      "@ + blocked_text(t) + "\nDescription:\n"@ + detail_text(
        t.description,
        2,
    ) + "\nPhases:\n"@ + if t.phases.len() == 0 {
        "  —\n"@
    } else {
        phase_lines(t.phases)
    } + "History:\n"@ + history_lines(t.history)
}

/// The details of a task.
pub fn format_task_detail(task: &Task) -> (r: String)
    ensures
        r@ == task_detail(task@),
{
    let mut out = "ID:           ".to_owned();
    out.push_str(task.id.as_str());
    out.push_str("\nTitle:        ");
    out.push_str(task.title.as_str());
    out.push_str("\nState:        ");
    out.push_str(task.state.as_str());
    out.push_str("\nWorkflow:     ");
    out.push_str(task.workflow.as_str());
    out.push_str("\nCreated:      ");
    out.push_str(task.created_at.as_str());
    out.push_str("\nRetries:      ");
    out.push_str(retries_of(task).as_str());
    out.push_str("\nDepends on:   ");
    if task.dependencies.len() == 0 {
        out.push_str("—");
    } else {
        out.push_str(join_strs(&task.dependencies, ", ").as_str());
    }
    out.push_str("\nBlocked:      ");
    out.push_str(format_blocked(task).as_str());
    out.push_str("\nDescription:\n");
    out.push_str(format_multiline_value(task.description.as_str(), 2).as_str());
    out.push_str("\nPhases:\n");
    if task.phases.len() == 0 {
        out.push_str("  —\n");
    } else {
        out.push_str(write_phase_lines(&task.phases).as_str());
    }
    out.push_str("History:\n");
    if task.history.len() == 0 {
        out.push_str("  —");
    } else {
        let rows = write_rows::<HistoryEntry, (), HistoryRow>(task.history.as_slice(), &());
        out.push_str(join_strs(&rows, "\n").as_str());
    }
    out
}

// ---------------------------------------------------------------------------------------------
// The log of failed commands
// ---------------------------------------------------------------------------------------------

/// A line of the log that is about the last day.
pub open spec fn recent_line(line: Seq<char>, now: Instant) -> bool {
    let parts = split(line, '\t');
    parts.len() > 1 && match rfc3339(parts[0]) {
        Some(at) => at.at_or_after(now.earlier(86_400)),
        None => false,
    }
}

/// A log that tells of a failure in the last day.
pub open spec fn recent_failure(log: Seq<Seq<char>>, now: Instant) -> bool {
    exists|i: int| 0 <= i < log.len() && recent_line(#[trigger] log[i], now)
}

fn is_recent_line(line: &str, now: Instant) -> (r: bool)
    requires
        MIN_SECONDS <= now.secs - 86_400,
    ensures
        r == recent_line(line@, now),
{
    let parts: Vec<String> = split_str(line, '\t');
    if parts.len() > 1 {
        assert(split(line@, '\t')[0] == parts@[0]@);
        match Instant::parse(parts[0].as_str()) {
            Some(at) => at.reached(&now.minus_seconds(86_400)),
            None => false,
        }
    } else {
        false
    }
}

/// Whether a log tells of a failure in the last day.
pub fn hook_log_has_recent_failure(log: &[String], now: Instant) -> (r: bool)
    requires
        MIN_SECONDS <= now.secs - 86_400,
    ensures
        r == recent_failure(log.deep_view(), now),
{
    let mut i: usize = 0;
    while i < log.len()
        invariant
            i <= log.len(),
            MIN_SECONDS <= now.secs - 86_400,
            forall|j: int| 0 <= j < i ==> !recent_line(#[trigger] log.deep_view()[j], now),
        decreases log.len() - i,
    {
        assert(log.deep_view()[i as int] == log@[i as int]@);
        if is_recent_line(log[i].as_str(), now) {
            return true;
        }
        i = i + 1;
    }
    false
}

/// What is said about commands that failed in the last day.
pub open spec fn with_warning(seen: StatusSeenView, now: Instant) -> ReportView {
    if recent_failure(seen.hook_log, now) {
        quiet().warned("warning: recent hook failures in "@ + seen.hook_log_path)
    } else {
        quiet()
    }
}

fn warn_recent_hook_failures(seen: &StatusSeen, now: Instant) -> (r: Report)
    requires
        MIN_SECONDS <= now.secs - 86_400,
    ensures
        r@ == with_warning(seen@, now),
{
    let mut report = Report::quiet();
    if hook_log_has_recent_failure(seen.hook_log.as_slice(), now) {
        let mut line = "warning: recent hook failures in ".to_owned();
        line.push_str(seen.hook_log_path.as_str());
        report.warn(line);
    }
    report
}

// ---------------------------------------------------------------------------------------------
// The commands
// ---------------------------------------------------------------------------------------------

/// The tasks of a project that has a file of tasks.
pub open spec fn shown_store(project: ProjectView, seen: StatusSeenView) -> Result<
    Option<(ConfigView, TaskStoreView)>,
    StatusErrorView,
> {
    match seen.tasks_file {
        FileSeenView::Missing => Ok(None),
        FileSeenView::Unreadable { message } => Err(
            StatusErrorView::StoreError(
                StoreErrorView::Io { path: path_join(project.state_dir, "tasks.json"@), message },
            ),
        ),
        FileSeenView::There => match project_config(project, seen.files.config) {
            Err(e) => Err(status_config_error(e)),
            Ok(config) => match config.terminal() {
                None => Err(
                    StatusErrorView::InvalidConfig {
                        path: config_path(project),
                        reason: "phases must not be empty"@,
                    },
                ),
                Some(_) => match opened(project.state_dir, seen.files.tasks, config) {
                    Err(e) => Err(StatusErrorView::StoreError(e)),
                    Ok(store) => Ok(Some((config, store))),
                },
            },
        },
    }
}

fn open_shown(project: &Project, seen: &StatusSeen) -> (r: Result<
    Option<(Config, TaskStore)>,
    StatusError,
>)
    ensures
        match r {
            Ok(Some((config, store))) => shown_store(project@, seen@) == Ok::<
                Option<(ConfigView, TaskStoreView)>,
                StatusErrorView,
            >(Some((config@, store@))) && config@.terminal() is Some,
            Ok(None) => shown_store(project@, seen@) == Ok::<
                Option<(ConfigView, TaskStoreView)>,
                StatusErrorView,
            >(None),
            Err(e) => shown_store(project@, seen@) == Err::<
                Option<(ConfigView, TaskStoreView)>,
                StatusErrorView,
            >(e@),
        },
{
    match &seen.tasks_file {
        FileSeen::Missing => Ok(None),
        FileSeen::Unreadable { message } => Err(
            StatusError::StoreError(
                StoreError::Io {
                    path: join_path(project.state_dir.as_str(), "tasks.json"),
                    message: message.clone(),
                },
            ),
        ),
        FileSeen::There => {
            let config = match load_config(project, &seen.files.config) {
                Err(e) => {
                    return Err(map_status_config_error(e));
                },
                Ok(c) => c,
            };
            if config.terminal_phase().is_none() {
                return Err(
                    StatusError::InvalidConfig {
                        path: config_file(project),
                        reason: "phases must not be empty".to_owned(),
                    },
                );
            }
            match TaskStore::new(project.state_dir.as_str(), seen.files.tasks.duplicate(), &config) {
                Err(e) => Err(StatusError::StoreError(e)),
                Ok(store) => Ok(Some((config, store))),
            }
        },
    }
}

/// The line about the runner of a project.
pub open spec fn header_line(project: ProjectView, seen: StatusSeenView, now: Instant) -> Seq<char> {
    runner_header(header_status(project, seen.runners, seen.session, now))
}

fn write_header_line(project: &Project, seen: &StatusSeen, now: Instant) -> (r: String)
    requires
        now.on_calendar(),
    ensures
        r@ == header_line(project@, seen@, now),
{
    format_runner_header(&runner_header_with_tmux(project, &seen.runners, &seen.session, now))
}

/// What showing tasks leaves to be done, with nothing beside a report.
pub open spec fn plain_report(report: ReportView) -> StatusReportView {
    StatusReportView { report, raw: None, task: None }
}

fn only_report(report: Report) -> (r: StatusReport)
    ensures
        r@ == plain_report(report@),
{
    StatusReport { report, raw: None, task: None }
}

/// What opening the tasks leaves to be done beside what was to be done before.
pub open spec fn opened_beside(before: ReportView, store: TaskStoreView) -> ReportView {
    ReportView { tasks: on_open(store).tasks, ..before }
}

fn open_beside(before: Report, store: &TaskStore) -> (r: Report)
    ensures
        r@ == opened_beside(before@, store@),
{
    let mut r = before;
    r.tasks = Report::on_open(store).tasks;
    r
}

/// What is said where there are no tasks.
pub open spec fn empty_status(
    before: ReportView,
    project: ProjectView,
    seen: StatusSeenView,
    filter: Option<Seq<char>>,
    now: Instant,
) -> (StatusReportView, Result<(), StatusErrorView>) {
    match filter {
        Some(id) => (plain_report(before), Err(StatusErrorView::TaskNotFound { id })),
        None => (
            plain_report(
                before.said(header_line(project, seen, now) + "\n"@).said(NO_TASKS_MESSAGE@),
            ),
            Ok(()),
        ),
    }
}

fn say_empty(
    before: Report,
    project: &Project,
    seen: &StatusSeen,
    filter: Option<&str>,
    now: Instant,
) -> (r: (StatusReport, Result<(), StatusError>))
    requires
        now.on_calendar(),
    ensures
        (r.0@, outcome(r.1)) == empty_status(before@, project@, seen@, filter.deep_view(), now),
{
    let mut report = before;
    match filter {
        Some(id) => (
            only_report(report),
            Err(StatusError::TaskNotFound { id: id.to_owned() }),
        ),
        None => {
            let mut line = write_header_line(project, seen, now);
            line.push_str("\n");
            report.say(line);
            report.say(NO_TASKS_MESSAGE.to_owned());
            (only_report(report), Ok(()))
        },
    }
}

/// The document with the tasks of a project and what is known about its runner.
pub open spec fn raw_document(tasks: JsonItem, status: RunnerStatusOutputView) -> JsonItem {
    let list = match tasks {
        JsonItem::Object(m) => if m.contains_key("tasks"@) {
            m["tasks"@]
        } else {
            JsonItem::List(Seq::empty())
        },
        _ => JsonItem::List(Seq::empty()),
    };
    let runner = no_members().insert("runner_id"@, optional_item(status.runner_id)).insert(
        "runner_type"@,
        optional_item(status.runner_type),
    ).insert("current_task"@, optional_item(status.current_task)).insert(
        "liveness"@,
        JsonItem::Text(status.liveness),
    ).insert("heartbeat_age"@, optional_item(status.heartbeat_age));
    JsonItem::Object(
        no_members().insert("tasks"@, list).insert("runner"@, JsonItem::Object(runner)),
    )
}

fn make_raw_document(tasks: &serde_json::Value, status: &RunnerStatusOutput) -> (r: serde_json::Value)
    ensures
        json_item(r) == raw_document(json_item(*tasks), status@),
{
    let list = match object_of(tasks) {
        Some(m) => match get_member(&m, "tasks") {
            Some(v) => v,
            None => json_empty_list(),
        },
        None => json_empty_list(),
    };
    let mut runner = new_object();
    set_member(&mut runner, "runner_id".to_owned(), json_optional(&status.runner_id));
    set_member(&mut runner, "runner_type".to_owned(), json_optional(&status.runner_type));
    set_member(&mut runner, "current_task".to_owned(), json_optional(&status.current_task));
    set_member(&mut runner, "liveness".to_owned(), json_text(status.liveness.clone()));
    set_member(&mut runner, "heartbeat_age".to_owned(), json_optional(&status.heartbeat_age));
    let mut all = new_object();
    set_member(&mut all, "tasks".to_owned(), list);
    set_member(&mut all, "runner".to_owned(), json_object(runner));
    json_object(all)
}

/// The text with the tasks of a project, as they are kept, and what is known about its runner.
pub open spec fn raw_status(project: ProjectView, seen: StatusSeenView, now: Instant) -> Result<
    Seq<char>,
    StatusErrorView,
> {
    let path = path_join(project.state_dir, "tasks.json"@);
    let status = header_status(project, seen.runners, seen.session, now);
    match seen.tasks_text {
        TextReadView::Missing => Ok(
            json_pretty(
                raw_document(single_member("tasks"@, JsonItem::List(Seq::empty())), status),
            ),
        ),
        TextReadView::Unreadable { message } => Err(
            StatusErrorView::JsonOutput { path, message },
        ),
        TextReadView::Contents { text } => match json_parsed(text) {
            Err(message) => Err(StatusErrorView::JsonOutput { path, message }),
            Ok(tasks) => Ok(json_pretty(raw_document(tasks, status))),
        },
    }
}

/// The text with the tasks of a project, as they are kept, and what is known about its runner.
pub fn output_raw_json_with_runner(project: &Project, seen: &StatusSeen, now: Instant) -> (r: Result<
    String,
    StatusError,
>)
    requires
        now.on_calendar(),
    ensures
        outcome(r) == raw_status(project@, seen@, now),
{
    let path = join_path(project.state_dir.as_str(), "tasks.json");
    let tasks = match &seen.tasks_text {
        TextRead::Missing => json_single("tasks", json_empty_list()),
        TextRead::Unreadable { message } => {
            return Err(StatusError::JsonOutput { path, message: message.clone() });
        },
        TextRead::Contents { text } => match parse_json(text.as_str()) {
            Err(message) => {
                return Err(StatusError::JsonOutput { path, message });
            },
            Ok(v) => v,
        },
    };
    let status = runner_header_with_tmux(project, &seen.runners, &seen.session, now);
    Ok(json_to_pretty(&make_raw_document(&tasks, &status)))
}

/// The task with an id.
pub open spec fn shown_task(
    before: ReportView,
    project: ProjectView,
    seen: StatusSeenView,
    id: Seq<char>,
) -> (ReportView, Result<TaskView, StatusErrorView>) {
    match shown_store(project, seen) {
        Err(e) => (before, Err(e)),
        Ok(None) => (before, Err(StatusErrorView::TaskNotFound { id })),
        Ok(Some((_, store))) => match find_task(store.tasks, id) {
            None => (opened_beside(before, store), Err(StatusErrorView::TaskNotFound { id })),
            Some(t) => (opened_beside(before, store), Ok(t)),
        },
    }
}

fn show_task(before: Report, project: &Project, seen: &StatusSeen, id: &str) -> (r: (
    Report,
    Result<Task, StatusError>,
))
    ensures
        (r.0@, outcome(r.1)) == shown_task(before@, project@, seen@, id@),
{
    match open_shown(project, seen) {
        Err(e) => (before, Err(e)),
        Ok(None) => (before, Err(StatusError::TaskNotFound { id: id.to_owned() })),
        Ok(Some((_, store))) => {
            let report = open_beside(before, &store);
            match store.get_task(id) {
                None => (report, Err(StatusError::TaskNotFound { id: id.to_owned() })),
                Some(t) => (report, Ok(t.duplicate())),
            }
        },
    }
}

/// What showing the tasks of a project leaves to be done: the clock says which failures are
/// recent, and the runner is shown as of a point in time.
pub open spec fn status(
    project: ProjectView,
    seen: StatusSeenView,
    json: bool,
    filter: Option<Seq<char>>,
    limit: Option<usize>,
    offset: Option<usize>,
    clock: Instant,
    now: Instant,
) -> (StatusReportView, Result<(), StatusErrorView>) {
    let before = with_warning(seen, clock);
    if json {
        match filter {
            Some(id) => match shown_task(before, project, seen, id) {
                (report, Err(e)) => (plain_report(report), Err(e)),
                (report, Ok(t)) => (
                    StatusReportView { task: Some(t), ..plain_report(report) },
                    Ok(()),
                ),
            },
            None => match raw_status(project, seen, now) {
                Err(e) => (plain_report(before), Err(e)),
                Ok(text) => (
                    StatusReportView { raw: Some(text), ..plain_report(before) },
                    Ok(()),
                ),
            },
        }
    } else {
        match shown_store(project, seen) {
            Err(e) => (plain_report(before), Err(e)),
            Ok(None) => empty_status(before, project, seen, filter, now),
            Ok(Some((config, store))) => {
                let report = opened_beside(before, store);
                let terminal = config.terminal()->0;
                if store.tasks.len() == 0 {
                    empty_status(report, project, seen, filter, now)
                } else {
                    match filter {
                        Some(id) => match find_task(store.tasks, id) {
                            None => (
                                plain_report(report),
                                Err(StatusErrorView::TaskNotFound { id }),
                            ),
                            Some(t) => (
                                plain_report(report.said(status_table(seq![t], terminal))),
                                Ok(()),
                            ),
                        },
                        None => (
                            plain_report(
                                report.said(
                                    header_line(project, seen, now) + "\n\n"@ + table_page(
                                        store.tasks,
                                        terminal,
                                        limit,
                                        offset,
                                    ),
                                ),
                            ),
                            Ok(()),
                        ),
                    }
                }
            },
        }
    }
}

/// Shows the tasks of a project at a point in time, with what the clock says.
pub fn run_status_by_clock(
    project: &Project,
    seen: &StatusSeen,
    json: bool,
    filter: Option<&str>,
    limit: Option<usize>,
    offset: Option<usize>,
    clock: Instant,
    now: Instant,
) -> (r: (StatusReport, Result<(), StatusError>))
    requires
        now.on_calendar(),
        MIN_SECONDS <= clock.secs - 86_400,
    ensures
        (r.0@, outcome(r.1)) == status(
            project@,
            seen@,
            json,
            filter.deep_view(),
            limit,
            offset,
            clock,
            now,
        ),
{
    let before = warn_recent_hook_failures(seen, clock);
    if json {
        return match filter {
            Some(id) => match show_task(before, project, seen, id) {
                (report, Err(e)) => (only_report(report), Err(e)),
                (report, Ok(t)) => (
                    StatusReport { report, raw: None, task: Some(t) },
                    Ok(()),
                ),
            },
            None => match output_raw_json_with_runner(project, seen, now) {
                Err(e) => (only_report(before), Err(e)),
                Ok(text) => (
                    StatusReport { report: before, raw: Some(text), task: None },
                    Ok(()),
                ),
            },
        };
    }
    let (config, store) = match open_shown(project, seen) {
        Err(e) => {
            return (only_report(before), Err(e));
        },
        Ok(None) => {
            return say_empty(before, project, seen, filter, now);
        },
        Ok(Some(x)) => x,
    };
    let mut report = open_beside(before, &store);
    let terminal: &str = match config.terminal_phase() {
        Some(p) => p,
        None => "",
    };
    if store.all_tasks().len() == 0 {
        return say_empty(report, project, seen, filter, now);
    }
    match filter {
        Some(id) => match store.get_task(id) {
            None => (
                only_report(report),
                Err(StatusError::TaskNotFound { id: id.to_owned() }),
            ),
            Some(t) => {
                let single: Vec<Task> = vec![t.duplicate()];
                assert(single.deep_view() =~= seq![t@]);
                report.say(format_status_table(single.as_slice(), terminal));
                (only_report(report), Ok(()))
            },
        },
        None => {
            let mut line = write_header_line(project, seen, now);
            line.push_str("\n\n");
            line.push_str(
                write_table_page(store.all_tasks(), terminal, limit, offset).as_str(),
            );
            report.say(line);
            (only_report(report), Ok(()))
        },
    }
}

/// Shows the tasks of a project at a point in time.
pub fn run_status_with_tmux_at(
    project: &Project,
    seen: &StatusSeen,
    json: bool,
    filter: Option<&str>,
    limit: Option<usize>,
    offset: Option<usize>,
    now: Instant,
) -> (r: (StatusReport, Result<(), StatusError>))
    requires
        now.on_calendar(),
    ensures
        exists|clock: Instant|
            clock.on_calendar() && (r.0@, outcome(r.1)) == #[trigger] status(
                project@,
                seen@,
                json,
                filter.deep_view(),
                limit,
                offset,
                clock,
                now,
            ),
{
    run_status_by_clock(project, seen, json, filter, limit, offset, Instant::now(), now)
}

/// Shows the tasks of a project.
pub fn run_status(
    project: &Project,
    seen: &StatusSeen,
    json: bool,
    filter: Option<&str>,
    limit: Option<usize>,
    offset: Option<usize>,
) -> (r: (StatusReport, Result<(), StatusError>))
    ensures
        exists|clock: Instant, now: Instant|
            clock.on_calendar() && now.on_calendar() && (r.0@, outcome(r.1)) == #[trigger] status(
                project@,
                seen@,
                json,
                filter.deep_view(),
                limit,
                offset,
                clock,
                now,
            ),
{
    run_status_with_tmux_at(project, seen, json, filter, limit, offset, Instant::now())
}

/// Shows the details of a task.
pub fn run_inspect(project: &Project, seen: &StatusSeen, id: &str) -> (r: (
    Report,
    Result<(), StatusError>,
))
    ensures
        (r.0@, outcome(r.1)) == match shown_task(quiet(), project@, seen@, id@) {
            (report, Err(e)) => (report, Err::<(), StatusErrorView>(e)),
            (report, Ok(t)) => (report.said(task_detail(t)), Ok(())),
        },
{
    match show_task(Report::quiet(), project, seen, id) {
        (report, Err(e)) => (report, Err(e)),
        (report, Ok(t)) => {
            let mut report = report;
            report.say(format_task_detail(&t));
            (report, Ok(()))
        },
    }
}

} // verus!
