//! Tasks, and the moves between phases that they can make.

use vstd::prelude::*;

use crate::duplicate::{outcome, Duplicate};
use crate::engine::config::{Config, ConfigView, TERMINAL_PHASE_NAME};
use crate::string_map::{put, StringMap};
use crate::text::{
    after_prefix, decimal, decimal_padded, decimal_padded_str, decimal_str, first_where, join_path,
    keep, lemma_first_is, lemma_first_none, lemma_first_where, parse_u64, parse_unsigned, path_join,
    str_eq, strip_prefix,
};
use crate::time::{rfc3339, rfc3339_text, Instant};

verus! {

/// The state of a task that was given up.
pub const FAILED_STATE: &'static str = "failed";

/// The state of a task that waits for a decision.
pub const BLOCKED_STATE: &'static str = "blocked";

/// What came out of a phase.
#[derive(Debug, PartialEq, Eq)]
pub struct TaskPhase {
    pub artifact: String,
    pub completed_at: String,
}

/// The contents of a `TaskPhase`.
#[verifier::ext_equal]
pub struct TaskPhaseView {
    pub artifact: Seq<char>,
    pub completed_at: Seq<char>,
}

impl View for TaskPhase {
    type V = TaskPhaseView;

    open spec fn view(&self) -> TaskPhaseView {
        TaskPhaseView {
            artifact: self.artifact@,
            completed_at: self.completed_at@,
        }
    }
}

impl DeepView for TaskPhase {
    type V = TaskPhaseView;

    open spec fn deep_view(&self) -> TaskPhaseView {
        self@
    }
}

impl Duplicate for TaskPhase {
    fn duplicate(&self) -> (r: Self) {
        TaskPhase {
            artifact: self.artifact.duplicate(),
            completed_at: self.completed_at.duplicate(),
        }
    }
}

impl Clone for TaskPhase {
    fn clone(&self) -> (r: Self)
        ensures
            r@ == self@,
    {
        self.duplicate()
    }
}


/// A move of a task from one state to another.
#[derive(Debug, PartialEq, Eq)]
pub struct HistoryEntry {
    pub from: Option<String>,
    pub to: String,
    pub timestamp: String,
    pub reason: String,
}

/// The contents of a `HistoryEntry`.
#[verifier::ext_equal]
pub struct HistoryEntryView {
    pub from: Option<Seq<char>>,
    pub to: Seq<char>,
    pub timestamp: Seq<char>,
    pub reason: Seq<char>,
}

impl View for HistoryEntry {
    type V = HistoryEntryView;

    open spec fn view(&self) -> HistoryEntryView {
        HistoryEntryView {
            from: self.from.deep_view(),
            to: self.to@,
            timestamp: self.timestamp@,
            reason: self.reason@,
        }
    }
}

impl DeepView for HistoryEntry {
    type V = HistoryEntryView;

    open spec fn deep_view(&self) -> HistoryEntryView {
        self@
    }
}

impl Duplicate for HistoryEntry {
    fn duplicate(&self) -> (r: Self) {
        HistoryEntry {
            from: self.from.duplicate(),
            to: self.to.duplicate(),
            timestamp: self.timestamp.duplicate(),
            reason: self.reason.duplicate(),
        }
    }
}

impl Clone for HistoryEntry {
    fn clone(&self) -> (r: Self)
        ensures
            r@ == self@,
    {
        self.duplicate()
    }
}


/// A question about a task, and its answer.
#[derive(Debug, PartialEq, Eq)]
pub struct Clarification {
    pub question: String,
    pub answer: String,
    pub phase: String,
    pub timestamp: String,
}

/// The contents of a `Clarification`.
#[verifier::ext_equal]
pub struct ClarificationView {
    pub question: Seq<char>,
    pub answer: Seq<char>,
    pub phase: Seq<char>,
    pub timestamp: Seq<char>,
}

impl View for Clarification {
    type V = ClarificationView;

    open spec fn view(&self) -> ClarificationView {
        ClarificationView {
            question: self.question@,
            answer: self.answer@,
            phase: self.phase@,
            timestamp: self.timestamp@,
        }
    }
}

impl DeepView for Clarification {
    type V = ClarificationView;

    open spec fn deep_view(&self) -> ClarificationView {
        self@
    }
}

impl Duplicate for Clarification {
    fn duplicate(&self) -> (r: Self) {
        Clarification {
            question: self.question.duplicate(),
            answer: self.answer.duplicate(),
            phase: self.phase.duplicate(),
            timestamp: self.timestamp.duplicate(),
        }
    }
}

impl Clone for Clarification {
    fn clone(&self) -> (r: Self)
        ensures
            r@ == self@,
    {
        self.duplicate()
    }
}


/// A piece of work.
#[derive(Debug, PartialEq, Eq)]
pub struct Task {
    pub id: String,
    pub title: String,
    pub description: String,
    pub state: String,
    pub blocked_at_phase: Option<String>,
    pub blocked_reason: Option<String>,
    pub clarifications: Vec<Clarification>,
    pub dependencies: Vec<String>,
    pub retry_count: u32,
    pub max_retries: u32,
    pub phases: StringMap<TaskPhase>,
    pub history: Vec<HistoryEntry>,
    pub created_at: String,
    pub workflow: String,
    pub locked_at: Option<String>,
    pub acceptance_criteria: Option<String>,
}

/// The contents of a `Task`.
#[verifier::ext_equal]
pub struct TaskView {
    pub id: Seq<char>,
    pub title: Seq<char>,
    pub description: Seq<char>,
    pub state: Seq<char>,
    pub blocked_at_phase: Option<Seq<char>>,
    pub blocked_reason: Option<Seq<char>>,
    pub clarifications: Seq<ClarificationView>,
    pub dependencies: Seq<Seq<char>>,
    pub retry_count: u32,
    pub max_retries: u32,
    pub phases: Seq<(Seq<char>, TaskPhaseView)>,
    pub history: Seq<HistoryEntryView>,
    pub created_at: Seq<char>,
    pub workflow: Seq<char>,
    pub locked_at: Option<Seq<char>>,
    pub acceptance_criteria: Option<Seq<char>>,
}

impl View for Task {
    type V = TaskView;

    open spec fn view(&self) -> TaskView {
        TaskView {
            id: self.id@,
            title: self.title@,
            description: self.description@,
            state: self.state@,
            blocked_at_phase: self.blocked_at_phase.deep_view(),
            blocked_reason: self.blocked_reason.deep_view(),
            clarifications: self.clarifications.deep_view(),
            dependencies: self.dependencies.deep_view(),
            retry_count: self.retry_count,
            max_retries: self.max_retries,
            phases: self.phases@,
            history: self.history.deep_view(),
            created_at: self.created_at@,
            workflow: self.workflow@,
            locked_at: self.locked_at.deep_view(),
            acceptance_criteria: self.acceptance_criteria.deep_view(),
        }
    }
}

impl DeepView for Task {
    type V = TaskView;

    open spec fn deep_view(&self) -> TaskView {
        self@
    }
}

impl Duplicate for Task {
    fn duplicate(&self) -> (r: Self) {
        Task {
            id: self.id.duplicate(),
            title: self.title.duplicate(),
            description: self.description.duplicate(),
            state: self.state.duplicate(),
            blocked_at_phase: self.blocked_at_phase.duplicate(),
            blocked_reason: self.blocked_reason.duplicate(),
            clarifications: self.clarifications.duplicate(),
            dependencies: self.dependencies.duplicate(),
            retry_count: self.retry_count,
            max_retries: self.max_retries,
            phases: self.phases.duplicate(),
            history: self.history.duplicate(),
            created_at: self.created_at.duplicate(),
            workflow: self.workflow.duplicate(),
            locked_at: self.locked_at.duplicate(),
            acceptance_criteria: self.acceptance_criteria.duplicate(),
        }
    }
}

impl Clone for Task {
    fn clone(&self) -> (r: Self)
        ensures
            r@ == self@,
    {
        self.duplicate()
    }
}


/// The tasks of a project.
#[derive(Debug, PartialEq, Eq)]
pub struct TasksFile {
    pub tasks: Vec<Task>,
}

/// The contents of a `TasksFile`.
#[verifier::ext_equal]
pub struct TasksFileView {
    pub tasks: Seq<TaskView>,
}

impl View for TasksFile {
    type V = TasksFileView;

    open spec fn view(&self) -> TasksFileView {
        TasksFileView {
            tasks: self.tasks.deep_view(),
        }
    }
}

impl DeepView for TasksFile {
    type V = TasksFileView;

    open spec fn deep_view(&self) -> TasksFileView {
        self@
    }
}

impl Duplicate for TasksFile {
    fn duplicate(&self) -> (r: Self) {
        TasksFile {
            tasks: self.tasks.duplicate(),
        }
    }
}

impl Clone for TasksFile {
    fn clone(&self) -> (r: Self)
        ensures
            r@ == self@,
    {
        self.duplicate()
    }
}


/// A task as a file holds it.
#[derive(Debug, PartialEq, Eq)]
pub struct TaskWire {
    /// The task, but for its workflow.
    pub task: Task,
    /// The workflow, which older files leave out.
    pub workflow: Option<String>,
    /// Whether the file holds a state machine for the task, as older files do.
    pub has_state_machine: bool,
}

/// The contents of a `TaskWire`.
#[verifier::ext_equal]
pub struct TaskWireView {
    pub task: TaskView,
    pub workflow: Option<Seq<char>>,
    pub has_state_machine: bool,
}

impl View for TaskWire {
    type V = TaskWireView;

    open spec fn view(&self) -> TaskWireView {
        TaskWireView {
            task: self.task@,
            workflow: self.workflow.deep_view(),
            has_state_machine: self.has_state_machine,
        }
    }
}

impl DeepView for TaskWire {
    type V = TaskWireView;

    open spec fn deep_view(&self) -> TaskWireView {
        self@
    }
}

impl Duplicate for TaskWire {
    fn duplicate(&self) -> (r: Self) {
        TaskWire {
            task: self.task.duplicate(),
            workflow: self.workflow.duplicate(),
            has_state_machine: self.has_state_machine,
        }
    }
}

impl Clone for TaskWire {
    fn clone(&self) -> (r: Self)
        ensures
            r@ == self@,
    {
        self.duplicate()
    }
}


/// What reading the tasks of a project gave.
#[derive(Debug, PartialEq, Eq)]
pub enum TasksRead {
    /// There is no such file.
    Missing,
    /// The file could not be read.
    Unreadable { message: String },
    /// The file holds no tasks.
    Malformed { message: String },
    /// The tasks that the file holds.
    Parsed { tasks: Vec<TaskWire> },
}

/// The contents of a `TasksRead`.
#[verifier::ext_equal]
pub enum TasksReadView {
    Missing,
    Unreadable { message: Seq<char> },
    Malformed { message: Seq<char> },
    Parsed { tasks: Seq<TaskWireView> },
}

impl View for TasksRead {
    type V = TasksReadView;

    open spec fn view(&self) -> TasksReadView {
        match self {
            TasksRead::Missing => TasksReadView::Missing,
            TasksRead::Unreadable { message } => TasksReadView::Unreadable { message: message@ },
            TasksRead::Malformed { message } => TasksReadView::Malformed { message: message@ },
            TasksRead::Parsed { tasks } => TasksReadView::Parsed { tasks: tasks.deep_view() },
        }
    }
}

impl DeepView for TasksRead {
    type V = TasksReadView;

    open spec fn deep_view(&self) -> TasksReadView {
        self@
    }
}

impl Duplicate for TasksRead {
    fn duplicate(&self) -> (r: Self) {
        match self {
            TasksRead::Missing => TasksRead::Missing,
            TasksRead::Unreadable { message } => TasksRead::Unreadable { message: message.duplicate() },
            TasksRead::Malformed { message } => TasksRead::Malformed { message: message.duplicate() },
            TasksRead::Parsed { tasks } => TasksRead::Parsed { tasks: tasks.duplicate() },
        }
    }
}

impl Clone for TasksRead {
    fn clone(&self) -> (r: Self)
        ensures
            r@ == self@,
    {
        self.duplicate()
    }
}


/// Why a task could not be changed.
#[derive(Debug, PartialEq, Eq)]
pub enum StoreError {
    NotFound,
    InvalidTransition { from: String, to: String },
    DependencyBlocked { task_id: String, blocking_id: String },
    AlreadyTerminal,
    AlreadyBlocked,
    NotBlocked,
    NotFailed { id: String },
    CannotUpdateTerminal { id: String, state: String },
    NotInPendingPhase { id: String },
    DependedOnBy { id: String, dependent_id: String },
    UnknownPhase { phase: String },
    UnknownWorkflow { workflow: String },
    Io { path: String, message: String },
    Serialize { message: String },
    Deserialize { message: String },
}

/// The contents of a `StoreError`.
#[verifier::ext_equal]
pub enum StoreErrorView {
    NotFound,
    InvalidTransition { from: Seq<char>, to: Seq<char> },
    DependencyBlocked { task_id: Seq<char>, blocking_id: Seq<char> },
    AlreadyTerminal,
    AlreadyBlocked,
    NotBlocked,
    NotFailed { id: Seq<char> },
    CannotUpdateTerminal { id: Seq<char>, state: Seq<char> },
    NotInPendingPhase { id: Seq<char> },
    DependedOnBy { id: Seq<char>, dependent_id: Seq<char> },
    UnknownPhase { phase: Seq<char> },
    UnknownWorkflow { workflow: Seq<char> },
    Io { path: Seq<char>, message: Seq<char> },
    Serialize { message: Seq<char> },
    Deserialize { message: Seq<char> },
}

impl View for StoreError {
    type V = StoreErrorView;

    open spec fn view(&self) -> StoreErrorView {
        match self {
            StoreError::NotFound => StoreErrorView::NotFound,
            StoreError::InvalidTransition { from, to } => StoreErrorView::InvalidTransition { from: from@, to: to@ },
            StoreError::DependencyBlocked { task_id, blocking_id } => StoreErrorView::DependencyBlocked { task_id: task_id@, blocking_id: blocking_id@ },
            StoreError::AlreadyTerminal => StoreErrorView::AlreadyTerminal,
            StoreError::AlreadyBlocked => StoreErrorView::AlreadyBlocked,
            StoreError::NotBlocked => StoreErrorView::NotBlocked,
            StoreError::NotFailed { id } => StoreErrorView::NotFailed { id: id@ },
            StoreError::CannotUpdateTerminal { id, state } => StoreErrorView::CannotUpdateTerminal { id: id@, state: state@ },
            StoreError::NotInPendingPhase { id } => StoreErrorView::NotInPendingPhase { id: id@ },
            StoreError::DependedOnBy { id, dependent_id } => StoreErrorView::DependedOnBy { id: id@, dependent_id: dependent_id@ },
            StoreError::UnknownPhase { phase } => StoreErrorView::UnknownPhase { phase: phase@ },
            StoreError::UnknownWorkflow { workflow } => StoreErrorView::UnknownWorkflow { workflow: workflow@ },
            StoreError::Io { path, message } => StoreErrorView::Io { path: path@, message: message@ },
            StoreError::Serialize { message } => StoreErrorView::Serialize { message: message@ },
            StoreError::Deserialize { message } => StoreErrorView::Deserialize { message: message@ },
        }
    }
}

impl DeepView for StoreError {
    type V = StoreErrorView;

    open spec fn deep_view(&self) -> StoreErrorView {
        self@
    }
}

impl Duplicate for StoreError {
    fn duplicate(&self) -> (r: Self) {
        match self {
            StoreError::NotFound => StoreError::NotFound,
            StoreError::InvalidTransition { from, to } => StoreError::InvalidTransition { from: from.duplicate(), to: to.duplicate() },
            StoreError::DependencyBlocked { task_id, blocking_id } => StoreError::DependencyBlocked { task_id: task_id.duplicate(), blocking_id: blocking_id.duplicate() },
            StoreError::AlreadyTerminal => StoreError::AlreadyTerminal,
            StoreError::AlreadyBlocked => StoreError::AlreadyBlocked,
            StoreError::NotBlocked => StoreError::NotBlocked,
            StoreError::NotFailed { id } => StoreError::NotFailed { id: id.duplicate() },
            StoreError::CannotUpdateTerminal { id, state } => StoreError::CannotUpdateTerminal { id: id.duplicate(), state: state.duplicate() },
            StoreError::NotInPendingPhase { id } => StoreError::NotInPendingPhase { id: id.duplicate() },
            StoreError::DependedOnBy { id, dependent_id } => StoreError::DependedOnBy { id: id.duplicate(), dependent_id: dependent_id.duplicate() },
            StoreError::UnknownPhase { phase } => StoreError::UnknownPhase { phase: phase.duplicate() },
            StoreError::UnknownWorkflow { workflow } => StoreError::UnknownWorkflow { workflow: workflow.duplicate() },
            StoreError::Io { path, message } => StoreError::Io { path: path.duplicate(), message: message.duplicate() },
            StoreError::Serialize { message } => StoreError::Serialize { message: message.duplicate() },
            StoreError::Deserialize { message } => StoreError::Deserialize { message: message.duplicate() },
        }
    }
}

impl Clone for StoreError {
    fn clone(&self) -> (r: Self)
        ensures
            r@ == self@,
    {
        self.duplicate()
    }
}

impl StoreErrorView {
    /// The text shown for the error.
    pub open spec fn message(self) -> Seq<char> {
        match self {
            StoreErrorView::NotFound => "task not found"@,
            StoreErrorView::InvalidTransition { from, to } => "invalid transition: "@ + from + " -> "@ + to,
            StoreErrorView::DependencyBlocked { task_id, blocking_id } => "task "@ + task_id + " blocked by dependency "@ + blocking_id,
            StoreErrorView::AlreadyTerminal => "task is already terminal"@,
            StoreErrorView::AlreadyBlocked => "task is already blocked"@,
            StoreErrorView::NotBlocked => "task is not blocked"@,
            StoreErrorView::NotFailed { id } => "task "@ + id + " is not in a failed state"@,
            StoreErrorView::CannotUpdateTerminal { id, state } => "task "@ + id + " is "@ + state + " and cannot be updated"@,
            StoreErrorView::NotInPendingPhase { id } => "task "@ + id + " is not in the pending phase"@,
            StoreErrorView::DependedOnBy { id, dependent_id } => "task "@ + id + " is depended on by "@ + dependent_id,
            StoreErrorView::UnknownPhase { phase } => "unknown phase: "@ + phase,
            StoreErrorView::UnknownWorkflow { workflow } => "unknown workflow: "@ + workflow,
            StoreErrorView::Io { path, .. } => "failed to write or read "@ + path,
            StoreErrorView::Serialize { .. } => "failed to serialize tasks"@,
            StoreErrorView::Deserialize { .. } => "failed to deserialize tasks"@,
        }
    }
}

impl StoreError {
    /// The text shown for the error.
    pub fn message(&self) -> (r: String)
        ensures
            r@ == self@.message(),
    {
        match self {
            StoreError::NotFound => "task not found".to_owned(),
            StoreError::InvalidTransition { from, to } => {
                let mut out = "invalid transition: ".to_owned();
                out.push_str(from.as_str());
                out.push_str(" -> ");
                out.push_str(to.as_str());
                out
            },
            StoreError::DependencyBlocked { task_id, blocking_id } => {
                let mut out = "task ".to_owned();
                out.push_str(task_id.as_str());
                out.push_str(" blocked by dependency ");
                out.push_str(blocking_id.as_str());
                out
            },
            StoreError::AlreadyTerminal => "task is already terminal".to_owned(),
            StoreError::AlreadyBlocked => "task is already blocked".to_owned(),
            StoreError::NotBlocked => "task is not blocked".to_owned(),
            StoreError::NotFailed { id } => {
                let mut out = "task ".to_owned();
                out.push_str(id.as_str());
                out.push_str(" is not in a failed state");
                out
            },
            StoreError::CannotUpdateTerminal { id, state } => {
                let mut out = "task ".to_owned();
                out.push_str(id.as_str());
                out.push_str(" is ");
                out.push_str(state.as_str());
                out.push_str(" and cannot be updated");
                out
            },
            StoreError::NotInPendingPhase { id } => {
                let mut out = "task ".to_owned();
                out.push_str(id.as_str());
                out.push_str(" is not in the pending phase");
                out
            },
            StoreError::DependedOnBy { id, dependent_id } => {
                let mut out = "task ".to_owned();
                out.push_str(id.as_str());
                out.push_str(" is depended on by ");
                out.push_str(dependent_id.as_str());
                out
            },
            StoreError::UnknownPhase { phase } => {
                let mut out = "unknown phase: ".to_owned();
                out.push_str(phase.as_str());
                out
            },
            StoreError::UnknownWorkflow { workflow } => {
                let mut out = "unknown workflow: ".to_owned();
                out.push_str(workflow.as_str());
                out
            },
            StoreError::Io { path, .. } => {
                let mut out = "failed to write or read ".to_owned();
                out.push_str(path.as_str());
                out
            },
            StoreError::Serialize { .. } => "failed to serialize tasks".to_owned(),
            StoreError::Deserialize { .. } => "failed to deserialize tasks".to_owned(),
        }
    }
}


// ---------------------------------------------------------------------------------------------
// Tasks
// ---------------------------------------------------------------------------------------------

impl TaskView {
    /// Done or given up.
    pub open spec fn finished(self) -> bool {
        self.state == TERMINAL_PHASE_NAME@ || self.state == FAILED_STATE@
    }
}

/// Whether there are tasks and each of them is done or given up.
pub fn all_tasks_done(tasks: &[Task]) -> (r: bool)
    ensures
        r == (tasks.deep_view().len() > 0 && forall|i: int|
            0 <= i < tasks.deep_view().len() ==> (#[trigger] tasks.deep_view()[i]).finished()),
{
    if tasks.len() == 0 {
        return false;
    }
    let mut i: usize = 0;
    while i < tasks.len()
        invariant
            i <= tasks.len(),
            forall|j: int| 0 <= j < i ==> (#[trigger] tasks.deep_view()[j]).finished(),
        decreases tasks.len() - i,
    {
        assert(tasks.deep_view()[i as int] == tasks@[i as int]@);
        if !is_terminal_task(&tasks[i]) {
            return false;
        }
        i = i + 1;
    }
    true
}

/// Whether a task is done or given up.
pub fn is_terminal_task(task: &Task) -> (r: bool)
    ensures
        r == task@.finished(),
{
    str_eq(task.state.as_str(), TERMINAL_PHASE_NAME) || str_eq(task.state.as_str(), FAILED_STATE)
}

/// The tasks with a given id.
pub open spec fn id_is(id: Seq<char>) -> spec_fn(TaskView) -> bool {
    |t: TaskView| t.id == id
}

/// The position of the first task with an id.
pub open spec fn task_index(tasks: Seq<TaskView>, id: Seq<char>) -> Option<int> {
    first_where(tasks, id_is(id))
}

/// The first task with an id.
pub open spec fn find_task(tasks: Seq<TaskView>, id: Seq<char>) -> Option<TaskView> {
    match task_index(tasks, id) {
        Some(i) => Some(tasks[i]),
        None => None,
    }
}

/// The position of the first task with an id.
pub fn index_of_task(tasks: &[Task], id: &str) -> (r: Option<usize>)
    ensures
        match r {
            Some(i) => task_index(tasks.deep_view(), id@) == Some(i as int) && i
                < tasks.deep_view().len(),
            None => task_index(tasks.deep_view(), id@) is None,
        },
{
    let mut i: usize = 0;
    while i < tasks.len()
        invariant
            i <= tasks.len(),
            forall|j: int| 0 <= j < i ==> !id_is(id@)(#[trigger] tasks.deep_view()[j]),
        decreases tasks.len() - i,
    {
        assert(tasks.deep_view()[i as int] == tasks@[i as int]@);
        if str_eq(tasks[i].id.as_str(), id) {
            proof {
                lemma_first_is(tasks.deep_view(), id_is(id@), i as int);
            }
            return Some(i);
        }
        i = i + 1;
    }
    proof {
        lemma_first_none(tasks.deep_view(), id_is(id@));
    }
    None
}

/// The texts equal to a given one.
pub open spec fn text_is(item: Seq<char>) -> spec_fn(Seq<char>) -> bool {
    |x: Seq<char>| x == item
}

/// The position of a text in a list.
pub open spec fn position(list: Seq<Seq<char>>, item: Seq<char>) -> Option<int> {
    first_where(list, text_is(item))
}

/// The position of a text in a list.
pub fn position_of(list: &[String], item: &str) -> (r: Option<usize>)
    ensures
        match r {
            Some(i) => position(list.deep_view(), item@) == Some(i as int) && i
                < list.deep_view().len() && list.deep_view()[i as int] == item@,
            None => position(list.deep_view(), item@) is None && !list.deep_view().contains(item@),
        },
{
    let ghost p = text_is(item@);
    let mut i: usize = 0;
    while i < list.len()
        invariant
            i <= list.len(),
            p == text_is(item@),
            forall|j: int| 0 <= j < i ==> !p(#[trigger] list.deep_view()[j]),
        decreases list.len() - i,
    {
        assert(list.deep_view()[i as int] == list@[i as int]@);
        if str_eq(list[i].as_str(), item) {
            proof {
                lemma_first_is(list.deep_view(), p, i as int);
            }
            return Some(i);
        }
        i = i + 1;
    }
    proof {
        lemma_first_none(list.deep_view(), p);
    }
    None
}

/// Where a text is in a list, it stands at its position.
pub proof fn lemma_position(list: Seq<Seq<char>>, item: Seq<char>)
    ensures
        match position(list, item) {
            Some(i) => 0 <= i < list.len() && list[i] == item && forall|j: int|
                0 <= j < i ==> #[trigger] list[j] != item,
            None => !list.contains(item),
        },
{
    lemma_first_where(list, text_is(item));
    assert forall|j: int| 0 <= j < list.len() && !text_is(item)(#[trigger] list[j]) implies list[j]
        != item by {}
    match position(list, item) {
        Some(i) => {
            assert forall|j: int| 0 <= j < i implies #[trigger] list[j] != item by {
                assert(!text_is(item)(list[j]));
            }
        },
        None => {
            assert forall|j: int| 0 <= j < list.len() implies #[trigger] list[j] != item by {
                assert(!text_is(item)(list[j]));
            }
        },
    }
}

/// The position of a text in a list is that of its first occurrence.
pub proof fn law_position_is_the_first(list: Seq<Seq<char>>, item: Seq<char>)
    ensures
        position(list, item) == list.index_of_first(item),
{
    lemma_position(list, item);
    list.index_of_first_ensures(item);
    match (position(list, item), list.index_of_first(item)) {
        (Some(i), Some(j)) => {
            if i < j {
                assert(list[i] != item);
            }
            if j < i {
                assert(list[j] != item);
            }
        },
        _ => {},
    }
}

/// Where there is a task with an id, it is the one found.
pub proof fn lemma_task_index(tasks: Seq<TaskView>, id: Seq<char>)
    ensures
        match task_index(tasks, id) {
            Some(i) => 0 <= i < tasks.len() && tasks[i].id == id && forall|j: int|
                0 <= j < i ==> (#[trigger] tasks[j]).id != id,
            None => forall|j: int| 0 <= j < tasks.len() ==> (#[trigger] tasks[j]).id != id,
        },
{
    lemma_first_where(tasks, id_is(id));
    if task_index(tasks, id) is None {
        assert forall|j: int| 0 <= j < tasks.len() implies (#[trigger] tasks[j]).id != id by {
            assert(!id_is(id)(tasks[j]));
        }
    } else {
        let i = task_index(tasks, id)->0;
        assert forall|j: int| 0 <= j < i implies (#[trigger] tasks[j]).id != id by {
            assert(!id_is(id)(tasks[j]));
        }
    }
}

// ---------------------------------------------------------------------------------------------
// Task files
// ---------------------------------------------------------------------------------------------

impl TaskWireView {
    /// An older form that is brought up to date when it is read.
    pub open spec fn outdated(self) -> bool {
        self.has_state_machine || self.workflow is None || self.workflow->0.len() == 0
    }

    /// The task in its present form, with the default workflow where the file names none.
    pub open spec fn current(self, config: ConfigView) -> TaskView {
        TaskView {
            workflow: match self.workflow {
                Some(name) => if name.len() == 0 {
                    config.default_workflow
                } else {
                    name
                },
                None => config.default_workflow,
            },
            ..self.task
        }
    }
}

impl TaskWire {
    /// Whether the file holds the task in an older form.
    pub fn needs_migration(&self) -> (r: bool)
        ensures
            r == self@.outdated(),
    {
        let unnamed = match &self.workflow {
            Some(name) => name.as_str().is_empty(),
            None => true,
        };
        unnamed || self.has_state_machine
    }

    /// The task in its present form.
    pub fn into_task(self, config: &Config) -> (r: Task)
        ensures
            r@ == self@.current(config@),
    {
        let mut task = self.task;
        task.workflow =
        match self.workflow {
            Some(name) => {
                if name.as_str().is_empty() {
                    config.default_workflow.clone()
                } else {
                    name
                }
            },
            None => config.default_workflow.clone(),
        };
        task
    }
}

/// The contents of a store of tasks.
#[verifier::ext_equal]
pub struct TaskStoreView {
    pub tasks_path: Seq<char>,
    pub tasks: Seq<TaskView>,
    pub config: ConfigView,
    pub max_retries: u32,
    pub migrated: bool,
}

/// The store that a project's tasks and configuration make up.
pub open spec fn opened(state_dir: Seq<char>, read: TasksReadView, config: ConfigView) -> Result<
    TaskStoreView,
    StoreErrorView,
> {
    let tasks_path = path_join(state_dir, "tasks.json"@);
    match read {
        TasksReadView::Missing => Ok(
            TaskStoreView {
                tasks_path,
                tasks: Seq::empty(),
                config,
                max_retries: config.max_retries,
                migrated: false,
            },
        ),
        TasksReadView::Unreadable { message } => Err(
            StoreErrorView::Io { path: tasks_path, message },
        ),
        TasksReadView::Malformed { message } => Err(StoreErrorView::Deserialize { message }),
        TasksReadView::Parsed { tasks } => Ok(
            TaskStoreView {
                tasks_path,
                tasks: tasks.map_values(|t: TaskWireView| t.current(config)),
                config,
                max_retries: config.max_retries,
                migrated: exists|i: int| 0 <= i < tasks.len() && (#[trigger] tasks[i]).outdated(),
            },
        ),
    }
}

/// The tasks of a project and the configuration that governs them.
#[derive(Debug, PartialEq, Eq)]
pub struct TaskStore {
    tasks_path: String,
    tasks_file: TasksFile,
    config: Config,
    max_retries: u32,
    migrated: bool,
}

impl View for TaskStore {
    type V = TaskStoreView;

    closed spec fn view(&self) -> TaskStoreView {
        TaskStoreView {
            tasks_path: self.tasks_path@,
            tasks: self.tasks_file.tasks.deep_view(),
            config: self.config@,
            max_retries: self.max_retries,
            migrated: self.migrated,
        }
    }
}

impl DeepView for TaskStore {
    type V = TaskStoreView;

    open spec fn deep_view(&self) -> TaskStoreView {
        self@
    }
}

impl Duplicate for TaskStore {
    fn duplicate(&self) -> (r: Self) {
        TaskStore {
            tasks_path: self.tasks_path.duplicate(),
            tasks_file: self.tasks_file.duplicate(),
            config: self.config.duplicate(),
            max_retries: self.max_retries,
            migrated: self.migrated,
        }
    }
}

/// What a change of a store comes to: the store after it and what it returns, or a refusal that
/// leaves the store as it was.
pub open spec fn stepped<T>(
    before: TaskStoreView,
    after: TaskStoreView,
    returned: Result<T, StoreErrorView>,
    step: Result<(TaskStoreView, T), StoreErrorView>,
) -> bool {
    match step {
        Ok((s, x)) => after == s && returned == Ok::<T, StoreErrorView>(x),
        Err(e) => after == before && returned == Err::<T, StoreErrorView>(e),
    }
}

/// The number in the id of a task.
pub open spec fn id_number(id: Seq<char>) -> Option<nat> {
    match after_prefix(id, "task-"@) {
        Some(suffix) => parse_unsigned(suffix, usize::MAX as nat),
        None => None,
    }
}

/// The id of the task with a number.
pub open spec fn numbered_id(n: nat) -> Seq<char> {
    "task-"@ + decimal_padded(n, 3)
}

/// The largest number in an id; zero where there is none.
pub open spec fn largest_number(tasks: Seq<TaskView>) -> nat
    decreases tasks.len(),
{
    if tasks.len() == 0 {
        0
    } else {
        let rest = largest_number(tasks.drop_last());
        match id_number(tasks.last().id) {
            Some(n) => if n > rest {
                n
            } else {
                rest
            },
            None => rest,
        }
    }
}

/// The first of some dependencies that names no task.
pub open spec fn missing_dependency(tasks: Seq<TaskView>, deps: Seq<Seq<char>>, j: int) -> Option<
    Seq<char>,
>
    decreases deps.len() - j,
{
    if j < 0 || j >= deps.len() {
        None
    } else if task_index(tasks, deps[j]) is None {
        Some(deps[j])
    } else {
        missing_dependency(tasks, deps, j + 1)
    }
}

/// Why a task with these dependencies cannot advance: the first one that is not done.
pub open spec fn open_dependency(
    s: TaskStoreView,
    id: Seq<char>,
    deps: Seq<Seq<char>>,
    j: int,
) -> Option<StoreErrorView>
    decreases deps.len() - j,
{
    if j < 0 || j >= deps.len() {
        None
    } else {
        match find_task(s.tasks, deps[j]) {
            None => Some(StoreErrorView::DependencyBlocked { task_id: id, blocking_id: deps[j] }),
            Some(d) => {
                let steps = s.config.sequence(d.workflow);
                if steps.len() == 0 {
                    Some(StoreErrorView::UnknownWorkflow { workflow: d.workflow })
                } else if d.state == steps.last() {
                    open_dependency(s, id, deps, j + 1)
                } else {
                    Some(StoreErrorView::DependencyBlocked { task_id: id, blocking_id: deps[j] })
                }
            },
        }
    }
}

impl TaskView {
    /// The task after a move to another state.
    pub open spec fn moved(self, to: Seq<char>, timestamp: Seq<char>, reason: Seq<char>) -> TaskView {
        TaskView {
            state: to,
            locked_at: None,
            history: self.history.push(
                HistoryEntryView { from: Some(self.state), to, timestamp, reason },
            ),
            ..self
        }
    }

    /// The task with what came out of its present phase.
    pub open spec fn with_artifact(self, artifact: TaskPhaseView) -> TaskView {
        TaskView { phases: put(self.phases, self.state, artifact), ..self }
    }
}

impl TaskStoreView {
    /// The store with another task at a position.
    pub open spec fn with_task(self, i: int, t: TaskView) -> TaskStoreView {
        TaskStoreView { tasks: self.tasks.update(i, t), ..self }
    }

    /// Adding a task: it gets the next number, its dependencies must be there, and it starts in
    /// the given phase of its workflow or in the first one.
    pub open spec fn add(
        self,
        title: Seq<char>,
        description: Seq<char>,
        dependencies: Seq<Seq<char>>,
        phase: Option<Seq<char>>,
        workflow: Seq<char>,
        timestamp: Seq<char>,
    ) -> Result<(TaskStoreView, TaskView), StoreErrorView> {
        let steps = self.config.sequence(workflow);
        let id = numbered_id(largest_number(self.tasks) + 1);
        if steps.len() == 0 {
            Err(StoreErrorView::UnknownWorkflow { workflow })
        } else if missing_dependency(self.tasks, dependencies, 0) is Some {
            Err(
                StoreErrorView::DependencyBlocked {
                    task_id: id,
                    blocking_id: missing_dependency(self.tasks, dependencies, 0)->0,
                },
            )
        } else if phase is Some && !steps.contains(phase->0) {
            Err(StoreErrorView::UnknownPhase { phase: phase->0 })
        } else {
            let start = match phase {
                Some(p) => p,
                None => steps[0],
            };
            let task = TaskView {
                id,
                title,
                description,
                state: start,
                blocked_at_phase: None,
                blocked_reason: None,
                clarifications: Seq::empty(),
                dependencies,
                retry_count: 0,
                max_retries: self.max_retries,
                phases: Seq::empty(),
                history: seq![
                    HistoryEntryView { from: None, to: start, timestamp, reason: "task created"@ },
                ],
                created_at: timestamp,
                workflow,
                locked_at: None,
                acceptance_criteria: None,
            };
            Ok((TaskStoreView { tasks: self.tasks.push(task), ..self }, task))
        }
    }

    /// Recording what came out of the present phase of a task.
    pub open spec fn record(self, id: Seq<char>, artifact: TaskPhaseView) -> Result<
        (TaskStoreView, Seq<char>),
        StoreErrorView,
    > {
        match task_index(self.tasks, id) {
            None => Err(StoreErrorView::NotFound),
            Some(i) => Ok(
                (self.with_task(i, self.tasks[i].with_artifact(artifact)), self.tasks[i].state),
            ),
        }
    }

    /// The position of a task that can advance and the phase that comes next for it.
    pub open spec fn next_step(self, id: Seq<char>) -> Result<(int, Seq<char>), StoreErrorView> {
        match task_index(self.tasks, id) {
            None => Err(StoreErrorView::NotFound),
            Some(i) => {
                let t = self.tasks[i];
                let steps = self.config.sequence(t.workflow);
                if steps.len() == 0 {
                    Err(StoreErrorView::UnknownWorkflow { workflow: t.workflow })
                } else if t.state == FAILED_STATE@ || t.state == steps.last() {
                    Err(StoreErrorView::AlreadyTerminal)
                } else {
                    match position(steps, t.state) {
                        None => Err(
                            StoreErrorView::InvalidTransition { from: t.state, to: Seq::empty() },
                        ),
                        Some(k) => match open_dependency(self, id, t.dependencies, 0) {
                            Some(e) => Err(e),
                            None => Ok((i, steps[k + 1])),
                        },
                    }
                }
            },
        }
    }

    /// Advancing a task to its next phase.
    pub open spec fn advance(self, id: Seq<char>, timestamp: Seq<char>) -> Result<
        (TaskStoreView, ()),
        StoreErrorView,
    > {
        match self.next_step(id) {
            Err(e) => Err(e),
            Ok((i, to)) => Ok(
                (
                    self.with_task(
                        i,
                        self.tasks[i].moved(to, timestamp, "advanced to next phase"@),
                    ),
                    (),
                ),
            ),
        }
    }

    /// Recording what came out of the present phase of a task and advancing the task, in one.
    pub open spec fn complete(
        self,
        id: Seq<char>,
        artifact: TaskPhaseView,
        timestamp: Seq<char>,
    ) -> Result<(TaskStoreView, Seq<char>), StoreErrorView> {
        match self.next_step(id) {
            Err(e) => Err(e),
            Ok((i, to)) => Ok(
                (
                    self.with_task(
                        i,
                        self.tasks[i].with_artifact(artifact).moved(
                            to,
                            timestamp,
                            "advanced to next phase"@,
                        ),
                    ),
                    self.tasks[i].state,
                ),
            ),
        }
    }

    /// The position of a task that is in a phase of its workflow other than the last.
    pub open spec fn active(self, id: Seq<char>, to: Seq<char>) -> Result<int, StoreErrorView> {
        match task_index(self.tasks, id) {
            None => Err(StoreErrorView::NotFound),
            Some(i) => {
                let t = self.tasks[i];
                let steps = self.config.sequence(t.workflow);
                if steps.len() == 0 {
                    Err(StoreErrorView::UnknownWorkflow { workflow: t.workflow })
                } else if to == BLOCKED_STATE@ && t.state == BLOCKED_STATE@ {
                    Err(StoreErrorView::AlreadyBlocked)
                } else if t.state == FAILED_STATE@ || t.state == steps.last() {
                    Err(StoreErrorView::AlreadyTerminal)
                } else if !steps.contains(t.state) {
                    Err(StoreErrorView::InvalidTransition { from: t.state, to })
                } else {
                    Ok(i)
                }
            },
        }
    }

    /// Giving a task up.
    pub open spec fn fail(self, id: Seq<char>, reason: Seq<char>, timestamp: Seq<char>) -> Result<
        (TaskStoreView, ()),
        StoreErrorView,
    > {
        match self.active(id, FAILED_STATE@) {
            Err(e) => Err(e),
            Ok(i) => Ok(
                (self.with_task(i, self.tasks[i].moved(FAILED_STATE@, timestamp, reason)), ()),
            ),
        }
    }

    /// Blocking a task: it keeps the phase it was in and the reason.
    pub open spec fn block(self, id: Seq<char>, reason: Seq<char>, timestamp: Seq<char>) -> Result<
        (TaskStoreView, ()),
        StoreErrorView,
    > {
        match self.active(id, BLOCKED_STATE@) {
            Err(e) => Err(e),
            Ok(i) => {
                let t = TaskView {
                    blocked_at_phase: Some(self.tasks[i].state),
                    blocked_reason: Some(reason),
                    ..self.tasks[i].moved(BLOCKED_STATE@, timestamp, reason)
                };
                Ok((self.with_task(i, t), ()))
            },
        }
    }

    /// Unblocking a task: it goes back to the phase it was blocked in.
    pub open spec fn unblock(self, id: Seq<char>, timestamp: Seq<char>) -> Result<
        (TaskStoreView, ()),
        StoreErrorView,
    > {
        match task_index(self.tasks, id) {
            None => Err(StoreErrorView::NotFound),
            Some(i) => {
                let t = self.tasks[i];
                if t.state != BLOCKED_STATE@ {
                    Err(StoreErrorView::NotBlocked)
                } else {
                    match t.blocked_at_phase {
                        None => Err(
                            StoreErrorView::InvalidTransition {
                                from: BLOCKED_STATE@,
                                to: Seq::empty(),
                            },
                        ),
                        Some(to) => {
                            let u = TaskView {
                                state: to,
                                blocked_at_phase: None,
                                blocked_reason: None,
                                history: t.history.push(
                                    HistoryEntryView {
                                        from: Some(BLOCKED_STATE@),
                                        to,
                                        timestamp,
                                        reason: "unblocked"@,
                                    },
                                ),
                                ..t
                            };
                            Ok((self.with_task(i, u), ()))
                        },
                    }
                }
            },
        }
    }

    /// Closing a task that was given up: it counts as done.
    pub open spec fn close(
        self,
        id: Seq<char>,
        reason: Seq<char>,
        terminal: Seq<char>,
        timestamp: Seq<char>,
    ) -> Result<(TaskStoreView, ()), StoreErrorView> {
        match task_index(self.tasks, id) {
            None => Err(StoreErrorView::NotFound),
            Some(i) => if self.tasks[i].state != FAILED_STATE@ {
                Err(StoreErrorView::NotFailed { id })
            } else {
                Ok(
                    (
                        self.with_task(
                            i,
                            self.tasks[i].moved(terminal, timestamp, "closed: "@ + reason),
                        ),
                        (),
                    ),
                )
            },
        }
    }

    /// Changing what a task says; a task that is done or given up stays as it is.
    pub open spec fn update(
        self,
        id: Seq<char>,
        title: Option<Seq<char>>,
        description: Option<Seq<char>>,
        depends_on: Option<Seq<Seq<char>>>,
        acceptance_criteria: Option<Option<Seq<char>>>,
    ) -> Result<(TaskStoreView, ()), StoreErrorView> {
        match task_index(self.tasks, id) {
            None => Err(StoreErrorView::NotFound),
            Some(i) => {
                let t = self.tasks[i];
                let steps = self.config.sequence(t.workflow);
                if steps.len() == 0 {
                    Err(StoreErrorView::UnknownWorkflow { workflow: t.workflow })
                } else if t.state == steps.last() || t.state == FAILED_STATE@ {
                    Err(StoreErrorView::CannotUpdateTerminal { id, state: t.state })
                } else if depends_on is Some && missing_dependency(self.tasks, depends_on->0, 0) is Some {
                    Err(
                        StoreErrorView::DependencyBlocked {
                            task_id: id,
                            blocking_id: missing_dependency(self.tasks, depends_on->0, 0)->0,
                        },
                    )
                } else {
                    let u = TaskView {
                        title: match title {
                            Some(x) => x,
                            None => t.title,
                        },
                        description: match description {
                            Some(x) => x,
                            None => t.description,
                        },
                        dependencies: match depends_on {
                            Some(x) => x,
                            None => t.dependencies,
                        },
                        acceptance_criteria: match acceptance_criteria {
                            Some(x) => x,
                            None => t.acceptance_criteria,
                        },
                        ..t
                    };
                    Ok((self.with_task(i, u), ()))
                }
            },
        }
    }

    /// Removing a task: only one that was not started and that no other task depends on.
    pub open spec fn remove(self, id: Seq<char>) -> Result<(TaskStoreView, ()), StoreErrorView> {
        match task_index(self.tasks, id) {
            None => Err(StoreErrorView::NotFound),
            Some(i) => {
                let t = self.tasks[i];
                let steps = self.config.sequence(t.workflow);
                if steps.len() == 0 {
                    Err(StoreErrorView::UnknownWorkflow { workflow: t.workflow })
                } else if t.state != steps[0] {
                    Err(StoreErrorView::NotInPendingPhase { id })
                } else {
                    match first_where(self.tasks, depends_on_id(id)) {
                        Some(d) => Err(
                            StoreErrorView::DependedOnBy { id, dependent_id: self.tasks[d].id },
                        ),
                        None => Ok(
                            (TaskStoreView { tasks: keep(self.tasks, id_is_not(id)), ..self }, ()),
                        ),
                    }
                }
            },
        }
    }

    /// Trying a task again: the first time from the phase before the present one, later from the
    /// first phase after the initial one.
    pub open spec fn retry(self, id: Seq<char>, reason: Seq<char>, timestamp: Seq<char>) -> Result<
        (TaskStoreView, (u32, u32)),
        StoreErrorView,
    > {
        match task_index(self.tasks, id) {
            None => Err(StoreErrorView::NotFound),
            Some(i) => {
                let t = self.tasks[i];
                let steps = self.config.sequence(t.workflow);
                if steps.len() == 0 {
                    Err(StoreErrorView::UnknownWorkflow { workflow: t.workflow })
                } else if t.state == FAILED_STATE@ || t.state == steps.last() {
                    Err(StoreErrorView::AlreadyTerminal)
                } else {
                    match position(steps, t.state) {
                        None => Err(
                            StoreErrorView::InvalidTransition { from: t.state, to: steps[0] },
                        ),
                        Some(k) => {
                            let count = (t.retry_count + 1) as u32;
                            let target = if count == 1 && k >= 2 {
                                k - 1
                            } else {
                                1
                            };
                            let u = TaskView {
                                retry_count: count,
                                ..t.moved(
                                    steps[target],
                                    timestamp,
                                    retry_reason(count, t.max_retries, reason),
                                )
                            };
                            Ok((self.with_task(i, u), (count, t.max_retries)))
                        },
                    }
                }
            },
        }
    }

    /// Locking a task at a time, or unlocking it.
    pub open spec fn set_lock(self, id: Seq<char>, at: Option<Seq<char>>) -> Result<
        (TaskStoreView, ()),
        StoreErrorView,
    > {
        match task_index(self.tasks, id) {
            None => Err(StoreErrorView::NotFound),
            Some(i) => Ok(
                (self.with_task(i, TaskView { locked_at: at, ..self.tasks[i] }), ()),
            ),
        }
    }

    /// The task with an id can be tried again without its count running over.
    pub open spec fn retry_count_fits(self, id: Seq<char>) -> bool {
        find_task(self.tasks, id) matches Some(t) ==> t.retry_count < u32::MAX
    }
}

/// The tasks other than the one with an id.
pub open spec fn id_is_not(id: Seq<char>) -> spec_fn(TaskView) -> bool {
    |t: TaskView| t.id != id
}

/// The other tasks that depend on the one with an id.
pub open spec fn depends_on_id(id: Seq<char>) -> spec_fn(TaskView) -> bool {
    |t: TaskView| t.id != id && t.dependencies.contains(id)
}

/// The reason recorded for a retry.
pub open spec fn retry_reason(count: u32, max_retries: u32, reason: Seq<char>) -> Seq<char> {
    "retry "@ + decimal(count as nat) + "/"@ + decimal(max_retries as nat) + ": "@ + reason
}

impl TaskStore {
    /// The store of a project's tasks under its configuration.
    pub fn new(state_dir: &str, read: TasksRead, config: &Config) -> (r: Result<TaskStore, StoreError>)
        ensures
            outcome(r) == opened(state_dir@, read@, config@),
    {
        let tasks_path = join_path(state_dir, "tasks.json");
        match read {
            TasksRead::Missing => {
                let tasks: Vec<Task> = Vec::new();
                assert(tasks.deep_view() =~= Seq::<TaskView>::empty());
                Ok(
                    TaskStore {
                        tasks_path,
                        tasks_file: TasksFile { tasks },
                        config: config.duplicate(),
                        max_retries: config.max_retries,
                        migrated: false,
                    },
                )
            },
            TasksRead::Unreadable { message } => Err(
                StoreError::Io { path: tasks_path, message },
            ),
            TasksRead::Malformed { message } => Err(StoreError::Deserialize { message }),
            TasksRead::Parsed { tasks } => {
                let ghost wires = tasks.deep_view();
                let ghost all = wires.map_values(|t: TaskWireView| t.current(config@));
                let mut migrated: bool = false;
                let mut current: Vec<Task> = Vec::new();
                let mut i: usize = 0;
                while i < tasks.len()
                    invariant
                        i <= tasks.len(),
                        wires == tasks.deep_view(),
                        all == wires.map_values(|t: TaskWireView| t.current(config@)),
                        current.deep_view() == all.take(i as int),
                        migrated == exists|j: int| 0 <= j < i && (#[trigger] wires[j]).outdated(),
                    decreases tasks.len() - i,
                {
                    assert(wires[i as int] == tasks@[i as int]@);
                    if tasks[i].needs_migration() {
                        assert(wires[i as int].outdated());
                        migrated = true;
                    }
                    let ghost before = current.deep_view();
                    let task = tasks[i].duplicate().into_task(config);
                    current.push(task);
                    assert(current.deep_view() =~= before.push(all[i as int]));
                    assert(all.take(i + 1) =~= all.take(i as int).push(all[i as int]));
                    i = i + 1;
                }
                assert(all.take(i as int) =~= all);
                Ok(
                    TaskStore {
                        tasks_path,
                        tasks_file: TasksFile { tasks: current },
                        config: config.duplicate(),
                        max_retries: config.max_retries,
                        migrated,
                    },
                )
            },
        }
    }

    /// Whether some task was read in an older form, so that the file is out of date.
    pub fn migrated(&self) -> (r: bool)
        ensures
            r == self@.migrated,
    {
        self.migrated
    }

    /// Where the tasks are kept.
    pub fn tasks_path(&self) -> (r: &str)
        ensures
            r@ == self@.tasks_path,
    {
        self.tasks_path.as_str()
    }

    /// Takes other tasks in place of the present ones.
    pub fn save(&mut self, tasks_file: TasksFile)
        ensures
            final(self)@ == (TaskStoreView { tasks: tasks_file@.tasks, ..old(self)@ }),
    {
        self.tasks_file = tasks_file;
    }

    pub(crate) fn replace_task(&mut self, i: usize, task: Task)
        requires
            i < old(self)@.tasks.len(),
        ensures
            final(self)@ == old(self)@.with_task(i as int, task@),
    {
        let mut tasks = self.tasks_file.tasks.duplicate();
        let ghost before = tasks.deep_view();
        tasks[i] = task;
        assert(tasks.deep_view() =~= before.update(i as int, task@));
        self.save(TasksFile { tasks });
    }

    /// The first task with an id.
    pub fn get_task(&self, id: &str) -> (r: Option<&Task>)
        ensures
            r.deep_view() == find_task(self@.tasks, id@),
    {
        match index_of_task(self.tasks_file.tasks.as_slice(), id) {
            Some(i) => Some(&self.tasks_file.tasks[i]),
            None => None,
        }
    }

    /// The tasks.
    pub fn all_tasks(&self) -> (r: &[Task])
        ensures
            r.deep_view() == self@.tasks,
    {
        let r = self.tasks_file.tasks.as_slice();
        assert(r.deep_view() =~= self.tasks_file.tasks.deep_view());
        r
    }

    pub(crate) fn task_index(&self, id: &str) -> (r: Result<usize, StoreError>)
        ensures
            match r {
                Ok(i) => task_index(self@.tasks, id@) == Some(i as int) && i < self@.tasks.len(),
                Err(e) => e@ == StoreErrorView::NotFound && task_index(self@.tasks, id@) is None,
            },
    {
        match index_of_task(self.all_tasks(), id) {
            Some(i) => Ok(i),
            None => Err(StoreError::NotFound),
        }
    }

    fn sequence_for_workflow(&self, workflow: &str) -> (r: Result<Vec<String>, StoreError>)
        ensures
            match r {
                Ok(s) => s.deep_view() == self@.config.sequence(workflow@) && s.deep_view().len() > 0,
                Err(e) => self@.config.sequence(workflow@).len() == 0 && e@
                    == (StoreErrorView::UnknownWorkflow { workflow: workflow@ }),
            },
    {
        let steps = self.config.sequence(workflow);
        if steps.len() == 0 {
            return Err(StoreError::UnknownWorkflow { workflow: workflow.to_owned() });
        }
        Ok(crate::duplicate::copy_slice(steps))
    }

    pub(crate) fn sequence_for(&self, task: &Task) -> (r: Result<Vec<String>, StoreError>)
        ensures
            match r {
                Ok(s) => s.deep_view() == self@.config.sequence(task@.workflow)
                    && s.deep_view().len() > 0,
                Err(e) => self@.config.sequence(task@.workflow).len() == 0 && e@
                    == (StoreErrorView::UnknownWorkflow { workflow: task@.workflow }),
            },
    {
        self.sequence_for_workflow(task.workflow.as_str())
    }

    fn terminal_for(&self, task: &Task) -> (r: Result<String, StoreError>)
        ensures
            match r {
                Ok(s) => self@.config.sequence(task@.workflow).len() > 0 && s@
                    == self@.config.sequence(task@.workflow).last(),
                Err(e) => self@.config.sequence(task@.workflow).len() == 0 && e@
                    == (StoreErrorView::UnknownWorkflow { workflow: task@.workflow }),
            },
    {
        match self.sequence_for(task) {
            Err(e) => Err(e),
            Ok(steps) => {
                let n: usize = steps.len() - 1;
                assert(steps.deep_view().last() == steps@[n as int]@);
                Ok(steps[n].clone())
            },
        }
    }

    fn missing_dependency(&self, deps: &Vec<String>) -> (r: Option<String>)
        ensures
            r.deep_view() == missing_dependency(self@.tasks, deps.deep_view(), 0),
    {
        let mut j: usize = 0;
        while j < deps.len()
            invariant
                j <= deps.len(),
                missing_dependency(self@.tasks, deps.deep_view(), 0) == missing_dependency(
                    self@.tasks,
                    deps.deep_view(),
                    j as int,
                ),
            decreases deps.len() - j,
        {
            assert(deps.deep_view()[j as int] == deps@[j as int]@);
            if self.get_task(deps[j].as_str()).is_none() {
                return Some(deps[j].clone());
            }
            j = j + 1;
        }
        None
    }

    /// Adds a task at a given time.
    pub fn add_task_at(
        &mut self,
        title: &str,
        description: &str,
        dependencies: Vec<String>,
        phase_override: Option<&str>,
        workflow: String,
        timestamp: &str,
    ) -> (r: Result<Task, StoreError>)
        requires
            largest_number(old(self)@.tasks) < usize::MAX,
        ensures
            stepped(
                old(self)@,
                final(self)@,
                outcome(r),
                old(self)@.add(
                    title@,
                    description@,
                    dependencies.deep_view(),
                    phase_override.deep_view(),
                    workflow@,
                    timestamp@,
                ),
            ),
    {
        let sequence: Vec<String> = match self.sequence_for_workflow(workflow.as_str()) {
            Ok(s) => s,
            Err(e) => {
                return Err(e);
            },
        };
        let next: u64 = largest_task_number(self.all_tasks()) as u64 + 1;
        let mut id = "task-".to_owned();
        id.push_str(decimal_padded_str(next, 3).as_str());
        match self.missing_dependency(&dependencies) {
            Some(blocking_id) => {
                return Err(StoreError::DependencyBlocked { task_id: id, blocking_id });
            },
            None => {},
        }
        let start: String = match phase_override {
            Some(phase) => {
                proof {
                    lemma_position(sequence.deep_view(), phase@);
                }
                if position_of(sequence.as_slice(), phase).is_none() {
                    return Err(StoreError::UnknownPhase { phase: phase.to_owned() });
                }
                phase.to_owned()
            },
            None => {
                assert(sequence.deep_view()[0] == sequence@[0]@);
                sequence[0].clone()
            },
        };
        let entry = HistoryEntry {
            from: None,
            to: start.clone(),
            timestamp: timestamp.to_owned(),
            reason: "task created".to_owned(),
        };
        let ghost entry_view = entry@;
        let mut history: Vec<HistoryEntry> = Vec::new();
        history.push(entry);
        assert(history.deep_view() =~= seq![entry_view]);
        let clarifications: Vec<Clarification> = Vec::new();
        assert(clarifications.deep_view() =~= Seq::<ClarificationView>::empty());
        let task = Task {
            id,
            title: title.to_owned(),
            description: description.to_owned(),
            state: start,
            blocked_at_phase: None,
            blocked_reason: None,
            clarifications,
            dependencies,
            retry_count: 0,
            max_retries: self.max_retries,
            phases: StringMap::new(),
            history,
            created_at: timestamp.to_owned(),
            workflow,
            locked_at: None,
            acceptance_criteria: None,
        };
        let mut tasks = self.tasks_file.tasks.duplicate();
        let ghost before = tasks.deep_view();
        tasks.push(task.duplicate());
        assert(tasks.deep_view() =~= before.push(task@));
        self.save(TasksFile { tasks });
        Ok(task)
    }

    /// Adds a task.
    pub fn add_task(
        &mut self,
        title: &str,
        description: &str,
        dependencies: Vec<String>,
        phase_override: Option<&str>,
        workflow: String,
    ) -> (r: Result<Task, StoreError>)
        requires
            largest_number(old(self)@.tasks) < usize::MAX,
        ensures
            exists|now: Instant|
                now.on_calendar() && stepped(
                    old(self)@,
                    final(self)@,
                    outcome(r),
                    old(self)@.add(
                        title@,
                        description@,
                        dependencies.deep_view(),
                        phase_override.deep_view(),
                        workflow@,
                        #[trigger] rfc3339_text(now),
                    ),
                ),
    {
        let timestamp = Instant::now().text();
        let ghost added = self@.add(
            title@,
            description@,
            dependencies.deep_view(),
            phase_override.deep_view(),
            workflow@,
            timestamp@,
        );
        self.add_task_at(title, description, dependencies, phase_override, workflow, timestamp.as_str())
    }

    /// Records what came out of the present phase of a task, and gives the name of the phase.
    pub fn record_phase_artifact(&mut self, id: &str, artifact: &str, completed_at: String) -> (r:
        Result<String, StoreError>)
        ensures
            stepped(
                old(self)@,
                final(self)@,
                outcome(r),
                old(self)@.record(
                    id@,
                    TaskPhaseView { artifact: artifact@, completed_at: completed_at@ },
                ),
            ),
    {
        match self.task_index(id) {
            Err(e) => Err(e),
            Ok(i) => {
                let mut task = self.tasks_file.tasks[i].duplicate();
                let phase = task.state.clone();
                task.phases.insert(
                    phase.clone(),
                    TaskPhase { artifact: artifact.to_owned(), completed_at },
                );
                self.replace_task(i, task);
                Ok(phase)
            },
        }
    }

    fn open_dependency(&self, id: &str, deps: &Vec<String>) -> (r: Option<StoreError>)
        ensures
            r.deep_view() == open_dependency(self@, id@, deps.deep_view(), 0),
    {
        let mut j: usize = 0;
        while j < deps.len()
            invariant
                j <= deps.len(),
                open_dependency(self@, id@, deps.deep_view(), 0) == open_dependency(
                    self@,
                    id@,
                    deps.deep_view(),
                    j as int,
                ),
            decreases deps.len() - j,
        {
            assert(deps.deep_view()[j as int] == deps@[j as int]@);
            match self.get_task(deps[j].as_str()) {
                None => {
                    return Some(
                        StoreError::DependencyBlocked {
                            task_id: id.to_owned(),
                            blocking_id: deps[j].clone(),
                        },
                    );
                },
                Some(dependency) => {
                    match self.terminal_for(dependency) {
                        Err(e) => {
                            return Some(e);
                        },
                        Ok(terminal) => {
                            if !str_eq(dependency.state.as_str(), terminal.as_str()) {
                                return Some(
                                    StoreError::DependencyBlocked {
                                        task_id: id.to_owned(),
                                        blocking_id: deps[j].clone(),
                                    },
                                );
                            }
                        },
                    }
                },
            }
            j = j + 1;
        }
        None
    }

    fn next_step(&self, id: &str) -> (r: Result<(usize, String), StoreError>)
        ensures
            match r {
                Ok((i, to)) => self@.next_step(id@) == Ok::<(int, Seq<char>), StoreErrorView>(
                    (i as int, to@),
                ) && i < self@.tasks.len(),
                Err(e) => self@.next_step(id@) == Err::<(int, Seq<char>), StoreErrorView>(e@),
            },
    {
        let i: usize = match self.task_index(id) {
            Ok(i) => i,
            Err(e) => {
                return Err(e);
            },
        };
        let task = &self.tasks_file.tasks[i];
        let steps: Vec<String> = match self.sequence_for(task) {
            Ok(s) => s,
            Err(e) => {
                return Err(e);
            },
        };
        let n: usize = steps.len();
        assert(steps.deep_view().last() == steps@[n - 1]@);
        if str_eq(task.state.as_str(), FAILED_STATE) || str_eq(
            task.state.as_str(),
            steps[n - 1].as_str(),
        ) {
            return Err(StoreError::AlreadyTerminal);
        }
        let k: usize = match position_of(steps.as_slice(), task.state.as_str()) {
            Some(k) => k,
            None => {
                let to = String::new();
                return Err(StoreError::InvalidTransition { from: task.state.clone(), to });
            },
        };
        assert(k < n - 1) by {
            if k == n - 1 {
                assert(steps.deep_view()[k as int] == steps.deep_view().last());
            }
        }
        match self.open_dependency(id, &task.dependencies) {
            Some(e) => Err(e),
            None => {
                assert(steps.deep_view()[k + 1] == steps@[k + 1]@);
                Ok((i, steps[k + 1].clone()))
            },
        }
    }

    /// Advances a task to its next phase at a given time.
    pub fn next_phase_at(&mut self, id: &str, timestamp: &str) -> (r: Result<(), StoreError>)
        ensures
            stepped(old(self)@, final(self)@, outcome(r), old(self)@.advance(id@, timestamp@)),
    {
        match self.next_step(id) {
            Err(e) => Err(e),
            Ok((i, to)) => {
                let task = moved(
                    self.tasks_file.tasks[i].duplicate(),
                    to.as_str(),
                    timestamp,
                    "advanced to next phase",
                );
                self.replace_task(i, task);
                Ok(())
            },
        }
    }

    /// Advances a task to its next phase.
    pub fn next_phase(&mut self, id: &str) -> (r: Result<(), StoreError>)
        ensures
            exists|now: Instant|
                now.on_calendar() && stepped(
                    old(self)@,
                    final(self)@,
                    outcome(r),
                    old(self)@.advance(id@, #[trigger] rfc3339_text(now)),
                ),
    {
        let timestamp = Instant::now().text();
        self.next_phase_at(id, timestamp.as_str())
    }

    /// Records what came out of the present phase of a task, advances the task at a given time,
    /// and gives the name of the phase that was completed.
    pub fn advance_with_artifact_at(
        &mut self,
        id: &str,
        artifact: &str,
        completed_at: String,
        timestamp: &str,
    ) -> (r: Result<String, StoreError>)
        ensures
            stepped(
                old(self)@,
                final(self)@,
                outcome(r),
                old(self)@.complete(
                    id@,
                    TaskPhaseView { artifact: artifact@, completed_at: completed_at@ },
                    timestamp@,
                ),
            ),
    {
        match self.next_step(id) {
            Err(e) => Err(e),
            Ok((i, to)) => {
                let mut task = self.tasks_file.tasks[i].duplicate();
                let from = task.state.clone();
                task.phases.insert(
                    from.clone(),
                    TaskPhase { artifact: artifact.to_owned(), completed_at },
                );
                let task = moved(task, to.as_str(), timestamp, "advanced to next phase");
                self.replace_task(i, task);
                Ok(from)
            },
        }
    }

    /// Records what came out of the present phase of a task, advances the task, and gives the
    /// name of the phase that was completed.
    pub fn advance_with_artifact(&mut self, id: &str, artifact: &str, completed_at: String) -> (r:
        Result<String, StoreError>)
        ensures
            exists|now: Instant|
                now.on_calendar() && stepped(
                    old(self)@,
                    final(self)@,
                    outcome(r),
                    old(self)@.complete(
                        id@,
                        TaskPhaseView { artifact: artifact@, completed_at: completed_at@ },
                        #[trigger] rfc3339_text(now),
                    ),
                ),
    {
        let timestamp = Instant::now().text();
        self.advance_with_artifact_at(id, artifact, completed_at, timestamp.as_str())
    }

    fn active(&self, id: &str, to: &str) -> (r: Result<usize, StoreError>)
        ensures
            match r {
                Ok(i) => self@.active(id@, to@) == Ok::<int, StoreErrorView>(i as int) && i
                    < self@.tasks.len(),
                Err(e) => self@.active(id@, to@) == Err::<int, StoreErrorView>(e@),
            },
    {
        let i: usize = match self.task_index(id) {
            Ok(i) => i,
            Err(e) => {
                return Err(e);
            },
        };
        let task = &self.tasks_file.tasks[i];
        let steps: Vec<String> = match self.sequence_for(task) {
            Ok(s) => s,
            Err(e) => {
                return Err(e);
            },
        };
        let n: usize = steps.len();
        assert(steps.deep_view().last() == steps@[n - 1]@);
        if str_eq(to, BLOCKED_STATE) && str_eq(task.state.as_str(), BLOCKED_STATE) {
            return Err(StoreError::AlreadyBlocked);
        }
        if str_eq(task.state.as_str(), FAILED_STATE) || str_eq(
            task.state.as_str(),
            steps[n - 1].as_str(),
        ) {
            return Err(StoreError::AlreadyTerminal);
        }
        if position_of(steps.as_slice(), task.state.as_str()).is_none() {
            return Err(
                StoreError::InvalidTransition { from: task.state.clone(), to: to.to_owned() },
            );
        }
        Ok(i)
    }

    /// Gives a task up at a given time.
    pub fn fail_task_at(&mut self, id: &str, reason: &str, timestamp: &str) -> (r: Result<
        (),
        StoreError,
    >)
        ensures
            stepped(
                old(self)@,
                final(self)@,
                outcome(r),
                old(self)@.fail(id@, reason@, timestamp@),
            ),
    {
        match self.active(id, FAILED_STATE) {
            Err(e) => Err(e),
            Ok(i) => {
                let task = moved(
                    self.tasks_file.tasks[i].duplicate(),
                    FAILED_STATE,
                    timestamp,
                    reason,
                );
                self.replace_task(i, task);
                Ok(())
            },
        }
    }

    /// Gives a task up.
    pub fn fail_task(&mut self, id: &str, reason: &str) -> (r: Result<(), StoreError>)
        ensures
            exists|now: Instant|
                now.on_calendar() && stepped(
                    old(self)@,
                    final(self)@,
                    outcome(r),
                    old(self)@.fail(id@, reason@, #[trigger] rfc3339_text(now)),
                ),
    {
        let timestamp = Instant::now().text();
        self.fail_task_at(id, reason, timestamp.as_str())
    }

    /// Blocks a task at a given time.
    pub fn block_task_at(&mut self, id: &str, reason: &str, timestamp: &str) -> (r: Result<
        (),
        StoreError,
    >)
        ensures
            stepped(
                old(self)@,
                final(self)@,
                outcome(r),
                old(self)@.block(id@, reason@, timestamp@),
            ),
    {
        match self.active(id, BLOCKED_STATE) {
            Err(e) => Err(e),
            Ok(i) => {
                let before = self.tasks_file.tasks[i].duplicate();
                let phase = before.state.clone();
                let mut task = moved(before, BLOCKED_STATE, timestamp, reason);
                task.blocked_at_phase = Some(phase);
                task.blocked_reason = Some(reason.to_owned());
                self.replace_task(i, task);
                Ok(())
            },
        }
    }

    /// Blocks a task.
    pub fn block_task(&mut self, id: &str, reason: &str) -> (r: Result<(), StoreError>)
        ensures
            exists|now: Instant|
                now.on_calendar() && stepped(
                    old(self)@,
                    final(self)@,
                    outcome(r),
                    old(self)@.block(id@, reason@, #[trigger] rfc3339_text(now)),
                ),
    {
        let timestamp = Instant::now().text();
        self.block_task_at(id, reason, timestamp.as_str())
    }

    /// Unblocks a task at a given time.
    pub fn unblock_task_at(&mut self, id: &str, timestamp: &str) -> (r: Result<(), StoreError>)
        ensures
            stepped(old(self)@, final(self)@, outcome(r), old(self)@.unblock(id@, timestamp@)),
    {
        let i: usize = match self.task_index(id) {
            Ok(i) => i,
            Err(e) => {
                return Err(e);
            },
        };
        if !str_eq(self.tasks_file.tasks[i].state.as_str(), BLOCKED_STATE) {
            return Err(StoreError::NotBlocked);
        }
        let mut task = self.tasks_file.tasks[i].duplicate();
        match task.blocked_at_phase.duplicate() {
            None => {
                let to = String::new();
                Err(StoreError::InvalidTransition { from: BLOCKED_STATE.to_owned(), to })
            },
            Some(to) => {
                let entry = HistoryEntry {
                    from: Some(BLOCKED_STATE.to_owned()),
                    to: to.clone(),
                    timestamp: timestamp.to_owned(),
                    reason: "unblocked".to_owned(),
                };
                let ghost entry_view = entry@;
                let ghost before = task.history.deep_view();
                task.history.push(entry);
                assert(task.history.deep_view() =~= before.push(entry_view));
                task.state = to;
                task.blocked_at_phase = None;
                task.blocked_reason = None;
                self.replace_task(i, task);
                Ok(())
            },
        }
    }

    /// Unblocks a task.
    pub fn unblock_task(&mut self, id: &str) -> (r: Result<(), StoreError>)
        ensures
            exists|now: Instant|
                now.on_calendar() && stepped(
                    old(self)@,
                    final(self)@,
                    outcome(r),
                    old(self)@.unblock(id@, #[trigger] rfc3339_text(now)),
                ),
    {
        let timestamp = Instant::now().text();
        self.unblock_task_at(id, timestamp.as_str())
    }

    /// Closes a task that was given up, at a given time.
    pub fn close_task_at(&mut self, id: &str, reason: &str, terminal: &str, timestamp: &str) -> (r:
        Result<(), StoreError>)
        ensures
            stepped(
                old(self)@,
                final(self)@,
                outcome(r),
                old(self)@.close(id@, reason@, terminal@, timestamp@),
            ),
    {
        let i: usize = match self.task_index(id) {
            Ok(i) => i,
            Err(e) => {
                return Err(e);
            },
        };
        if !str_eq(self.tasks_file.tasks[i].state.as_str(), FAILED_STATE) {
            return Err(StoreError::NotFailed { id: id.to_owned() });
        }
        let mut text = "closed: ".to_owned();
        text.push_str(reason);
        let task = moved(
            self.tasks_file.tasks[i].duplicate(),
            terminal,
            timestamp,
            text.as_str(),
        );
        self.replace_task(i, task);
        Ok(())
    }

    /// Closes a task that was given up.
    pub fn close_task(&mut self, id: &str, reason: &str, terminal: &str) -> (r: Result<
        (),
        StoreError,
    >)
        ensures
            exists|now: Instant|
                now.on_calendar() && stepped(
                    old(self)@,
                    final(self)@,
                    outcome(r),
                    old(self)@.close(id@, reason@, terminal@, #[trigger] rfc3339_text(now)),
                ),
    {
        let timestamp = Instant::now().text();
        self.close_task_at(id, reason, terminal, timestamp.as_str())
    }

    /// Changes what a task says, its acceptance criteria included.
    pub fn update_task_with_ac(
        &mut self,
        id: &str,
        title: Option<&str>,
        description: Option<&str>,
        depends_on: Option<&Vec<String>>,
        acceptance_criteria: Option<Option<&str>>,
    ) -> (r: Result<(), StoreError>)
        ensures
            stepped(
                old(self)@,
                final(self)@,
                outcome(r),
                old(self)@.update(
                    id@,
                    title.deep_view(),
                    description.deep_view(),
                    depends_on.deep_view(),
                    acceptance_criteria.deep_view(),
                ),
            ),
    {
        let i: usize = match self.task_index(id) {
            Ok(i) => i,
            Err(e) => {
                return Err(e);
            },
        };
        let mut task = self.tasks_file.tasks[i].duplicate();
        match self.terminal_for(&task) {
            Err(e) => {
                return Err(e);
            },
            Ok(terminal) => {
                if str_eq(task.state.as_str(), terminal.as_str()) || str_eq(
                    task.state.as_str(),
                    FAILED_STATE,
                ) {
                    return Err(
                        StoreError::CannotUpdateTerminal { id: id.to_owned(), state: task.state },
                    );
                }
            },
        }
        match depends_on {
            Some(deps) => {
                match self.missing_dependency(deps) {
                    Some(blocking_id) => {
                        return Err(
                            StoreError::DependencyBlocked { task_id: id.to_owned(), blocking_id },
                        );
                    },
                    None => {},
                }
                task.dependencies = deps.duplicate();
            },
            None => {},
        }
        match title {
            Some(text) => {
                task.title = text.to_owned();
            },
            None => {},
        }
        match description {
            Some(text) => {
                task.description = text.to_owned();
            },
            None => {},
        }
        match acceptance_criteria {
            Some(Some(text)) => {
                task.acceptance_criteria = Some(text.to_owned());
            },
            Some(None) => {
                task.acceptance_criteria = None;
            },
            None => {},
        }
        self.replace_task(i, task);
        Ok(())
    }

    /// Changes what a task says.
    pub fn update_task(
        &mut self,
        id: &str,
        title: Option<&str>,
        description: Option<&str>,
        depends_on: Option<&Vec<String>>,
    ) -> (r: Result<(), StoreError>)
        ensures
            stepped(
                old(self)@,
                final(self)@,
                outcome(r),
                old(self)@.update(
                    id@,
                    title.deep_view(),
                    description.deep_view(),
                    depends_on.deep_view(),
                    None,
                ),
            ),
    {
        self.update_task_with_ac(id, title, description, depends_on, None)
    }

    /// Removes a task.
    pub fn remove_task(&mut self, id: &str) -> (r: Result<(), StoreError>)
        ensures
            stepped(old(self)@, final(self)@, outcome(r), old(self)@.remove(id@)),
    {
        let i: usize = match self.task_index(id) {
            Ok(i) => i,
            Err(e) => {
                return Err(e);
            },
        };
        let steps: Vec<String> = match self.sequence_for(&self.tasks_file.tasks[i]) {
            Ok(s) => s,
            Err(e) => {
                return Err(e);
            },
        };
        assert(steps.deep_view()[0] == steps@[0]@);
        if !str_eq(self.tasks_file.tasks[i].state.as_str(), steps[0].as_str()) {
            return Err(StoreError::NotInPendingPhase { id: id.to_owned() });
        }
        match first_dependent(self.all_tasks(), id) {
            Some(d) => {
                return Err(
                    StoreError::DependedOnBy {
                        id: id.to_owned(),
                        dependent_id: self.tasks_file.tasks[d].id.clone(),
                    },
                );
            },
            None => {},
        }
        let tasks = without_task(self.all_tasks(), id);
        self.save(TasksFile { tasks });
        Ok(())
    }

    /// Tries a task again at a given time, and gives the number of the retry and of all retries.
    pub fn retry_task_at(&mut self, id: &str, reason: &str, timestamp: &str) -> (r: Result<
        (u32, u32),
        StoreError,
    >)
        requires
            old(self)@.retry_count_fits(id@),
        ensures
            stepped(
                old(self)@,
                final(self)@,
                outcome(r),
                old(self)@.retry(id@, reason@, timestamp@),
            ),
    {
        let i: usize = match self.task_index(id) {
            Ok(i) => i,
            Err(e) => {
                return Err(e);
            },
        };
        let before = self.tasks_file.tasks[i].duplicate();
        let steps: Vec<String> = match self.sequence_for(&before) {
            Ok(s) => s,
            Err(e) => {
                return Err(e);
            },
        };
        let n: usize = steps.len();
        assert(steps.deep_view().last() == steps@[n - 1]@);
        assert(steps.deep_view()[0] == steps@[0]@);
        if str_eq(before.state.as_str(), FAILED_STATE) || str_eq(
            before.state.as_str(),
            steps[n - 1].as_str(),
        ) {
            return Err(StoreError::AlreadyTerminal);
        }
        let k: usize = match position_of(steps.as_slice(), before.state.as_str()) {
            Some(k) => k,
            None => {
                return Err(
                    StoreError::InvalidTransition { from: before.state, to: steps[0].clone() },
                );
            },
        };
        assert(k < n - 1) by {
            if k == n - 1 {
                assert(steps.deep_view()[k as int] == steps.deep_view().last());
            }
        }
        let count: u32 = before.retry_count + 1;
        let max_retries: u32 = before.max_retries;
        let target: usize = if count == 1 && k >= 2 {
            k - 1
        } else {
            1
        };
        assert(steps.deep_view()[target as int] == steps@[target as int]@);
        let mut text = "retry ".to_owned();
        text.push_str(decimal_str(count as u64).as_str());
        text.push_str("/");
        text.push_str(decimal_str(max_retries as u64).as_str());
        text.push_str(": ");
        text.push_str(reason);
        let mut task = moved(before, steps[target].as_str(), timestamp, text.as_str());
        task.retry_count = count;
        self.replace_task(i, task);
        Ok((count, max_retries))
    }

    /// Tries a task again, and gives the number of the retry and of all retries.
    pub fn retry_task(&mut self, id: &str, reason: &str) -> (r: Result<(u32, u32), StoreError>)
        requires
            old(self)@.retry_count_fits(id@),
        ensures
            exists|now: Instant|
                now.on_calendar() && stepped(
                    old(self)@,
                    final(self)@,
                    outcome(r),
                    old(self)@.retry(id@, reason@, #[trigger] rfc3339_text(now)),
                ),
    {
        let timestamp = Instant::now().text();
        self.retry_task_at(id, reason, timestamp.as_str())
    }

    fn set_lock(&mut self, id: &str, at: Option<String>) -> (r: Result<(), StoreError>)
        ensures
            stepped(old(self)@, final(self)@, outcome(r), old(self)@.set_lock(id@, at.deep_view())),
    {
        let i: usize = match self.task_index(id) {
            Ok(i) => i,
            Err(e) => {
                return Err(e);
            },
        };
        let mut task = self.tasks_file.tasks[i].duplicate();
        task.locked_at = at;
        self.replace_task(i, task);
        Ok(())
    }

    /// Locks a task at a given time.
    pub fn lock_task_at(&mut self, id: &str, timestamp: &str) -> (r: Result<(), StoreError>)
        ensures
            stepped(
                old(self)@,
                final(self)@,
                outcome(r),
                old(self)@.set_lock(id@, Some(timestamp@)),
            ),
    {
        self.set_lock(id, Some(timestamp.to_owned()))
    }

    /// Locks a task. The time of the lock can be read back, but for a year of more than four digits.
    pub fn lock_task(&mut self, id: &str) -> (r: Result<(), StoreError>)
        ensures
            exists|now: Instant|
                now.on_calendar() && (now.plain() ==> rfc3339(rfc3339_text(now)) == Some(now))
                    && stepped(
                    old(self)@,
                    final(self)@,
                    outcome(r),
                    old(self)@.set_lock(id@, Some(#[trigger] rfc3339_text(now))),
                ),
    {
        let timestamp = Instant::now().text();
        self.lock_task_at(id, timestamp.as_str())
    }

    /// Unlocks a task.
    pub fn unlock_task(&mut self, id: &str) -> (r: Result<(), StoreError>)
        ensures
            stepped(old(self)@, final(self)@, outcome(r), old(self)@.set_lock(id@, None)),
    {
        self.set_lock(id, None)
    }
}

pub(crate) fn moved(task: Task, to: &str, timestamp: &str, reason: &str) -> (r: Task)
    ensures
        r@ == task@.moved(to@, timestamp@, reason@),
{
    let mut task = task;
    let entry = HistoryEntry {
        from: Some(task.state.clone()),
        to: to.to_owned(),
        timestamp: timestamp.to_owned(),
        reason: reason.to_owned(),
    };
    let ghost entry_view = entry@;
    let ghost before = task.history.deep_view();
    task.history.push(entry);
    assert(task.history.deep_view() =~= before.push(entry_view));
    task.state = to.to_owned();
    task.locked_at = None;
    task
}

/// The largest number in the id of a task; zero where there is none.
pub fn largest_task_number(tasks: &[Task]) -> (r: usize)
    ensures
        r == largest_number(tasks.deep_view()),
{
    let ghost all = tasks.deep_view();
    let mut largest: usize = 0;
    let mut i: usize = 0;
    assert(all.take(0) =~= Seq::<TaskView>::empty());
    while i < tasks.len()
        invariant
            i <= tasks.len(),
            all == tasks.deep_view(),
            largest == largest_number(all.take(i as int)),
        decreases tasks.len() - i,
    {
        assert(all.take(i + 1).drop_last() =~= all.take(i as int));
        assert(all.take(i + 1).last() == tasks@[i as int]@);
        match strip_prefix(tasks[i].id.as_str(), "task-") {
            Some(suffix) => {
                match parse_u64(suffix, usize::MAX as u64) {
                    Some(n) => {
                        if n as usize > largest {
                            largest = n as usize;
                        }
                    },
                    None => {},
                }
            },
            None => {},
        }
        i = i + 1;
    }
    assert(all.take(i as int) =~= all);
    largest
}

/// The position of the first other task that depends on the one with an id.
pub fn first_dependent(tasks: &[Task], id: &str) -> (r: Option<usize>)
    ensures
        match r {
            Some(i) => first_where(tasks.deep_view(), depends_on_id(id@)) == Some(i as int) && i
                < tasks.deep_view().len(),
            None => first_where(tasks.deep_view(), depends_on_id(id@)) is None,
        },
{
    let mut i: usize = 0;
    while i < tasks.len()
        invariant
            i <= tasks.len(),
            forall|j: int| 0 <= j < i ==> !depends_on_id(id@)(#[trigger] tasks.deep_view()[j]),
        decreases tasks.len() - i,
    {
        assert(tasks.deep_view()[i as int] == tasks@[i as int]@);
        if !str_eq(tasks[i].id.as_str(), id) && crate::engine::global_config::list_has(
            &tasks[i].dependencies,
            id,
        ) {
            proof {
                lemma_first_is(tasks.deep_view(), depends_on_id(id@), i as int);
            }
            return Some(i);
        }
        i = i + 1;
    }
    proof {
        lemma_first_none(tasks.deep_view(), depends_on_id(id@));
    }
    None
}

fn without_task(tasks: &[Task], id: &str) -> (r: Vec<Task>)
    ensures
        r.deep_view() == keep(tasks.deep_view(), id_is_not(id@)),
{
    let ghost all = tasks.deep_view();
    let mut out: Vec<Task> = Vec::new();
    let mut i: usize = 0;
    assert(all.take(0) =~= Seq::<TaskView>::empty());
    assert(out.deep_view() =~= keep(all.take(0), id_is_not(id@)));
    while i < tasks.len()
        invariant
            i <= tasks.len(),
            all == tasks.deep_view(),
            out.deep_view() == keep(all.take(i as int), id_is_not(id@)),
        decreases tasks.len() - i,
    {
        assert(all.take(i + 1).drop_last() =~= all.take(i as int));
        assert(all.take(i + 1).last() == tasks@[i as int]@);
        let ghost before = out.deep_view();
        if !str_eq(tasks[i].id.as_str(), id) {
            out.push(tasks[i].duplicate());
            assert(out.deep_view() =~= before.push(tasks@[i as int]@));
        }
        i = i + 1;
    }
    assert(all.take(i as int) =~= all);
    out
}

} // verus!
