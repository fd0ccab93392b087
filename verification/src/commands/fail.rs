//! Recording that work on a task failed.

use vstd::prelude::*;

use crate::commands::report::{
    check_reason, context_of, hook_run, left_by, on_open, on_save, open_project, opening, quiet,
    reason_given, run_for, task_context, HookRun, HookRunView, OpenError, OpenErrorView,
    ProjectFiles, ProjectFilesView, ReasonGiven, ReasonGivenView, Report, ReportView,
};
use crate::commands::todo::finished_all;
use crate::duplicate::{copy_slice, outcome, Duplicate};
use crate::engine::config::{ConfigError, ConfigErrorView, ConfigRead};
use crate::engine::global_config::list_has;
use crate::engine::hooks::ALL_TASKS_DONE_EVENT;
use crate::engine::pick::{at_rest, is_non_actionable_state};
use crate::engine::project::{Project, ProjectView};
use crate::engine::task_laws::{
    law_change_touches_one_task, law_changed_task_is_found, unique_ids, Change,
};
use crate::engine::tasks::{
    all_tasks_done, find_task, lemma_task_index, task_index, FAILED_STATE, StoreError,
    StoreErrorView, Task, TaskStore, TaskStoreView, TaskView,
};
use crate::text::{decimal, decimal_str, follow, str_eq};
use crate::time::{rfc3339_text, Instant};

verus! {

/// Why a failure could not be recorded.
#[derive(Debug, PartialEq, Eq)]
pub enum FailError {
    MissingReason,
    EmptyReason,
    TaskNotFound { id: String },
    AlreadyFailed { id: String },
    AlreadyTerminal { id: String, state: String },
    ConfigNotFound { path: String },
    ConfigRead { path: String, message: String },
    ConfigLoad { path: String, message: String },
    InvalidConfig { path: String, reason: String },
    StoreError(StoreError),
}

/// The contents of a `FailError`.
#[verifier::ext_equal]
pub enum FailErrorView {
    MissingReason,
    EmptyReason,
    TaskNotFound { id: Seq<char> },
    AlreadyFailed { id: Seq<char> },
    AlreadyTerminal { id: Seq<char>, state: Seq<char> },
    ConfigNotFound { path: Seq<char> },
    ConfigRead { path: Seq<char>, message: Seq<char> },
    ConfigLoad { path: Seq<char>, message: Seq<char> },
    InvalidConfig { path: Seq<char>, reason: Seq<char> },
    StoreError(StoreErrorView),
}

impl View for FailError {
    type V = FailErrorView;

    open spec fn view(&self) -> FailErrorView {
        match self {
            FailError::MissingReason => FailErrorView::MissingReason,
            FailError::EmptyReason => FailErrorView::EmptyReason,
            FailError::TaskNotFound { id } => FailErrorView::TaskNotFound { id: id@ },
            FailError::AlreadyFailed { id } => FailErrorView::AlreadyFailed { id: id@ },
            FailError::AlreadyTerminal { id, state } => FailErrorView::AlreadyTerminal { id: id@, state: state@ },
            FailError::ConfigNotFound { path } => FailErrorView::ConfigNotFound { path: path@ },
            FailError::ConfigRead { path, message } => FailErrorView::ConfigRead { path: path@, message: message@ },
            FailError::ConfigLoad { path, message } => FailErrorView::ConfigLoad { path: path@, message: message@ },
            FailError::InvalidConfig { path, reason } => FailErrorView::InvalidConfig { path: path@, reason: reason@ },
            FailError::StoreError(inner) => FailErrorView::StoreError(inner@),
        }
    }
}

impl DeepView for FailError {
    type V = FailErrorView;

    open spec fn deep_view(&self) -> FailErrorView {
        self@
    }
}

impl Duplicate for FailError {
    fn duplicate(&self) -> (r: Self) {
        match self {
            FailError::MissingReason => FailError::MissingReason,
            FailError::EmptyReason => FailError::EmptyReason,
            FailError::TaskNotFound { id } => FailError::TaskNotFound { id: id.duplicate() },
            FailError::AlreadyFailed { id } => FailError::AlreadyFailed { id: id.duplicate() },
            FailError::AlreadyTerminal { id, state } => FailError::AlreadyTerminal { id: id.duplicate(), state: state.duplicate() },
            FailError::ConfigNotFound { path } => FailError::ConfigNotFound { path: path.duplicate() },
            FailError::ConfigRead { path, message } => FailError::ConfigRead { path: path.duplicate(), message: message.duplicate() },
            FailError::ConfigLoad { path, message } => FailError::ConfigLoad { path: path.duplicate(), message: message.duplicate() },
            FailError::InvalidConfig { path, reason } => FailError::InvalidConfig { path: path.duplicate(), reason: reason.duplicate() },
            FailError::StoreError(inner) => FailError::StoreError(inner.duplicate()),
        }
    }
}

impl Clone for FailError {
    fn clone(&self) -> (r: Self)
        ensures
            r@ == self@,
    {
        self.duplicate()
    }
}

impl FailErrorView {
    /// The text shown for the error.
    pub open spec fn message(self) -> Seq<char> {
        match self {
            FailErrorView::MissingReason => "--reason is required"@,
            FailErrorView::EmptyReason => "reason must not be empty"@,
            FailErrorView::TaskNotFound { id } => "task "@ + id + " not found"@,
            FailErrorView::AlreadyFailed { id } => "task "@ + id + " is already failed"@,
            FailErrorView::AlreadyTerminal { id, state } => "task "@ + id + " is already "@ + state,
            FailErrorView::ConfigNotFound { path } => "config file not found: "@ + path,
            FailErrorView::ConfigRead { path, .. } => "failed to read "@ + path,
            FailErrorView::ConfigLoad { path, message } => "failed to load config "@ + path + ": "@ + message,
            FailErrorView::InvalidConfig { path, reason } => "invalid config "@ + path + ": "@ + reason,
            FailErrorView::StoreError(inner) => inner.message(),
        }
    }
}

impl FailError {
    /// The text shown for the error.
    pub fn message(&self) -> (r: String)
        ensures
            r@ == self@.message(),
    {
        match self {
            FailError::MissingReason => "--reason is required".to_owned(),
            FailError::EmptyReason => "reason must not be empty".to_owned(),
            FailError::TaskNotFound { id } => {
                let mut out = "task ".to_owned();
                out.push_str(id.as_str());
                out.push_str(" not found");
                out
            },
            FailError::AlreadyFailed { id } => {
                let mut out = "task ".to_owned();
                out.push_str(id.as_str());
                out.push_str(" is already failed");
                out
            },
            FailError::AlreadyTerminal { id, state } => {
                let mut out = "task ".to_owned();
                out.push_str(id.as_str());
                out.push_str(" is already ");
                out.push_str(state.as_str());
                out
            },
            FailError::ConfigNotFound { path } => {
                let mut out = "config file not found: ".to_owned();
                out.push_str(path.as_str());
                out
            },
            FailError::ConfigRead { path, .. } => {
                let mut out = "failed to read ".to_owned();
                out.push_str(path.as_str());
                out
            },
            FailError::ConfigLoad { path, message } => {
                let mut out = "failed to load config ".to_owned();
                out.push_str(path.as_str());
                out.push_str(": ");
                out.push_str(message.as_str());
                out
            },
            FailError::InvalidConfig { path, reason } => {
                let mut out = "invalid config ".to_owned();
                out.push_str(path.as_str());
                out.push_str(": ");
                out.push_str(reason.as_str());
                out
            },
            FailError::StoreError(inner) => inner.message(),
        }
    }
}


/// The error for tasks that could not be worked on.
pub open spec fn fail_open_error(e: OpenErrorView) -> FailErrorView {
    match e {
        OpenErrorView::Config(c) => match c {
            ConfigErrorView::NotFound { path } => FailErrorView::ConfigNotFound { path },
            ConfigErrorView::Read { path, message } => FailErrorView::ConfigRead { path, message },
            ConfigErrorView::Parse { path, message } => FailErrorView::ConfigLoad { path, message },
            ConfigErrorView::Invalid { path, reason } => FailErrorView::InvalidConfig { path, reason },
        },
        OpenErrorView::NoPhases { path } => FailErrorView::InvalidConfig {
            path,
            reason: "phases must not be empty"@,
        },
        OpenErrorView::Store(s) => FailErrorView::StoreError(s),
    }
}

fn map_open_error(error: OpenError) -> (r: FailError)
    ensures
        r@ == fail_open_error(error@),
{
    match error {
        OpenError::Config(c) => match c {
            ConfigError::NotFound { path } => FailError::ConfigNotFound { path },
            ConfigError::Read { path, message } => FailError::ConfigRead { path, message },
            ConfigError::Parse { path, message } => FailError::ConfigLoad { path, message },
            ConfigError::Invalid { path, reason } => FailError::InvalidConfig { path, reason },
        },
        OpenError::NoPhases { path } => FailError::InvalidConfig {
            path,
            reason: "phases must not be empty".to_owned(),
        },
        OpenError::Store(s) => FailError::StoreError(s),
    }
}

/// What a failure leaves to be done, whether or not it could be recorded.
#[derive(Debug, PartialEq, Eq)]
pub struct FailReport {
    /// What is to be written and run first, and what to tell the user at the end.
    pub report: Report,
    /// The tasks to write after that, where others failed along with the task.
    pub along: Option<Vec<Task>>,
    /// The commands to run once they are written, where all tasks are finished.
    pub closing: Option<HookRun>,
}

/// The contents of a `FailReport`.
#[verifier::ext_equal]
pub struct FailReportView {
    pub report: ReportView,
    pub along: Option<Seq<TaskView>>,
    pub closing: Option<HookRunView>,
}

impl View for FailReport {
    type V = FailReportView;

    open spec fn view(&self) -> FailReportView {
        FailReportView {
            report: self.report@,
            along: self.along.deep_view(),
            closing: self.closing.deep_view(),
        }
    }
}

impl DeepView for FailReport {
    type V = FailReportView;

    open spec fn deep_view(&self) -> FailReportView {
        self@
    }
}

impl Duplicate for FailReport {
    fn duplicate(&self) -> (r: Self) {
        FailReport {
            report: self.report.duplicate(),
            along: self.along.duplicate(),
            closing: self.closing.duplicate(),
        }
    }
}

impl Clone for FailReport {
    fn clone(&self) -> (r: Self)
        ensures
            r@ == self@,
    {
        self.duplicate()
    }
}


/// What is to be done is in the report alone.
pub open spec fn nothing_along(report: ReportView) -> FailReportView {
    FailReportView { report, along: None, closing: None }
}

fn with_nothing_along(report: Report) -> (r: FailReport)
    ensures
        r@ == nothing_along(report@),
{
    FailReport { report, along: None, closing: None }
}

/// The tasks as a failure leaves them.
pub open spec fn left_by_failure(store: TaskStoreView, r: FailReportView) -> TaskStoreView {
    match r.along {
        Some(tasks) => TaskStoreView { tasks, ..store },
        None => left_by(store, r.report),
    }
}

/// The error for a change that the tasks refused.
pub open spec fn fail_store_error(e: StoreErrorView, s: TaskStoreView, id: Seq<char>) -> FailErrorView {
    match e {
        StoreErrorView::NotFound => FailErrorView::TaskNotFound { id },
        StoreErrorView::AlreadyTerminal => match find_task(s.tasks, id) {
            Some(t) => if t.state == FAILED_STATE@ {
                FailErrorView::AlreadyFailed { id }
            } else {
                FailErrorView::AlreadyTerminal { id, state: t.state }
            },
            None => FailErrorView::TaskNotFound { id },
        },
        other => FailErrorView::StoreError(other),
    }
}

fn map_store_error(error: StoreError, store: &TaskStore, id: &str) -> (r: FailError)
    ensures
        r@ == fail_store_error(error@, store@, id@),
{
    match error {
        StoreError::NotFound => FailError::TaskNotFound { id: id.to_owned() },
        StoreError::AlreadyTerminal => match store.get_task(id) {
            Some(t) => if str_eq(t.state.as_str(), FAILED_STATE) {
                FailError::AlreadyFailed { id: id.to_owned() }
            } else {
                FailError::AlreadyTerminal { id: id.to_owned(), state: t.state.clone() }
            },
            None => FailError::TaskNotFound { id: id.to_owned() },
        },
        other => FailError::StoreError(other),
    }
}

// ---------------------------------------------------------------------------------------------
// The tasks that a failure takes along
// ---------------------------------------------------------------------------------------------

/// A task that is under way and waits for the one with an id.
pub open spec fn taken_along(t: TaskView, id: Seq<char>, terminal: Seq<char>) -> bool {
    t.dependencies.contains(id) && !at_rest(t.state, terminal)
}

/// The ids of the tasks under way that wait for the one with an id, each once, but for those that
/// were come across before.
pub open spec fn open_dependents(
    tasks: Seq<TaskView>,
    id: Seq<char>,
    terminal: Seq<char>,
    visited: Seq<Seq<char>>,
) -> Seq<Seq<char>>
    decreases tasks.len(),
{
    if tasks.len() == 0 {
        Seq::empty()
    } else {
        let rest = open_dependents(tasks.drop_last(), id, terminal, visited);
        let t = tasks.last();
        if taken_along(t, id, terminal) && !visited.contains(t.id) && !rest.contains(t.id) {
            rest.push(t.id)
        } else {
            rest
        }
    }
}

/// The number of tasks whose ids were not come across.
pub open spec fn unvisited(tasks: Seq<TaskView>, visited: Seq<Seq<char>>) -> nat
    decreases tasks.len(),
{
    if tasks.len() == 0 {
        0
    } else {
        unvisited(tasks.drop_last(), visited) + if visited.contains(tasks.last().id) {
            0nat
        } else {
            1
        }
    }
}

/// Two lists of tasks with the same ids.
pub open spec fn same_ids(a: Seq<TaskView>, b: Seq<TaskView>) -> bool {
    a.len() == b.len() && forall|i: int| 0 <= i < a.len() ==> (#[trigger] a[i]).id == b[i].id
}

/// Tasks with the same ids were come across alike.
pub proof fn lemma_unvisited_same(a: Seq<TaskView>, b: Seq<TaskView>, visited: Seq<Seq<char>>)
    requires
        same_ids(a, b),
    ensures
        unvisited(a, visited) == unvisited(b, visited),
    decreases a.len(),
{
    if a.len() > 0 {
        assert(a[a.len() - 1].id == b[b.len() - 1].id);
        assert forall|i: int| 0 <= i < a.len() - 1 implies (#[trigger] a.drop_last()[i]).id
            == b.drop_last()[i].id by {
            assert(a[i].id == b[i].id);
        }
        lemma_unvisited_same(a.drop_last(), b.drop_last(), visited);
    }
}

/// Coming across tasks leaves fewer to come across.
pub proof fn lemma_visit_more(
    tasks: Seq<TaskView>,
    id: Seq<char>,
    terminal: Seq<char>,
    visited: Seq<Seq<char>>,
)
    ensures
        unvisited(tasks, visited + open_dependents(tasks, id, terminal, visited)) + open_dependents(
            tasks,
            id,
            terminal,
            visited,
        ).len() <= unvisited(tasks, visited),
    decreases tasks.len(),
{
    if tasks.len() > 0 {
        let front = tasks.drop_last();
        let rest = open_dependents(front, id, terminal, visited);
        let all = open_dependents(tasks, id, terminal, visited);
        lemma_visit_more(front, id, terminal, visited);
        lemma_unvisited_fewer(front, visited + rest, visited + all);
        let t = tasks.last();
        assert forall|x: Seq<char>| (visited + rest).contains(x) implies #[trigger] (visited + all).contains(x) by {
            lemma_contains_more(visited, rest, all, x);
        }
        if all != rest {
            assert(all == rest.push(t.id));
            assert((visited + all)[(visited + all).len() - 1] == t.id);
            assert((visited + all).contains(t.id));
            assert(!visited.contains(t.id));
        } else if visited.contains(t.id) {
            let k = visited.index_of(t.id);
            assert((visited + all)[k] == t.id);
            assert((visited + all).contains(t.id));
        }
    }
}

proof fn lemma_contains_more(visited: Seq<Seq<char>>, rest: Seq<Seq<char>>, all: Seq<Seq<char>>, x: Seq<char>)
    requires
        (visited + rest).contains(x),
        rest.is_prefix_of(all),
    ensures
        (visited + all).contains(x),
{
    let k = (visited + rest).index_of(x);
    assert((visited + all)[k] == x) by {
        if k >= visited.len() {
            assert(rest[k - visited.len()] == all[k - visited.len()]);
        }
    }
}

proof fn lemma_unvisited_fewer(tasks: Seq<TaskView>, fewer: Seq<Seq<char>>, more: Seq<Seq<char>>)
    requires
        fewer.is_prefix_of(more),
    ensures
        unvisited(tasks, more) <= unvisited(tasks, fewer),
    decreases tasks.len(),
{
    if tasks.len() > 0 {
        lemma_unvisited_fewer(tasks.drop_last(), fewer, more);
        let x = tasks.last().id;
        if fewer.contains(x) {
            let k = fewer.index_of(x);
            assert(more[k] == x);
        }
    }
}

/// A failure changes no id.
pub proof fn lemma_fail_keeps_ids(s: TaskStoreView, id: Seq<char>, reason: Seq<char>, timestamp: Seq<char>)
    requires
        s.fail(id, reason, timestamp) is Ok,
    ensures
        same_ids(s.tasks, s.fail(id, reason, timestamp)->Ok_0.0.tasks),
{
    law_change_touches_one_task(s, id, Change::Fail { reason, timestamp });
}

/// The reason for which a task fails along with another one.
pub open spec fn cascade_reason(blocker: Seq<char>) -> Seq<char> {
    "dependency "@ + blocker + " failed"@
}

/// The ids in a list, each with the one that takes it along.
pub open spec fn along_with(ids: Seq<Seq<char>>, blocker: Seq<char>) -> Seq<(Seq<char>, Seq<char>)> {
    ids.map_values(|x: Seq<char>| (x, blocker))
}

/// The tasks once those in a queue have failed, each along with another one, and with them all that
/// wait for them. Those that are complete meanwhile are passed over.
pub open spec fn cascade(
    s: TaskStoreView,
    queue: Seq<(Seq<char>, Seq<char>)>,
    visited: Seq<Seq<char>>,
    terminal: Seq<char>,
    timestamp: Seq<char>,
) -> (TaskStoreView, Result<(), StoreErrorView>)
    decreases unvisited(s.tasks, visited) + queue.len(),
{
    if queue.len() == 0 {
        (s, Ok(()))
    } else {
        let (id, blocker) = queue[0];
        match s.fail(id, cascade_reason(blocker), timestamp) {
            Err(StoreErrorView::AlreadyTerminal) => cascade(
                s,
                queue.skip(1),
                visited,
                terminal,
                timestamp,
            ),
            Err(e) => (s, Err(e)),
            Ok((after, _)) => {
                let found = open_dependents(after.tasks, id, terminal, visited);
                proof {
                    lemma_fail_keeps_ids(s, id, cascade_reason(blocker), timestamp);
                    lemma_unvisited_same(s.tasks, after.tasks, visited);
                    lemma_visit_more(after.tasks, id, terminal, visited);
                }
                cascade(
                    after,
                    queue.skip(1) + along_with(found, id),
                    visited + found,
                    terminal,
                    timestamp,
                )
            },
        }
    }
}

/// The tasks once all that wait for one that failed have failed with it.
pub open spec fn cascaded(s: TaskStoreView, id: Seq<char>, terminal: Seq<char>, timestamp: Seq<char>) -> (
    TaskStoreView,
    Result<(), StoreErrorView>,
) {
    let found = open_dependents(s.tasks, id, terminal, Seq::empty());
    cascade(s, along_with(found, id), found, terminal, timestamp)
}

fn find_open_dependents(tasks: &[Task], id: &str, terminal: &str, visited: &Vec<String>) -> (r: Vec<
    String,
>)
    ensures
        r.deep_view() == open_dependents(
            tasks.deep_view(),
            id@,
            terminal@,
            visited.deep_view(),
        ),
{
    let ghost all = tasks.deep_view();
    let mut out: Vec<String> = Vec::new();
    let mut i: usize = 0;
    assert(all.take(0) =~= Seq::<TaskView>::empty());
    assert(out.deep_view() =~= Seq::<Seq<char>>::empty());
    while i < tasks.len()
        invariant
            i <= tasks.len(),
            all == tasks.deep_view(),
            out.deep_view() == open_dependents(
                all.take(i as int),
                id@,
                terminal@,
                visited.deep_view(),
            ),
        decreases tasks.len() - i,
    {
        let t = &tasks[i];
        assert(all.take(i + 1).drop_last() =~= all.take(i as int));
        assert(all.take(i + 1).last() == t@);
        let ghost before = out.deep_view();
        if list_has(&t.dependencies, id) && !is_non_actionable_state(t.state.as_str(), terminal)
            && !list_has(visited, t.id.as_str()) && !list_has(&out, t.id.as_str()) {
            out.push(t.id.clone());
            assert(out.deep_view() =~= before.push(t@.id));
        }
        i = i + 1;
    }
    assert(all.take(i as int) =~= all);
    out
}

fn append_along(queue: &mut Vec<(String, String)>, ids: &Vec<String>, blocker: &str)
    ensures
        final(queue).deep_view() == old(queue).deep_view() + along_with(ids.deep_view(), blocker@),
{
    let ghost start = queue.deep_view();
    let ghost all = along_with(ids.deep_view(), blocker@);
    let mut i: usize = 0;
    assert(start + all.take(0) =~= start);
    while i < ids.len()
        invariant
            i <= ids.len(),
            all == along_with(ids.deep_view(), blocker@),
            queue.deep_view() == start + all.take(i as int),
        decreases ids.len() - i,
    {
        let ghost before = queue.deep_view();
        queue.push((ids[i].clone(), blocker.to_owned()));
        assert(queue.deep_view() =~= before.push(all[i as int]));
        assert(start + all.take(i + 1) =~= (start + all.take(i as int)).push(all[i as int]));
        i = i + 1;
    }
    assert(all.take(i as int) =~= all);
}

/// No task has a shorter history than it had.
spec fn longer_histories(before: Seq<TaskView>, after: Seq<TaskView>) -> bool {
    &&& after.len() == before.len()
    &&& forall|i: int|
        0 <= i < before.len() ==> (#[trigger] before[i]).history.len() <= after[i].history.len()
}

/// Some task has a longer history than it had.
spec fn a_longer_history(before: Seq<TaskView>, after: Seq<TaskView>) -> bool {
    exists|i: int|
        0 <= i < before.len() && (#[trigger] before[i]).history.len() < after[i].history.len()
}

proof fn lemma_fail_lengthens(
    start: Seq<TaskView>,
    s: TaskStoreView,
    id: Seq<char>,
    reason: Seq<char>,
    timestamp: Seq<char>,
)
    requires
        longer_histories(start, s.tasks),
        s.fail(id, reason, timestamp) is Ok,
    ensures
        longer_histories(start, s.fail(id, reason, timestamp)->Ok_0.0.tasks),
        a_longer_history(start, s.fail(id, reason, timestamp)->Ok_0.0.tasks),
{
    lemma_task_index(s.tasks, id);
    let i = s.active(id, FAILED_STATE@)->Ok_0;
    let after = s.fail(id, reason, timestamp)->Ok_0.0.tasks;
    assert(start[i].history.len() < after[i].history.len());
}

/// Lets all tasks fail that wait for one that failed, and says whether there were any.
fn fail_along(store: &mut TaskStore, failed_id: &str, terminal_phase: &str, timestamp: &str) -> (r: (
    bool,
    Result<(), FailError>,
))
    ensures
        ({
            let (after, done) = cascaded(old(store)@, failed_id@, terminal_phase@, timestamp@);
            &&& final(store)@ == after
            &&& r.0 == (after.tasks != old(store)@.tasks)
            &&& outcome(r.1) == match done {
                Ok(_) => Ok::<(), FailErrorView>(()),
                Err(e) => Err(FailErrorView::StoreError(e)),
            }
        }),
{
    let ghost start = store@;
    let mut changed = false;
    let ghost whole = cascaded(store@, failed_id@, terminal_phase@, timestamp@);
    let nothing: Vec<String> = Vec::new();
    assert(nothing.deep_view() =~= Seq::<Seq<char>>::empty());
    let mut visited = find_open_dependents(
        store.all_tasks(),
        failed_id,
        terminal_phase,
        &nothing,
    );
    let mut queue: Vec<(String, String)> = Vec::new();
    append_along(&mut queue, &visited, failed_id);
    assert(queue.deep_view() =~= along_with(visited.deep_view(), failed_id@));
    let mut head: usize = 0;
    assert(queue.deep_view().skip(0) =~= queue.deep_view());
    while head < queue.len()
        invariant
            head <= queue.len(),
            start == old(store)@,
            longer_histories(start.tasks, store@.tasks),
            changed ==> a_longer_history(start.tasks, store@.tasks),
            !changed ==> store@ == start,
            whole == cascaded(old(store)@, failed_id@, terminal_phase@, timestamp@),
            whole == cascade(
                store@,
                queue.deep_view().skip(head as int),
                visited.deep_view(),
                terminal_phase@,
                timestamp@,
            ),
        decreases unvisited(store@.tasks, visited.deep_view()) + queue.len() - head,
    {
        let ghost rest = queue.deep_view().skip(head as int);
        let id: String = queue[head].0.clone();
        let blocker: String = queue[head].1.clone();
        assert(rest[0] == (id@, blocker@));
        assert(rest.skip(1) =~= queue.deep_view().skip(head + 1));
        let mut reason = follow("dependency ", blocker.as_str());
        reason.push_str(" failed");
        let ghost before = store@;
        match store.fail_task_at(id.as_str(), reason.as_str(), timestamp) {
            Err(StoreError::AlreadyTerminal) => {},
            Err(e) => {
                return (changed, Err(FailError::StoreError(e)));
            },
            Ok(_) => {
                changed = true;
                proof {
                    lemma_fail_lengthens(start.tasks, before, id@, reason@, timestamp@);
                }
                let found = find_open_dependents(
                    store.all_tasks(),
                    id.as_str(),
                    terminal_phase,
                    &visited,
                );
                proof {
                    lemma_fail_keeps_ids(before, id@, reason@, timestamp@);
                    lemma_unvisited_same(before.tasks, store@.tasks, visited.deep_view());
                    lemma_visit_more(store@.tasks, id@, terminal_phase@, visited.deep_view());
                }
                let ghost seen = visited.deep_view();
                let ghost whole_queue = queue.deep_view();
                append_along(&mut queue, &found, id.as_str());
                let ghost more = found.deep_view();
                let mut found = found;
                visited.append(&mut found);
                assert(visited.deep_view() =~= seen + more);
                assert(queue.deep_view().skip(head + 1) =~= whole_queue.skip(head + 1)
                    + along_with(more, id@));
            },
        }
        head = head + 1;
    }
    assert(queue.deep_view().skip(head as int).len() == 0);
    (changed, Ok(()))
}

/// Lets all tasks fail that wait for one that failed.
pub fn cascade_fail_dependents(
    store: &mut TaskStore,
    failed_id: &str,
    terminal_phase: &str,
    timestamp: &str,
) -> (r: Result<(), FailError>)
    ensures
        ({
            let (after, done) = cascaded(old(store)@, failed_id@, terminal_phase@, timestamp@);
            &&& final(store)@ == after
            &&& outcome(r) == match done {
                Ok(_) => Ok::<(), FailErrorView>(()),
                Err(e) => Err(FailErrorView::StoreError(e)),
            }
        }),
{
    fail_along(store, failed_id, terminal_phase, timestamp).1
}

// ---------------------------------------------------------------------------------------------
// The command
// ---------------------------------------------------------------------------------------------

/// What is run for a task that came to a phase.
pub open spec fn phase_run(
    project: ProjectView,
    task: TaskView,
    from_phase: Seq<char>,
    to_phase: Seq<char>,
) -> HookRunView {
    hook_run(project, to_phase, task_context(project, task, from_phase, to_phase, ""@))
}

/// What giving a task up leaves to be done: the task is written and the commands for it are run,
/// then those that fail along with it are written, and the commands for the end of all tasks are
/// run last.
pub open spec fn give_up(
    project: ProjectView,
    s: TaskStoreView,
    terminal: Seq<char>,
    id: Seq<char>,
    from: Seq<char>,
    reason: Seq<char>,
    timestamp: Seq<char>,
) -> (FailReportView, Result<(), FailErrorView>) {
    match s.fail(id, "failed (max retries): "@ + reason, timestamp) {
        Err(e) => (nothing_along(on_open(s)), Err(fail_store_error(e, s, id))),
        Ok((failed, _)) => {
            let task = find_task(failed.tasks, id)->0;
            let run = phase_run(project, task, from, FAILED_STATE@);
            let first = on_save(failed).ran(run);
            let (after, done) = cascaded(failed, id, terminal, timestamp);
            let along = if after.tasks != failed.tasks {
                Some(after.tasks)
            } else {
                None
            };
            match done {
                Err(e) => (
                    FailReportView { along, ..nothing_along(first) },
                    Err(FailErrorView::StoreError(e)),
                ),
                Ok(_) => (
                    FailReportView {
                        report: first.said(id + " failed — max retries reached"@),
                        along,
                        closing: if finished_all(after.tasks) {
                            Some(hook_run(project, ALL_TASKS_DONE_EVENT@, run.context))
                        } else {
                            None
                        },
                    },
                    Ok(()),
                ),
            }
        },
    }
}

/// What trying a task again leaves to be done.
pub open spec fn try_again(
    project: ProjectView,
    s: TaskStoreView,
    id: Seq<char>,
    from: Seq<char>,
    reason: Seq<char>,
    timestamp: Seq<char>,
) -> (ReportView, Result<(), FailErrorView>) {
    match s.retry(id, reason, timestamp) {
        Err(e) => (on_open(s), Err(fail_store_error(e, s, id))),
        Ok((after, (count, max))) => {
            let task = find_task(after.tasks, id)->0;
            (
                on_save(after).ran(phase_run(project, task, from, task.state)).said(
                    id + " retrying ("@ + decimal(count as nat) + "/"@ + decimal(max as nat)
                        + "): "@ + reason,
                ),
                Ok(()),
            )
        },
    }
}

/// What a failure leaves to be done: the task is tried again as long as it may be, and given up
/// after that.
pub open spec fn fail_flow(
    project: ProjectView,
    s: TaskStoreView,
    terminal: Seq<char>,
    id: Seq<char>,
    reason: Seq<char>,
    timestamp: Seq<char>,
) -> (FailReportView, Result<(), FailErrorView>) {
    match find_task(s.tasks, id) {
        None => (nothing_along(on_open(s)), Err(FailErrorView::TaskNotFound { id })),
        Some(t) => if t.state == FAILED_STATE@ {
            (nothing_along(on_open(s)), Err(FailErrorView::AlreadyFailed { id }))
        } else if t.state == terminal {
            (nothing_along(on_open(s)), Err(FailErrorView::AlreadyTerminal { id, state: t.state }))
        } else if t.retry_count + 1 < t.max_retries {
            let (report, done) = try_again(project, s, id, t.state, reason, timestamp);
            (nothing_along(report), done)
        } else {
            give_up(project, s, terminal, id, t.state, reason, timestamp)
        },
    }
}

/// What the command to record a failure leaves to be done.
pub open spec fn fail(
    project: ProjectView,
    files: ProjectFilesView,
    id: Seq<char>,
    reason: Option<Seq<char>>,
    now: Instant,
) -> (FailReportView, Result<(), FailErrorView>) {
    match reason_given(reason) {
        ReasonGivenView::Missing => (nothing_along(quiet()), Err(FailErrorView::MissingReason)),
        ReasonGivenView::Empty => (nothing_along(quiet()), Err(FailErrorView::EmptyReason)),
        ReasonGivenView::Given { reason } => match opening(project, files) {
            Err(e) => (nothing_along(quiet()), Err(fail_open_error(e))),
            Ok((_, terminal, store)) => fail_flow(
                project,
                store,
                terminal,
                id,
                reason,
                rfc3339_text(now),
            ),
        },
    }
}

fn make_phase_run(project: &Project, task: &Task, from_phase: &str, to_phase: &str) -> (r: HookRun)
    ensures
        r@ == phase_run(project@, task@, from_phase@, to_phase@),
{
    let context = context_of(project, task, from_phase, to_phase, "");
    run_for(project, to_phase, &context)
}

proof fn lemma_cascade_keeps_the_rest(
    s: TaskStoreView,
    queue: Seq<(Seq<char>, Seq<char>)>,
    visited: Seq<Seq<char>>,
    terminal: Seq<char>,
    timestamp: Seq<char>,
)
    ensures
        ({
            let after = cascade(s, queue, visited, terminal, timestamp).0;
            after == TaskStoreView { tasks: after.tasks, ..s }
        }),
    decreases unvisited(s.tasks, visited) + queue.len(),
{
    if queue.len() > 0 {
        let (id, blocker) = queue[0];
        match s.fail(id, cascade_reason(blocker), timestamp) {
            Err(StoreErrorView::AlreadyTerminal) => {
                lemma_cascade_keeps_the_rest(s, queue.skip(1), visited, terminal, timestamp);
            },
            Err(_) => {},
            Ok((after, _)) => {
                let found = open_dependents(after.tasks, id, terminal, visited);
                lemma_fail_keeps_ids(s, id, cascade_reason(blocker), timestamp);
                lemma_unvisited_same(s.tasks, after.tasks, visited);
                lemma_visit_more(after.tasks, id, terminal, visited);
                lemma_cascade_keeps_the_rest(
                    after,
                    queue.skip(1) + along_with(found, id),
                    visited + found,
                    terminal,
                    timestamp,
                );
            },
        }
    }
}

fn give_task_up(
    project: &Project,
    store: &mut TaskStore,
    terminal_phase: &str,
    id: &str,
    from: &str,
    reason: &str,
    timestamp: &str,
) -> (r: (FailReport, Result<(), FailError>))
    ensures
        (r.0@, outcome(r.1)) == give_up(
            project@,
            old(store)@,
            terminal_phase@,
            id@,
            from@,
            reason@,
            timestamp@,
        ),
        final(store)@ == left_by_failure(old(store)@, r.0@),
{
    let before = Report::on_open(store);
    let ghost given = store@;
    let why = follow("failed (max retries): ", reason);
    match store.fail_task_at(id, why.as_str(), timestamp) {
        Err(e) => {
            return (with_nothing_along(before), Err(map_store_error(e, store, id)));
        },
        Ok(_) => {},
    }
    proof {
        law_changed_task_is_found(
            given,
            id@,
            Change::Fail { reason: why@, timestamp: timestamp@ },
        );
    }
    let run: HookRun = match store.get_task(id) {
        Some(task) => make_phase_run(project, task, from, FAILED_STATE),
        None => {
            return (with_nothing_along(before), Ok(()));
        },
    };
    let ghost failed = store@;
    let mut report = Report::on_save(store);
    let context = run.context.duplicate();
    report.run(run);
    let (changed, done) = fail_along(store, id, terminal_phase, timestamp);
    proof {
        let found = open_dependents(failed.tasks, id@, terminal_phase@, Seq::empty());
        lemma_cascade_keeps_the_rest(
            failed,
            along_with(found, id@),
            found,
            terminal_phase@,
            timestamp@,
        );
    }
    let along: Option<Vec<Task>> = if changed {
        Some(copy_slice(store.all_tasks()))
    } else {
        None
    };
    match done {
        Err(e) => (FailReport { report, along, closing: None }, Err(e)),
        Ok(_) => {
            let closing = if all_tasks_done(store.all_tasks()) {
                Some(run_for(project, ALL_TASKS_DONE_EVENT, &context))
            } else {
                None
            };
            report.say(follow(id, " failed — max retries reached"));
            (FailReport { report, along, closing }, Ok(()))
        },
    }
}

fn try_task_again(
    project: &Project,
    store: &mut TaskStore,
    id: &str,
    from: &str,
    reason: &str,
    timestamp: &str,
) -> (r: (Report, Result<(), FailError>))
    requires
        old(store)@.retry_count_fits(id@),
    ensures
        (r.0@, outcome(r.1)) == try_again(
            project@,
            old(store)@,
            id@,
            from@,
            reason@,
            timestamp@,
        ),
        final(store)@ == left_by(old(store)@, r.0@),
{
    let before = Report::on_open(store);
    let ghost given = store@;
    match store.retry_task_at(id, reason, timestamp) {
        Err(e) => (before, Err(map_store_error(e, store, id))),
        Ok((count, max)) => {
            proof {
                law_changed_task_is_found(
                    given,
                    id@,
                    Change::Retry { reason: reason@, timestamp: timestamp@ },
                );
            }
            let mut report = Report::on_save(store);
            match store.get_task(id) {
                Some(task) => report.run(
                    make_phase_run(project, task, from, task.state.as_str()),
                ),
                None => {},
            }
            let mut line = follow(id, " retrying (");
            line.push_str(decimal_str(count as u64).as_str());
            line.push_str("/");
            line.push_str(decimal_str(max as u64).as_str());
            line.push_str("): ");
            line.push_str(reason);
            report.say(line);
            (report, Ok(()))
        },
    }
}

/// Records a failure of a task of a store.
pub fn fail_task_flow(
    project: &Project,
    store: &mut TaskStore,
    terminal_phase: &str,
    id: &str,
    reason: &str,
    timestamp: &str,
) -> (r: (FailReport, Result<(), FailError>))
    ensures
        (r.0@, outcome(r.1)) == fail_flow(
            project@,
            old(store)@,
            terminal_phase@,
            id@,
            reason@,
            timestamp@,
        ),
        final(store)@ == left_by_failure(old(store)@, r.0@),
{
    let before = Report::on_open(store);
    let (state, count, max): (String, u32, u32) = match store.get_task(id) {
        None => {
            return (with_nothing_along(before), Err(FailError::TaskNotFound { id: id.to_owned() }));
        },
        Some(t) => (t.state.clone(), t.retry_count, t.max_retries),
    };
    if str_eq(state.as_str(), FAILED_STATE) {
        return (with_nothing_along(before), Err(FailError::AlreadyFailed { id: id.to_owned() }));
    }
    if str_eq(state.as_str(), terminal_phase) {
        return (with_nothing_along(before), Err(FailError::AlreadyTerminal { id: id.to_owned(), state }));
    }
    if count < max && max - count > 1 {
        let (report, result) = try_task_again(
            project,
            store,
            id,
            state.as_str(),
            reason,
            timestamp,
        );
        (with_nothing_along(report), result)
    } else {
        give_task_up(project, store, terminal_phase, id, state.as_str(), reason, timestamp)
    }
}

/// Records a failure at a point in time.
pub fn run_fail_at(
    project: &Project,
    files: &ProjectFiles,
    id: &str,
    reason: Option<&str>,
    now: Instant,
) -> (r: (FailReport, Result<(), FailError>))
    requires
        now.on_calendar(),
    ensures
        (r.0@, outcome(r.1)) == fail(project@, files@, id@, reason.deep_view(), now),
{
    let reason: String = match check_reason(reason) {
        ReasonGiven::Missing => {
            return (with_nothing_along(Report::quiet()), Err(FailError::MissingReason));
        },
        ReasonGiven::Empty => {
            return (with_nothing_along(Report::quiet()), Err(FailError::EmptyReason));
        },
        ReasonGiven::Given { reason } => reason,
    };
    match open_project(project, files) {
        Err(e) => (with_nothing_along(Report::quiet()), Err(map_open_error(e))),
        Ok((_, terminal, store)) => {
            let mut store = store;
            fail_task_flow(
                project,
                &mut store,
                terminal.as_str(),
                id,
                reason.as_str(),
                now.text().as_str(),
            )
        },
    }
}

/// Records a failure.
pub fn run_fail(project: &Project, files: &ProjectFiles, id: &str, reason: Option<&str>) -> (r: (
    FailReport,
    Result<(), FailError>,
))
    ensures
        exists|now: Instant|
            now.on_calendar() && (r.0@, outcome(r.1)) == #[trigger] fail(
                project@,
                files@,
                id@,
                reason.deep_view(),
                now,
            ),
{
    run_fail_at(project, files, id, reason, Instant::now())
}

// ---------------------------------------------------------------------------------------------
// Laws
// ---------------------------------------------------------------------------------------------

/// Every workflow that a task goes through ends in the phase given.
pub open spec fn ends_in(s: TaskStoreView, terminal: Seq<char>) -> bool {
    forall|i: int|
        0 <= i < s.tasks.len() ==> {
            let steps = s.config.sequence((#[trigger] s.tasks[i]).workflow);
            steps.len() > 0 ==> steps.last() == terminal
        }
}

/// No task under way waits for one with an id in a set.
pub open spec fn none_waits(tasks: Seq<TaskView>, gone: Set<Seq<char>>, terminal: Seq<char>) -> bool {
    forall|i: int, d: Seq<char>|
        0 <= i < tasks.len() && !at_rest((#[trigger] tasks[i]).state, terminal) && gone.contains(d)
            ==> !#[trigger] tasks[i].dependencies.contains(d)
}

/// A task that failed along with one that it waits for.
pub open spec fn failed_along(before: TaskView, after: TaskView, gone: Set<Seq<char>>) -> bool {
    &&& after.state == FAILED_STATE@
    &&& after.history.len() > 0
    &&& exists|d: Seq<char>|
        before.dependencies.contains(d) && gone.contains(d) && after.history.last().reason
            == #[trigger] cascade_reason(d)
}

proof fn lemma_open_dependents(
    tasks: Seq<TaskView>,
    id: Seq<char>,
    terminal: Seq<char>,
    visited: Seq<Seq<char>>,
)
    ensures
        forall|i: int|
            0 <= i < tasks.len() && taken_along(#[trigger] tasks[i], id, terminal)
                ==> visited.contains(tasks[i].id) || open_dependents(
                tasks,
                id,
                terminal,
                visited,
            ).contains(tasks[i].id),
        forall|k: int|
            0 <= k < open_dependents(tasks, id, terminal, visited).len() ==> exists|i: int|
                0 <= i < tasks.len() && taken_along(#[trigger] tasks[i], id, terminal)
                    && tasks[i].id == #[trigger] open_dependents(tasks, id, terminal, visited)[k],
        open_dependents(tasks, id, terminal, visited).no_duplicates(),
        forall|k: int|
            0 <= k < open_dependents(tasks, id, terminal, visited).len() ==> !visited.contains(
                #[trigger] open_dependents(tasks, id, terminal, visited)[k],
            ),
    decreases tasks.len(),
{
    if tasks.len() > 0 {
        let front = tasks.drop_last();
        let rest = open_dependents(front, id, terminal, visited);
        let all = open_dependents(tasks, id, terminal, visited);
        lemma_open_dependents(front, id, terminal, visited);
        let n = tasks.len() - 1;
        assert forall|x: Seq<char>| rest.contains(x) implies #[trigger] all.contains(x) by {
            let k = rest.index_of(x);
            assert(all[k] == x);
        }
        assert forall|i: int|
            0 <= i < tasks.len() && taken_along(#[trigger] tasks[i], id, terminal) implies visited.contains(
            tasks[i].id,
        ) || all.contains(tasks[i].id) by {
            if i < n {
                assert(front[i] == tasks[i]);
                if !visited.contains(tasks[i].id) {
                    assert(rest.contains(tasks[i].id));
                    assert(all.contains(tasks[i].id));
                }
            } else if !visited.contains(tasks[i].id) {
                if rest.contains(tasks[i].id) {
                    assert(all.contains(tasks[i].id));
                } else {
                    assert(all[rest.len() as int] == tasks[i].id);
                }
            }
        }
        assert forall|k: int| 0 <= k < all.len() implies exists|i: int|
            0 <= i < tasks.len() && taken_along(#[trigger] tasks[i], id, terminal) && tasks[i].id
                == #[trigger] all[k] by {
            if k < rest.len() {
                assert(all[k] == rest[k]);
                let i = choose|i: int|
                    0 <= i < front.len() && taken_along(#[trigger] front[i], id, terminal)
                        && front[i].id == rest[k];
                assert(front[i] == tasks[i]);
            } else {
                assert(tasks[n].id == all[k]);
                assert(taken_along(tasks[n], id, terminal));
            }
        }
    }
}

/// The ids in a queue.
pub open spec fn queued(queue: Seq<(Seq<char>, Seq<char>)>, id: Seq<char>) -> bool {
    exists|k: int| 0 <= k < queue.len() && (#[trigger] queue[k]).0 == id
}

/// A queue in the midst of a cascade: it holds every task under way that was come across or that
/// waits for one that is gone, each of them once and with one that it waits for and that is gone.
pub open spec fn queue_holds(
    s: TaskStoreView,
    queue: Seq<(Seq<char>, Seq<char>)>,
    visited: Seq<Seq<char>>,
    terminal: Seq<char>,
    gone: Set<Seq<char>>,
) -> bool {
    &&& forall|i: int|
        0 <= i < s.tasks.len() && !at_rest((#[trigger] s.tasks[i]).state, terminal)
            && visited.contains(s.tasks[i].id) ==> queued(queue, s.tasks[i].id)
    &&& forall|i: int, d: Seq<char>|
        0 <= i < s.tasks.len() && !at_rest((#[trigger] s.tasks[i]).state, terminal)
            && gone.contains(d) && #[trigger] s.tasks[i].dependencies.contains(d) ==> queued(
            queue,
            s.tasks[i].id,
        )
    &&& forall|i: int, k: int|
        0 <= i < s.tasks.len() && 0 <= k < queue.len() && (#[trigger] s.tasks[i]).id == (
        #[trigger] queue[k]).0 ==> s.tasks[i].dependencies.contains(queue[k].1) && gone.contains(
            queue[k].1,
        ) && !at_rest(s.tasks[i].state, terminal)
    &&& forall|k: int| 0 <= k < queue.len() ==> visited.contains((#[trigger] queue[k]).0)
    &&& forall|k: int, m: int|
        0 <= k < queue.len() && 0 <= m < queue.len() && k != m ==> (#[trigger] queue[k]).0 != (
        #[trigger] queue[m]).0
}

proof fn lemma_queue_rest(queue: Seq<(Seq<char>, Seq<char>)>, id: Seq<char>)
    requires
        queue.len() > 0,
        queued(queue, id),
        queue[0].0 != id,
    ensures
        queued(queue.skip(1), id),
{
    let k = choose|k: int| 0 <= k < queue.len() && (#[trigger] queue[k]).0 == id;
    assert(queue.skip(1)[k - 1] == queue[k]);
}

proof fn lemma_queue_longer(
    front: Seq<(Seq<char>, Seq<char>)>,
    found: Seq<Seq<char>>,
    blocker: Seq<char>,
    id: Seq<char>,
)
    requires
        queued(front, id) || found.contains(id),
    ensures
        queued(front + along_with(found, blocker), id),
{
    let all = front + along_with(found, blocker);
    if queued(front, id) {
        let k = choose|k: int| 0 <= k < front.len() && (#[trigger] front[k]).0 == id;
        assert(all[k] == front[k]);
    } else {
        let k = found.index_of(id);
        assert(all[front.len() + k] == (id, blocker));
    }
}

proof fn lemma_cascade(
    s: TaskStoreView,
    queue: Seq<(Seq<char>, Seq<char>)>,
    visited: Seq<Seq<char>>,
    terminal: Seq<char>,
    timestamp: Seq<char>,
    gone: Set<Seq<char>>,
) -> (all: Set<Seq<char>>)
    requires
        unique_ids(s.tasks),
        ends_in(s, terminal),
        queue_holds(s, queue, visited, terminal, gone),
        cascade(s, queue, visited, terminal, timestamp).1 is Ok,
    ensures
        gone.subset_of(all),
        ({
            let after = cascade(s, queue, visited, terminal, timestamp).0;
            &&& after.tasks.len() == s.tasks.len()
            &&& none_waits(after.tasks, all, terminal)
            &&& forall|x: Seq<char>| #[trigger]
                all.contains(x) && !gone.contains(x) ==> exists|i: int|
                    0 <= i < s.tasks.len() && (#[trigger] s.tasks[i]).id == x && after.tasks[i]
                        != s.tasks[i]
            &&& forall|i: int|
                0 <= i < s.tasks.len() && after.tasks[i] != #[trigger] s.tasks[i] ==> all.contains(
                    s.tasks[i].id,
                ) && failed_along(s.tasks[i], after.tasks[i], all) && !at_rest(
                    s.tasks[i].state,
                    terminal,
                )
        }),
    decreases unvisited(s.tasks, visited) + queue.len(),
{
    let whole = cascade(s, queue, visited, terminal, timestamp);
    if queue.len() == 0 {
        assert forall|i: int, d: Seq<char>|
            0 <= i < s.tasks.len() && !at_rest((#[trigger] s.tasks[i]).state, terminal)
                && gone.contains(d) implies !#[trigger] s.tasks[i].dependencies.contains(d) by {
            if s.tasks[i].dependencies.contains(d) {
                assert(queued(queue, s.tasks[i].id));
            }
        }
        gone
    } else {
        let (id, blocker) = queue[0];
        let reason = cascade_reason(blocker);
        lemma_task_index(s.tasks, id);
        match s.fail(id, reason, timestamp) {
            Err(StoreErrorView::AlreadyTerminal) => {
                let at = task_index(s.tasks, id)->0;
                assert(at_rest(s.tasks[at].state, terminal));
                assert forall|i: int|
                    0 <= i < s.tasks.len() && !at_rest((#[trigger] s.tasks[i]).state, terminal)
                        && queued(queue, s.tasks[i].id) implies queued(
                    queue.skip(1),
                    s.tasks[i].id,
                ) by {
                    assert(s.tasks[i].id != id) by {
                        if s.tasks[i].id == id {
                            assert(i == at);
                        }
                    }
                    lemma_queue_rest(queue, s.tasks[i].id);
                }
                assert forall|i: int, k: int|
                    0 <= i < s.tasks.len() && 0 <= k < queue.skip(1).len() && (
                    #[trigger] s.tasks[i]).id == (#[trigger] queue.skip(1)[k]).0 implies s.tasks[i].dependencies.contains(
                queue.skip(1)[k].1) && gone.contains(queue.skip(1)[k].1) && !at_rest(
                    s.tasks[i].state,
                    terminal,
                ) by {
                    assert(queue.skip(1)[k] == queue[k + 1]);
                }
                assert forall|k: int, m: int|
                    0 <= k < queue.skip(1).len() && 0 <= m < queue.skip(1).len() && k != m implies (
                #[trigger] queue.skip(1)[k]).0 != (#[trigger] queue.skip(1)[m]).0 by {
                    assert(queue.skip(1)[k] == queue[k + 1]);
                    assert(queue.skip(1)[m] == queue[m + 1]);
                }
                assert forall|k: int| 0 <= k < queue.skip(1).len() implies visited.contains(
                    (#[trigger] queue.skip(1)[k]).0,
                ) by {
                    assert(queue.skip(1)[k] == queue[k + 1]);
                }
                lemma_cascade(s, queue.skip(1), visited, terminal, timestamp, gone)
            },
            Err(e) => {
                assert(whole.1 is Err);
                gone
            },
            Ok((next, _)) => {
                let at = task_index(s.tasks, id)->0;
                let found = open_dependents(next.tasks, id, terminal, visited);
                let longer = queue.skip(1) + along_with(found, id);
                let more = gone.insert(id);
                lemma_fail_keeps_ids(s, id, reason, timestamp);
                lemma_unvisited_same(s.tasks, next.tasks, visited);
                lemma_visit_more(next.tasks, id, terminal, visited);
                lemma_open_dependents(next.tasks, id, terminal, visited);
                assert(next.tasks == s.tasks.update(at, next.tasks[at]));
                assert(next.tasks[at].state == FAILED_STATE@);
                assert(next.tasks[at].dependencies == s.tasks[at].dependencies);
                assert(unique_ids(next.tasks));
                assert(ends_in(next, terminal)) by {
                    assert forall|i: int| 0 <= i < next.tasks.len() implies {
                        let steps = next.config.sequence((#[trigger] next.tasks[i]).workflow);
                        steps.len() > 0 ==> steps.last() == terminal
                    } by {
                        assert(next.tasks[i].workflow == s.tasks[i].workflow);
                    }
                }
                assert forall|i: int|
                    0 <= i < next.tasks.len() && !at_rest(
                        (#[trigger] next.tasks[i]).state,
                        terminal,
                    ) implies i != at && next.tasks[i] == s.tasks[i] && s.tasks[i].id != id by {
                    if s.tasks[i].id == id {
                        assert(i == at);
                    }
                }
                assert forall|i: int|
                    0 <= i < next.tasks.len() && !at_rest(
                        (#[trigger] next.tasks[i]).state,
                        terminal,
                    ) && (visited + found).contains(next.tasks[i].id) implies queued(
                    longer,
                    next.tasks[i].id,
                ) by {
                    let x = next.tasks[i].id;
                    let k = (visited + found).index_of(x);
                    if k < visited.len() {
                        assert(visited[k] == x);
                        assert(visited.contains(s.tasks[i].id));
                        lemma_queue_rest(queue, x);
                    } else {
                        assert(found[k - visited.len()] == x);
                        assert(found.contains(x));
                    }
                    lemma_queue_longer(queue.skip(1), found, id, x);
                }
                assert forall|i: int, d: Seq<char>|
                    0 <= i < next.tasks.len() && !at_rest(
                        (#[trigger] next.tasks[i]).state,
                        terminal,
                    ) && more.contains(d) && #[trigger] next.tasks[i].dependencies.contains(
                        d,
                    ) implies queued(longer, next.tasks[i].id) by {
                    let x = next.tasks[i].id;
                    if d == id {
                        assert(taken_along(next.tasks[i], id, terminal));
                        if visited.contains(x) {
                            assert(visited.contains(s.tasks[i].id));
                            lemma_queue_rest(queue, x);
                        }
                    } else {
                        assert(s.tasks[i].dependencies.contains(d));
                        lemma_queue_rest(queue, x);
                    }
                    lemma_queue_longer(queue.skip(1), found, id, x);
                }
                assert forall|i: int, k: int|
                    0 <= i < next.tasks.len() && 0 <= k < longer.len() && (
                    #[trigger] next.tasks[i]).id == (#[trigger] longer[k]).0 implies next.tasks[i].dependencies.contains(
                longer[k].1) && more.contains(longer[k].1) && !at_rest(
                    next.tasks[i].state,
                    terminal,
                ) by {
                    if k < queue.skip(1).len() {
                        assert(longer[k] == queue[k + 1]);
                        assert(s.tasks[i].id == queue[k + 1].0);
                        assert(queue[k + 1].0 != queue[0].0);
                        assert(i != at);
                    } else {
                        let m = k - queue.skip(1).len();
                        assert(longer[k] == (found[m], id));
                        let j = choose|j: int|
                            0 <= j < next.tasks.len() && taken_along(
                                #[trigger] next.tasks[j],
                                id,
                                terminal,
                            ) && next.tasks[j].id == found[m];
                        assert(i == j);
                    }
                }
                let seen = visited + found;
                assert forall|k: int| 0 <= k < longer.len() implies seen.contains(
                    (#[trigger] longer[k]).0,
                ) by {
                    if k < queue.skip(1).len() {
                        assert(longer[k] == queue[k + 1]);
                        let m = visited.index_of(queue[k + 1].0);
                        assert(seen[m] == longer[k].0);
                    } else {
                        let m = k - queue.skip(1).len();
                        assert(longer[k] == (found[m], id));
                        assert(seen[visited.len() + m] == found[m]);
                    }
                }
                assert forall|k: int, m: int|
                    0 <= k < longer.len() && 0 <= m < longer.len() && k != m implies (
                #[trigger] longer[k]).0 != (#[trigger] longer[m]).0 by {
                    let n = queue.skip(1).len();
                    if k < n {
                        assert(longer[k] == queue[k + 1]);
                    } else {
                        assert(longer[k] == (found[k - n], id));
                    }
                    if m < n {
                        assert(longer[m] == queue[m + 1]);
                    } else {
                        assert(longer[m] == (found[m - n], id));
                    }
                }
                let all = lemma_cascade(next, longer, seen, terminal, timestamp, more);
                let after = whole.0;
                assert(after == cascade(next, longer, visited + found, terminal, timestamp).0);
                assert(after.tasks[at] == next.tasks[at]) by {
                    if after.tasks[at] != next.tasks[at] {
                        assert(!at_rest(next.tasks[at].state, terminal));
                    }
                }
                assert(all.contains(id));
                assert(next.tasks[at].history.last().reason == reason);
                assert(s.tasks[at].id == queue[0].0);
                assert(s.tasks[at].dependencies.contains(blocker) && gone.contains(blocker));
                assert(next.tasks[at].history.len() == s.tasks[at].history.len() + 1);
                assert(!at_rest(s.tasks[at].state, terminal));
                assert forall|x: Seq<char>| #[trigger]
                    all.contains(x) && !gone.contains(x) implies exists|i: int|
                    0 <= i < s.tasks.len() && (#[trigger] s.tasks[i]).id == x && after.tasks[i]
                        != s.tasks[i] by {
                    if x == id {
                        assert(s.tasks[at].id == x);
                    } else {
                        assert(!more.contains(x));
                        let i = choose|i: int|
                            0 <= i < next.tasks.len() && (#[trigger] next.tasks[i]).id == x
                                && after.tasks[i] != next.tasks[i];
                        assert(i != at);
                        assert(s.tasks[i] == next.tasks[i]);
                    }
                }
                assert forall|i: int|
                    0 <= i < s.tasks.len() && after.tasks[i] != #[trigger] s.tasks[i] implies all.contains(
                s.tasks[i].id) && failed_along(s.tasks[i], after.tasks[i], all) && !at_rest(
                    s.tasks[i].state,
                    terminal,
                ) by {
                    if i == at {
                        assert(all.contains(blocker));
                        assert(after.tasks[i].history.last().reason == cascade_reason(blocker));
                    } else {
                        assert(next.tasks[i] == s.tasks[i]);
                    }
                }
                all
            },
        }
    }
}

/// The failure of a task takes along all that wait for it and nothing else. Once it is done, no
/// task under way waits for the task that failed or for one that failed along with it; and a task
/// that changed was under way and failed for a reason that names one that it waits for, which is
/// the task that failed or one that failed along with it.
pub proof fn law_failure_takes_dependents_along(
    s: TaskStoreView,
    id: Seq<char>,
    terminal: Seq<char>,
    timestamp: Seq<char>,
)
    requires
        unique_ids(s.tasks),
        ends_in(s, terminal),
        cascaded(s, id, terminal, timestamp).1 is Ok,
    ensures
        ({
            let after = cascaded(s, id, terminal, timestamp).0.tasks;
            let gone = |x: Seq<char>| x == id || exists|j: int|
                0 <= j < s.tasks.len() && (#[trigger] s.tasks[j]).id == x && after[j] != s.tasks[j];
            &&& after.len() == s.tasks.len()
            &&& forall|i: int, d: Seq<char>|
                0 <= i < after.len() && !at_rest((#[trigger] after[i]).state, terminal)
                    && #[trigger] after[i].dependencies.contains(d) ==> !gone(d)
            &&& forall|i: int|
                0 <= i < after.len() && after[i] != #[trigger] s.tasks[i] ==> {
                    &&& !at_rest(s.tasks[i].state, terminal)
                    &&& after[i].state == FAILED_STATE@
                    &&& exists|d: Seq<char>|
                        s.tasks[i].dependencies.contains(d) && gone(d)
                            && after[i].history.last().reason == #[trigger] cascade_reason(d)
                }
        }),
{
    let found = open_dependents(s.tasks, id, terminal, Seq::empty());
    let queue = along_with(found, id);
    let start = Set::<Seq<char>>::empty().insert(id);
    lemma_open_dependents(s.tasks, id, terminal, Seq::empty());
    assert forall|x: Seq<char>| found.contains(x) implies queued(queue, x) by {
        let k = found.index_of(x);
        assert(queue[k] == (x, id));
    }
    assert forall|i: int, d: Seq<char>|
        0 <= i < s.tasks.len() && !at_rest((#[trigger] s.tasks[i]).state, terminal)
            && start.contains(d) && #[trigger] s.tasks[i].dependencies.contains(d) implies queued(
        queue,
        s.tasks[i].id,
    ) by {
        assert(taken_along(s.tasks[i], id, terminal));
        assert(!Seq::<Seq<char>>::empty().contains(s.tasks[i].id));
        assert(found.contains(s.tasks[i].id));
    }
    assert forall|i: int, k: int|
        0 <= i < s.tasks.len() && 0 <= k < queue.len() && (#[trigger] s.tasks[i]).id == (
        #[trigger] queue[k]).0 implies s.tasks[i].dependencies.contains(queue[k].1)
        && start.contains(queue[k].1) && !at_rest(s.tasks[i].state, terminal) by {
        assert(queue[k] == (found[k], id));
        let j = choose|j: int|
            0 <= j < s.tasks.len() && taken_along(#[trigger] s.tasks[j], id, terminal)
                && s.tasks[j].id == found[k];
        assert(i == j);
    }
    let all = lemma_cascade(s, queue, found, terminal, timestamp, start);
    let after = cascaded(s, id, terminal, timestamp).0.tasks;
    let gone = |x: Seq<char>| x == id || exists|j: int|
        0 <= j < s.tasks.len() && (#[trigger] s.tasks[j]).id == x && after[j] != s.tasks[j];
    assert forall|x: Seq<char>| gone(x) implies #[trigger] all.contains(x) by {
        if x != id {
            let j = choose|j: int|
                0 <= j < s.tasks.len() && (#[trigger] s.tasks[j]).id == x && after[j] != s.tasks[j];
            assert(all.contains(s.tasks[j].id));
        }
    }
    assert forall|i: int, d: Seq<char>|
        0 <= i < after.len() && !at_rest((#[trigger] after[i]).state, terminal)
            && #[trigger] after[i].dependencies.contains(d) implies !gone(d) by {
        if gone(d) {
            assert(all.contains(d));
        }
    }
    assert forall|i: int| 0 <= i < after.len() && after[i] != #[trigger] s.tasks[i] implies {
        &&& !at_rest(s.tasks[i].state, terminal)
        &&& after[i].state == FAILED_STATE@
        &&& exists|d: Seq<char>|
            s.tasks[i].dependencies.contains(d) && gone(d) && after[i].history.last().reason
                == #[trigger] cascade_reason(d)
    } by {
        assert(failed_along(s.tasks[i], after[i], all));
        let d = choose|d: Seq<char>|
            s.tasks[i].dependencies.contains(d) && all.contains(d)
                && after[i].history.last().reason == #[trigger] cascade_reason(d);
        assert(gone(d)) by {
            if d != id {
                assert(all.contains(d) && !start.contains(d));
            }
        }
    }
}

} // verus!
