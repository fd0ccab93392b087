//! Listing the projects of a user.

use vstd::prelude::*;

use crate::commands::runner::{text_or, text_or_str};
use crate::duplicate::{outcome, Duplicate};
use crate::engine::config::{
    load_project_config, loaded_config, single_workflow, Config, ConfigRead, ConfigReadView,
    ConfigView, PhaseDef, PhaseDefView, TERMINAL_PHASE_NAME,
};
use crate::engine::global_config::GlobalConfig;
use crate::engine::pick::{chosen, select_next_task_at};
use crate::engine::tasks::{
    opened, BLOCKED_STATE, FAILED_STATE, Task, TaskStore, TaskView, TasksRead, TasksReadView,
};
use crate::rows::{
    choice, keep_chosen, pad, pad_left, padded, padded_left, rows_of, write_rows, Choice, RowWriter,
};
use crate::sorting::{law_sorting_orders, order_of, sorted_by, stable_sort, StableOrder};
use crate::text::{
    decimal, decimal_str, first_where, follow, is_first, join, join_path, join_strs, keep,
    lemma_first_is, lemma_first_none, lemma_lex_irreflexive, lemma_lex_total, lemma_lex_transitive,
    lex_lt, path_join, repeat_char, repeated, str_eq, str_lt, to_chars,
};
use crate::time::Instant;

verus! {

/// What is said of a project whose tasks cannot be read.
pub const INVALID_TASKS_JSON: &'static str = "invalid tasks.json";

/// Why projects could not be listed.
#[derive(Debug, PartialEq, Eq)]
pub enum ProjectListError {
    HomeDirectoryMissing,
    Read { path: String, message: String },
}

/// The contents of a `ProjectListError`.
#[verifier::ext_equal]
pub enum ProjectListErrorView {
    HomeDirectoryMissing,
    Read { path: Seq<char>, message: Seq<char> },
}

impl View for ProjectListError {
    type V = ProjectListErrorView;

    open spec fn view(&self) -> ProjectListErrorView {
        match self {
            ProjectListError::HomeDirectoryMissing => ProjectListErrorView::HomeDirectoryMissing,
            ProjectListError::Read { path, message } => ProjectListErrorView::Read { path: path@, message: message@ },
        }
    }
}

impl DeepView for ProjectListError {
    type V = ProjectListErrorView;

    open spec fn deep_view(&self) -> ProjectListErrorView {
        self@
    }
}

impl Duplicate for ProjectListError {
    fn duplicate(&self) -> (r: Self) {
        match self {
            ProjectListError::HomeDirectoryMissing => ProjectListError::HomeDirectoryMissing,
            ProjectListError::Read { path, message } => ProjectListError::Read { path: path.duplicate(), message: message.duplicate() },
        }
    }
}

impl Clone for ProjectListError {
    fn clone(&self) -> (r: Self)
        ensures
            r@ == self@,
    {
        self.duplicate()
    }
}

impl ProjectListErrorView {
    /// The text shown for the error.
    pub open spec fn message(self) -> Seq<char> {
        match self {
            ProjectListErrorView::HomeDirectoryMissing => "home directory missing"@,
            ProjectListErrorView::Read { path, .. } => "failed to read "@ + path,
        }
    }
}

impl ProjectListError {
    /// The text shown for the error.
    pub fn message(&self) -> (r: String)
        ensures
            r@ == self@.message(),
    {
        match self {
            ProjectListError::HomeDirectoryMissing => "home directory missing".to_owned(),
            ProjectListError::Read { path, .. } => {
                let mut out = "failed to read ".to_owned();
                out.push_str(path.as_str());
                out
            },
        }
    }
}


/// A project that was set up.
#[derive(Debug, PartialEq, Eq)]
pub struct ProjectEntry {
    pub name: String,
    pub state_dir: String,
    pub source_path: Option<String>,
}

/// The contents of a `ProjectEntry`.
#[verifier::ext_equal]
pub struct ProjectEntryView {
    pub name: Seq<char>,
    pub state_dir: Seq<char>,
    pub source_path: Option<Seq<char>>,
}

impl View for ProjectEntry {
    type V = ProjectEntryView;

    open spec fn view(&self) -> ProjectEntryView {
        ProjectEntryView {
            name: self.name@,
            state_dir: self.state_dir@,
            source_path: self.source_path.deep_view(),
        }
    }
}

impl DeepView for ProjectEntry {
    type V = ProjectEntryView;

    open spec fn deep_view(&self) -> ProjectEntryView {
        self@
    }
}

impl Duplicate for ProjectEntry {
    fn duplicate(&self) -> (r: Self) {
        ProjectEntry {
            name: self.name.duplicate(),
            state_dir: self.state_dir.duplicate(),
            source_path: self.source_path.duplicate(),
        }
    }
}

impl Clone for ProjectEntry {
    fn clone(&self) -> (r: Self)
        ensures
            r@ == self@,
    {
        self.duplicate()
    }
}


/// What was found in the directory of all projects.
#[derive(Debug, PartialEq, Eq)]
pub enum EntrySeen {
    /// It could not be looked at.
    Failed { path: String, message: String },
    Found { name: String, path: String, directory: bool, has_config: bool, source_text: Option<String> },
}

/// The contents of a `EntrySeen`.
#[verifier::ext_equal]
pub enum EntrySeenView {
    Failed { path: Seq<char>, message: Seq<char> },
    Found { name: Seq<char>, path: Seq<char>, directory: bool, has_config: bool, source_text: Option<Seq<char>> },
}

impl View for EntrySeen {
    type V = EntrySeenView;

    open spec fn view(&self) -> EntrySeenView {
        match self {
            EntrySeen::Failed { path, message } => EntrySeenView::Failed { path: path@, message: message@ },
            EntrySeen::Found { name, path, directory, has_config, source_text } => EntrySeenView::Found { name: name@, path: path@, directory: *directory, has_config: *has_config, source_text: source_text.deep_view() },
        }
    }
}

impl DeepView for EntrySeen {
    type V = EntrySeenView;

    open spec fn deep_view(&self) -> EntrySeenView {
        self@
    }
}

impl Duplicate for EntrySeen {
    fn duplicate(&self) -> (r: Self) {
        match self {
            EntrySeen::Failed { path, message } => EntrySeen::Failed { path: path.duplicate(), message: message.duplicate() },
            EntrySeen::Found { name, path, directory, has_config, source_text } => EntrySeen::Found { name: name.duplicate(), path: path.duplicate(), directory: *directory, has_config: *has_config, source_text: source_text.duplicate() },
        }
    }
}

impl Clone for EntrySeen {
    fn clone(&self) -> (r: Self)
        ensures
            r@ == self@,
    {
        self.duplicate()
    }
}


/// What looking at the directory of all projects gave.
#[derive(Debug, PartialEq, Eq)]
pub enum RootSeen {
    /// There is no such directory.
    Missing,
    /// It could not be looked at.
    Failed { message: String },
    Entries { entries: Vec<EntrySeen> },
}

/// The contents of a `RootSeen`.
#[verifier::ext_equal]
pub enum RootSeenView {
    Missing,
    Failed { message: Seq<char> },
    Entries { entries: Seq<EntrySeenView> },
}

impl View for RootSeen {
    type V = RootSeenView;

    open spec fn view(&self) -> RootSeenView {
        match self {
            RootSeen::Missing => RootSeenView::Missing,
            RootSeen::Failed { message } => RootSeenView::Failed { message: message@ },
            RootSeen::Entries { entries } => RootSeenView::Entries { entries: entries.deep_view() },
        }
    }
}

impl DeepView for RootSeen {
    type V = RootSeenView;

    open spec fn deep_view(&self) -> RootSeenView {
        self@
    }
}

impl Duplicate for RootSeen {
    fn duplicate(&self) -> (r: Self) {
        match self {
            RootSeen::Missing => RootSeen::Missing,
            RootSeen::Failed { message } => RootSeen::Failed { message: message.duplicate() },
            RootSeen::Entries { entries } => RootSeen::Entries { entries: entries.duplicate() },
        }
    }
}

impl Clone for RootSeen {
    fn clone(&self) -> (r: Self)
        ensures
            r@ == self@,
    {
        self.duplicate()
    }
}


/// A project and what was found about it.
#[derive(Debug, PartialEq, Eq)]
pub struct ProjectSeen {
    pub entry: ProjectEntry,
    /// Whether the directory of its source is there.
    pub source_exists: bool,
    pub config: ConfigRead,
    pub tasks: TasksRead,
}

/// The contents of a `ProjectSeen`.
#[verifier::ext_equal]
pub struct ProjectSeenView {
    pub entry: ProjectEntryView,
    pub source_exists: bool,
    pub config: ConfigReadView,
    pub tasks: TasksReadView,
}

impl View for ProjectSeen {
    type V = ProjectSeenView;

    open spec fn view(&self) -> ProjectSeenView {
        ProjectSeenView {
            entry: self.entry@,
            source_exists: self.source_exists,
            config: self.config@,
            tasks: self.tasks@,
        }
    }
}

impl DeepView for ProjectSeen {
    type V = ProjectSeenView;

    open spec fn deep_view(&self) -> ProjectSeenView {
        self@
    }
}

impl Duplicate for ProjectSeen {
    fn duplicate(&self) -> (r: Self) {
        ProjectSeen {
            entry: self.entry.duplicate(),
            source_exists: self.source_exists,
            config: self.config.duplicate(),
            tasks: self.tasks.duplicate(),
        }
    }
}

impl Clone for ProjectSeen {
    fn clone(&self) -> (r: Self)
        ensures
            r@ == self@,
    {
        self.duplicate()
    }
}


/// The task of a project that is worked on.
#[derive(Debug, PartialEq, Eq)]
pub struct ActiveTask {
    pub id: String,
    pub phase: String,
}

/// The contents of a `ActiveTask`.
#[verifier::ext_equal]
pub struct ActiveTaskView {
    pub id: Seq<char>,
    pub phase: Seq<char>,
}

impl View for ActiveTask {
    type V = ActiveTaskView;

    open spec fn view(&self) -> ActiveTaskView {
        ActiveTaskView {
            id: self.id@,
            phase: self.phase@,
        }
    }
}

impl DeepView for ActiveTask {
    type V = ActiveTaskView;

    open spec fn deep_view(&self) -> ActiveTaskView {
        self@
    }
}

impl Duplicate for ActiveTask {
    fn duplicate(&self) -> (r: Self) {
        ActiveTask {
            id: self.id.duplicate(),
            phase: self.phase.duplicate(),
        }
    }
}

impl Clone for ActiveTask {
    fn clone(&self) -> (r: Self)
        ensures
            r@ == self@,
    {
        self.duplicate()
    }
}


/// How many tasks a project has.
#[derive(Debug, PartialEq, Eq)]
pub struct TaskCounts {
    pub total: usize,
    pub done: usize,
    pub blocked: usize,
    pub failed: usize,
}

/// The contents of a `TaskCounts`.
#[verifier::ext_equal]
pub struct TaskCountsView {
    pub total: usize,
    pub done: usize,
    pub blocked: usize,
    pub failed: usize,
}

impl View for TaskCounts {
    type V = TaskCountsView;

    open spec fn view(&self) -> TaskCountsView {
        TaskCountsView {
            total: self.total,
            done: self.done,
            blocked: self.blocked,
            failed: self.failed,
        }
    }
}

impl DeepView for TaskCounts {
    type V = TaskCountsView;

    open spec fn deep_view(&self) -> TaskCountsView {
        self@
    }
}

impl Duplicate for TaskCounts {
    fn duplicate(&self) -> (r: Self) {
        TaskCounts {
            total: self.total,
            done: self.done,
            blocked: self.blocked,
            failed: self.failed,
        }
    }
}

impl Clone for TaskCounts {
    fn clone(&self) -> (r: Self)
        ensures
            r@ == self@,
    {
        self.duplicate()
    }
}


/// A project as it is listed.
#[derive(Debug, PartialEq, Eq)]
pub struct ProjectListRow {
    pub slug: String,
    pub source_path: Option<String>,
    pub state_dir: String,
    /// How many tasks it has, where they can be read.
    pub counts: Option<TaskCounts>,
    pub active: Option<ActiveTask>,
    /// Whether the directory of its source is gone.
    pub stale: bool,
    /// Whether nothing is left to be done.
    pub fully_done: bool,
}

/// The contents of a `ProjectListRow`.
#[verifier::ext_equal]
pub struct ProjectListRowView {
    pub slug: Seq<char>,
    pub source_path: Option<Seq<char>>,
    pub state_dir: Seq<char>,
    pub counts: Option<TaskCountsView>,
    pub active: Option<ActiveTaskView>,
    pub stale: bool,
    pub fully_done: bool,
}

impl View for ProjectListRow {
    type V = ProjectListRowView;

    open spec fn view(&self) -> ProjectListRowView {
        ProjectListRowView {
            slug: self.slug@,
            source_path: self.source_path.deep_view(),
            state_dir: self.state_dir@,
            counts: self.counts.deep_view(),
            active: self.active.deep_view(),
            stale: self.stale,
            fully_done: self.fully_done,
        }
    }
}

impl DeepView for ProjectListRow {
    type V = ProjectListRowView;

    open spec fn deep_view(&self) -> ProjectListRowView {
        self@
    }
}

impl Duplicate for ProjectListRow {
    fn duplicate(&self) -> (r: Self) {
        ProjectListRow {
            slug: self.slug.duplicate(),
            source_path: self.source_path.duplicate(),
            state_dir: self.state_dir.duplicate(),
            counts: self.counts.duplicate(),
            active: self.active.duplicate(),
            stale: self.stale,
            fully_done: self.fully_done,
        }
    }
}

impl Clone for ProjectListRow {
    fn clone(&self) -> (r: Self)
        ensures
            r@ == self@,
    {
        self.duplicate()
    }
}


/// A project as it stands in a document.
#[derive(Debug, PartialEq, Eq)]
pub struct ProjectListJsonRow {
    pub slug: String,
    pub source_path: Option<String>,
    pub state_dir: String,
    pub total: Option<usize>,
    pub done: Option<usize>,
    pub blocked: Option<usize>,
    pub failed: Option<usize>,
    pub active: Option<ActiveTask>,
    pub stale: bool,
    pub error: Option<String>,
}

/// The contents of a `ProjectListJsonRow`.
#[verifier::ext_equal]
pub struct ProjectListJsonRowView {
    pub slug: Seq<char>,
    pub source_path: Option<Seq<char>>,
    pub state_dir: Seq<char>,
    pub total: Option<usize>,
    pub done: Option<usize>,
    pub blocked: Option<usize>,
    pub failed: Option<usize>,
    pub active: Option<ActiveTaskView>,
    pub stale: bool,
    pub error: Option<Seq<char>>,
}

impl View for ProjectListJsonRow {
    type V = ProjectListJsonRowView;

    open spec fn view(&self) -> ProjectListJsonRowView {
        ProjectListJsonRowView {
            slug: self.slug@,
            source_path: self.source_path.deep_view(),
            state_dir: self.state_dir@,
            total: self.total.deep_view(),
            done: self.done.deep_view(),
            blocked: self.blocked.deep_view(),
            failed: self.failed.deep_view(),
            active: self.active.deep_view(),
            stale: self.stale,
            error: self.error.deep_view(),
        }
    }
}

impl DeepView for ProjectListJsonRow {
    type V = ProjectListJsonRowView;

    open spec fn deep_view(&self) -> ProjectListJsonRowView {
        self@
    }
}

impl Duplicate for ProjectListJsonRow {
    fn duplicate(&self) -> (r: Self) {
        ProjectListJsonRow {
            slug: self.slug.duplicate(),
            source_path: self.source_path.duplicate(),
            state_dir: self.state_dir.duplicate(),
            total: self.total.duplicate(),
            done: self.done.duplicate(),
            blocked: self.blocked.duplicate(),
            failed: self.failed.duplicate(),
            active: self.active.duplicate(),
            stale: self.stale,
            error: self.error.duplicate(),
        }
    }
}

impl Clone for ProjectListJsonRow {
    fn clone(&self) -> (r: Self)
        ensures
            r@ == self@,
    {
        self.duplicate()
    }
}


/// A list of projects.
#[derive(Debug, PartialEq, Eq)]
pub enum ProjectListOutput {
    Text { text: String },
    /// Rows to show as a document.
    Rows { rows: Vec<ProjectListJsonRow> },
}

/// The contents of a `ProjectListOutput`.
#[verifier::ext_equal]
pub enum ProjectListOutputView {
    Text { text: Seq<char> },
    Rows { rows: Seq<ProjectListJsonRowView> },
}

impl View for ProjectListOutput {
    type V = ProjectListOutputView;

    open spec fn view(&self) -> ProjectListOutputView {
        match self {
            ProjectListOutput::Text { text } => ProjectListOutputView::Text { text: text@ },
            ProjectListOutput::Rows { rows } => ProjectListOutputView::Rows { rows: rows.deep_view() },
        }
    }
}

impl DeepView for ProjectListOutput {
    type V = ProjectListOutputView;

    open spec fn deep_view(&self) -> ProjectListOutputView {
        self@
    }
}

impl Duplicate for ProjectListOutput {
    fn duplicate(&self) -> (r: Self) {
        match self {
            ProjectListOutput::Text { text } => ProjectListOutput::Text { text: text.duplicate() },
            ProjectListOutput::Rows { rows } => ProjectListOutput::Rows { rows: rows.duplicate() },
        }
    }
}

impl Clone for ProjectListOutput {
    fn clone(&self) -> (r: Self)
        ensures
            r@ == self@,
    {
        self.duplicate()
    }
}


// ---------------------------------------------------------------------------------------------
// Which projects there are
// ---------------------------------------------------------------------------------------------

/// The directory of all projects of a user, given the variable that names the home directory.
pub fn agira_root_from_home(home: Option<&str>) -> (r: Result<String, ProjectListError>)
    ensures
        outcome(r) == if home is Some && home->0@.len() > 0 {
            Ok(path_join(home->0@, ".agira"@))
        } else {
            Err(ProjectListErrorView::HomeDirectoryMissing)
        },
{
    match home {
        Some(directory) => if directory.unicode_len() > 0 {
            return Ok(join_path(directory, ".agira"));
        },
        None => {},
    }
    Err(ProjectListError::HomeDirectoryMissing)
}

/// A text without line feeds at its end.
pub open spec fn without_line_feeds(s: Seq<char>) -> Seq<char>
    decreases s.len(),
{
    if s.len() > 0 && s.last() == '\n' {
        without_line_feeds(s.drop_last())
    } else {
        s
    }
}

fn cut_line_feeds(s: &str) -> (r: &str)
    ensures
        r@ == without_line_feeds(s@),
{
    let x: Vec<char> = to_chars(s);
    let mut n: usize = x.len();
    assert(s@.take(n as int) =~= s@);
    while n > 0 && x[n - 1] == '\n'
        invariant
            n <= x.len(),
            x@ == s@,
            without_line_feeds(s@.take(n as int)) == without_line_feeds(s@),
        decreases n,
    {
        assert(s@.take(n as int).drop_last() =~= s@.take(n - 1));
        assert(s@.take(n as int).last() == x@[n - 1]);
        n = n - 1;
    }
    if n > 0 {
        assert(s@.take(n as int).last() == x@[n - 1]);
    }
    let r = s.substring_char(0, n);
    assert(r@ =~= s@.take(n as int));
    r
}

/// The directory of the source that a text names.
pub open spec fn source_in(text: Option<Seq<char>>) -> Option<Seq<char>> {
    match text {
        Some(s) => if without_line_feeds(s).len() == 0 {
            None
        } else {
            Some(without_line_feeds(s))
        },
        None => None,
    }
}

/// The directory of the source that a text names.
pub fn read_source_path(text: &Option<String>) -> (r: Option<String>)
    ensures
        r.deep_view() == source_in(text.deep_view()),
{
    match text {
        Some(s) => {
            let path = cut_line_feeds(s.as_str());
            if path.unicode_len() == 0 {
                None
            } else {
                Some(path.to_owned())
            }
        },
        None => None,
    }
}

/// The projects among the first things that were found, or the first failure.
pub open spec fn projects_among(entries: Seq<EntrySeenView>) -> Result<
    Seq<ProjectEntryView>,
    ProjectListErrorView,
>
    decreases entries.len(),
{
    if entries.len() == 0 {
        Ok(Seq::empty())
    } else {
        match projects_among(entries.drop_last()) {
            Err(e) => Err(e),
            Ok(rest) => match entries.last() {
                EntrySeenView::Failed { path, message } => Err(
                    ProjectListErrorView::Read { path, message },
                ),
                EntrySeenView::Found { name, path, directory, has_config, source_text } => if directory
                    && has_config {
                    Ok(
                        rest.push(
                            ProjectEntryView {
                                name,
                                state_dir: path,
                                source_path: source_in(source_text),
                            },
                        ),
                    )
                } else {
                    Ok(rest)
                },
            },
        }
    }
}

/// Projects by their names.
pub struct ByName;

impl StableOrder<ProjectEntry> for ByName {
    open spec fn precedes(a: ProjectEntryView, b: ProjectEntryView) -> bool {
        lex_lt(a.name, b.name)
    }

    fn check(a: &ProjectEntry, b: &ProjectEntry) -> (r: bool) {
        str_lt(a.name.as_str(), b.name.as_str())
    }
}

/// The projects that were set up, by their names.
pub open spec fn projects_found(root: Seq<char>, seen: RootSeenView) -> Result<
    Seq<ProjectEntryView>,
    ProjectListErrorView,
> {
    match seen {
        RootSeenView::Missing => Ok(Seq::empty()),
        RootSeenView::Failed { message } => Err(ProjectListErrorView::Read { path: root, message }),
        RootSeenView::Entries { entries } => match projects_among(entries) {
            Err(e) => Err(e),
            Ok(found) => Ok(sorted_by(found, order_of::<ProjectEntry, ByName>())),
        },
    }
}

proof fn lemma_failure_stays(entries: Seq<EntrySeenView>, n: int)
    requires
        0 <= n <= entries.len(),
        projects_among(entries.take(n)) is Err,
    ensures
        projects_among(entries) == projects_among(entries.take(n)),
    decreases entries.len(),
{
    if n < entries.len() {
        assert(entries.drop_last().take(n) =~= entries.take(n));
        lemma_failure_stays(entries.drop_last(), n);
    } else {
        assert(entries.take(n) =~= entries);
    }
}

/// The projects that were set up, by their names.
pub fn list_initialized_projects(agira_root: &str, seen: &RootSeen) -> (r: Result<
    Vec<ProjectEntry>,
    ProjectListError,
>)
    ensures
        outcome(r) == projects_found(agira_root@, seen@),
{
    let entries = match seen {
        RootSeen::Missing => {
            let none: Vec<ProjectEntry> = Vec::new();
            assert(none.deep_view() =~= Seq::<ProjectEntryView>::empty());
            return Ok(none);
        },
        RootSeen::Failed { message } => {
            return Err(
                ProjectListError::Read { path: agira_root.to_owned(), message: message.clone() },
            );
        },
        RootSeen::Entries { entries } => entries,
    };
    let ghost all = entries.deep_view();
    let mut found: Vec<ProjectEntry> = Vec::new();
    let mut i: usize = 0;
    assert(all.take(0) =~= Seq::<EntrySeenView>::empty());
    assert(found.deep_view() =~= Seq::<ProjectEntryView>::empty());
    while i < entries.len()
        invariant
            i <= entries.len(),
            all == entries.deep_view(),
            seen@ == (RootSeenView::Entries { entries: all }),
            projects_among(all.take(i as int)) == Ok::<
                Seq<ProjectEntryView>,
                ProjectListErrorView,
            >(found.deep_view()),
        decreases entries.len() - i,
    {
        assert(all.take(i + 1).drop_last() =~= all.take(i as int));
        assert(all.take(i + 1).last() == entries@[i as int]@);
        let ghost before = found.deep_view();
        match &entries[i] {
            EntrySeen::Failed { path, message } => {
                proof {
                    lemma_failure_stays(all, i + 1);
                }
                return Err(
                    ProjectListError::Read { path: path.clone(), message: message.clone() },
                );
            },
            EntrySeen::Found { name, path, directory, has_config, source_text } => {
                if *directory && *has_config {
                    let entry = ProjectEntry {
                        name: name.clone(),
                        state_dir: path.clone(),
                        source_path: read_source_path(source_text),
                    };
                    let ghost e = entry@;
                    found.push(entry);
                    assert(found.deep_view() =~= before.push(e));
                }
            },
        }
        i = i + 1;
    }
    assert(all.take(i as int) =~= all);
    Ok(stable_sort::<ProjectEntry, ByName>(found.as_slice()))
}

// ---------------------------------------------------------------------------------------------
// What is known about a project
// ---------------------------------------------------------------------------------------------

/// Tasks in a state.
pub struct InState;

impl Choice<Task, String> for InState {
    open spec fn holds(t: TaskView, state: Seq<char>) -> bool {
        t.state == state
    }

    fn check(task: &Task, state: &String) -> (r: bool) {
        str_eq(task.state.as_str(), state.as_str())
    }
}

/// The number of tasks in a state.
pub open spec fn count_in(tasks: Seq<TaskView>, state: Seq<char>) -> nat {
    keep(tasks, choice::<Task, String, InState>(state)).len()
}

fn count_tasks(tasks: &[Task], state: &str) -> (r: usize)
    ensures
        r == count_in(tasks.deep_view(), state@),
{
    let found = keep_chosen::<Task, String, InState>(tasks, &state.to_owned());
    assert(found.deep_view().len() == found.len());
    found.len()
}

/// The configuration of a project that has none that can be used.
pub open spec fn fallback_config() -> ConfigView {
    single_workflow("unknown"@, Seq::empty(), 3)
}

/// The configuration of a project that has none that can be used.
pub fn fallback_project_config() -> (r: Config)
    ensures
        r@ == fallback_config(),
{
    let none: Vec<(String, PhaseDef)> = Vec::new();
    assert(none.deep_view() =~= Seq::<(Seq<char>, PhaseDefView)>::empty());
    Config::new_single_workflow("unknown", none, 3)
}

/// The configuration of a project.
pub open spec fn config_of(seen: ProjectSeenView) -> ConfigView {
    match loaded_config(path_join(seen.entry.state_dir, "config.json"@), seen.config, 3) {
        Ok(config) => config,
        Err(_) => fallback_config(),
    }
}

fn project_config_of(seen: &ProjectSeen) -> (r: Config)
    ensures
        r@ == config_of(seen@),
{
    let path = join_path(seen.entry.state_dir.as_str(), "config.json");
    match load_project_config(path.as_str(), seen.config.duplicate(), &GlobalConfig::for_program("")) {
        Ok(config) => config,
        Err(_) => fallback_project_config(),
    }
}

/// The tasks of a project; nothing where they cannot be read.
pub fn read_project_tasks(state_dir: &str, read: &TasksRead, config: &Config) -> (r: Option<Vec<Task>>)
    ensures
        r.deep_view() == match opened(state_dir@, read@, config@) {
            Ok(s) => Some(s.tasks),
            Err(_) => None,
        },
{
    match TaskStore::new(state_dir, read.duplicate(), config) {
        Ok(store) => Some(crate::duplicate::copy_slice(store.all_tasks())),
        Err(_) => None,
    }
}

/// Tasks that are neither done nor given up.
pub open spec fn still_open(terminal: Seq<char>) -> spec_fn(TaskView) -> bool {
    |t: TaskView| t.state != terminal && t.state != FAILED_STATE@
}

/// The task of a project that is worked on: the next one, or else the first that is still open.
pub open spec fn active_task(tasks: Seq<TaskView>, config: ConfigView, terminal: Seq<char>, now: Instant) -> Option<
    ActiveTaskView,
> {
    let task = match chosen(tasks, config, None, now) {
        Some(t) => Some(t),
        None => match first_where(tasks, still_open(terminal)) {
            Some(i) => Some(tasks[i]),
            None => None,
        },
    };
    match task {
        Some(t) => Some(ActiveTaskView { id: t.id, phase: t.state }),
        None => None,
    }
}

/// The task of a project that is worked on.
pub fn select_active_task(tasks: &[Task], config: &Config, terminal_phase: &str, now: Instant) -> (r:
    Option<ActiveTask>)
    ensures
        r.deep_view() == active_task(tasks.deep_view(), config@, terminal_phase@, now),
{
    match select_next_task_at(tasks, config, now) {
        Some(task) => {
            return Some(ActiveTask { id: task.id.clone(), phase: task.state.clone() });
        },
        None => {},
    }
    let ghost all = tasks.deep_view();
    let ghost p = still_open(terminal_phase@);
    let mut i: usize = 0;
    while i < tasks.len()
        invariant
            i <= tasks.len(),
            all == tasks.deep_view(),
            p == still_open(terminal_phase@),
            chosen(all, config@, None, now) is None,
            forall|j: int| 0 <= j < i ==> !p(#[trigger] all[j]),
        decreases tasks.len() - i,
    {
        let task = &tasks[i];
        assert(all[i as int] == task@);
        if !str_eq(task.state.as_str(), terminal_phase) && !str_eq(task.state.as_str(), FAILED_STATE) {
            proof {
                assert(is_first(all, p, i as int));
                lemma_first_is(all, p, i as int);
            }
            return Some(ActiveTask { id: task.id.clone(), phase: task.state.clone() });
        }
        i = i + 1;
    }
    proof {
        lemma_first_none(all, p);
    }
    None
}

/// A project as it is listed.
pub open spec fn project_row(seen: ProjectSeenView, now: Instant) -> ProjectListRowView {
    let config = config_of(seen);
    let terminal = match config.terminal() {
        Some(p) => p,
        None => TERMINAL_PHASE_NAME@,
    };
    let nothing = ProjectListRowView {
        slug: seen.entry.name,
        source_path: seen.entry.source_path,
        state_dir: seen.entry.state_dir,
        counts: None,
        active: None,
        stale: seen.entry.source_path is Some && !seen.source_exists,
        fully_done: false,
    };
    match opened(seen.entry.state_dir, seen.tasks, config) {
        Err(_) => nothing,
        Ok(s) => ProjectListRowView {
            counts: Some(
                TaskCountsView {
                    total: s.tasks.len() as usize,
                    done: count_in(s.tasks, terminal) as usize,
                    blocked: count_in(s.tasks, BLOCKED_STATE@) as usize,
                    failed: count_in(s.tasks, FAILED_STATE@) as usize,
                },
            ),
            active: active_task(s.tasks, config, terminal, now),
            fully_done: count_in(s.tasks, terminal) == s.tasks.len(),
            ..nothing
        },
    }
}

/// A project as it is listed.
pub fn collect_project_row(seen: &ProjectSeen, now: Instant) -> (r: ProjectListRow)
    ensures
        r@ == project_row(seen@, now),
{
    let stale = seen.entry.source_path.is_some() && !seen.source_exists;
    let config = project_config_of(seen);
    let terminal = match config.terminal_phase() {
        Some(p) => p,
        None => TERMINAL_PHASE_NAME,
    };
    match read_project_tasks(seen.entry.state_dir.as_str(), &seen.tasks, &config) {
        None => ProjectListRow {
            slug: seen.entry.name.clone(),
            source_path: seen.entry.source_path.duplicate(),
            state_dir: seen.entry.state_dir.clone(),
            counts: None,
            active: None,
            stale,
            fully_done: false,
        },
        Some(tasks) => {
            assert(tasks.deep_view().len() == tasks.len());
            let done: usize = count_tasks(tasks.as_slice(), terminal);
            ProjectListRow {
                slug: seen.entry.name.clone(),
                source_path: seen.entry.source_path.duplicate(),
                state_dir: seen.entry.state_dir.clone(),
                counts: Some(
                    TaskCounts {
                        total: tasks.len(),
                        done,
                        blocked: count_tasks(tasks.as_slice(), BLOCKED_STATE),
                        failed: count_tasks(tasks.as_slice(), FAILED_STATE),
                    },
                ),
                active: select_active_task(tasks.as_slice(), &config, terminal, now),
                stale,
                fully_done: done == tasks.len(),
            }
        },
    }
}

/// Projects in which something is left to be done in front of the others, and by their names.
pub struct OpenFirst;

impl StableOrder<ProjectListRow> for OpenFirst {
    open spec fn precedes(a: ProjectListRowView, b: ProjectListRowView) -> bool {
        if a.fully_done == b.fully_done {
            lex_lt(a.slug, b.slug)
        } else {
            b.fully_done
        }
    }

    fn check(a: &ProjectListRow, b: &ProjectListRow) -> (r: bool) {
        if a.fully_done == b.fully_done {
            str_lt(a.slug.as_str(), b.slug.as_str())
        } else {
            b.fully_done
        }
    }
}

/// Projects as they are listed, each in its place.
pub open spec fn project_rows(projects: Seq<ProjectSeenView>, now: Instant) -> Seq<ProjectListRowView> {
    sorted_by(
        projects.map_values(|p: ProjectSeenView| project_row(p, now)),
        order_of::<ProjectListRow, OpenFirst>(),
    )
}

/// Projects as they are listed, each in its place.
pub fn collect_project_rows(projects: &[ProjectSeen], now: Instant) -> (r: Vec<ProjectListRow>)
    ensures
        r.deep_view() == project_rows(projects.deep_view(), now),
{
    let ghost all = projects.deep_view().map_values(|p: ProjectSeenView| project_row(p, now));
    let mut rows: Vec<ProjectListRow> = Vec::new();
    let mut i: usize = 0;
    assert(rows.deep_view() =~= all.take(0));
    while i < projects.len()
        invariant
            i <= projects.len(),
            all == projects.deep_view().map_values(|p: ProjectSeenView| project_row(p, now)),
            rows.deep_view() == all.take(i as int),
        decreases projects.len() - i,
    {
        let ghost before = rows.deep_view();
        assert(projects.deep_view()[i as int] == projects@[i as int]@);
        rows.push(collect_project_row(&projects[i], now));
        assert(rows.deep_view() =~= before.push(all[i as int]));
        assert(all.take(i + 1) =~= all.take(i as int).push(all[i as int]));
        i = i + 1;
    }
    assert(all.take(i as int) =~= all);
    stable_sort::<ProjectListRow, OpenFirst>(rows.as_slice())
}

// ---------------------------------------------------------------------------------------------
// The table
// ---------------------------------------------------------------------------------------------

/// The directory that is shown for a project.
pub open spec fn shown_path(row: ProjectListRowView, show_stale: bool) -> Seq<char> {
    let path = text_or(row.source_path, row.state_dir);
    if show_stale && row.stale {
        path + " (missing)"@
    } else {
        path
    }
}

/// The directory that is shown for a project.
pub fn format_display_path(row: &ProjectListRow, show_stale: bool) -> (r: String)
    ensures
        r@ == shown_path(row@, show_stale),
{
    let mut path = text_or_str(&row.source_path, row.state_dir.as_str()).to_owned();
    if show_stale && row.stale {
        path.push_str(" (missing)");
    }
    path
}

/// The columns of the table.
pub open spec fn project_columns(
    name: Seq<char>,
    path: Seq<char>,
    progress: Seq<char>,
    active: Seq<char>,
    blocked: Seq<char>,
    failed: Seq<char>,
) -> Seq<char> {
    padded(name, 18) + "  "@ + padded(path, 42) + "  "@ + padded(progress, 12) + "  "@ + padded(
        active,
        24,
    ) + "  "@ + padded_left(blocked, 7) + "  "@ + padded_left(failed, 6)
}

fn write_columns(name: &str, path: &str, progress: &str, active: &str, blocked: &str, failed: &str) -> (r:
    String)
    ensures
        r@ == project_columns(name@, path@, progress@, active@, blocked@, failed@),
{
    let mut out = pad(name, 18);
    out.push_str("  ");
    out.push_str(pad(path, 42).as_str());
    out.push_str("  ");
    out.push_str(pad(progress, 12).as_str());
    out.push_str("  ");
    out.push_str(pad(active, 24).as_str());
    out.push_str("  ");
    out.push_str(pad_left(blocked, 7).as_str());
    out.push_str("  ");
    out.push_str(pad_left(failed, 6).as_str());
    out
}

/// A project as a row of the table.
pub open spec fn project_line(row: ProjectListRowView, show_stale: bool) -> Seq<char> {
    let path = shown_path(row, show_stale);
    match row.counts {
        None => padded(row.slug, 18) + "  "@ + padded(path, 42) + "  "@
            + "error: invalid tasks.json"@,
        Some(n) => project_columns(
            row.slug,
            path,
            decimal(n.done as nat) + "/"@ + decimal(n.total as nat),
            match row.active {
                Some(task) => task.id + " ("@ + task.phase + ")"@,
                None => "-"@,
            },
            decimal(n.blocked as nat),
            decimal(n.failed as nat),
        ),
    }
}

/// A project as a row of the table.
pub fn format_project_row(row: &ProjectListRow, show_stale: bool) -> (r: String)
    ensures
        r@ == project_line(row@, show_stale),
{
    let path = format_display_path(row, show_stale);
    let counts = match &row.counts {
        None => {
            let mut out = pad(row.slug.as_str(), 18);
            out.push_str("  ");
            out.push_str(pad(path.as_str(), 42).as_str());
            out.push_str("  ");
            out.push_str("error: invalid tasks.json");
            return out;
        },
        Some(n) => n,
    };
    let mut progress = follow(decimal_str(counts.done as u64).as_str(), "/");
    progress.push_str(decimal_str(counts.total as u64).as_str());
    let active = match &row.active {
        Some(task) => {
            let mut text = follow(task.id.as_str(), " (");
            text.push_str(task.phase.as_str());
            text.push_str(")");
            text
        },
        None => "-".to_owned(),
    };
    write_columns(
        row.slug.as_str(),
        path.as_str(),
        progress.as_str(),
        active.as_str(),
        decimal_str(counts.blocked as u64).as_str(),
        decimal_str(counts.failed as u64).as_str(),
    )
}

/// Projects that are shown.
pub struct IsShown;

impl Choice<ProjectListRow, bool> for IsShown {
    open spec fn holds(row: ProjectListRowView, show_stale: bool) -> bool {
        show_stale || !row.stale
    }

    fn check(row: &ProjectListRow, show_stale: &bool) -> (r: bool) {
        *show_stale || !row.stale
    }
}

/// Projects whose source is gone.
pub struct IsStale;

impl Choice<ProjectListRow, ()> for IsStale {
    open spec fn holds(row: ProjectListRowView, context: ()) -> bool {
        row.stale
    }

    fn check(row: &ProjectListRow, context: &()) -> (r: bool) {
        row.stale
    }
}

/// How a project is written in the table.
pub struct ProjectLine;

impl RowWriter<ProjectListRow, bool> for ProjectLine {
    open spec fn row(row: ProjectListRowView, show_stale: bool) -> Seq<char> {
        project_line(row, show_stale)
    }

    fn write(row: &ProjectListRow, show_stale: &bool) -> (r: String) {
        format_project_row(row, *show_stale)
    }
}

/// The head of the table.
pub open spec fn table_head() -> Seq<Seq<char>> {
    seq![
        project_columns("PROJECT"@, "PATH"@, "PROGRESS"@, "ACTIVE"@, "BLOCKED"@, "FAILED"@),
        project_columns(
            repeated('-', 18),
            repeated('-', 42),
            repeated('-', 12),
            repeated('-', 24),
            repeated('-', 7),
            repeated('-', 6),
        ),
    ]
}

fn write_table_head() -> (r: Vec<String>)
    ensures
        r.deep_view() == table_head(),
{
    let r: Vec<String> = vec![
        write_columns("PROJECT", "PATH", "PROGRESS", "ACTIVE", "BLOCKED", "FAILED"),
        write_columns(
            repeat_char('-', 18).as_str(),
            repeat_char('-', 42).as_str(),
            repeat_char('-', 12).as_str(),
            repeat_char('-', 24).as_str(),
            repeat_char('-', 7).as_str(),
            repeat_char('-', 6).as_str(),
        ),
    ];
    assert(r.deep_view() =~= table_head());
    r
}

/// What is said about projects that are left out.
pub open spec fn hidden_note(count: nat) -> Seq<char> {
    decimal(count) + " stale "@ + if count == 1 {
        "project"@
    } else {
        "projects"@
    } + " hidden (use --stale to show)"@
}

/// The projects that are shown as lines.
pub open spec fn visible_text(rows: Seq<ProjectListRowView>, show_stale: bool) -> Seq<char> {
    let visible = keep(rows, choice::<ProjectListRow, bool, IsShown>(show_stale));
    if visible.len() == 0 {
        Seq::empty()
    } else {
        join(table_head() + rows_of::<ProjectListRow, bool, ProjectLine>(visible, show_stale), "\n"@)
    }
}

/// The table of some projects.
pub open spec fn project_table(rows: Seq<ProjectListRowView>, show_stale: bool) -> Seq<char> {
    let text = visible_text(rows, show_stale);
    let hidden = keep(rows, choice::<ProjectListRow, (), IsStale>(())).len();
    if show_stale || hidden == 0 {
        text
    } else if text.len() == 0 {
        hidden_note(hidden)
    } else {
        text + "\n"@ + hidden_note(hidden)
    }
}

fn write_visible(rows: &[ProjectListRow], show_stale: bool) -> (r: String)
    ensures
        r@ == visible_text(rows.deep_view(), show_stale),
{
    let visible = keep_chosen::<ProjectListRow, bool, IsShown>(rows, &show_stale);
    assert(visible.deep_view().len() == visible.len());
    if visible.len() == 0 {
        return String::new();
    }
    let mut lines = write_table_head();
    let mut more = write_rows::<ProjectListRow, bool, ProjectLine>(visible.as_slice(), &show_stale);
    let ghost a = lines.deep_view();
    let ghost b = more.deep_view();
    lines.append(&mut more);
    assert(lines.deep_view() =~= a + b);
    join_strs(&lines, "\n")
}

/// The table of some projects.
pub fn format_project_list_table(rows: &[ProjectListRow], show_stale: bool) -> (r: String)
    ensures
        r@ == project_table(rows.deep_view(), show_stale),
{
    let mut output = write_visible(rows, show_stale);
    let stale = keep_chosen::<ProjectListRow, (), IsStale>(rows, &());
    assert(stale.deep_view().len() == stale.len());
    let hidden: usize = stale.len();
    if show_stale || hidden == 0 {
        return output;
    }
    let mut note = follow(decimal_str(hidden as u64).as_str(), " stale ");
    note.push_str(
        if hidden == 1 {
            "project"
        } else {
            "projects"
        },
    );
    note.push_str(" hidden (use --stale to show)");
    if output.as_str().unicode_len() == 0 {
        return note;
    }
    output.push_str("\n");
    output.push_str(note.as_str());
    output
}

/// A project as it stands in a document.
pub open spec fn json_row(row: ProjectListRowView) -> ProjectListJsonRowView {
    let nothing = ProjectListJsonRowView {
        slug: row.slug,
        source_path: row.source_path,
        state_dir: row.state_dir,
        total: None,
        done: None,
        blocked: None,
        failed: None,
        active: row.active,
        stale: row.stale,
        error: Some(INVALID_TASKS_JSON@),
    };
    match row.counts {
        None => nothing,
        Some(n) => ProjectListJsonRowView {
            total: Some(n.total),
            done: Some(n.done),
            blocked: Some(n.blocked),
            failed: Some(n.failed),
            error: None,
            ..nothing
        },
    }
}

fn make_json_row(row: &ProjectListRow) -> (r: ProjectListJsonRow)
    ensures
        r@ == json_row(row@),
{
    let mut out = ProjectListJsonRow {
        slug: row.slug.clone(),
        source_path: row.source_path.duplicate(),
        state_dir: row.state_dir.clone(),
        total: None,
        done: None,
        blocked: None,
        failed: None,
        active: row.active.duplicate(),
        stale: row.stale,
        error: None,
    };
    match &row.counts {
        None => {
            out.error = Some(INVALID_TASKS_JSON.to_owned());
        },
        Some(n) => {
            out.total = Some(n.total);
            out.done = Some(n.done);
            out.blocked = Some(n.blocked);
            out.failed = Some(n.failed);
        },
    }
    out
}

/// Projects as they stand in a document.
pub fn format_project_list_json(rows: &[ProjectListRow]) -> (r: Vec<ProjectListJsonRow>)
    ensures
        r.deep_view() == rows.deep_view().map_values(|row: ProjectListRowView| json_row(row)),
{
    let ghost all = rows.deep_view().map_values(|row: ProjectListRowView| json_row(row));
    let mut out: Vec<ProjectListJsonRow> = Vec::new();
    let mut i: usize = 0;
    assert(out.deep_view() =~= all.take(0));
    while i < rows.len()
        invariant
            i <= rows.len(),
            all == rows.deep_view().map_values(|row: ProjectListRowView| json_row(row)),
            out.deep_view() == all.take(i as int),
        decreases rows.len() - i,
    {
        let ghost before = out.deep_view();
        assert(rows.deep_view()[i as int] == rows@[i as int]@);
        out.push(make_json_row(&rows[i]));
        assert(out.deep_view() =~= before.push(all[i as int]));
        assert(all.take(i + 1) =~= all.take(i as int).push(all[i as int]));
        i = i + 1;
    }
    assert(all.take(i as int) =~= all);
    out
}

/// The list of some projects.
pub open spec fn project_list(projects: Seq<ProjectSeenView>, json: bool, show_stale: bool, now: Instant) -> ProjectListOutputView {
    let rows = project_rows(projects, now);
    if json {
        ProjectListOutputView::Rows {
            rows: rows.map_values(|row: ProjectListRowView| json_row(row)),
        }
    } else {
        ProjectListOutputView::Text { text: project_table(rows, show_stale) }
    }
}

/// The list of some projects at a point in time.
pub fn format_project_list_output(projects: &[ProjectSeen], json: bool, show_stale: bool, now: Instant) -> (r:
    ProjectListOutput)
    ensures
        r@ == project_list(projects.deep_view(), json, show_stale, now),
{
    let rows = collect_project_rows(projects, now);
    if json {
        ProjectListOutput::Rows { rows: format_project_list_json(rows.as_slice()) }
    } else {
        ProjectListOutput::Text { text: format_project_list_table(rows.as_slice(), show_stale) }
    }
}

/// The list of some projects.
pub fn run_project_list(projects: &[ProjectSeen], json: bool, stale: bool) -> (r: ProjectListOutput)
    ensures
        exists|now: Instant|
            now.on_calendar() && r@ == #[trigger] project_list(
                projects.deep_view(),
                json,
                stale,
                now,
            ),
{
    format_project_list_output(projects, json, stale, Instant::now())
}

// ---------------------------------------------------------------------------------------------
// Laws
// ---------------------------------------------------------------------------------------------

/// Projects in which something is left to be done are listed in front of the others, and those of
/// each kind by their names.
pub proof fn law_open_projects_come_first(projects: Seq<ProjectSeenView>, now: Instant)
    ensures
        forall|i: int, j: int|
            0 <= i < j < project_rows(projects, now).len() ==> {
                let a = #[trigger] project_rows(projects, now)[i];
                let b = #[trigger] project_rows(projects, now)[j];
                &&& a.fully_done ==> b.fully_done
                &&& a.fully_done == b.fully_done ==> !lex_lt(b.slug, a.slug)
            },
{
    let rows = projects.map_values(|p: ProjectSeenView| project_row(p, now));
    let before = order_of::<ProjectListRow, OpenFirst>();
    assert forall|a: ProjectListRowView| !#[trigger] before(a, a) by {
        lemma_lex_irreflexive(a.slug);
    }
    assert forall|a: ProjectListRowView, b: ProjectListRowView, c: ProjectListRowView|
        #![trigger before(a, b), before(b, c)]
        before(a, b) && before(b, c) implies before(a, c) by {
        if lex_lt(a.slug, b.slug) && lex_lt(b.slug, c.slug) {
            lemma_lex_transitive(a.slug, b.slug, c.slug);
        }
    }
    assert forall|a: ProjectListRowView, b: ProjectListRowView, c: ProjectListRowView|
        #![trigger before(a, b), before(c, b)]
        before(a, b) && !before(c, b) implies before(a, c) by {
        if lex_lt(a.slug, b.slug) && !lex_lt(c.slug, b.slug) {
            lemma_lex_total(c.slug, b.slug);
            if lex_lt(b.slug, c.slug) {
                lemma_lex_transitive(a.slug, b.slug, c.slug);
            }
        }
    }
    law_sorting_orders(rows, before);
    let sorted = project_rows(projects, now);
    assert forall|i: int, j: int| 0 <= i < j < sorted.len() implies {
        let a = #[trigger] sorted[i];
        let b = #[trigger] sorted[j];
        &&& a.fully_done ==> b.fully_done
        &&& a.fully_done == b.fully_done ==> !lex_lt(b.slug, a.slug)
    } by {
        assert(!before(sorted[j], sorted[i]));
    }
}

} // verus!
