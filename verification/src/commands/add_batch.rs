//! Adding many tasks at once.

use vstd::prelude::*;

use crate::commands::add::{
    add_config_error, add_store_error, added_run, dispatch_task_added_hooks, first_with_title,
    has_title, inside_runner, map_add_config_error, map_add_store_error, numbers_left, AddError,
    AddErrorView,
};
use crate::commands::phase::own_text;
use crate::commands::report::{
    load_config, on_open, project_config, quiet, HookRun, HookRunView, ProjectFiles,
    ProjectFilesView, Report, ReportView,
};
use crate::commands::workflow::{between, put_between};
use crate::duplicate::{copy_slice, outcome, Duplicate};
use crate::engine::config::{Config, ConfigView};
use crate::engine::global_config::list_has;
use crate::engine::pick::as_str_opt;
use crate::engine::project::{Project, ProjectView};
use crate::engine::task_laws::law_id_has_its_number;
use crate::engine::tasks::{
    find_task, index_of_task, largest_number, largest_task_number, lemma_position, lemma_task_index,
    missing_dependency, numbered_id, opened, position_of, task_index, StoreError, StoreErrorView,
    Task, TaskStore, TaskStoreView, TaskView,
};
use crate::string_map::{has_key, put, StringMap};
use crate::text::{
    blank, decimal_padded_str, first_where, follow, join, join_strs, lowercase, opt_eq,
    to_lowercase,
};
use crate::text_set::{law_set_holds_the_texts, sort_texts, text_set};
use crate::time::{rfc3339_text, Instant};
use crate::topo::{
    dependency_order, law_full_order_holds_all, law_order_respects_needs, ready, sort_by_needs,
};

verus! {

/// Why tasks could not be added.
#[derive(Debug, PartialEq, Eq)]
pub enum AddBatchError {
    User { message: String },
    StdinRead { message: String },
    ManifestRead { path: String, message: String },
    ManifestParse { message: String },
    Add(AddError),
    Json { message: String },
}

/// The contents of a `AddBatchError`.
#[verifier::ext_equal]
pub enum AddBatchErrorView {
    User { message: Seq<char> },
    StdinRead { message: Seq<char> },
    ManifestRead { path: Seq<char>, message: Seq<char> },
    ManifestParse { message: Seq<char> },
    Add(AddErrorView),
    Json { message: Seq<char> },
}

impl View for AddBatchError {
    type V = AddBatchErrorView;

    open spec fn view(&self) -> AddBatchErrorView {
        match self {
            AddBatchError::User { message } => AddBatchErrorView::User { message: message@ },
            AddBatchError::StdinRead { message } => AddBatchErrorView::StdinRead { message: message@ },
            AddBatchError::ManifestRead { path, message } => AddBatchErrorView::ManifestRead { path: path@, message: message@ },
            AddBatchError::ManifestParse { message } => AddBatchErrorView::ManifestParse { message: message@ },
            AddBatchError::Add(inner) => AddBatchErrorView::Add(inner@),
            AddBatchError::Json { message } => AddBatchErrorView::Json { message: message@ },
        }
    }
}

impl DeepView for AddBatchError {
    type V = AddBatchErrorView;

    open spec fn deep_view(&self) -> AddBatchErrorView {
        self@
    }
}

impl Duplicate for AddBatchError {
    fn duplicate(&self) -> (r: Self) {
        match self {
            AddBatchError::User { message } => AddBatchError::User { message: message.duplicate() },
            AddBatchError::StdinRead { message } => AddBatchError::StdinRead { message: message.duplicate() },
            AddBatchError::ManifestRead { path, message } => AddBatchError::ManifestRead { path: path.duplicate(), message: message.duplicate() },
            AddBatchError::ManifestParse { message } => AddBatchError::ManifestParse { message: message.duplicate() },
            AddBatchError::Add(inner) => AddBatchError::Add(inner.duplicate()),
            AddBatchError::Json { message } => AddBatchError::Json { message: message.duplicate() },
        }
    }
}

impl Clone for AddBatchError {
    fn clone(&self) -> (r: Self)
        ensures
            r@ == self@,
    {
        self.duplicate()
    }
}

impl AddBatchErrorView {
    /// The text shown for the error.
    pub open spec fn message(self) -> Seq<char> {
        match self {
            AddBatchErrorView::User { message } => message,
            AddBatchErrorView::StdinRead { .. } => "failed to read manifest from stdin"@,
            AddBatchErrorView::ManifestRead { path, .. } => "failed to read manifest "@ + path,
            AddBatchErrorView::ManifestParse { message } => "failed to parse manifest: "@ + message,
            AddBatchErrorView::Add(inner) => inner.message(),
            AddBatchErrorView::Json { message } => message,
        }
    }
}

impl AddBatchError {
    /// The text shown for the error.
    pub fn message(&self) -> (r: String)
        ensures
            r@ == self@.message(),
    {
        match self {
            AddBatchError::User { message } => message.clone(),
            AddBatchError::StdinRead { .. } => "failed to read manifest from stdin".to_owned(),
            AddBatchError::ManifestRead { path, .. } => {
                let mut out = "failed to read manifest ".to_owned();
                out.push_str(path.as_str());
                out
            },
            AddBatchError::ManifestParse { message } => {
                let mut out = "failed to parse manifest: ".to_owned();
                out.push_str(message.as_str());
                out
            },
            AddBatchError::Add(inner) => inner.message(),
            AddBatchError::Json { message } => message.clone(),
        }
    }
}


/// How tasks are to be added.
#[derive(Debug, PartialEq, Eq)]
pub struct AddBatchOptions {
    pub file: Option<String>,
    pub stdin: bool,
    pub dry_run: bool,
    pub json: bool,
    pub workflow: Option<String>,
    pub phase: Option<String>,
}

/// The contents of a `AddBatchOptions`.
#[verifier::ext_equal]
pub struct AddBatchOptionsView {
    pub file: Option<Seq<char>>,
    pub stdin: bool,
    pub dry_run: bool,
    pub json: bool,
    pub workflow: Option<Seq<char>>,
    pub phase: Option<Seq<char>>,
}

impl View for AddBatchOptions {
    type V = AddBatchOptionsView;

    open spec fn view(&self) -> AddBatchOptionsView {
        AddBatchOptionsView {
            file: self.file.deep_view(),
            stdin: self.stdin,
            dry_run: self.dry_run,
            json: self.json,
            workflow: self.workflow.deep_view(),
            phase: self.phase.deep_view(),
        }
    }
}

impl DeepView for AddBatchOptions {
    type V = AddBatchOptionsView;

    open spec fn deep_view(&self) -> AddBatchOptionsView {
        self@
    }
}

impl Duplicate for AddBatchOptions {
    fn duplicate(&self) -> (r: Self) {
        AddBatchOptions {
            file: self.file.duplicate(),
            stdin: self.stdin,
            dry_run: self.dry_run,
            json: self.json,
            workflow: self.workflow.duplicate(),
            phase: self.phase.duplicate(),
        }
    }
}

impl Clone for AddBatchOptions {
    fn clone(&self) -> (r: Self)
        ensures
            r@ == self@,
    {
        self.duplicate()
    }
}


/// A task to add.
#[derive(Debug, PartialEq, Eq)]
pub struct ManifestTask {
    /// A name by which other tasks of the manifest can refer to it.
    pub id: Option<String>,
    pub title: String,
    pub description: String,
    pub depends_on: Vec<String>,
    pub phase: Option<String>,
    pub workflow: Option<String>,
}

/// The contents of a `ManifestTask`.
#[verifier::ext_equal]
pub struct ManifestTaskView {
    pub id: Option<Seq<char>>,
    pub title: Seq<char>,
    pub description: Seq<char>,
    pub depends_on: Seq<Seq<char>>,
    pub phase: Option<Seq<char>>,
    pub workflow: Option<Seq<char>>,
}

impl View for ManifestTask {
    type V = ManifestTaskView;

    open spec fn view(&self) -> ManifestTaskView {
        ManifestTaskView {
            id: self.id.deep_view(),
            title: self.title@,
            description: self.description@,
            depends_on: self.depends_on.deep_view(),
            phase: self.phase.deep_view(),
            workflow: self.workflow.deep_view(),
        }
    }
}

impl DeepView for ManifestTask {
    type V = ManifestTaskView;

    open spec fn deep_view(&self) -> ManifestTaskView {
        self@
    }
}

impl Duplicate for ManifestTask {
    fn duplicate(&self) -> (r: Self) {
        ManifestTask {
            id: self.id.duplicate(),
            title: self.title.duplicate(),
            description: self.description.duplicate(),
            depends_on: self.depends_on.duplicate(),
            phase: self.phase.duplicate(),
            workflow: self.workflow.duplicate(),
        }
    }
}

impl Clone for ManifestTask {
    fn clone(&self) -> (r: Self)
        ensures
            r@ == self@,
    {
        self.duplicate()
    }
}


/// What reading a manifest gave.
#[derive(Debug, PartialEq, Eq)]
pub enum ManifestSeen {
    /// The input could not be read.
    StdinFailed { message: String },
    /// The file could not be read.
    FileFailed { path: String, message: String },
    /// It holds no tasks.
    Malformed { message: String },
    /// The tasks that it holds.
    Parsed { tasks: Vec<ManifestTask> },
}

/// The contents of a `ManifestSeen`.
#[verifier::ext_equal]
pub enum ManifestSeenView {
    StdinFailed { message: Seq<char> },
    FileFailed { path: Seq<char>, message: Seq<char> },
    Malformed { message: Seq<char> },
    Parsed { tasks: Seq<ManifestTaskView> },
}

impl View for ManifestSeen {
    type V = ManifestSeenView;

    open spec fn view(&self) -> ManifestSeenView {
        match self {
            ManifestSeen::StdinFailed { message } => ManifestSeenView::StdinFailed { message: message@ },
            ManifestSeen::FileFailed { path, message } => ManifestSeenView::FileFailed { path: path@, message: message@ },
            ManifestSeen::Malformed { message } => ManifestSeenView::Malformed { message: message@ },
            ManifestSeen::Parsed { tasks } => ManifestSeenView::Parsed { tasks: tasks.deep_view() },
        }
    }
}

impl DeepView for ManifestSeen {
    type V = ManifestSeenView;

    open spec fn deep_view(&self) -> ManifestSeenView {
        self@
    }
}

impl Duplicate for ManifestSeen {
    fn duplicate(&self) -> (r: Self) {
        match self {
            ManifestSeen::StdinFailed { message } => ManifestSeen::StdinFailed { message: message.duplicate() },
            ManifestSeen::FileFailed { path, message } => ManifestSeen::FileFailed { path: path.duplicate(), message: message.duplicate() },
            ManifestSeen::Malformed { message } => ManifestSeen::Malformed { message: message.duplicate() },
            ManifestSeen::Parsed { tasks } => ManifestSeen::Parsed { tasks: tasks.duplicate() },
        }
    }
}

impl Clone for ManifestSeen {
    fn clone(&self) -> (r: Self)
        ensures
            r@ == self@,
    {
        self.duplicate()
    }
}


/// A task as it will be added.
#[derive(Debug, PartialEq, Eq)]
pub struct PlannedTask {
    /// Its position in the manifest.
    pub index: usize,
    pub real_id: String,
    pub resolved_dependencies: Vec<String>,
    pub workflow: String,
    pub phase: Option<String>,
}

/// The contents of a `PlannedTask`.
#[verifier::ext_equal]
pub struct PlannedTaskView {
    pub index: usize,
    pub real_id: Seq<char>,
    pub resolved_dependencies: Seq<Seq<char>>,
    pub workflow: Seq<char>,
    pub phase: Option<Seq<char>>,
}

impl View for PlannedTask {
    type V = PlannedTaskView;

    open spec fn view(&self) -> PlannedTaskView {
        PlannedTaskView {
            index: self.index,
            real_id: self.real_id@,
            resolved_dependencies: self.resolved_dependencies.deep_view(),
            workflow: self.workflow@,
            phase: self.phase.deep_view(),
        }
    }
}

impl DeepView for PlannedTask {
    type V = PlannedTaskView;

    open spec fn deep_view(&self) -> PlannedTaskView {
        self@
    }
}

impl Duplicate for PlannedTask {
    fn duplicate(&self) -> (r: Self) {
        PlannedTask {
            index: self.index,
            real_id: self.real_id.duplicate(),
            resolved_dependencies: self.resolved_dependencies.duplicate(),
            workflow: self.workflow.duplicate(),
            phase: self.phase.duplicate(),
        }
    }
}

impl Clone for PlannedTask {
    fn clone(&self) -> (r: Self)
        ensures
            r@ == self@,
    {
        self.duplicate()
    }
}


/// Tasks in the order in which they will be added.
#[derive(Debug, PartialEq, Eq)]
pub struct BatchPlan {
    pub entries: Vec<ManifestTask>,
    pub planned: Vec<PlannedTask>,
    /// The ids that the names in the manifest stand for.
    pub alias_to_real_id: StringMap<String>,
}

/// The contents of a `BatchPlan`.
#[verifier::ext_equal]
pub struct BatchPlanView {
    pub entries: Seq<ManifestTaskView>,
    pub planned: Seq<PlannedTaskView>,
    pub alias_to_real_id: Seq<(Seq<char>, Seq<char>)>,
}

impl View for BatchPlan {
    type V = BatchPlanView;

    open spec fn view(&self) -> BatchPlanView {
        BatchPlanView {
            entries: self.entries.deep_view(),
            planned: self.planned.deep_view(),
            alias_to_real_id: self.alias_to_real_id@,
        }
    }
}

impl DeepView for BatchPlan {
    type V = BatchPlanView;

    open spec fn deep_view(&self) -> BatchPlanView {
        self@
    }
}

impl Duplicate for BatchPlan {
    fn duplicate(&self) -> (r: Self) {
        BatchPlan {
            entries: self.entries.duplicate(),
            planned: self.planned.duplicate(),
            alias_to_real_id: self.alias_to_real_id.duplicate(),
        }
    }
}

impl Clone for BatchPlan {
    fn clone(&self) -> (r: Self)
        ensures
            r@ == self@,
    {
        self.duplicate()
    }
}


/// A task that was or would be added.
#[derive(Debug, PartialEq, Eq)]
pub struct BatchOutputTask {
    pub alias: Option<String>,
    pub id: String,
    pub title: String,
    pub depends_on: Vec<String>,
    pub workflow: String,
    pub phase: Option<String>,
}

/// The contents of a `BatchOutputTask`.
#[verifier::ext_equal]
pub struct BatchOutputTaskView {
    pub alias: Option<Seq<char>>,
    pub id: Seq<char>,
    pub title: Seq<char>,
    pub depends_on: Seq<Seq<char>>,
    pub workflow: Seq<char>,
    pub phase: Option<Seq<char>>,
}

impl View for BatchOutputTask {
    type V = BatchOutputTaskView;

    open spec fn view(&self) -> BatchOutputTaskView {
        BatchOutputTaskView {
            alias: self.alias.deep_view(),
            id: self.id@,
            title: self.title@,
            depends_on: self.depends_on.deep_view(),
            workflow: self.workflow@,
            phase: self.phase.deep_view(),
        }
    }
}

impl DeepView for BatchOutputTask {
    type V = BatchOutputTaskView;

    open spec fn deep_view(&self) -> BatchOutputTaskView {
        self@
    }
}

impl Duplicate for BatchOutputTask {
    fn duplicate(&self) -> (r: Self) {
        BatchOutputTask {
            alias: self.alias.duplicate(),
            id: self.id.duplicate(),
            title: self.title.duplicate(),
            depends_on: self.depends_on.duplicate(),
            workflow: self.workflow.duplicate(),
            phase: self.phase.duplicate(),
        }
    }
}

impl Clone for BatchOutputTask {
    fn clone(&self) -> (r: Self)
        ensures
            r@ == self@,
    {
        self.duplicate()
    }
}


/// Tasks that were or would be added.
#[derive(Debug, PartialEq, Eq)]
pub struct BatchOutput {
    pub dry_run: bool,
    pub aliases: StringMap<String>,
    pub tasks: Vec<BatchOutputTask>,
}

/// The contents of a `BatchOutput`.
#[verifier::ext_equal]
pub struct BatchOutputView {
    pub dry_run: bool,
    pub aliases: Seq<(Seq<char>, Seq<char>)>,
    pub tasks: Seq<BatchOutputTaskView>,
}

impl View for BatchOutput {
    type V = BatchOutputView;

    open spec fn view(&self) -> BatchOutputView {
        BatchOutputView {
            dry_run: self.dry_run,
            aliases: self.aliases@,
            tasks: self.tasks.deep_view(),
        }
    }
}

impl DeepView for BatchOutput {
    type V = BatchOutputView;

    open spec fn deep_view(&self) -> BatchOutputView {
        self@
    }
}

impl Duplicate for BatchOutput {
    fn duplicate(&self) -> (r: Self) {
        BatchOutput {
            dry_run: self.dry_run,
            aliases: self.aliases.duplicate(),
            tasks: self.tasks.duplicate(),
        }
    }
}

impl Clone for BatchOutput {
    fn clone(&self) -> (r: Self)
        ensures
            r@ == self@,
    {
        self.duplicate()
    }
}


/// What adding one task leaves to be done.
#[derive(Debug, PartialEq, Eq)]
pub struct BatchStep {
    /// The tasks to write to the file of tasks.
    pub tasks: Vec<Task>,
    /// The commands to run once they are written.
    pub run: HookRun,
}

/// The contents of a `BatchStep`.
#[verifier::ext_equal]
pub struct BatchStepView {
    pub tasks: Seq<TaskView>,
    pub run: HookRunView,
}

impl View for BatchStep {
    type V = BatchStepView;

    open spec fn view(&self) -> BatchStepView {
        BatchStepView {
            tasks: self.tasks.deep_view(),
            run: self.run@,
        }
    }
}

impl DeepView for BatchStep {
    type V = BatchStepView;

    open spec fn deep_view(&self) -> BatchStepView {
        self@
    }
}

impl Duplicate for BatchStep {
    fn duplicate(&self) -> (r: Self) {
        BatchStep {
            tasks: self.tasks.duplicate(),
            run: self.run.duplicate(),
        }
    }
}

impl Clone for BatchStep {
    fn clone(&self) -> (r: Self)
        ensures
            r@ == self@,
    {
        self.duplicate()
    }
}


/// What adding tasks leaves to be done, whether or not it succeeded.
#[derive(Debug, PartialEq, Eq)]
pub struct BatchReport {
    /// The type of the runner that is to be started before any task is added, if one is.
    pub ensure_runner: Option<String>,
    /// What is to be done for each task that is added, in their order.
    pub steps: Vec<BatchStep>,
    /// What is to be written before all that, and what to tell the user after it.
    pub report: Report,
    /// What is to be shown as a document.
    pub document: Option<BatchOutput>,
}

/// The contents of a `BatchReport`.
#[verifier::ext_equal]
pub struct BatchReportView {
    pub ensure_runner: Option<Seq<char>>,
    pub steps: Seq<BatchStepView>,
    pub report: ReportView,
    pub document: Option<BatchOutputView>,
}

impl View for BatchReport {
    type V = BatchReportView;

    open spec fn view(&self) -> BatchReportView {
        BatchReportView {
            ensure_runner: self.ensure_runner.deep_view(),
            steps: self.steps.deep_view(),
            report: self.report@,
            document: self.document.deep_view(),
        }
    }
}

impl DeepView for BatchReport {
    type V = BatchReportView;

    open spec fn deep_view(&self) -> BatchReportView {
        self@
    }
}

impl Duplicate for BatchReport {
    fn duplicate(&self) -> (r: Self) {
        BatchReport {
            ensure_runner: self.ensure_runner.duplicate(),
            steps: self.steps.duplicate(),
            report: self.report.duplicate(),
            document: self.document.duplicate(),
        }
    }
}

impl Clone for BatchReport {
    fn clone(&self) -> (r: Self)
        ensures
            r@ == self@,
    {
        self.duplicate()
    }
}


// ---------------------------------------------------------------------------------------------
// Names in a manifest
// ---------------------------------------------------------------------------------------------

/// The last task of a manifest with a name.
pub open spec fn alias_index(entries: Seq<ManifestTaskView>, alias: Seq<char>) -> Option<usize>
    decreases entries.len(),
{
    if entries.len() == 0 {
        None
    } else if entries.last().id == Some(alias) {
        Some((entries.len() - 1) as usize)
    } else {
        alias_index(entries.drop_last(), alias)
    }
}

fn find_alias(entries: &[ManifestTask], alias: &str) -> (r: Option<usize>)
    ensures
        r == alias_index(entries.deep_view(), alias@),
        r matches Some(i) ==> i < entries@.len(),
{
    let ghost all = entries.deep_view();
    let mut found: Option<usize> = None;
    let mut i: usize = 0;
    assert(all.take(0) =~= Seq::<ManifestTaskView>::empty());
    while i < entries.len()
        invariant
            i <= entries.len(),
            all == entries.deep_view(),
            found == alias_index(all.take(i as int), alias@),
            found matches Some(j) ==> j < i,
        decreases entries.len() - i,
    {
        assert(all.take(i + 1).drop_last() =~= all.take(i as int));
        assert(all.take(i + 1).last() == entries@[i as int]@);
        if opt_eq(&entries[i].id, Some(alias)) {
            found = Some(i);
        }
        i = i + 1;
    }
    assert(all.take(i as int) =~= all);
    found
}

/// The tasks of a manifest that a list of names and ids refers to.
pub open spec fn local_needs(entries: Seq<ManifestTaskView>, names: Seq<Seq<char>>) -> Seq<usize>
    decreases names.len(),
{
    if names.len() == 0 {
        Seq::empty()
    } else {
        let rest = local_needs(entries, names.drop_last());
        match alias_index(entries, names.last()) {
            Some(i) => rest.push(i),
            None => rest,
        }
    }
}

/// The tasks of a manifest that each of its tasks needs.
pub open spec fn manifest_needs(entries: Seq<ManifestTaskView>) -> Seq<Seq<usize>> {
    entries.map_values(|e: ManifestTaskView| local_needs(entries, e.depends_on))
}

fn find_local_needs(entries: &[ManifestTask], names: &Vec<String>) -> (r: Vec<usize>)
    ensures
        r@ == local_needs(entries.deep_view(), names.deep_view()),
{
    let ghost all = names.deep_view();
    let mut out: Vec<usize> = Vec::new();
    let mut i: usize = 0;
    assert(all.take(0) =~= Seq::<Seq<char>>::empty());
    while i < names.len()
        invariant
            i <= names.len(),
            all == names.deep_view(),
            out@ == local_needs(entries.deep_view(), all.take(i as int)),
        decreases names.len() - i,
    {
        assert(all.take(i + 1).drop_last() =~= all.take(i as int));
        assert(all.take(i + 1).last() == names@[i as int]@);
        match find_alias(entries, names[i].as_str()) {
            Some(j) => {
                out.push(j);
            },
            None => {},
        }
        i = i + 1;
    }
    assert(all.take(i as int) =~= all);
    out
}

fn find_needs(entries: &[ManifestTask]) -> (r: Vec<Vec<usize>>)
    ensures
        r.deep_view() == manifest_needs(entries.deep_view()),
{
    let ghost all = manifest_needs(entries.deep_view());
    let mut out: Vec<Vec<usize>> = Vec::new();
    let mut i: usize = 0;
    assert(out.deep_view() =~= all.take(0));
    while i < entries.len()
        invariant
            i <= entries.len(),
            all == manifest_needs(entries.deep_view()),
            out.deep_view() == all.take(i as int),
        decreases entries.len() - i,
    {
        let ghost before = out.deep_view();
        assert(entries.deep_view()[i as int] == entries@[i as int]@);
        let mine = find_local_needs(entries, &entries[i].depends_on);
        assert(mine.deep_view() =~= mine@);
        out.push(mine);
        assert(out.deep_view() =~= before.push(all[i as int]));
        assert(all.take(i + 1) =~= all.take(i as int).push(all[i as int]));
        i = i + 1;
    }
    assert(all.take(i as int) =~= all);
    out
}

// ---------------------------------------------------------------------------------------------
// What is wrong with a manifest
// ---------------------------------------------------------------------------------------------

/// The names that a task in front has too.
pub open spec fn repeated_aliases(entries: Seq<ManifestTaskView>) -> Seq<Seq<char>>
    decreases entries.len(),
{
    if entries.len() == 0 {
        Seq::empty()
    } else {
        let rest = repeated_aliases(entries.drop_last());
        match entries.last().id {
            Some(alias) => if alias_index(entries.drop_last(), alias) is Some {
                rest.push(alias)
            } else {
                rest
            },
            None => rest,
        }
    }
}

/// The titles of some tasks in lower case.
pub open spec fn lower_titles(entries: Seq<ManifestTaskView>) -> Seq<Seq<char>> {
    entries.map_values(|e: ManifestTaskView| lowercase(e.title))
}

/// The texts that stand further in front too.
pub open spec fn repeated_texts(items: Seq<Seq<char>>) -> Seq<Seq<char>>
    decreases items.len(),
{
    if items.len() == 0 {
        Seq::empty()
    } else {
        let rest = repeated_texts(items.drop_last());
        if items.drop_last().contains(items.last()) {
            rest.push(items.last())
        } else {
            rest
        }
    }
}

/// The tasks that are not done and have the title of a task of the manifest.
pub open spec fn taken_titles(
    entries: Seq<ManifestTaskView>,
    tasks: Seq<TaskView>,
    terminal: Option<Seq<char>>,
) -> Seq<Seq<char>>
    decreases entries.len(),
{
    if entries.len() == 0 {
        Seq::empty()
    } else {
        let rest = taken_titles(entries.drop_last(), tasks, terminal);
        match first_where(tasks, has_title(entries.last().title, terminal)) {
            Some(i) => rest.push(
                "a task with this title already exists: "@ + tasks[i].id + " \""@ + tasks[i].title
                    + "\""@,
            ),
            None => rest,
        }
    }
}

/// The workflow of a task of a manifest.
pub open spec fn entry_workflow(
    e: ManifestTaskView,
    options: AddBatchOptionsView,
    config: ConfigView,
) -> Seq<char> {
    match e.workflow {
        Some(w) => w,
        None => match options.workflow {
            Some(w) => w,
            None => config.default_workflow,
        },
    }
}

/// The phase in which a task of a manifest starts, where one is asked for.
pub open spec fn entry_phase(e: ManifestTaskView, options: AddBatchOptionsView) -> Option<Seq<char>> {
    match e.phase {
        Some(p) => Some(p),
        None => options.phase,
    }
}

/// The workflows of a manifest that do not exist.
pub open spec fn unknown_workflows(
    entries: Seq<ManifestTaskView>,
    options: AddBatchOptionsView,
    config: ConfigView,
) -> Seq<Seq<char>>
    decreases entries.len(),
{
    if entries.len() == 0 {
        Seq::empty()
    } else {
        let rest = unknown_workflows(entries.drop_last(), options, config);
        let workflow = entry_workflow(entries.last(), options, config);
        if config.sequence(workflow).len() == 0 {
            rest.push(workflow)
        } else {
            rest
        }
    }
}

/// A phase in which a task of a manifest cannot start: one that its workflow does not have, or that
/// no workflow has where its own does not exist.
pub open spec fn unknown_entry_phase(
    e: ManifestTaskView,
    options: AddBatchOptionsView,
    config: ConfigView,
) -> bool {
    let steps = config.sequence(entry_workflow(e, options, config));
    match entry_phase(e, options) {
        Some(phase) => if steps.len() == 0 {
            !has_key(config.phases, phase)
        } else {
            !steps.contains(phase)
        },
        None => false,
    }
}

/// The phases of a manifest in which its tasks cannot start.
pub open spec fn unknown_phases(
    entries: Seq<ManifestTaskView>,
    options: AddBatchOptionsView,
    config: ConfigView,
) -> Seq<Seq<char>>
    decreases entries.len(),
{
    if entries.len() == 0 {
        Seq::empty()
    } else {
        let rest = unknown_phases(entries.drop_last(), options, config);
        if unknown_entry_phase(entries.last(), options, config) {
            rest.push(entry_phase(entries.last(), options)->0)
        } else {
            rest
        }
    }
}

/// The names in a list that stand for no task of a manifest and no task there is.
pub open spec fn unknown_names(
    entries: Seq<ManifestTaskView>,
    tasks: Seq<TaskView>,
    names: Seq<Seq<char>>,
) -> Seq<Seq<char>>
    decreases names.len(),
{
    if names.len() == 0 {
        Seq::empty()
    } else {
        let rest = unknown_names(entries, tasks, names.drop_last());
        if alias_index(entries, names.last()) is None && find_task(tasks, names.last()) is None {
            rest.push(names.last())
        } else {
            rest
        }
    }
}

/// The names in a manifest that stand for no task of it and no task there is, up to a task.
pub open spec fn unknown_dependencies(
    entries: Seq<ManifestTaskView>,
    tasks: Seq<TaskView>,
    n: nat,
) -> Seq<Seq<char>>
    decreases n,
{
    if n == 0 {
        Seq::empty()
    } else {
        unknown_dependencies(entries, tasks, (n - 1) as nat) + unknown_names(
            entries,
            tasks,
            entries[n - 1].depends_on,
        )
    }
}

/// Each text with another one in front and one behind.
pub open spec fn wrapped(items: Seq<Seq<char>>, before: Seq<char>, after: Seq<char>) -> Seq<Seq<char>> {
    items.map_values(|s: Seq<char>| between(before, s, after))
}

/// All that is wrong with a manifest.
pub open spec fn manifest_problems(
    entries: Seq<ManifestTaskView>,
    tasks: Seq<TaskView>,
    config: ConfigView,
    options: AddBatchOptionsView,
) -> Seq<Seq<char>> {
    (if entries.len() == 0 {
        seq!["manifest must include at least one [[task]] entry"@]
    } else {
        Seq::empty()
    }) + wrapped(text_set(repeated_aliases(entries)), "duplicate local id alias: "@, ""@) + wrapped(
        text_set(repeated_texts(lower_titles(entries))),
        "duplicate title in manifest: "@,
        ""@,
    ) + taken_titles(entries, tasks, config.terminal()) + wrapped(
        text_set(unknown_workflows(entries, options, config)),
        "unknown workflow '"@,
        "'"@,
    ) + wrapped(
        text_set(unknown_phases(entries, options, config)),
        "unknown phase: "@,
        ""@,
    ) + wrapped(
        text_set(unknown_dependencies(entries, tasks, entries.len())),
        "unknown dependency reference: "@,
        ""@,
    ) + if dependency_order(manifest_needs(entries)).len() != entries.len() {
        seq!["dependency cycle among manifest tasks"@]
    } else {
        Seq::empty()
    }
}

fn find_repeated_aliases(entries: &[ManifestTask]) -> (r: Vec<String>)
    ensures
        r.deep_view() == repeated_aliases(entries.deep_view()),
{
    let ghost all = entries.deep_view();
    let mut seen: Vec<String> = Vec::new();
    let mut out: Vec<String> = Vec::new();
    let mut i: usize = 0;
    assert(all.take(0) =~= Seq::<ManifestTaskView>::empty());
    assert(out.deep_view() =~= Seq::<Seq<char>>::empty());
    while i < entries.len()
        invariant
            i <= entries.len(),
            all == entries.deep_view(),
            out.deep_view() == repeated_aliases(all.take(i as int)),
            forall|x: Seq<char>|
                #[trigger] seen.deep_view().contains(x) == (alias_index(
                    all.take(i as int),
                    x,
                ) is Some),
        decreases entries.len() - i,
    {
        let ghost front = all.take(i as int);
        assert(all.take(i + 1).drop_last() =~= front);
        assert(all.take(i + 1).last() == entries@[i as int]@);
        let ghost before = out.deep_view();
        let ghost known = seen.deep_view();
        match &entries[i].id {
            Some(alias) => {
                assert(known.contains(alias@) == (alias_index(front, alias@) is Some));
                if list_has(&seen, alias.as_str()) {
                    out.push(alias.clone());
                    assert(out.deep_view() =~= before.push(alias@));
                }
                seen.push(alias.clone());
                assert(seen.deep_view() =~= known.push(alias@));
                assert forall|x: Seq<char>|
                    #[trigger] seen.deep_view().contains(x) == (alias_index(
                        all.take(i + 1),
                        x,
                    ) is Some) by {
                    assert(known.contains(x) == (alias_index(front, x) is Some));
                    if known.contains(x) {
                        let k = known.index_of(x);
                        assert(seen.deep_view()[k] == x);
                    }
                    if x == alias@ {
                        assert(seen.deep_view()[known.len() as int] == x);
                    }
                    if seen.deep_view().contains(x) && x != alias@ {
                        let k = seen.deep_view().index_of(x);
                        assert(known[k] == x);
                    }
                }
            },
            None => {
                assert forall|x: Seq<char>|
                    #[trigger] seen.deep_view().contains(x) == (alias_index(
                        all.take(i + 1),
                        x,
                    ) is Some) by {
                    assert(known.contains(x) == (alias_index(front, x) is Some));
                }
            },
        }
        i = i + 1;
    }
    assert(all.take(i as int) =~= all);
    out
}

fn find_repeated_texts(items: &Vec<String>) -> (r: Vec<String>)
    ensures
        r.deep_view() == repeated_texts(items.deep_view()),
{
    let ghost all = items.deep_view();
    let mut seen: Vec<String> = Vec::new();
    let mut out: Vec<String> = Vec::new();
    let mut i: usize = 0;
    assert(all.take(0) =~= Seq::<Seq<char>>::empty());
    assert(out.deep_view() =~= Seq::<Seq<char>>::empty());
    assert(seen.deep_view() =~= Seq::<Seq<char>>::empty());
    while i < items.len()
        invariant
            i <= items.len(),
            all == items.deep_view(),
            seen.deep_view() == all.take(i as int),
            out.deep_view() == repeated_texts(all.take(i as int)),
        decreases items.len() - i,
    {
        assert(all.take(i + 1).drop_last() =~= all.take(i as int));
        assert(all.take(i + 1).last() == items@[i as int]@);
        let ghost before = out.deep_view();
        if list_has(&seen, items[i].as_str()) {
            out.push(items[i].clone());
            assert(out.deep_view() =~= before.push(items@[i as int]@));
        }
        let ghost known = seen.deep_view();
        seen.push(items[i].clone());
        assert(seen.deep_view() =~= known.push(items@[i as int]@));
        assert(all.take(i + 1) =~= all.take(i as int).push(all[i as int]));
        i = i + 1;
    }
    assert(all.take(i as int) =~= all);
    out
}

fn find_lower_titles(entries: &[ManifestTask]) -> (r: Vec<String>)
    ensures
        r.deep_view() == lower_titles(entries.deep_view()),
{
    let ghost all = lower_titles(entries.deep_view());
    let mut out: Vec<String> = Vec::new();
    let mut i: usize = 0;
    assert(out.deep_view() =~= all.take(0));
    while i < entries.len()
        invariant
            i <= entries.len(),
            all == lower_titles(entries.deep_view()),
            out.deep_view() == all.take(i as int),
        decreases entries.len() - i,
    {
        let ghost before = out.deep_view();
        assert(entries.deep_view()[i as int] == entries@[i as int]@);
        out.push(to_lowercase(entries[i].title.as_str()));
        assert(out.deep_view() =~= before.push(all[i as int]));
        assert(all.take(i + 1) =~= all.take(i as int).push(all[i as int]));
        i = i + 1;
    }
    assert(all.take(i as int) =~= all);
    out
}

fn find_taken_titles(entries: &[ManifestTask], tasks: &[Task], terminal: Option<&str>) -> (r: Vec<
    String,
>)
    ensures
        r.deep_view() == taken_titles(
            entries.deep_view(),
            tasks.deep_view(),
            terminal.deep_view(),
        ),
{
    let ghost all = entries.deep_view();
    let mut out: Vec<String> = Vec::new();
    let mut i: usize = 0;
    assert(all.take(0) =~= Seq::<ManifestTaskView>::empty());
    assert(out.deep_view() =~= Seq::<Seq<char>>::empty());
    while i < entries.len()
        invariant
            i <= entries.len(),
            all == entries.deep_view(),
            out.deep_view() == taken_titles(
                all.take(i as int),
                tasks.deep_view(),
                terminal.deep_view(),
            ),
        decreases entries.len() - i,
    {
        assert(all.take(i + 1).drop_last() =~= all.take(i as int));
        assert(all.take(i + 1).last() == entries@[i as int]@);
        let ghost before = out.deep_view();
        match first_with_title(tasks, entries[i].title.as_str(), terminal) {
            Some(k) => {
                assert(tasks.deep_view()[k as int] == tasks@[k as int]@);
                let mut line = follow(
                    "a task with this title already exists: ",
                    tasks[k].id.as_str(),
                );
                line.push_str(" \"");
                line.push_str(tasks[k].title.as_str());
                line.push_str("\"");
                out.push(line);
                assert(out.deep_view() =~= before.push(line@));
            },
            None => {},
        }
        i = i + 1;
    }
    assert(all.take(i as int) =~= all);
    out
}

fn workflow_of_entry<'a>(entry: &'a ManifestTask, options: &'a AddBatchOptions, config: &'a Config) -> (r:
    &'a str)
    ensures
        r@ == entry_workflow(entry@, options@, config@),
{
    match &entry.workflow {
        Some(w) => w.as_str(),
        None => match &options.workflow {
            Some(w) => w.as_str(),
            None => config.default_workflow.as_str(),
        },
    }
}

fn phase_of_entry<'a>(entry: &'a ManifestTask, options: &'a AddBatchOptions) -> (r: Option<&'a str>)
    ensures
        r.deep_view() == entry_phase(entry@, options@),
{
    match &entry.phase {
        Some(p) => Some(p.as_str()),
        None => match &options.phase {
            Some(p) => Some(p.as_str()),
            None => None,
        },
    }
}

fn find_unknown_workflows(entries: &[ManifestTask], options: &AddBatchOptions, config: &Config) -> (r:
    Vec<String>)
    ensures
        r.deep_view() == unknown_workflows(entries.deep_view(), options@, config@),
{
    let ghost all = entries.deep_view();
    let mut out: Vec<String> = Vec::new();
    let mut i: usize = 0;
    assert(all.take(0) =~= Seq::<ManifestTaskView>::empty());
    assert(out.deep_view() =~= Seq::<Seq<char>>::empty());
    while i < entries.len()
        invariant
            i <= entries.len(),
            all == entries.deep_view(),
            out.deep_view() == unknown_workflows(all.take(i as int), options@, config@),
        decreases entries.len() - i,
    {
        assert(all.take(i + 1).drop_last() =~= all.take(i as int));
        assert(all.take(i + 1).last() == entries@[i as int]@);
        let ghost before = out.deep_view();
        let workflow = workflow_of_entry(&entries[i], options, config);
        let steps = config.sequence(workflow);
        assert(steps.deep_view().len() == steps@.len());
        if steps.len() == 0 {
            out.push(workflow.to_owned());
            assert(out.deep_view() =~= before.push(workflow@));
        }
        i = i + 1;
    }
    assert(all.take(i as int) =~= all);
    out
}

fn is_unknown_phase(entry: &ManifestTask, options: &AddBatchOptions, config: &Config) -> (r: bool)
    ensures
        r == unknown_entry_phase(entry@, options@, config@),
{
    let steps = config.sequence(workflow_of_entry(entry, options, config));
    assert(steps.deep_view().len() == steps@.len());
    match phase_of_entry(entry, options) {
        Some(phase) => if steps.len() == 0 {
            !config.phases.contains_key(phase)
        } else {
            proof {
                lemma_position(steps.deep_view(), phase@);
            }
            position_of(steps, phase).is_none()
        },
        None => false,
    }
}

fn find_unknown_phases(entries: &[ManifestTask], options: &AddBatchOptions, config: &Config) -> (r: Vec<
    String,
>)
    ensures
        r.deep_view() == unknown_phases(entries.deep_view(), options@, config@),
{
    let ghost all = entries.deep_view();
    let mut out: Vec<String> = Vec::new();
    let mut i: usize = 0;
    assert(all.take(0) =~= Seq::<ManifestTaskView>::empty());
    assert(out.deep_view() =~= Seq::<Seq<char>>::empty());
    while i < entries.len()
        invariant
            i <= entries.len(),
            all == entries.deep_view(),
            out.deep_view() == unknown_phases(all.take(i as int), options@, config@),
        decreases entries.len() - i,
    {
        assert(all.take(i + 1).drop_last() =~= all.take(i as int));
        assert(all.take(i + 1).last() == entries@[i as int]@);
        let ghost before = out.deep_view();
        if is_unknown_phase(&entries[i], options, config) {
            match phase_of_entry(&entries[i], options) {
                Some(phase) => {
                    out.push(phase.to_owned());
                    assert(out.deep_view() =~= before.push(phase@));
                },
                None => {},
            }
        }
        i = i + 1;
    }
    assert(all.take(i as int) =~= all);
    out
}

fn find_unknown_names(entries: &[ManifestTask], tasks: &[Task], names: &Vec<String>) -> (r: Vec<String>)
    ensures
        r.deep_view() == unknown_names(
            entries.deep_view(),
            tasks.deep_view(),
            names.deep_view(),
        ),
{
    let ghost all = names.deep_view();
    let mut out: Vec<String> = Vec::new();
    let mut i: usize = 0;
    assert(all.take(0) =~= Seq::<Seq<char>>::empty());
    assert(out.deep_view() =~= Seq::<Seq<char>>::empty());
    while i < names.len()
        invariant
            i <= names.len(),
            all == names.deep_view(),
            out.deep_view() == unknown_names(
                entries.deep_view(),
                tasks.deep_view(),
                all.take(i as int),
            ),
        decreases names.len() - i,
    {
        assert(all.take(i + 1).drop_last() =~= all.take(i as int));
        assert(all.take(i + 1).last() == names@[i as int]@);
        let ghost before = out.deep_view();
        let name = names[i].as_str();
        if find_alias(entries, name).is_none() && index_of_task(tasks, name).is_none() {
            out.push(names[i].clone());
            assert(out.deep_view() =~= before.push(name@));
        }
        i = i + 1;
    }
    assert(all.take(i as int) =~= all);
    out
}

fn find_unknown_dependencies(entries: &[ManifestTask], tasks: &[Task]) -> (r: Vec<String>)
    ensures
        r.deep_view() == unknown_dependencies(
            entries.deep_view(),
            tasks.deep_view(),
            entries.deep_view().len(),
        ),
{
    let ghost all = entries.deep_view();
    let mut out: Vec<String> = Vec::new();
    let mut i: usize = 0;
    assert(out.deep_view() =~= Seq::<Seq<char>>::empty());
    while i < entries.len()
        invariant
            i <= entries.len(),
            all == entries.deep_view(),
            out.deep_view() == unknown_dependencies(all, tasks.deep_view(), i as nat),
        decreases entries.len() - i,
    {
        assert(all[i as int] == entries@[i as int]@);
        let ghost before = out.deep_view();
        let mut more = find_unknown_names(entries, tasks, &entries[i].depends_on);
        let ghost added = more.deep_view();
        out.append(&mut more);
        assert(out.deep_view() =~= before + added);
        i = i + 1;
    }
    out
}

fn append_wrapped(out: &mut Vec<String>, items: &Vec<String>, before: &str, after: &str)
    ensures
        final(out).deep_view() == old(out).deep_view() + wrapped(
            text_set(items.deep_view()),
            before@,
            after@,
        ),
{
    let ghost start = out.deep_view();
    let texts = sort_texts(items);
    let ghost all = wrapped(texts.deep_view(), before@, after@);
    let mut i: usize = 0;
    assert(start + all.take(0) =~= start);
    while i < texts.len()
        invariant
            i <= texts.len(),
            all == wrapped(texts.deep_view(), before@, after@),
            out.deep_view() == start + all.take(i as int),
        decreases texts.len() - i,
    {
        let ghost now = out.deep_view();
        out.push(put_between(before, texts[i].as_str(), after));
        assert(out.deep_view() =~= now.push(all[i as int]));
        assert(start + all.take(i + 1) =~= (start + all.take(i as int)).push(all[i as int]));
        i = i + 1;
    }
    assert(all.take(i as int) =~= all);
}

fn append_all(out: &mut Vec<String>, items: Vec<String>)
    ensures
        final(out).deep_view() == old(out).deep_view() + items.deep_view(),
{
    let ghost a = out.deep_view();
    let ghost b = items.deep_view();
    let mut items = items;
    out.append(&mut items);
    assert(out.deep_view() =~= a + b);
}

fn find_problems(
    entries: &[ManifestTask],
    tasks: &[Task],
    config: &Config,
    options: &AddBatchOptions,
    order: &Vec<usize>,
) -> (r: Vec<String>)
    requires
        order@ == dependency_order(manifest_needs(entries.deep_view())),
    ensures
        r.deep_view() == manifest_problems(
            entries.deep_view(),
            tasks.deep_view(),
            config@,
            options@,
        ),
{
    let mut out: Vec<String> = Vec::new();
    assert(out.deep_view() =~= Seq::<Seq<char>>::empty());
    if entries.len() == 0 {
        out.push("manifest must include at least one [[task]] entry".to_owned());
        assert(out.deep_view() =~= seq!["manifest must include at least one [[task]] entry"@]);
    }
    append_wrapped(&mut out, &find_repeated_aliases(entries), "duplicate local id alias: ", "");
    append_wrapped(
        &mut out,
        &find_repeated_texts(&find_lower_titles(entries)),
        "duplicate title in manifest: ",
        "",
    );
    append_all(&mut out, find_taken_titles(entries, tasks, config.terminal_phase()));
    append_wrapped(
        &mut out,
        &find_unknown_workflows(entries, options, config),
        "unknown workflow '",
        "'",
    );
    append_wrapped(
        &mut out,
        &find_unknown_phases(entries, options, config),
        "unknown phase: ",
        "",
    );
    append_wrapped(
        &mut out,
        &find_unknown_dependencies(entries, tasks),
        "unknown dependency reference: ",
        "",
    );
    let ghost so_far = out.deep_view();
    if order.len() != entries.len() {
        out.push("dependency cycle among manifest tasks".to_owned());
        assert(out.deep_view() =~= so_far + seq!["dependency cycle among manifest tasks"@]);
    } else {
        assert(so_far + Seq::<Seq<char>>::empty() =~= so_far);
    }
    out
}

// ---------------------------------------------------------------------------------------------
// The plan
// ---------------------------------------------------------------------------------------------

/// The id that a task of a manifest will have, by its place in the order.
pub open spec fn planned_id(order: Seq<usize>, largest: nat, index: usize) -> Seq<char> {
    numbered_id((largest + 1 + order.index_of(index)) as nat)
}

/// The id that a name stands for.
pub open spec fn resolved_name(
    entries: Seq<ManifestTaskView>,
    order: Seq<usize>,
    largest: nat,
    name: Seq<char>,
) -> Seq<char> {
    match alias_index(entries, name) {
        Some(i) => planned_id(order, largest, i),
        None => name,
    }
}

/// A task of a manifest as it will be added.
pub open spec fn planned_task(
    entries: Seq<ManifestTaskView>,
    order: Seq<usize>,
    largest: nat,
    options: AddBatchOptionsView,
    config: ConfigView,
    index: usize,
) -> PlannedTaskView {
    let e = entries[index as int];
    PlannedTaskView {
        index,
        real_id: planned_id(order, largest, index),
        resolved_dependencies: e.depends_on.map_values(
            |name: Seq<char>| resolved_name(entries, order, largest, name),
        ),
        workflow: entry_workflow(e, options, config),
        phase: entry_phase(e, options),
    }
}

/// The ids that the names of the first tasks of a manifest stand for.
pub open spec fn alias_ids(
    entries: Seq<ManifestTaskView>,
    order: Seq<usize>,
    largest: nat,
    n: nat,
) -> Seq<(Seq<char>, Seq<char>)>
    decreases n,
{
    if n == 0 {
        Seq::empty()
    } else {
        let rest = alias_ids(entries, order, largest, (n - 1) as nat);
        match entries[n - 1].id {
            Some(alias) => put(rest, alias, planned_id(order, largest, (n - 1) as usize)),
            None => rest,
        }
    }
}

/// The tasks of a manifest in the order in which they will be added, or all that is wrong with it.
pub open spec fn batch_plan(
    entries: Seq<ManifestTaskView>,
    tasks: Seq<TaskView>,
    config: ConfigView,
    options: AddBatchOptionsView,
) -> Result<BatchPlanView, AddBatchErrorView> {
    let order = dependency_order(manifest_needs(entries));
    let largest = largest_number(tasks);
    let problems = manifest_problems(entries, tasks, config, options);
    if problems.len() > 0 {
        Err(AddBatchErrorView::User { message: join(problems, "\n"@) })
    } else {
        Ok(
            BatchPlanView {
                entries,
                planned: order.map_values(
                    |i: usize| planned_task(entries, order, largest, options, config, i),
                ),
                alias_to_real_id: alias_ids(entries, order, largest, entries.len()),
            },
        )
    }
}

fn place_of(order: &Vec<usize>, index: usize) -> (r: usize)
    requires
        order@.contains(index),
        order@.no_duplicates(),
    ensures
        r == order@.index_of(index),
        r < order.len(),
{
    let mut i: usize = 0;
    while i < order.len()
        invariant
            i <= order.len(),
            order@.contains(index),
            order@.no_duplicates(),
            forall|j: int| 0 <= j < i ==> #[trigger] order@[j] != index,
        decreases order.len() - i,
    {
        if order[i] == index {
            assert(order@[order@.index_of(index)] == index);
            return i;
        }
        i = i + 1;
    }
    assert(order@[order@.index_of(index)] == index);
    0
}

/// The id of the task with a number.
pub fn id_of_number(n: usize) -> (r: String)
    ensures
        r@ == numbered_id(n as nat),
{
    let mut out = "task-".to_owned();
    out.push_str(decimal_padded_str(n as u64, 3).as_str());
    out
}

/// An order that holds each position once.
pub open spec fn full_order(order: Seq<usize>, n: nat) -> bool {
    &&& order.no_duplicates()
    &&& order.len() == n
    &&& forall|k: int| 0 <= k < order.len() ==> (#[trigger] order[k]) < n
    &&& forall|j: usize| j < n ==> #[trigger] order.contains(j)
}

fn plan_id(order: &Vec<usize>, largest: usize, index: usize) -> (r: String)
    requires
        full_order(order@, order@.len()),
        largest + order@.len() <= usize::MAX,
        index < order@.len(),
    ensures
        r@ == planned_id(order@, largest as nat, index),
{
    assert(order@.contains(index));
    let place: usize = place_of(order, index);
    id_of_number(largest + 1 + place)
}

fn resolve_names(entries: &[ManifestTask], order: &Vec<usize>, largest: usize, names: &Vec<String>) -> (r:
    Vec<String>)
    requires
        full_order(order@, entries@.len()),
        largest + entries@.len() <= usize::MAX,
    ensures
        r.deep_view() == names.deep_view().map_values(
            |name: Seq<char>|
                resolved_name(entries.deep_view(), order@, largest as nat, name),
        ),
{
    let ghost all = names.deep_view().map_values(
        |name: Seq<char>| resolved_name(entries.deep_view(), order@, largest as nat, name),
    );
    let mut out: Vec<String> = Vec::new();
    let mut i: usize = 0;
    assert(out.deep_view() =~= all.take(0));
    while i < names.len()
        invariant
            i <= names.len(),
            full_order(order@, entries@.len()),
            largest + entries@.len() <= usize::MAX,
            all == names.deep_view().map_values(
                |name: Seq<char>|
                    resolved_name(entries.deep_view(), order@, largest as nat, name),
            ),
            out.deep_view() == all.take(i as int),
        decreases names.len() - i,
    {
        let ghost before = out.deep_view();
        assert(names.deep_view()[i as int] == names@[i as int]@);
        let id = match find_alias(entries, names[i].as_str()) {
            Some(j) => plan_id(order, largest, j),
            None => names[i].clone(),
        };
        out.push(id);
        assert(out.deep_view() =~= before.push(all[i as int]));
        assert(all.take(i + 1) =~= all.take(i as int).push(all[i as int]));
        i = i + 1;
    }
    assert(all.take(i as int) =~= all);
    out
}

fn plan_task(
    entries: &[ManifestTask],
    order: &Vec<usize>,
    largest: usize,
    options: &AddBatchOptions,
    config: &Config,
    index: usize,
) -> (r: PlannedTask)
    requires
        full_order(order@, entries@.len()),
        largest + entries@.len() <= usize::MAX,
        index < entries@.len(),
    ensures
        r@ == planned_task(
            entries.deep_view(),
            order@,
            largest as nat,
            options@,
            config@,
            index,
        ),
{
    let entry = &entries[index];
    assert(entries.deep_view()[index as int] == entry@);
    PlannedTask {
        index,
        real_id: plan_id(order, largest, index),
        resolved_dependencies: resolve_names(entries, order, largest, &entry.depends_on),
        workflow: workflow_of_entry(entry, options, config).to_owned(),
        phase: own_text(phase_of_entry(entry, options)),
    }
}

fn plan_aliases(entries: &[ManifestTask], order: &Vec<usize>, largest: usize) -> (r: StringMap<String>)
    requires
        full_order(order@, entries@.len()),
        largest + entries@.len() <= usize::MAX,
    ensures
        r@ == alias_ids(
            entries.deep_view(),
            order@,
            largest as nat,
            entries.deep_view().len(),
        ),
{
    let ghost all = entries.deep_view();
    let mut out: StringMap<String> = StringMap::new();
    let mut i: usize = 0;
    while i < entries.len()
        invariant
            i <= entries.len(),
            full_order(order@, entries@.len()),
            largest + entries@.len() <= usize::MAX,
            all == entries.deep_view(),
            out@ == alias_ids(all, order@, largest as nat, i as nat),
        decreases entries.len() - i,
    {
        assert(all[i as int] == entries@[i as int]@);
        match &entries[i].id {
            Some(alias) => {
                let id = plan_id(order, largest, i);
                out.insert(alias.clone(), id);
            },
            None => {},
        }
        i = i + 1;
    }
    out
}

/// The tasks of a manifest in the order in which they will be added, or all that is wrong with it.
pub fn build_plan(
    entries: &[ManifestTask],
    store: &TaskStore,
    config: &Config,
    options: &AddBatchOptions,
) -> (r: Result<BatchPlan, AddBatchError>)
    requires
        largest_number(store@.tasks) + entries@.len() <= usize::MAX,
    ensures
        outcome(r) == batch_plan(entries.deep_view(), store@.tasks, config@, options@),
{
    let needs = find_needs(entries);
    let order = sort_by_needs(&needs);
    let problems = find_problems(entries, store.all_tasks(), config, options, &order);
    if problems.len() > 0 {
        return Err(AddBatchError::User { message: join_strs(&problems, "\n") });
    }
    let ghost all = entries.deep_view();
    proof {
        lemma_no_cycle(all, store@.tasks, config@, options@);
        law_order_respects_needs(manifest_needs(all));
        law_full_order_holds_all(manifest_needs(all));
        assert forall|j: usize| j < all.len() implies #[trigger] order@.contains(j) by {
            assert(order@.contains((j as int) as usize));
        }
    }
    assert(full_order(order@, entries@.len() as nat));
    let largest: usize = largest_task_number(store.all_tasks());
    let ghost tasks = order@.map_values(
        |i: usize| planned_task(all, order@, largest as nat, options@, config@, i),
    );
    let mut planned: Vec<PlannedTask> = Vec::new();
    let mut k: usize = 0;
    assert(planned.deep_view() =~= tasks.take(0));
    while k < order.len()
        invariant
            k <= order.len(),
            full_order(order@, entries@.len() as nat),
            largest + entries@.len() <= usize::MAX,
            all == entries.deep_view(),
            tasks == order@.map_values(
                |i: usize| planned_task(all, order@, largest as nat, options@, config@, i),
            ),
            planned.deep_view() == tasks.take(k as int),
        decreases order.len() - k,
    {
        let ghost before = planned.deep_view();
        planned.push(plan_task(entries, &order, largest, options, config, order[k]));
        assert(planned.deep_view() =~= before.push(tasks[k as int]));
        assert(tasks.take(k + 1) =~= tasks.take(k as int).push(tasks[k as int]));
        k = k + 1;
    }
    assert(tasks.take(k as int) =~= tasks);
    Ok(
        BatchPlan {
            entries: copy_slice(entries),
            planned,
            alias_to_real_id: plan_aliases(entries, &order, largest),
        },
    )
}

proof fn lemma_no_cycle(
    entries: Seq<ManifestTaskView>,
    tasks: Seq<TaskView>,
    config: ConfigView,
    options: AddBatchOptionsView,
)
    requires
        manifest_problems(entries, tasks, config, options).len() == 0,
    ensures
        dependency_order(manifest_needs(entries)).len() == entries.len(),
{
}

// ---------------------------------------------------------------------------------------------
// Adding
// ---------------------------------------------------------------------------------------------

/// What adding the first tasks of a plan came to: the tasks there are, those that were added, the
/// tasks that there were after each of them, and the error that ended it.
#[verifier::ext_equal]
pub struct BatchProgress {
    pub store: TaskStoreView,
    pub added: Seq<TaskView>,
    pub saved: Seq<Seq<TaskView>>,
    pub error: Option<StoreErrorView>,
}

/// What adding the first tasks of a plan comes to.
pub open spec fn batch_progress(s: TaskStoreView, plan: BatchPlanView, n: nat, timestamp: Seq<char>) -> BatchProgress
    decreases n,
{
    if n == 0 {
        BatchProgress { store: s, added: Seq::empty(), saved: Seq::empty(), error: None }
    } else {
        let before = batch_progress(s, plan, (n - 1) as nat, timestamp);
        let p = plan.planned[n - 1];
        let e = plan.entries[p.index as int];
        if before.error is Some {
            before
        } else {
            match before.store.add(
                e.title,
                e.description,
                p.resolved_dependencies,
                p.phase,
                p.workflow,
                timestamp,
            ) {
                Err(error) => BatchProgress { error: Some(error), ..before },
                Ok((after, task)) => BatchProgress {
                    store: after,
                    added: before.added.push(task),
                    saved: before.saved.push(after.tasks),
                    error: None,
                },
            }
        }
    }
}

/// What is to be done for each task that was added: the tasks are written, then its commands are
/// run.
pub open spec fn added_steps(project: ProjectView, done: BatchProgress) -> Seq<BatchStepView> {
    Seq::new(
        done.added.len(),
        |i: int|
            BatchStepView { tasks: done.saved[i], run: added_run(project, done.added[i]) },
    )
}

/// What adding the tasks of a plan leaves to be done.
pub open spec fn batch_added(
    project: ProjectView,
    s: TaskStoreView,
    plan: BatchPlanView,
    auto_start: bool,
    inside: bool,
    runner_type: Seq<char>,
    timestamp: Seq<char>,
) -> (BatchReportView, Result<(), AddBatchErrorView>) {
    let done = batch_progress(s, plan, plan.planned.len(), timestamp);
    (
        BatchReportView {
            ensure_runner: if auto_start && !inside {
                Some(runner_type)
            } else {
                None
            },
            steps: added_steps(project, done),
            report: on_open(s),
            document: None,
        },
        match done.error {
            Some(e) => Err(AddBatchErrorView::Add(add_store_error(e))),
            None => Ok(()),
        },
    )
}

/// The largest number of the tasks grows by one with each task that is added.
pub proof fn lemma_numbers_grow(
    s: TaskStoreView,
    title: Seq<char>,
    description: Seq<char>,
    dependencies: Seq<Seq<char>>,
    phase: Option<Seq<char>>,
    workflow: Seq<char>,
    timestamp: Seq<char>,
)
    requires
        largest_number(s.tasks) < usize::MAX,
        s.add(title, description, dependencies, phase, workflow, timestamp) is Ok,
    ensures
        ({
            let (after, task) = s.add(
                title,
                description,
                dependencies,
                phase,
                workflow,
                timestamp,
            )->Ok_0;
            &&& largest_number(after.tasks) == largest_number(s.tasks) + 1
            &&& task.id == numbered_id(largest_number(s.tasks) + 1)
        }),
{
    let (after, task) = s.add(title, description, dependencies, phase, workflow, timestamp)->Ok_0;
    law_id_has_its_number(largest_number(s.tasks) + 1);
    assert(after.tasks.drop_last() =~= s.tasks);
}

/// A plan whose entries are those of the tasks it holds.
pub open spec fn well_planned(plan: BatchPlanView) -> bool {
    forall|k: int|
        0 <= k < plan.planned.len() ==> (#[trigger] plan.planned[k]).index < plan.entries.len()
}

/// Adds the tasks of a plan.
pub fn add_batch_flow_with_ensure(
    project: &Project,
    store: &mut TaskStore,
    plan: &BatchPlan,
    auto_start: bool,
    inside: bool,
    runner_type: &str,
    timestamp: &str,
) -> (r: (BatchReport, Result<(), AddBatchError>))
    requires
        well_planned(plan@),
        largest_number(old(store)@.tasks) + plan@.planned.len() <= usize::MAX,
    ensures
        (r.0@, outcome(r.1)) == batch_added(
            project@,
            old(store)@,
            plan@,
            auto_start,
            inside,
            runner_type@,
            timestamp@,
        ),
        final(store)@ == batch_progress(
            old(store)@,
            plan@,
            plan@.planned.len(),
            timestamp@,
        ).store,
{
    let ghost given = store@;
    let first = Report::on_open(store);
    let mut steps: Vec<BatchStep> = Vec::new();
    let mut error: Option<StoreError> = None;
    let mut k: usize = 0;
    assert(steps.deep_view() =~= added_steps(
        project@,
        batch_progress(given, plan@, 0, timestamp@),
    ));
    while k < plan.planned.len() && error.is_none()
        invariant
            k <= plan.planned.len(),
            well_planned(plan@),
            largest_number(given.tasks) + plan@.planned.len() <= usize::MAX,
            given == old(store)@,
            ({
                let done = batch_progress(given, plan@, k as nat, timestamp@);
                &&& store@ == done.store
                &&& done.saved.len() == done.added.len()
                &&& steps.deep_view() == added_steps(project@, done)
                &&& error.deep_view() == done.error
            }),
            error is None ==> largest_number(store@.tasks) == largest_number(given.tasks) + k,
            plan@.planned.len() == plan.planned.len(),
            error is Some ==> batch_progress(given, plan@, plan@.planned.len(), timestamp@)
                == batch_progress(given, plan@, k as nat, timestamp@),
        decreases plan.planned.len() - k,
    {
        let planned = &plan.planned[k];
        assert(plan@.planned[k as int] == planned@);
        let entry = &plan.entries[planned.index];
        assert(plan@.entries[planned.index as int] == entry@);
        let ghost before = batch_progress(given, plan@, k as nat, timestamp@);
        let result = store.add_task_at(
            entry.title.as_str(),
            entry.description.as_str(),
            planned.resolved_dependencies.duplicate(),
            as_str_opt(&planned.phase),
            planned.workflow.clone(),
            timestamp,
        );
        match result {
            Err(e) => {
                error = Some(e);
                proof {
                    lemma_progress_ends(given, plan@, (k + 1) as nat, plan@.planned.len(), timestamp@);
                }
            },
            Ok(task) => {
                proof {
                    lemma_numbers_grow(
                        before.store,
                        entry@.title,
                        entry@.description,
                        planned@.resolved_dependencies,
                        planned@.phase,
                        planned@.workflow,
                        timestamp@,
                    );
                }
                let ghost earlier = steps.deep_view();
                steps.push(
                    BatchStep {
                        tasks: copy_slice(store.all_tasks()),
                        run: dispatch_task_added_hooks(project, &task),
                    },
                );
                let ghost after = batch_progress(given, plan@, (k + 1) as nat, timestamp@);
                assert(after.saved =~= before.saved.push(store@.tasks));
                assert(steps.deep_view() =~= earlier.push(
                    BatchStepView { tasks: store@.tasks, run: added_run(project@, task@) },
                ));
                assert(added_steps(project@, after) =~= steps.deep_view());
            },
        }
        k = k + 1;
    }
    let whole = BatchReport {
        ensure_runner: if auto_start && !inside {
            Some(runner_type.to_owned())
        } else {
            None
        },
        steps,
        report: first,
        document: None,
    };
    match error {
        Some(e) => (whole, Err(AddBatchError::Add(map_add_store_error(e)))),
        None => (whole, Ok(())),
    }
}

proof fn lemma_progress_ends(s: TaskStoreView, plan: BatchPlanView, n: nat, m: nat, timestamp: Seq<char>)
    requires
        n <= m,
        batch_progress(s, plan, n, timestamp).error is Some,
    ensures
        batch_progress(s, plan, m, timestamp) == batch_progress(s, plan, n, timestamp),
    decreases m,
{
    if n < m {
        lemma_progress_ends(s, plan, n, (m - 1) as nat, timestamp);
    }
}

// ---------------------------------------------------------------------------------------------
// Showing
// ---------------------------------------------------------------------------------------------

/// A task of a plan as it is shown.
pub open spec fn output_task(plan: BatchPlanView, p: PlannedTaskView) -> BatchOutputTaskView {
    let e = plan.entries[p.index as int];
    BatchOutputTaskView {
        alias: e.id,
        id: p.real_id,
        title: e.title,
        depends_on: p.resolved_dependencies,
        workflow: p.workflow,
        phase: p.phase,
    }
}

/// The tasks of a plan as they are shown.
pub open spec fn shown_tasks(plan: BatchPlanView) -> Seq<BatchOutputTaskView> {
    plan.planned.map_values(|p: PlannedTaskView| output_task(plan, p))
}

/// The tasks of a plan as they are shown.
pub fn output_tasks(plan: &BatchPlan) -> (r: Vec<BatchOutputTask>)
    requires
        well_planned(plan@),
    ensures
        r.deep_view() == shown_tasks(plan@),
{
    let ghost all = shown_tasks(plan@);
    let mut out: Vec<BatchOutputTask> = Vec::new();
    let mut i: usize = 0;
    assert(out.deep_view() =~= all.take(0));
    while i < plan.planned.len()
        invariant
            i <= plan.planned.len(),
            well_planned(plan@),
            all == shown_tasks(plan@),
            out.deep_view() == all.take(i as int),
        decreases plan.planned.len() - i,
    {
        let ghost before = out.deep_view();
        let planned = &plan.planned[i];
        assert(plan@.planned[i as int] == planned@);
        let entry = &plan.entries[planned.index];
        assert(plan@.entries[planned.index as int] == entry@);
        out.push(
            BatchOutputTask {
                alias: entry.id.duplicate(),
                id: planned.real_id.clone(),
                title: entry.title.clone(),
                depends_on: planned.resolved_dependencies.duplicate(),
                workflow: planned.workflow.clone(),
                phase: planned.phase.duplicate(),
            },
        );
        assert(out.deep_view() =~= before.push(all[i as int]));
        assert(all.take(i + 1) =~= all.take(i as int).push(all[i as int]));
        i = i + 1;
    }
    assert(all.take(i as int) =~= all);
    out
}

/// The lines about the names of a manifest and the tasks that were or would be added.
pub open spec fn plan_lines(plan: BatchPlanView, dry_run: bool) -> Seq<Seq<char>> {
    plan.alias_to_real_id.map_values(|e: (Seq<char>, Seq<char>)| e.0 + " -> "@ + e.1)
        + shown_tasks(plan).map_values(
        |t: BatchOutputTaskView|
            if dry_run {
                "would add "@
            } else {
                "added "@
            } + t.id + ": "@ + t.title,
    )
}

/// A report with what is shown of a plan.
pub open spec fn plan_shown(before: BatchReportView, plan: BatchPlanView, dry_run: bool, json: bool) -> BatchReportView {
    if json {
        BatchReportView {
            document: Some(
                BatchOutputView {
                    dry_run,
                    aliases: plan.alias_to_real_id,
                    tasks: shown_tasks(plan),
                },
            ),
            ..before
        }
    } else {
        BatchReportView {
            report: ReportView {
                output: before.report.output + plan_lines(plan, dry_run),
                ..before.report
            },
            ..before
        }
    }
}

fn write_plan_lines(plan: &BatchPlan, dry_run: bool) -> (r: Vec<String>)
    requires
        well_planned(plan@),
    ensures
        r.deep_view() == plan_lines(plan@, dry_run),
{
    let ghost names = plan@.alias_to_real_id.map_values(
        |e: (Seq<char>, Seq<char>)| e.0 + " -> "@ + e.1,
    );
    let mut out: Vec<String> = Vec::new();
    let mut i: usize = 0;
    assert(out.deep_view() =~= names.take(0));
    while i < plan.alias_to_real_id.len()
        invariant
            i <= plan@.alias_to_real_id.len(),
            names == plan@.alias_to_real_id.map_values(
                |e: (Seq<char>, Seq<char>)| e.0 + " -> "@ + e.1,
            ),
            out.deep_view() == names.take(i as int),
        decreases plan@.alias_to_real_id.len() - i,
    {
        let ghost before = out.deep_view();
        let mut line = follow(plan.alias_to_real_id.key_at(i).as_str(), " -> ");
        line.push_str(plan.alias_to_real_id.value_at(i).as_str());
        out.push(line);
        assert(out.deep_view() =~= before.push(names[i as int]));
        assert(names.take(i + 1) =~= names.take(i as int).push(names[i as int]));
        i = i + 1;
    }
    assert(names.take(i as int) =~= names);
    let tasks = output_tasks(plan);
    let ghost rows = shown_tasks(plan@).map_values(
        |t: BatchOutputTaskView|
            if dry_run {
                "would add "@
            } else {
                "added "@
            } + t.id + ": "@ + t.title,
    );
    let mut k: usize = 0;
    assert(names + rows.take(0) =~= names);
    while k < tasks.len()
        invariant
            k <= tasks.len(),
            tasks.deep_view() == shown_tasks(plan@),
            rows == shown_tasks(plan@).map_values(
                |t: BatchOutputTaskView|
                    if dry_run {
                        "would add "@
                    } else {
                        "added "@
                    } + t.id + ": "@ + t.title,
            ),
            out.deep_view() == names + rows.take(k as int),
        decreases tasks.len() - k,
    {
        let ghost before = out.deep_view();
        assert(shown_tasks(plan@)[k as int] == tasks@[k as int]@);
        let mut line = follow(
            if dry_run {
                "would add "
            } else {
                "added "
            },
            tasks[k].id.as_str(),
        );
        line.push_str(": ");
        line.push_str(tasks[k].title.as_str());
        out.push(line);
        assert(out.deep_view() =~= before.push(rows[k as int]));
        assert(names + rows.take(k + 1) =~= (names + rows.take(k as int)).push(rows[k as int]));
        k = k + 1;
    }
    assert(rows.take(k as int) =~= rows);
    out
}

/// A report with what is shown of a plan.
pub fn print_plan(before: BatchReport, plan: &BatchPlan, dry_run: bool, json: bool) -> (r: BatchReport)
    requires
        well_planned(plan@),
    ensures
        r@ == plan_shown(before@, plan@, dry_run, json),
{
    let mut r = before;
    if json {
        r.document = Some(
            BatchOutput {
                dry_run,
                aliases: plan.alias_to_real_id.duplicate(),
                tasks: output_tasks(plan),
            },
        );
    } else {
        append_all(&mut r.report.output, write_plan_lines(plan, dry_run));
    }
    r
}

// ---------------------------------------------------------------------------------------------
// The command
// ---------------------------------------------------------------------------------------------

/// Nothing is added.
pub open spec fn batch_nothing(report: ReportView) -> BatchReportView {
    BatchReportView { ensure_runner: None, steps: Seq::empty(), report, document: None }
}

fn nothing_in_batch(report: Report) -> (r: BatchReport)
    ensures
        r@ == batch_nothing(report@),
{
    let r = BatchReport { ensure_runner: None, steps: Vec::new(), report, document: None };
    assert(r.steps.deep_view() =~= Seq::empty());
    r
}

/// The tasks of a manifest, or why there are none.
pub open spec fn manifest_of(options: AddBatchOptionsView, seen: ManifestSeenView) -> Result<
    Seq<ManifestTaskView>,
    AddBatchErrorView,
> {
    if options.file is Some == options.stdin {
        Err(AddBatchErrorView::User { message: "supply exactly one of --file or --stdin"@ })
    } else {
        match seen {
            ManifestSeenView::StdinFailed { message } => Err(
                AddBatchErrorView::StdinRead { message },
            ),
            ManifestSeenView::FileFailed { path, message } => Err(
                AddBatchErrorView::ManifestRead { path, message },
            ),
            ManifestSeenView::Malformed { message } => Err(
                AddBatchErrorView::ManifestParse { message },
            ),
            ManifestSeenView::Parsed { tasks } => Ok(tasks),
        }
    }
}

fn take_manifest(options: &AddBatchOptions, seen: ManifestSeen) -> (r: Result<
    Vec<ManifestTask>,
    AddBatchError,
>)
    ensures
        outcome(r) == manifest_of(options@, seen@),
{
    if options.file.is_some() == options.stdin {
        return Err(
            AddBatchError::User { message: "supply exactly one of --file or --stdin".to_owned() },
        );
    }
    match seen {
        ManifestSeen::StdinFailed { message } => Err(AddBatchError::StdinRead { message }),
        ManifestSeen::FileFailed { path, message } => Err(
            AddBatchError::ManifestRead { path, message },
        ),
        ManifestSeen::Malformed { message } => Err(AddBatchError::ManifestParse { message }),
        ManifestSeen::Parsed { tasks } => Ok(tasks),
    }
}

/// What the command to add many tasks leaves to be done.
pub open spec fn tasks_added(
    project: ProjectView,
    files: ProjectFilesView,
    options: AddBatchOptionsView,
    seen: ManifestSeenView,
    runner: Option<Seq<char>>,
    now: Instant,
) -> (BatchReportView, Result<(), AddBatchErrorView>) {
    match manifest_of(options, seen) {
        Err(e) => (batch_nothing(quiet()), Err(e)),
        Ok(entries) => match project_config(project, files.config) {
            Err(e) => (
                batch_nothing(quiet()),
                Err(AddBatchErrorView::Add(add_config_error(e))),
            ),
            Ok(config) => match opened(project.state_dir, files.tasks, config) {
                Err(e) => (
                    batch_nothing(quiet()),
                    Err(AddBatchErrorView::Add(AddErrorView::StoreError(e))),
                ),
                Ok(s) => match batch_plan(entries, s.tasks, config, options) {
                    Err(e) => (batch_nothing(on_open(s)), Err(e)),
                    Ok(plan) => if options.dry_run {
                        (plan_shown(batch_nothing(on_open(s)), plan, true, options.json), Ok(()))
                    } else {
                        match batch_added(
                            project,
                            s,
                            plan,
                            project.global_config.runner.auto_start,
                            runner is Some && !blank(runner->0),
                            project.global_config.runner.runner_type,
                            rfc3339_text(now),
                        ) {
                            (report, Err(e)) => (report, Err(e)),
                            (report, Ok(_)) => (
                                plan_shown(report, plan, false, options.json),
                                Ok(()),
                            ),
                        }
                    },
                },
            },
        },
    }
}

/// The number of tasks that a manifest holds.
pub open spec fn manifest_len(seen: ManifestSeenView) -> nat {
    match seen {
        ManifestSeenView::Parsed { tasks } => tasks.len(),
        _ => 0,
    }
}

/// A plan that can be made is well planned, and has as many tasks as the manifest.
pub proof fn lemma_plan(
    entries: Seq<ManifestTaskView>,
    tasks: Seq<TaskView>,
    config: ConfigView,
    options: AddBatchOptionsView,
)
    requires
        entries.len() <= usize::MAX,
        batch_plan(entries, tasks, config, options) is Ok,
    ensures
        ({
            let plan = batch_plan(entries, tasks, config, options)->Ok_0;
            &&& well_planned(plan)
            &&& plan.entries == entries
            &&& plan.planned.len() == entries.len()
        }),
{
    lemma_no_cycle(entries, tasks, config, options);
    law_order_respects_needs(manifest_needs(entries));
}

/// Adds many tasks at a point in time.
pub fn run_add_batch_at(
    project: &Project,
    files: &ProjectFiles,
    options: &AddBatchOptions,
    seen: ManifestSeen,
    runner: Option<&str>,
    now: Instant,
) -> (r: (BatchReport, Result<(), AddBatchError>))
    requires
        now.on_calendar(),
        numbers_left(project@, files@, manifest_len(seen@)),
    ensures
        (r.0@, outcome(r.1)) == tasks_added(
            project@,
            files@,
            options@,
            seen@,
            runner.deep_view(),
            now,
        ),
{
    let entries = match take_manifest(options, seen) {
        Err(e) => {
            return (nothing_in_batch(Report::quiet()), Err(e));
        },
        Ok(t) => t,
    };
    let config = match load_config(project, &files.config) {
        Err(e) => {
            return (
                nothing_in_batch(Report::quiet()),
                Err(AddBatchError::Add(map_add_config_error(e))),
            );
        },
        Ok(c) => c,
    };
    let mut store = match TaskStore::new(
        project.state_dir.as_str(),
        files.tasks.duplicate(),
        &config,
    ) {
        Err(e) => {
            return (
                nothing_in_batch(Report::quiet()),
                Err(AddBatchError::Add(AddError::StoreError(e))),
            );
        },
        Ok(s) => s,
    };
    let before = Report::on_open(&store);
    assert(entries.deep_view().len() == entries.len());
    let plan = match build_plan(entries.as_slice(), &store, &config, options) {
        Err(e) => {
            return (nothing_in_batch(before), Err(e));
        },
        Ok(p) => p,
    };
    proof {
        lemma_plan(entries.deep_view(), store@.tasks, config@, options@);
    }
    if options.dry_run {
        return (print_plan(nothing_in_batch(before), &plan, true, options.json), Ok(()));
    }
    let (report, result) = add_batch_flow_with_ensure(
        project,
        &mut store,
        &plan,
        project.global_config.runner.auto_start,
        inside_runner(runner),
        project.global_config.runner.runner_type.as_str(),
        now.text().as_str(),
    );
    match result {
        Err(e) => (report, Err(e)),
        Ok(_) => (print_plan(report, &plan, false, options.json), Ok(())),
    }
}

/// Adds many tasks.
pub fn run_add_batch(
    project: &Project,
    files: &ProjectFiles,
    options: &AddBatchOptions,
    seen: ManifestSeen,
    runner: Option<&str>,
) -> (r: (BatchReport, Result<(), AddBatchError>))
    requires
        numbers_left(project@, files@, manifest_len(seen@)),
    ensures
        exists|now: Instant|
            now.on_calendar() && (r.0@, outcome(r.1)) == #[trigger] tasks_added(
                project@,
                files@,
                options@,
                seen@,
                runner.deep_view(),
                now,
            ),
{
    run_add_batch_at(project, files, options, seen, runner, Instant::now())
}

// ---------------------------------------------------------------------------------------------
// Laws
// ---------------------------------------------------------------------------------------------

/// Where nothing is said about the texts of a list, it is empty.
pub proof fn lemma_nothing_wrapped(items: Seq<Seq<char>>, before: Seq<char>, after: Seq<char>)
    requires
        wrapped(text_set(items), before, after).len() == 0,
    ensures
        items.len() == 0,
{
    law_set_holds_the_texts(items);
    if items.len() > 0 {
        assert(items.contains(items[0]));
        assert(text_set(items).contains(items[0]));
    }
}

proof fn lemma_known_workflows(
    entries: Seq<ManifestTaskView>,
    options: AddBatchOptionsView,
    config: ConfigView,
    i: int,
)
    requires
        0 <= i < entries.len(),
        unknown_workflows(entries, options, config).len() == 0,
    ensures
        config.sequence(entry_workflow(entries[i], options, config)).len() > 0,
    decreases entries.len(),
{
    if i < entries.len() - 1 {
        lemma_known_workflows(entries.drop_last(), options, config, i);
    }
}

proof fn lemma_known_phases(
    entries: Seq<ManifestTaskView>,
    options: AddBatchOptionsView,
    config: ConfigView,
    i: int,
)
    requires
        0 <= i < entries.len(),
        unknown_phases(entries, options, config).len() == 0,
    ensures
        !unknown_entry_phase(entries[i], options, config),
    decreases entries.len(),
{
    if i < entries.len() - 1 {
        lemma_known_phases(entries.drop_last(), options, config, i);
    }
}

/// Where no name of a list is unknown, each stands for a task of the manifest or one there is.
pub proof fn lemma_known_names(
    entries: Seq<ManifestTaskView>,
    tasks: Seq<TaskView>,
    names: Seq<Seq<char>>,
    k: int,
)
    requires
        0 <= k < names.len(),
        unknown_names(entries, tasks, names).len() == 0,
    ensures
        alias_index(entries, names[k]) is Some || find_task(tasks, names[k]) is Some,
    decreases names.len(),
{
    if k < names.len() - 1 {
        lemma_known_names(entries, tasks, names.drop_last(), k);
    }
}

/// Where no name of a manifest is unknown, none of any of its tasks is.
pub proof fn lemma_known_dependencies(entries: Seq<ManifestTaskView>, tasks: Seq<TaskView>, n: nat, i: int)
    requires
        0 <= i < n <= entries.len(),
        unknown_dependencies(entries, tasks, n).len() == 0,
    ensures
        unknown_names(entries, tasks, entries[i].depends_on).len() == 0,
    decreases n,
{
    if i < n - 1 {
        lemma_known_dependencies(entries, tasks, (n - 1) as nat, i);
    }
}

/// A name that stands for a task of the manifest is among the needs.
pub proof fn lemma_local_need(entries: Seq<ManifestTaskView>, names: Seq<Seq<char>>, k: int)
    requires
        0 <= k < names.len(),
        alias_index(entries, names[k]) is Some,
    ensures
        local_needs(entries, names).contains(alias_index(entries, names[k])->0),
    decreases names.len(),
{
    let i = alias_index(entries, names[k])->0;
    let rest = local_needs(entries, names.drop_last());
    if k == names.len() - 1 {
        assert(local_needs(entries, names).last() == i);
    } else {
        lemma_local_need(entries, names.drop_last(), k);
        let m = rest.index_of(i);
        assert(local_needs(entries, names)[m] == i);
    }
}

proof fn lemma_none_missing(tasks: Seq<TaskView>, deps: Seq<Seq<char>>, j: int)
    requires
        0 <= j <= deps.len(),
        forall|k: int| 0 <= k < deps.len() ==> task_index(tasks, #[trigger] deps[k]) is Some,
    ensures
        missing_dependency(tasks, deps, j) is None,
    decreases deps.len() - j,
{
    if j < deps.len() {
        assert(task_index(tasks, deps[j]) is Some);
        lemma_none_missing(tasks, deps, j + 1);
    }
}

/// What holds after the first tasks of a plan: each of them was added, under the id that it was to
/// have.
pub open spec fn added_as_planned(s: TaskStoreView, plan: BatchPlanView, n: nat, timestamp: Seq<char>) -> bool {
    let done = batch_progress(s, plan, n, timestamp);
    &&& done.error is None
    &&& done.store.tasks == s.tasks + done.added
    &&& done.added.len() == n
    &&& forall|k: int|
        #![trigger done.added[k]]
        0 <= k < n ==> done.added[k].id == plan.planned[k].real_id && done.added[k].dependencies
            == plan.planned[k].resolved_dependencies
}

proof fn lemma_added_as_planned(
    s: TaskStoreView,
    entries: Seq<ManifestTaskView>,
    options: AddBatchOptionsView,
    timestamp: Seq<char>,
    n: nat,
)
    requires
        largest_number(s.tasks) + entries.len() <= usize::MAX,
        batch_plan(entries, s.tasks, s.config, options) is Ok,
        n <= entries.len(),
    ensures
        ({
            let plan = batch_plan(entries, s.tasks, s.config, options)->Ok_0;
            let done = batch_progress(s, plan, n, timestamp);
            &&& added_as_planned(s, plan, n, timestamp)
            &&& done.store.config == s.config
            &&& largest_number(done.store.tasks) == largest_number(s.tasks) + n
        }),
    decreases n,
{
    let plan = batch_plan(entries, s.tasks, s.config, options)->Ok_0;
    if n == 0 {
        assert(s.tasks + Seq::<TaskView>::empty() =~= s.tasks);
        return;
    }
    let m = (n - 1) as nat;
    lemma_added_as_planned(s, entries, options, timestamp, m);
    lemma_plan(entries, s.tasks, s.config, options);
    let before = batch_progress(s, plan, m, timestamp);
    let needs = manifest_needs(entries);
    let order = dependency_order(needs);
    law_order_respects_needs(needs);
    let p = plan.planned[m as int];
    let at = order[m as int];
    let e = entries[at as int];
    lemma_nothing_wrapped(
        unknown_workflows(entries, options, s.config),
        "unknown workflow '"@,
        "'"@,
    );
    lemma_nothing_wrapped(unknown_phases(entries, options, s.config), "unknown phase: "@, ""@);
    lemma_nothing_wrapped(
        unknown_dependencies(entries, s.tasks, entries.len()),
        "unknown dependency reference: "@,
        ""@,
    );
    lemma_known_workflows(entries, options, s.config, at as int);
    lemma_known_phases(entries, options, s.config, at as int);
    lemma_known_dependencies(entries, s.tasks, entries.len(), at as int);
    let deps = p.resolved_dependencies;
    assert forall|k: int| 0 <= k < deps.len() implies task_index(
        before.store.tasks,
        #[trigger] deps[k],
    ) is Some by {
        let name = e.depends_on[k];
        lemma_known_names(entries, s.tasks, e.depends_on, k);
        lemma_task_index(before.store.tasks, deps[k]);
        match alias_index(entries, name) {
            Some(i) => {
                lemma_local_need(entries, e.depends_on, k);
                let mine = needs[at as int];
                let j = mine.index_of(i);
                assert(ready(needs, order[m as int] as int, order.take(m as int)));
                assert(order.take(m as int).contains(mine[j]));
                let place = order.take(m as int).index_of(i);
                assert(order[place] == i);
                assert(order.index_of(i) == place);
                assert(before.added[place].id == plan.planned[place].real_id);
                assert(before.store.tasks[s.tasks.len() + place].id == deps[k]);
            },
            None => {
                lemma_task_index(s.tasks, name);
                let at = task_index(s.tasks, name)->0;
                assert(before.store.tasks[at] == s.tasks[at]);
            },
        }
    }
    lemma_none_missing(before.store.tasks, deps, 0);
    assert(before.store.add(
        e.title,
        e.description,
        deps,
        p.phase,
        p.workflow,
        timestamp,
    ) is Ok);
    lemma_numbers_grow(before.store, e.title, e.description, deps, p.phase, p.workflow, timestamp);
    let done = batch_progress(s, plan, n, timestamp);
    assert(order.index_of(at) == m);
    assert(done.store.tasks =~= s.tasks + done.added);
    assert forall|k: int| #![trigger done.added[k]] 0 <= k < n implies done.added[k].id
        == plan.planned[k].real_id && done.added[k].dependencies
        == plan.planned[k].resolved_dependencies by {
        if k < m {
            assert(done.added[k] == before.added[k]);
        }
    }
}

/// Each task that is added is there, at the end of the tasks, when its commands are run, and none
/// that is added later.
pub proof fn law_commands_find_their_task(
    s: TaskStoreView,
    plan: BatchPlanView,
    n: nat,
    timestamp: Seq<char>,
)
    ensures
        ({
            let done = batch_progress(s, plan, n, timestamp);
            &&& done.saved.len() == done.added.len()
            &&& done.store.tasks == s.tasks + done.added
            &&& forall|i: int|
                0 <= i < done.added.len() ==> #[trigger] done.saved[i] == s.tasks
                    + done.added.take(i + 1)
        }),
    decreases n,
{
    let done = batch_progress(s, plan, n, timestamp);
    if n == 0 {
        assert(s.tasks + done.added =~= s.tasks);
    } else {
        law_commands_find_their_task(s, plan, (n - 1) as nat, timestamp);
        let before = batch_progress(s, plan, (n - 1) as nat, timestamp);
        if before.error is None && done.error is None {
            assert(done.store.tasks =~= s.tasks + done.added);
            assert forall|i: int| 0 <= i < done.added.len() implies #[trigger] done.saved[i]
                == s.tasks + done.added.take(i + 1) by {
                if i < before.added.len() {
                    assert(done.saved[i] == before.saved[i]);
                    assert(done.added.take(i + 1) =~= before.added.take(i + 1));
                } else {
                    assert(done.added.take(i + 1) =~= done.added);
                }
            }
        }
    }
}

/// A plan that can be made is carried out whole: each of its tasks is added, under the id that the
/// plan names, and with the dependencies that it names.
pub proof fn law_plan_is_carried_out(
    s: TaskStoreView,
    entries: Seq<ManifestTaskView>,
    options: AddBatchOptionsView,
    timestamp: Seq<char>,
)
    requires
        largest_number(s.tasks) + entries.len() <= usize::MAX,
        batch_plan(entries, s.tasks, s.config, options) is Ok,
    ensures
        added_as_planned(
            s,
            batch_plan(entries, s.tasks, s.config, options)->Ok_0,
            entries.len(),
            timestamp,
        ),
{
    lemma_added_as_planned(s, entries, options, timestamp, entries.len());
}

/// A manifest with no tasks, with two tasks of one name or with two of one title is never added.
pub proof fn law_planned_names_are_distinct(
    entries: Seq<ManifestTaskView>,
    tasks: Seq<TaskView>,
    config: ConfigView,
    options: AddBatchOptionsView,
)
    requires
        batch_plan(entries, tasks, config, options) is Ok,
    ensures
        entries.len() > 0,
        forall|i: int, j: int|
            0 <= i < j < entries.len() && (#[trigger] entries[i]).id is Some ==> entries[i].id
                != (#[trigger] entries[j]).id,
        forall|i: int, j: int|
            0 <= i < j < entries.len() ==> lowercase((#[trigger] entries[i]).title) != lowercase(
                (#[trigger] entries[j]).title,
            ),
{
    lemma_nothing_wrapped(repeated_aliases(entries), "duplicate local id alias: "@, ""@);
    lemma_nothing_wrapped(
        repeated_texts(lower_titles(entries)),
        "duplicate title in manifest: "@,
        ""@,
    );
    assert forall|i: int, j: int|
        0 <= i < j < entries.len() && (#[trigger] entries[i]).id is Some implies entries[i].id != (
    #[trigger] entries[j]).id by {
        if entries[i].id == entries[j].id {
            lemma_repeated_alias(entries, i, j);
        }
    }
    assert forall|i: int, j: int| 0 <= i < j < entries.len() implies lowercase(
        (#[trigger] entries[i]).title,
    ) != lowercase((#[trigger] entries[j]).title) by {
        if lowercase(entries[i].title) == lowercase(entries[j].title) {
            lemma_repeated_text(lower_titles(entries), i, j);
        }
    }
}

proof fn lemma_repeated_alias(entries: Seq<ManifestTaskView>, i: int, j: int)
    requires
        0 <= i < j < entries.len(),
        entries[i].id is Some,
        entries[i].id == entries[j].id,
    ensures
        repeated_aliases(entries).len() > 0,
    decreases entries.len(),
{
    let front = entries.drop_last();
    if j < entries.len() - 1 {
        lemma_repeated_alias(front, i, j);
    } else {
        lemma_alias_there(front, entries[i].id->0, i);
    }
}

proof fn lemma_alias_there(entries: Seq<ManifestTaskView>, alias: Seq<char>, i: int)
    requires
        0 <= i < entries.len(),
        entries[i].id == Some(alias),
    ensures
        alias_index(entries, alias) is Some,
    decreases entries.len(),
{
    if i < entries.len() - 1 {
        lemma_alias_there(entries.drop_last(), alias, i);
    }
}

proof fn lemma_repeated_text(items: Seq<Seq<char>>, i: int, j: int)
    requires
        0 <= i < j < items.len(),
        items[i] == items[j],
    ensures
        repeated_texts(items).len() > 0,
    decreases items.len(),
{
    let front = items.drop_last();
    if j < items.len() - 1 {
        lemma_repeated_text(front, i, j);
    } else {
        assert(front[i] == items.last());
    }
}

} // verus!
