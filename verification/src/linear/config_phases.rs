//! Changing the line of phases of a project.

use vstd::prelude::*;

use crate::commands::report::{on_open, quiet, Report, ReportView};
use crate::duplicate::{outcome, Duplicate};
use crate::engine::global_config::list_has;
use crate::engine::tasks::{
    lemma_position, opened, position, position_of, StoreError, StoreErrorView, Task, TaskStore,
    TaskView,
};
use crate::json_doc::{
    is_null, json_item, json_list, json_object, json_parsed, json_pretty, json_text, json_to_pretty,
    new_object, no_members, object_of, parse_json, set_member, JsonItem,
};
use crate::linear::config::{
    as_workflow, line_as_workflow, load_project_config, loaded_line, ConfigError, ConfigErrorView,
    ConfigRead,
};
use crate::linear::project::{
    config_file, config_path, LineFiles, LineFilesView, Project, ProjectView,
};
use crate::rows::{choice, keep_chosen, rows_of, write_rows, Choice, RowWriter};
use crate::text::{follow, join, join_strs, keep, lemma_keep, lemma_keep_has, str_eq};

verus! {

/// Why the phases of a project could not be changed.
#[derive(Debug, PartialEq, Eq)]
pub enum PhasesError {
    NoOperation,
    ConflictingPositionFlags,
    PhaseNotFound { name: String },
    DuplicatePhase { name: String },
    PhaseBusy { name: String, task_ids: Vec<String> },
    ConfigNotFound { path: String },
    ConfigRead { path: String, message: String },
    ConfigLoad { path: String, message: String },
    ConfigWrite { path: String, message: String },
    StoreError(StoreError),
}

/// The contents of a `PhasesError`.
#[verifier::ext_equal]
pub enum PhasesErrorView {
    NoOperation,
    ConflictingPositionFlags,
    PhaseNotFound { name: Seq<char> },
    DuplicatePhase { name: Seq<char> },
    PhaseBusy { name: Seq<char>, task_ids: Seq<Seq<char>> },
    ConfigNotFound { path: Seq<char> },
    ConfigRead { path: Seq<char>, message: Seq<char> },
    ConfigLoad { path: Seq<char>, message: Seq<char> },
    ConfigWrite { path: Seq<char>, message: Seq<char> },
    StoreError(StoreErrorView),
}

impl View for PhasesError {
    type V = PhasesErrorView;

    open spec fn view(&self) -> PhasesErrorView {
        match self {
            PhasesError::NoOperation => PhasesErrorView::NoOperation,
            PhasesError::ConflictingPositionFlags => PhasesErrorView::ConflictingPositionFlags,
            PhasesError::PhaseNotFound { name } => PhasesErrorView::PhaseNotFound { name: name@ },
            PhasesError::DuplicatePhase { name } => PhasesErrorView::DuplicatePhase { name: name@ },
            PhasesError::PhaseBusy { name, task_ids } => PhasesErrorView::PhaseBusy { name: name@, task_ids: task_ids.deep_view() },
            PhasesError::ConfigNotFound { path } => PhasesErrorView::ConfigNotFound { path: path@ },
            PhasesError::ConfigRead { path, message } => PhasesErrorView::ConfigRead { path: path@, message: message@ },
            PhasesError::ConfigLoad { path, message } => PhasesErrorView::ConfigLoad { path: path@, message: message@ },
            PhasesError::ConfigWrite { path, message } => PhasesErrorView::ConfigWrite { path: path@, message: message@ },
            PhasesError::StoreError(inner) => PhasesErrorView::StoreError(inner@),
        }
    }
}

impl DeepView for PhasesError {
    type V = PhasesErrorView;

    open spec fn deep_view(&self) -> PhasesErrorView {
        self@
    }
}

impl Duplicate for PhasesError {
    fn duplicate(&self) -> (r: Self) {
        match self {
            PhasesError::NoOperation => PhasesError::NoOperation,
            PhasesError::ConflictingPositionFlags => PhasesError::ConflictingPositionFlags,
            PhasesError::PhaseNotFound { name } => PhasesError::PhaseNotFound { name: name.duplicate() },
            PhasesError::DuplicatePhase { name } => PhasesError::DuplicatePhase { name: name.duplicate() },
            PhasesError::PhaseBusy { name, task_ids } => PhasesError::PhaseBusy { name: name.duplicate(), task_ids: task_ids.duplicate() },
            PhasesError::ConfigNotFound { path } => PhasesError::ConfigNotFound { path: path.duplicate() },
            PhasesError::ConfigRead { path, message } => PhasesError::ConfigRead { path: path.duplicate(), message: message.duplicate() },
            PhasesError::ConfigLoad { path, message } => PhasesError::ConfigLoad { path: path.duplicate(), message: message.duplicate() },
            PhasesError::ConfigWrite { path, message } => PhasesError::ConfigWrite { path: path.duplicate(), message: message.duplicate() },
            PhasesError::StoreError(inner) => PhasesError::StoreError(inner.duplicate()),
        }
    }
}

impl Clone for PhasesError {
    fn clone(&self) -> (r: Self)
        ensures
            r@ == self@,
    {
        self.duplicate()
    }
}

impl PhasesErrorView {
    /// The text shown for the error.
    pub open spec fn message(self) -> Seq<char> {
        match self {
            PhasesErrorView::NoOperation => "at least one of --add or --remove is required"@,
            PhasesErrorView::ConflictingPositionFlags => "--after and --before cannot be used together"@,
            PhasesErrorView::PhaseNotFound { name } => "phase not found: "@ + name,
            PhasesErrorView::DuplicatePhase { name } => "phase already exists: "@ + name,
            PhasesErrorView::PhaseBusy { name, task_ids } => "cannot remove phase '"@ + name + "': tasks currently in that phase: "@ + join(task_ids, ", "@),
            PhasesErrorView::ConfigNotFound { path } => "config file not found: "@ + path,
            PhasesErrorView::ConfigRead { path, .. } => "failed to read "@ + path,
            PhasesErrorView::ConfigLoad { path, message } => "failed to load config "@ + path + ": "@ + message,
            PhasesErrorView::ConfigWrite { path, .. } => "failed to write "@ + path,
            PhasesErrorView::StoreError(inner) => inner.message(),
        }
    }
}

impl PhasesError {
    /// The text shown for the error.
    pub fn message(&self) -> (r: String)
        ensures
            r@ == self@.message(),
    {
        match self {
            PhasesError::NoOperation => "at least one of --add or --remove is required".to_owned(),
            PhasesError::ConflictingPositionFlags => "--after and --before cannot be used together".to_owned(),
            PhasesError::PhaseNotFound { name } => {
                let mut out = "phase not found: ".to_owned();
                out.push_str(name.as_str());
                out
            },
            PhasesError::DuplicatePhase { name } => {
                let mut out = "phase already exists: ".to_owned();
                out.push_str(name.as_str());
                out
            },
            PhasesError::PhaseBusy { name, task_ids } => {
                let mut out = "cannot remove phase '".to_owned();
                out.push_str(name.as_str());
                out.push_str("': tasks currently in that phase: ");
                out.push_str(join_strs(task_ids, ", ").as_str());
                out
            },
            PhasesError::ConfigNotFound { path } => {
                let mut out = "config file not found: ".to_owned();
                out.push_str(path.as_str());
                out
            },
            PhasesError::ConfigRead { path, .. } => {
                let mut out = "failed to read ".to_owned();
                out.push_str(path.as_str());
                out
            },
            PhasesError::ConfigLoad { path, message } => {
                let mut out = "failed to load config ".to_owned();
                out.push_str(path.as_str());
                out.push_str(": ");
                out.push_str(message.as_str());
                out
            },
            PhasesError::ConfigWrite { path, .. } => {
                let mut out = "failed to write ".to_owned();
                out.push_str(path.as_str());
                out
            },
            PhasesError::StoreError(inner) => inner.message(),
        }
    }
}


/// What a user wants of the phases.
#[derive(Debug, PartialEq, Eq)]
pub struct PhasesChange {
    pub add: Option<String>,
    pub after: Option<String>,
    pub before: Option<String>,
    pub remove: Option<String>,
}

/// The contents of a `PhasesChange`.
#[verifier::ext_equal]
pub struct PhasesChangeView {
    pub add: Option<Seq<char>>,
    pub after: Option<Seq<char>>,
    pub before: Option<Seq<char>>,
    pub remove: Option<Seq<char>>,
}

impl View for PhasesChange {
    type V = PhasesChangeView;

    open spec fn view(&self) -> PhasesChangeView {
        PhasesChangeView {
            add: self.add.deep_view(),
            after: self.after.deep_view(),
            before: self.before.deep_view(),
            remove: self.remove.deep_view(),
        }
    }
}

impl DeepView for PhasesChange {
    type V = PhasesChangeView;

    open spec fn deep_view(&self) -> PhasesChangeView {
        self@
    }
}

impl Duplicate for PhasesChange {
    fn duplicate(&self) -> (r: Self) {
        PhasesChange {
            add: self.add.duplicate(),
            after: self.after.duplicate(),
            before: self.before.duplicate(),
            remove: self.remove.duplicate(),
        }
    }
}

impl Clone for PhasesChange {
    fn clone(&self) -> (r: Self)
        ensures
            r@ == self@,
    {
        self.duplicate()
    }
}


/// What reading the configuration file as a text gave.
#[derive(Debug, PartialEq, Eq)]
pub enum DocumentSeen {
    Failed { message: String },
    Text { text: String },
}

/// The contents of a `DocumentSeen`.
#[verifier::ext_equal]
pub enum DocumentSeenView {
    Failed { message: Seq<char> },
    Text { text: Seq<char> },
}

impl View for DocumentSeen {
    type V = DocumentSeenView;

    open spec fn view(&self) -> DocumentSeenView {
        match self {
            DocumentSeen::Failed { message } => DocumentSeenView::Failed { message: message@ },
            DocumentSeen::Text { text } => DocumentSeenView::Text { text: text@ },
        }
    }
}

impl DeepView for DocumentSeen {
    type V = DocumentSeenView;

    open spec fn deep_view(&self) -> DocumentSeenView {
        self@
    }
}

impl Duplicate for DocumentSeen {
    fn duplicate(&self) -> (r: Self) {
        match self {
            DocumentSeen::Failed { message } => DocumentSeen::Failed { message: message.duplicate() },
            DocumentSeen::Text { text } => DocumentSeen::Text { text: text.duplicate() },
        }
    }
}

impl Clone for DocumentSeen {
    fn clone(&self) -> (r: Self)
        ensures
            r@ == self@,
    {
        self.duplicate()
    }
}


/// What changing the phases leaves to be done, whether or not it succeeded.
#[derive(Debug, PartialEq, Eq)]
pub struct PhasesReport {
    pub report: Report,
    /// The text of the configuration file.
    pub config_text: Option<String>,
}

/// The contents of a `PhasesReport`.
#[verifier::ext_equal]
pub struct PhasesReportView {
    pub report: ReportView,
    pub config_text: Option<Seq<char>>,
}

impl View for PhasesReport {
    type V = PhasesReportView;

    open spec fn view(&self) -> PhasesReportView {
        PhasesReportView {
            report: self.report@,
            config_text: self.config_text.deep_view(),
        }
    }
}

impl DeepView for PhasesReport {
    type V = PhasesReportView;

    open spec fn deep_view(&self) -> PhasesReportView {
        self@
    }
}

impl Duplicate for PhasesReport {
    fn duplicate(&self) -> (r: Self) {
        PhasesReport {
            report: self.report.duplicate(),
            config_text: self.config_text.duplicate(),
        }
    }
}

impl Clone for PhasesReport {
    fn clone(&self) -> (r: Self)
        ensures
            r@ == self@,
    {
        self.duplicate()
    }
}


/// The error for a configuration that could not be used.
pub open spec fn phases_config_error(e: ConfigErrorView) -> PhasesErrorView {
    match e {
        ConfigErrorView::NotFound { path } => PhasesErrorView::ConfigNotFound { path },
        ConfigErrorView::Read { path, message } => PhasesErrorView::ConfigRead { path, message },
        ConfigErrorView::Parse { path, message } => PhasesErrorView::ConfigLoad { path, message },
    }
}

fn map_config_error(error: ConfigError) -> (r: PhasesError)
    ensures
        r@ == phases_config_error(error@),
{
    match error {
        ConfigError::NotFound { path } => PhasesError::ConfigNotFound { path },
        ConfigError::Read { path, message } => PhasesError::ConfigRead { path, message },
        ConfigError::Parse { path, message } => PhasesError::ConfigLoad { path, message },
    }
}

// ---------------------------------------------------------------------------------------------
// What is in the way of a change
// ---------------------------------------------------------------------------------------------

/// Tasks in a phase.
pub struct InPhase;

impl Choice<Task, String> for InPhase {
    open spec fn holds(t: TaskView, phase: Seq<char>) -> bool {
        t.state == phase
    }

    fn check(task: &Task, phase: &String) -> (r: bool) {
        str_eq(task.state.as_str(), phase.as_str())
    }
}

/// A task by its id.
pub struct TaskId;

impl RowWriter<Task, ()> for TaskId {
    open spec fn row(t: TaskView, context: ()) -> Seq<char> {
        t.id
    }

    fn write(task: &Task, context: &()) -> (r: String) {
        task.id.clone()
    }
}

/// The ids of the tasks in a phase.
pub open spec fn busy_ids(tasks: Seq<TaskView>, phase: Seq<char>) -> Seq<Seq<char>> {
    rows_of::<Task, (), TaskId>(keep(tasks, choice::<Task, String, InPhase>(phase)), ())
}

fn find_busy_ids(tasks: &[Task], phase: &str) -> (r: Vec<String>)
    ensures
        r.deep_view() == busy_ids(tasks.deep_view(), phase@),
{
    let found = keep_chosen::<Task, String, InPhase>(tasks, &phase.to_owned());
    write_rows::<Task, (), TaskId>(found.as_slice(), &())
}

/// What is in the way of a change by the names of the phases alone.
pub open spec fn name_problem(names: Seq<Seq<char>>, change: PhasesChangeView) -> Option<PhasesErrorView> {
    if change.after is Some && !names.contains(change.after->0) {
        Some(PhasesErrorView::PhaseNotFound { name: change.after->0 })
    } else if change.before is Some && !names.contains(change.before->0) {
        Some(PhasesErrorView::PhaseNotFound { name: change.before->0 })
    } else if change.add is Some && names.contains(change.add->0) {
        Some(PhasesErrorView::DuplicatePhase { name: change.add->0 })
    } else {
        None
    }
}

fn find_name_problem(names: &Vec<String>, change: &PhasesChange) -> (r: Option<PhasesError>)
    ensures
        r.deep_view() == name_problem(names.deep_view(), change@),
{
    match &change.after {
        Some(after) => if !list_has(names, after.as_str()) {
            return Some(PhasesError::PhaseNotFound { name: after.clone() });
        },
        None => {},
    }
    match &change.before {
        Some(before) => if !list_has(names, before.as_str()) {
            return Some(PhasesError::PhaseNotFound { name: before.clone() });
        },
        None => {},
    }
    match &change.add {
        Some(add) => if list_has(names, add.as_str()) {
            return Some(PhasesError::DuplicatePhase { name: add.clone() });
        },
        None => {},
    }
    None
}

/// The names of the phases before a change that nothing is in the way of, and what is left to be
/// done in any case.
pub open spec fn phases_checked(project: ProjectView, files: LineFilesView, change: PhasesChangeView) -> (
    ReportView,
    Result<Seq<Seq<char>>, PhasesErrorView>,
) {
    if change.add is None && change.remove is None {
        (quiet(), Err(PhasesErrorView::NoOperation))
    } else if change.after is Some && change.before is Some {
        (quiet(), Err(PhasesErrorView::ConflictingPositionFlags))
    } else {
        match loaded_line(
            config_path(project),
            files.config,
            project.global_config.default_max_retries,
        ) {
            Err(e) => (quiet(), Err(phases_config_error(e))),
            Ok(config) => match name_problem(config.names(), change) {
                Some(e) => (quiet(), Err(e)),
                None => match change.remove {
                    None => (quiet(), Ok(config.names())),
                    Some(name) => match opened(project.state_dir, files.tasks, as_workflow(config)) {
                        Err(e) => (quiet(), Err(PhasesErrorView::StoreError(e))),
                        Ok(s) => if busy_ids(s.tasks, name).len() > 0 {
                            (
                                on_open(s),
                                Err(
                                    PhasesErrorView::PhaseBusy {
                                        name,
                                        task_ids: busy_ids(s.tasks, name),
                                    },
                                ),
                            )
                        } else {
                            (on_open(s), Ok(config.names()))
                        },
                    },
                },
            },
        }
    }
}

/// The names of the phases before a change that nothing is in the way of, and what is left to be
/// done in any case.
pub fn check_phases(project: &Project, files: &LineFiles, change: &PhasesChange) -> (r: (
    Report,
    Result<Vec<String>, PhasesError>,
))
    ensures
        (r.0@, outcome(r.1)) == phases_checked(project@, files@, change@),
{
    if change.add.is_none() && change.remove.is_none() {
        return (Report::quiet(), Err(PhasesError::NoOperation));
    }
    if change.after.is_some() && change.before.is_some() {
        return (Report::quiet(), Err(PhasesError::ConflictingPositionFlags));
    }
    let path = config_file(project);
    let config = match load_project_config(path.as_str(), &files.config, &project.global_config) {
        Err(e) => {
            return (Report::quiet(), Err(map_config_error(e)));
        },
        Ok(c) => c,
    };
    let names = config.phase_names();
    match find_name_problem(&names, change) {
        Some(e) => {
            return (Report::quiet(), Err(e));
        },
        None => {},
    }
    let name = match &change.remove {
        None => {
            return (Report::quiet(), Ok(names));
        },
        Some(name) => name,
    };
    let store = match TaskStore::new(
        project.state_dir.as_str(),
        files.tasks.duplicate(),
        &line_as_workflow(&config),
    ) {
        Err(e) => {
            return (Report::quiet(), Err(PhasesError::StoreError(e)));
        },
        Ok(s) => s,
    };
    let task_ids = find_busy_ids(store.all_tasks(), name.as_str());
    assert(task_ids.deep_view().len() == task_ids.len());
    if task_ids.len() > 0 {
        return (
            Report::on_open(&store),
            Err(PhasesError::PhaseBusy { name: name.clone(), task_ids }),
        );
    }
    (Report::on_open(&store), Ok(names))
}

// ---------------------------------------------------------------------------------------------
// The phases after a change
// ---------------------------------------------------------------------------------------------

/// Phases other than one.
pub struct OtherThan;

impl Choice<String, String> for OtherThan {
    open spec fn holds(phase: Seq<char>, name: Seq<char>) -> bool {
        phase != name
    }

    fn check(phase: &String, name: &String) -> (r: bool) {
        !str_eq(phase.as_str(), name.as_str())
    }
}

/// The phases without one.
pub open spec fn phases_left(names: Seq<Seq<char>>, remove: Option<Seq<char>>) -> Seq<Seq<char>> {
    match remove {
        Some(name) => keep(names, choice::<String, String, OtherThan>(name)),
        None => names,
    }
}

fn remove_phase(names: Vec<String>, remove: &Option<String>) -> (r: Vec<String>)
    ensures
        r.deep_view() == phases_left(names.deep_view(), remove.deep_view()),
{
    match remove {
        Some(name) => keep_chosen::<String, String, OtherThan>(names.as_slice(), name),
        None => names,
    }
}

/// The phases next to which a new one is to stand are left.
pub open spec fn place_is_left(left: Seq<Seq<char>>, change: PhasesChangeView) -> bool {
    change.add is Some ==> (change.after is Some ==> left.contains(change.after->0)) && (
    change.before is Some ==> left.contains(change.before->0))
}

fn has_place(left: &Vec<String>, change: &PhasesChange) -> (r: bool)
    ensures
        r == place_is_left(left.deep_view(), change@),
{
    if change.add.is_none() {
        return true;
    }
    let behind = match &change.after {
        Some(after) => list_has(left, after.as_str()),
        None => true,
    };
    let in_front = match &change.before {
        Some(before) => list_has(left, before.as_str()),
        None => true,
    };
    behind && in_front
}

/// The phases with a new one: behind one, in front of one, or at the end.
pub open spec fn phases_with(left: Seq<Seq<char>>, change: PhasesChangeView) -> Seq<Seq<char>> {
    match change.add {
        None => left,
        Some(name) => match change.after {
            Some(after) => left.insert(position(left, after)->0 + 1, name),
            None => match change.before {
                Some(before) => left.insert(position(left, before)->0, name),
                None => left.push(name),
            },
        },
    }
}

fn insert_phase(left: Vec<String>, change: &PhasesChange) -> (r: Vec<String>)
    requires
        place_is_left(left.deep_view(), change@),
    ensures
        r.deep_view() == phases_with(left.deep_view(), change@),
{
    let ghost all = left.deep_view();
    let mut out = left;
    let name = match &change.add {
        None => {
            return out;
        },
        Some(name) => name,
    };
    match &change.after {
        Some(after) => {
            proof {
                lemma_position(all, after@);
            }
            match position_of(out.as_slice(), after.as_str()) {
                Some(i) => {
                    assert(i < all.len() == out.len());
                    out.insert(i + 1, name.clone());
                    assert(out.deep_view() =~= all.insert(i + 1, name@));
                },
                None => {},
            }
        },
        None => match &change.before {
            Some(before) => {
                proof {
                    lemma_position(all, before@);
                }
                match position_of(out.as_slice(), before.as_str()) {
                    Some(i) => {
                        out.insert(i, name.clone());
                        assert(out.deep_view() =~= all.insert(i as int, name@));
                    },
                    None => {},
                }
            },
            None => {
                out.push(name.clone());
                assert(out.deep_view() =~= all.push(name@));
            },
        },
    }
    out
}

// ---------------------------------------------------------------------------------------------
// The file
// ---------------------------------------------------------------------------------------------

/// Names as a value of a document.
pub open spec fn names_item(names: Seq<Seq<char>>) -> JsonItem {
    JsonItem::List(names.map_values(|s: Seq<char>| JsonItem::Text(s)))
}

fn names_value(names: &Vec<String>) -> (r: serde_json::Value)
    ensures
        json_item(r) == names_item(names.deep_view()),
{
    let ghost all = names.deep_view().map_values(|s: Seq<char>| JsonItem::Text(s));
    let mut out: Vec<serde_json::Value> = Vec::new();
    let mut i: usize = 0;
    assert(out@.map_values(|x: serde_json::Value| json_item(x)) =~= all.take(0));
    while i < names.len()
        invariant
            i <= names.len(),
            all == names.deep_view().map_values(|s: Seq<char>| JsonItem::Text(s)),
            out@.map_values(|x: serde_json::Value| json_item(x)) == all.take(i as int),
        decreases names.len() - i,
    {
        let ghost before = out@;
        let value = json_text(names[i].clone());
        out.push(value);
        assert(names.deep_view()[i as int] == names@[i as int]@);
        assert(out@.map_values(|x: serde_json::Value| json_item(x)) =~= before.map_values(
            |x: serde_json::Value| json_item(x),
        ).push(all[i as int]));
        assert(all.take(i + 1) =~= all.take(i as int).push(all[i as int]));
        i = i + 1;
    }
    assert(all.take(i as int) =~= all);
    json_list(out)
}

/// A document that can hold phases: an object, or nothing.
pub open spec fn can_hold_phases(item: JsonItem) -> bool {
    item is Object || item is Null
}

/// A document with the names of the phases; what it holds besides stays.
pub open spec fn with_phases(item: JsonItem, names: Seq<Seq<char>>) -> JsonItem {
    let members = match item {
        JsonItem::Object(m) => m,
        _ => no_members(),
    };
    JsonItem::Object(members.insert("state_machine"@, names_item(names)))
}

/// The text of the configuration file with the names of the phases.
pub open spec fn patched(path: Seq<char>, document: DocumentSeenView, names: Seq<Seq<char>>) -> Result<
    Seq<char>,
    PhasesErrorView,
> {
    match document {
        DocumentSeenView::Failed { message } => Err(PhasesErrorView::ConfigRead { path, message }),
        DocumentSeenView::Text { text } => match json_parsed(text) {
            Err(message) => Err(PhasesErrorView::ConfigLoad { path, message }),
            Ok(item) => Ok(json_pretty(with_phases(item, names))),
        },
    }
}

/// Whether the text of the configuration file can hold phases, where it is a document.
pub open spec fn is_patchable(document: DocumentSeenView) -> bool {
    document matches DocumentSeenView::Text { text } ==> (json_parsed(text) matches Ok(item)
        ==> can_hold_phases(item))
}

fn check_patchable(document: &DocumentSeen) -> (r: bool)
    ensures
        r == is_patchable(document@),
{
    match document {
        DocumentSeen::Failed { .. } => true,
        DocumentSeen::Text { text } => match parse_json(text.as_str()) {
            Err(_) => true,
            Ok(value) => object_of(&value).is_some() || is_null(&value),
        },
    }
}

fn patch_state_machine(path: &str, document: &DocumentSeen, names: &Vec<String>) -> (r: Result<
    String,
    PhasesError,
>)
    requires
        is_patchable(document@),
    ensures
        outcome(r) == patched(path@, document@, names.deep_view()),
{
    match document {
        DocumentSeen::Failed { message } => Err(
            PhasesError::ConfigRead { path: path.to_owned(), message: message.clone() },
        ),
        DocumentSeen::Text { text } => match parse_json(text.as_str()) {
            Err(message) => Err(PhasesError::ConfigLoad { path: path.to_owned(), message }),
            Ok(value) => {
                let mut object = match object_of(&value) {
                    Some(m) => m,
                    None => new_object(),
                };
                set_member(&mut object, "state_machine".to_owned(), names_value(names));
                Ok(json_to_pretty(&json_object(object)))
            },
        },
    }
}

// ---------------------------------------------------------------------------------------------
// The command
// ---------------------------------------------------------------------------------------------

/// The phases after a change.
pub open spec fn phases_after(names: Seq<Seq<char>>, change: PhasesChangeView) -> Seq<Seq<char>> {
    phases_with(phases_left(names, change.remove), change)
}

/// What a change of the phases leaves to be done.
pub open spec fn phases_changed(
    project: ProjectView,
    files: LineFilesView,
    document: DocumentSeenView,
    change: PhasesChangeView,
) -> (PhasesReportView, Result<(), PhasesErrorView>) {
    match phases_checked(project, files, change) {
        (report, Err(e)) => (PhasesReportView { report, config_text: None }, Err(e)),
        (report, Ok(names)) => {
            let after = phases_after(names, change);
            match patched(config_path(project), document, after) {
                Err(e) => (PhasesReportView { report, config_text: None }, Err(e)),
                Ok(text) => (
                    PhasesReportView {
                        report: report.said("state_machine: "@ + join(after, " → "@)),
                        config_text: Some(text),
                    },
                    Ok(()),
                ),
            }
        },
    }
}

/// A change that nothing is in the way of has a place for a new phase, and a document to go into.
pub open spec fn phases_ready(
    project: ProjectView,
    files: LineFilesView,
    document: DocumentSeenView,
    change: PhasesChangeView,
) -> bool {
    phases_checked(project, files, change).1 matches Ok(names) ==> place_is_left(
        phases_left(names, change.remove),
        change,
    ) && is_patchable(document)
}

/// Changes the phases of a project.
pub fn run_config_phases(
    project: &Project,
    files: &LineFiles,
    document: &DocumentSeen,
    change: &PhasesChange,
) -> (r: (PhasesReport, Result<(), PhasesError>))
    requires
        phases_ready(project@, files@, document@, change@),
    ensures
        (r.0@, outcome(r.1)) == phases_changed(project@, files@, document@, change@),
{
    let (report, checked) = check_phases(project, files, change);
    let names = match checked {
        Err(e) => {
            return (PhasesReport { report, config_text: None }, Err(e));
        },
        Ok(n) => n,
    };
    let after = insert_phase(remove_phase(names, &change.remove), change);
    match patch_state_machine(config_file(project).as_str(), document, &after) {
        Err(e) => (PhasesReport { report, config_text: None }, Err(e)),
        Ok(text) => {
            let mut report = report;
            report.say(follow("state_machine: ", join_strs(&after, " → ").as_str()));
            (PhasesReport { report, config_text: Some(text) }, Ok(()))
        },
    }
}

/// Changes the phases of a project, where a new phase has a place and the document can hold phases.
pub fn try_config_phases(
    project: &Project,
    files: &LineFiles,
    document: &DocumentSeen,
    change: &PhasesChange,
) -> (r: Option<(PhasesReport, Result<(), PhasesError>)>)
    ensures
        r is Some == phases_ready(project@, files@, document@, change@),
        r matches Some(done) ==> (done.0@, outcome(done.1)) == phases_changed(
            project@,
            files@,
            document@,
            change@,
        ),
{
    let (_, checked) = check_phases(project, files, change);
    match checked {
        Err(_) => {},
        Ok(names) => {
            let left = remove_phase(names, &change.remove);
            if !has_place(&left, change) || !check_patchable(document) {
                return None;
            }
        },
    }
    Some(run_config_phases(project, files, document, change))
}

// ---------------------------------------------------------------------------------------------
// Laws
// ---------------------------------------------------------------------------------------------

/// A change of the phases leaves the rest of the configuration file as it was.
pub proof fn law_phases_leave_the_rest(members: Map<Seq<char>, JsonItem>, names: Seq<Seq<char>>, key: Seq<char>)
    requires
        key != "state_machine"@,
    ensures
        ({
            let after = with_phases(JsonItem::Object(members), names)->Object_0;
            &&& after.contains_key(key) == members.contains_key(key)
            &&& members.contains_key(key) ==> after[key] == members[key]
        }),
{
}

/// A phase that is removed is gone, and a new one is there, as are all others.
pub proof fn law_phases_are_as_wanted(names: Seq<Seq<char>>, change: PhasesChangeView)
    requires
        place_is_left(phases_left(names, change.remove), change),
    ensures
        change.remove is Some && change.add != change.remove ==> !phases_after(
            names,
            change,
        ).contains(change.remove->0),
        change.add is Some ==> phases_after(names, change).contains(change.add->0),
        forall|x: Seq<char>|
            names.contains(x) && Some(x) != change.remove ==> #[trigger] phases_after(
                names,
                change,
            ).contains(x),
{
    let left = phases_left(names, change.remove);
    let after = phases_after(names, change);
    lemma_left(names, change.remove);
    match change.add {
        None => {},
        Some(name) => {
            let at = match change.after {
                Some(x) => position(left, x)->0 + 1,
                None => match change.before {
                    Some(x) => position(left, x)->0,
                    None => left.len() as int,
                },
            };
            if change.after is Some {
                lemma_position(left, change.after->0);
            } else if change.before is Some {
                lemma_position(left, change.before->0);
            }
            assert(0 <= at <= left.len());
            assert(after =~= left.insert(at, name));
            assert(after[at] == name);
            assert forall|x: Seq<char>| x != name implies #[trigger] after.contains(x)
                == left.contains(x) by {
                if left.contains(x) {
                    let k = left.index_of(x);
                    assert(after[if k < at { k } else { k + 1 }] == x);
                }
                if after.contains(x) {
                    let k = after.index_of(x);
                    assert(k != at);
                    assert(left[if k < at { k } else { k - 1 }] == x);
                }
            }
        },
    }
}

proof fn lemma_left(names: Seq<Seq<char>>, remove: Option<Seq<char>>)
    ensures
        remove is Some ==> !phases_left(names, remove).contains(remove->0),
        forall|x: Seq<char>|
            names.contains(x) && Some(x) != remove ==> #[trigger] phases_left(
                names,
                remove,
            ).contains(x),
{
    match remove {
        None => {},
        Some(name) => {
            let p = choice::<String, String, OtherThan>(name);
            let left = phases_left(names, remove);
            lemma_keep(names, p);
            if left.contains(name) {
                assert(p(left[left.index_of(name)]));
            }
            assert forall|x: Seq<char>| names.contains(x) && Some(x) != remove implies #[trigger] left.contains(
                x,
            ) by {
                lemma_keep_has(names, p, names.index_of(x));
            }
        },
    }
}

} // verus!
