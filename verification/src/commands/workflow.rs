//! Changing the workflows of a project.

use vstd::prelude::*;

use crate::commands::report::{
    config_file, config_path, load_config, on_open, project_config, quiet, ProjectFiles,
    ProjectFilesView, Report, ReportView,
};
use crate::duplicate::{outcome, Duplicate};
use crate::engine::config::{
    lemma_problem, normalize_sequence, normalized, writable, write_project_config, Config,
    ConfigError, ConfigErrorView, ConfigRead, ConfigReadView, ConfigView, INITIAL_PHASE_NAME,
    PhaseDefView, TERMINAL_PHASE_NAME,
};
use crate::engine::global_config::list_has;
use crate::engine::project::{Project, ProjectView};
use crate::engine::tasks::{
    is_terminal_task, lemma_position, opened, position, position_of, Task, TaskStore, TaskView,
    TasksRead, TasksReadView,
};
use crate::rows::{rows_of, write_rows, RowWriter};
use crate::string_map::{has_key, lookup, put, without};
use crate::text::{
    first_where, follow, is_first, join, join_strs, keep, lemma_first_is, lemma_first_none,
    lemma_first_where, lemma_keep, str_eq,
};

verus! {

/// Why the workflows of a project could not be shown or changed.
#[derive(Debug, PartialEq, Eq)]
pub enum WorkflowListError {
    NotFound { path: String },
    Read { path: String, message: String },
    Load { path: String, message: String },
    InvalidConfig { path: String, reason: String },
    JsonOutput { message: String },
}

/// The contents of a `WorkflowListError`.
#[verifier::ext_equal]
pub enum WorkflowListErrorView {
    NotFound { path: Seq<char> },
    Read { path: Seq<char>, message: Seq<char> },
    Load { path: Seq<char>, message: Seq<char> },
    InvalidConfig { path: Seq<char>, reason: Seq<char> },
    JsonOutput { message: Seq<char> },
}

impl View for WorkflowListError {
    type V = WorkflowListErrorView;

    open spec fn view(&self) -> WorkflowListErrorView {
        match self {
            WorkflowListError::NotFound { path } => WorkflowListErrorView::NotFound { path: path@ },
            WorkflowListError::Read { path, message } => WorkflowListErrorView::Read { path: path@, message: message@ },
            WorkflowListError::Load { path, message } => WorkflowListErrorView::Load { path: path@, message: message@ },
            WorkflowListError::InvalidConfig { path, reason } => WorkflowListErrorView::InvalidConfig { path: path@, reason: reason@ },
            WorkflowListError::JsonOutput { message } => WorkflowListErrorView::JsonOutput { message: message@ },
        }
    }
}

impl DeepView for WorkflowListError {
    type V = WorkflowListErrorView;

    open spec fn deep_view(&self) -> WorkflowListErrorView {
        self@
    }
}

impl Duplicate for WorkflowListError {
    fn duplicate(&self) -> (r: Self) {
        match self {
            WorkflowListError::NotFound { path } => WorkflowListError::NotFound { path: path.duplicate() },
            WorkflowListError::Read { path, message } => WorkflowListError::Read { path: path.duplicate(), message: message.duplicate() },
            WorkflowListError::Load { path, message } => WorkflowListError::Load { path: path.duplicate(), message: message.duplicate() },
            WorkflowListError::InvalidConfig { path, reason } => WorkflowListError::InvalidConfig { path: path.duplicate(), reason: reason.duplicate() },
            WorkflowListError::JsonOutput { message } => WorkflowListError::JsonOutput { message: message.duplicate() },
        }
    }
}

impl Clone for WorkflowListError {
    fn clone(&self) -> (r: Self)
        ensures
            r@ == self@,
    {
        self.duplicate()
    }
}

impl WorkflowListErrorView {
    /// The text shown for the error.
    pub open spec fn message(self) -> Seq<char> {
        match self {
            WorkflowListErrorView::NotFound { path } => "config file not found: "@ + path,
            WorkflowListErrorView::Read { path, .. } => "failed to read "@ + path,
            WorkflowListErrorView::Load { path, message } => "failed to load config "@ + path + ": "@ + message,
            WorkflowListErrorView::InvalidConfig { path, reason } => "invalid config "@ + path + ": "@ + reason,
            WorkflowListErrorView::JsonOutput { .. } => "failed to serialize workflow list"@,
        }
    }
}

impl WorkflowListError {
    /// The text shown for the error.
    pub fn message(&self) -> (r: String)
        ensures
            r@ == self@.message(),
    {
        match self {
            WorkflowListError::NotFound { path } => {
                let mut out = "config file not found: ".to_owned();
                out.push_str(path.as_str());
                out
            },
            WorkflowListError::Read { path, .. } => {
                let mut out = "failed to read ".to_owned();
                out.push_str(path.as_str());
                out
            },
            WorkflowListError::Load { path, message } => {
                let mut out = "failed to load config ".to_owned();
                out.push_str(path.as_str());
                out.push_str(": ");
                out.push_str(message.as_str());
                out
            },
            WorkflowListError::InvalidConfig { path, reason } => {
                let mut out = "invalid config ".to_owned();
                out.push_str(path.as_str());
                out.push_str(": ");
                out.push_str(reason.as_str());
                out
            },
            WorkflowListError::JsonOutput { .. } => "failed to serialize workflow list".to_owned(),
        }
    }
}


/// The error for a configuration that could not be used.
pub open spec fn workflow_config_error(e: ConfigErrorView) -> WorkflowListErrorView {
    match e {
        ConfigErrorView::NotFound { path } => WorkflowListErrorView::NotFound { path },
        ConfigErrorView::Read { path, message } => WorkflowListErrorView::Read { path, message },
        ConfigErrorView::Parse { path, message } => WorkflowListErrorView::Load { path, message },
        ConfigErrorView::Invalid { path, reason } => WorkflowListErrorView::InvalidConfig {
            path,
            reason,
        },
    }
}

fn map_error(error: ConfigError) -> (r: WorkflowListError)
    ensures
        r@ == workflow_config_error(error@),
{
    match error {
        ConfigError::NotFound { path } => WorkflowListError::NotFound { path },
        ConfigError::Read { path, message } => WorkflowListError::Read { path, message },
        ConfigError::Parse { path, message } => WorkflowListError::Load { path, message },
        ConfigError::Invalid { path, reason } => WorkflowListError::InvalidConfig { path, reason },
    }
}

/// A change that is refused, with a reason.
pub open spec fn refused(project: ProjectView, reason: Seq<char>) -> WorkflowListErrorView {
    WorkflowListErrorView::InvalidConfig { path: config_path(project), reason }
}

fn refuse(project: &Project, reason: String) -> (r: WorkflowListError)
    ensures
        r@ == refused(project@, reason@),
{
    WorkflowListError::InvalidConfig { path: config_file(project), reason }
}

/// A text between two others.
pub open spec fn between(before: Seq<char>, name: Seq<char>, after: Seq<char>) -> Seq<char> {
    before + name + after
}

/// A text between two others.
pub fn put_between(before: &str, name: &str, after: &str) -> (r: String)
    ensures
        r@ == between(before@, name@, after@),
{
    let mut out = before.to_owned();
    out.push_str(name);
    out.push_str(after);
    out
}

// ---------------------------------------------------------------------------------------------
// Showing
// ---------------------------------------------------------------------------------------------

/// A phase with the model that works on it.
pub struct PhaseWithModel;

impl RowWriter<String, Config> for PhaseWithModel {
    open spec fn row(name: Seq<char>, config: ConfigView) -> Seq<char> {
        match lookup(config.phases, name) {
            Some(def) => match def.model {
                Some(model) => name + ":"@ + model,
                None => name,
            },
            None => name,
        }
    }

    fn write(name: &String, config: &Config) -> (r: String) {
        match config.phase_def(name.as_str()) {
            Some(def) => match &def.model {
                Some(model) => put_between(name.as_str(), ":", model.as_str()),
                None => name.clone(),
            },
            None => name.clone(),
        }
    }
}

/// The phases of a workflow, with the models that work on them.
pub open spec fn shown_phases(config: ConfigView, sequence: Seq<Seq<char>>) -> Seq<char> {
    join(rows_of::<String, Config, PhaseWithModel>(sequence, config), " -> "@)
}

/// The phases of a workflow, with the models that work on them.
pub fn format_phases(config: &Config, sequence: &[String]) -> (r: String)
    ensures
        r@ == shown_phases(config@, sequence.deep_view()),
{
    let rows = write_rows::<String, Config, PhaseWithModel>(sequence, config);
    join_strs(&rows, " -> ")
}

/// The lines about some workflows of a configuration.
pub open spec fn workflow_lines(config: ConfigView, ws: Seq<(Seq<char>, Seq<Seq<char>>)>) -> Seq<char>
    decreases ws.len(),
{
    if ws.len() == 0 {
        Seq::empty()
    } else {
        let (name, sequence) = ws.last();
        workflow_lines(config, ws.drop_last()) + name + if name == config.default_workflow {
            " (default)  "@
        } else {
            "  "@
        } + shown_phases(config, sequence) + "\n"@
    }
}

/// The workflows of a configuration, a line for each.
pub open spec fn workflow_list(config: ConfigView) -> Seq<char> {
    if config.workflows.len() == 0 {
        "no workflows configured\n"@
    } else {
        workflow_lines(config, config.workflows)
    }
}

/// The workflows of a configuration, a line for each.
pub fn format_workflow_list(config: &Config) -> (r: String)
    ensures
        r@ == workflow_list(config@),
{
    if config.workflows.len() == 0 {
        return "no workflows configured\n".to_owned();
    }
    let ghost all = config@.workflows;
    let mut out = String::new();
    let mut i: usize = 0;
    assert(all.take(0) =~= Seq::<(Seq<char>, Seq<Seq<char>>)>::empty());
    while i < config.workflows.len()
        invariant
            i <= all.len(),
            all == config@.workflows,
            out@ == workflow_lines(config@, all.take(i as int)),
        decreases all.len() - i,
    {
        assert(all.take(i + 1).drop_last() =~= all.take(i as int));
        assert(all.take(i + 1).last() == all[i as int]);
        let name = config.workflows.key_at(i).as_str();
        out.push_str(name);
        out.push_str(
            if str_eq(name, config.default_workflow.as_str()) {
                " (default)  "
            } else {
                "  "
            },
        );
        out.push_str(format_phases(config, config.workflows.value_at(i).as_slice()).as_str());
        out.push_str("\n");
        i = i + 1;
    }
    assert(all.take(i as int) =~= all);
    out
}

/// The configuration whose workflows are shown, and the text that shows them.
pub fn run_workflow_list(project: &Project, read: &ConfigRead) -> (r: Result<
    (Config, String),
    WorkflowListError,
>)
    ensures
        outcome(r) == match project_config(project@, read@) {
            Err(e) => Err::<(ConfigView, Seq<char>), WorkflowListErrorView>(
                workflow_config_error(e),
            ),
            Ok(config) => Ok((config, workflow_list(config))),
        },
{
    match load_config(project, read) {
        Err(e) => Err(map_error(e)),
        Ok(config) => {
            let text = format_workflow_list(&config);
            Ok((config, text))
        },
    }
}

// ---------------------------------------------------------------------------------------------
// Changing
// ---------------------------------------------------------------------------------------------

/// A configuration is written where it can be used, and the user is told.
pub open spec fn written(
    project: ProjectView,
    report: ReportView,
    config: ConfigView,
    said: Seq<char>,
) -> (ReportView, Result<ConfigView, WorkflowListErrorView>) {
    match writable(config_path(project), config) {
        Err(e) => (report, Err(workflow_config_error(e))),
        Ok(_) => (report.said(said), Ok(config)),
    }
}

fn write_config(project: &Project, report: Report, config: Config, said: String) -> (r: (
    Report,
    Result<Config, WorkflowListError>,
))
    ensures
        (r.0@, outcome(r.1)) == written(project@, report@, config@, said@),
{
    let mut report = report;
    match write_project_config(config_file(project).as_str(), &config) {
        Err(e) => (report, Err(map_error(e))),
        Ok(_) => {
            report.say(said);
            (report, Ok(config))
        },
    }
}

/// The first phase of a list that has no definition.
pub open spec fn unknown_phase(phases: Seq<(Seq<char>, PhaseDefView)>) -> spec_fn(Seq<char>) -> bool {
    |name: Seq<char>| !has_key(phases, name)
}

fn first_unknown(config: &Config, sequence: &Vec<String>) -> (r: Option<usize>)
    ensures
        match r {
            Some(i) => first_where(sequence.deep_view(), unknown_phase(config@.phases)) == Some(
                i as int,
            ) && i < sequence.len(),
            None => first_where(sequence.deep_view(), unknown_phase(config@.phases)) is None,
        },
{
    let ghost all = sequence.deep_view();
    let ghost p = unknown_phase(config@.phases);
    let mut i: usize = 0;
    while i < sequence.len()
        invariant
            i <= sequence.len(),
            all == sequence.deep_view(),
            p == unknown_phase(config@.phases),
            forall|j: int| 0 <= j < i ==> !p(#[trigger] all[j]),
        decreases sequence.len() - i,
    {
        assert(all[i as int] == sequence@[i as int]@);
        if !config.phases.contains_key(sequence[i].as_str()) {
            proof {
                assert(is_first(all, p, i as int));
                lemma_first_is(all, p, i as int);
            }
            return Some(i);
        }
        i = i + 1;
    }
    proof {
        lemma_first_none(all, p);
    }
    None
}

/// What adding a workflow leaves to be done.
pub open spec fn workflow_added(
    project: ProjectView,
    read: ConfigReadView,
    name: Seq<char>,
    phases: Seq<Seq<char>>,
) -> (ReportView, Result<ConfigView, WorkflowListErrorView>) {
    match project_config(project, read) {
        Err(e) => (quiet(), Err(workflow_config_error(e))),
        Ok(config) => if has_key(config.workflows, name) {
            (
                quiet(),
                Err(refused(project, between("workflow '"@, name, "' already exists"@))),
            )
        } else {
            let sequence = normalized(phases);
            match first_where(sequence, unknown_phase(config.phases)) {
                Some(i) => (
                    quiet(),
                    Err(refused(project, between("unknown phase '"@, sequence[i], "'"@))),
                ),
                None => written(
                    project,
                    quiet(),
                    ConfigView { workflows: put(config.workflows, name, sequence), ..config },
                    "workflow added: "@ + name,
                ),
            }
        },
    }
}

/// Adds a workflow to the configuration of a project.
pub fn run_workflow_add(project: &Project, read: &ConfigRead, name: &str, phases: Vec<String>) -> (r: (
    Report,
    Result<Config, WorkflowListError>,
))
    ensures
        (r.0@, outcome(r.1)) == workflow_added(project@, read@, name@, phases.deep_view()),
{
    let mut config = match load_config(project, read) {
        Err(e) => {
            return (Report::quiet(), Err(map_error(e)));
        },
        Ok(c) => c,
    };
    if config.workflows.contains_key(name) {
        return (
            Report::quiet(),
            Err(refuse(project, put_between("workflow '", name, "' already exists"))),
        );
    }
    let sequence = normalize_sequence(phases);
    match first_unknown(&config, &sequence) {
        Some(i) => {
            assert(sequence.deep_view()[i as int] == sequence@[i as int]@);
            return (
                Report::quiet(),
                Err(
                    refuse(project, put_between("unknown phase '", sequence[i].as_str(), "'")),
                ),
            );
        },
        None => {},
    }
    config.workflows.insert(name.to_owned(), sequence);
    write_config(project, Report::quiet(), config, follow("workflow added: ", name))
}

/// A task that is in a phase of a workflow.
pub open spec fn in_phase(workflow: Seq<char>, phase: Seq<char>) -> spec_fn(TaskView) -> bool {
    |t: TaskView| t.workflow == workflow && t.state == phase && t.state != TERMINAL_PHASE_NAME@
}

/// A task of a workflow that is neither done nor given up.
pub open spec fn under_way(workflow: Seq<char>) -> spec_fn(TaskView) -> bool {
    |t: TaskView| t.workflow == workflow && !t.finished()
}

fn first_in_phase(tasks: &[Task], workflow: &str, phase: &str) -> (r: Option<usize>)
    ensures
        match r {
            Some(i) => first_where(tasks.deep_view(), in_phase(workflow@, phase@)) == Some(i as int)
                && i < tasks@.len(),
            None => first_where(tasks.deep_view(), in_phase(workflow@, phase@)) is None,
        },
{
    let ghost all = tasks.deep_view();
    let ghost p = in_phase(workflow@, phase@);
    let mut i: usize = 0;
    while i < tasks.len()
        invariant
            i <= tasks.len(),
            all == tasks.deep_view(),
            p == in_phase(workflow@, phase@),
            forall|j: int| 0 <= j < i ==> !p(#[trigger] all[j]),
        decreases tasks.len() - i,
    {
        assert(all[i as int] == tasks@[i as int]@);
        if str_eq(tasks[i].workflow.as_str(), workflow) && str_eq(tasks[i].state.as_str(), phase)
            && !str_eq(tasks[i].state.as_str(), TERMINAL_PHASE_NAME) {
            proof {
                assert(is_first(all, p, i as int));
                lemma_first_is(all, p, i as int);
            }
            return Some(i);
        }
        i = i + 1;
    }
    proof {
        lemma_first_none(all, p);
    }
    None
}

fn first_under_way(tasks: &[Task], workflow: &str) -> (r: Option<usize>)
    ensures
        match r {
            Some(i) => first_where(tasks.deep_view(), under_way(workflow@)) == Some(i as int) && i
                < tasks@.len(),
            None => first_where(tasks.deep_view(), under_way(workflow@)) is None,
        },
{
    let ghost all = tasks.deep_view();
    let ghost p = under_way(workflow@);
    let mut i: usize = 0;
    while i < tasks.len()
        invariant
            i <= tasks.len(),
            all == tasks.deep_view(),
            p == under_way(workflow@),
            forall|j: int| 0 <= j < i ==> !p(#[trigger] all[j]),
        decreases tasks.len() - i,
    {
        assert(all[i as int] == tasks@[i as int]@);
        if str_eq(tasks[i].workflow.as_str(), workflow) && !is_terminal_task(&tasks[i]) {
            proof {
                assert(is_first(all, p, i as int));
                lemma_first_is(all, p, i as int);
            }
            return Some(i);
        }
        i = i + 1;
    }
    proof {
        lemma_first_none(all, p);
    }
    None
}

/// A text other than the one given.
pub open spec fn text_is_not(item: Seq<char>) -> spec_fn(Seq<char>) -> bool {
    |x: Seq<char>| x != item
}

/// A list without a text.
pub fn list_without(list: &Vec<String>, item: &str) -> (r: Vec<String>)
    ensures
        r.deep_view() == keep(list.deep_view(), text_is_not(item@)),
{
    let ghost all = list.deep_view();
    let mut out: Vec<String> = Vec::new();
    let mut i: usize = 0;
    assert(all.take(0) =~= Seq::<Seq<char>>::empty());
    assert(out.deep_view() =~= Seq::<Seq<char>>::empty());
    while i < list.len()
        invariant
            i <= list.len(),
            all == list.deep_view(),
            out.deep_view() == keep(all.take(i as int), text_is_not(item@)),
        decreases list.len() - i,
    {
        assert(all.take(i + 1).drop_last() =~= all.take(i as int));
        assert(all.take(i + 1).last() == list@[i as int]@);
        let ghost before = out.deep_view();
        if !str_eq(list[i].as_str(), item) {
            out.push(list[i].clone());
            assert(out.deep_view() =~= before.push(list@[i as int]@));
        }
        i = i + 1;
    }
    assert(all.take(i as int) =~= all);
    out
}

/// A phase that every workflow has.
pub open spec fn reserved(phase: Seq<char>) -> bool {
    phase == INITIAL_PHASE_NAME@ || phase == TERMINAL_PHASE_NAME@
}

/// Whether a phase is one that every workflow has.
pub fn is_reserved(phase: &str) -> (r: bool)
    ensures
        r == reserved(phase@),
{
    str_eq(phase, INITIAL_PHASE_NAME) || str_eq(phase, TERMINAL_PHASE_NAME)
}

/// The phases of a workflow without one of them, in which no task may be. Reading the tasks may
/// leave something to be done.
pub open spec fn phase_taken_out(
    project: ProjectView,
    config: ConfigView,
    tasks: TasksReadView,
    name: Seq<char>,
    sequence: Seq<Seq<char>>,
    phase: Seq<char>,
) -> (ReportView, Result<Seq<Seq<char>>, WorkflowListErrorView>) {
    if reserved(phase) {
        (quiet(), Err(refused(project, between("cannot remove reserved phase '"@, phase, "'"@))))
    } else {
        match opened(project.state_dir, tasks, config) {
            Err(e) => (quiet(), Err(refused(project, e.message()))),
            Ok(store) => match first_where(store.tasks, in_phase(name, phase)) {
                Some(i) => (
                    on_open(store),
                    Err(
                        refused(
                            project,
                            between("cannot remove phase '"@, phase, "' from workflow '"@)
                                + between(name, "': task "@, store.tasks[i].id)
                                + " is in that phase"@,
                        ),
                    ),
                ),
                None => (on_open(store), Ok(keep(sequence, text_is_not(phase)))),
            },
        }
    }
}

fn take_phase_out(
    project: &Project,
    config: &Config,
    tasks: &TasksRead,
    name: &str,
    sequence: &Vec<String>,
    phase: &str,
) -> (r: (Report, Result<Vec<String>, WorkflowListError>))
    ensures
        (r.0@, outcome(r.1)) == phase_taken_out(
            project@,
            config@,
            tasks@,
            name@,
            sequence.deep_view(),
            phase@,
        ),
{
    if is_reserved(phase) {
        return (
            Report::quiet(),
            Err(refuse(project, put_between("cannot remove reserved phase '", phase, "'"))),
        );
    }
    match TaskStore::new(project.state_dir.as_str(), tasks.duplicate(), config) {
        Err(e) => (Report::quiet(), Err(refuse(project, e.message()))),
        Ok(store) => {
            let report = Report::on_open(&store);
            let all = store.all_tasks();
            match first_in_phase(all, name, phase) {
                Some(i) => {
                    assert(all.deep_view()[i as int] == all@[i as int]@);
                    let mut reason = put_between(
                        "cannot remove phase '",
                        phase,
                        "' from workflow '",
                    );
                    reason.push_str(put_between(name, "': task ", all[i].id.as_str()).as_str());
                    reason.push_str(" is in that phase");
                    (report, Err(refuse(project, reason)))
                },
                None => (report, Ok(list_without(sequence, phase))),
            }
        },
    }
}

/// The phases of a workflow with one more, behind another one.
pub open spec fn phase_put_in(
    project: ProjectView,
    config: ConfigView,
    name: Seq<char>,
    sequence: Seq<Seq<char>>,
    phase: Seq<char>,
    after: Option<Seq<char>>,
) -> Result<Seq<Seq<char>>, WorkflowListErrorView> {
    let behind = match after {
        Some(x) => x,
        None => INITIAL_PHASE_NAME@,
    };
    if !has_key(config.phases, phase) {
        Err(refused(project, between("unknown phase '"@, phase, "'"@)))
    } else if sequence.contains(phase) {
        Err(
            refused(
                project,
                between("workflow '"@, name, "' already references phase '"@) + phase + "'"@,
            ),
        )
    } else {
        match position(sequence, behind) {
            None => Err(
                refused(
                    project,
                    between("phase '"@, behind, "' not found in workflow '"@) + name + "'"@,
                ),
            ),
            Some(i) => Ok(sequence.insert(i + 1, phase)),
        }
    }
}

fn put_phase_in(
    project: &Project,
    config: &Config,
    name: &str,
    sequence: Vec<String>,
    phase: &str,
    after: Option<&str>,
) -> (r: Result<Vec<String>, WorkflowListError>)
    ensures
        outcome(r) == phase_put_in(
            project@,
            config@,
            name@,
            sequence.deep_view(),
            phase@,
            after.deep_view(),
        ),
{
    if !config.phases.contains_key(phase) {
        return Err(refuse(project, put_between("unknown phase '", phase, "'")));
    }
    if list_has(&sequence, phase) {
        let mut reason = put_between("workflow '", name, "' already references phase '");
        reason.push_str(phase);
        reason.push_str("'");
        return Err(refuse(project, reason));
    }
    let behind: &str = match after {
        Some(x) => x,
        None => INITIAL_PHASE_NAME,
    };
    match position_of(sequence.as_slice(), behind) {
        None => {
            let mut reason = put_between("phase '", behind, "' not found in workflow '");
            reason.push_str(name);
            reason.push_str("'");
            Err(refuse(project, reason))
        },
        Some(i) => {
            let ghost before = sequence.deep_view();
            proof {
                lemma_position(before, behind@);
            }
            assert(i < sequence.len());
            let mut sequence = sequence;
            sequence.insert(i + 1, phase.to_owned());
            assert(sequence.deep_view() =~= before.insert(i + 1, phase@));
            Ok(sequence)
        },
    }
}

/// What changing a workflow leaves to be done: a phase is taken out, and then one is put in.
pub open spec fn workflow_updated(
    project: ProjectView,
    files: ProjectFilesView,
    name: Seq<char>,
    add: Option<Seq<char>>,
    after: Option<Seq<char>>,
    remove: Option<Seq<char>>,
) -> (ReportView, Result<ConfigView, WorkflowListErrorView>) {
    match project_config(project, files.config) {
        Err(e) => (quiet(), Err(workflow_config_error(e))),
        Ok(config) => if add is None && remove is None {
            (quiet(), Err(refused(project, "one of --add or --remove is required"@)))
        } else {
            match lookup(config.workflows, name) {
                None => (
                    quiet(),
                    Err(refused(project, between("unknown workflow '"@, name, "'"@))),
                ),
                Some(steps) => {
                    let (report, shorter) = match remove {
                        Some(phase) => phase_taken_out(
                            project,
                            config,
                            files.tasks,
                            name,
                            steps,
                            phase,
                        ),
                        None => (quiet(), Ok(steps)),
                    };
                    match shorter {
                        Err(e) => (report, Err(e)),
                        Ok(sequence) => {
                            let longer = match add {
                                Some(phase) => phase_put_in(
                                    project,
                                    config,
                                    name,
                                    sequence,
                                    phase,
                                    after,
                                ),
                                None => Ok(sequence),
                            };
                            match longer {
                                Err(e) => (report, Err(e)),
                                Ok(sequence) => written(
                                    project,
                                    report,
                                    ConfigView {
                                        workflows: put(
                                            config.workflows,
                                            name,
                                            normalized(sequence),
                                        ),
                                        ..config
                                    },
                                    "workflow updated: "@ + name,
                                ),
                            }
                        },
                    }
                },
            }
        },
    }
}

/// Takes a phase out of a workflow, puts one in, or both.
pub fn run_workflow_update(
    project: &Project,
    files: &ProjectFiles,
    name: &str,
    add: Option<&str>,
    after: Option<&str>,
    remove: Option<&str>,
) -> (r: (Report, Result<Config, WorkflowListError>))
    ensures
        (r.0@, outcome(r.1)) == workflow_updated(
            project@,
            files@,
            name@,
            add.deep_view(),
            after.deep_view(),
            remove.deep_view(),
        ),
{
    let mut config = match load_config(project, &files.config) {
        Err(e) => {
            return (Report::quiet(), Err(map_error(e)));
        },
        Ok(c) => c,
    };
    if add.is_none() && remove.is_none() {
        return (
            Report::quiet(),
            Err(refuse(project, "one of --add or --remove is required".to_owned())),
        );
    }
    let steps: Vec<String> = match config.workflows.get(name) {
        None => {
            return (
                Report::quiet(),
                Err(refuse(project, put_between("unknown workflow '", name, "'"))),
            );
        },
        Some(s) => s.duplicate(),
    };
    let (report, shorter) = match remove {
        Some(phase) => take_phase_out(project, &config, &files.tasks, name, &steps, phase),
        None => (Report::quiet(), Ok(steps)),
    };
    let sequence = match shorter {
        Err(e) => {
            return (report, Err(e));
        },
        Ok(s) => s,
    };
    let longer = match add {
        Some(phase) => put_phase_in(project, &config, name, sequence, phase, after),
        None => Ok(sequence),
    };
    match longer {
        Err(e) => (report, Err(e)),
        Ok(sequence) => {
            config.workflows.insert(name.to_owned(), normalize_sequence(sequence));
            write_config(project, report, config, follow("workflow updated: ", name))
        },
    }
}

/// What taking a workflow out leaves to be done.
pub open spec fn workflow_removed(project: ProjectView, files: ProjectFilesView, name: Seq<char>) -> (
    ReportView,
    Result<ConfigView, WorkflowListErrorView>,
) {
    match project_config(project, files.config) {
        Err(e) => (quiet(), Err(workflow_config_error(e))),
        Ok(config) => if name == config.default_workflow {
            (
                quiet(),
                Err(
                    refused(
                        project,
                        "cannot remove the default workflow; set-default first"@,
                    ),
                ),
            )
        } else if !has_key(config.workflows, name) {
            (quiet(), Err(refused(project, between("unknown workflow '"@, name, "'"@))))
        } else {
            match opened(project.state_dir, files.tasks, config) {
                Err(e) => (quiet(), Err(refused(project, e.message()))),
                Ok(store) => match first_where(store.tasks, under_way(name)) {
                    Some(i) => (
                        on_open(store),
                        Err(
                            refused(
                                project,
                                between("cannot remove workflow '"@, name, "': task "@)
                                    + store.tasks[i].id + " is not terminal"@,
                            ),
                        ),
                    ),
                    None => written(
                        project,
                        on_open(store),
                        ConfigView { workflows: without(config.workflows, name), ..config },
                        "workflow removed: "@ + name,
                    ),
                },
            }
        },
    }
}

/// Takes a workflow out of the configuration of a project.
pub fn run_workflow_remove(project: &Project, files: &ProjectFiles, name: &str) -> (r: (
    Report,
    Result<Config, WorkflowListError>,
))
    ensures
        (r.0@, outcome(r.1)) == workflow_removed(project@, files@, name@),
{
    let mut config = match load_config(project, &files.config) {
        Err(e) => {
            return (Report::quiet(), Err(map_error(e)));
        },
        Ok(c) => c,
    };
    if str_eq(name, config.default_workflow.as_str()) {
        return (
            Report::quiet(),
            Err(
                refuse(
                    project,
                    "cannot remove the default workflow; set-default first".to_owned(),
                ),
            ),
        );
    }
    if !config.workflows.contains_key(name) {
        return (
            Report::quiet(),
            Err(refuse(project, put_between("unknown workflow '", name, "'"))),
        );
    }
    let store = match TaskStore::new(
        project.state_dir.as_str(),
        files.tasks.duplicate(),
        &config,
    ) {
        Err(e) => {
            return (Report::quiet(), Err(refuse(project, e.message())));
        },
        Ok(s) => s,
    };
    let report = Report::on_open(&store);
    let all = store.all_tasks();
    match first_under_way(all, name) {
        Some(i) => {
            assert(all.deep_view()[i as int] == all@[i as int]@);
            let mut reason = put_between("cannot remove workflow '", name, "': task ");
            reason.push_str(all[i].id.as_str());
            reason.push_str(" is not terminal");
            (report, Err(refuse(project, reason)))
        },
        None => {
            config.workflows.remove(name);
            write_config(project, report, config, follow("workflow removed: ", name))
        },
    }
}

/// What making a workflow the default one leaves to be done.
pub open spec fn default_workflow_set(project: ProjectView, read: ConfigReadView, name: Seq<char>) -> (
    ReportView,
    Result<ConfigView, WorkflowListErrorView>,
) {
    match project_config(project, read) {
        Err(e) => (quiet(), Err(workflow_config_error(e))),
        Ok(config) => if !has_key(config.workflows, name) {
            (quiet(), Err(refused(project, between("unknown workflow '"@, name, "'"@))))
        } else {
            written(
                project,
                quiet(),
                ConfigView { default_workflow: name, ..config },
                "default workflow: "@ + name,
            )
        },
    }
}

/// Makes a workflow the default one.
pub fn run_workflow_set_default(project: &Project, read: &ConfigRead, name: &str) -> (r: (
    Report,
    Result<Config, WorkflowListError>,
))
    ensures
        (r.0@, outcome(r.1)) == default_workflow_set(project@, read@, name@),
{
    let mut config = match load_config(project, read) {
        Err(e) => {
            return (Report::quiet(), Err(map_error(e)));
        },
        Ok(c) => c,
    };
    if !config.workflows.contains_key(name) {
        return (
            Report::quiet(),
            Err(refuse(project, put_between("unknown workflow '", name, "'"))),
        );
    }
    config.default_workflow = name.to_owned();
    write_config(project, Report::quiet(), config, follow("default workflow: ", name))
}

// ---------------------------------------------------------------------------------------------
// Laws
// ---------------------------------------------------------------------------------------------

/// Whatever is changed about the workflows, a configuration is written only where it can be used.
pub proof fn law_written_config_is_valid(
    project: ProjectView,
    files: ProjectFilesView,
    name: Seq<char>,
    phases: Seq<Seq<char>>,
    add: Option<Seq<char>>,
    after: Option<Seq<char>>,
    remove: Option<Seq<char>>,
)
    ensures
        workflow_added(project, files.config, name, phases).1 matches Ok(c) ==> c.valid(),
        workflow_updated(project, files, name, add, after, remove).1 matches Ok(c) ==> c.valid(),
        workflow_removed(project, files, name).1 matches Ok(c) ==> c.valid(),
        default_workflow_set(project, files.config, name).1 matches Ok(c) ==> c.valid(),
{
    match workflow_added(project, files.config, name, phases).1 {
        Ok(c) => lemma_problem(c),
        Err(_) => {},
    }
    match workflow_updated(project, files, name, add, after, remove).1 {
        Ok(c) => lemma_problem(c),
        Err(_) => {},
    }
    match workflow_removed(project, files, name).1 {
        Ok(c) => lemma_problem(c),
        Err(_) => {},
    }
    match default_workflow_set(project, files.config, name).1 {
        Ok(c) => lemma_problem(c),
        Err(_) => {},
    }
}

/// A workflow is taken out only where no task of it is under way.
pub proof fn law_workflow_in_use_stays(project: ProjectView, files: ProjectFilesView, name: Seq<char>)
    ensures
        workflow_removed(project, files, name).1 is Ok ==> {
            let config = project_config(project, files.config)->Ok_0;
            let store = opened(project.state_dir, files.tasks, config)->Ok_0;
            &&& name != config.default_workflow
            &&& forall|i: int|
                0 <= i < store.tasks.len() && (#[trigger] store.tasks[i]).workflow == name
                    ==> store.tasks[i].finished()
        },
{
    if workflow_removed(project, files, name).1 is Ok {
        let config = project_config(project, files.config)->Ok_0;
        let store = opened(project.state_dir, files.tasks, config)->Ok_0;
        lemma_first_where(store.tasks, under_way(name));
        assert forall|i: int|
            0 <= i < store.tasks.len() && (#[trigger] store.tasks[i]).workflow
                == name implies store.tasks[i].finished() by {
            assert(!under_way(name)(store.tasks[i]));
        }
    }
}

/// A phase is taken out of a workflow only where no task of the workflow is in it.
pub proof fn law_phase_in_use_stays(
    project: ProjectView,
    config: ConfigView,
    tasks: TasksReadView,
    name: Seq<char>,
    sequence: Seq<Seq<char>>,
    phase: Seq<char>,
)
    ensures
        phase_taken_out(project, config, tasks, name, sequence, phase).1 matches Ok(rest) ==> {
            let store = opened(project.state_dir, tasks, config)->Ok_0;
            &&& !rest.contains(phase)
            &&& forall|i: int|
                0 <= i < store.tasks.len() && (#[trigger] store.tasks[i]).workflow == name
                    ==> store.tasks[i].state != phase
        },
{
    if phase_taken_out(project, config, tasks, name, sequence, phase).1 is Ok {
        let store = opened(project.state_dir, tasks, config)->Ok_0;
        lemma_keep(sequence, text_is_not(phase));
        let rest = keep(sequence, text_is_not(phase));
        if rest.contains(phase) {
            let k = rest.index_of(phase);
            assert(text_is_not(phase)(rest[k]));
        }
        lemma_first_where(store.tasks, in_phase(name, phase));
        assert forall|i: int|
            0 <= i < store.tasks.len() && (#[trigger] store.tasks[i]).workflow
                == name implies store.tasks[i].state != phase by {
            assert(!in_phase(name, phase)(store.tasks[i]));
        }
    }
}

} // verus!
