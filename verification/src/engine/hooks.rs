//! Commands that are run when something happens to a task.

use vstd::prelude::*;

use crate::duplicate::{outcome, Duplicate};
use crate::engine::global_config::{TextRead, TextReadView};
use crate::engine::tasks::{Task, TaskView};
use crate::text::{
    decimal, decimal_str, join, join_strs, keep, law_keeping_is_filtering, lemma_keep,
    signed_decimal, signed_decimal_str, str_eq,
};
use crate::toml_doc::{
    insert_value, list_value, new_table, no_entries, parse_table, remove_value, render_table,
    table_value, text_value, toml_parsed, toml_rendered, value_item, TomlItem,
};

verus! {

/// A task was added.
pub const TASK_ADDED_EVENT: &'static str = "task_added";

/// The last task was finished.
pub const ALL_TASKS_DONE_EVENT: &'static str = "all_tasks_done";

/// A task was blocked.
pub const BLOCKED_EVENT: &'static str = "blocked";

/// A command and what it is run for.
#[derive(Debug, PartialEq, Eq)]
pub struct HookEntry {
    pub on: String,
    pub run: String,
}

/// The contents of a `HookEntry`.
#[verifier::ext_equal]
pub struct HookEntryView {
    pub on: Seq<char>,
    pub run: Seq<char>,
}

impl View for HookEntry {
    type V = HookEntryView;

    open spec fn view(&self) -> HookEntryView {
        HookEntryView {
            on: self.on@,
            run: self.run@,
        }
    }
}

impl DeepView for HookEntry {
    type V = HookEntryView;

    open spec fn deep_view(&self) -> HookEntryView {
        self@
    }
}

impl Duplicate for HookEntry {
    fn duplicate(&self) -> (r: Self) {
        HookEntry {
            on: self.on.duplicate(),
            run: self.run.duplicate(),
        }
    }
}

impl Clone for HookEntry {
    fn clone(&self) -> (r: Self)
        ensures
            r@ == self@,
    {
        self.duplicate()
    }
}


/// The commands of a project or of a user.
#[derive(Debug, PartialEq, Eq)]
pub struct HookConfig {
    pub hooks: Vec<HookEntry>,
}

/// The contents of a `HookConfig`.
#[verifier::ext_equal]
pub struct HookConfigView {
    pub hooks: Seq<HookEntryView>,
}

impl View for HookConfig {
    type V = HookConfigView;

    open spec fn view(&self) -> HookConfigView {
        HookConfigView {
            hooks: self.hooks.deep_view(),
        }
    }
}

impl DeepView for HookConfig {
    type V = HookConfigView;

    open spec fn deep_view(&self) -> HookConfigView {
        self@
    }
}

impl Duplicate for HookConfig {
    fn duplicate(&self) -> (r: Self) {
        HookConfig {
            hooks: self.hooks.duplicate(),
        }
    }
}

impl Clone for HookConfig {
    fn clone(&self) -> (r: Self)
        ensures
            r@ == self@,
    {
        self.duplicate()
    }
}


impl Default for HookConfig {
    fn default() -> (r: Self)
        ensures
            r@.hooks == Seq::<HookEntryView>::empty(),
    {
        let hooks: Vec<HookEntry> = Vec::new();
        assert(hooks.deep_view() =~= Seq::<HookEntryView>::empty());
        HookConfig { hooks }
    }
}

/// What a command is told.
#[derive(Debug, PartialEq, Eq)]
pub struct HookContext {
    pub task_id: String,
    pub task_title: String,
    pub task_description: String,
    pub task_state: String,
    pub task_dependencies: String,
    pub task_retry_count: String,
    pub task_max_retries: String,
    pub task_created_at: String,
    pub project_slug: String,
    pub project_path: String,
    pub state_dir: String,
    pub from_phase: String,
    pub to_phase: String,
    pub artifact: String,
}

/// The contents of a `HookContext`.
#[verifier::ext_equal]
pub struct HookContextView {
    pub task_id: Seq<char>,
    pub task_title: Seq<char>,
    pub task_description: Seq<char>,
    pub task_state: Seq<char>,
    pub task_dependencies: Seq<char>,
    pub task_retry_count: Seq<char>,
    pub task_max_retries: Seq<char>,
    pub task_created_at: Seq<char>,
    pub project_slug: Seq<char>,
    pub project_path: Seq<char>,
    pub state_dir: Seq<char>,
    pub from_phase: Seq<char>,
    pub to_phase: Seq<char>,
    pub artifact: Seq<char>,
}

impl View for HookContext {
    type V = HookContextView;

    open spec fn view(&self) -> HookContextView {
        HookContextView {
            task_id: self.task_id@,
            task_title: self.task_title@,
            task_description: self.task_description@,
            task_state: self.task_state@,
            task_dependencies: self.task_dependencies@,
            task_retry_count: self.task_retry_count@,
            task_max_retries: self.task_max_retries@,
            task_created_at: self.task_created_at@,
            project_slug: self.project_slug@,
            project_path: self.project_path@,
            state_dir: self.state_dir@,
            from_phase: self.from_phase@,
            to_phase: self.to_phase@,
            artifact: self.artifact@,
        }
    }
}

impl DeepView for HookContext {
    type V = HookContextView;

    open spec fn deep_view(&self) -> HookContextView {
        self@
    }
}

impl Duplicate for HookContext {
    fn duplicate(&self) -> (r: Self) {
        HookContext {
            task_id: self.task_id.duplicate(),
            task_title: self.task_title.duplicate(),
            task_description: self.task_description.duplicate(),
            task_state: self.task_state.duplicate(),
            task_dependencies: self.task_dependencies.duplicate(),
            task_retry_count: self.task_retry_count.duplicate(),
            task_max_retries: self.task_max_retries.duplicate(),
            task_created_at: self.task_created_at.duplicate(),
            project_slug: self.project_slug.duplicate(),
            project_path: self.project_path.duplicate(),
            state_dir: self.state_dir.duplicate(),
            from_phase: self.from_phase.duplicate(),
            to_phase: self.to_phase.duplicate(),
            artifact: self.artifact.duplicate(),
        }
    }
}

impl Clone for HookContext {
    fn clone(&self) -> (r: Self)
        ensures
            r@ == self@,
    {
        self.duplicate()
    }
}


/// What is noted of a command.
#[derive(Debug, PartialEq, Eq)]
pub struct HookDebugEntry {
    pub spawned_at: String,
    pub event: String,
    pub task_id: String,
    pub command: String,
    pub spawn_result: String,
    pub pid: Option<u32>,
    pub exit_status: Option<i32>,
    pub stdout: Option<String>,
    pub stderr: Option<String>,
}

/// The contents of a `HookDebugEntry`.
#[verifier::ext_equal]
pub struct HookDebugEntryView {
    pub spawned_at: Seq<char>,
    pub event: Seq<char>,
    pub task_id: Seq<char>,
    pub command: Seq<char>,
    pub spawn_result: Seq<char>,
    pub pid: Option<u32>,
    pub exit_status: Option<i32>,
    pub stdout: Option<Seq<char>>,
    pub stderr: Option<Seq<char>>,
}

impl View for HookDebugEntry {
    type V = HookDebugEntryView;

    open spec fn view(&self) -> HookDebugEntryView {
        HookDebugEntryView {
            spawned_at: self.spawned_at@,
            event: self.event@,
            task_id: self.task_id@,
            command: self.command@,
            spawn_result: self.spawn_result@,
            pid: self.pid.deep_view(),
            exit_status: self.exit_status.deep_view(),
            stdout: self.stdout.deep_view(),
            stderr: self.stderr.deep_view(),
        }
    }
}

impl DeepView for HookDebugEntry {
    type V = HookDebugEntryView;

    open spec fn deep_view(&self) -> HookDebugEntryView {
        self@
    }
}

impl Duplicate for HookDebugEntry {
    fn duplicate(&self) -> (r: Self) {
        HookDebugEntry {
            spawned_at: self.spawned_at.duplicate(),
            event: self.event.duplicate(),
            task_id: self.task_id.duplicate(),
            command: self.command.duplicate(),
            spawn_result: self.spawn_result.duplicate(),
            pid: self.pid.duplicate(),
            exit_status: self.exit_status.duplicate(),
            stdout: self.stdout.duplicate(),
            stderr: self.stderr.duplicate(),
        }
    }
}

impl Clone for HookDebugEntry {
    fn clone(&self) -> (r: Self)
        ensures
            r@ == self@,
    {
        self.duplicate()
    }
}


/// A variable of a process.
#[derive(Debug, PartialEq, Eq)]
pub struct EnvVar {
    pub name: String,
    pub value: String,
}

/// The contents of a `EnvVar`.
#[verifier::ext_equal]
pub struct EnvVarView {
    pub name: Seq<char>,
    pub value: Seq<char>,
}

impl View for EnvVar {
    type V = EnvVarView;

    open spec fn view(&self) -> EnvVarView {
        EnvVarView {
            name: self.name@,
            value: self.value@,
        }
    }
}

impl DeepView for EnvVar {
    type V = EnvVarView;

    open spec fn deep_view(&self) -> EnvVarView {
        self@
    }
}

impl Duplicate for EnvVar {
    fn duplicate(&self) -> (r: Self) {
        EnvVar {
            name: self.name.duplicate(),
            value: self.value.duplicate(),
        }
    }
}

impl Clone for EnvVar {
    fn clone(&self) -> (r: Self)
        ensures
            r@ == self@,
    {
        self.duplicate()
    }
}


/// A process to start.
#[derive(Debug, PartialEq, Eq)]
pub struct HookCommand {
    pub program: String,
    pub args: Vec<String>,
    pub env: Vec<EnvVar>,
}

/// The contents of a `HookCommand`.
#[verifier::ext_equal]
pub struct HookCommandView {
    pub program: Seq<char>,
    pub args: Seq<Seq<char>>,
    pub env: Seq<EnvVarView>,
}

impl View for HookCommand {
    type V = HookCommandView;

    open spec fn view(&self) -> HookCommandView {
        HookCommandView {
            program: self.program@,
            args: self.args.deep_view(),
            env: self.env.deep_view(),
        }
    }
}

impl DeepView for HookCommand {
    type V = HookCommandView;

    open spec fn deep_view(&self) -> HookCommandView {
        self@
    }
}

impl Duplicate for HookCommand {
    fn duplicate(&self) -> (r: Self) {
        HookCommand {
            program: self.program.duplicate(),
            args: self.args.duplicate(),
            env: self.env.duplicate(),
        }
    }
}

impl Clone for HookCommand {
    fn clone(&self) -> (r: Self)
        ensures
            r@ == self@,
    {
        self.duplicate()
    }
}


/// Why commands could not be loaded or saved.
#[derive(Debug, PartialEq, Eq)]
pub enum HookConfigError {
    Read { path: String, message: String },
    Parse { path: String, message: String },
    Serialize { path: String, message: String },
    Write { path: String, message: String },
}

/// The contents of a `HookConfigError`.
#[verifier::ext_equal]
pub enum HookConfigErrorView {
    Read { path: Seq<char>, message: Seq<char> },
    Parse { path: Seq<char>, message: Seq<char> },
    Serialize { path: Seq<char>, message: Seq<char> },
    Write { path: Seq<char>, message: Seq<char> },
}

impl View for HookConfigError {
    type V = HookConfigErrorView;

    open spec fn view(&self) -> HookConfigErrorView {
        match self {
            HookConfigError::Read { path, message } => HookConfigErrorView::Read { path: path@, message: message@ },
            HookConfigError::Parse { path, message } => HookConfigErrorView::Parse { path: path@, message: message@ },
            HookConfigError::Serialize { path, message } => HookConfigErrorView::Serialize { path: path@, message: message@ },
            HookConfigError::Write { path, message } => HookConfigErrorView::Write { path: path@, message: message@ },
        }
    }
}

impl DeepView for HookConfigError {
    type V = HookConfigErrorView;

    open spec fn deep_view(&self) -> HookConfigErrorView {
        self@
    }
}

impl Duplicate for HookConfigError {
    fn duplicate(&self) -> (r: Self) {
        match self {
            HookConfigError::Read { path, message } => HookConfigError::Read { path: path.duplicate(), message: message.duplicate() },
            HookConfigError::Parse { path, message } => HookConfigError::Parse { path: path.duplicate(), message: message.duplicate() },
            HookConfigError::Serialize { path, message } => HookConfigError::Serialize { path: path.duplicate(), message: message.duplicate() },
            HookConfigError::Write { path, message } => HookConfigError::Write { path: path.duplicate(), message: message.duplicate() },
        }
    }
}

impl Clone for HookConfigError {
    fn clone(&self) -> (r: Self)
        ensures
            r@ == self@,
    {
        self.duplicate()
    }
}

impl HookConfigErrorView {
    /// The text shown for the error.
    pub open spec fn message(self) -> Seq<char> {
        match self {
            HookConfigErrorView::Read { path, .. } => "failed to read "@ + path,
            HookConfigErrorView::Parse { path, message } => "invalid hooks config at "@ + path + ": "@ + message,
            HookConfigErrorView::Serialize { path, .. } => "failed to serialize hooks config for "@ + path,
            HookConfigErrorView::Write { path, .. } => "failed to write "@ + path,
        }
    }
}

impl HookConfigError {
    /// The text shown for the error.
    pub fn message(&self) -> (r: String)
        ensures
            r@ == self@.message(),
    {
        match self {
            HookConfigError::Read { path, .. } => {
                let mut out = "failed to read ".to_owned();
                out.push_str(path.as_str());
                out
            },
            HookConfigError::Parse { path, message } => {
                let mut out = "invalid hooks config at ".to_owned();
                out.push_str(path.as_str());
                out.push_str(": ");
                out.push_str(message.as_str());
                out
            },
            HookConfigError::Serialize { path, .. } => {
                let mut out = "failed to serialize hooks config for ".to_owned();
                out.push_str(path.as_str());
                out
            },
            HookConfigError::Write { path, .. } => {
                let mut out = "failed to write ".to_owned();
                out.push_str(path.as_str());
                out
            },
        }
    }
}


/// What reading commands gave.
#[derive(Debug, PartialEq, Eq)]
pub enum HooksRead {
    /// There is no such file.
    Missing,
    /// The file could not be read.
    Unreadable { message: String },
    /// The file holds no commands.
    Malformed { message: String },
    /// The commands that the file holds.
    Parsed { config: HookConfig },
}

/// The contents of a `HooksRead`.
#[verifier::ext_equal]
pub enum HooksReadView {
    Missing,
    Unreadable { message: Seq<char> },
    Malformed { message: Seq<char> },
    Parsed { config: HookConfigView },
}

impl View for HooksRead {
    type V = HooksReadView;

    open spec fn view(&self) -> HooksReadView {
        match self {
            HooksRead::Missing => HooksReadView::Missing,
            HooksRead::Unreadable { message } => HooksReadView::Unreadable { message: message@ },
            HooksRead::Malformed { message } => HooksReadView::Malformed { message: message@ },
            HooksRead::Parsed { config } => HooksReadView::Parsed { config: config@ },
        }
    }
}

impl DeepView for HooksRead {
    type V = HooksReadView;

    open spec fn deep_view(&self) -> HooksReadView {
        self@
    }
}

impl Duplicate for HooksRead {
    fn duplicate(&self) -> (r: Self) {
        match self {
            HooksRead::Missing => HooksRead::Missing,
            HooksRead::Unreadable { message } => HooksRead::Unreadable { message: message.duplicate() },
            HooksRead::Malformed { message } => HooksRead::Malformed { message: message.duplicate() },
            HooksRead::Parsed { config } => HooksRead::Parsed { config: config.duplicate() },
        }
    }
}

impl Clone for HooksRead {
    fn clone(&self) -> (r: Self)
        ensures
            r@ == self@,
    {
        self.duplicate()
    }
}


/// What became of a command.
#[derive(Debug, PartialEq, Eq)]
pub enum HookHappening {
    /// It could not be started.
    SpawnFailed { error: String },
    /// It was started.
    Spawned { pid: u32 },
    /// It ended.
    Exited { pid: u32, success: bool, code: Option<i32>, stdout: String, stderr: String },
    /// Its end could not be waited for.
    WaitFailed { pid: u32, error: String },
}

/// The contents of a `HookHappening`.
#[verifier::ext_equal]
pub enum HookHappeningView {
    SpawnFailed { error: Seq<char> },
    Spawned { pid: u32 },
    Exited { pid: u32, success: bool, code: Option<i32>, stdout: Seq<char>, stderr: Seq<char> },
    WaitFailed { pid: u32, error: Seq<char> },
}

impl View for HookHappening {
    type V = HookHappeningView;

    open spec fn view(&self) -> HookHappeningView {
        match self {
            HookHappening::SpawnFailed { error } => HookHappeningView::SpawnFailed { error: error@ },
            HookHappening::Spawned { pid } => HookHappeningView::Spawned { pid: *pid },
            HookHappening::Exited { pid, success, code, stdout, stderr } => HookHappeningView::Exited { pid: *pid, success: *success, code: code.deep_view(), stdout: stdout@, stderr: stderr@ },
            HookHappening::WaitFailed { pid, error } => HookHappeningView::WaitFailed { pid: *pid, error: error@ },
        }
    }
}

impl DeepView for HookHappening {
    type V = HookHappeningView;

    open spec fn deep_view(&self) -> HookHappeningView {
        self@
    }
}

impl Duplicate for HookHappening {
    fn duplicate(&self) -> (r: Self) {
        match self {
            HookHappening::SpawnFailed { error } => HookHappening::SpawnFailed { error: error.duplicate() },
            HookHappening::Spawned { pid } => HookHappening::Spawned { pid: *pid },
            HookHappening::Exited { pid, success, code, stdout, stderr } => HookHappening::Exited { pid: *pid, success: *success, code: code.duplicate(), stdout: stdout.duplicate(), stderr: stderr.duplicate() },
            HookHappening::WaitFailed { pid, error } => HookHappening::WaitFailed { pid: *pid, error: error.duplicate() },
        }
    }
}

impl Clone for HookHappening {
    fn clone(&self) -> (r: Self)
        ensures
            r@ == self@,
    {
        self.duplicate()
    }
}


/// What is to be done about a command.
#[derive(Debug, PartialEq, Eq)]
pub enum HookAction {
    /// Warn the user.
    Warn { message: String },
    /// Append a line to the log of failures.
    LogFailure { line: String },
    /// Append an entry to the log of all commands.
    LogDebug { entry: HookDebugEntry },
}

/// The contents of a `HookAction`.
#[verifier::ext_equal]
pub enum HookActionView {
    Warn { message: Seq<char> },
    LogFailure { line: Seq<char> },
    LogDebug { entry: HookDebugEntryView },
}

impl View for HookAction {
    type V = HookActionView;

    open spec fn view(&self) -> HookActionView {
        match self {
            HookAction::Warn { message } => HookActionView::Warn { message: message@ },
            HookAction::LogFailure { line } => HookActionView::LogFailure { line: line@ },
            HookAction::LogDebug { entry } => HookActionView::LogDebug { entry: entry@ },
        }
    }
}

impl DeepView for HookAction {
    type V = HookActionView;

    open spec fn deep_view(&self) -> HookActionView {
        self@
    }
}

impl Duplicate for HookAction {
    fn duplicate(&self) -> (r: Self) {
        match self {
            HookAction::Warn { message } => HookAction::Warn { message: message.duplicate() },
            HookAction::LogFailure { line } => HookAction::LogFailure { line: line.duplicate() },
            HookAction::LogDebug { entry } => HookAction::LogDebug { entry: entry.duplicate() },
        }
    }
}

impl Clone for HookAction {
    fn clone(&self) -> (r: Self)
        ensures
            r@ == self@,
    {
        self.duplicate()
    }
}


/// What a command is told about a task.
pub open spec fn hook_context(
    task: TaskView,
    slug: Seq<char>,
    project_path: Seq<char>,
    state_dir: Seq<char>,
    from_phase: Seq<char>,
    to_phase: Seq<char>,
    artifact: Seq<char>,
) -> HookContextView {
    HookContextView {
        task_id: task.id,
        task_title: task.title,
        task_description: task.description,
        task_state: task.state,
        task_dependencies: join(task.dependencies, ","@),
        task_retry_count: decimal(task.retry_count as nat),
        task_max_retries: decimal(task.max_retries as nat),
        task_created_at: task.created_at,
        project_slug: slug,
        project_path,
        state_dir,
        from_phase,
        to_phase,
        artifact,
    }
}

impl HookContext {
    /// What a command is told about a task.
    pub fn new(
        task: &Task,
        project_slug: &str,
        project_path: &str,
        state_dir: &str,
        from_phase: &str,
        to_phase: &str,
        artifact: &str,
    ) -> (r: HookContext)
        ensures
            r@ == hook_context(
                task@,
                project_slug@,
                project_path@,
                state_dir@,
                from_phase@,
                to_phase@,
                artifact@,
            ),
    {
        HookContext {
            task_id: task.id.clone(),
            task_title: task.title.clone(),
            task_description: task.description.clone(),
            task_state: task.state.clone(),
            task_dependencies: join_strs(&task.dependencies, ","),
            task_retry_count: decimal_str(task.retry_count as u64),
            task_max_retries: decimal_str(task.max_retries as u64),
            task_created_at: task.created_at.clone(),
            project_slug: project_slug.to_owned(),
            project_path: project_path.to_owned(),
            state_dir: state_dir.to_owned(),
            from_phase: from_phase.to_owned(),
            to_phase: to_phase.to_owned(),
            artifact: artifact.to_owned(),
        }
    }
}

// ---------------------------------------------------------------------------------------------
// Choosing commands
// ---------------------------------------------------------------------------------------------

/// The commands that are run for an event: those for it and those for everything.
pub open spec fn runs_on(event: Seq<char>) -> spec_fn(HookEntryView) -> bool {
    |h: HookEntryView| h.on == "*"@ || h.on == event
}

/// The commands for an event, those of the user before those of the project.
pub open spec fn event_hooks(
    global: HookConfigView,
    project: HookConfigView,
    event: Seq<char>,
) -> Seq<HookEntryView> {
    keep(global.hooks, runs_on(event)) + keep(project.hooks, runs_on(event))
}

fn matching_hooks(config: &HookConfig, event: &str) -> (r: Vec<HookEntry>)
    ensures
        r.deep_view() == keep(config@.hooks, runs_on(event@)),
{
    let ghost all = config@.hooks;
    let mut out: Vec<HookEntry> = Vec::new();
    let mut i: usize = 0;
    assert(all.take(0) =~= Seq::<HookEntryView>::empty());
    assert(out.deep_view() =~= Seq::<HookEntryView>::empty());
    while i < config.hooks.len()
        invariant
            i <= config.hooks.len(),
            all == config@.hooks,
            out.deep_view() == keep(all.take(i as int), runs_on(event@)),
        decreases config.hooks.len() - i,
    {
        assert(all.take(i + 1).drop_last() =~= all.take(i as int));
        assert(all.take(i + 1).last() == config.hooks@[i as int]@);
        let ghost before = out.deep_view();
        if str_eq(config.hooks[i].on.as_str(), "*") || str_eq(config.hooks[i].on.as_str(), event) {
            out.push(config.hooks[i].duplicate());
            assert(out.deep_view() =~= before.push(config.hooks@[i as int]@));
        }
        i = i + 1;
    }
    assert(all.take(i as int) =~= all);
    out
}

/// The commands for an event, those of the user before those of the project.
pub fn hooks_for_event(global_hooks: &HookConfig, project_hooks: &HookConfig, event: &str) -> (r:
    Vec<HookEntry>)
    ensures
        r.deep_view() == event_hooks(global_hooks@, project_hooks@, event@),
{
    let mut out = matching_hooks(global_hooks, event);
    let mut more = matching_hooks(project_hooks, event);
    let ghost a = out.deep_view();
    let ghost b = more.deep_view();
    out.append(&mut more);
    assert(out.deep_view() =~= a + b);
    out
}

/// The commands for a phase that a task came to.
pub fn hooks_for_phase(global_hooks: &HookConfig, project_hooks: &HookConfig, to_phase: &str) -> (r:
    Vec<HookEntry>)
    ensures
        r.deep_view() == event_hooks(global_hooks@, project_hooks@, to_phase@),
{
    hooks_for_event(global_hooks, project_hooks, to_phase)
}

/// The commands that are run for an event are those of the user and then those of the project, in
/// their order, that are for the event or for every event.
pub proof fn law_commands_of_an_event_are_run(
    global: HookConfigView,
    project: HookConfigView,
    event: Seq<char>,
)
    ensures
        event_hooks(global, project, event) == global.hooks.filter(
            |h: HookEntryView| h.on == event || h.on == "*"@,
        ) + project.hooks.filter(|h: HookEntryView| h.on == event || h.on == "*"@),
{
    let p = |h: HookEntryView| h.on == event || h.on == "*"@;
    assert(runs_on(event) =~= p);
    law_keeping_is_filtering(global.hooks, p);
    law_keeping_is_filtering(project.hooks, p);
}

/// Every command that is chosen is one for the event or for everything.
pub proof fn law_chosen_hooks_match(global: HookConfigView, project: HookConfigView, event: Seq<char>)
    ensures
        forall|i: int|
            0 <= i < event_hooks(global, project, event).len() ==> runs_on(event)(
                #[trigger] event_hooks(global, project, event)[i],
            ),
{
    lemma_keep(global.hooks, runs_on(event));
    lemma_keep(project.hooks, runs_on(event));
    let g = keep(global.hooks, runs_on(event));
    let p = keep(project.hooks, runs_on(event));
    assert forall|i: int| 0 <= i < (g + p).len() implies runs_on(event)(#[trigger] (g + p)[i]) by {
        if i < g.len() {
            assert((g + p)[i] == g[i]);
        } else {
            assert((g + p)[i] == p[i - g.len()]);
        }
    }
}

// ---------------------------------------------------------------------------------------------
// Running commands
// ---------------------------------------------------------------------------------------------

/// A variable of a process.
pub open spec fn env_var(name: Seq<char>, value: Seq<char>) -> EnvVarView {
    EnvVarView { name, value }
}

/// The variables that a command finds.
pub open spec fn hook_env(ctx: HookContextView) -> Seq<EnvVarView> {
    seq![
        env_var("AGIRA_TASK_ID"@, ctx.task_id),
        env_var("AGIRA_TASK_TITLE"@, ctx.task_title),
        env_var("AGIRA_TASK_DESCRIPTION"@, ctx.task_description),
        env_var("AGIRA_TASK_STATE"@, ctx.task_state),
        env_var("AGIRA_TASK_DEPENDENCIES"@, ctx.task_dependencies),
        env_var("AGIRA_TASK_RETRY_COUNT"@, ctx.task_retry_count),
        env_var("AGIRA_TASK_MAX_RETRIES"@, ctx.task_max_retries),
        env_var("AGIRA_TASK_CREATED_AT"@, ctx.task_created_at),
        env_var("AGIRA_PROJECT_SLUG"@, ctx.project_slug),
        env_var("AGIRA_PROJECT_PATH"@, ctx.project_path),
        env_var("AGIRA_FROM_PHASE"@, ctx.from_phase),
        env_var("AGIRA_TO_PHASE"@, ctx.to_phase),
        env_var("AGIRA_ARTIFACT"@, ctx.artifact),
    ]
}

fn make_env(name: &str, value: &String) -> (r: EnvVar)
    ensures
        r@ == env_var(name@, value@),
{
    EnvVar { name: name.to_owned(), value: value.clone() }
}

/// The process that runs a command.
pub fn hook_command(hook: &HookEntry, ctx: &HookContext) -> (r: HookCommand)
    ensures
        r@ == (HookCommandView {
            program: "sh"@,
            args: seq!["-c"@, hook@.run],
            env: hook_env(ctx@),
        }),
{
    let args: Vec<String> = vec!["-c".to_owned(), hook.run.clone()];
    assert(args.deep_view() =~= seq!["-c"@, hook@.run]);
    let env: Vec<EnvVar> = vec![
        make_env("AGIRA_TASK_ID", &ctx.task_id),
        make_env("AGIRA_TASK_TITLE", &ctx.task_title),
        make_env("AGIRA_TASK_DESCRIPTION", &ctx.task_description),
        make_env("AGIRA_TASK_STATE", &ctx.task_state),
        make_env("AGIRA_TASK_DEPENDENCIES", &ctx.task_dependencies),
        make_env("AGIRA_TASK_RETRY_COUNT", &ctx.task_retry_count),
        make_env("AGIRA_TASK_MAX_RETRIES", &ctx.task_max_retries),
        make_env("AGIRA_TASK_CREATED_AT", &ctx.task_created_at),
        make_env("AGIRA_PROJECT_SLUG", &ctx.project_slug),
        make_env("AGIRA_PROJECT_PATH", &ctx.project_path),
        make_env("AGIRA_FROM_PHASE", &ctx.from_phase),
        make_env("AGIRA_TO_PHASE", &ctx.to_phase),
        make_env("AGIRA_ARTIFACT", &ctx.artifact),
    ];
    assert(env.deep_view() =~= hook_env(ctx@));
    HookCommand { program: "sh".to_owned(), args, env }
}

/// Whether all commands are noted: by the settings, or by a variable set to `1`.
pub fn hook_debug_enabled(hook_debug: bool, variable: Option<&str>) -> (r: bool)
    ensures
        r == (hook_debug || variable.deep_view() == Some("1"@)),
{
    hook_debug || match variable {
        Some(v) => str_eq(v, "1"),
        None => false,
    }
}

/// A character that does not end a field or a line.
pub open spec fn field_char(c: char) -> char {
    if c == '\t' || c == '\n' || c == '\r' {
        ' '
    } else {
        c
    }
}

/// A text as a field of a line, cut off after some characters.
pub open spec fn field(s: Seq<char>, limit: nat) -> Seq<char> {
    Seq::new(
        if s.len() <= limit {
            s.len()
        } else {
            limit
        },
        |i: int| field_char(s[i]),
    )
}

/// A text as a field of a line, cut off after some characters.
pub fn sanitize_field(value: &str, limit: usize) -> (r: String)
    ensures
        r@ == field(value@, limit as nat),
{
    let x: Vec<char> = crate::text::to_chars(value);
    let n: usize = if x.len() <= limit {
        x.len()
    } else {
        limit
    };
    let ghost all = field(value@, limit as nat);
    let mut out = String::new();
    let mut i: usize = 0;
    while i < n
        invariant
            i <= n <= x.len(),
            x@ == value@,
            all == field(value@, limit as nat),
            n == all.len(),
            out@ == all.take(i as int),
        decreases n - i,
    {
        let c: char = x[i];
        if c == '\t' || c == '\n' || c == '\r' {
            out.push(' ');
        } else {
            out.push(c);
        }
        assert(all.take(i + 1) =~= all.take(i as int).push(all[i as int]));
        i = i + 1;
    }
    assert(all.take(i as int) =~= all);
    out
}

/// A field holds no character that ends a field or a line.
pub proof fn law_field_is_one_field(s: Seq<char>, limit: nat)
    ensures
        forall|i: int|
            0 <= i < field(s, limit).len() ==> #[trigger] field(s, limit)[i] != '\t' && field(
                s,
                limit,
            )[i] != '\n' && field(s, limit)[i] != '\r',
        field(s, limit).len() <= limit,
{
}

/// A line of the log of failures.
pub open spec fn failure_line(
    now: Seq<char>,
    event: Seq<char>,
    task_id: Seq<char>,
    command: Seq<char>,
    reason: Seq<char>,
) -> Seq<char> {
    now + "\t"@ + field(event, usize::MAX as nat) + "\t"@ + field(task_id, usize::MAX as nat)
        + "\t"@ + field(command, 200) + "\t"@ + reason + "\n"@
}

fn write_failure_line(now: &str, event: &str, task_id: &str, command: &str, reason: &str) -> (r:
    String)
    ensures
        r@ == failure_line(now@, event@, task_id@, command@, reason@),
{
    let mut out = now.to_owned();
    out.push_str("\t");
    out.push_str(sanitize_field(event, usize::MAX).as_str());
    out.push_str("\t");
    out.push_str(sanitize_field(task_id, usize::MAX).as_str());
    out.push_str("\t");
    out.push_str(sanitize_field(command, 200).as_str());
    out.push_str("\t");
    out.push_str(reason);
    out.push_str("\n");
    out
}

/// The reason for which a command that could not be started failed.
pub open spec fn spawn_reason(error: Seq<char>) -> Seq<char> {
    "spawn_error: "@ + field(error, 500)
}

/// The reason for which a command that ended failed.
pub open spec fn exit_reason(code: Option<i32>) -> Seq<char> {
    "exit_status: "@ + match code {
        Some(n) => signed_decimal(n as int),
        None => "unknown"@,
    }
}

/// The line about a command that could not be started.
pub fn append_hook_failure_spawn(
    now: &str,
    event: &str,
    task_id: &str,
    hook: &HookEntry,
    error: &str,
) -> (r: String)
    ensures
        r@ == failure_line(now@, event@, task_id@, hook@.run, spawn_reason(error@)),
{
    let mut reason = "spawn_error: ".to_owned();
    reason.push_str(sanitize_field(error, 500).as_str());
    write_failure_line(now, event, task_id, hook.run.as_str(), reason.as_str())
}

/// The line about a command that ended in failure.
pub fn append_hook_failure_exit_status(
    now: &str,
    event: &str,
    task_id: &str,
    hook: &HookEntry,
    code: Option<i32>,
) -> (r: String)
    ensures
        r@ == failure_line(now@, event@, task_id@, hook@.run, exit_reason(code)),
{
    let mut reason = "exit_status: ".to_owned();
    match code {
        Some(n) => reason.push_str(signed_decimal_str(n).as_str()),
        None => reason.push_str("unknown"),
    }
    write_failure_line(now, event, task_id, hook.run.as_str(), reason.as_str())
}

/// What is noted where no command is run for an event.
pub open spec fn no_hooks_entry(now: Seq<char>, event: Seq<char>, task_id: Seq<char>) -> HookDebugEntryView {
    HookDebugEntryView {
        spawned_at: now,
        event,
        task_id,
        command: Seq::empty(),
        spawn_result: "no_matching_hooks"@,
        pid: None,
        exit_status: None,
        stdout: None,
        stderr: None,
    }
}

/// What is to be done before the commands for an event are run: where all commands are noted, the
/// lack of one is noted too.
pub open spec fn before_hooks(
    count: nat,
    event: Seq<char>,
    ctx: HookContextView,
    debug: bool,
    now: Seq<char>,
) -> Seq<HookActionView> {
    if count == 0 && debug {
        seq![HookActionView::LogDebug { entry: no_hooks_entry(now, event, ctx.task_id) }]
    } else {
        Seq::empty()
    }
}

/// What is to be done before the commands for an event are run.
pub fn dispatch_hooks(hooks: &[HookEntry], event: &str, ctx: &HookContext, debug: bool, now: &str) -> (r:
    Vec<HookAction>)
    ensures
        r.deep_view() == before_hooks(hooks.deep_view().len(), event@, ctx@, debug, now@),
{
    let mut out: Vec<HookAction> = Vec::new();
    if hooks.len() == 0 && debug {
        let entry = HookDebugEntry {
            spawned_at: now.to_owned(),
            event: event.to_owned(),
            task_id: ctx.task_id.clone(),
            command: String::new(),
            spawn_result: "no_matching_hooks".to_owned(),
            pid: None,
            exit_status: None,
            stdout: None,
            stderr: None,
        };
        out.push(HookAction::LogDebug { entry });
    }
    assert(out.deep_view() =~= before_hooks(hooks.deep_view().len(), event@, ctx@, debug, now@));
    out
}

/// What is noted of a command.
pub open spec fn debug_entry(
    now: Seq<char>,
    hook: HookEntryView,
    task_id: Seq<char>,
    result: Seq<char>,
    pid: Option<u32>,
) -> HookDebugEntryView {
    HookDebugEntryView {
        spawned_at: now,
        event: hook.on,
        task_id,
        command: hook.run,
        spawn_result: result,
        pid,
        exit_status: None,
        stdout: None,
        stderr: None,
    }
}

fn make_debug_entry(now: &str, hook: &HookEntry, task_id: &str, result: String, pid: Option<u32>) -> (r:
    HookDebugEntry)
    ensures
        r@ == debug_entry(now@, hook@, task_id@, result@, pid),
{
    HookDebugEntry {
        spawned_at: now.to_owned(),
        event: hook.on.clone(),
        task_id: task_id.to_owned(),
        command: hook.run.clone(),
        spawn_result: result,
        pid,
        exit_status: None,
        stdout: None,
        stderr: None,
    }
}

/// What is to be done about what became of a command, where commands are not noted.
pub open spec fn plain_actions(
    hook: HookEntryView,
    event: Seq<char>,
    ctx: HookContextView,
    happening: HookHappeningView,
    now: Seq<char>,
) -> Seq<HookActionView> {
    match happening {
        HookHappeningView::SpawnFailed { error } => seq![
            HookActionView::Warn { message: "warning: hook spawn failed: "@ + error },
            HookActionView::LogFailure {
                line: failure_line(now, event, ctx.task_id, hook.run, spawn_reason(error)),
            },
        ],
        HookHappeningView::Exited { success, code, .. } => if success {
            Seq::empty()
        } else {
            seq![
                HookActionView::LogFailure {
                    line: failure_line(now, event, ctx.task_id, hook.run, exit_reason(code)),
                },
            ]
        },
        _ => Seq::empty(),
    }
}

/// What is to be done about what became of a command, where commands are noted: what is done
/// otherwise, and an entry.
pub open spec fn debug_actions(
    hook: HookEntryView,
    event: Seq<char>,
    ctx: HookContextView,
    happening: HookHappeningView,
    now: Seq<char>,
) -> Seq<HookActionView> {
    match happening {
        HookHappeningView::SpawnFailed { error } => plain_actions(hook, event, ctx, happening, now).push(
            HookActionView::LogDebug {
                entry: debug_entry(now, hook, ctx.task_id, "error:"@ + error, None),
            },
        ),
        HookHappeningView::Spawned { pid } => seq![
            HookActionView::LogDebug {
                entry: debug_entry(now, hook, ctx.task_id, "spawned"@, Some(pid)),
            },
        ],
        HookHappeningView::Exited { pid, success, code, stdout, stderr } => plain_actions(
            hook,
            event,
            ctx,
            happening,
            now,
        ).push(
            HookActionView::LogDebug {
                entry: HookDebugEntryView {
                    exit_status: code,
                    stdout: Some(stdout),
                    stderr: Some(stderr),
                    ..debug_entry(now, hook, ctx.task_id, "ok"@, Some(pid))
                },
            },
        ),
        HookHappeningView::WaitFailed { pid, error } => seq![
            HookActionView::Warn { message: "warning: hook wait failed: "@ + error },
            HookActionView::LogDebug {
                entry: debug_entry(
                    now,
                    hook,
                    ctx.task_id,
                    "error:wait failed: "@ + error,
                    Some(pid),
                ),
            },
        ],
    }
}

/// What is to be done about what became of a command, where commands are not noted.
pub fn dispatch_hook(
    hook: &HookEntry,
    event: &str,
    ctx: &HookContext,
    happening: &HookHappening,
    now: &str,
) -> (r: Vec<HookAction>)
    ensures
        r.deep_view() == plain_actions(hook@, event@, ctx@, happening@, now@),
{
    let mut out: Vec<HookAction> = Vec::new();
    match happening {
        HookHappening::SpawnFailed { error } => {
            let mut message = "warning: hook spawn failed: ".to_owned();
            message.push_str(error.as_str());
            out.push(HookAction::Warn { message });
            let line = append_hook_failure_spawn(
                now,
                event,
                ctx.task_id.as_str(),
                hook,
                error.as_str(),
            );
            out.push(HookAction::LogFailure { line });
        },
        HookHappening::Exited { success, code, .. } => {
            if !*success {
                let line = append_hook_failure_exit_status(
                    now,
                    event,
                    ctx.task_id.as_str(),
                    hook,
                    *code,
                );
                out.push(HookAction::LogFailure { line });
            }
        },
        _ => {},
    }
    assert(out.deep_view() =~= plain_actions(hook@, event@, ctx@, happening@, now@));
    out
}

/// What is to be done about what became of a command, where commands are noted.
pub fn dispatch_hook_with_debug(
    hook: &HookEntry,
    event: &str,
    ctx: &HookContext,
    happening: &HookHappening,
    now: &str,
) -> (r: Vec<HookAction>)
    ensures
        r.deep_view() == debug_actions(hook@, event@, ctx@, happening@, now@),
{
    let ghost all = debug_actions(hook@, event@, ctx@, happening@, now@);
    let task_id = ctx.task_id.as_str();
    let mut out: Vec<HookAction> = match happening {
        HookHappening::SpawnFailed { .. } => dispatch_hook(hook, event, ctx, happening, now),
        HookHappening::Exited { .. } => dispatch_hook(hook, event, ctx, happening, now),
        _ => Vec::new(),
    };
    let ghost before = out.deep_view();
    match happening {
        HookHappening::SpawnFailed { error } => {
            let mut result = "error:".to_owned();
            result.push_str(error.as_str());
            let entry = make_debug_entry(now, hook, task_id, result, None);
            out.push(HookAction::LogDebug { entry });
        },
        HookHappening::Spawned { pid } => {
            let entry = make_debug_entry(now, hook, task_id, "spawned".to_owned(), Some(*pid));
            out.push(HookAction::LogDebug { entry });
        },
        HookHappening::Exited { pid, success, code, stdout, stderr } => {
            let mut entry = make_debug_entry(now, hook, task_id, "ok".to_owned(), Some(*pid));
            entry.exit_status = *code;
            entry.stdout = Some(stdout.clone());
            entry.stderr = Some(stderr.clone());
            out.push(HookAction::LogDebug { entry });
        },
        HookHappening::WaitFailed { pid, error } => {
            let mut message = "warning: hook wait failed: ".to_owned();
            message.push_str(error.as_str());
            out.push(HookAction::Warn { message });
            let mut result = "error:wait failed: ".to_owned();
            result.push_str(error.as_str());
            let entry = make_debug_entry(now, hook, task_id, result, Some(*pid));
            out.push(HookAction::LogDebug { entry });
        },
    }
    assert(out.deep_view() =~= all);
    out
}

/// Noting commands changes nothing about the failures that are logged.
pub proof fn law_debugging_keeps_failures(
    hook: HookEntryView,
    event: Seq<char>,
    ctx: HookContextView,
    happening: HookHappeningView,
    now: Seq<char>,
)
    ensures
        keep(
            debug_actions(hook, event, ctx, happening, now),
            |a: HookActionView| a is LogFailure,
        ) == keep(
            plain_actions(hook, event, ctx, happening, now),
            |a: HookActionView| a is LogFailure,
        ),
{
    let p = |a: HookActionView| a is LogFailure;
    let d = debug_actions(hook, event, ctx, happening, now);
    let q = plain_actions(hook, event, ctx, happening, now);
    match happening {
        HookHappeningView::SpawnFailed { error } => {
            assert(d.drop_last() =~= q);
        },
        HookHappeningView::Exited { .. } => {
            assert(d.drop_last() =~= q);
        },
        _ => {
            crate::text::lemma_keep_none(d, p);
            crate::text::lemma_keep_none(q, p);
        },
    }
}

// ---------------------------------------------------------------------------------------------
// Loading and saving
// ---------------------------------------------------------------------------------------------

/// The commands that were read; none where there is no file.
pub open spec fn loaded_hooks(path: Seq<char>, read: HooksReadView) -> Result<
    HookConfigView,
    HookConfigErrorView,
> {
    match read {
        HooksReadView::Missing => Ok(HookConfigView { hooks: Seq::empty() }),
        HooksReadView::Unreadable { message } => Err(HookConfigErrorView::Read { path, message }),
        HooksReadView::Malformed { message } => Err(HookConfigErrorView::Parse { path, message }),
        HooksReadView::Parsed { config } => Ok(config),
    }
}

/// The commands that were read; none where there is no file.
pub fn load_hooks(path: &str, read: HooksRead) -> (r: Result<HookConfig, HookConfigError>)
    ensures
        outcome(r) == loaded_hooks(path@, read@),
{
    match read {
        HooksRead::Missing => Ok(HookConfig::default()),
        HooksRead::Unreadable { message } => Err(
            HookConfigError::Read { path: path.to_owned(), message },
        ),
        HooksRead::Malformed { message } => Err(
            HookConfigError::Parse { path: path.to_owned(), message },
        ),
        HooksRead::Parsed { config } => Ok(config),
    }
}

/// A command as a value of a document.
pub open spec fn hook_item(h: HookEntryView) -> TomlItem {
    TomlItem::Table(
        no_entries().insert("on"@, TomlItem::Text(h.on)).insert("run"@, TomlItem::Text(h.run)),
    )
}

/// Commands as a value of a document.
pub open spec fn hooks_item(config: HookConfigView) -> TomlItem {
    TomlItem::List(config.hooks.map_values(|h: HookEntryView| hook_item(h)))
}

/// A document with some commands; what it holds besides stays.
pub open spec fn with_hooks(entries: Map<Seq<char>, TomlItem>, config: HookConfigView) -> Map<
    Seq<char>,
    TomlItem,
> {
    if config.hooks.len() == 0 {
        entries.remove("hooks"@)
    } else {
        entries.insert("hooks"@, hooks_item(config))
    }
}

pub(crate) fn hooks_value(config: &HookConfig) -> (r: toml::Value)
    ensures
        value_item(r) == hooks_item(config@),
{
    let ghost all = config@.hooks;
    let mut out: Vec<toml::Value> = Vec::new();
    let mut i: usize = 0;
    while i < config.hooks.len()
        invariant
            i <= config.hooks.len(),
            all == config@.hooks,
            out.len() == i,
            forall|j: int| 0 <= j < i ==> value_item(#[trigger] out@[j]) == hook_item(all[j]),
        decreases config.hooks.len() - i,
    {
        assert(all[i as int] == config.hooks@[i as int]@);
        let mut table = new_table();
        insert_value(&mut table, "on".to_owned(), text_value(config.hooks[i].on.clone()));
        insert_value(&mut table, "run".to_owned(), text_value(config.hooks[i].run.clone()));
        out.push(table_value(table));
        i = i + 1;
    }
    assert(out@.map_values(|v: toml::Value| value_item(v)) =~= all.map_values(
        |h: HookEntryView| hook_item(h),
    ));
    list_value(out)
}

/// The text of a file once commands are saved in it.
pub open spec fn saved_hooks(path: Seq<char>, read: TextReadView, config: HookConfigView) -> Result<
    Seq<char>,
    HookConfigErrorView,
> {
    let document = match read {
        TextReadView::Missing => Ok(no_entries()),
        TextReadView::Unreadable { message } => Err(HookConfigErrorView::Read { path, message }),
        TextReadView::Contents { text } => match toml_parsed(text) {
            Ok(m) => Ok(m),
            Err(message) => Err(HookConfigErrorView::Parse { path, message }),
        },
    };
    match document {
        Err(e) => Err(e),
        Ok(m) => match toml_rendered(with_hooks(m, config)) {
            Ok(s) => Ok(s),
            Err(message) => Err(HookConfigErrorView::Serialize { path, message }),
        },
    }
}

/// The text of a file once commands are saved in it: what the file held besides stays.
pub fn save_hooks_preserving_toml(path: &str, read: TextRead, config: &HookConfig) -> (r: Result<
    String,
    HookConfigError,
>)
    ensures
        outcome(r) == saved_hooks(path@, read@, config@),
{
    let mut document = match read {
        TextRead::Missing => new_table(),
        TextRead::Unreadable { message } => {
            return Err(HookConfigError::Read { path: path.to_owned(), message });
        },
        TextRead::Contents { text } => match parse_table(text.as_str()) {
            Ok(t) => t,
            Err(message) => {
                return Err(HookConfigError::Parse { path: path.to_owned(), message });
            },
        },
    };
    if config.hooks.len() == 0 {
        remove_value(&mut document, "hooks");
    } else {
        insert_value(&mut document, "hooks".to_owned(), hooks_value(config));
    }
    match render_table(&document) {
        Ok(s) => Ok(s),
        Err(message) => Err(HookConfigError::Serialize { path: path.to_owned(), message }),
    }
}

/// The text of a file that holds commands and nothing else.
pub open spec fn saved_hooks_alone(path: Seq<char>, config: HookConfigView) -> Result<
    Seq<char>,
    HookConfigErrorView,
> {
    match toml_rendered(no_entries().insert("hooks"@, hooks_item(config))) {
        Ok(s) => Ok(s),
        Err(message) => Err(HookConfigErrorView::Serialize { path, message }),
    }
}

/// The text of a file that holds commands and nothing else.
pub fn save_hooks(path: &str, config: &HookConfig) -> (r: Result<String, HookConfigError>)
    ensures
        outcome(r) == saved_hooks_alone(path@, config@),
{
    let mut document = new_table();
    insert_value(&mut document, "hooks".to_owned(), hooks_value(config));
    match render_table(&document) {
        Ok(s) => Ok(s),
        Err(message) => Err(HookConfigError::Serialize { path: path.to_owned(), message }),
    }
}

/// Saving commands leaves the rest of a document as it was.
pub proof fn law_saving_hooks_keeps_the_rest(
    entries: Map<Seq<char>, TomlItem>,
    config: HookConfigView,
    key: Seq<char>,
)
    requires
        key != "hooks"@,
    ensures
        with_hooks(entries, config).contains_key(key) == entries.contains_key(key),
        entries.contains_key(key) ==> with_hooks(entries, config)[key] == entries[key],
{
}

} // verus!
