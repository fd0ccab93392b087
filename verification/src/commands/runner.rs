//! Starting, stopping and watching the process that hands tasks out.

use vstd::prelude::*;

use crate::commands::launch::{
    claude_launch_command, claude_tui_input_cleared, claude_tui_input_ready, launch_line,
    lifecycle_item, merge_settings_text, merged_settings_text, runner_hooks_settings,
    shows_empty_prompt, shows_prompt,
};
use crate::commands::report::{config_path, load_config, project_config};
use crate::duplicate::{outcome, Duplicate};
use crate::engine::config::{
    law_loaded_config_is_valid, Config, ConfigError, ConfigErrorView, ConfigRead, ConfigReadView,
};
use crate::engine::global_config::{
    ClaudeRunnerConfig, ClaudeRunnerConfigView, TextRead, TextReadView,
};
use crate::engine::orchestrator::{
    assemble_orchestrator_prompt, default_orchestrator_template, default_template,
    law_valid_config_defines_phases, phase_table, DEFAULT_ORCHESTRATOR_KICKOFF,
};
use crate::engine::pick::as_str_opt;
use crate::engine::project::{sha256, sha256_hex, Project, ProjectView};
use crate::engine::runner::{
    is_lease_expired, lease_expired, opened_runners, Runner, RunnerRegistry, RunnerRegistryView,
    RunnerStore, RunnerStoreError, RunnerStoreErrorView, RunnerStoreView, RunnerView, RunnersRead,
    RunnersReadView,
};
use crate::json_doc::json_line;
use crate::string_map::{lemma_put, lemma_without, lookup, put, sorted};
use crate::text::{
    blank, decimal, decimal_str, first_where, from_chars, is_blank, is_first, join_path,
    lemma_first_is, lemma_first_none, path_join, str_eq, to_chars, trim, trim_end, trim_str,
};
use crate::time::{rfc3339, rfc3339_text, Instant};

verus! {

/// How often the screen is looked at for a prompt.
pub const TUI_READY_MAX_ATTEMPTS: usize = 60;

/// How often it is looked whether a text was submitted.
pub const KICKOFF_SUBMIT_MAX_ATTEMPTS: usize = 3;

/// How often it is looked whether a runner said that it is ready.
pub const HOOK_READY_MAX_ATTEMPTS: usize = 60;

/// The seconds without a sign of life after which a runner counts as lost.
pub const HEARTBEAT_STALENESS_SECS: u32 = 600;

/// What is noted where a runner did not say that it is ready.
pub const FALLBACK_NOTE: &'static str =
    "primary hook-based readiness path did not signal in time; falling back to tmux capture-pane readiness\n";

/// Why a command about runners failed.
#[derive(Debug, PartialEq, Eq)]
pub enum RunnerCommandError {
    UnregisteredLiveSession,
    NoRunnerRegistered,
    SessionNotAlive,
    RunnerNotReady,
    KickoffNotSubmitted,
    LogFileNotFound { path: String },
    TmuxFailed { action: String, message: String },
    TmuxIo { action: String, message: String },
    Read { path: String, message: String },
    Write { path: String, message: String },
    SettingsJson { path: String, message: String },
    Config(ConfigError),
    RunnerStore(RunnerStoreError),
}

/// The contents of a `RunnerCommandError`.
#[verifier::ext_equal]
pub enum RunnerCommandErrorView {
    UnregisteredLiveSession,
    NoRunnerRegistered,
    SessionNotAlive,
    RunnerNotReady,
    KickoffNotSubmitted,
    LogFileNotFound { path: Seq<char> },
    TmuxFailed { action: Seq<char>, message: Seq<char> },
    TmuxIo { action: Seq<char>, message: Seq<char> },
    Read { path: Seq<char>, message: Seq<char> },
    Write { path: Seq<char>, message: Seq<char> },
    SettingsJson { path: Seq<char>, message: Seq<char> },
    Config(ConfigErrorView),
    RunnerStore(RunnerStoreErrorView),
}

impl View for RunnerCommandError {
    type V = RunnerCommandErrorView;

    open spec fn view(&self) -> RunnerCommandErrorView {
        match self {
            RunnerCommandError::UnregisteredLiveSession => RunnerCommandErrorView::UnregisteredLiveSession,
            RunnerCommandError::NoRunnerRegistered => RunnerCommandErrorView::NoRunnerRegistered,
            RunnerCommandError::SessionNotAlive => RunnerCommandErrorView::SessionNotAlive,
            RunnerCommandError::RunnerNotReady => RunnerCommandErrorView::RunnerNotReady,
            RunnerCommandError::KickoffNotSubmitted => RunnerCommandErrorView::KickoffNotSubmitted,
            RunnerCommandError::LogFileNotFound { path } => RunnerCommandErrorView::LogFileNotFound { path: path@ },
            RunnerCommandError::TmuxFailed { action, message } => RunnerCommandErrorView::TmuxFailed { action: action@, message: message@ },
            RunnerCommandError::TmuxIo { action, message } => RunnerCommandErrorView::TmuxIo { action: action@, message: message@ },
            RunnerCommandError::Read { path, message } => RunnerCommandErrorView::Read { path: path@, message: message@ },
            RunnerCommandError::Write { path, message } => RunnerCommandErrorView::Write { path: path@, message: message@ },
            RunnerCommandError::SettingsJson { path, message } => RunnerCommandErrorView::SettingsJson { path: path@, message: message@ },
            RunnerCommandError::Config(inner) => RunnerCommandErrorView::Config(inner@),
            RunnerCommandError::RunnerStore(inner) => RunnerCommandErrorView::RunnerStore(inner@),
        }
    }
}

impl DeepView for RunnerCommandError {
    type V = RunnerCommandErrorView;

    open spec fn deep_view(&self) -> RunnerCommandErrorView {
        self@
    }
}

impl Duplicate for RunnerCommandError {
    fn duplicate(&self) -> (r: Self) {
        match self {
            RunnerCommandError::UnregisteredLiveSession => RunnerCommandError::UnregisteredLiveSession,
            RunnerCommandError::NoRunnerRegistered => RunnerCommandError::NoRunnerRegistered,
            RunnerCommandError::SessionNotAlive => RunnerCommandError::SessionNotAlive,
            RunnerCommandError::RunnerNotReady => RunnerCommandError::RunnerNotReady,
            RunnerCommandError::KickoffNotSubmitted => RunnerCommandError::KickoffNotSubmitted,
            RunnerCommandError::LogFileNotFound { path } => RunnerCommandError::LogFileNotFound { path: path.duplicate() },
            RunnerCommandError::TmuxFailed { action, message } => RunnerCommandError::TmuxFailed { action: action.duplicate(), message: message.duplicate() },
            RunnerCommandError::TmuxIo { action, message } => RunnerCommandError::TmuxIo { action: action.duplicate(), message: message.duplicate() },
            RunnerCommandError::Read { path, message } => RunnerCommandError::Read { path: path.duplicate(), message: message.duplicate() },
            RunnerCommandError::Write { path, message } => RunnerCommandError::Write { path: path.duplicate(), message: message.duplicate() },
            RunnerCommandError::SettingsJson { path, message } => RunnerCommandError::SettingsJson { path: path.duplicate(), message: message.duplicate() },
            RunnerCommandError::Config(inner) => RunnerCommandError::Config(inner.duplicate()),
            RunnerCommandError::RunnerStore(inner) => RunnerCommandError::RunnerStore(inner.duplicate()),
        }
    }
}

impl Clone for RunnerCommandError {
    fn clone(&self) -> (r: Self)
        ensures
            r@ == self@,
    {
        self.duplicate()
    }
}

impl RunnerCommandErrorView {
    /// The text shown for the error.
    pub open spec fn message(self) -> Seq<char> {
        match self {
            RunnerCommandErrorView::UnregisteredLiveSession => "runner already exists without a registry entry"@,
            RunnerCommandErrorView::NoRunnerRegistered => "no runner is registered"@,
            RunnerCommandErrorView::SessionNotAlive => "runner session is not alive"@,
            RunnerCommandErrorView::RunnerNotReady => "runner session did not become ready for kickoff"@,
            RunnerCommandErrorView::KickoffNotSubmitted => "runner kickoff was not submitted"@,
            RunnerCommandErrorView::LogFileNotFound { path } => "runner log file not found: "@ + path,
            RunnerCommandErrorView::TmuxFailed { action, message } => "tmux "@ + action + " failed: "@ + message,
            RunnerCommandErrorView::TmuxIo { action, .. } => "failed to run tmux "@ + action,
            RunnerCommandErrorView::Read { path, .. } => "failed to read "@ + path,
            RunnerCommandErrorView::Write { path, .. } => "failed to write "@ + path,
            RunnerCommandErrorView::SettingsJson { path, .. } => "failed to parse "@ + path + " as JSON"@,
            RunnerCommandErrorView::Config(inner) => inner.message(),
            RunnerCommandErrorView::RunnerStore(inner) => inner.message(),
        }
    }
}

impl RunnerCommandError {
    /// The text shown for the error.
    pub fn message(&self) -> (r: String)
        ensures
            r@ == self@.message(),
    {
        match self {
            RunnerCommandError::UnregisteredLiveSession => "runner already exists without a registry entry".to_owned(),
            RunnerCommandError::NoRunnerRegistered => "no runner is registered".to_owned(),
            RunnerCommandError::SessionNotAlive => "runner session is not alive".to_owned(),
            RunnerCommandError::RunnerNotReady => "runner session did not become ready for kickoff".to_owned(),
            RunnerCommandError::KickoffNotSubmitted => "runner kickoff was not submitted".to_owned(),
            RunnerCommandError::LogFileNotFound { path } => {
                let mut out = "runner log file not found: ".to_owned();
                out.push_str(path.as_str());
                out
            },
            RunnerCommandError::TmuxFailed { action, message } => {
                let mut out = "tmux ".to_owned();
                out.push_str(action.as_str());
                out.push_str(" failed: ");
                out.push_str(message.as_str());
                out
            },
            RunnerCommandError::TmuxIo { action, .. } => {
                let mut out = "failed to run tmux ".to_owned();
                out.push_str(action.as_str());
                out
            },
            RunnerCommandError::Read { path, .. } => {
                let mut out = "failed to read ".to_owned();
                out.push_str(path.as_str());
                out
            },
            RunnerCommandError::Write { path, .. } => {
                let mut out = "failed to write ".to_owned();
                out.push_str(path.as_str());
                out
            },
            RunnerCommandError::SettingsJson { path, .. } => {
                let mut out = "failed to parse ".to_owned();
                out.push_str(path.as_str());
                out.push_str(" as JSON");
                out
            },
            RunnerCommandError::Config(inner) => inner.message(),
            RunnerCommandError::RunnerStore(inner) => inner.message(),
        }
    }
}


/// A runner that is at work.
#[derive(Debug, PartialEq, Eq)]
pub struct RunnerStartOutput {
    pub runner_id: String,
    pub session_name: String,
    pub already_running: bool,
}

/// The contents of a `RunnerStartOutput`.
#[verifier::ext_equal]
pub struct RunnerStartOutputView {
    pub runner_id: Seq<char>,
    pub session_name: Seq<char>,
    pub already_running: bool,
}

impl View for RunnerStartOutput {
    type V = RunnerStartOutputView;

    open spec fn view(&self) -> RunnerStartOutputView {
        RunnerStartOutputView {
            runner_id: self.runner_id@,
            session_name: self.session_name@,
            already_running: self.already_running,
        }
    }
}

impl DeepView for RunnerStartOutput {
    type V = RunnerStartOutputView;

    open spec fn deep_view(&self) -> RunnerStartOutputView {
        self@
    }
}

impl Duplicate for RunnerStartOutput {
    fn duplicate(&self) -> (r: Self) {
        RunnerStartOutput {
            runner_id: self.runner_id.duplicate(),
            session_name: self.session_name.duplicate(),
            already_running: self.already_running,
        }
    }
}

impl Clone for RunnerStartOutput {
    fn clone(&self) -> (r: Self)
        ensures
            r@ == self@,
    {
        self.duplicate()
    }
}


/// What is known about the runner of a project.
#[derive(Debug, PartialEq, Eq)]
pub struct RunnerStatusOutput {
    pub runner_id: Option<String>,
    pub runner_type: Option<String>,
    pub current_task: Option<String>,
    pub liveness: String,
    pub heartbeat_age: Option<String>,
}

/// The contents of a `RunnerStatusOutput`.
#[verifier::ext_equal]
pub struct RunnerStatusOutputView {
    pub runner_id: Option<Seq<char>>,
    pub runner_type: Option<Seq<char>>,
    pub current_task: Option<Seq<char>>,
    pub liveness: Seq<char>,
    pub heartbeat_age: Option<Seq<char>>,
}

impl View for RunnerStatusOutput {
    type V = RunnerStatusOutputView;

    open spec fn view(&self) -> RunnerStatusOutputView {
        RunnerStatusOutputView {
            runner_id: self.runner_id.deep_view(),
            runner_type: self.runner_type.deep_view(),
            current_task: self.current_task.deep_view(),
            liveness: self.liveness@,
            heartbeat_age: self.heartbeat_age.deep_view(),
        }
    }
}

impl DeepView for RunnerStatusOutput {
    type V = RunnerStatusOutputView;

    open spec fn deep_view(&self) -> RunnerStatusOutputView {
        self@
    }
}

impl Duplicate for RunnerStatusOutput {
    fn duplicate(&self) -> (r: Self) {
        RunnerStatusOutput {
            runner_id: self.runner_id.duplicate(),
            runner_type: self.runner_type.duplicate(),
            current_task: self.current_task.duplicate(),
            liveness: self.liveness.duplicate(),
            heartbeat_age: self.heartbeat_age.duplicate(),
        }
    }
}

impl Clone for RunnerStatusOutput {
    fn clone(&self) -> (r: Self)
        ensures
            r@ == self@,
    {
        self.duplicate()
    }
}


/// What a runner can say about itself.
#[derive(Debug, Clone, Copy, PartialEq, Eq, Structural)]
pub enum RunnerEventKind {
    Ready,
    Idle,
    Heartbeat,
}


impl DeepView for RunnerEventKind {
    type V = RunnerEventKind;

    open spec fn deep_view(&self) -> RunnerEventKind {
        *self
    }
}

/// What was found in the pane of a session.
#[derive(Debug, PartialEq, Eq)]
pub enum PaneSeen {
    /// It could not be looked at.
    Failed { error: RunnerCommandError },
    /// Its process is gone.
    Dead,
    /// It shows no prompt of the agent process.
    Shell,
    /// It shows a prompt of the agent process.
    Agent,
}

/// The contents of a `PaneSeen`.
#[verifier::ext_equal]
pub enum PaneSeenView {
    Failed { error: RunnerCommandErrorView },
    Dead,
    Shell,
    Agent,
}

impl View for PaneSeen {
    type V = PaneSeenView;

    open spec fn view(&self) -> PaneSeenView {
        match self {
            PaneSeen::Failed { error } => PaneSeenView::Failed { error: error@ },
            PaneSeen::Dead => PaneSeenView::Dead,
            PaneSeen::Shell => PaneSeenView::Shell,
            PaneSeen::Agent => PaneSeenView::Agent,
        }
    }
}

impl DeepView for PaneSeen {
    type V = PaneSeenView;

    open spec fn deep_view(&self) -> PaneSeenView {
        self@
    }
}

impl Duplicate for PaneSeen {
    fn duplicate(&self) -> (r: Self) {
        match self {
            PaneSeen::Failed { error } => PaneSeen::Failed { error: error.duplicate() },
            PaneSeen::Dead => PaneSeen::Dead,
            PaneSeen::Shell => PaneSeen::Shell,
            PaneSeen::Agent => PaneSeen::Agent,
        }
    }
}

impl Clone for PaneSeen {
    fn clone(&self) -> (r: Self)
        ensures
            r@ == self@,
    {
        self.duplicate()
    }
}


/// What was found where the session of a project may be.
#[derive(Debug, PartialEq, Eq)]
pub enum SessionSeen {
    /// It could not be looked for.
    Failed { error: RunnerCommandError },
    /// There is none.
    Absent,
    /// There is one. The pane matters only where a runner is registered for it.
    Present { pane: PaneSeen },
}

/// The contents of a `SessionSeen`.
#[verifier::ext_equal]
pub enum SessionSeenView {
    Failed { error: RunnerCommandErrorView },
    Absent,
    Present { pane: PaneSeenView },
}

impl View for SessionSeen {
    type V = SessionSeenView;

    open spec fn view(&self) -> SessionSeenView {
        match self {
            SessionSeen::Failed { error } => SessionSeenView::Failed { error: error@ },
            SessionSeen::Absent => SessionSeenView::Absent,
            SessionSeen::Present { pane } => SessionSeenView::Present { pane: pane@ },
        }
    }
}

impl DeepView for SessionSeen {
    type V = SessionSeenView;

    open spec fn deep_view(&self) -> SessionSeenView {
        self@
    }
}

impl Duplicate for SessionSeen {
    fn duplicate(&self) -> (r: Self) {
        match self {
            SessionSeen::Failed { error } => SessionSeen::Failed { error: error.duplicate() },
            SessionSeen::Absent => SessionSeen::Absent,
            SessionSeen::Present { pane } => SessionSeen::Present { pane: pane.duplicate() },
        }
    }
}

impl Clone for SessionSeen {
    fn clone(&self) -> (r: Self)
        ensures
            r@ == self@,
    {
        self.duplicate()
    }
}


/// What is to be done, in turn; the first failure ends it.
#[derive(Debug, PartialEq, Eq)]
pub enum RunnerAction {
    WriteFile { path: String, contents: String },
    KillSession { session: String },
    KillProcessGroup { pgid: i32 },
    NewSession { session: String, command: String },
    PipePane { session: String, log_path: String },
    SaveRunners { registry: RunnerRegistry },
}

/// The contents of a `RunnerAction`.
#[verifier::ext_equal]
pub enum RunnerActionView {
    WriteFile { path: Seq<char>, contents: Seq<char> },
    KillSession { session: Seq<char> },
    KillProcessGroup { pgid: i32 },
    NewSession { session: Seq<char>, command: Seq<char> },
    PipePane { session: Seq<char>, log_path: Seq<char> },
    SaveRunners { registry: RunnerRegistryView },
}

impl View for RunnerAction {
    type V = RunnerActionView;

    open spec fn view(&self) -> RunnerActionView {
        match self {
            RunnerAction::WriteFile { path, contents } => RunnerActionView::WriteFile { path: path@, contents: contents@ },
            RunnerAction::KillSession { session } => RunnerActionView::KillSession { session: session@ },
            RunnerAction::KillProcessGroup { pgid } => RunnerActionView::KillProcessGroup { pgid: *pgid },
            RunnerAction::NewSession { session, command } => RunnerActionView::NewSession { session: session@, command: command@ },
            RunnerAction::PipePane { session, log_path } => RunnerActionView::PipePane { session: session@, log_path: log_path@ },
            RunnerAction::SaveRunners { registry } => RunnerActionView::SaveRunners { registry: registry@ },
        }
    }
}

impl DeepView for RunnerAction {
    type V = RunnerActionView;

    open spec fn deep_view(&self) -> RunnerActionView {
        self@
    }
}

impl Duplicate for RunnerAction {
    fn duplicate(&self) -> (r: Self) {
        match self {
            RunnerAction::WriteFile { path, contents } => RunnerAction::WriteFile { path: path.duplicate(), contents: contents.duplicate() },
            RunnerAction::KillSession { session } => RunnerAction::KillSession { session: session.duplicate() },
            RunnerAction::KillProcessGroup { pgid } => RunnerAction::KillProcessGroup { pgid: *pgid },
            RunnerAction::NewSession { session, command } => RunnerAction::NewSession { session: session.duplicate(), command: command.duplicate() },
            RunnerAction::PipePane { session, log_path } => RunnerAction::PipePane { session: session.duplicate(), log_path: log_path.duplicate() },
            RunnerAction::SaveRunners { registry } => RunnerAction::SaveRunners { registry: registry.duplicate() },
        }
    }
}

impl Clone for RunnerAction {
    fn clone(&self) -> (r: Self)
        ensures
            r@ == self@,
    {
        self.duplicate()
    }
}


/// What follows once a plan is carried out.
#[derive(Debug, PartialEq, Eq)]
pub enum StartNext {
    /// A new process is started.
    ColdStart,
    /// The process is told to go on.
    Kick { output: RunnerStartOutput },
    /// Nothing.
    Finished { output: RunnerStartOutput },
}

/// The contents of a `StartNext`.
#[verifier::ext_equal]
pub enum StartNextView {
    ColdStart,
    Kick { output: RunnerStartOutputView },
    Finished { output: RunnerStartOutputView },
}

impl View for StartNext {
    type V = StartNextView;

    open spec fn view(&self) -> StartNextView {
        match self {
            StartNext::ColdStart => StartNextView::ColdStart,
            StartNext::Kick { output } => StartNextView::Kick { output: output@ },
            StartNext::Finished { output } => StartNextView::Finished { output: output@ },
        }
    }
}

impl DeepView for StartNext {
    type V = StartNextView;

    open spec fn deep_view(&self) -> StartNextView {
        self@
    }
}

impl Duplicate for StartNext {
    fn duplicate(&self) -> (r: Self) {
        match self {
            StartNext::ColdStart => StartNext::ColdStart,
            StartNext::Kick { output } => StartNext::Kick { output: output.duplicate() },
            StartNext::Finished { output } => StartNext::Finished { output: output.duplicate() },
        }
    }
}

impl Clone for StartNext {
    fn clone(&self) -> (r: Self)
        ensures
            r@ == self@,
    {
        self.duplicate()
    }
}


/// What is to be done so that a runner is at work.
#[derive(Debug, PartialEq, Eq)]
pub struct StartPlan {
    pub actions: Vec<RunnerAction>,
    pub next: StartNext,
}

/// The contents of a `StartPlan`.
#[verifier::ext_equal]
pub struct StartPlanView {
    pub actions: Seq<RunnerActionView>,
    pub next: StartNextView,
}

impl View for StartPlan {
    type V = StartPlanView;

    open spec fn view(&self) -> StartPlanView {
        StartPlanView {
            actions: self.actions.deep_view(),
            next: self.next@,
        }
    }
}

impl DeepView for StartPlan {
    type V = StartPlanView;

    open spec fn deep_view(&self) -> StartPlanView {
        self@
    }
}

impl Duplicate for StartPlan {
    fn duplicate(&self) -> (r: Self) {
        StartPlan {
            actions: self.actions.duplicate(),
            next: self.next.duplicate(),
        }
    }
}

impl Clone for StartPlan {
    fn clone(&self) -> (r: Self)
        ensures
            r@ == self@,
    {
        self.duplicate()
    }
}


/// What is to be done to start a new process.
#[derive(Debug, PartialEq, Eq)]
pub struct ColdStart {
    pub actions: Vec<RunnerAction>,
    pub output: RunnerStartOutput,
}

/// The contents of a `ColdStart`.
#[verifier::ext_equal]
pub struct ColdStartView {
    pub actions: Seq<RunnerActionView>,
    pub output: RunnerStartOutputView,
}

impl View for ColdStart {
    type V = ColdStartView;

    open spec fn view(&self) -> ColdStartView {
        ColdStartView {
            actions: self.actions.deep_view(),
            output: self.output@,
        }
    }
}

impl DeepView for ColdStart {
    type V = ColdStartView;

    open spec fn deep_view(&self) -> ColdStartView {
        self@
    }
}

impl Duplicate for ColdStart {
    fn duplicate(&self) -> (r: Self) {
        ColdStart {
            actions: self.actions.duplicate(),
            output: self.output.duplicate(),
        }
    }
}

impl Clone for ColdStart {
    fn clone(&self) -> (r: Self)
        ensures
            r@ == self@,
    {
        self.duplicate()
    }
}


/// What was found on the way to a new process.
#[derive(Debug, PartialEq, Eq)]
pub struct ColdStartFiles {
    pub config: ConfigRead,
    /// The template that the settings name.
    pub template: TextRead,
    /// The settings of the agent process that the settings name.
    pub agent_settings: TextRead,
}

/// The contents of a `ColdStartFiles`.
#[verifier::ext_equal]
pub struct ColdStartFilesView {
    pub config: ConfigReadView,
    pub template: TextReadView,
    pub agent_settings: TextReadView,
}

impl View for ColdStartFiles {
    type V = ColdStartFilesView;

    open spec fn view(&self) -> ColdStartFilesView {
        ColdStartFilesView {
            config: self.config@,
            template: self.template@,
            agent_settings: self.agent_settings@,
        }
    }
}

impl DeepView for ColdStartFiles {
    type V = ColdStartFilesView;

    open spec fn deep_view(&self) -> ColdStartFilesView {
        self@
    }
}

impl Duplicate for ColdStartFiles {
    fn duplicate(&self) -> (r: Self) {
        ColdStartFiles {
            config: self.config.duplicate(),
            template: self.template.duplicate(),
            agent_settings: self.agent_settings.duplicate(),
        }
    }
}

impl Clone for ColdStartFiles {
    fn clone(&self) -> (r: Self)
        ensures
            r@ == self@,
    {
        self.duplicate()
    }
}


/// What follows from looking whether a runner is ready.
#[derive(Debug, PartialEq, Eq)]
pub enum WaitStep {
    Ready,
    /// Look again after a while.
    Again,
    /// Note it, and look at the screen instead.
    LookAtScreen { note: String },
}

/// The contents of a `WaitStep`.
#[verifier::ext_equal]
pub enum WaitStepView {
    Ready,
    Again,
    LookAtScreen { note: Seq<char> },
}

impl View for WaitStep {
    type V = WaitStepView;

    open spec fn view(&self) -> WaitStepView {
        match self {
            WaitStep::Ready => WaitStepView::Ready,
            WaitStep::Again => WaitStepView::Again,
            WaitStep::LookAtScreen { note } => WaitStepView::LookAtScreen { note: note@ },
        }
    }
}

impl DeepView for WaitStep {
    type V = WaitStepView;

    open spec fn deep_view(&self) -> WaitStepView {
        self@
    }
}

impl Duplicate for WaitStep {
    fn duplicate(&self) -> (r: Self) {
        match self {
            WaitStep::Ready => WaitStep::Ready,
            WaitStep::Again => WaitStep::Again,
            WaitStep::LookAtScreen { note } => WaitStep::LookAtScreen { note: note.duplicate() },
        }
    }
}

impl Clone for WaitStep {
    fn clone(&self) -> (r: Self)
        ensures
            r@ == self@,
    {
        self.duplicate()
    }
}


/// What follows from looking whether a text was submitted.
#[derive(Debug, PartialEq, Eq)]
pub enum KickStep {
    Submitted,
    /// Press the key again after a while.
    PressAgain,
}

/// The contents of a `KickStep`.
#[verifier::ext_equal]
pub enum KickStepView {
    Submitted,
    PressAgain,
}

impl View for KickStep {
    type V = KickStepView;

    open spec fn view(&self) -> KickStepView {
        match self {
            KickStep::Submitted => KickStepView::Submitted,
            KickStep::PressAgain => KickStepView::PressAgain,
        }
    }
}

impl DeepView for KickStep {
    type V = KickStepView;

    open spec fn deep_view(&self) -> KickStepView {
        self@
    }
}

impl Duplicate for KickStep {
    fn duplicate(&self) -> (r: Self) {
        match self {
            KickStep::Submitted => KickStep::Submitted,
            KickStep::PressAgain => KickStep::PressAgain,
        }
    }
}

impl Clone for KickStep {
    fn clone(&self) -> (r: Self)
        ensures
            r@ == self@,
    {
        self.duplicate()
    }
}


impl RunnerEventKind {
    /// The event with a name.
    pub open spec fn named(name: Seq<char>) -> Option<RunnerEventKind> {
        if name == "ready"@ {
            Some(RunnerEventKind::Ready)
        } else if name == "idle"@ {
            Some(RunnerEventKind::Idle)
        } else if name == "heartbeat"@ {
            Some(RunnerEventKind::Heartbeat)
        } else {
            None
        }
    }

    /// The event with a name.
    pub fn parse(value: &str) -> (r: Option<RunnerEventKind>)
        ensures
            r == RunnerEventKind::named(value@),
    {
        if str_eq(value, "ready") {
            Some(RunnerEventKind::Ready)
        } else if str_eq(value, "idle") {
            Some(RunnerEventKind::Idle)
        } else if str_eq(value, "heartbeat") {
            Some(RunnerEventKind::Heartbeat)
        } else {
            None
        }
    }
}

// ---------------------------------------------------------------------------------------------
// Names and places
// ---------------------------------------------------------------------------------------------

/// The session of a project.
pub open spec fn session_of(project: ProjectView) -> Seq<char> {
    "agira-"@ + project.slug
}

/// The session of a project.
pub fn session_name(project: &Project) -> (r: String)
    ensures
        r@ == session_of(project@),
{
    let mut out = "agira-".to_owned();
    out.push_str(project.slug.as_str());
    out
}

/// The directory of a project's runners.
pub open spec fn runner_home(project: ProjectView) -> Seq<char> {
    path_join(project.state_dir, "runner"@)
}

/// The directory of a project's runners.
pub fn runner_dir(project: &Project) -> (r: String)
    ensures
        r@ == runner_home(project@),
{
    join_path(project.state_dir.as_str(), "runner")
}

/// The log of a project's runners.
pub open spec fn runner_log(project: ProjectView) -> Seq<char> {
    path_join(runner_home(project), "runner.log"@)
}

/// The log of a project's runners.
pub fn runner_log_path(project: &Project) -> (r: String)
    ensures
        r@ == runner_log(project@),
{
    join_path(runner_dir(project).as_str(), "runner.log")
}

/// The id of a new runner, made of the project, a session, the time and the process that starts it.
pub open spec fn new_runner_id(project: ProjectView, session: Seq<char>, now: Instant, pid: u32) -> Seq<
    char,
> {
    "runner-"@ + sha256_hex(
        project.slug + session + rfc3339_text(now) + decimal(pid as nat),
    ).take(12)
}

/// The id of a new runner.
pub fn generate_runner_id(project: &Project, session_name: &str, now: Instant, pid: u32) -> (r:
    String)
    requires
        now.on_calendar(),
    ensures
        r@ == new_runner_id(project@, session_name@, now, pid),
        r@.len() == 19,
{
    let mut source = project.slug.clone();
    source.push_str(session_name);
    source.push_str(now.text().as_str());
    source.push_str(decimal_str(pid as u64).as_str());
    let digest = sha256(source.as_str());
    let x: Vec<char> = to_chars(digest.as_str());
    let part = from_chars(&x, 0, 12);
    assert(part@ =~= digest@.take(12));
    let mut out = "runner-".to_owned();
    proof {
        reveal_strlit("runner-");
        assert("runner-"@.len() == 7);
    }
    out.push_str(part.as_str());
    out
}

/// The runner that works in a session.
pub open spec fn works_in(session: Seq<char>) -> spec_fn((Seq<char>, RunnerView)) -> bool {
    |e: (Seq<char>, RunnerView)| e.1.tmux_session == session
}

/// The first runner, by the order of ids, that works in a session.
pub open spec fn runner_in(runners: Seq<(Seq<char>, RunnerView)>, session: Seq<char>) -> Option<
    RunnerView,
> {
    match first_where(runners, works_in(session)) {
        Some(i) => Some(runners[i].1),
        None => None,
    }
}

/// The first runner, by the order of ids, that works in a session.
pub fn matching_runner<'a>(registry: &'a RunnerRegistry, session_name: &str) -> (r: Option<&'a Runner>)
    ensures
        r.deep_view() == runner_in(registry@.runners, session_name@),
{
    let ghost all = registry@.runners;
    let mut i: usize = 0;
    while i < registry.runners.len()
        invariant
            i <= all.len(),
            all == registry@.runners,
            forall|j: int| 0 <= j < i ==> !works_in(session_name@)(#[trigger] all[j]),
        decreases all.len() - i,
    {
        let runner = registry.runners.value_at(i);
        if str_eq(runner.tmux_session.as_str(), session_name) {
            proof {
                assert(is_first(all, works_in(session_name@), i as int));
                lemma_first_is(all, works_in(session_name@), i as int);
            }
            return Some(runner);
        }
        i = i + 1;
    }
    proof {
        lemma_first_none(all, works_in(session_name@));
    }
    None
}

// ---------------------------------------------------------------------------------------------
// Signs of life
// ---------------------------------------------------------------------------------------------

/// A sign of life that came too long ago. One that is missing or cannot be read does not count, so
/// that no runner is taken for lost that may be at work.
pub open spec fn heartbeat_stale(heartbeat: Option<Seq<char>>, now: Instant) -> bool {
    match heartbeat {
        None => false,
        Some(text) => match rfc3339(text) {
            None => false,
            Some(at) => now.nanos_since(at) > 600 * 1_000_000_000,
        },
    }
}

/// Whether a sign of life came too long ago.
pub fn is_heartbeat_stale(last_heartbeat: Option<&str>, now: Instant) -> (r: bool)
    ensures
        r == heartbeat_stale(last_heartbeat.deep_view(), now),
{
    match last_heartbeat {
        None => false,
        Some(text) => match Instant::parse(text) {
            None => false,
            Some(at) => now.outlasts(&at, HEARTBEAT_STALENESS_SECS),
        },
    }
}

/// How long something is past, in the largest unit that fits.
pub open spec fn age(seconds: int) -> Seq<char> {
    let n: nat = if seconds < 0 {
        0
    } else {
        seconds as nat
    };
    if n < 60 {
        decimal(n) + "s ago"@
    } else if n < 3_600 {
        decimal(n / 60) + "m ago"@
    } else if n < 86_400 {
        decimal(n / 3_600) + "h ago"@
    } else {
        decimal(n / 86_400) + "d ago"@
    }
}

/// How long a sign of life is past.
pub open spec fn heartbeat_age(heartbeat: Option<Seq<char>>, now: Instant) -> Seq<char> {
    match heartbeat {
        None => "none"@,
        Some(text) => match rfc3339(text) {
            None => "unknown"@,
            Some(at) => age(now.seconds_since(at)),
        },
    }
}

fn write_age(seconds: i128) -> (r: String)
    requires
        seconds <= u64::MAX,
    ensures
        r@ == age(seconds as int),
{
    let n: u64 = if seconds < 0 {
        0
    } else {
        seconds as u64
    };
    let mut out = if n < 60 {
        decimal_str(n)
    } else if n < 3_600 {
        decimal_str(n / 60)
    } else if n < 86_400 {
        decimal_str(n / 3_600)
    } else {
        decimal_str(n / 86_400)
    };
    if n < 60 {
        out.push_str("s ago");
    } else if n < 3_600 {
        out.push_str("m ago");
    } else if n < 86_400 {
        out.push_str("h ago");
    } else {
        out.push_str("d ago");
    }
    out
}

/// How long a sign of life is past.
pub fn format_heartbeat_age(last_heartbeat: Option<&str>, now: Instant) -> (r: String)
    requires
        now.on_calendar(),
    ensures
        r@ == heartbeat_age(last_heartbeat.deep_view(), now),
{
    match last_heartbeat {
        None => "none".to_owned(),
        Some(text) => match Instant::parse(text) {
            None => "unknown".to_owned(),
            Some(at) => write_age(now.elapsed_since(&at)),
        },
    }
}

/// A runner that holds a task it seems to have lost: its lease ran out or it gave no sign of life.
pub open spec fn lost_task(runner: RunnerView, now: Instant) -> bool {
    runner.current_task is Some && (lease_expired(runner.lease_expires_at, now) || heartbeat_stale(
        runner.last_heartbeat,
        now,
    ))
}

fn has_lost_task(runner: &Runner, now: Instant) -> (r: bool)
    ensures
        r == lost_task(runner@, now),
{
    runner.current_task.is_some() && (is_lease_expired(
        as_str_opt(&runner.lease_expires_at),
        now,
    ) || is_heartbeat_stale(as_str_opt(&runner.last_heartbeat), now))
}

/// A runner that said it is ready: it has no task and gave a sign of life or ran out of work.
pub open spec fn said_ready(runner: RunnerView) -> bool {
    runner.current_task is None && (runner.idle_since is Some || runner.last_heartbeat is Some)
}

/// Whether a runner said that it is ready.
pub fn runner_ready_from_hook_state(runner: &Runner) -> (r: bool)
    ensures
        r == said_ready(runner@),
{
    runner.current_task.is_none() && (runner.idle_since.is_some() || (
    runner.last_heartbeat.is_some() && runner.idle_since.is_none()))
}

// ---------------------------------------------------------------------------------------------
// Starting
// ---------------------------------------------------------------------------------------------

/// The runners of a project.
pub open spec fn project_runners(project: ProjectView, read: RunnersReadView) -> Result<
    RunnerStoreView,
    RunnerCommandErrorView,
> {
    match opened_runners(project.state_dir, read) {
        Ok(s) => Ok(s),
        Err(e) => Err(RunnerCommandErrorView::RunnerStore(e)),
    }
}

/// The runners of a project.
pub fn open_runners(project: &Project, read: RunnersRead) -> (r: Result<
    RunnerStore,
    RunnerCommandError,
>)
    ensures
        outcome(r) == project_runners(project@, read@),
{
    match RunnerStore::new(project.state_dir.as_str(), read) {
        Ok(s) => Ok(s),
        Err(e) => Err(RunnerCommandError::RunnerStore(e)),
    }
}

/// The runners are to be written.
pub open spec fn save_runners(s: RunnerStoreView) -> RunnerActionView {
    RunnerActionView::SaveRunners { registry: RunnerRegistryView { runners: s.runners } }
}

fn save_action(store: &RunnerStore) -> (r: RunnerAction)
    ensures
        r@ == save_runners(store@),
{
    RunnerAction::SaveRunners { registry: store.registry().duplicate() }
}

/// The processes that a runner left behind are ended.
pub open spec fn reaping(runner: RunnerView) -> Seq<RunnerActionView> {
    match runner.pgid {
        Some(pgid) => seq![RunnerActionView::KillProcessGroup { pgid }],
        None => Seq::empty(),
    }
}

/// What is done about a runner whose process is gone: its session is closed where there is one,
/// the processes it left behind are ended, and it is taken out.
pub open spec fn clearing(s: RunnerStoreView, session: Seq<char>, runner: RunnerView, live: bool) -> Result<
    (RunnerStoreView, StartPlanView),
    RunnerCommandErrorView,
> {
    match s.deregister(runner.id) {
        Err(e) => Err(RunnerCommandErrorView::RunnerStore(e)),
        Ok((after, _)) => {
            let closing = if live {
                seq![RunnerActionView::KillSession { session }]
            } else {
                Seq::empty()
            };
            Ok(
                (
                    after,
                    StartPlanView {
                        actions: (closing + reaping(runner)).push(save_runners(after)),
                        next: StartNextView::ColdStart,
                    },
                ),
            )
        },
    }
}

/// What is done about a runner whose process is there: a task it lost is taken from it, and it is
/// told to go on where it has none.
pub open spec fn keeping(s: RunnerStoreView, session: Seq<char>, runner: RunnerView, now: Instant) -> Result<
    (RunnerStoreView, StartPlanView),
    RunnerCommandErrorView,
> {
    let output = RunnerStartOutputView {
        runner_id: runner.id,
        session_name: session,
        already_running: true,
    };
    if lost_task(runner, now) {
        match s.change(runner.id, |x: RunnerView| x.released()) {
            Err(e) => Err(RunnerCommandErrorView::RunnerStore(e)),
            Ok((after, _)) => Ok(
                (
                    after,
                    StartPlanView {
                        actions: seq![save_runners(after)],
                        next: StartNextView::Kick { output },
                    },
                ),
            ),
        }
    } else {
        let fresh = match lookup(s.runners, runner.id) {
            Some(x) => x,
            None => runner,
        };
        Ok(
            (
                s,
                StartPlanView {
                    actions: Seq::empty(),
                    next: if fresh.current_task is None {
                        StartNextView::Kick { output }
                    } else {
                        StartNextView::Finished { output }
                    },
                },
            ),
        )
    }
}

/// What is done so that a runner is at work.
pub open spec fn starting(project: ProjectView, s: RunnerStoreView, seen: SessionSeenView, now: Instant) -> Result<
    (RunnerStoreView, StartPlanView),
    RunnerCommandErrorView,
> {
    let session = session_of(project);
    match seen {
        SessionSeenView::Failed { error } => Err(error),
        SessionSeenView::Absent => match runner_in(s.runners, session) {
            Some(runner) => clearing(s, session, runner, false),
            None => Ok(
                (s, StartPlanView { actions: Seq::empty(), next: StartNextView::ColdStart }),
            ),
        },
        SessionSeenView::Present { pane } => match runner_in(s.runners, session) {
            None => Err(RunnerCommandErrorView::UnregisteredLiveSession),
            Some(runner) => match pane {
                PaneSeenView::Failed { error } => Err(error),
                PaneSeenView::Dead => clearing(s, session, runner, true),
                PaneSeenView::Shell => clearing(s, session, runner, true),
                PaneSeenView::Agent => keeping(s, session, runner, now),
            },
        },
    }
}

/// What a change of the runners came to: on a refusal they stay as they were.
pub open spec fn planned<T>(
    before: RunnerStoreView,
    after: RunnerStoreView,
    returned: Result<T, RunnerCommandErrorView>,
    step: Result<(RunnerStoreView, T), RunnerCommandErrorView>,
) -> bool {
    match step {
        Ok((s, x)) => after == s && returned == Ok::<T, RunnerCommandErrorView>(x),
        Err(e) => after == before && returned == Err::<T, RunnerCommandErrorView>(e),
    }
}

fn push_action(actions: &mut Vec<RunnerAction>, action: RunnerAction)
    ensures
        final(actions).deep_view() == old(actions).deep_view().push(action@),
{
    let ghost before = actions.deep_view();
    actions.push(action);
    assert(actions.deep_view() =~= before.push(action@));
}

fn no_actions() -> (r: Vec<RunnerAction>)
    ensures
        r.deep_view() == Seq::<RunnerActionView>::empty(),
{
    let r: Vec<RunnerAction> = Vec::new();
    assert(r.deep_view() =~= Seq::<RunnerActionView>::empty());
    r
}

fn clear_runner(store: &mut RunnerStore, session: &str, runner: &Runner, live: bool) -> (r: Result<
    StartPlan,
    RunnerCommandError,
>)
    ensures
        planned(
            old(store)@,
            final(store)@,
            outcome(r),
            clearing(old(store)@, session@, runner@, live),
        ),
{
    match store.deregister(runner.id.as_str()) {
        Err(e) => Err(RunnerCommandError::RunnerStore(e)),
        Ok(_) => {
            let mut actions = no_actions();
            if live {
                push_action(&mut actions, RunnerAction::KillSession { session: session.to_owned() });
            }
            match runner.pgid {
                Some(pgid) => push_action(&mut actions, RunnerAction::KillProcessGroup { pgid }),
                None => {},
            }
            push_action(&mut actions, save_action(store));
            let ghost closing = if live {
                seq![RunnerActionView::KillSession { session: session@ }]
            } else {
                Seq::empty()
            };
            assert(actions.deep_view() =~= (closing + reaping(runner@)).push(
                save_runners(store@),
            ));
            Ok(StartPlan { actions, next: StartNext::ColdStart })
        },
    }
}

fn keep_runner(store: &mut RunnerStore, session: &str, runner: &Runner, now: Instant) -> (r: Result<
    StartPlan,
    RunnerCommandError,
>)
    ensures
        planned(
            old(store)@,
            final(store)@,
            outcome(r),
            keeping(old(store)@, session@, runner@, now),
        ),
{
    let output = RunnerStartOutput {
        runner_id: runner.id.clone(),
        session_name: session.to_owned(),
        already_running: true,
    };
    let mut actions = no_actions();
    if has_lost_task(runner, now) {
        match store.release_lease(runner.id.as_str()) {
            Err(e) => Err(RunnerCommandError::RunnerStore(e)),
            Ok(_) => {
                push_action(&mut actions, save_action(store));
                assert(actions.deep_view() =~= seq![save_runners(store@)]);
                Ok(StartPlan { actions, next: StartNext::Kick { output } })
            },
        }
    } else {
        let idle = match store.get_runner(runner.id.as_str()) {
            Some(x) => x.current_task.is_none(),
            None => runner.current_task.is_none(),
        };
        let next = if idle {
            StartNext::Kick { output }
        } else {
            StartNext::Finished { output }
        };
        Ok(StartPlan { actions, next })
    }
}

/// What is to be done so that a runner is at work.
pub fn start_runner(project: &Project, store: &mut RunnerStore, seen: &SessionSeen, now: Instant) -> (r:
    Result<StartPlan, RunnerCommandError>)
    ensures
        planned(
            old(store)@,
            final(store)@,
            outcome(r),
            starting(project@, old(store)@, seen@, now),
        ),
{
    let session = session_name(project);
    match seen {
        SessionSeen::Failed { error } => Err(error.duplicate()),
        SessionSeen::Absent => {
            let found: Option<Runner> = match matching_runner(store.registry(), session.as_str()) {
                Some(runner) => Some(runner.duplicate()),
                None => None,
            };
            match found {
                Some(runner) => clear_runner(store, session.as_str(), &runner, false),
                None => Ok(StartPlan { actions: no_actions(), next: StartNext::ColdStart }),
            }
        },
        SessionSeen::Present { pane } => {
            let found: Option<Runner> = match matching_runner(store.registry(), session.as_str()) {
                Some(runner) => Some(runner.duplicate()),
                None => None,
            };
            match found {
                None => Err(RunnerCommandError::UnregisteredLiveSession),
                Some(runner) => match pane {
                    PaneSeen::Failed { error } => Err(error.duplicate()),
                    PaneSeen::Dead => clear_runner(store, session.as_str(), &runner, true),
                    PaneSeen::Shell => clear_runner(store, session.as_str(), &runner, true),
                    PaneSeen::Agent => keep_runner(store, session.as_str(), &runner, now),
                },
            }
        },
    }
}

/// The template of the prompt: the one that the settings name, or the usual one where there is
/// none.
pub open spec fn template_of(
    program: Seq<char>,
    agent: Seq<char>,
    named: Option<Seq<char>>,
    read: TextReadView,
) -> Result<Seq<char>, RunnerCommandErrorView> {
    match named {
        None => Ok(default_template(program, agent)),
        Some(path) => match read {
            TextReadView::Contents { text } => Ok(text),
            TextReadView::Missing => Ok(default_template(program, agent)),
            TextReadView::Unreadable { message } => Err(
                RunnerCommandErrorView::Read { path, message },
            ),
        },
    }
}

fn choose_template(program: &str, agent: &str, named: &Option<String>, read: &TextRead) -> (r: Result<
    String,
    RunnerCommandError,
>)
    ensures
        outcome(r) == template_of(program@, agent@, named.deep_view(), read@),
{
    match named {
        None => Ok(default_orchestrator_template(program, agent)),
        Some(path) => match read {
            TextRead::Contents { text } => Ok(text.clone()),
            TextRead::Missing => Ok(default_orchestrator_template(program, agent)),
            TextRead::Unreadable { message } => Err(
                RunnerCommandError::Read { path: path.clone(), message: message.clone() },
            ),
        },
    }
}

/// Where the merged settings of the agent process are kept.
pub open spec fn overlay_path(dir: Seq<char>, program: Seq<char>) -> Seq<char> {
    path_join(dir, program + "-runner-settings.json"@)
}

/// What the agent process is told about its settings, and the file that is written for it: the
/// settings that let it tell what it does or, where the user has settings of their own, a file
/// with both.
pub open spec fn settings_argument(
    program: Seq<char>,
    config: ClaudeRunnerConfigView,
    hooks: Seq<char>,
    dir: Seq<char>,
    read: TextReadView,
) -> Result<(Seq<char>, Option<Seq<char>>), RunnerCommandErrorView> {
    if config.settings_path is None || config.settings_path->0.len() == 0 {
        Ok((hooks, None))
    } else {
        let path = config.settings_path->0;
        match read {
            TextReadView::Missing => Err(
                RunnerCommandErrorView::Read { path, message: "entity not found"@ },
            ),
            TextReadView::Unreadable { message } => Err(
                RunnerCommandErrorView::Read { path, message },
            ),
            TextReadView::Contents { text } => match merged_settings_text(text, hooks) {
                Err((own, message)) => Err(
                    RunnerCommandErrorView::SettingsJson {
                        path: if own {
                            path
                        } else {
                            "<agira runner hooks>"@
                        },
                        message,
                    },
                ),
                Ok(merged) => Ok((overlay_path(dir, program), Some(merged))),
            },
        }
    }
}

/// What the agent process is told about its settings, and the text of the file that is written for
/// it.
pub fn claude_runner_settings_argument(
    program: &str,
    config: &ClaudeRunnerConfig,
    hooks_settings: &str,
    runner_dir: &str,
    read: &TextRead,
) -> (r: Result<(String, Option<String>), RunnerCommandError>)
    ensures
        outcome(r) == settings_argument(program@, config@, hooks_settings@, runner_dir@, read@),
{
    let path: &String = match &config.settings_path {
        None => {
            return Ok((hooks_settings.to_owned(), None));
        },
        Some(p) => p,
    };
    if path.as_str().unicode_len() == 0 {
        return Ok((hooks_settings.to_owned(), None));
    }
    match read {
        TextRead::Missing => Err(
            RunnerCommandError::Read { path: path.clone(), message: "entity not found".to_owned() },
        ),
        TextRead::Unreadable { message } => Err(
            RunnerCommandError::Read { path: path.clone(), message: message.clone() },
        ),
        TextRead::Contents { text } => match merge_settings_text(text.as_str(), hooks_settings) {
            Err((own, message)) => Err(
                RunnerCommandError::SettingsJson {
                    path: if own {
                        path.clone()
                    } else {
                        "<agira runner hooks>".to_owned()
                    },
                    message,
                },
            ),
            Ok(merged) => {
                let mut name = program.to_owned();
                name.push_str("-runner-settings.json");
                Ok((join_path(runner_dir, name.as_str()), Some(merged)))
            },
        },
    }
}

/// The type of a new runner: the one that is asked for, or the usual one.
pub open spec fn type_of(program: Seq<char>, asked: Option<Seq<char>>) -> Seq<char> {
    if asked is Some && !blank(asked->0) {
        trim(asked->0)
    } else {
        program + "-tmux"@
    }
}

fn runner_type_of(program: &str, asked: Option<&str>) -> (r: String)
    ensures
        r@ == type_of(program@, asked.deep_view()),
{
    match asked {
        Some(t) => if !is_blank(t) {
            return trim_str(t).to_owned();
        },
        None => {},
    }
    let mut out = program.to_owned();
    out.push_str("-tmux");
    out
}

/// What is done to start a new process.
pub open spec fn cold_starting(
    project: ProjectView,
    program: Seq<char>,
    agent: Seq<char>,
    runner_type: Option<Seq<char>>,
    s: RunnerStoreView,
    files: ColdStartFilesView,
    now: Instant,
    pid: u32,
) -> Result<(RunnerStoreView, ColdStartView), RunnerCommandErrorView> {
    let session = session_of(project);
    let id = new_runner_id(project, session_of(project), now, pid);
    let settings = project.global_config.runner;
    match project_config(project, files.config) {
        Err(e) => Err(RunnerCommandErrorView::Config(e)),
        Ok(config) => match template_of(
            program,
            agent,
            settings.orchestrator_template_path,
            files.template,
        ) {
            Err(e) => Err(e),
            Ok(template) => match settings_argument(
                program,
                settings.claude,
                json_line(lifecycle_item()),
                runner_home(project),
                files.agent_settings,
            ) {
                Err(e) => Err(e),
                Ok((argument, overlay)) => {
                    let prompt = trim_end(template) + "\n"@ + phase_table(config);
                    let command = launch_line(
                        settings.claude,
                        id,
                        prompt,
                        Some(argument),
                        DEFAULT_ORCHESTRATOR_KICKOFF@,
                    );
                    let after = s.with(
                        id,
                        RunnerView::fresh(id, type_of(program, runner_type), session, now),
                    );
                    let writing = match overlay {
                        Some(contents) => seq![
                            RunnerActionView::WriteFile { path: argument, contents },
                        ],
                        None => Seq::empty(),
                    };
                    Ok(
                        (
                            after,
                            ColdStartView {
                                actions: writing + seq![
                                    RunnerActionView::NewSession { session, command },
                                    RunnerActionView::PipePane {
                                        session,
                                        log_path: runner_log(project),
                                    },
                                    save_runners(after),
                                ],
                                output: RunnerStartOutputView {
                                    runner_id: id,
                                    session_name: session,
                                    already_running: false,
                                },
                            },
                        ),
                    )
                },
            },
        },
    }
}

/// What is to be done to start a new process, in a directory of runners that is there. Once it is
/// done, the process group of the pane is recorded for the runner.
pub fn cold_start_runner(
    project: &Project,
    program: &str,
    agent: &str,
    runner_type: Option<&str>,
    store: &mut RunnerStore,
    files: &ColdStartFiles,
    now: Instant,
    pid: u32,
) -> (r: Result<ColdStart, RunnerCommandError>)
    requires
        now.on_calendar(),
    ensures
        planned(
            old(store)@,
            final(store)@,
            outcome(r),
            cold_starting(
                project@,
                program@,
                agent@,
                runner_type.deep_view(),
                old(store)@,
                files@,
                now,
                pid,
            ),
        ),
{
    let session = session_name(project);
    let id = generate_runner_id(project, session.as_str(), now, pid);
    let settings = &project.global_config.runner;
    let config = match load_config(project, &files.config) {
        Err(e) => {
            return Err(RunnerCommandError::Config(e));
        },
        Ok(c) => c,
    };
    let template = match choose_template(
        program,
        agent,
        &settings.orchestrator_template_path,
        &files.template,
    ) {
        Err(e) => {
            return Err(e);
        },
        Ok(t) => t,
    };
    proof {
        law_loaded_config_is_valid(
            config_path(project@),
            files@.config,
            project@.global_config.default_max_retries,
        );
        law_valid_config_defines_phases(config@);
    }
    let prompt = assemble_orchestrator_prompt(template.as_str(), &config);
    let hooks = runner_hooks_settings();
    let home = runner_dir(project);
    let (argument, overlay) = match claude_runner_settings_argument(
        program,
        &settings.claude,
        hooks.as_str(),
        home.as_str(),
        &files.agent_settings,
    ) {
        Err(e) => {
            return Err(e);
        },
        Ok(x) => x,
    };
    let command = claude_launch_command(
        &settings.claude,
        id.as_str(),
        prompt.as_str(),
        Some(argument.as_str()),
        DEFAULT_ORCHESTRATOR_KICKOFF,
    );
    let kind = runner_type_of(program, runner_type);
    match store.register_at(id.as_str(), kind.as_str(), session.as_str(), now) {
        Err(e) => {
            return Err(RunnerCommandError::RunnerStore(e));
        },
        Ok(_) => {},
    }
    let mut actions = no_actions();
    let ghost writing = match overlay.deep_view() {
        Some(contents) => seq![RunnerActionView::WriteFile { path: argument@, contents }],
        None => Seq::empty(),
    };
    match overlay {
        Some(contents) => push_action(
            &mut actions,
            RunnerAction::WriteFile { path: argument.clone(), contents },
        ),
        None => {},
    }
    assert(actions.deep_view() =~= writing);
    push_action(&mut actions, RunnerAction::NewSession { session: session.clone(), command });
    push_action(
        &mut actions,
        RunnerAction::PipePane { session: session.clone(), log_path: runner_log_path(project) },
    );
    push_action(&mut actions, save_action(store));
    assert(actions.deep_view() =~= writing + seq![
        RunnerActionView::NewSession { session: session@, command: command@ },
        RunnerActionView::PipePane { session: session@, log_path: runner_log(project@) },
        save_runners(store@),
    ]);
    Ok(
        ColdStart {
            actions,
            output: RunnerStartOutput { runner_id: id, session_name: session, already_running: false },
        },
    )
}

/// What follows from looking for the sign that a runner is ready, for the time counted from zero.
pub fn hook_wait_step(store: &RunnerStore, runner_id: &str, attempt: usize, max_attempts: usize) -> (r:
    WaitStep)
    ensures
        r@ == if lookup(store@.runners, runner_id@) is Some && said_ready(
            lookup(store@.runners, runner_id@)->0,
        ) {
            WaitStepView::Ready
        } else if attempt + 1 < max_attempts {
            WaitStepView::Again
        } else {
            WaitStepView::LookAtScreen { note: FALLBACK_NOTE@ }
        },
{
    let ready = match store.get_runner(runner_id) {
        Some(runner) => runner_ready_from_hook_state(runner),
        None => false,
    };
    if ready {
        WaitStep::Ready
    } else if attempt < max_attempts && max_attempts - attempt > 1 {
        WaitStep::Again
    } else {
        WaitStep::LookAtScreen { note: FALLBACK_NOTE.to_owned() }
    }
}

/// What follows from looking at the screen for a prompt, for the time counted from zero.
pub fn screen_wait_step(pane: &str, attempt: usize) -> (r: Result<WaitStep, RunnerCommandError>)
    ensures
        outcome(r) == if shows_prompt(pane@) {
            Ok::<WaitStepView, RunnerCommandErrorView>(WaitStepView::Ready)
        } else if attempt + 1 < TUI_READY_MAX_ATTEMPTS {
            Ok(WaitStepView::Again)
        } else {
            Err(RunnerCommandErrorView::RunnerNotReady)
        },
{
    if claude_tui_input_ready(pane) {
        Ok(WaitStep::Ready)
    } else if attempt < TUI_READY_MAX_ATTEMPTS - 1 {
        Ok(WaitStep::Again)
    } else {
        Err(RunnerCommandError::RunnerNotReady)
    }
}

/// What follows from looking whether a text was submitted, for the time counted from zero.
pub fn kickoff_step(pane: &str, attempt: usize) -> (r: Result<KickStep, RunnerCommandError>)
    ensures
        outcome(r) == if shows_empty_prompt(pane@) {
            Ok::<KickStepView, RunnerCommandErrorView>(KickStepView::Submitted)
        } else if attempt + 1 < KICKOFF_SUBMIT_MAX_ATTEMPTS {
            Ok(KickStepView::PressAgain)
        } else {
            Err(RunnerCommandErrorView::KickoffNotSubmitted)
        },
{
    if claude_tui_input_cleared(pane) {
        Ok(KickStep::Submitted)
    } else if attempt < KICKOFF_SUBMIT_MAX_ATTEMPTS - 1 {
        Ok(KickStep::PressAgain)
    } else {
        Err(RunnerCommandError::KickoffNotSubmitted)
    }
}

// ---------------------------------------------------------------------------------------------
// Stopping and watching
// ---------------------------------------------------------------------------------------------

/// What is done to stop the runner of a project: its session is closed, its lease is given back,
/// and it is taken out.
pub open spec fn stopping(project: ProjectView, s: RunnerStoreView, seen: SessionSeenView) -> Result<
    (RunnerStoreView, Seq<RunnerActionView>),
    RunnerCommandErrorView,
> {
    let session = session_of(project);
    match runner_in(s.runners, session) {
        None => Err(RunnerCommandErrorView::NoRunnerRegistered),
        Some(runner) => match seen {
            SessionSeenView::Failed { error } => Err(error),
            SessionSeenView::Absent => Err(RunnerCommandErrorView::SessionNotAlive),
            SessionSeenView::Present { .. } => match s.change(
                runner.id,
                |x: RunnerView| x.released(),
            ) {
                Err(e) => Err(RunnerCommandErrorView::RunnerStore(e)),
                Ok((released, _)) => match released.deregister(runner.id) {
                    Err(e) => Err(RunnerCommandErrorView::RunnerStore(e)),
                    Ok((after, _)) => Ok(
                        (
                            after,
                            seq![
                                RunnerActionView::KillSession { session },
                                save_runners(released),
                                save_runners(after),
                            ],
                        ),
                    ),
                },
            },
        },
    }
}

/// What is to be done to stop the runner of a project.
pub fn stop_runner(project: &Project, store: &mut RunnerStore, seen: &SessionSeen) -> (r: Result<
    Vec<RunnerAction>,
    RunnerCommandError,
>)
    ensures
        planned(old(store)@, final(store)@, outcome(r), stopping(project@, old(store)@, seen@)),
{
    let session = session_name(project);
    let id: String = match matching_runner(store.registry(), session.as_str()) {
        None => {
            return Err(RunnerCommandError::NoRunnerRegistered);
        },
        Some(runner) => runner.id.clone(),
    };
    match seen {
        SessionSeen::Failed { error } => Err(error.duplicate()),
        SessionSeen::Absent => Err(RunnerCommandError::SessionNotAlive),
        SessionSeen::Present { .. } => {
            let ghost before = store@;
            let _count: usize = store.registry().runners.len();
            assert(sorted(before.runners));
            match store.release_lease(id.as_str()) {
                Err(e) => {
                    return Err(RunnerCommandError::RunnerStore(e));
                },
                Ok(_) => {},
            }
            let mut actions = no_actions();
            push_action(&mut actions, RunnerAction::KillSession { session: session.clone() });
            push_action(&mut actions, save_action(store));
            let ghost released = store@;
            proof {
                lemma_put(before.runners, id@, lookup(before.runners, id@)->0.released());
            }
            match store.deregister(id.as_str()) {
                Err(e) => Err(RunnerCommandError::RunnerStore(e)),
                Ok(_) => {
                    push_action(&mut actions, save_action(store));
                    assert(actions.deep_view() =~= seq![
                        RunnerActionView::KillSession { session: session@ },
                        save_runners(released),
                        save_runners(store@),
                    ]);
                    Ok(actions)
                },
            }
        },
    }
}

/// Stops the runner of a project; the text is for the user.
pub fn run_runner_stop(project: &Project, store: &mut RunnerStore, seen: &SessionSeen) -> (r: Result<
    (Vec<RunnerAction>, String),
    RunnerCommandError,
>)
    ensures
        planned(
            old(store)@,
            final(store)@,
            match outcome(r) {
                Ok((actions, _)) => Ok(actions),
                Err(e) => Err(e),
            },
            stopping(project@, old(store)@, seen@),
        ),
        r is Ok ==> r->Ok_0.1@ == "runner stopped"@,
{
    match stop_runner(project, store, seen) {
        Ok(actions) => Ok((actions, "runner stopped".to_owned())),
        Err(e) => Err(e),
    }
}

/// How much of a runner is there.
pub open spec fn liveness_of(runner: RunnerView, seen: SessionSeenView, now: Instant) -> Result<
    Seq<char>,
    RunnerCommandErrorView,
> {
    match seen {
        SessionSeenView::Failed { error } => Err(error),
        SessionSeenView::Absent => Ok("stale"@),
        SessionSeenView::Present { pane } => match pane {
            PaneSeenView::Failed { error } => Err(error),
            PaneSeenView::Dead => Ok("zombie"@),
            PaneSeenView::Shell => Ok("zombie"@),
            PaneSeenView::Agent => if runner.current_task is None {
                Ok("idle"@)
            } else if lost_task(runner, now) {
                Ok("stale"@)
            } else {
                Ok("live"@)
            },
        },
    }
}

fn find_liveness(runner: &Runner, seen: &SessionSeen, now: Instant) -> (r: Result<
    String,
    RunnerCommandError,
>)
    ensures
        outcome(r) == liveness_of(runner@, seen@, now),
{
    match seen {
        SessionSeen::Failed { error } => Err(error.duplicate()),
        SessionSeen::Absent => Ok("stale".to_owned()),
        SessionSeen::Present { pane } => match pane {
            PaneSeen::Failed { error } => Err(error.duplicate()),
            PaneSeen::Dead => Ok("zombie".to_owned()),
            PaneSeen::Shell => Ok("zombie".to_owned()),
            PaneSeen::Agent => if runner.current_task.is_none() {
                Ok("idle".to_owned())
            } else if has_lost_task(runner, now) {
                Ok("stale".to_owned())
            } else {
                Ok("live".to_owned())
            },
        },
    }
}

/// A project without a runner.
pub open spec fn without_runner(liveness: Seq<char>) -> RunnerStatusOutputView {
    RunnerStatusOutputView {
        runner_id: None,
        runner_type: None,
        current_task: None,
        liveness,
        heartbeat_age: None,
    }
}

/// What is known about the runner of a project.
pub open spec fn runner_status(
    project: ProjectView,
    read: RunnersReadView,
    seen: SessionSeenView,
    now: Instant,
) -> Result<RunnerStatusOutputView, RunnerCommandErrorView> {
    match project_runners(project, read) {
        Err(e) => Err(e),
        Ok(s) => match runner_in(s.runners, session_of(project)) {
            None => match seen {
                SessionSeenView::Failed { error } => Err(error),
                SessionSeenView::Absent => Ok(without_runner("no runner registered"@)),
                SessionSeenView::Present { .. } => Ok(
                    without_runner("session running but no runner registered"@),
                ),
            },
            Some(runner) => match liveness_of(runner, seen, now) {
                Err(e) => Err(e),
                Ok(liveness) => Ok(
                    RunnerStatusOutputView {
                        runner_id: Some(runner.id),
                        runner_type: Some(runner.runner_type),
                        current_task: runner.current_task,
                        liveness,
                        heartbeat_age: Some(heartbeat_age(runner.last_heartbeat, now)),
                    },
                ),
            },
        },
    }
}

fn no_runner(liveness: &str) -> (r: RunnerStatusOutput)
    ensures
        r@ == without_runner(liveness@),
{
    RunnerStatusOutput {
        runner_id: None,
        runner_type: None,
        current_task: None,
        liveness: liveness.to_owned(),
        heartbeat_age: None,
    }
}

/// What is known about the runner of a project.
pub fn status_runner(project: &Project, read: RunnersRead, seen: &SessionSeen, now: Instant) -> (r:
    Result<RunnerStatusOutput, RunnerCommandError>)
    requires
        now.on_calendar(),
    ensures
        outcome(r) == runner_status(project@, read@, seen@, now),
{
    let session = session_name(project);
    let store = match open_runners(project, read) {
        Err(e) => {
            return Err(e);
        },
        Ok(s) => s,
    };
    match matching_runner(store.registry(), session.as_str()) {
        None => match seen {
            SessionSeen::Failed { error } => Err(error.duplicate()),
            SessionSeen::Absent => Ok(no_runner("no runner registered")),
            SessionSeen::Present { .. } => Ok(
                no_runner("session running but no runner registered"),
            ),
        },
        Some(runner) => match find_liveness(runner, seen, now) {
            Err(e) => Err(e),
            Ok(liveness) => Ok(
                RunnerStatusOutput {
                    runner_id: Some(runner.id.clone()),
                    runner_type: Some(runner.runner_type.clone()),
                    current_task: runner.current_task.duplicate(),
                    liveness,
                    heartbeat_age: Some(
                        format_heartbeat_age(as_str_opt(&runner.last_heartbeat), now),
                    ),
                },
            ),
        },
    }
}

/// Whether a runner is at work or waits for work.
pub open spec fn at_hand(status: RunnerStatusOutputView) -> bool {
    status.liveness == "live"@ || status.liveness == "idle"@
}

/// Whether the runner of a project is at work or waits for work.
pub fn runner_is_live(project: &Project, read: RunnersRead, seen: &SessionSeen, now: Instant) -> (r:
    Result<bool, RunnerCommandError>)
    requires
        now.on_calendar(),
    ensures
        outcome(r) == match runner_status(project@, read@, seen@, now) {
            Ok(status) => Ok(at_hand(status)),
            Err(e) => Err(e),
        },
{
    match status_runner(project, read, seen, now) {
        Ok(status) => Ok(
            str_eq(status.liveness.as_str(), "live") || str_eq(status.liveness.as_str(), "idle"),
        ),
        Err(e) => Err(e),
    }
}

/// A text, or another one where there is none.
pub open spec fn text_or(s: Option<Seq<char>>, other: Seq<char>) -> Seq<char> {
    match s {
        Some(x) => x,
        None => other,
    }
}

/// A text, or another one where there is none.
pub fn text_or_str<'a>(s: &'a Option<String>, other: &'a str) -> (r: &'a str)
    ensures
        r@ == text_or(s.deep_view(), other@),
{
    match s {
        Some(x) => x.as_str(),
        None => other,
    }
}

/// What a user is told about the runner of a project.
pub open spec fn status_text(status: RunnerStatusOutputView) -> Seq<char> {
    match status.runner_id {
        None => status.liveness,
        Some(id) => "runner: "@ + id + "\ntype: "@ + text_or(status.runner_type, "unknown"@)
            + "\ncurrent task: "@ + text_or(status.current_task, "none"@) + "\nliveness: "@
            + status.liveness + "\nheartbeat: "@ + text_or(status.heartbeat_age, "none"@),
    }
}

/// What a user is told about the runner of a project.
pub fn format_status_output(status: &RunnerStatusOutput) -> (r: String)
    ensures
        r@ == status_text(status@),
{
    match &status.runner_id {
        None => status.liveness.clone(),
        Some(id) => {
            let mut out = "runner: ".to_owned();
            out.push_str(id.as_str());
            out.push_str("\ntype: ");
            out.push_str(text_or_str(&status.runner_type, "unknown"));
            out.push_str("\ncurrent task: ");
            out.push_str(text_or_str(&status.current_task, "none"));
            out.push_str("\nliveness: ");
            out.push_str(status.liveness.as_str());
            out.push_str("\nheartbeat: ");
            out.push_str(text_or_str(&status.heartbeat_age, "none"));
            out
        },
    }
}

/// What a user is told about a runner that was started.
pub fn run_runner_start(output: &RunnerStartOutput) -> (r: String)
    ensures
        r@ == "runner "@ + output@.runner_id + "\nsession "@ + output@.session_name + if output@.already_running {
            "\nalready running"@
        } else {
            ""@
        },
{
    let mut out = "runner ".to_owned();
    out.push_str(output.runner_id.as_str());
    out.push_str("\nsession ");
    out.push_str(output.session_name.as_str());
    out.push_str(
        if output.already_running {
            "\nalready running"
        } else {
            ""
        },
    );
    out
}

/// The session that a user can be put into.
pub fn run_runner_attach(project: &Project, seen: &SessionSeen) -> (r: Result<
    String,
    RunnerCommandError,
>)
    ensures
        outcome(r) == match seen@ {
            SessionSeenView::Failed { error } => Err::<Seq<char>, RunnerCommandErrorView>(error),
            SessionSeenView::Absent => Err(RunnerCommandErrorView::SessionNotAlive),
            SessionSeenView::Present { .. } => Ok(session_of(project@)),
        },
{
    match seen {
        SessionSeen::Failed { error } => Err(error.duplicate()),
        SessionSeen::Absent => Err(RunnerCommandError::SessionNotAlive),
        SessionSeen::Present { .. } => Ok(session_name(project)),
    }
}

/// What a user is shown of the log of a project's runners.
pub fn run_runner_logs(project: &Project, read: TextRead) -> (r: Result<String, RunnerCommandError>)
    ensures
        outcome(r) == match read@ {
            TextReadView::Missing => Err::<Seq<char>, RunnerCommandErrorView>(
                RunnerCommandErrorView::LogFileNotFound { path: runner_log(project@) },
            ),
            TextReadView::Unreadable { message } => Err(
                RunnerCommandErrorView::Read { path: runner_log(project@), message },
            ),
            TextReadView::Contents { text } => Ok(text),
        },
{
    match read {
        TextRead::Missing => Err(
            RunnerCommandError::LogFileNotFound { path: runner_log_path(project) },
        ),
        TextRead::Unreadable { message } => Err(
            RunnerCommandError::Read { path: runner_log_path(project), message },
        ),
        TextRead::Contents { text } => Ok(text),
    }
}

/// What an event that a runner tells of changes about it.
pub open spec fn told(kind: RunnerEventKind, now: Instant) -> spec_fn(RunnerView) -> RunnerView {
    match kind {
        RunnerEventKind::Ready => |x: RunnerView| x.heard(now),
        RunnerEventKind::Idle => |x: RunnerView| x.idle(now),
        RunnerEventKind::Heartbeat => |x: RunnerView| x.heard(now),
    }
}

/// What the runners of a project become by an event that one of them tells of.
pub open spec fn event_told(
    s: RunnerStoreView,
    kind: RunnerEventKind,
    runner_id: Option<Seq<char>>,
    now: Instant,
) -> Result<(RunnerStoreView, Option<RunnerView>), RunnerCommandErrorView> {
    if runner_id is None || blank(runner_id->0) {
        Ok((s, None))
    } else {
        match s.touch(trim(runner_id->0), told(kind, now)) {
            Ok(x) => Ok(x),
            Err(e) => Err(RunnerCommandErrorView::RunnerStore(e)),
        }
    }
}

/// Records an event that a runner tells of; one without a name and one that is not known are
/// passed over.
pub fn runner_event(
    store: &mut RunnerStore,
    kind: RunnerEventKind,
    runner_id: Option<&str>,
    now: Instant,
) -> (r: Result<Option<Runner>, RunnerCommandError>)
    requires
        now.on_calendar(),
    ensures
        planned(
            old(store)@,
            final(store)@,
            outcome(r),
            event_told(old(store)@, kind, runner_id.deep_view(), now),
        ),
{
    let id: &str = match runner_id {
        None => {
            return Ok(None);
        },
        Some(text) => {
            if is_blank(text) {
                return Ok(None);
            }
            trim_str(text)
        },
    };
    let result = match kind {
        RunnerEventKind::Ready => store.record_ready(id, now),
        RunnerEventKind::Idle => store.record_idle(id, now),
        RunnerEventKind::Heartbeat => store.record_heartbeat(id, now),
    };
    match result {
        Ok(runner) => Ok(runner),
        Err(e) => Err(RunnerCommandError::RunnerStore(e)),
    }
}

// ---------------------------------------------------------------------------------------------
// Laws
// ---------------------------------------------------------------------------------------------

/// A new process takes the place of a session that is there only once that session is closed.
pub proof fn law_live_session_is_closed_first(
    project: ProjectView,
    s: RunnerStoreView,
    pane: PaneSeenView,
    now: Instant,
)
    ensures
        starting(project, s, SessionSeenView::Present { pane }, now) matches Ok((_, plan)) ==> (
        plan.next is ColdStart ==> plan.actions.len() > 0 && plan.actions[0] == (
        RunnerActionView::KillSession { session: session_of(project) })),
{
}

/// A runner whose process is there is not ended: at most the runners are written.
pub proof fn law_kept_runner_is_not_ended(
    project: ProjectView,
    s: RunnerStoreView,
    seen: SessionSeenView,
    now: Instant,
)
    ensures
        starting(project, s, seen, now) matches Ok((_, plan)) ==> (!(plan.next is ColdStart)
            ==> forall|i: int|
            0 <= i < plan.actions.len() ==> (#[trigger] plan.actions[i]) is SaveRunners),
{
}

/// A session that no runner is registered for is left alone.
pub proof fn law_foreign_session_is_left_alone(
    project: ProjectView,
    s: RunnerStoreView,
    pane: PaneSeenView,
    now: Instant,
)
    requires
        runner_in(s.runners, session_of(project)) is None,
    ensures
        starting(project, s, SessionSeenView::Present { pane }, now) == Err::<
            (RunnerStoreView, StartPlanView),
            RunnerCommandErrorView,
        >(RunnerCommandErrorView::UnregisteredLiveSession),
{
}

/// A process that was started is registered: its runner is found by its id.
pub proof fn law_started_runner_is_registered(
    project: ProjectView,
    program: Seq<char>,
    agent: Seq<char>,
    runner_type: Option<Seq<char>>,
    s: RunnerStoreView,
    files: ColdStartFilesView,
    now: Instant,
    pid: u32,
)
    requires
        sorted(s.runners),
    ensures
        cold_starting(project, program, agent, runner_type, s, files, now, pid) matches Ok(
            (after, start),
        ) ==> lookup(after.runners, start.output.runner_id) == Some(
            RunnerView::fresh(
                start.output.runner_id,
                type_of(program, runner_type),
                session_of(project),
                now,
            ),
        ),
{
    let id = new_runner_id(project, session_of(project), now, pid);
    lemma_put(
        s.runners,
        id,
        RunnerView::fresh(id, type_of(program, runner_type), session_of(project), now),
    );
}

/// A runner that was stopped is gone, and the other runners stay as they were.
pub proof fn law_stopped_runner_is_gone(project: ProjectView, s: RunnerStoreView, seen: SessionSeenView)
    requires
        sorted(s.runners),
    ensures
        stopping(project, s, seen) matches Ok((after, _)) ==> {
            let id = runner_in(s.runners, session_of(project))->0.id;
            &&& lookup(after.runners, id) is None
            &&& forall|other: Seq<char>|
                other != id ==> #[trigger] lookup(after.runners, other) == lookup(s.runners, other)
        },
{
    if stopping(project, s, seen) is Ok {
        let runner = runner_in(s.runners, session_of(project))->0;
        let released = lookup(s.runners, runner.id)->0.released();
        lemma_put(s.runners, runner.id, released);
        lemma_without(put(s.runners, runner.id, released), runner.id);
    }
}

/// A runner that lost its task and one whose task was taken from it can be told to go on: neither
/// keeps a task.
pub proof fn law_told_runner_has_no_task(project: ProjectView, s: RunnerStoreView, seen: SessionSeenView, now: Instant)
    requires
        sorted(s.runners),
    ensures
        starting(project, s, seen, now) matches Ok((after, plan)) ==> (plan.next matches StartNextView::Kick { output }
            ==> (lookup(after.runners, output.runner_id) matches Some(x) ==> x.current_task is None)),
{
    match runner_in(s.runners, session_of(project)) {
        Some(runner) => {
            match lookup(s.runners, runner.id) {
                Some(x) => {
                    lemma_put(s.runners, runner.id, x.released());
                },
                None => {},
            }
        },
        None => {},
    }
}

} // verus!
