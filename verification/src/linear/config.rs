//! The configuration of a project.

use vstd::prelude::*;

use crate::commands::runner::{text_or, text_or_str};
use crate::duplicate::{outcome, Duplicate};
use crate::engine::config::{DEFAULT_WORKFLOW_NAME, PhaseDef};
use crate::linear::global_config::GlobalConfig;
use crate::rows::{rows_of, write_rows, RowWriter};
use crate::string_map::{lookup, StringMap};

verus! {

/// A phase and the model that works in it.
#[derive(Debug, PartialEq, Eq)]
pub struct PhaseConfig {
    pub name: String,
    pub model: String,
}

/// The contents of a `PhaseConfig`.
#[verifier::ext_equal]
pub struct PhaseConfigView {
    pub name: Seq<char>,
    pub model: Seq<char>,
}

impl View for PhaseConfig {
    type V = PhaseConfigView;

    open spec fn view(&self) -> PhaseConfigView {
        PhaseConfigView {
            name: self.name@,
            model: self.model@,
        }
    }
}

impl DeepView for PhaseConfig {
    type V = PhaseConfigView;

    open spec fn deep_view(&self) -> PhaseConfigView {
        self@
    }
}

impl Duplicate for PhaseConfig {
    fn duplicate(&self) -> (r: Self) {
        PhaseConfig {
            name: self.name.duplicate(),
            model: self.model.duplicate(),
        }
    }
}

impl Clone for PhaseConfig {
    fn clone(&self) -> (r: Self)
        ensures
            r@ == self@,
    {
        self.duplicate()
    }
}


/// How the work on a project is checked.
#[derive(Debug, PartialEq, Eq)]
pub struct VerificationConfig {
    pub commands: Vec<String>,
}

/// The contents of a `VerificationConfig`.
#[verifier::ext_equal]
pub struct VerificationConfigView {
    pub commands: Seq<Seq<char>>,
}

impl View for VerificationConfig {
    type V = VerificationConfigView;

    open spec fn view(&self) -> VerificationConfigView {
        VerificationConfigView {
            commands: self.commands.deep_view(),
        }
    }
}

impl DeepView for VerificationConfig {
    type V = VerificationConfigView;

    open spec fn deep_view(&self) -> VerificationConfigView {
        self@
    }
}

impl Duplicate for VerificationConfig {
    fn duplicate(&self) -> (r: Self) {
        VerificationConfig {
            commands: self.commands.duplicate(),
        }
    }
}

impl Clone for VerificationConfig {
    fn clone(&self) -> (r: Self)
        ensures
            r@ == self@,
    {
        self.duplicate()
    }
}


/// The configuration of a project.
#[derive(Debug, PartialEq, Eq)]
pub struct Config {
    pub stack: String,
    pub phases: Vec<PhaseConfig>,
    pub verification: VerificationConfig,
    pub acceptance_testing: String,
    pub max_retries: u32,
    pub prd_path: Option<String>,
}

/// The contents of a `Config`.
#[verifier::ext_equal]
pub struct ConfigView {
    pub stack: Seq<char>,
    pub phases: Seq<PhaseConfigView>,
    pub verification: VerificationConfigView,
    pub acceptance_testing: Seq<char>,
    pub max_retries: u32,
    pub prd_path: Option<Seq<char>>,
}

impl View for Config {
    type V = ConfigView;

    open spec fn view(&self) -> ConfigView {
        ConfigView {
            stack: self.stack@,
            phases: self.phases.deep_view(),
            verification: self.verification@,
            acceptance_testing: self.acceptance_testing@,
            max_retries: self.max_retries,
            prd_path: self.prd_path.deep_view(),
        }
    }
}

impl DeepView for Config {
    type V = ConfigView;

    open spec fn deep_view(&self) -> ConfigView {
        self@
    }
}

impl Duplicate for Config {
    fn duplicate(&self) -> (r: Self) {
        Config {
            stack: self.stack.duplicate(),
            phases: self.phases.duplicate(),
            verification: self.verification.duplicate(),
            acceptance_testing: self.acceptance_testing.duplicate(),
            max_retries: self.max_retries,
            prd_path: self.prd_path.duplicate(),
        }
    }
}

impl Clone for Config {
    fn clone(&self) -> (r: Self)
        ensures
            r@ == self@,
    {
        self.duplicate()
    }
}


/// Why the configuration of a project could not be used.
#[derive(Debug, PartialEq, Eq)]
pub enum ConfigError {
    NotFound { path: String },
    Read { path: String, message: String },
    Parse { path: String, message: String },
}

/// The contents of a `ConfigError`.
#[verifier::ext_equal]
pub enum ConfigErrorView {
    NotFound { path: Seq<char> },
    Read { path: Seq<char>, message: Seq<char> },
    Parse { path: Seq<char>, message: Seq<char> },
}

impl View for ConfigError {
    type V = ConfigErrorView;

    open spec fn view(&self) -> ConfigErrorView {
        match self {
            ConfigError::NotFound { path } => ConfigErrorView::NotFound { path: path@ },
            ConfigError::Read { path, message } => ConfigErrorView::Read { path: path@, message: message@ },
            ConfigError::Parse { path, message } => ConfigErrorView::Parse { path: path@, message: message@ },
        }
    }
}

impl DeepView for ConfigError {
    type V = ConfigErrorView;

    open spec fn deep_view(&self) -> ConfigErrorView {
        self@
    }
}

impl Duplicate for ConfigError {
    fn duplicate(&self) -> (r: Self) {
        match self {
            ConfigError::NotFound { path } => ConfigError::NotFound { path: path.duplicate() },
            ConfigError::Read { path, message } => ConfigError::Read { path: path.duplicate(), message: message.duplicate() },
            ConfigError::Parse { path, message } => ConfigError::Parse { path: path.duplicate(), message: message.duplicate() },
        }
    }
}

impl Clone for ConfigError {
    fn clone(&self) -> (r: Self)
        ensures
            r@ == self@,
    {
        self.duplicate()
    }
}

impl ConfigErrorView {
    /// The text shown for the error.
    pub open spec fn message(self) -> Seq<char> {
        match self {
            ConfigErrorView::NotFound { path } => "config file not found: "@ + path,
            ConfigErrorView::Read { path, .. } => "failed to read "@ + path,
            ConfigErrorView::Parse { path, message } => "failed to load config "@ + path + ": "@ + message,
        }
    }
}

impl ConfigError {
    /// The text shown for the error.
    pub fn message(&self) -> (r: String)
        ensures
            r@ == self@.message(),
    {
        match self {
            ConfigError::NotFound { path } => {
                let mut out = "config file not found: ".to_owned();
                out.push_str(path.as_str());
                out
            },
            ConfigError::Read { path, .. } => {
                let mut out = "failed to read ".to_owned();
                out.push_str(path.as_str());
                out
            },
            ConfigError::Parse { path, message } => {
                let mut out = "failed to load config ".to_owned();
                out.push_str(path.as_str());
                out.push_str(": ");
                out.push_str(message.as_str());
                out
            },
        }
    }
}


/// What a configuration file holds.
#[derive(Debug, PartialEq, Eq)]
pub struct ProjectConfigFile {
    pub stack: String,
    pub phases: Option<Vec<PhaseConfig>>,
    /// The names of the phases, in an older form of the file.
    pub state_machine: Option<Vec<String>>,
    /// The models of the phases, in an older form of the file.
    pub models: Option<StringMap<String>>,
    pub verification: VerificationConfig,
    pub acceptance_testing: String,
    pub max_retries: Option<u32>,
    /// The model of phases that have none, in an older form of the file.
    pub default_model: Option<String>,
    pub prd_path: Option<String>,
}

/// The contents of a `ProjectConfigFile`.
#[verifier::ext_equal]
pub struct ProjectConfigFileView {
    pub stack: Seq<char>,
    pub phases: Option<Seq<PhaseConfigView>>,
    pub state_machine: Option<Seq<Seq<char>>>,
    pub models: Option<Seq<(Seq<char>, Seq<char>)>>,
    pub verification: VerificationConfigView,
    pub acceptance_testing: Seq<char>,
    pub max_retries: Option<u32>,
    pub default_model: Option<Seq<char>>,
    pub prd_path: Option<Seq<char>>,
}

impl View for ProjectConfigFile {
    type V = ProjectConfigFileView;

    open spec fn view(&self) -> ProjectConfigFileView {
        ProjectConfigFileView {
            stack: self.stack@,
            phases: self.phases.deep_view(),
            state_machine: self.state_machine.deep_view(),
            models: self.models.deep_view(),
            verification: self.verification@,
            acceptance_testing: self.acceptance_testing@,
            max_retries: self.max_retries.deep_view(),
            default_model: self.default_model.deep_view(),
            prd_path: self.prd_path.deep_view(),
        }
    }
}

impl DeepView for ProjectConfigFile {
    type V = ProjectConfigFileView;

    open spec fn deep_view(&self) -> ProjectConfigFileView {
        self@
    }
}

impl Duplicate for ProjectConfigFile {
    fn duplicate(&self) -> (r: Self) {
        ProjectConfigFile {
            stack: self.stack.duplicate(),
            phases: self.phases.duplicate(),
            state_machine: self.state_machine.duplicate(),
            models: self.models.duplicate(),
            verification: self.verification.duplicate(),
            acceptance_testing: self.acceptance_testing.duplicate(),
            max_retries: self.max_retries.duplicate(),
            default_model: self.default_model.duplicate(),
            prd_path: self.prd_path.duplicate(),
        }
    }
}

impl Clone for ProjectConfigFile {
    fn clone(&self) -> (r: Self)
        ensures
            r@ == self@,
    {
        self.duplicate()
    }
}


/// What reading a configuration file gave.
#[derive(Debug, PartialEq, Eq)]
pub enum ConfigRead {
    /// There is no such file.
    Missing,
    /// The file could not be read.
    Unreadable { message: String },
    /// The file holds no configuration.
    Malformed { message: String },
    Parsed { file: ProjectConfigFile },
}

/// The contents of a `ConfigRead`.
#[verifier::ext_equal]
pub enum ConfigReadView {
    Missing,
    Unreadable { message: Seq<char> },
    Malformed { message: Seq<char> },
    Parsed { file: ProjectConfigFileView },
}

impl View for ConfigRead {
    type V = ConfigReadView;

    open spec fn view(&self) -> ConfigReadView {
        match self {
            ConfigRead::Missing => ConfigReadView::Missing,
            ConfigRead::Unreadable { message } => ConfigReadView::Unreadable { message: message@ },
            ConfigRead::Malformed { message } => ConfigReadView::Malformed { message: message@ },
            ConfigRead::Parsed { file } => ConfigReadView::Parsed { file: file@ },
        }
    }
}

impl DeepView for ConfigRead {
    type V = ConfigReadView;

    open spec fn deep_view(&self) -> ConfigReadView {
        self@
    }
}

impl Duplicate for ConfigRead {
    fn duplicate(&self) -> (r: Self) {
        match self {
            ConfigRead::Missing => ConfigRead::Missing,
            ConfigRead::Unreadable { message } => ConfigRead::Unreadable { message: message.duplicate() },
            ConfigRead::Malformed { message } => ConfigRead::Malformed { message: message.duplicate() },
            ConfigRead::Parsed { file } => ConfigRead::Parsed { file: file.duplicate() },
        }
    }
}

impl Clone for ConfigRead {
    fn clone(&self) -> (r: Self)
        ensures
            r@ == self@,
    {
        self.duplicate()
    }
}


/// A phase by its name.
pub struct PhaseName;

impl RowWriter<PhaseConfig, ()> for PhaseName {
    open spec fn row(phase: PhaseConfigView, context: ()) -> Seq<char> {
        phase.name
    }

    fn write(phase: &PhaseConfig, context: &()) -> (r: String) {
        phase.name.clone()
    }
}

impl ConfigView {
    /// The names of the phases, in order.
    pub open spec fn names(self) -> Seq<Seq<char>> {
        rows_of::<PhaseConfig, (), PhaseName>(self.phases, ())
    }

    /// The last phase.
    pub open spec fn terminal(self) -> Option<Seq<char>> {
        if self.phases.len() == 0 {
            None
        } else {
            Some(self.phases.last().name)
        }
    }
}

impl Config {
    /// The names of the phases, in order.
    pub fn phase_names(&self) -> (r: Vec<String>)
        ensures
            r.deep_view() == self@.names(),
    {
        write_rows::<PhaseConfig, (), PhaseName>(self.phases.as_slice(), &())
    }

    /// The last phase.
    pub fn terminal_phase(&self) -> (r: Option<&str>)
        ensures
            r.deep_view() == self@.terminal(),
    {
        assert(self@.phases.len() == self.phases.len());
        let n: usize = self.phases.len();
        if n == 0 {
            None
        } else {
            assert(self@.phases.last() == self.phases@[n - 1]@);
            Some(self.phases[n - 1].name.as_str())
        }
    }
}

/// The model of a phase: its own, or else the one for all phases, or else a common one.
pub open spec fn model_for(
    name: Seq<char>,
    models: Option<Seq<(Seq<char>, Seq<char>)>>,
    default_model: Option<Seq<char>>,
) -> Seq<char> {
    let own = match models {
        Some(m) => lookup(m, name),
        None => None,
    };
    match own {
        Some(model) => model,
        None => text_or(default_model, "sonnet"@),
    }
}

/// The phases that an older form of a file stands for.
pub open spec fn migrated_phases(
    names: Seq<Seq<char>>,
    models: Option<Seq<(Seq<char>, Seq<char>)>>,
    default_model: Option<Seq<char>>,
) -> Seq<PhaseConfigView> {
    names.map_values(
        |name: Seq<char>| PhaseConfigView { name, model: model_for(name, models, default_model) },
    )
}

/// The phases that an older form of a file stands for.
pub fn migrate_state_machine(
    state_machine: &Vec<String>,
    models: &Option<StringMap<String>>,
    default_model: &Option<String>,
) -> (r: Vec<PhaseConfig>)
    ensures
        r.deep_view() == migrated_phases(
            state_machine.deep_view(),
            models.deep_view(),
            default_model.deep_view(),
        ),
{
    let ghost all = migrated_phases(
        state_machine.deep_view(),
        models.deep_view(),
        default_model.deep_view(),
    );
    let fallback = text_or_str(default_model, "sonnet");
    let mut out: Vec<PhaseConfig> = Vec::new();
    let mut i: usize = 0;
    assert(out.deep_view() =~= all.take(0));
    while i < state_machine.len()
        invariant
            i <= state_machine.len(),
            all == migrated_phases(
                state_machine.deep_view(),
                models.deep_view(),
                default_model.deep_view(),
            ),
            fallback@ == text_or(default_model.deep_view(), "sonnet"@),
            out.deep_view() == all.take(i as int),
        decreases state_machine.len() - i,
    {
        let ghost before = out.deep_view();
        let name = state_machine[i].as_str();
        assert(state_machine.deep_view()[i as int] == name@);
        let own = match models {
            Some(m) => m.get(name),
            None => None,
        };
        let model = match own {
            Some(text) => text.clone(),
            None => fallback.to_owned(),
        };
        out.push(PhaseConfig { name: name.to_owned(), model });
        assert(out.deep_view() =~= before.push(all[i as int]));
        assert(all.take(i + 1) =~= all.take(i as int).push(all[i as int]));
        i = i + 1;
    }
    assert(all.take(i as int) =~= all);
    out
}

impl ProjectConfigFileView {
    /// The phases of the file, also in its older form.
    pub open spec fn line(self) -> Seq<PhaseConfigView> {
        match self.phases {
            Some(phases) => phases,
            None => match self.state_machine {
                Some(names) => migrated_phases(names, self.models, self.default_model),
                None => Seq::empty(),
            },
        }
    }

    /// The configuration that the file stands for.
    pub open spec fn in_use(self, default_max_retries: u32) -> ConfigView {
        ConfigView {
            stack: self.stack,
            phases: self.line(),
            verification: self.verification,
            acceptance_testing: self.acceptance_testing,
            max_retries: match self.max_retries {
                Some(n) => n,
                None => default_max_retries,
            },
            prd_path: self.prd_path,
        }
    }
}

/// What a configuration that was read comes to.
pub open spec fn loaded_line(path: Seq<char>, read: ConfigReadView, default_max_retries: u32) -> Result<
    ConfigView,
    ConfigErrorView,
> {
    match read {
        ConfigReadView::Missing => Err(ConfigErrorView::NotFound { path }),
        ConfigReadView::Unreadable { message } => Err(ConfigErrorView::Read { path, message }),
        ConfigReadView::Malformed { message } => Err(ConfigErrorView::Parse { path, message }),
        ConfigReadView::Parsed { file } => Ok(file.in_use(default_max_retries)),
    }
}

/// What a configuration that was read comes to.
pub fn load_project_config(path: &str, read: &ConfigRead, global_config: &GlobalConfig) -> (r: Result<
    Config,
    ConfigError,
>)
    ensures
        outcome(r) == loaded_line(path@, read@, global_config@.default_max_retries),
{
    match read {
        ConfigRead::Missing => Err(ConfigError::NotFound { path: path.to_owned() }),
        ConfigRead::Unreadable { message } => Err(
            ConfigError::Read { path: path.to_owned(), message: message.clone() },
        ),
        ConfigRead::Malformed { message } => Err(
            ConfigError::Parse { path: path.to_owned(), message: message.clone() },
        ),
        ConfigRead::Parsed { file } => {
            let phases = match &file.phases {
                Some(phases) => phases.duplicate(),
                None => match &file.state_machine {
                    Some(names) => migrate_state_machine(names, &file.models, &file.default_model),
                    None => {
                        let none: Vec<PhaseConfig> = Vec::new();
                        assert(none.deep_view() =~= Seq::<PhaseConfigView>::empty());
                        none
                    },
                },
            };
            Ok(
                Config {
                    stack: file.stack.clone(),
                    phases,
                    verification: file.verification.duplicate(),
                    acceptance_testing: file.acceptance_testing.clone(),
                    max_retries: match file.max_retries {
                        Some(n) => n,
                        None => global_config.default_max_retries,
                    },
                    prd_path: file.prd_path.duplicate(),
                },
            )
        },
    }
}

/// A line of phases as the only workflow.
pub open spec fn as_workflow(config: ConfigView) -> crate::engine::config::ConfigView {
    crate::engine::config::ConfigView {
        stack: config.stack,
        phases: Seq::empty(),
        workflows: seq![(DEFAULT_WORKFLOW_NAME@, config.names())],
        default_workflow: DEFAULT_WORKFLOW_NAME@,
        max_retries: config.max_retries,
    }
}

/// A line of phases as the only workflow.
pub fn line_as_workflow(config: &Config) -> (r: crate::engine::config::Config)
    ensures
        r@ == as_workflow(config@),
{
    let mut workflows: StringMap<Vec<String>> = StringMap::new();
    workflows.insert(DEFAULT_WORKFLOW_NAME.to_owned(), config.phase_names());
    assert(workflows@ =~= seq![(DEFAULT_WORKFLOW_NAME@, config@.names())]);
    let phases: StringMap<PhaseDef> = StringMap::new();
    crate::engine::config::Config {
        stack: config.stack.clone(),
        phases,
        workflows,
        default_workflow: DEFAULT_WORKFLOW_NAME.to_owned(),
        max_retries: config.max_retries,
    }
}

/// An older form of a file stands for the same phases, in the same order, each with a model.
pub proof fn law_older_form_keeps_phases(file: ProjectConfigFileView, default_max_retries: u32)
    requires
        file.phases is None,
        file.state_machine is Some,
    ensures
        file.in_use(default_max_retries).names() == file.state_machine->0,
{
    assert(file.in_use(default_max_retries).names() =~= file.state_machine->0);
}

} // verus!
