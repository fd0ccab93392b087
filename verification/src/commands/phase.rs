//! Changing the phases of a project.

use vstd::prelude::*;

use crate::commands::report::{config_file, config_path, load_config, project_config};
use crate::commands::workflow::{is_reserved, put_between, reserved};
use crate::duplicate::{outcome, Duplicate};
use crate::engine::config::{
    lemma_problem, writable, write_project_config, Config, ConfigError, ConfigErrorView, ConfigRead,
    ConfigReadView, ConfigView, PhaseDef, PhaseDefView,
};
use crate::engine::global_config::list_has;
use crate::engine::project::{Project, ProjectView};
use crate::string_map::{has_key, lookup, put, without, StringMap};
use crate::text::{follow, join, join_strs};

verus! {

/// Why the phases of a project could not be shown.
#[derive(Debug, PartialEq, Eq)]
pub enum PhaseGetError {
    NotFound { path: String },
    Read { path: String, message: String },
    Load { path: String, message: String },
    InvalidConfig { path: String, reason: String },
}

/// The contents of a `PhaseGetError`.
#[verifier::ext_equal]
pub enum PhaseGetErrorView {
    NotFound { path: Seq<char> },
    Read { path: Seq<char>, message: Seq<char> },
    Load { path: Seq<char>, message: Seq<char> },
    InvalidConfig { path: Seq<char>, reason: Seq<char> },
}

impl View for PhaseGetError {
    type V = PhaseGetErrorView;

    open spec fn view(&self) -> PhaseGetErrorView {
        match self {
            PhaseGetError::NotFound { path } => PhaseGetErrorView::NotFound { path: path@ },
            PhaseGetError::Read { path, message } => PhaseGetErrorView::Read { path: path@, message: message@ },
            PhaseGetError::Load { path, message } => PhaseGetErrorView::Load { path: path@, message: message@ },
            PhaseGetError::InvalidConfig { path, reason } => PhaseGetErrorView::InvalidConfig { path: path@, reason: reason@ },
        }
    }
}

impl DeepView for PhaseGetError {
    type V = PhaseGetErrorView;

    open spec fn deep_view(&self) -> PhaseGetErrorView {
        self@
    }
}

impl Duplicate for PhaseGetError {
    fn duplicate(&self) -> (r: Self) {
        match self {
            PhaseGetError::NotFound { path } => PhaseGetError::NotFound { path: path.duplicate() },
            PhaseGetError::Read { path, message } => PhaseGetError::Read { path: path.duplicate(), message: message.duplicate() },
            PhaseGetError::Load { path, message } => PhaseGetError::Load { path: path.duplicate(), message: message.duplicate() },
            PhaseGetError::InvalidConfig { path, reason } => PhaseGetError::InvalidConfig { path: path.duplicate(), reason: reason.duplicate() },
        }
    }
}

impl Clone for PhaseGetError {
    fn clone(&self) -> (r: Self)
        ensures
            r@ == self@,
    {
        self.duplicate()
    }
}

impl PhaseGetErrorView {
    /// The text shown for the error.
    pub open spec fn message(self) -> Seq<char> {
        match self {
            PhaseGetErrorView::NotFound { path } => "config file not found: "@ + path,
            PhaseGetErrorView::Read { path, .. } => "failed to read "@ + path,
            PhaseGetErrorView::Load { path, message } => "failed to load config "@ + path + ": "@ + message,
            PhaseGetErrorView::InvalidConfig { path, reason } => "invalid config "@ + path + ": "@ + reason,
        }
    }
}

impl PhaseGetError {
    /// The text shown for the error.
    pub fn message(&self) -> (r: String)
        ensures
            r@ == self@.message(),
    {
        match self {
            PhaseGetError::NotFound { path } => {
                let mut out = "config file not found: ".to_owned();
                out.push_str(path.as_str());
                out
            },
            PhaseGetError::Read { path, .. } => {
                let mut out = "failed to read ".to_owned();
                out.push_str(path.as_str());
                out
            },
            PhaseGetError::Load { path, message } => {
                let mut out = "failed to load config ".to_owned();
                out.push_str(path.as_str());
                out.push_str(": ");
                out.push_str(message.as_str());
                out
            },
            PhaseGetError::InvalidConfig { path, reason } => {
                let mut out = "invalid config ".to_owned();
                out.push_str(path.as_str());
                out.push_str(": ");
                out.push_str(reason.as_str());
                out
            },
        }
    }
}


/// Why the phases of a project could not be changed.
#[derive(Debug, PartialEq, Eq)]
pub enum PhaseUpdateError {
    NoOperation,
    PhaseNotFound { name: String },
    DuplicatePhase { name: String },
    ReservedPhase { name: String },
    PhaseReferenced { name: String, workflows: Vec<String> },
    ConfigNotFound { path: String },
    ConfigRead { path: String, message: String },
    ConfigLoad { path: String, message: String },
    InvalidConfig { path: String, reason: String },
}

/// The contents of a `PhaseUpdateError`.
#[verifier::ext_equal]
pub enum PhaseUpdateErrorView {
    NoOperation,
    PhaseNotFound { name: Seq<char> },
    DuplicatePhase { name: Seq<char> },
    ReservedPhase { name: Seq<char> },
    PhaseReferenced { name: Seq<char>, workflows: Seq<Seq<char>> },
    ConfigNotFound { path: Seq<char> },
    ConfigRead { path: Seq<char>, message: Seq<char> },
    ConfigLoad { path: Seq<char>, message: Seq<char> },
    InvalidConfig { path: Seq<char>, reason: Seq<char> },
}

impl View for PhaseUpdateError {
    type V = PhaseUpdateErrorView;

    open spec fn view(&self) -> PhaseUpdateErrorView {
        match self {
            PhaseUpdateError::NoOperation => PhaseUpdateErrorView::NoOperation,
            PhaseUpdateError::PhaseNotFound { name } => PhaseUpdateErrorView::PhaseNotFound { name: name@ },
            PhaseUpdateError::DuplicatePhase { name } => PhaseUpdateErrorView::DuplicatePhase { name: name@ },
            PhaseUpdateError::ReservedPhase { name } => PhaseUpdateErrorView::ReservedPhase { name: name@ },
            PhaseUpdateError::PhaseReferenced { name, workflows } => PhaseUpdateErrorView::PhaseReferenced { name: name@, workflows: workflows.deep_view() },
            PhaseUpdateError::ConfigNotFound { path } => PhaseUpdateErrorView::ConfigNotFound { path: path@ },
            PhaseUpdateError::ConfigRead { path, message } => PhaseUpdateErrorView::ConfigRead { path: path@, message: message@ },
            PhaseUpdateError::ConfigLoad { path, message } => PhaseUpdateErrorView::ConfigLoad { path: path@, message: message@ },
            PhaseUpdateError::InvalidConfig { path, reason } => PhaseUpdateErrorView::InvalidConfig { path: path@, reason: reason@ },
        }
    }
}

impl DeepView for PhaseUpdateError {
    type V = PhaseUpdateErrorView;

    open spec fn deep_view(&self) -> PhaseUpdateErrorView {
        self@
    }
}

impl Duplicate for PhaseUpdateError {
    fn duplicate(&self) -> (r: Self) {
        match self {
            PhaseUpdateError::NoOperation => PhaseUpdateError::NoOperation,
            PhaseUpdateError::PhaseNotFound { name } => PhaseUpdateError::PhaseNotFound { name: name.duplicate() },
            PhaseUpdateError::DuplicatePhase { name } => PhaseUpdateError::DuplicatePhase { name: name.duplicate() },
            PhaseUpdateError::ReservedPhase { name } => PhaseUpdateError::ReservedPhase { name: name.duplicate() },
            PhaseUpdateError::PhaseReferenced { name, workflows } => PhaseUpdateError::PhaseReferenced { name: name.duplicate(), workflows: workflows.duplicate() },
            PhaseUpdateError::ConfigNotFound { path } => PhaseUpdateError::ConfigNotFound { path: path.duplicate() },
            PhaseUpdateError::ConfigRead { path, message } => PhaseUpdateError::ConfigRead { path: path.duplicate(), message: message.duplicate() },
            PhaseUpdateError::ConfigLoad { path, message } => PhaseUpdateError::ConfigLoad { path: path.duplicate(), message: message.duplicate() },
            PhaseUpdateError::InvalidConfig { path, reason } => PhaseUpdateError::InvalidConfig { path: path.duplicate(), reason: reason.duplicate() },
        }
    }
}

impl Clone for PhaseUpdateError {
    fn clone(&self) -> (r: Self)
        ensures
            r@ == self@,
    {
        self.duplicate()
    }
}

impl PhaseUpdateErrorView {
    /// The text shown for the error.
    pub open spec fn message(self) -> Seq<char> {
        match self {
            PhaseUpdateErrorView::NoOperation => "at least one of --set-duty, --set-model, --clear-duty, --clear-model, --set-gate, or --unset-gate is required"@,
            PhaseUpdateErrorView::PhaseNotFound { name } => "phase not found: "@ + name,
            PhaseUpdateErrorView::DuplicatePhase { name } => "phase already exists: "@ + name,
            PhaseUpdateErrorView::ReservedPhase { name } => "reserved phase name: "@ + name,
            PhaseUpdateErrorView::PhaseReferenced { name, workflows } => "cannot remove phase '"@ + name + "': workflows still reference it: "@ + join(workflows, ", "@),
            PhaseUpdateErrorView::ConfigNotFound { path } => "config file not found: "@ + path,
            PhaseUpdateErrorView::ConfigRead { path, .. } => "failed to read "@ + path,
            PhaseUpdateErrorView::ConfigLoad { path, message } => "failed to load config "@ + path + ": "@ + message,
            PhaseUpdateErrorView::InvalidConfig { path, reason } => "invalid config "@ + path + ": "@ + reason,
        }
    }
}

impl PhaseUpdateError {
    /// The text shown for the error.
    pub fn message(&self) -> (r: String)
        ensures
            r@ == self@.message(),
    {
        match self {
            PhaseUpdateError::NoOperation => "at least one of --set-duty, --set-model, --clear-duty, --clear-model, --set-gate, or --unset-gate is required".to_owned(),
            PhaseUpdateError::PhaseNotFound { name } => {
                let mut out = "phase not found: ".to_owned();
                out.push_str(name.as_str());
                out
            },
            PhaseUpdateError::DuplicatePhase { name } => {
                let mut out = "phase already exists: ".to_owned();
                out.push_str(name.as_str());
                out
            },
            PhaseUpdateError::ReservedPhase { name } => {
                let mut out = "reserved phase name: ".to_owned();
                out.push_str(name.as_str());
                out
            },
            PhaseUpdateError::PhaseReferenced { name, workflows } => {
                let mut out = "cannot remove phase '".to_owned();
                out.push_str(name.as_str());
                out.push_str("': workflows still reference it: ");
                out.push_str(join_strs(workflows, ", ").as_str());
                out
            },
            PhaseUpdateError::ConfigNotFound { path } => {
                let mut out = "config file not found: ".to_owned();
                out.push_str(path.as_str());
                out
            },
            PhaseUpdateError::ConfigRead { path, .. } => {
                let mut out = "failed to read ".to_owned();
                out.push_str(path.as_str());
                out
            },
            PhaseUpdateError::ConfigLoad { path, message } => {
                let mut out = "failed to load config ".to_owned();
                out.push_str(path.as_str());
                out.push_str(": ");
                out.push_str(message.as_str());
                out
            },
            PhaseUpdateError::InvalidConfig { path, reason } => {
                let mut out = "invalid config ".to_owned();
                out.push_str(path.as_str());
                out.push_str(": ");
                out.push_str(reason.as_str());
                out
            },
        }
    }
}


/// The error for a configuration that could not be shown.
pub open spec fn phase_get_error(e: ConfigErrorView) -> PhaseGetErrorView {
    match e {
        ConfigErrorView::NotFound { path } => PhaseGetErrorView::NotFound { path },
        ConfigErrorView::Read { path, message } => PhaseGetErrorView::Read { path, message },
        ConfigErrorView::Parse { path, message } => PhaseGetErrorView::Load { path, message },
        ConfigErrorView::Invalid { path, reason } => PhaseGetErrorView::InvalidConfig { path, reason },
    }
}

fn map_get_config_error(error: ConfigError) -> (r: PhaseGetError)
    ensures
        r@ == phase_get_error(error@),
{
    match error {
        ConfigError::NotFound { path } => PhaseGetError::NotFound { path },
        ConfigError::Read { path, message } => PhaseGetError::Read { path, message },
        ConfigError::Parse { path, message } => PhaseGetError::Load { path, message },
        ConfigError::Invalid { path, reason } => PhaseGetError::InvalidConfig { path, reason },
    }
}

/// The error for a configuration that could not be changed.
pub open spec fn phase_update_error(e: ConfigErrorView) -> PhaseUpdateErrorView {
    match e {
        ConfigErrorView::NotFound { path } => PhaseUpdateErrorView::ConfigNotFound { path },
        ConfigErrorView::Read { path, message } => PhaseUpdateErrorView::ConfigRead { path, message },
        ConfigErrorView::Parse { path, message } => PhaseUpdateErrorView::ConfigLoad {
            path,
            message,
        },
        ConfigErrorView::Invalid { path, reason } => PhaseUpdateErrorView::InvalidConfig {
            path,
            reason,
        },
    }
}

fn map_update_config_error(error: ConfigError) -> (r: PhaseUpdateError)
    ensures
        r@ == phase_update_error(error@),
{
    match error {
        ConfigError::NotFound { path } => PhaseUpdateError::ConfigNotFound { path },
        ConfigError::Read { path, message } => PhaseUpdateError::ConfigRead { path, message },
        ConfigError::Parse { path, message } => PhaseUpdateError::ConfigLoad { path, message },
        ConfigError::Invalid { path, reason } => PhaseUpdateError::InvalidConfig { path, reason },
    }
}

/// A command that must succeed before a phase is left, as a list shows it.
pub open spec fn gate_suffix(def: PhaseDefView) -> Seq<char> {
    match def.gate {
        Some(command) => "  [gate: "@ + command + "]"@,
        None => Seq::empty(),
    }
}

/// A phase as a list shows it.
pub open spec fn phase_line(name: Seq<char>, def: PhaseDefView) -> Seq<char> {
    let model = match def.model {
        Some(m) => ":"@ + m,
        None => Seq::empty(),
    };
    let duty = if def.duty is Some && def.duty->0.len() > 0 {
        "  "@ + def.duty->0
    } else {
        Seq::empty()
    };
    name + model + duty + gate_suffix(def)
}

fn write_phase_line(name: &str, def: &PhaseDef) -> (r: String)
    ensures
        r@ == phase_line(name@, def@),
{
    let mut out = name.to_owned();
    match &def.model {
        Some(m) => {
            out.push_str(follow(":", m.as_str()).as_str());
        },
        None => {},
    }
    match &def.duty {
        Some(d) => {
            if d.as_str().unicode_len() > 0 {
                out.push_str(follow("  ", d.as_str()).as_str());
            }
        },
        None => {},
    }
    match &def.gate {
        Some(command) => {
            out.push_str(put_between("  [gate: ", command.as_str(), "]").as_str());
        },
        None => {},
    }
    proof {
        let model = match def@.model {
            Some(m) => ":"@ + m,
            None => Seq::empty(),
        };
        let duty = if def@.duty is Some && def@.duty->0.len() > 0 {
            "  "@ + def@.duty->0
        } else {
            Seq::empty()
        };
        assert(out@ =~= name@ + model + duty + gate_suffix(def@));
    }
    out
}

/// The phases of a configuration, a line for each.
pub open spec fn phase_list(phases: Seq<(Seq<char>, PhaseDefView)>) -> Seq<Seq<char>> {
    phases.map_values(|e: (Seq<char>, PhaseDefView)| phase_line(e.0, e.1))
}

/// Shows the phases of a project, a line for each.
pub fn run_phase_list(project: &Project, read: &ConfigRead) -> (r: Result<Vec<String>, PhaseGetError>)
    ensures
        outcome(r) == match project_config(project@, read@) {
            Err(e) => Err::<Seq<Seq<char>>, PhaseGetErrorView>(phase_get_error(e)),
            Ok(config) => Ok(phase_list(config.phases)),
        },
{
    let config = match load_config(project, read) {
        Err(e) => {
            return Err(map_get_config_error(e));
        },
        Ok(c) => c,
    };
    let ghost all = phase_list(config@.phases);
    let mut out: Vec<String> = Vec::new();
    let mut i: usize = 0;
    assert(out.deep_view() =~= all.take(0));
    while i < config.phases.len()
        invariant
            i <= config@.phases.len(),
            all == phase_list(config@.phases),
            out.deep_view() == all.take(i as int),
        decreases config@.phases.len() - i,
    {
        let ghost before = out.deep_view();
        out.push(write_phase_line(config.phases.key_at(i).as_str(), config.phases.value_at(i)));
        assert(out.deep_view() =~= before.push(all[i as int]));
        assert(all.take(i + 1) =~= all.take(i as int).push(all[i as int]));
        i = i + 1;
    }
    assert(all.take(i as int) =~= all);
    Ok(out)
}

/// A configuration is written where it can be used; the text is for the user.
pub open spec fn phase_written(project: ProjectView, config: ConfigView, said: Seq<char>) -> Result<
    (ConfigView, Seq<char>),
    PhaseUpdateErrorView,
> {
    match writable(config_path(project), config) {
        Err(e) => Err(phase_update_error(e)),
        Ok(_) => Ok((config, said)),
    }
}

fn write_phases(project: &Project, config: Config, said: String) -> (r: Result<
    (Config, String),
    PhaseUpdateError,
>)
    ensures
        outcome(r) == phase_written(project@, config@, said@),
{
    match write_project_config(config_file(project).as_str(), &config) {
        Err(e) => Err(map_update_config_error(e)),
        Ok(_) => Ok((config, said)),
    }
}

/// What adding a phase comes to.
pub open spec fn phase_added(
    project: ProjectView,
    read: ConfigReadView,
    name: Seq<char>,
    model: Option<Seq<char>>,
    duty: Option<Seq<char>>,
) -> Result<(ConfigView, Seq<char>), PhaseUpdateErrorView> {
    if reserved(name) {
        Err(PhaseUpdateErrorView::ReservedPhase { name })
    } else {
        match project_config(project, read) {
            Err(e) => Err(phase_update_error(e)),
            Ok(config) => if has_key(config.phases, name) {
                Err(PhaseUpdateErrorView::DuplicatePhase { name })
            } else {
                phase_written(
                    project,
                    ConfigView {
                        phases: put(
                            config.phases,
                            name,
                            PhaseDefView { model, duty, gate: None },
                        ),
                        ..config
                    },
                    "phase added: "@ + name,
                )
            },
        }
    }
}

/// A text that a caller gave, as one's own.
pub fn own_text(s: Option<&str>) -> (r: Option<String>)
    ensures
        r.deep_view() == s.deep_view(),
{
    match s {
        Some(x) => Some(x.to_owned()),
        None => None,
    }
}

/// Adds a phase to the configuration of a project.
pub fn run_phase_add(
    project: &Project,
    read: &ConfigRead,
    name: &str,
    model: Option<&str>,
    duty: Option<&str>,
) -> (r: Result<(Config, String), PhaseUpdateError>)
    ensures
        outcome(r) == phase_added(project@, read@, name@, model.deep_view(), duty.deep_view()),
{
    if is_reserved(name) {
        return Err(PhaseUpdateError::ReservedPhase { name: name.to_owned() });
    }
    let mut config = match load_config(project, read) {
        Err(e) => {
            return Err(map_update_config_error(e));
        },
        Ok(c) => c,
    };
    if config.phases.contains_key(name) {
        return Err(PhaseUpdateError::DuplicatePhase { name: name.to_owned() });
    }
    let def = PhaseDef { model: own_text(model), duty: own_text(duty), gate: None };
    config.phases.insert(name.to_owned(), def);
    write_phases(project, config, follow("phase added: ", name))
}

/// A setting of a phase: taken out, set, or left as it is.
pub open spec fn setting(
    before: Option<Seq<char>>,
    set: Option<Seq<char>>,
    clear: bool,
) -> Option<Seq<char>> {
    if clear {
        None
    } else if set is Some {
        set
    } else {
        before
    }
}

fn new_setting(before: &Option<String>, set: Option<&str>, clear: bool) -> (r: Option<String>)
    ensures
        r.deep_view() == setting(before.deep_view(), set.deep_view(), clear),
{
    if clear {
        None
    } else {
        match set {
            Some(x) => Some(x.to_owned()),
            None => before.duplicate(),
        }
    }
}

/// What changing a phase comes to.
pub open spec fn phase_updated(
    project: ProjectView,
    read: ConfigReadView,
    name: Seq<char>,
    set_model: Option<Seq<char>>,
    set_duty: Option<Seq<char>>,
    clear_model: bool,
    clear_duty: bool,
    set_gate: Option<Seq<char>>,
    clear_gate: bool,
) -> Result<(ConfigView, Seq<char>), PhaseUpdateErrorView> {
    if set_model is None && set_duty is None && !clear_model && !clear_duty && set_gate is None
        && !clear_gate {
        Err(PhaseUpdateErrorView::NoOperation)
    } else if (set_gate is Some || clear_gate) && reserved(name) {
        Err(PhaseUpdateErrorView::ReservedPhase { name })
    } else {
        match project_config(project, read) {
            Err(e) => Err(phase_update_error(e)),
            Ok(config) => match lookup(config.phases, name) {
                None => Err(PhaseUpdateErrorView::PhaseNotFound { name }),
                Some(def) => phase_written(
                    project,
                    ConfigView {
                        phases: put(
                            config.phases,
                            name,
                            PhaseDefView {
                                model: setting(def.model, set_model, clear_model),
                                duty: setting(def.duty, set_duty, clear_duty),
                                gate: setting(def.gate, set_gate, clear_gate),
                            },
                        ),
                        ..config
                    },
                    "phase updated: "@ + name,
                ),
            },
        }
    }
}

/// Changes a phase in the configuration of a project.
pub fn run_phase_update(
    project: &Project,
    read: &ConfigRead,
    name: &str,
    set_model: Option<&str>,
    set_duty: Option<&str>,
    clear_model: bool,
    clear_duty: bool,
    set_gate: Option<&str>,
    clear_gate: bool,
) -> (r: Result<(Config, String), PhaseUpdateError>)
    ensures
        outcome(r) == phase_updated(
            project@,
            read@,
            name@,
            set_model.deep_view(),
            set_duty.deep_view(),
            clear_model,
            clear_duty,
            set_gate.deep_view(),
            clear_gate,
        ),
{
    if set_model.is_none() && set_duty.is_none() && !clear_model && !clear_duty
        && set_gate.is_none() && !clear_gate {
        return Err(PhaseUpdateError::NoOperation);
    }
    if (set_gate.is_some() || clear_gate) && is_reserved(name) {
        return Err(PhaseUpdateError::ReservedPhase { name: name.to_owned() });
    }
    let mut config = match load_config(project, read) {
        Err(e) => {
            return Err(map_update_config_error(e));
        },
        Ok(c) => c,
    };
    let def: PhaseDef = match config.phases.get(name) {
        None => {
            return Err(PhaseUpdateError::PhaseNotFound { name: name.to_owned() });
        },
        Some(def) => PhaseDef {
            model: new_setting(&def.model, set_model, clear_model),
            duty: new_setting(&def.duty, set_duty, clear_duty),
            gate: new_setting(&def.gate, set_gate, clear_gate),
        },
    };
    config.phases.insert(name.to_owned(), def);
    write_phases(project, config, follow("phase updated: ", name))
}

/// The names of the workflows that have a phase.
pub open spec fn users_of(ws: Seq<(Seq<char>, Seq<Seq<char>>)>, phase: Seq<char>) -> Seq<Seq<char>>
    decreases ws.len(),
{
    if ws.len() == 0 {
        Seq::empty()
    } else if ws.last().1.contains(phase) {
        users_of(ws.drop_last(), phase).push(ws.last().0)
    } else {
        users_of(ws.drop_last(), phase)
    }
}

fn find_users(ws: &StringMap<Vec<String>>, phase: &str) -> (r: Vec<String>)
    ensures
        r.deep_view() == users_of(ws@, phase@),
{
    let ghost all = ws@;
    let mut out: Vec<String> = Vec::new();
    let mut i: usize = 0;
    assert(all.take(0) =~= Seq::<(Seq<char>, Seq<Seq<char>>)>::empty());
    assert(out.deep_view() =~= Seq::<Seq<char>>::empty());
    while i < ws.len()
        invariant
            i <= all.len(),
            all == ws@,
            out.deep_view() == users_of(all.take(i as int), phase@),
        decreases all.len() - i,
    {
        assert(all.take(i + 1).drop_last() =~= all.take(i as int));
        assert(all.take(i + 1).last() == all[i as int]);
        let ghost before = out.deep_view();
        if list_has(ws.value_at(i), phase) {
            out.push(ws.key_at(i).clone());
            assert(out.deep_view() =~= before.push(all[i as int].0));
        }
        i = i + 1;
    }
    assert(all.take(i as int) =~= all);
    out
}

/// What taking a phase out comes to.
pub open spec fn phase_removed(project: ProjectView, read: ConfigReadView, name: Seq<char>) -> Result<
    (ConfigView, Seq<char>),
    PhaseUpdateErrorView,
> {
    if reserved(name) {
        Err(PhaseUpdateErrorView::ReservedPhase { name })
    } else {
        match project_config(project, read) {
            Err(e) => Err(phase_update_error(e)),
            Ok(config) => if !has_key(config.phases, name) {
                Err(PhaseUpdateErrorView::PhaseNotFound { name })
            } else if users_of(config.workflows, name).len() > 0 {
                Err(
                    PhaseUpdateErrorView::PhaseReferenced {
                        name,
                        workflows: users_of(config.workflows, name),
                    },
                )
            } else {
                phase_written(
                    project,
                    ConfigView { phases: without(config.phases, name), ..config },
                    "phase removed: "@ + name,
                )
            },
        }
    }
}

/// Takes a phase out of the configuration of a project.
pub fn run_phase_remove(project: &Project, read: &ConfigRead, name: &str) -> (r: Result<
    (Config, String),
    PhaseUpdateError,
>)
    ensures
        outcome(r) == phase_removed(project@, read@, name@),
{
    if is_reserved(name) {
        return Err(PhaseUpdateError::ReservedPhase { name: name.to_owned() });
    }
    let mut config = match load_config(project, read) {
        Err(e) => {
            return Err(map_update_config_error(e));
        },
        Ok(c) => c,
    };
    if !config.phases.contains_key(name) {
        return Err(PhaseUpdateError::PhaseNotFound { name: name.to_owned() });
    }
    let workflows = find_users(&config.workflows, name);
    if workflows.len() > 0 {
        return Err(PhaseUpdateError::PhaseReferenced { name: name.to_owned(), workflows });
    }
    config.phases.remove(name);
    write_phases(project, config, follow("phase removed: ", name))
}

// ---------------------------------------------------------------------------------------------
// Laws
// ---------------------------------------------------------------------------------------------

/// The workflows that have a phase are named, and no others.
pub proof fn law_users_have_the_phase(ws: Seq<(Seq<char>, Seq<Seq<char>>)>, phase: Seq<char>)
    ensures
        (users_of(ws, phase).len() == 0) == (forall|i: int|
            0 <= i < ws.len() ==> !(#[trigger] ws[i]).1.contains(phase)),
    decreases ws.len(),
{
    if ws.len() > 0 {
        let rest = ws.drop_last();
        law_users_have_the_phase(rest, phase);
        assert(ws[ws.len() - 1] == ws.last());
        if forall|i: int| 0 <= i < rest.len() ==> !(#[trigger] rest[i]).1.contains(phase) {
            assert forall|i: int| 0 <= i < ws.len() - 1 implies !(#[trigger] ws[i]).1.contains(
                phase,
            ) by {
                assert(rest[i] == ws[i]);
            }
        } else {
            let k = choose|k: int| 0 <= k < rest.len() && (#[trigger] rest[k]).1.contains(phase);
            assert(ws[k] == rest[k]);
        }
    }
}

/// A phase that a workflow has is not taken out.
pub proof fn law_phase_of_workflow_stays(project: ProjectView, read: ConfigReadView, name: Seq<char>)
    ensures
        phase_removed(project, read, name) is Ok ==> {
            let config = project_config(project, read)->Ok_0;
            forall|i: int|
                0 <= i < config.workflows.len() ==> !(#[trigger] config.workflows[i]).1.contains(
                    name,
                )
        },
{
    if phase_removed(project, read, name) is Ok {
        law_users_have_the_phase(project_config(project, read)->Ok_0.workflows, name);
    }
}

/// Whatever is changed about the phases, a configuration is written only where it can be used, and
/// it has the workflows that it had.
pub proof fn law_phase_changes_keep_workflows(
    project: ProjectView,
    read: ConfigReadView,
    name: Seq<char>,
    model: Option<Seq<char>>,
    duty: Option<Seq<char>>,
    clear_model: bool,
    clear_duty: bool,
    gate: Option<Seq<char>>,
    clear_gate: bool,
)
    ensures
        phase_added(project, read, name, model, duty) matches Ok((c, _)) ==> c.valid()
            && c.workflows == project_config(project, read)->Ok_0.workflows,
        phase_updated(
            project,
            read,
            name,
            model,
            duty,
            clear_model,
            clear_duty,
            gate,
            clear_gate,
        ) matches Ok((c, _)) ==> c.valid() && c.workflows == project_config(
            project,
            read,
        )->Ok_0.workflows,
        phase_removed(project, read, name) matches Ok((c, _)) ==> c.valid() && c.workflows
            == project_config(project, read)->Ok_0.workflows,
{
    match phase_added(project, read, name, model, duty) {
        Ok((c, _)) => lemma_problem(c),
        Err(_) => {},
    }
    match phase_updated(
        project,
        read,
        name,
        model,
        duty,
        clear_model,
        clear_duty,
        gate,
        clear_gate,
    ) {
        Ok((c, _)) => lemma_problem(c),
        Err(_) => {},
    }
    match phase_removed(project, read, name) {
        Ok((c, _)) => lemma_problem(c),
        Err(_) => {},
    }
}

} // verus!
