//! Listing and changing the commands that are run when something happens.

use vstd::prelude::*;

use crate::commands::report::{load_config, project_config};
use crate::commands::workflow::put_between;
use crate::duplicate::{outcome, Duplicate};
use crate::engine::config::{
    Config, ConfigError, ConfigErrorView, ConfigRead, ConfigReadView, ConfigView,
};
use crate::engine::global_config::{list_has, TextRead, TextReadView};
use crate::engine::hooks::{
    event_hooks, save_hooks, save_hooks_preserving_toml, saved_hooks, saved_hooks_alone,
    ALL_TASKS_DONE_EVENT, HookConfig, HookConfigError, HookConfigErrorView, HookConfigView,
    HookEntry, HookEntryView, TASK_ADDED_EVENT,
};
use crate::engine::pick::as_str_opt;
use crate::engine::project::{Project, ProjectView};
use crate::rows::{choice, keep_chosen, rows_of, write_rows, Choice, RowWriter};
use crate::string_map::keys;
use crate::text::{
    blank, decimal, decimal_str, follow, has_space, is_blank, is_space, join, join_path, join_strs,
    keep, lemma_keep, lemma_keep_from, lemma_keep_has, lemma_keep_none, path_join, str_eq, to_chars,
};

verus! {

/// Whose commands are meant.
#[derive(Debug, Clone, Copy, PartialEq, Eq, Structural)]
pub enum HookScope {
    Project,
    Global,
}

impl HookScope {
    /// The name of the scope.
    pub open spec fn name(self) -> Seq<char> {
        match self {
            HookScope::Project => "project"@,
            HookScope::Global => "global"@,
        }
    }

    /// The scope that a flag asks for.
    pub open spec fn asked(global: bool) -> HookScope {
        if global {
            HookScope::Global
        } else {
            HookScope::Project
        }
    }

    /// The scope that a flag asks for.
    pub fn from_global(global: bool) -> (r: HookScope)
        ensures
            r == HookScope::asked(global),
    {
        if global {
            HookScope::Global
        } else {
            HookScope::Project
        }
    }

    /// The name of the scope.
    pub fn as_str(self) -> (r: &'static str)
        ensures
            r@ == self.name(),
    {
        match self {
            HookScope::Project => "project",
            HookScope::Global => "global",
        }
    }
}

/// Why commands could not be changed.
#[derive(Debug, PartialEq, Eq)]
pub enum HookError {
    InvalidEventName,
    UnknownEvent { event: String, valid_events: Vec<String> },
    EmptyCommand,
    HookNotFound { scope: HookScope, event: String },
    ConfigNotFound { path: String },
    ConfigRead { path: String, message: String },
    ConfigLoad { path: String, message: String },
    InvalidConfig { path: String, reason: String },
    Hooks(HookConfigError),
    Delete { path: String, message: String },
}

/// The contents of a `HookError`.
#[verifier::ext_equal]
pub enum HookErrorView {
    InvalidEventName,
    UnknownEvent { event: Seq<char>, valid_events: Seq<Seq<char>> },
    EmptyCommand,
    HookNotFound { scope: HookScope, event: Seq<char> },
    ConfigNotFound { path: Seq<char> },
    ConfigRead { path: Seq<char>, message: Seq<char> },
    ConfigLoad { path: Seq<char>, message: Seq<char> },
    InvalidConfig { path: Seq<char>, reason: Seq<char> },
    Hooks(HookConfigErrorView),
    Delete { path: Seq<char>, message: Seq<char> },
}

impl View for HookError {
    type V = HookErrorView;

    open spec fn view(&self) -> HookErrorView {
        match self {
            HookError::InvalidEventName => HookErrorView::InvalidEventName,
            HookError::UnknownEvent { event, valid_events } => HookErrorView::UnknownEvent { event: event@, valid_events: valid_events.deep_view() },
            HookError::EmptyCommand => HookErrorView::EmptyCommand,
            HookError::HookNotFound { scope, event } => HookErrorView::HookNotFound { scope: *scope, event: event@ },
            HookError::ConfigNotFound { path } => HookErrorView::ConfigNotFound { path: path@ },
            HookError::ConfigRead { path, message } => HookErrorView::ConfigRead { path: path@, message: message@ },
            HookError::ConfigLoad { path, message } => HookErrorView::ConfigLoad { path: path@, message: message@ },
            HookError::InvalidConfig { path, reason } => HookErrorView::InvalidConfig { path: path@, reason: reason@ },
            HookError::Hooks(inner) => HookErrorView::Hooks(inner@),
            HookError::Delete { path, message } => HookErrorView::Delete { path: path@, message: message@ },
        }
    }
}

impl DeepView for HookError {
    type V = HookErrorView;

    open spec fn deep_view(&self) -> HookErrorView {
        self@
    }
}

impl Duplicate for HookError {
    fn duplicate(&self) -> (r: Self) {
        match self {
            HookError::InvalidEventName => HookError::InvalidEventName,
            HookError::UnknownEvent { event, valid_events } => HookError::UnknownEvent { event: event.duplicate(), valid_events: valid_events.duplicate() },
            HookError::EmptyCommand => HookError::EmptyCommand,
            HookError::HookNotFound { scope, event } => HookError::HookNotFound { scope: *scope, event: event.duplicate() },
            HookError::ConfigNotFound { path } => HookError::ConfigNotFound { path: path.duplicate() },
            HookError::ConfigRead { path, message } => HookError::ConfigRead { path: path.duplicate(), message: message.duplicate() },
            HookError::ConfigLoad { path, message } => HookError::ConfigLoad { path: path.duplicate(), message: message.duplicate() },
            HookError::InvalidConfig { path, reason } => HookError::InvalidConfig { path: path.duplicate(), reason: reason.duplicate() },
            HookError::Hooks(inner) => HookError::Hooks(inner.duplicate()),
            HookError::Delete { path, message } => HookError::Delete { path: path.duplicate(), message: message.duplicate() },
        }
    }
}

impl Clone for HookError {
    fn clone(&self) -> (r: Self)
        ensures
            r@ == self@,
    {
        self.duplicate()
    }
}

impl HookErrorView {
    /// The text shown for the error.
    pub open spec fn message(self) -> Seq<char> {
        match self {
            HookErrorView::InvalidEventName => "invalid hook event: event cannot be empty or contain whitespace"@,
            HookErrorView::UnknownEvent { event, valid_events } => "unknown hook event: "@ + event + "; valid events: "@ + join(valid_events, ", "@),
            HookErrorView::EmptyCommand => "hook command cannot be empty"@,
            HookErrorView::HookNotFound { scope, event } => "no "@ + scope.name() + " hook configured for "@ + event,
            HookErrorView::ConfigNotFound { path } => "config file not found: "@ + path,
            HookErrorView::ConfigRead { path, .. } => "failed to read "@ + path,
            HookErrorView::ConfigLoad { path, message } => "failed to load config "@ + path + ": "@ + message,
            HookErrorView::InvalidConfig { path, reason } => "invalid config "@ + path + ": "@ + reason,
            HookErrorView::Hooks(inner) => inner.message(),
            HookErrorView::Delete { path, .. } => "failed to delete "@ + path,
        }
    }
}

impl HookError {
    /// The text shown for the error.
    pub fn message(&self) -> (r: String)
        ensures
            r@ == self@.message(),
    {
        match self {
            HookError::InvalidEventName => "invalid hook event: event cannot be empty or contain whitespace".to_owned(),
            HookError::UnknownEvent { event, valid_events } => {
                let mut out = "unknown hook event: ".to_owned();
                out.push_str(event.as_str());
                out.push_str("; valid events: ");
                out.push_str(join_strs(valid_events, ", ").as_str());
                out
            },
            HookError::EmptyCommand => "hook command cannot be empty".to_owned(),
            HookError::HookNotFound { scope, event } => {
                let mut out = "no ".to_owned();
                out.push_str(scope.as_str());
                out.push_str(" hook configured for ");
                out.push_str(event.as_str());
                out
            },
            HookError::ConfigNotFound { path } => {
                let mut out = "config file not found: ".to_owned();
                out.push_str(path.as_str());
                out
            },
            HookError::ConfigRead { path, .. } => {
                let mut out = "failed to read ".to_owned();
                out.push_str(path.as_str());
                out
            },
            HookError::ConfigLoad { path, message } => {
                let mut out = "failed to load config ".to_owned();
                out.push_str(path.as_str());
                out.push_str(": ");
                out.push_str(message.as_str());
                out
            },
            HookError::InvalidConfig { path, reason } => {
                let mut out = "invalid config ".to_owned();
                out.push_str(path.as_str());
                out.push_str(": ");
                out.push_str(reason.as_str());
                out
            },
            HookError::Hooks(inner) => inner.message(),
            HookError::Delete { path, .. } => {
                let mut out = "failed to delete ".to_owned();
                out.push_str(path.as_str());
                out
            },
        }
    }
}


/// What was found about commands.
#[derive(Debug, PartialEq, Eq)]
pub struct HookFiles {
    pub config: ConfigRead,
    /// The directory that holds the directory of the project, where there is one.
    pub parent: Option<String>,
    /// The settings of the user.
    pub settings: TextRead,
}

/// The contents of a `HookFiles`.
#[verifier::ext_equal]
pub struct HookFilesView {
    pub config: ConfigReadView,
    pub parent: Option<Seq<char>>,
    pub settings: TextReadView,
}

impl View for HookFiles {
    type V = HookFilesView;

    open spec fn view(&self) -> HookFilesView {
        HookFilesView {
            config: self.config@,
            parent: self.parent.deep_view(),
            settings: self.settings@,
        }
    }
}

impl DeepView for HookFiles {
    type V = HookFilesView;

    open spec fn deep_view(&self) -> HookFilesView {
        self@
    }
}

impl Duplicate for HookFiles {
    fn duplicate(&self) -> (r: Self) {
        HookFiles {
            config: self.config.duplicate(),
            parent: self.parent.duplicate(),
            settings: self.settings.duplicate(),
        }
    }
}

impl Clone for HookFiles {
    fn clone(&self) -> (r: Self)
        ensures
            r@ == self@,
    {
        self.duplicate()
    }
}


/// A change of a file of commands.
#[derive(Debug, PartialEq, Eq)]
pub enum HookFileChange {
    Write { path: String, text: String },
    /// The file is deleted where it is there.
    Delete { path: String },
}

/// The contents of a `HookFileChange`.
#[verifier::ext_equal]
pub enum HookFileChangeView {
    Write { path: Seq<char>, text: Seq<char> },
    Delete { path: Seq<char> },
}

impl View for HookFileChange {
    type V = HookFileChangeView;

    open spec fn view(&self) -> HookFileChangeView {
        match self {
            HookFileChange::Write { path, text } => HookFileChangeView::Write { path: path@, text: text@ },
            HookFileChange::Delete { path } => HookFileChangeView::Delete { path: path@ },
        }
    }
}

impl DeepView for HookFileChange {
    type V = HookFileChangeView;

    open spec fn deep_view(&self) -> HookFileChangeView {
        self@
    }
}

impl Duplicate for HookFileChange {
    fn duplicate(&self) -> (r: Self) {
        match self {
            HookFileChange::Write { path, text } => HookFileChange::Write { path: path.duplicate(), text: text.duplicate() },
            HookFileChange::Delete { path } => HookFileChange::Delete { path: path.duplicate() },
        }
    }
}

impl Clone for HookFileChange {
    fn clone(&self) -> (r: Self)
        ensures
            r@ == self@,
    {
        self.duplicate()
    }
}


/// What changing commands leaves to be done.
#[derive(Debug, PartialEq, Eq)]
pub struct HookReport {
    pub change: Option<HookFileChange>,
    /// What to tell the user.
    pub output: Option<String>,
}

/// The contents of a `HookReport`.
#[verifier::ext_equal]
pub struct HookReportView {
    pub change: Option<HookFileChangeView>,
    pub output: Option<Seq<char>>,
}

impl View for HookReport {
    type V = HookReportView;

    open spec fn view(&self) -> HookReportView {
        HookReportView {
            change: self.change.deep_view(),
            output: self.output.deep_view(),
        }
    }
}

impl DeepView for HookReport {
    type V = HookReportView;

    open spec fn deep_view(&self) -> HookReportView {
        self@
    }
}

impl Duplicate for HookReport {
    fn duplicate(&self) -> (r: Self) {
        HookReport {
            change: self.change.duplicate(),
            output: self.output.duplicate(),
        }
    }
}

impl Clone for HookReport {
    fn clone(&self) -> (r: Self)
        ensures
            r@ == self@,
    {
        self.duplicate()
    }
}


/// Nothing is changed.
pub open spec fn unchanged() -> HookReportView {
    HookReportView { change: None, output: None }
}

fn nothing_changed() -> (r: HookReport)
    ensures
        r@ == unchanged(),
{
    HookReport { change: None, output: None }
}

// ---------------------------------------------------------------------------------------------
// Listing
// ---------------------------------------------------------------------------------------------

/// How a command is listed.
pub struct HookRow;

impl RowWriter<HookEntry, String> for HookRow {
    open spec fn row(h: HookEntryView, source: Seq<char>) -> Seq<char> {
        source + "  "@ + h.on + "  "@ + h.run + "\n"@
    }

    fn write(hook: &HookEntry, source: &String) -> (r: String) {
        let mut out = source.clone();
        out.push_str("  ");
        out.push_str(hook.on.as_str());
        out.push_str("  ");
        out.push_str(hook.run.as_str());
        out.push_str("\n");
        out
    }
}

/// The rows about some commands.
pub open spec fn hook_rows(source: Seq<char>, config: HookConfigView) -> Seq<char> {
    join(rows_of::<HookEntry, String, HookRow>(config.hooks, source), ""@)
}

/// Appends the rows about some commands.
pub fn append_hook_rows(output: &mut String, source: &str, config: &HookConfig)
    ensures
        final(output)@ == old(output)@ + hook_rows(source@, config@),
{
    let rows = write_rows::<HookEntry, String, HookRow>(config.hooks.as_slice(), &source.to_owned());
    output.push_str(join_strs(&rows, "").as_str());
}

/// The list of the commands of a user and a project.
pub open spec fn hook_list(project: ProjectView) -> Seq<char> {
    if project.global_hooks.hooks.len() == 0 && project.project_hooks.hooks.len() == 0 {
        "no hooks configured\n"@
    } else {
        "source  event  command\n"@ + hook_rows("global"@, project.global_hooks) + hook_rows(
            "project"@,
            project.project_hooks,
        )
    }
}

/// The list of the commands of a user and a project.
pub fn format_hook_list(project: &Project) -> (r: String)
    ensures
        r@ == hook_list(project@),
{
    assert(project@.global_hooks.hooks.len() == project.global_hooks.hooks.len());
    assert(project@.project_hooks.hooks.len() == project.project_hooks.hooks.len());
    if project.global_hooks.hooks.len() == 0 && project.project_hooks.hooks.len() == 0 {
        return "no hooks configured\n".to_owned();
    }
    let mut output = "source  event  command\n".to_owned();
    append_hook_rows(&mut output, "global", &project.global_hooks);
    append_hook_rows(&mut output, "project", &project.project_hooks);
    output
}

/// What is printed to list the commands of a user and a project.
pub fn run_hook_list(project: &Project) -> (r: Result<String, HookError>)
    ensures
        outcome(r) == Ok::<Seq<char>, HookErrorView>(hook_list(project@)),
{
    Ok(format_hook_list(project))
}

// ---------------------------------------------------------------------------------------------
// Commands given as words
// ---------------------------------------------------------------------------------------------

/// Some character is white space.
pub open spec fn spaced(s: Seq<char>) -> bool {
    exists|i: int| 0 <= i < s.len() && is_space(#[trigger] s[i])
}

/// A text with a backslash in front of each quotation mark, backslash and backquote.
pub open spec fn escaped(s: Seq<char>) -> Seq<char>
    decreases s.len(),
{
    if s.len() == 0 {
        Seq::empty()
    } else {
        let rest = escaped(s.drop_last());
        let c = s.last();
        if c == '"' || c == '\\' || c == '`' {
            rest.push('\\').push(c)
        } else {
            rest.push(c)
        }
    }
}

/// A word of a command: in quotation marks where it is empty or holds white space.
pub open spec fn command_word(part: Seq<char>) -> Seq<char> {
    if part.len() > 0 && !spaced(part) {
        part
    } else {
        "\""@ + escaped(part) + "\""@
    }
}

/// A word of a command.
pub fn shell_word(part: &str) -> (r: String)
    ensures
        r@ == command_word(part@),
{
    if part.unicode_len() > 0 && !has_space(part) {
        return part.to_owned();
    }
    let x: Vec<char> = to_chars(part);
    let mut body = String::new();
    let mut i: usize = 0;
    assert(part@.take(0) =~= Seq::<char>::empty());
    while i < x.len()
        invariant
            i <= x.len(),
            x@ == part@,
            body@ == escaped(part@.take(i as int)),
        decreases x.len() - i,
    {
        assert(part@.take(i + 1).drop_last() =~= part@.take(i as int));
        if x[i] == '"' || x[i] == '\\' || x[i] == '`' {
            body.push('\\');
        }
        body.push(x[i]);
        i = i + 1;
    }
    assert(part@.take(i as int) =~= part@);
    put_between("\"", body.as_str(), "\"")
}

/// How a word of a command is written.
pub struct CommandWord;

impl RowWriter<String, ()> for CommandWord {
    open spec fn row(part: Seq<char>, context: ()) -> Seq<char> {
        command_word(part)
    }

    fn write(part: &String, context: &()) -> (r: String) {
        shell_word(part.as_str())
    }
}

/// The command that some words make; a single word is a command as it is.
pub open spec fn command_of(parts: Seq<Seq<char>>) -> Seq<char> {
    if parts.len() == 1 {
        parts[0]
    } else {
        join(rows_of::<String, (), CommandWord>(parts, ()), " "@)
    }
}

/// The command that some words make.
pub fn command_from_parts(command_parts: &[String]) -> (r: String)
    ensures
        r@ == command_of(command_parts.deep_view()),
{
    if command_parts.len() == 1 {
        assert(command_parts.deep_view()[0] == command_parts@[0]@);
        return command_parts[0].clone();
    }
    join_strs(&write_rows::<String, (), CommandWord>(command_parts, &()), " ")
}

// ---------------------------------------------------------------------------------------------
// Events
// ---------------------------------------------------------------------------------------------

/// The error for a configuration that could not be used.
pub open spec fn hook_config_error(e: ConfigErrorView) -> HookErrorView {
    match e {
        ConfigErrorView::NotFound { path } => HookErrorView::ConfigNotFound { path },
        ConfigErrorView::Read { path, message } => HookErrorView::ConfigRead { path, message },
        ConfigErrorView::Parse { path, message } => HookErrorView::ConfigLoad { path, message },
        ConfigErrorView::Invalid { path, reason } => HookErrorView::InvalidConfig { path, reason },
    }
}

fn map_hook_config_error(error: ConfigError) -> (r: HookError)
    ensures
        r@ == hook_config_error(error@),
{
    match error {
        ConfigError::NotFound { path } => HookError::ConfigNotFound { path },
        ConfigError::Read { path, message } => HookError::ConfigRead { path, message },
        ConfigError::Parse { path, message } => HookError::ConfigLoad { path, message },
        ConfigError::Invalid { path, reason } => HookError::InvalidConfig { path, reason },
    }
}

/// What a command can be run for.
pub open spec fn hook_events(config: ConfigView) -> Seq<Seq<char>> {
    seq!["*"@, TASK_ADDED_EVENT@, ALL_TASKS_DONE_EVENT@, "failed"@] + keys(config.phases)
}

/// What a command can be run for.
pub fn valid_hook_events(config: &Config) -> (r: Vec<String>)
    ensures
        r.deep_view() == hook_events(config@),
{
    let mut out: Vec<String> = Vec::new();
    out.push("*".to_owned());
    out.push(TASK_ADDED_EVENT.to_owned());
    out.push(ALL_TASKS_DONE_EVENT.to_owned());
    out.push("failed".to_owned());
    let ghost first = out.deep_view();
    let mut names = config.phases.key_list();
    let ghost rest = names.deep_view();
    out.append(&mut names);
    assert(out.deep_view() =~= first + rest);
    assert(first =~= seq!["*"@, TASK_ADDED_EVENT@, ALL_TASKS_DONE_EVENT@, "failed"@]);
    out
}

/// Whether a command can be run for an event in a project.
pub open spec fn event_check(project: ProjectView, read: ConfigReadView, event: Seq<char>) -> Result<
    (),
    HookErrorView,
> {
    if event.len() == 0 || spaced(event) {
        Err(HookErrorView::InvalidEventName)
    } else {
        match project_config(project, read) {
            Err(e) => Err(hook_config_error(e)),
            Ok(config) => if hook_events(config).contains(event) {
                Ok(())
            } else {
                Err(HookErrorView::UnknownEvent { event, valid_events: hook_events(config) })
            },
        }
    }
}

/// Whether a command can be run for an event in a project.
pub fn validate_event(project: &Project, read: &ConfigRead, event: &str) -> (r: Result<(), HookError>)
    ensures
        outcome(r) == event_check(project@, read@, event@),
{
    if event.unicode_len() == 0 || has_space(event) {
        return Err(HookError::InvalidEventName);
    }
    match load_config(project, read) {
        Err(e) => Err(map_hook_config_error(e)),
        Ok(config) => {
            let valid_events = valid_hook_events(&config);
            if list_has(&valid_events, event) {
                Ok(())
            } else {
                Err(HookError::UnknownEvent { event: event.to_owned(), valid_events })
            }
        },
    }
}

// ---------------------------------------------------------------------------------------------
// Files
// ---------------------------------------------------------------------------------------------

/// The commands in a scope.
pub open spec fn hooks_in(project: ProjectView, scope: HookScope) -> HookConfigView {
    match scope {
        HookScope::Project => project.project_hooks,
        HookScope::Global => project.global_hooks,
    }
}

fn scoped_hooks(project: &Project, scope: HookScope) -> (r: HookConfig)
    ensures
        r@ == hooks_in(project@, scope),
{
    match scope {
        HookScope::Project => project.project_hooks.duplicate(),
        HookScope::Global => project.global_hooks.duplicate(),
    }
}

/// The file that holds the commands in a scope: one of their own for a project, and the settings for
/// a user.
pub open spec fn hooks_path(project: ProjectView, parent: Option<Seq<char>>, scope: HookScope) -> Seq<char> {
    match scope {
        HookScope::Project => path_join(project.state_dir, "hooks.toml"@),
        HookScope::Global => match parent {
            Some(directory) => path_join(directory, "config.toml"@),
            None => path_join(project.state_dir, "config.toml"@),
        },
    }
}

/// The file that holds the commands in a scope.
pub fn scoped_hooks_path(project: &Project, parent: Option<&str>, scope: HookScope) -> (r: String)
    ensures
        r@ == hooks_path(project@, parent.deep_view(), scope),
{
    match scope {
        HookScope::Project => join_path(project.state_dir.as_str(), "hooks.toml"),
        HookScope::Global => match parent {
            Some(directory) => join_path(directory, "config.toml"),
            None => join_path(project.state_dir.as_str(), "config.toml"),
        },
    }
}

/// The text of the file of commands in a scope once they are saved.
pub open spec fn scope_saved(
    path: Seq<char>,
    settings: TextReadView,
    hooks: HookConfigView,
    scope: HookScope,
) -> Result<Seq<char>, HookErrorView> {
    let text = match scope {
        HookScope::Project => saved_hooks_alone(path, hooks),
        HookScope::Global => saved_hooks(path, settings, hooks),
    };
    match text {
        Ok(s) => Ok(s),
        Err(e) => Err(HookErrorView::Hooks(e)),
    }
}

/// The text of the file of commands in a scope once they are saved.
pub fn save_scoped_hooks(path: &str, settings: &TextRead, hooks: &HookConfig, scope: HookScope) -> (r:
    Result<String, HookError>)
    ensures
        outcome(r) == scope_saved(path@, settings@, hooks@, scope),
{
    let text = match scope {
        HookScope::Project => save_hooks(path, hooks),
        HookScope::Global => save_hooks_preserving_toml(path, settings.duplicate(), hooks),
    };
    match text {
        Ok(s) => Ok(s),
        Err(e) => Err(HookError::Hooks(e)),
    }
}

/// What saving commands and telling the user leaves to be done.
pub open spec fn saving(
    project: ProjectView,
    seen: HookFilesView,
    hooks: HookConfigView,
    scope: HookScope,
    line: Seq<char>,
) -> (HookReportView, Result<(), HookErrorView>) {
    let path = hooks_path(project, seen.parent, scope);
    match scope_saved(path, seen.settings, hooks, scope) {
        Err(e) => (unchanged(), Err(e)),
        Ok(text) => (
            HookReportView {
                change: Some(HookFileChangeView::Write { path, text }),
                output: Some(line),
            },
            Ok(()),
        ),
    }
}

fn save_and_say(project: &Project, seen: &HookFiles, hooks: &HookConfig, scope: HookScope, line: String) -> (r: (
    HookReport,
    Result<(), HookError>,
))
    ensures
        (r.0@, outcome(r.1)) == saving(project@, seen@, hooks@, scope, line@),
{
    let path = scoped_hooks_path(project, as_str_opt(&seen.parent), scope);
    match save_scoped_hooks(path.as_str(), &seen.settings, hooks, scope) {
        Err(e) => (nothing_changed(), Err(e)),
        Ok(text) => (
            HookReport { change: Some(HookFileChange::Write { path, text }), output: Some(line) },
            Ok(()),
        ),
    }
}

// ---------------------------------------------------------------------------------------------
// Changing
// ---------------------------------------------------------------------------------------------

/// The name of a scope in a sentence: that of a project is not said.
pub open spec fn scope_said(scope: HookScope) -> Seq<char> {
    match scope {
        HookScope::Project => " "@,
        HookScope::Global => " global "@,
    }
}

fn say_scope(scope: HookScope) -> (r: &'static str)
    ensures
        r@ == scope_said(scope),
{
    match scope {
        HookScope::Project => " ",
        HookScope::Global => " global ",
    }
}

/// What adding a command leaves to be done.
pub open spec fn hook_added(
    project: ProjectView,
    seen: HookFilesView,
    event: Seq<char>,
    parts: Seq<Seq<char>>,
    global: bool,
) -> (HookReportView, Result<(), HookErrorView>) {
    let scope = HookScope::asked(global);
    let command = command_of(parts);
    match event_check(project, seen.config, event) {
        Err(e) => (unchanged(), Err(e)),
        Ok(_) => if blank(command) {
            (unchanged(), Err(HookErrorView::EmptyCommand))
        } else {
            saving(
                project,
                seen,
                with_hook(hooks_in(project, scope), event, command),
                scope,
                "added"@ + scope_said(scope) + "hook "@ + event + ": "@ + command,
            )
        },
    }
}

/// Commands with one more.
pub open spec fn with_hook(config: HookConfigView, event: Seq<char>, command: Seq<char>) -> HookConfigView {
    HookConfigView { hooks: config.hooks.push(HookEntryView { on: event, run: command }) }
}

/// Adds a command.
pub fn run_hook_add(
    project: &Project,
    seen: &HookFiles,
    event: &str,
    command_parts: &[String],
    global: bool,
) -> (r: (HookReport, Result<(), HookError>))
    ensures
        (r.0@, outcome(r.1)) == hook_added(
            project@,
            seen@,
            event@,
            command_parts.deep_view(),
            global,
        ),
{
    match validate_event(project, &seen.config, event) {
        Err(e) => {
            return (nothing_changed(), Err(e));
        },
        Ok(_) => {},
    }
    let command = command_from_parts(command_parts);
    if is_blank(command.as_str()) {
        return (nothing_changed(), Err(HookError::EmptyCommand));
    }
    let scope = HookScope::from_global(global);
    let mut line = follow("added", say_scope(scope));
    line.push_str("hook ");
    line.push_str(event);
    line.push_str(": ");
    line.push_str(command.as_str());
    let mut hooks = scoped_hooks(project, scope);
    let ghost before = hooks@;
    hooks.hooks.push(HookEntry { on: event.to_owned(), run: command });
    assert(hooks@ =~= with_hook(before, event@, command@));
    save_and_say(project, seen, &hooks, scope, line)
}

/// Commands for an event.
pub struct OnEvent;

impl Choice<HookEntry, String> for OnEvent {
    open spec fn holds(h: HookEntryView, event: Seq<char>) -> bool {
        h.on == event
    }

    fn check(hook: &HookEntry, event: &String) -> (r: bool) {
        str_eq(hook.on.as_str(), event.as_str())
    }
}

/// Commands for other events.
pub struct OnOther;

impl Choice<HookEntry, String> for OnOther {
    open spec fn holds(h: HookEntryView, event: Seq<char>) -> bool {
        h.on != event
    }

    fn check(hook: &HookEntry, event: &String) -> (r: bool) {
        !str_eq(hook.on.as_str(), event.as_str())
    }
}

/// Commands without those for an event.
pub open spec fn without_hooks(config: HookConfigView, event: Seq<char>) -> HookConfigView {
    HookConfigView { hooks: keep(config.hooks, choice::<HookEntry, String, OnOther>(event)) }
}

/// The number of commands for an event.
pub open spec fn hook_count(config: HookConfigView, event: Seq<char>) -> nat {
    keep(config.hooks, choice::<HookEntry, String, OnEvent>(event)).len()
}

fn count_hooks(config: &HookConfig, event: &str) -> (r: usize)
    ensures
        r == hook_count(config@, event@),
{
    let found = keep_chosen::<HookEntry, String, OnEvent>(
        config.hooks.as_slice(),
        &event.to_owned(),
    );
    assert(found.deep_view().len() == found.len());
    found.len()
}

/// What removing the commands for an event leaves to be done.
pub open spec fn hooks_removed(project: ProjectView, seen: HookFilesView, event: Seq<char>, global: bool) -> (
    HookReportView,
    Result<(), HookErrorView>,
) {
    let scope = HookScope::asked(global);
    let before = hooks_in(project, scope);
    let after = without_hooks(before, event);
    let line = "removed "@ + decimal(hook_count(before, event)) + scope_said(scope)
        + "hook(s) for "@ + event;
    match event_check(project, seen.config, event) {
        Err(e) => (unchanged(), Err(e)),
        Ok(_) => if hook_count(before, event) == 0 {
            (unchanged(), Err(HookErrorView::HookNotFound { scope, event }))
        } else if after.hooks.len() == 0 && scope == HookScope::Project {
            (
                HookReportView {
                    change: Some(
                        HookFileChangeView::Delete {
                            path: hooks_path(project, seen.parent, scope),
                        },
                    ),
                    output: Some(line),
                },
                Ok(()),
            )
        } else {
            saving(project, seen, after, scope, line)
        },
    }
}

/// Removes the commands for an event.
pub fn run_hook_remove(project: &Project, seen: &HookFiles, event: &str, global: bool) -> (r: (
    HookReport,
    Result<(), HookError>,
))
    ensures
        (r.0@, outcome(r.1)) == hooks_removed(project@, seen@, event@, global),
{
    match validate_event(project, &seen.config, event) {
        Err(e) => {
            return (nothing_changed(), Err(e));
        },
        Ok(_) => {},
    }
    let scope = HookScope::from_global(global);
    let before = scoped_hooks(project, scope);
    let removed: usize = count_hooks(&before, event);
    if removed == 0 {
        return (
            nothing_changed(),
            Err(HookError::HookNotFound { scope, event: event.to_owned() }),
        );
    }
    let after = HookConfig {
        hooks: keep_chosen::<HookEntry, String, OnOther>(
            before.hooks.as_slice(),
            &event.to_owned(),
        ),
    };
    assert(after@ =~= without_hooks(before@, event@));
    assert(after@.hooks.len() == after.hooks.len());
    let mut line = follow("removed ", decimal_str(removed as u64).as_str());
    line.push_str(say_scope(scope));
    line.push_str("hook(s) for ");
    line.push_str(event);
    if after.hooks.len() == 0 && scope == HookScope::Project {
        let path = scoped_hooks_path(project, as_str_opt(&seen.parent), scope);
        return (
            HookReport { change: Some(HookFileChange::Delete { path }), output: Some(line) },
            Ok(()),
        );
    }
    save_and_say(project, seen, &after, scope, line)
}

/// A command, with another one in its place where it is for an event.
pub open spec fn hook_replaced(h: HookEntryView, event: Seq<char>, command: Seq<char>) -> HookEntryView {
    if h.on == event {
        HookEntryView { run: command, ..h }
    } else {
        h
    }
}

/// Commands, with another one in place of each one for an event.
pub open spec fn with_command(config: HookConfigView, event: Seq<char>, command: Seq<char>) -> HookConfigView {
    HookConfigView {
        hooks: config.hooks.map_values(|h: HookEntryView| hook_replaced(h, event, command)),
    }
}

fn replace_hooks(config: &HookConfig, event: &str, command: &str) -> (r: HookConfig)
    ensures
        r@ == with_command(config@, event@, command@),
{
    let ghost all = with_command(config@, event@, command@).hooks;
    let mut hooks: Vec<HookEntry> = Vec::new();
    let mut i: usize = 0;
    assert(hooks.deep_view() =~= all.take(0));
    while i < config.hooks.len()
        invariant
            i <= config.hooks.len(),
            all == with_command(config@, event@, command@).hooks,
            hooks.deep_view() == all.take(i as int),
        decreases config.hooks.len() - i,
    {
        let ghost before = hooks.deep_view();
        let hook = &config.hooks[i];
        assert(config@.hooks[i as int] == hook@);
        hooks.push(
            HookEntry {
                on: hook.on.clone(),
                run: if str_eq(hook.on.as_str(), event) {
                    command.to_owned()
                } else {
                    hook.run.clone()
                },
            },
        );
        assert(hooks.deep_view() =~= before.push(all[i as int]));
        assert(all.take(i + 1) =~= all.take(i as int).push(all[i as int]));
        i = i + 1;
    }
    assert(all.take(i as int) =~= all);
    HookConfig { hooks }
}

/// What changing the commands for an event leaves to be done.
pub open spec fn hooks_updated(
    project: ProjectView,
    seen: HookFilesView,
    event: Seq<char>,
    parts: Seq<Seq<char>>,
    global: bool,
) -> (HookReportView, Result<(), HookErrorView>) {
    let scope = HookScope::asked(global);
    let command = command_of(parts);
    let before = hooks_in(project, scope);
    match event_check(project, seen.config, event) {
        Err(e) => (unchanged(), Err(e)),
        Ok(_) => if blank(command) {
            (unchanged(), Err(HookErrorView::EmptyCommand))
        } else if hook_count(before, event) == 0 {
            (unchanged(), Err(HookErrorView::HookNotFound { scope, event }))
        } else {
            saving(
                project,
                seen,
                with_command(before, event, command),
                scope,
                "updated "@ + decimal(hook_count(before, event)) + scope_said(scope)
                    + "hook(s) for "@ + event + ": "@ + command,
            )
        },
    }
}

/// Changes the commands for an event.
pub fn run_hook_update(
    project: &Project,
    seen: &HookFiles,
    event: &str,
    command_parts: &[String],
    global: bool,
) -> (r: (HookReport, Result<(), HookError>))
    ensures
        (r.0@, outcome(r.1)) == hooks_updated(
            project@,
            seen@,
            event@,
            command_parts.deep_view(),
            global,
        ),
{
    match validate_event(project, &seen.config, event) {
        Err(e) => {
            return (nothing_changed(), Err(e));
        },
        Ok(_) => {},
    }
    let command = command_from_parts(command_parts);
    if is_blank(command.as_str()) {
        return (nothing_changed(), Err(HookError::EmptyCommand));
    }
    let scope = HookScope::from_global(global);
    let before = scoped_hooks(project, scope);
    let updated: usize = count_hooks(&before, event);
    if updated == 0 {
        return (
            nothing_changed(),
            Err(HookError::HookNotFound { scope, event: event.to_owned() }),
        );
    }
    let hooks = replace_hooks(&before, event, command.as_str());
    let mut line = follow("updated ", decimal_str(updated as u64).as_str());
    line.push_str(say_scope(scope));
    line.push_str("hook(s) for ");
    line.push_str(event);
    line.push_str(": ");
    line.push_str(command.as_str());
    save_and_say(project, seen, &hooks, scope, line)
}

// ---------------------------------------------------------------------------------------------
// Laws
// ---------------------------------------------------------------------------------------------

/// A command that was added is run for its event, after all commands that were there.
pub proof fn law_added_hook_is_run(global: HookConfigView, project: HookConfigView, event: Seq<char>, command: Seq<char>)
    ensures
        event_hooks(global, with_hook(project, event, command), event) == event_hooks(
            global,
            project,
            event,
        ).push(HookEntryView { on: event, run: command }),
{
    let entry = HookEntryView { on: event, run: command };
    assert(project.hooks.push(entry).drop_last() =~= project.hooks);
    assert(event_hooks(global, with_hook(project, event, command), event) =~= event_hooks(
        global,
        project,
        event,
    ).push(entry));
}

/// Once the commands for an event are removed there is none for it, and those for other events are
/// there as before.
pub proof fn law_removed_hooks_are_gone(config: HookConfigView, event: Seq<char>)
    ensures
        hook_count(without_hooks(config, event), event) == 0,
        forall|h: HookEntryView|
            h.on != event ==> #[trigger] without_hooks(config, event).hooks.contains(h)
                == config.hooks.contains(h),
{
    let p = choice::<HookEntry, String, OnEvent>(event);
    let q = choice::<HookEntry, String, OnOther>(event);
    let after = without_hooks(config, event).hooks;
    lemma_keep(config.hooks, q);
    assert forall|i: int| 0 <= i < after.len() implies !p(#[trigger] after[i]) by {
        assert(q(after[i]));
    }
    lemma_keep_none(after, p);
    assert forall|h: HookEntryView| h.on != event implies #[trigger] after.contains(h)
        == config.hooks.contains(h) by {
        if after.contains(h) {
            lemma_keep_from(config.hooks, q, after.index_of(h));
        }
        if config.hooks.contains(h) {
            lemma_keep_has(config.hooks, q, config.hooks.index_of(h));
        }
    }
}

/// A change of the commands for an event leaves each of them for its event, in its place.
pub proof fn law_updated_hooks_keep_their_events(config: HookConfigView, event: Seq<char>, command: Seq<char>)
    ensures
        with_command(config, event, command).hooks.len() == config.hooks.len(),
        forall|i: int|
            0 <= i < config.hooks.len() ==> (#[trigger] with_command(
                config,
                event,
                command,
            ).hooks[i]).on == config.hooks[i].on,
{
}

} // verus!
