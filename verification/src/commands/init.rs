//! Setting up a project.

use vstd::prelude::*;

use crate::commands::report::{config_file, config_path};
use crate::commands::runner::{text_or, text_or_str};
use crate::duplicate::{outcome, Duplicate};
use crate::engine::config::{
    is_middle, lemma_palette, lemma_problem, lemma_single_workflow_valid, palette, plain_phase,
    single_workflow, Config, ConfigView, INITIAL_PHASE_NAME, PhaseDef, PhaseDefView,
    TERMINAL_PHASE_NAME,
};
use crate::engine::project::{Project, ProjectView};
use crate::json_doc::{get_member, json_item, json_parsed, object_of, parse_json, text_of, JsonItem};
use crate::string_map::{has_key, keys, lookup, StringMap};
use crate::text::{
    contains, find_from, find_str, follow, join, join_strs, keep, lemma_keep, occurs, replace,
    replace_char, split, split_str, str_eq, trim, trim_str,
};

verus! {

/// Why a project could not be set up.
#[derive(Debug, PartialEq, Eq)]
pub enum InitError {
    MissingFlags { missing: Vec<String> },
    InvalidPhases,
    Serialize { message: String },
    Io { path: String, message: String },
}

/// The contents of a `InitError`.
#[verifier::ext_equal]
pub enum InitErrorView {
    MissingFlags { missing: Seq<Seq<char>> },
    InvalidPhases,
    Serialize { message: Seq<char> },
    Io { path: Seq<char>, message: Seq<char> },
}

impl View for InitError {
    type V = InitErrorView;

    open spec fn view(&self) -> InitErrorView {
        match self {
            InitError::MissingFlags { missing } => InitErrorView::MissingFlags { missing: missing.deep_view() },
            InitError::InvalidPhases => InitErrorView::InvalidPhases,
            InitError::Serialize { message } => InitErrorView::Serialize { message: message@ },
            InitError::Io { path, message } => InitErrorView::Io { path: path@, message: message@ },
        }
    }
}

impl DeepView for InitError {
    type V = InitErrorView;

    open spec fn deep_view(&self) -> InitErrorView {
        self@
    }
}

impl Duplicate for InitError {
    fn duplicate(&self) -> (r: Self) {
        match self {
            InitError::MissingFlags { missing } => InitError::MissingFlags { missing: missing.duplicate() },
            InitError::InvalidPhases => InitError::InvalidPhases,
            InitError::Serialize { message } => InitError::Serialize { message: message.duplicate() },
            InitError::Io { path, message } => InitError::Io { path: path.duplicate(), message: message.duplicate() },
        }
    }
}

impl Clone for InitError {
    fn clone(&self) -> (r: Self)
        ensures
            r@ == self@,
    {
        self.duplicate()
    }
}

impl InitErrorView {
    /// The text shown for the error.
    pub open spec fn message(self) -> Seq<char> {
        match self {
            InitErrorView::MissingFlags { missing } => "agira init requires all flags or none; missing: "@ + join(missing, " "@),
            InitErrorView::InvalidPhases => "invalid phases: use comma-separated phase names or phase:model pairs (e.g. enriching,in_progress:codex); phase names and model labels must be non-empty"@,
            InitErrorView::Serialize { .. } => "failed to serialize config"@,
            InitErrorView::Io { path, .. } => "failed to write "@ + path,
        }
    }
}

impl InitError {
    /// The text shown for the error.
    pub fn message(&self) -> (r: String)
        ensures
            r@ == self@.message(),
    {
        match self {
            InitError::MissingFlags { missing } => {
                let mut out = "agira init requires all flags or none; missing: ".to_owned();
                out.push_str(join_strs(missing, " ").as_str());
                out
            },
            InitError::InvalidPhases => "invalid phases: use comma-separated phase names or phase:model pairs (e.g. enriching,in_progress:codex); phase names and model labels must be non-empty".to_owned(),
            InitError::Serialize { .. } => "failed to serialize config".to_owned(),
            InitError::Io { path, .. } => {
                let mut out = "failed to write ".to_owned();
                out.push_str(path.as_str());
                out
            },
        }
    }
}


/// What a user says about a new project.
#[derive(Debug, PartialEq, Eq)]
pub struct InitFlags {
    pub stack: Option<String>,
    pub phases: Option<String>,
}

/// The contents of a `InitFlags`.
#[verifier::ext_equal]
pub struct InitFlagsView {
    pub stack: Option<Seq<char>>,
    pub phases: Option<Seq<char>>,
}

impl View for InitFlags {
    type V = InitFlagsView;

    open spec fn view(&self) -> InitFlagsView {
        InitFlagsView {
            stack: self.stack.deep_view(),
            phases: self.phases.deep_view(),
        }
    }
}

impl DeepView for InitFlags {
    type V = InitFlagsView;

    open spec fn deep_view(&self) -> InitFlagsView {
        self@
    }
}

impl Duplicate for InitFlags {
    fn duplicate(&self) -> (r: Self) {
        InitFlags {
            stack: self.stack.duplicate(),
            phases: self.phases.duplicate(),
        }
    }
}

impl Clone for InitFlags {
    fn clone(&self) -> (r: Self)
        ensures
            r@ == self@,
    {
        self.duplicate()
    }
}


/// What was found in the directory of a project.
#[derive(Debug, PartialEq, Eq)]
pub struct RepoSeen {
    pub cargo_toml: bool,
    pub package_json: bool,
    /// The text of `package.json`, where it can be read.
    pub package_text: Option<String>,
    pub go_mod: bool,
    pub pyproject_toml: bool,
    pub pom_xml: bool,
    pub build_gradle: bool,
    pub build_gradle_kts: bool,
    pub pubspec_yaml: bool,
    /// The text of `pubspec.yaml`, where it can be read.
    pub pubspec_text: Option<String>,
    pub tsconfig_json: bool,
    pub bun_lockb: bool,
    pub pnpm_lock_yaml: bool,
    pub yarn_lock: bool,
}

/// The contents of a `RepoSeen`.
#[verifier::ext_equal]
pub struct RepoSeenView {
    pub cargo_toml: bool,
    pub package_json: bool,
    pub package_text: Option<Seq<char>>,
    pub go_mod: bool,
    pub pyproject_toml: bool,
    pub pom_xml: bool,
    pub build_gradle: bool,
    pub build_gradle_kts: bool,
    pub pubspec_yaml: bool,
    pub pubspec_text: Option<Seq<char>>,
    pub tsconfig_json: bool,
    pub bun_lockb: bool,
    pub pnpm_lock_yaml: bool,
    pub yarn_lock: bool,
}

impl View for RepoSeen {
    type V = RepoSeenView;

    open spec fn view(&self) -> RepoSeenView {
        RepoSeenView {
            cargo_toml: self.cargo_toml,
            package_json: self.package_json,
            package_text: self.package_text.deep_view(),
            go_mod: self.go_mod,
            pyproject_toml: self.pyproject_toml,
            pom_xml: self.pom_xml,
            build_gradle: self.build_gradle,
            build_gradle_kts: self.build_gradle_kts,
            pubspec_yaml: self.pubspec_yaml,
            pubspec_text: self.pubspec_text.deep_view(),
            tsconfig_json: self.tsconfig_json,
            bun_lockb: self.bun_lockb,
            pnpm_lock_yaml: self.pnpm_lock_yaml,
            yarn_lock: self.yarn_lock,
        }
    }
}

impl DeepView for RepoSeen {
    type V = RepoSeenView;

    open spec fn deep_view(&self) -> RepoSeenView {
        self@
    }
}

impl Duplicate for RepoSeen {
    fn duplicate(&self) -> (r: Self) {
        RepoSeen {
            cargo_toml: self.cargo_toml,
            package_json: self.package_json,
            package_text: self.package_text.duplicate(),
            go_mod: self.go_mod,
            pyproject_toml: self.pyproject_toml,
            pom_xml: self.pom_xml,
            build_gradle: self.build_gradle,
            build_gradle_kts: self.build_gradle_kts,
            pubspec_yaml: self.pubspec_yaml,
            pubspec_text: self.pubspec_text.duplicate(),
            tsconfig_json: self.tsconfig_json,
            bun_lockb: self.bun_lockb,
            pnpm_lock_yaml: self.pnpm_lock_yaml,
            yarn_lock: self.yarn_lock,
        }
    }
}

impl Clone for RepoSeen {
    fn clone(&self) -> (r: Self)
        ensures
            r@ == self@,
    {
        self.duplicate()
    }
}


/// What a `package.json` says.
#[derive(Debug, PartialEq, Eq)]
pub struct PackageFacts {
    /// The package manager that it names.
    pub manager: Option<String>,
    /// Whether it needs TypeScript for development.
    pub typescript: bool,
    pub has_test: bool,
    pub has_lint: bool,
    pub has_format: bool,
}

/// The contents of a `PackageFacts`.
#[verifier::ext_equal]
pub struct PackageFactsView {
    pub manager: Option<Seq<char>>,
    pub typescript: bool,
    pub has_test: bool,
    pub has_lint: bool,
    pub has_format: bool,
}

impl View for PackageFacts {
    type V = PackageFactsView;

    open spec fn view(&self) -> PackageFactsView {
        PackageFactsView {
            manager: self.manager.deep_view(),
            typescript: self.typescript,
            has_test: self.has_test,
            has_lint: self.has_lint,
            has_format: self.has_format,
        }
    }
}

impl DeepView for PackageFacts {
    type V = PackageFactsView;

    open spec fn deep_view(&self) -> PackageFactsView {
        self@
    }
}

impl Duplicate for PackageFacts {
    fn duplicate(&self) -> (r: Self) {
        PackageFacts {
            manager: self.manager.duplicate(),
            typescript: self.typescript,
            has_test: self.has_test,
            has_lint: self.has_lint,
            has_format: self.has_format,
        }
    }
}

impl Clone for PackageFacts {
    fn clone(&self) -> (r: Self)
        ensures
            r@ == self@,
    {
        self.duplicate()
    }
}


/// A configuration for a project and the commands that check its code.
#[derive(Debug, PartialEq, Eq)]
pub struct ScanResult {
    pub config: Config,
    pub commands: Vec<String>,
}

/// The contents of a `ScanResult`.
#[verifier::ext_equal]
pub struct ScanResultView {
    pub config: ConfigView,
    pub commands: Seq<Seq<char>>,
}

impl View for ScanResult {
    type V = ScanResultView;

    open spec fn view(&self) -> ScanResultView {
        ScanResultView {
            config: self.config@,
            commands: self.commands.deep_view(),
        }
    }
}

impl DeepView for ScanResult {
    type V = ScanResultView;

    open spec fn deep_view(&self) -> ScanResultView {
        self@
    }
}

impl Duplicate for ScanResult {
    fn duplicate(&self) -> (r: Self) {
        ScanResult {
            config: self.config.duplicate(),
            commands: self.commands.duplicate(),
        }
    }
}

impl Clone for ScanResult {
    fn clone(&self) -> (r: Self)
        ensures
            r@ == self@,
    {
        self.duplicate()
    }
}


/// The files in which an agent keeps what it is told about a project.
#[derive(Debug, PartialEq, Eq)]
pub struct AgentFiles {
    /// Where it keeps notes.
    pub notes: String,
    /// Where it keeps settings.
    pub settings: String,
}

/// The contents of a `AgentFiles`.
#[verifier::ext_equal]
pub struct AgentFilesView {
    pub notes: Seq<char>,
    pub settings: Seq<char>,
}

impl View for AgentFiles {
    type V = AgentFilesView;

    open spec fn view(&self) -> AgentFilesView {
        AgentFilesView {
            notes: self.notes@,
            settings: self.settings@,
        }
    }
}

impl DeepView for AgentFiles {
    type V = AgentFilesView;

    open spec fn deep_view(&self) -> AgentFilesView {
        self@
    }
}

impl Duplicate for AgentFiles {
    fn duplicate(&self) -> (r: Self) {
        AgentFiles {
            notes: self.notes.duplicate(),
            settings: self.settings.duplicate(),
        }
    }
}

impl Clone for AgentFiles {
    fn clone(&self) -> (r: Self)
        ensures
            r@ == self@,
    {
        self.duplicate()
    }
}


/// What setting up a project leaves to be done.
#[derive(Debug, PartialEq, Eq)]
pub enum InitStep {
    /// A text is printed.
    Prompt { text: String },
    /// A configuration is written to a file.
    WriteConfig { path: String, config: Config },
}

/// The contents of a `InitStep`.
#[verifier::ext_equal]
pub enum InitStepView {
    Prompt { text: Seq<char> },
    WriteConfig { path: Seq<char>, config: ConfigView },
}

impl View for InitStep {
    type V = InitStepView;

    open spec fn view(&self) -> InitStepView {
        match self {
            InitStep::Prompt { text } => InitStepView::Prompt { text: text@ },
            InitStep::WriteConfig { path, config } => InitStepView::WriteConfig { path: path@, config: config@ },
        }
    }
}

impl DeepView for InitStep {
    type V = InitStepView;

    open spec fn deep_view(&self) -> InitStepView {
        self@
    }
}

impl Duplicate for InitStep {
    fn duplicate(&self) -> (r: Self) {
        match self {
            InitStep::Prompt { text } => InitStep::Prompt { text: text.duplicate() },
            InitStep::WriteConfig { path, config } => InitStep::WriteConfig { path: path.duplicate(), config: config.duplicate() },
        }
    }
}

impl Clone for InitStep {
    fn clone(&self) -> (r: Self)
        ensures
            r@ == self@,
    {
        self.duplicate()
    }
}


// ---------------------------------------------------------------------------------------------
// Packages of JavaScript
// ---------------------------------------------------------------------------------------------

/// A program that runs the scripts of a package.
#[derive(Debug, Clone, Copy, PartialEq, Eq, Structural)]
pub enum PackageManager {
    Bun,
    Pnpm,
    Yarn,
    Npm,
}

impl PackageManager {
    /// The name of the program.
    pub open spec fn name(self) -> Seq<char> {
        match self {
            PackageManager::Bun => "bun"@,
            PackageManager::Pnpm => "pnpm"@,
            PackageManager::Yarn => "yarn"@,
            PackageManager::Npm => "npm"@,
        }
    }
}

/// The member of an object under a key.
pub open spec fn member_of(item: JsonItem, key: Seq<char>) -> Option<JsonItem> {
    if item is Object && item->Object_0.contains_key(key) {
        Some(item->Object_0[key])
    } else {
        None
    }
}

/// An object under a key has a key.
pub open spec fn inner_key(item: JsonItem, key: Seq<char>, inner: Seq<char>) -> bool {
    match member_of(item, key) {
        Some(value) => member_of(value, inner) is Some,
        None => false,
    }
}

/// What a `package.json` says.
pub open spec fn facts_of(item: JsonItem) -> PackageFactsView {
    PackageFactsView {
        manager: match member_of(item, "packageManager"@) {
            Some(JsonItem::Text(name)) => Some(name),
            _ => None,
        },
        typescript: inner_key(item, "devDependencies"@, "typescript"@),
        has_test: inner_key(item, "scripts"@, "test"@),
        has_lint: inner_key(item, "scripts"@, "lint"@),
        has_format: inner_key(item, "scripts"@, "format"@),
    }
}

fn member(value: &serde_json::Value, key: &str) -> (r: Option<serde_json::Value>)
    ensures
        match r {
            Some(v) => member_of(json_item(*value), key@) == Some(json_item(v)),
            None => member_of(json_item(*value), key@) is None,
        },
{
    match object_of(value) {
        Some(object) => get_member(&object, key),
        None => None,
    }
}

fn has_inner_key(value: &serde_json::Value, key: &str, inner: &str) -> (r: bool)
    ensures
        r == inner_key(json_item(*value), key@, inner@),
{
    match member(value, key) {
        Some(v) => member(&v, inner).is_some(),
        None => false,
    }
}

/// What a `package.json` says.
pub fn package_facts(value: &serde_json::Value) -> (r: PackageFacts)
    ensures
        r@ == facts_of(json_item(*value)),
{
    PackageFacts {
        manager: match member(value, "packageManager") {
            Some(v) => text_of(&v),
            None => None,
        },
        typescript: has_inner_key(value, "devDependencies", "typescript"),
        has_test: has_inner_key(value, "scripts", "test"),
        has_lint: has_inner_key(value, "scripts", "lint"),
        has_format: has_inner_key(value, "scripts", "format"),
    }
}

/// What the text of a `package.json` says, where it is a document.
pub open spec fn facts_in(text: Option<Seq<char>>) -> Option<PackageFactsView> {
    match text {
        None => None,
        Some(s) => match json_parsed(s) {
            Ok(item) => Some(facts_of(item)),
            Err(_) => None,
        },
    }
}

/// What the text of a `package.json` says, where it is a document.
pub fn read_package_json(text: &Option<String>) -> (r: Option<PackageFacts>)
    ensures
        r.deep_view() == facts_in(text.deep_view()),
{
    match text {
        None => None,
        Some(s) => match parse_json(s.as_str()) {
            Ok(value) => Some(package_facts(&value)),
            Err(_) => None,
        },
    }
}

/// The package manager that a field names: what stands in front of an `@`.
pub open spec fn manager_in(field: Seq<char>) -> Option<PackageManager> {
    let name = split(field, '@')[0];
    if name == "bun"@ {
        Some(PackageManager::Bun)
    } else if name == "pnpm"@ {
        Some(PackageManager::Pnpm)
    } else if name == "yarn"@ {
        Some(PackageManager::Yarn)
    } else if name == "npm"@ {
        Some(PackageManager::Npm)
    } else {
        None
    }
}

/// The package manager that a field names.
pub fn package_manager_from_field(value: &str) -> (r: Option<PackageManager>)
    ensures
        r == manager_in(value@),
{
    let parts = split_str(value, '@');
    let name = parts[0].as_str();
    assert(parts.deep_view()[0] == name@);
    if str_eq(name, "bun") {
        Some(PackageManager::Bun)
    } else if str_eq(name, "pnpm") {
        Some(PackageManager::Pnpm)
    } else if str_eq(name, "yarn") {
        Some(PackageManager::Yarn)
    } else if str_eq(name, "npm") {
        Some(PackageManager::Npm)
    } else {
        None
    }
}

/// The package manager of a project: the one that it names, or the one whose files are there.
pub open spec fn manager_of(seen: RepoSeenView, facts: Option<PackageFactsView>) -> PackageManager {
    let named = match facts {
        Some(f) => match f.manager {
            Some(field) => manager_in(field),
            None => None,
        },
        None => None,
    };
    match named {
        Some(manager) => manager,
        None => if seen.bun_lockb {
            PackageManager::Bun
        } else if seen.pnpm_lock_yaml {
            PackageManager::Pnpm
        } else if seen.yarn_lock {
            PackageManager::Yarn
        } else {
            PackageManager::Npm
        },
    }
}

/// The package manager of a project.
pub fn detect_package_manager(seen: &RepoSeen, facts: &Option<PackageFacts>) -> (r: PackageManager)
    ensures
        r == manager_of(seen@, facts.deep_view()),
{
    match facts {
        Some(f) => match &f.manager {
            Some(field) => match package_manager_from_field(field.as_str()) {
                Some(manager) => {
                    return manager;
                },
                None => {},
            },
            None => {},
        },
        None => {},
    }
    if seen.bun_lockb {
        PackageManager::Bun
    } else if seen.pnpm_lock_yaml {
        PackageManager::Pnpm
    } else if seen.yarn_lock {
        PackageManager::Yarn
    } else {
        PackageManager::Npm
    }
}

/// Whether a project is written in TypeScript.
pub fn is_typescript_project(seen: &RepoSeen, facts: &Option<PackageFacts>) -> (r: bool)
    ensures
        r == (seen@.tsconfig_json || facts.deep_view() is Some && facts.deep_view()->0.typescript),
{
    seen.tsconfig_json || match facts {
        Some(f) => f.typescript,
        None => false,
    }
}

/// The command that runs a script.
pub open spec fn script_command(manager: PackageManager, script: Seq<char>) -> Seq<char> {
    match manager {
        PackageManager::Bun => "bun run "@ + script,
        PackageManager::Pnpm => "pnpm "@ + script,
        PackageManager::Yarn => "yarn "@ + script,
        PackageManager::Npm => if script == "test"@ {
            "npm test"@
        } else {
            "npm run "@ + script
        },
    }
}

/// The command that runs a script.
pub fn package_script_command(manager: PackageManager, script: &str) -> (r: String)
    ensures
        r@ == script_command(manager, script@),
{
    match manager {
        PackageManager::Bun => follow("bun run ", script),
        PackageManager::Pnpm => follow("pnpm ", script),
        PackageManager::Yarn => follow("yarn ", script),
        PackageManager::Npm => if str_eq(script, "test") {
            "npm test".to_owned()
        } else {
            follow("npm run ", script)
        },
    }
}

/// Three texts as a list.
pub open spec fn three(a: Seq<char>, b: Seq<char>, c: Seq<char>) -> Seq<Seq<char>> {
    seq![a, b, c]
}

fn list_three(a: &str, b: &str, c: &str) -> (r: Vec<String>)
    ensures
        r.deep_view() == three(a@, b@, c@),
{
    let r: Vec<String> = vec![a.to_owned(), b.to_owned(), c.to_owned()];
    assert(r.deep_view() =~= three(a@, b@, c@));
    r
}

/// The commands for a package that has no scripts.
pub open spec fn default_commands(manager: PackageManager) -> Seq<Seq<char>> {
    match manager {
        PackageManager::Bun => three("bun test"@, "bunx eslint ."@, "bunx prettier --check ."@),
        PackageManager::Pnpm => three("pnpm test"@, "pnpm lint"@, "pnpm format"@),
        PackageManager::Yarn => three("yarn test"@, "yarn lint"@, "yarn format"@),
        PackageManager::Npm => three("npm test"@, "npm run lint"@, "npm run format"@),
    }
}

/// The commands for a package that has no scripts.
pub fn default_package_commands(manager: PackageManager) -> (r: Vec<String>)
    ensures
        r.deep_view() == default_commands(manager),
{
    match manager {
        PackageManager::Bun => list_three("bun test", "bunx eslint .", "bunx prettier --check ."),
        PackageManager::Pnpm => list_three("pnpm test", "pnpm lint", "pnpm format"),
        PackageManager::Yarn => list_three("yarn test", "yarn lint", "yarn format"),
        PackageManager::Npm => list_three("npm test", "npm run lint", "npm run format"),
    }
}

/// A list with a text behind where it is wanted.
pub open spec fn pushed_if(list: Seq<Seq<char>>, wanted: bool, text: Seq<char>) -> Seq<Seq<char>> {
    if wanted {
        list.push(text)
    } else {
        list
    }
}

fn push_if(list: &mut Vec<String>, wanted: bool, text: String)
    ensures
        final(list).deep_view() == pushed_if(old(list).deep_view(), wanted, text@),
{
    let ghost before = list.deep_view();
    if wanted {
        list.push(text);
        assert(list.deep_view() =~= before.push(text@));
    }
}

/// The commands for the scripts that a package has.
pub open spec fn script_commands(manager: PackageManager, facts: Option<PackageFactsView>) -> Seq<
    Seq<char>,
> {
    match facts {
        None => Seq::empty(),
        Some(f) => pushed_if(
            pushed_if(
                pushed_if(Seq::empty(), f.has_test, script_command(manager, "test"@)),
                f.has_lint,
                script_command(manager, "lint"@),
            ),
            f.has_format,
            script_command(manager, "format"@),
        ),
    }
}

/// The commands that check a package.
pub open spec fn checks_of(manager: PackageManager, facts: Option<PackageFactsView>) -> Seq<Seq<char>> {
    if script_commands(manager, facts).len() == 0 {
        default_commands(manager)
    } else {
        script_commands(manager, facts)
    }
}

/// The commands that check a package.
pub fn package_commands(manager: PackageManager, facts: &Option<PackageFacts>) -> (r: Vec<String>)
    ensures
        r.deep_view() == checks_of(manager, facts.deep_view()),
{
    let mut out: Vec<String> = Vec::new();
    assert(out.deep_view() =~= Seq::<Seq<char>>::empty());
    match facts {
        None => {},
        Some(f) => {
            push_if(&mut out, f.has_test, package_script_command(manager, "test"));
            push_if(&mut out, f.has_lint, package_script_command(manager, "lint"));
            push_if(&mut out, f.has_format, package_script_command(manager, "format"));
        },
    }
    assert(out.deep_view().len() == out.len());
    if out.len() == 0 {
        default_package_commands(manager)
    } else {
        out
    }
}

// ---------------------------------------------------------------------------------------------
// Looking at a project
// ---------------------------------------------------------------------------------------------

/// A phase with a model.
pub open spec fn phase_with_model(model: Seq<char>) -> PhaseDefView {
    PhaseDefView { model: Some(model), duty: None, gate: None }
}

/// The phases of a new project.
pub open spec fn first_phases() -> Seq<(Seq<char>, PhaseDefView)> {
    seq![
        ("in_progress"@, phase_with_model("sonnet"@)),
        ("accepting"@, phase_with_model("sonnet"@)),
    ]
}

/// The phases of a new project.
pub fn default_phases() -> (r: Vec<(String, PhaseDef)>)
    ensures
        r.deep_view() == first_phases(),
{
    let r: Vec<(String, PhaseDef)> = vec![
        (
            "in_progress".to_owned(),
            PhaseDef { model: Some("sonnet".to_owned()), duty: None, gate: None },
        ),
        (
            "accepting".to_owned(),
            PhaseDef { model: Some("sonnet".to_owned()), duty: None, gate: None },
        ),
    ];
    assert(r.deep_view() =~= first_phases());
    r
}

/// The configuration of a new project.
pub fn config_for_stack(stack: &str, max_retries: u32) -> (r: Config)
    ensures
        r@ == single_workflow(stack@, first_phases(), max_retries),
{
    Config::new_single_workflow(stack, default_phases(), max_retries)
}

/// What a project with a stack and some commands comes to.
pub open spec fn scanned(stack: Seq<char>, commands: Seq<Seq<char>>, max_retries: u32) -> ScanResultView {
    ScanResultView { config: single_workflow(stack, first_phases(), max_retries), commands }
}

/// What a project with a stack and some commands comes to.
pub fn scan_result_for_stack(stack: &str, commands: Vec<String>, max_retries: u32) -> (r: ScanResult)
    ensures
        r@ == scanned(stack@, commands.deep_view(), max_retries),
{
    ScanResult { config: config_for_stack(stack, max_retries), commands }
}

/// What a package of JavaScript comes to, given what its `package.json` says.
pub open spec fn package_scanned(seen: RepoSeenView, facts: Option<PackageFactsView>, max_retries: u32) -> ScanResultView {
    scanned(
        if seen.tsconfig_json || facts is Some && facts->0.typescript {
            "typescript"@
        } else {
            "javascript"@
        },
        checks_of(manager_of(seen, facts), facts),
        max_retries,
    )
}

/// What a package of JavaScript comes to, given what its `package.json` says.
pub fn scan_package_json_project(seen: &RepoSeen, facts: &Option<PackageFacts>, max_retries: u32) -> (r:
    ScanResult)
    ensures
        r@ == package_scanned(seen@, facts.deep_view(), max_retries),
{
    let manager = detect_package_manager(seen, facts);
    let stack = if is_typescript_project(seen, facts) {
        "typescript"
    } else {
        "javascript"
    };
    scan_result_for_stack(stack, package_commands(manager, facts), max_retries)
}

/// What a package of Dart comes to, given the text of its `pubspec.yaml`.
pub open spec fn pubspec_scanned(text: Option<Seq<char>>, max_retries: u32) -> ScanResultView {
    let contents = text_or(text, ""@);
    if occurs(contents, "flutter:"@) || occurs(contents, "sdk: flutter"@) {
        scanned(
            "flutter"@,
            three(
                "dart format --output=none --set-exit-if-changed ."@,
                "flutter analyze"@,
                "flutter test"@,
            ),
            max_retries,
        )
    } else {
        scanned(
            "dart"@,
            three(
                "dart format --output=none --set-exit-if-changed ."@,
                "dart analyze"@,
                "dart test"@,
            ),
            max_retries,
        )
    }
}

/// What a package of Dart comes to, given the text of its `pubspec.yaml`.
pub fn scan_pubspec_project(text: &Option<String>, max_retries: u32) -> (r: ScanResult)
    ensures
        r@ == pubspec_scanned(text.deep_view(), max_retries),
{
    let contents = text_or_str(text, "");
    if contains(contents, "flutter:") || contains(contents, "sdk: flutter") {
        scan_result_for_stack(
            "flutter",
            list_three(
                "dart format --output=none --set-exit-if-changed .",
                "flutter analyze",
                "flutter test",
            ),
            max_retries,
        )
    } else {
        scan_result_for_stack(
            "dart",
            list_three(
                "dart format --output=none --set-exit-if-changed .",
                "dart analyze",
                "dart test",
            ),
            max_retries,
        )
    }
}

/// What a project comes to, by the files that are there and what its `package.json` says.
pub open spec fn project_scanned(seen: RepoSeenView, facts: Option<PackageFactsView>, max_retries: u32) -> ScanResultView {
    if seen.cargo_toml {
        scanned(
            "rust"@,
            three("cargo fmt -- --check"@, "cargo test"@, "cargo clippy -- -D warnings"@),
            max_retries,
        )
    } else if seen.package_json {
        package_scanned(seen, facts, max_retries)
    } else if seen.go_mod {
        scanned(
            "go"@,
            three("test -z \"$(gofmt -l .)\""@, "go vet ./..."@, "go test ./..."@),
            max_retries,
        )
    } else if seen.pyproject_toml {
        scanned(
            "python"@,
            three(
                "python -m ruff format --check ."@,
                "python -m ruff check ."@,
                "python -m pytest"@,
            ),
            max_retries,
        )
    } else if seen.pom_xml {
        scanned("java"@, seq!["mvn verify"@], max_retries)
    } else if seen.build_gradle || seen.build_gradle_kts {
        scanned("java"@, seq!["./gradlew test"@], max_retries)
    } else if seen.pubspec_yaml {
        pubspec_scanned(seen.pubspec_text, max_retries)
    } else {
        scanned("unknown"@, Seq::empty(), max_retries)
    }
}

fn list_one(text: &str) -> (r: Vec<String>)
    ensures
        r.deep_view() == seq![text@],
{
    let r: Vec<String> = vec![text.to_owned()];
    assert(r.deep_view() =~= seq![text@]);
    r
}

/// What a project comes to, by the files that are there and what its `package.json` says.
pub fn scan_files(seen: &RepoSeen, facts: &Option<PackageFacts>, max_retries: u32) -> (r: ScanResult)
    ensures
        r@ == project_scanned(seen@, facts.deep_view(), max_retries),
{
    if seen.cargo_toml {
        return scan_result_for_stack(
            "rust",
            list_three("cargo fmt -- --check", "cargo test", "cargo clippy -- -D warnings"),
            max_retries,
        );
    }
    if seen.package_json {
        return scan_package_json_project(seen, facts, max_retries);
    }
    if seen.go_mod {
        return scan_result_for_stack(
            "go",
            list_three("test -z \"$(gofmt -l .)\"", "go vet ./...", "go test ./..."),
            max_retries,
        );
    }
    if seen.pyproject_toml {
        return scan_result_for_stack(
            "python",
            list_three(
                "python -m ruff format --check .",
                "python -m ruff check .",
                "python -m pytest",
            ),
            max_retries,
        );
    }
    if seen.pom_xml {
        return scan_result_for_stack("java", list_one("mvn verify"), max_retries);
    }
    if seen.build_gradle || seen.build_gradle_kts {
        return scan_result_for_stack("java", list_one("./gradlew test"), max_retries);
    }
    if seen.pubspec_yaml {
        return scan_pubspec_project(&seen.pubspec_text, max_retries);
    }
    let none: Vec<String> = Vec::new();
    assert(none.deep_view() =~= Seq::<Seq<char>>::empty());
    scan_result_for_stack("unknown", none, max_retries)
}

/// What a project comes to, by the files that are there.
pub fn scan_project(seen: &RepoSeen, max_retries: u32) -> (r: ScanResult)
    ensures
        r@ == project_scanned(seen@, facts_in(seen@.package_text), max_retries),
{
    let facts = read_package_json(&seen.package_text);
    scan_files(seen, &facts, max_retries)
}

// ---------------------------------------------------------------------------------------------
// Phases given as a text
// ---------------------------------------------------------------------------------------------

/// A phase given by its name, or by its name and its model with a colon between them.
pub open spec fn phase_entry(part: Seq<char>) -> Option<(Seq<char>, PhaseDefView)> {
    let pair = trim(part);
    if pair.len() == 0 {
        None
    } else {
        match find_from(pair, ":"@, 0) {
            Some(i) => {
                let name = trim(pair.take(i));
                let model = trim(pair.skip(i + ":"@.len()));
                if name.len() == 0 || model.len() == 0 {
                    None
                } else {
                    Some((name, phase_with_model(model)))
                }
            },
            None => Some((pair, plain_phase())),
        }
    }
}

fn read_phase_entry(part: &str) -> (r: Option<(String, PhaseDef)>)
    ensures
        r.deep_view() == phase_entry(part@),
{
    let pair = trim_str(part);
    let n: usize = pair.unicode_len();
    if n == 0 {
        return None;
    }
    match find_str(pair, ":") {
        Some(i) => {
            let before = pair.substring_char(0, i);
            assert(before@ =~= pair@.take(i as int));
            let after = pair.substring_char(i + ":".unicode_len(), n);
            assert(after@ =~= pair@.skip(i + ":"@.len()));
            let name = trim_str(before);
            let model = trim_str(after);
            if name.unicode_len() == 0 || model.unicode_len() == 0 {
                None
            } else {
                Some(
                    (
                        name.to_owned(),
                        PhaseDef { model: Some(model.to_owned()), duty: None, gate: None },
                    ),
                )
            }
        },
        None => Some((pair.to_owned(), PhaseDef::default())),
    }
}

/// The phases that the first parts of a text give; nothing where one gives none.
pub open spec fn phase_entries(parts: Seq<Seq<char>>) -> Option<Seq<(Seq<char>, PhaseDefView)>>
    decreases parts.len(),
{
    if parts.len() == 0 {
        Some(Seq::empty())
    } else {
        match phase_entries(parts.drop_last()) {
            None => None,
            Some(rest) => match phase_entry(parts.last()) {
                None => None,
                Some(entry) => Some(rest.push(entry)),
            },
        }
    }
}

/// The phases in the middle, each with what was said of it last.
pub open spec fn middle_phases(entries: Seq<(Seq<char>, PhaseDefView)>) -> Seq<
    (Seq<char>, PhaseDefView),
> {
    keep(keys(entries), is_middle()).map_values(
        |name: Seq<char>| (name, lookup(palette(entries), name)->0),
    )
}

/// The phases that a text gives, without those that every workflow has.
pub open spec fn phases_in(input: Seq<char>) -> Result<Seq<(Seq<char>, PhaseDefView)>, InitErrorView> {
    match phase_entries(split(input, ',')) {
        None => Err(InitErrorView::InvalidPhases),
        Some(entries) => Ok(middle_phases(entries)),
    }
}

proof fn lemma_entries_end(parts: Seq<Seq<char>>, n: int)
    requires
        0 <= n <= parts.len(),
        phase_entries(parts.take(n)) is None,
    ensures
        phase_entries(parts) is None,
    decreases parts.len(),
{
    if n < parts.len() {
        assert(parts.drop_last().take(n) =~= parts.take(n));
        lemma_entries_end(parts.drop_last(), n);
    } else {
        assert(parts.take(n) =~= parts);
    }
}

fn read_phase_entries(parts: &Vec<String>) -> (r: Option<Vec<(String, PhaseDef)>>)
    ensures
        r.deep_view() == phase_entries(parts.deep_view()),
{
    let ghost all = parts.deep_view();
    let mut out: Vec<(String, PhaseDef)> = Vec::new();
    let mut i: usize = 0;
    assert(all.take(0) =~= Seq::<Seq<char>>::empty());
    assert(out.deep_view() =~= Seq::<(Seq<char>, PhaseDefView)>::empty());
    while i < parts.len()
        invariant
            i <= parts.len(),
            all == parts.deep_view(),
            phase_entries(all.take(i as int)) == Some(out.deep_view()),
        decreases parts.len() - i,
    {
        assert(all.take(i + 1).drop_last() =~= all.take(i as int));
        assert(all.take(i + 1).last() == parts@[i as int]@);
        let ghost before = out.deep_view();
        match read_phase_entry(parts[i].as_str()) {
            None => {
                proof {
                    lemma_entries_end(all, i + 1);
                }
                return None;
            },
            Some(entry) => {
                let ghost e = entry.deep_view();
                out.push(entry);
                assert(out.deep_view() =~= before.push(e));
            },
        }
        i = i + 1;
    }
    assert(all.take(i as int) =~= all);
    Some(out)
}

fn pick_middle_phases(entries: Vec<(String, PhaseDef)>) -> (r: Vec<(String, PhaseDef)>)
    ensures
        r.deep_view() == middle_phases(entries.deep_view()),
{
    let ghost all = entries.deep_view();
    let ghost names = keep(keys(all), is_middle());
    let mut phases: StringMap<PhaseDef> = StringMap::new();
    let mut i: usize = 0;
    assert(all.take(0) =~= Seq::<(Seq<char>, PhaseDefView)>::empty());
    while i < entries.len()
        invariant
            i <= entries.len(),
            all == entries.deep_view(),
            phases@ == palette(all.take(i as int)),
        decreases entries.len() - i,
    {
        assert(all.take(i + 1).drop_last() =~= all.take(i as int));
        assert(all.take(i + 1).last() == all[i as int]);
        phases.insert(entries[i].0.clone(), entries[i].1.duplicate());
        i = i + 1;
    }
    assert(all.take(i as int) =~= all);
    let ghost f = |name: Seq<char>| (name, lookup(palette(all), name)->0);
    let mut out: Vec<(String, PhaseDef)> = Vec::new();
    let mut k: usize = 0;
    assert(keys(all).take(0) =~= Seq::<Seq<char>>::empty());
    assert(out.deep_view() =~= keep(keys(all).take(0), is_middle()).map_values(f));
    while k < entries.len()
        invariant
            k <= entries.len(),
            all == entries.deep_view(),
            phases@ == palette(all),
            f == (|name: Seq<char>| (name, lookup(palette(all), name)->0)),
            out.deep_view() == keep(keys(all).take(k as int), is_middle()).map_values(f),
        decreases entries.len() - k,
    {
        let ghost before = out.deep_view();
        let ghost kept = keep(keys(all).take(k as int), is_middle());
        let name = entries[k].0.as_str();
        assert(keys(all)[k as int] == name@);
        assert(keys(all).take(k + 1).drop_last() =~= keys(all).take(k as int));
        assert(keys(all).take(k + 1).last() == name@);
        proof {
            lemma_palette(all);
            assert(has_key(palette(all), all[k as int].0));
        }
        if !str_eq(name, INITIAL_PHASE_NAME) && !str_eq(name, TERMINAL_PHASE_NAME) {
            match phases.get(name) {
                Some(def) => {
                    out.push((name.to_owned(), def.duplicate()));
                    assert(out.deep_view() =~= before.push(f(name@)));
                    assert(kept.push(name@).map_values(f) =~= kept.map_values(f).push(f(name@)));
                },
                None => {},
            }
        }
        k = k + 1;
    }
    assert(keys(all).take(k as int) =~= keys(all));
    out
}

/// The phases that a text gives, without those that every workflow has.
pub fn parse_phases_flag(input: &str) -> (r: Result<Vec<(String, PhaseDef)>, InitError>)
    ensures
        outcome(r) == phases_in(input@),
{
    match read_phase_entries(&split_str(input, ',')) {
        None => Err(InitError::InvalidPhases),
        Some(entries) => Ok(pick_middle_phases(entries)),
    }
}

// ---------------------------------------------------------------------------------------------
// What is asked of an agent
// ---------------------------------------------------------------------------------------------

/// A command that checks a project in Rust.
pub const CANONICAL_GATE_COMMAND: &'static str =
    "cargo fmt -- --check && cargo test && cargo clippy -- -D warnings";

/// How the text begins.
pub const INTRO: &'static str =
    "# agira init — agent setup required\n\n`agira init` was called without flags. Your job: scan this repo, prove the project can\nstart locally, reason about what you find, recommend configuration, interview the user,\nthen call `agira init` with all flags filled in.\n\n";

/// What is to be looked at first; `^` stands for the file of notes.
pub const SCAN_STEPS: &'static str =
    "## Step 1 — Scan the repo\n\nRead and record findings from each of the following before asking the user anything:\n\n1. **Stack markers** — check the repo root for: `Cargo.toml`, `package.json`, `pom.xml`,\n   `build.gradle`, `build.gradle.kts`, `go.mod`, `pyproject.toml`, `pubspec.yaml`.\n   If `package.json` exists, read its content: detect TypeScript (tsconfig.json or `typescript`\n   in devDependencies), package manager (`packageManager` field or lockfiles: `bun.lockb`,\n   `pnpm-lock.yaml`, `yarn.lock`), frontend frameworks (next, vite, react, vue, svelte, angular),\n   backend frameworks (express, fastify, koa, hapi, nest).\n\n2. **Build / test / lint commands** — read `package.json` scripts section, any `Makefile`,\n   CI configs (`.github/workflows/`, `.gitlab-ci.yml`). Record the exact commands.\n\n3. **Run / start instructions** — SCAN ONLY here; you execute these in Step 2, not yet.\n   Check README files, docs, `package.json` scripts (`dev`, `start`, `serve`), `Makefile`,\n   `Cargo.toml`, `pyproject.toml`, Docker Compose files, Procfiles, or framework config.\n   Record documented start commands, expected ports or URLs, and any env setup.\n\n4. **Project structure** — list top-level directories and key source files to understand\n   whether this is a CLI, library, API, full-stack app, or something else.\n\n5. **Existing AI config** — read `^`, `";

/// What is to be decided; `^` stands for the file of notes.
pub const DECISION_STEPS: &'static str =
    "` if present.\n\n6. **Commit conventions** — run `git log --no-merges -10 --format=\"%s\"` and note the pattern\n   (Conventional Commits, Angular, freeform, etc.).\n\n7. **Observable runtime behavior** — check for end-to-end or acceptance test infrastructure:\n   `playwright.config.*`, `cypress.config.*`, `jest.e2e.*`, `e2e/`, `cypress/`, `playwright/`,\n   `tests/e2e/`, `tests/acceptance/`, `docker-compose*.yml` used for tests.\n   Also flag the presence of a UI framework (next, react, vue, svelte, angular) or HTTP server\n   (express, fastify, koa, hapi, nest, or any framework that binds a port).\n   Record whether the project has an observable runtime behavior layer beyond unit tests\n   (UI rendering, API endpoints, CLI output, e2e suite). This finding feeds directly into\n   the `accepting` phase decision in Step 3.\n\n## Step 2 — Prove the project starts (REQUIRED)\n\nAfter scanning and before recommending flags, you MUST make a real local start/run attempt.\nThis step is required, not optional. This is where you EXECUTE the start, using what Step 1.3 found.\nDo not proceed to `agira init` until the project starts successfully, unless you have a concrete blocker that requires user input.\n\n1. Choose the most appropriate run command from the instructions you found.\n2. Install missing dependencies using the repo's declared package manager or build tool.\n3. Resolve environment issues when possible: read `.env.example` or docs, set documented\n   non-secret defaults, choose a free supported port, and fix missing generated files.\n   Do not invent secrets; ask the user if a real credential is required.\n4. Branch by project type:\n   - CLI/library → build, then run a smoke invocation (e.g. `--help` or a sample command) and capture output.\n   - server/UI/API → start the process, hit the health endpoint or render a page, capture the listening URL/response, then stop the process.\n5. Confirm success with concrete evidence: listening URL, health endpoint, rendered page,\n   CLI output, or equivalent smoke check.\n\nRecord the start command, required env setup, port or URL, and verification evidence.\nThese findings must feed into the implementing-phase gate and `^`.\n\n## Step 3 — Reason and recommend\n\nAfter scanning and Step 2 proof, reason about each flag. Propose concrete options ranked by\nfit, with a brief justification.\n\n**`--stack`**\nName the detected language and primary framework. If the repo is a monorepo or has multiple\nstacks, ask which part agira is being set up for before continuing.\n\n**`--phases`**\n**`pending` and `done` are built-in phases that are automatically present: agira inserts `pending` first and `done` last. Do not include them in the --phases flag value; configure only the workflow phases between them.**\n\nReason about project complexity to propose only the middle of the state machine. Each phase may carry a freeform agent/model label.\nModel labels are optional. When present, they are arbitrary non-empty text (whitespace allowed), such as `opus`, `sonnet`, `haiku`, `codex`, `dispatch -a codex`, or a project-specific executor label.\nA bare phase name is valid when the phase should be model-less in config.\n- Design / enrichment phases → `opus` or another reasoning-heavy agent label\n- Implementation phases → `sonnet`, `codex`, or another code execution label\n- Independent review / acceptance phases → `sonnet`, `codex`, or another code-aware label\n\nPhase selection rules:\n- Each middle phase is one dedicated subagent invocation.\n- Add a phase only when that step genuinely needs its own focused context.\n- Prefer fewer phases because each handoff has cost.\n\n**Deterministic checks (lint / format / type-check / unit tests) are enforced as a GATE on\nthe implementing phase (`in_progress`), NOT as a separate agent phase.** A gate runs\nautomatically before the phase is allowed to record its artifact and advance; it is\nunfakeable and needs no agent. Place it on the code-producing phase so the actor who can\nfix a failure is the one blocked.\n\n`accepting` is the agent phase for behavioral verification — it starts the app, exercises it\nfrom outside (browser, HTTP client, CLI invocation, e2e suite), and confirms that observable\nbehavior matches the spec. It requires a running process and cannot be replaced by a gate.\n\n**Rule:** add `accepting` whenever the project has observable runtime behavior — UI, API\nendpoints, CLI output, or an e2e suite. Omit `accepting` only for pure libraries or utilities\nwhere unit tests ARE the complete acceptance criterion and there is no runtime to start.\n\nPresent the full resulting state machine to the user, including built-ins, in arrow form:\n`pending -> [chosen phases] -> done`\n\nLead with the two primary options below (1 and 2) and their trade-off; offer the\nvariants only where they apply. Format: `phase[:model],phase[:model],...`\n\n- **Option 1 (recommended, lean):** `in_progress:sonnet,accepting:sonnet` — implementing agent\n  guarded by a deterministic gate, then a behavioral acceptance agent. Suitable for most projects.\n- **Option 2 (alternative, spec-heavy):** `enriching:opus,in_progress:sonnet,accepting:sonnet`\n  — adds an upfront enriching phase to turn a rough task into a complete spec before any code\n  is written. Use when tasks arrive underspecified and a clarification step saves rework.\n- **Pure-library variant (no runtime):** `in_progress:codex` with a gate; skip `accepting`\n  because unit tests are the complete acceptance criterion and there is no observable runtime.\n- **Prototype with explicit model:** `in_progress:sonnet`\n- **Prototype using a configured default model:** `in_progress`\n\n**Phase duties**\nEach middle phase should carry a `duty` paragraph that states what the subagent does and what evidence or artifact it must produce. Duties are not set in `agira init`; after init, set them with:\n\n```sh\nagira phase update --set-duty <phase> \"<text>\"\n```\n\nFor an enriching phase, a good default duty is: \"Rewrite the task description as a complete spec with sections: ## Goal, ## Acceptance Criteria, ## Constraints. Persist with agira task update <id> --description \\\"...\\\", then advance.\"\n\nFor an accepting phase, choose the template that matches what Step 1.7 found:\n- **e2e suite present**: \"Run the e2e suite against a locally running instance. All scenarios must pass. Capture the test report and advance.\"\n- **frontend UI**: \"Start the app, open the feature in a browser, exercise the key user flows, capture screenshots proving the observable behavior matches the spec. Advance when all flows pass.\"\n- **API/HTTP server**: \"Start the server, send representative HTTP requests to the new endpoint(s), verify response status codes and payloads match the spec. Capture the request/response pairs and advance.\"\n- **CLI binary**: \"Build the binary and run it with representative inputs. Capture stdout/stderr and exit codes and confirm they match the spec. Advance when all cases pass.\"\n\nDo not set duties on `pending` or `done`; they are mandatory phases and reject duties.\n\n**Implementing-phase gate commands**\nFrom your scan and required start proof, propose exact deterministic commands to use as the\ngate on `in_progress`. Prefer commands found in CI or Makefile over anything you infer.\nIf a reliable check requires multiple shell operations, prefer an existing single project\nscript or Makefile target. Join multiple commands with `&&` so that it fails fast.\nCanonical example for Rust projects: `";

/// What is to be done then; `^` stands for the file of notes.
pub const SETUP_STEPS: &'static str =
    "`\n\n## Step 4 — Interview the user\n\nPresent ALL findings and recommendations in ONE message. Ask the user only where a decision is genuinely ambiguous (multiple reasonable options); confirm unambiguous values inline without a question.\n\nInclude the scan findings that matter, the required start proof, the recommended flag values,\nthe full state machine in `pending -> ... -> done` form, and 2–3 concrete alternatives only\nwhere the choice is not obvious. Ask for decisions with specific options, not an open-ended\n\"what would you like?\"\n\nAsk how they verify a feature is truly complete for this project: screenshots for frontend,\nAPI request/response for backend, stdout/stderr for CLI, or other proof of correctness.\nAsk what evidence each phase should deliver, then draft a suitable `duty` paragraph per\nmiddle phase for the user to confirm.\n\nIf Step 1.7 found observable runtime behavior (UI, API endpoints, CLI output, or an e2e suite),\npropose `accepting` as the **default recommendation** — not as an implicit option. Explain\nclearly why: the project has a runtime that can be exercised from outside, and a gate alone\ncannot confirm observable behavior. The user may override, but the default must include it.\n\n## Step 5 — Run agira init\n\nOnce all values are confirmed, call:\n\n```sh\nagira init \\\n  --stack <stack> \\\n  --phases <phase[:model],...>\n```\n\n## Step 6 — Set phase duties and the implementing gate\n\nAfter running `agira init`, run one command per meaningful middle phase to set its duty:\n\n```sh\nagira phase update --set-duty <phase> \"<draft duty>\"\n```\n\nUse only duties the user confirmed. Do not run this for `pending` or `done`.\n\nIf the workflow includes an `enriching` phase (Option 2 / spec-heavy alternative), set its\nduty using the canonical enriching template: \"Rewrite the task description as a complete\nspec with sections: ## Goal, ## Acceptance Criteria, ## Constraints. Persist with\n`agira task update <id> --description \\\"...\\\"`, then advance.\"\n\n**Set the deterministic gate on the implementing phase.** This is the most important step:\nit enforces lint, format, type-check, and unit tests automatically before the implementing\nagent can record any artifact. Run:\n\n```sh\nagira phase update in_progress --set-gate \"<deterministic check commands joined by &&>\"\n```\n\nDerive the actual gate commands from your scan findings (CI, Makefile, project scripts).\nUse the same commands you identified as the implementing-phase gate commands in Step 3.\n\n## Step 7 — Write ^\n\nAfter running `agira init`, update `^` in the repo root so future AI agents can work\nin this repo with minimal rediscovery.\n\nPreserve all human-authored sections verbatim. Use scan findings ONLY to fill MISSING sections; never overwrite or rewrite existing content. If a required section already exists, leave it as-is.\nKeep ^ concise — one line per point; no prose paragraphs where a bullet suffices.\n\n**If ^ does not exist:** create it from scratch.\n\n**If ^ exists:** read its current contents first, then add only missing required\nsections or missing bullets without rewriting existing content.\n\nThe ^ must cover all of these at minimum:\n\n- **Stack** — language, primary framework, key libraries\n- **Project structure** — what the top-level directories contain; where the main source tree lives\n- **Build, test, and lint commands** — exact commands, ready to copy-paste\n- **Local run/start** — exact start command, required env setup, port or URL, and proof it worked\n- **Commit conventions** — pattern from `git log`; omit if no consistent pattern was found\n- **Development workflow** — any conventions captured in existing config (current ^,\n  `";

/// How the text ends; `^` stands for the file of notes.
pub const CLOSING: &'static str =
    "`, CI files, Makefile, etc.)\n";

/// What is said about a configuration that was found.
pub open spec fn defaults_block(stack: Seq<char>, commands: Seq<Seq<char>>) -> Seq<char> {
    if stack != "unknown"@ {
        "## agira's auto-detected defaults\n\n**agira auto-detected these defaults; verify them, don't blindly trust them. Treat them as a starting point for Step 3 recommendations.**\n\n- `stack="@
            + stack + "`\n- suggested implementing-phase gate commands: `"@ + if commands.len() == 0 {
            "none found, derive from CI/scripts"@
        } else {
            join(commands, " && "@)
        } + "`\n\n"@
    } else {
        "## agira's auto-detected defaults\n\n**agira could not auto-detect reliable defaults for this repo. Investigate from the markers below and derive verification commands from CI/scripts.**\n\n"@
    }
}

/// What is said about a configuration that was found.
pub fn auto_detected_defaults_block(defaults: &Config, commands: &Vec<String>) -> (r: String)
    ensures
        r@ == defaults_block(defaults@.stack, commands.deep_view()),
{
    if str_eq(defaults.stack.as_str(), "unknown") {
        return "## agira's auto-detected defaults\n\n**agira could not auto-detect reliable defaults for this repo. Investigate from the markers below and derive verification commands from CI/scripts.**\n\n".to_owned();
    }
    let checks = if commands.len() == 0 {
        "none found, derive from CI/scripts".to_owned()
    } else {
        join_strs(commands, " && ")
    };
    let mut out = follow(
        "## agira's auto-detected defaults\n\n**agira auto-detected these defaults; verify them, don't blindly trust them. Treat them as a starting point for Step 3 recommendations.**\n\n- `stack=",
        defaults.stack.as_str(),
    );
    out.push_str("`\n- suggested implementing-phase gate commands: `");
    out.push_str(checks.as_str());
    out.push_str("`\n\n");
    out
}

/// A part of the text with the name of the file of notes in place of each `^`.
pub open spec fn with_notes(part: Seq<char>, files: AgentFilesView) -> Seq<char> {
    replace(part, '^', files.notes)
}

/// What an agent is asked to do where a user says nothing about a new project.
pub open spec fn init_prompt(stack: Seq<char>, commands: Seq<Seq<char>>, files: AgentFilesView) -> Seq<char> {
    INTRO@ + defaults_block(stack, commands) + with_notes(SCAN_STEPS@, files) + files.settings
        + with_notes(DECISION_STEPS@, files) + CANONICAL_GATE_COMMAND@ + with_notes(
        SETUP_STEPS@,
        files,
    ) + files.settings + with_notes(CLOSING@, files)
}

/// What an agent is asked to do where a user says nothing about a new project.
pub fn bare_invocation_prompt(defaults: &Config, commands: &Vec<String>, files: &AgentFiles) -> (r:
    String)
    ensures
        r@ == init_prompt(defaults@.stack, commands.deep_view(), files@),
{
    let notes = files.notes.as_str();
    let mut out = follow(INTRO, auto_detected_defaults_block(defaults, commands).as_str());
    out.push_str(replace_char(SCAN_STEPS, '^', notes).as_str());
    out.push_str(files.settings.as_str());
    out.push_str(replace_char(DECISION_STEPS, '^', notes).as_str());
    out.push_str(CANONICAL_GATE_COMMAND);
    out.push_str(replace_char(SETUP_STEPS, '^', notes).as_str());
    out.push_str(files.settings.as_str());
    out.push_str(replace_char(CLOSING, '^', notes).as_str());
    out
}

// ---------------------------------------------------------------------------------------------
// The command
// ---------------------------------------------------------------------------------------------

/// The flags that are missing beside one that is there.
pub open spec fn missing_flags(flags: InitFlagsView) -> Seq<Seq<char>> {
    if flags.stack is Some == flags.phases is Some {
        Seq::empty()
    } else if flags.stack is None {
        seq!["--stack"@]
    } else {
        seq!["--phases"@]
    }
}

/// The flags that are missing beside one that is there.
pub fn detect_missing_flags(flags: &InitFlags) -> (r: Vec<String>)
    ensures
        r.deep_view() == missing_flags(flags@),
{
    if flags.stack.is_some() == flags.phases.is_some() {
        let none: Vec<String> = Vec::new();
        assert(none.deep_view() =~= Seq::<Seq<char>>::empty());
        none
    } else if flags.stack.is_none() {
        list_one("--stack")
    } else {
        list_one("--phases")
    }
}

/// What setting up a project leaves to be done, given what its `package.json` says.
pub open spec fn init_step(
    project: ProjectView,
    flags: InitFlagsView,
    seen: RepoSeenView,
    facts: Option<PackageFactsView>,
    files: AgentFilesView,
) -> Result<InitStepView, InitErrorView> {
    let max_retries = project.global_config.default_max_retries;
    if missing_flags(flags).len() > 0 {
        Err(InitErrorView::MissingFlags { missing: missing_flags(flags) })
    } else if flags.stack is None {
        let found = project_scanned(seen, facts, max_retries);
        Ok(InitStepView::Prompt { text: init_prompt(found.config.stack, found.commands, files) })
    } else {
        let stack = trim(flags.stack->0);
        if stack.len() == 0 {
            Err(InitErrorView::MissingFlags { missing: seq!["--stack"@] })
        } else {
            match phases_in(flags.phases->0) {
                Err(e) => Err(e),
                Ok(phases) => Ok(
                    InitStepView::WriteConfig {
                        path: config_path(project),
                        config: single_workflow(stack, phases, max_retries),
                    },
                ),
            }
        }
    }
}

/// What setting up a project leaves to be done, given what its `package.json` says.
pub fn plan_init(
    project: &Project,
    flags: &InitFlags,
    seen: &RepoSeen,
    facts: &Option<PackageFacts>,
    files: &AgentFiles,
) -> (r: Result<InitStep, InitError>)
    ensures
        outcome(r) == init_step(project@, flags@, seen@, facts.deep_view(), files@),
{
    let max_retries: u32 = project.global_config.default_max_retries;
    let missing = detect_missing_flags(flags);
    assert(missing.deep_view().len() == missing.len());
    if missing.len() > 0 {
        return Err(InitError::MissingFlags { missing });
    }
    match (&flags.stack, &flags.phases) {
        (Some(stack), Some(phases)) => {
            let stack = trim_str(stack.as_str());
            if stack.unicode_len() == 0 {
                return Err(InitError::MissingFlags { missing: list_one("--stack") });
            }
            match parse_phases_flag(phases.as_str()) {
                Err(e) => Err(e),
                Ok(entries) => Ok(
                    InitStep::WriteConfig {
                        path: config_file(project),
                        config: Config::new_single_workflow(stack, entries, max_retries),
                    },
                ),
            }
        },
        _ => {
            let found = scan_files(seen, facts, max_retries);
            Ok(
                InitStep::Prompt {
                    text: bare_invocation_prompt(&found.config, &found.commands, files),
                },
            )
        },
    }
}

/// What setting up a project leaves to be done.
pub fn run_init(project: &Project, flags: &InitFlags, seen: &RepoSeen, files: &AgentFiles) -> (r: Result<
    InitStep,
    InitError,
>)
    ensures
        outcome(r) == init_step(
            project@,
            flags@,
            seen@,
            facts_in(seen@.package_text),
            files@,
        ),
{
    plan_init(project, flags, seen, &read_package_json(&seen.package_text), files)
}

// ---------------------------------------------------------------------------------------------
// Laws
// ---------------------------------------------------------------------------------------------

/// The phases that a text gives are none of those that every workflow has.
pub proof fn law_given_phases_are_in_the_middle(input: Seq<char>)
    requires
        phases_in(input) is Ok,
    ensures
        forall|i: int|
            0 <= i < phases_in(input)->Ok_0.len() ==> is_middle()(
                (#[trigger] phases_in(input)->Ok_0[i]).0,
            ),
{
    let entries = phase_entries(split(input, ','))->0;
    lemma_keep(keys(entries), is_middle());
    assert forall|i: int| 0 <= i < middle_phases(entries).len() implies is_middle()(
        (#[trigger] middle_phases(entries)[i]).0,
    ) by {
        assert(is_middle()(keep(keys(entries), is_middle())[i]));
    }
}

/// The configuration that is written for a new project is one that can be loaded, where no phase is
/// given twice.
pub proof fn law_written_init_config_is_valid(
    project: ProjectView,
    flags: InitFlagsView,
    seen: RepoSeenView,
    facts: Option<PackageFactsView>,
    files: AgentFilesView,
)
    requires
        init_step(project, flags, seen, facts, files) matches Ok(
            InitStepView::WriteConfig { .. },
        ),
        keys(phases_in(flags.phases->0)->Ok_0).no_duplicates(),
    ensures
        init_step(project, flags, seen, facts, files)->Ok_0->config.problem() is None,
{
    let phases = phases_in(flags.phases->0)->Ok_0;
    let max_retries = project.global_config.default_max_retries;
    lemma_single_workflow_valid(trim(flags.stack->0), phases, max_retries);
    lemma_problem(single_workflow(trim(flags.stack->0), phases, max_retries));
}

/// What is found in a project is a configuration that can be used.
pub proof fn law_scanned_config_is_valid(seen: RepoSeenView, facts: Option<PackageFactsView>, max_retries: u32)
    ensures
        project_scanned(seen, facts, max_retries).config.problem() is None,
{
    let found = project_scanned(seen, facts, max_retries).config;
    assert(found == single_workflow(found.stack, first_phases(), max_retries));
    reveal_strlit("in_progress");
    reveal_strlit("accepting");
    assert("in_progress"@.len() != "accepting"@.len());
    assert(keys(first_phases()).no_duplicates());
    lemma_single_workflow_valid(found.stack, first_phases(), max_retries);
    lemma_problem(found);
}

} // verus!
