//! Settings that hold for all projects of a user.

use vstd::prelude::*;

use crate::duplicate::{outcome, Duplicate};
use crate::string_map::{lemma_extensional, lookup, sorted, StringMap};
use crate::text::{
    digits_value, is_digit, join, join_path, join_strs, parse_u64, path_join, str_eq, trim,
    trim_str, unsigned_digits,
};
use crate::toml_doc::{
    boolean_value, insert_value, integer_value, list_value, new_table, parse_table, render_table,
    set_optional, subtable, subtable_of, table_entries, table_value, text_value, toml_parsed,
    toml_rendered, value_item, with_optional, TomlItem,
};

verus! {

/// What happens to a task whose retries are used up.
#[derive(Debug, Clone, Copy, PartialEq, Eq, Structural)]
pub enum OnRetryExhausted {
    Block,
    Fail,
}

/// How the agent process is started.
#[derive(Debug, PartialEq, Eq)]
pub struct ClaudeRunnerConfig {
    pub command: String,
    pub model: String,
    pub permission_mode: String,
    pub settings_path: Option<String>,
    pub extra_args: Vec<String>,
    pub env: StringMap<String>,
}

/// The contents of a `ClaudeRunnerConfig`.
#[verifier::ext_equal]
pub struct ClaudeRunnerConfigView {
    pub command: Seq<char>,
    pub model: Seq<char>,
    pub permission_mode: Seq<char>,
    pub settings_path: Option<Seq<char>>,
    pub extra_args: Seq<Seq<char>>,
    pub env: Seq<(Seq<char>, Seq<char>)>,
}

impl View for ClaudeRunnerConfig {
    type V = ClaudeRunnerConfigView;

    open spec fn view(&self) -> ClaudeRunnerConfigView {
        ClaudeRunnerConfigView {
            command: self.command@,
            model: self.model@,
            permission_mode: self.permission_mode@,
            settings_path: self.settings_path.deep_view(),
            extra_args: self.extra_args.deep_view(),
            env: self.env@,
        }
    }
}

impl DeepView for ClaudeRunnerConfig {
    type V = ClaudeRunnerConfigView;

    open spec fn deep_view(&self) -> ClaudeRunnerConfigView {
        self@
    }
}

impl Duplicate for ClaudeRunnerConfig {
    fn duplicate(&self) -> (r: Self) {
        ClaudeRunnerConfig {
            command: self.command.duplicate(),
            model: self.model.duplicate(),
            permission_mode: self.permission_mode.duplicate(),
            settings_path: self.settings_path.duplicate(),
            extra_args: self.extra_args.duplicate(),
            env: self.env.duplicate(),
        }
    }
}

impl Clone for ClaudeRunnerConfig {
    fn clone(&self) -> (r: Self)
        ensures
            r@ == self@,
    {
        self.duplicate()
    }
}


/// How runners work.
#[derive(Debug, PartialEq, Eq)]
pub struct RunnerConfig {
    pub lease_ttl: String,
    pub orchestrator_template_path: Option<String>,
    pub runner_type: String,
    pub auto_start: bool,
    pub claude: ClaudeRunnerConfig,
}

/// The contents of a `RunnerConfig`.
#[verifier::ext_equal]
pub struct RunnerConfigView {
    pub lease_ttl: Seq<char>,
    pub orchestrator_template_path: Option<Seq<char>>,
    pub runner_type: Seq<char>,
    pub auto_start: bool,
    pub claude: ClaudeRunnerConfigView,
}

impl View for RunnerConfig {
    type V = RunnerConfigView;

    open spec fn view(&self) -> RunnerConfigView {
        RunnerConfigView {
            lease_ttl: self.lease_ttl@,
            orchestrator_template_path: self.orchestrator_template_path.deep_view(),
            runner_type: self.runner_type@,
            auto_start: self.auto_start,
            claude: self.claude@,
        }
    }
}

impl DeepView for RunnerConfig {
    type V = RunnerConfigView;

    open spec fn deep_view(&self) -> RunnerConfigView {
        self@
    }
}

impl Duplicate for RunnerConfig {
    fn duplicate(&self) -> (r: Self) {
        RunnerConfig {
            lease_ttl: self.lease_ttl.duplicate(),
            orchestrator_template_path: self.orchestrator_template_path.duplicate(),
            runner_type: self.runner_type.duplicate(),
            auto_start: self.auto_start,
            claude: self.claude.duplicate(),
        }
    }
}

impl Clone for RunnerConfig {
    fn clone(&self) -> (r: Self)
        ensures
            r@ == self@,
    {
        self.duplicate()
    }
}


/// The settings of a user.
#[derive(Debug, PartialEq, Eq)]
pub struct GlobalConfig {
    pub default_max_retries: u32,
    pub hook_debug: bool,
    pub on_retry_exhausted: OnRetryExhausted,
    pub runner: RunnerConfig,
}

/// The contents of a `GlobalConfig`.
#[verifier::ext_equal]
pub struct GlobalConfigView {
    pub default_max_retries: u32,
    pub hook_debug: bool,
    pub on_retry_exhausted: OnRetryExhausted,
    pub runner: RunnerConfigView,
}

impl View for GlobalConfig {
    type V = GlobalConfigView;

    open spec fn view(&self) -> GlobalConfigView {
        GlobalConfigView {
            default_max_retries: self.default_max_retries,
            hook_debug: self.hook_debug,
            on_retry_exhausted: self.on_retry_exhausted,
            runner: self.runner@,
        }
    }
}

impl DeepView for GlobalConfig {
    type V = GlobalConfigView;

    open spec fn deep_view(&self) -> GlobalConfigView {
        self@
    }
}

impl Duplicate for GlobalConfig {
    fn duplicate(&self) -> (r: Self) {
        GlobalConfig {
            default_max_retries: self.default_max_retries,
            hook_debug: self.hook_debug,
            on_retry_exhausted: self.on_retry_exhausted,
            runner: self.runner.duplicate(),
        }
    }
}

impl Clone for GlobalConfig {
    fn clone(&self) -> (r: Self)
        ensures
            r@ == self@,
    {
        self.duplicate()
    }
}


/// What reading the settings of a user gave.
#[derive(Debug, PartialEq, Eq)]
pub enum GlobalRead {
    /// There is no such file.
    Missing,
    /// The file could not be read.
    Unreadable { message: String },
    /// The file holds no settings.
    Malformed { message: String },
    /// The settings that the file holds.
    Parsed { config: GlobalConfig },
}

/// The contents of a `GlobalRead`.
#[verifier::ext_equal]
pub enum GlobalReadView {
    Missing,
    Unreadable { message: Seq<char> },
    Malformed { message: Seq<char> },
    Parsed { config: GlobalConfigView },
}

impl View for GlobalRead {
    type V = GlobalReadView;

    open spec fn view(&self) -> GlobalReadView {
        match self {
            GlobalRead::Missing => GlobalReadView::Missing,
            GlobalRead::Unreadable { message } => GlobalReadView::Unreadable { message: message@ },
            GlobalRead::Malformed { message } => GlobalReadView::Malformed { message: message@ },
            GlobalRead::Parsed { config } => GlobalReadView::Parsed { config: config@ },
        }
    }
}

impl DeepView for GlobalRead {
    type V = GlobalReadView;

    open spec fn deep_view(&self) -> GlobalReadView {
        self@
    }
}

impl Duplicate for GlobalRead {
    fn duplicate(&self) -> (r: Self) {
        match self {
            GlobalRead::Missing => GlobalRead::Missing,
            GlobalRead::Unreadable { message } => GlobalRead::Unreadable { message: message.duplicate() },
            GlobalRead::Malformed { message } => GlobalRead::Malformed { message: message.duplicate() },
            GlobalRead::Parsed { config } => GlobalRead::Parsed { config: config.duplicate() },
        }
    }
}

impl Clone for GlobalRead {
    fn clone(&self) -> (r: Self)
        ensures
            r@ == self@,
    {
        self.duplicate()
    }
}


/// What reading a text file gave.
#[derive(Debug, PartialEq, Eq)]
pub enum TextRead {
    /// There is no such file.
    Missing,
    /// The file could not be read.
    Unreadable { message: String },
    /// The text of the file.
    Contents { text: String },
}

/// The contents of a `TextRead`.
#[verifier::ext_equal]
pub enum TextReadView {
    Missing,
    Unreadable { message: Seq<char> },
    Contents { text: Seq<char> },
}

impl View for TextRead {
    type V = TextReadView;

    open spec fn view(&self) -> TextReadView {
        match self {
            TextRead::Missing => TextReadView::Missing,
            TextRead::Unreadable { message } => TextReadView::Unreadable { message: message@ },
            TextRead::Contents { text } => TextReadView::Contents { text: text@ },
        }
    }
}

impl DeepView for TextRead {
    type V = TextReadView;

    open spec fn deep_view(&self) -> TextReadView {
        self@
    }
}

impl Duplicate for TextRead {
    fn duplicate(&self) -> (r: Self) {
        match self {
            TextRead::Missing => TextRead::Missing,
            TextRead::Unreadable { message } => TextRead::Unreadable { message: message.duplicate() },
            TextRead::Contents { text } => TextRead::Contents { text: text.duplicate() },
        }
    }
}

impl Clone for TextRead {
    fn clone(&self) -> (r: Self)
        ensures
            r@ == self@,
    {
        self.duplicate()
    }
}


/// Why the settings of a user could not be saved.
#[derive(Debug, PartialEq, Eq)]
pub enum SaveGlobalConfigError {
    Parse { path: String },
    Read { path: String },
    Serialize { path: String },
    Write { path: String },
}

/// The contents of a `SaveGlobalConfigError`.
#[verifier::ext_equal]
pub enum SaveGlobalConfigErrorView {
    Parse { path: Seq<char> },
    Read { path: Seq<char> },
    Serialize { path: Seq<char> },
    Write { path: Seq<char> },
}

impl View for SaveGlobalConfigError {
    type V = SaveGlobalConfigErrorView;

    open spec fn view(&self) -> SaveGlobalConfigErrorView {
        match self {
            SaveGlobalConfigError::Parse { path } => SaveGlobalConfigErrorView::Parse { path: path@ },
            SaveGlobalConfigError::Read { path } => SaveGlobalConfigErrorView::Read { path: path@ },
            SaveGlobalConfigError::Serialize { path } => SaveGlobalConfigErrorView::Serialize { path: path@ },
            SaveGlobalConfigError::Write { path } => SaveGlobalConfigErrorView::Write { path: path@ },
        }
    }
}

impl DeepView for SaveGlobalConfigError {
    type V = SaveGlobalConfigErrorView;

    open spec fn deep_view(&self) -> SaveGlobalConfigErrorView {
        self@
    }
}

impl Duplicate for SaveGlobalConfigError {
    fn duplicate(&self) -> (r: Self) {
        match self {
            SaveGlobalConfigError::Parse { path } => SaveGlobalConfigError::Parse { path: path.duplicate() },
            SaveGlobalConfigError::Read { path } => SaveGlobalConfigError::Read { path: path.duplicate() },
            SaveGlobalConfigError::Serialize { path } => SaveGlobalConfigError::Serialize { path: path.duplicate() },
            SaveGlobalConfigError::Write { path } => SaveGlobalConfigError::Write { path: path.duplicate() },
        }
    }
}

impl Clone for SaveGlobalConfigError {
    fn clone(&self) -> (r: Self)
        ensures
            r@ == self@,
    {
        self.duplicate()
    }
}

impl SaveGlobalConfigErrorView {
    /// The text shown for the error.
    pub open spec fn message(self) -> Seq<char> {
        match self {
            SaveGlobalConfigErrorView::Parse { path } => "invalid global config at "@ + path,
            SaveGlobalConfigErrorView::Read { path } => "failed to read "@ + path,
            SaveGlobalConfigErrorView::Serialize { path } => "failed to serialize global config for "@ + path,
            SaveGlobalConfigErrorView::Write { path } => "failed to write "@ + path,
        }
    }
}

impl SaveGlobalConfigError {
    /// The text shown for the error.
    pub fn message(&self) -> (r: String)
        ensures
            r@ == self@.message(),
    {
        match self {
            SaveGlobalConfigError::Parse { path } => {
                let mut out = "invalid global config at ".to_owned();
                out.push_str(path.as_str());
                out
            },
            SaveGlobalConfigError::Read { path } => {
                let mut out = "failed to read ".to_owned();
                out.push_str(path.as_str());
                out
            },
            SaveGlobalConfigError::Serialize { path } => {
                let mut out = "failed to serialize global config for ".to_owned();
                out.push_str(path.as_str());
                out
            },
            SaveGlobalConfigError::Write { path } => {
                let mut out = "failed to write ".to_owned();
                out.push_str(path.as_str());
                out
            },
        }
    }
}


/// Why the settings of a user could not be read or written.
#[derive(Debug, PartialEq, Eq)]
pub enum GlobalConfigError {
    Read { path: String, message: String },
    Parse { path: String, message: String },
    Write { path: String, message: String },
}

/// The contents of a `GlobalConfigError`.
#[verifier::ext_equal]
pub enum GlobalConfigErrorView {
    Read { path: Seq<char>, message: Seq<char> },
    Parse { path: Seq<char>, message: Seq<char> },
    Write { path: Seq<char>, message: Seq<char> },
}

impl View for GlobalConfigError {
    type V = GlobalConfigErrorView;

    open spec fn view(&self) -> GlobalConfigErrorView {
        match self {
            GlobalConfigError::Read { path, message } => GlobalConfigErrorView::Read { path: path@, message: message@ },
            GlobalConfigError::Parse { path, message } => GlobalConfigErrorView::Parse { path: path@, message: message@ },
            GlobalConfigError::Write { path, message } => GlobalConfigErrorView::Write { path: path@, message: message@ },
        }
    }
}

impl DeepView for GlobalConfigError {
    type V = GlobalConfigErrorView;

    open spec fn deep_view(&self) -> GlobalConfigErrorView {
        self@
    }
}

impl Duplicate for GlobalConfigError {
    fn duplicate(&self) -> (r: Self) {
        match self {
            GlobalConfigError::Read { path, message } => GlobalConfigError::Read { path: path.duplicate(), message: message.duplicate() },
            GlobalConfigError::Parse { path, message } => GlobalConfigError::Parse { path: path.duplicate(), message: message.duplicate() },
            GlobalConfigError::Write { path, message } => GlobalConfigError::Write { path: path.duplicate(), message: message.duplicate() },
        }
    }
}

impl Clone for GlobalConfigError {
    fn clone(&self) -> (r: Self)
        ensures
            r@ == self@,
    {
        self.duplicate()
    }
}

impl GlobalConfigErrorView {
    /// The text shown for the error.
    pub open spec fn message(self) -> Seq<char> {
        match self {
            GlobalConfigErrorView::Read { path, .. } => "failed to read "@ + path,
            GlobalConfigErrorView::Parse { message, .. } => "invalid global config at ~/.agira/config.toml: "@ + message,
            GlobalConfigErrorView::Write { path, .. } => "failed to write "@ + path,
        }
    }
}

impl GlobalConfigError {
    /// The text shown for the error.
    pub fn message(&self) -> (r: String)
        ensures
            r@ == self@.message(),
    {
        match self {
            GlobalConfigError::Read { path, .. } => {
                let mut out = "failed to read ".to_owned();
                out.push_str(path.as_str());
                out
            },
            GlobalConfigError::Parse { message, .. } => {
                let mut out = "invalid global config at ~/.agira/config.toml: ".to_owned();
                out.push_str(message.as_str());
                out
            },
            GlobalConfigError::Write { path, .. } => {
                let mut out = "failed to write ".to_owned();
                out.push_str(path.as_str());
                out
            },
        }
    }
}


/// The settings file of a new user whose agents are processes of a program.
pub open spec fn default_toml(program: Seq<char>) -> Seq<char> {
    "default_max_retries = 3\nhook_debug = false\non_retry_exhausted = \"block\"\n\n[runner]\nlease_ttl = \"5m\"\n\n# [runner."@
        + program + "]\n# command = \""@ + program
        + "\"\n# model = \"sonnet\"\n# permission_mode = \"auto\"\n# valid permission_mode choices: auto, acceptEdits, bypassPermissions, dontAsk, default, plan\n# settings_path = \"\"\n# extra_args = []\n#\n# [runner."@
        + program + ".env]\n"@
}

/// The settings file of a new user whose agents are processes of a program.
pub fn default_config_toml(program: &str) -> (r: String)
    ensures
        r@ == default_toml(program@),
{
    let mut out =
        "default_max_retries = 3\nhook_debug = false\non_retry_exhausted = \"block\"\n\n[runner]\nlease_ttl = \"5m\"\n\n# [runner.".to_owned();
    out.push_str(program);
    out.push_str("]\n# command = \"");
    out.push_str(program);
    out.push_str(
        "\"\n# model = \"sonnet\"\n# permission_mode = \"auto\"\n# valid permission_mode choices: auto, acceptEdits, bypassPermissions, dontAsk, default, plan\n# settings_path = \"\"\n# extra_args = []\n#\n# [runner.",
    );
    out.push_str(program);
    out.push_str(".env]\n");
    out
}

/// The permission modes that the agent process knows.
pub open spec fn permission_modes() -> Seq<Seq<char>> {
    seq![
        "auto"@,
        "acceptEdits"@,
        "bypassPermissions"@,
        "dontAsk"@,
        "default"@,
        "plan"@,
    ]
}

/// How a new user starts an agent process of a program.
pub open spec fn default_claude(program: Seq<char>) -> ClaudeRunnerConfigView {
    ClaudeRunnerConfigView {
        command: program,
        model: "sonnet"@,
        permission_mode: "auto"@,
        settings_path: None,
        extra_args: Seq::empty(),
        env: Seq::empty(),
    }
}

/// The runner settings of a new user.
pub open spec fn default_runner(program: Seq<char>) -> RunnerConfigView {
    RunnerConfigView {
        lease_ttl: "5m"@,
        orchestrator_template_path: None,
        runner_type: program + "-tmux"@,
        auto_start: false,
        claude: default_claude(program),
    }
}

/// The settings of a new user.
pub open spec fn default_global(program: Seq<char>) -> GlobalConfigView {
    GlobalConfigView {
        default_max_retries: 3,
        hook_debug: false,
        on_retry_exhausted: OnRetryExhausted::Block,
        runner: default_runner(program),
    }
}

fn default_max_retries() -> (r: u32)
    ensures
        r == 3,
{
    3
}

fn default_runner_lease_ttl() -> (r: String)
    ensures
        r@ == "5m"@,
{
    "5m".to_owned()
}

fn default_runner_type(program: &str) -> (r: String)
    ensures
        r@ == program@ + "-tmux"@,
{
    let mut out = program.to_owned();
    out.push_str("-tmux");
    out
}

fn default_claude_runner_model() -> (r: String)
    ensures
        r@ == "sonnet"@,
{
    "sonnet".to_owned()
}

fn default_claude_runner_permission_mode() -> (r: String)
    ensures
        r@ == "auto"@,
{
    "auto".to_owned()
}

fn default_on_retry_exhausted() -> (r: OnRetryExhausted)
    ensures
        r == OnRetryExhausted::Block,
{
    OnRetryExhausted::Block
}

impl GlobalConfig {
    /// The settings of a new user whose agents are processes of a program.
    pub fn for_program(program: &str) -> (r: Self)
        ensures
            r@ == default_global(program@),
    {
        GlobalConfig {
            default_max_retries: default_max_retries(),
            hook_debug: false,
            on_retry_exhausted: default_on_retry_exhausted(),
            runner: RunnerConfig::for_program(program),
        }
    }
}

impl RunnerConfig {
    /// The settings of a new user whose agents are processes of a program.
    pub fn for_program(program: &str) -> (r: Self)
        ensures
            r@ == default_runner(program@),
    {
        RunnerConfig {
            lease_ttl: default_runner_lease_ttl(),
            orchestrator_template_path: None,
            runner_type: default_runner_type(program),
            auto_start: false,
            claude: ClaudeRunnerConfig::for_program(program),
        }
    }
}

impl ClaudeRunnerConfig {
    /// The settings of a new user whose agents are processes of a program.
    pub fn for_program(program: &str) -> (r: Self)
        ensures
            r@ == default_claude(program@),
    {
        let r = ClaudeRunnerConfig {
            command: program.to_owned(),
            model: default_claude_runner_model(),
            permission_mode: default_claude_runner_permission_mode(),
            settings_path: None,
            extra_args: Vec::new(),
            env: StringMap::new(),
        };
        assert(r.extra_args.deep_view() =~= Seq::empty());
        r
    }
}

impl OnRetryExhausted {
    /// The name of the policy.
    pub open spec fn name(self) -> Seq<char> {
        match self {
            OnRetryExhausted::Block => "block"@,
            OnRetryExhausted::Fail => "fail"@,
        }
    }

    /// The name of the policy.
    pub fn as_str(self) -> (r: &'static str)
        ensures
            r@ == self.name(),
    {
        match self {
            OnRetryExhausted::Block => "block",
            OnRetryExhausted::Fail => "fail",
        }
    }
}

fn permission_mode_list() -> (r: Vec<String>)
    ensures
        r.deep_view() == permission_modes(),
{
    let r: Vec<String> = vec![
        "auto".to_owned(),
        "acceptEdits".to_owned(),
        "bypassPermissions".to_owned(),
        "dontAsk".to_owned(),
        "default".to_owned(),
        "plan".to_owned(),
    ];
    assert(r.deep_view() =~= permission_modes());
    r
}

/// Whether a list of texts holds a text.
pub fn list_has(list: &Vec<String>, item: &str) -> (r: bool)
    ensures
        r == list.deep_view().contains(item@),
{
    let mut i: usize = 0;
    while i < list.len()
        invariant
            i <= list.len(),
            forall|j: int| 0 <= j < i ==> #[trigger] list.deep_view()[j] != item@,
        decreases list.len() - i,
    {
        if str_eq(list[i].as_str(), item) {
            assert(list.deep_view()[i as int] == item@);
            return true;
        }
        i = i + 1;
    }
    false
}

impl ClaudeRunnerConfig {
    /// Accepts the permission modes that the agent process knows, and names them where the
    /// configured one is not among them.
    pub fn validate_permission_mode(&self, program: &str) -> (r: Result<(), String>)
        ensures
            outcome(r) == self@.check_permission_mode(program@),
    {
        let modes: Vec<String> = permission_mode_list();
        if list_has(&modes, self.permission_mode.as_str()) {
            return Ok(());
        }
        let mut out = "invalid runner.".to_owned();
        out.push_str(program);
        out.push_str(".permission_mode '");
        out.push_str(self.permission_mode.as_str());
        out.push_str("': expected one of ");
        out.push_str(join_strs(&modes, ", ").as_str());
        Err(out)
    }
}

impl ClaudeRunnerConfigView {
    /// Whether the permission mode is known, and the reason where it is not.
    pub open spec fn check_permission_mode(self, program: Seq<char>) -> Result<(), Seq<char>> {
        if permission_modes().contains(self.permission_mode) {
            Ok(())
        } else {
            Err(
                "invalid runner."@ + program + ".permission_mode '"@ + self.permission_mode
                    + "': expected one of "@ + join(permission_modes(), ", "@),
            )
        }
    }
}

// ---------------------------------------------------------------------------------------------
// Durations
// ---------------------------------------------------------------------------------------------

/// The number of decimal digits at the front of a text.
pub open spec fn digit_run(s: Seq<char>) -> int
    decreases s.len(),
{
    if s.len() > 0 && is_digit(s[0]) {
        1 + digit_run(s.skip(1))
    } else {
        0
    }
}

/// The seconds of a unit of time.
pub open spec fn unit_seconds(unit: Seq<char>) -> Option<int> {
    if unit == "s"@ {
        Some(1)
    } else if unit == "m"@ {
        Some(60)
    } else if unit == "h"@ {
        Some(3600)
    } else if unit == "d"@ {
        Some(86400)
    } else {
        None
    }
}

/// The seconds of a duration such as `5m`, or why the text is none.
pub open spec fn duration_seconds(s: Seq<char>) -> Result<int, Seq<char>> {
    let t = trim(s);
    let n = digit_run(t);
    let amount = digits_value(t.take(n));
    if n == 0 || n == t.len() {
        Err("expected a duration like 5m"@)
    } else if amount > i64::MAX {
        Err("expected a positive integer duration amount"@)
    } else if amount == 0 {
        Err("duration must be positive"@)
    } else {
        match unit_seconds(t.skip(n)) {
            Some(unit) => Ok(amount * unit),
            None => Err("supported units are s, m, h, and d"@),
        }
    }
}

/// The longest duration in seconds: as many milliseconds as a signed 64-bit number holds.
pub const MAX_DURATION_SECONDS: i64 = 9_223_372_036_854_775;

/// A text that is no duration, or one of a duration that is not too long.
pub open spec fn duration_fits(s: Seq<char>) -> bool {
    duration_seconds(s) matches Ok(n) ==> n <= MAX_DURATION_SECONDS
}

proof fn lemma_digit_run(s: Seq<char>)
    ensures
        0 <= digit_run(s) <= s.len(),
        forall|i: int| 0 <= i < digit_run(s) ==> is_digit(#[trigger] s[i]),
    decreases s.len(),
{
    if s.len() > 0 && is_digit(s[0]) {
        lemma_digit_run(s.skip(1));
        assert forall|i: int| 0 <= i < digit_run(s) implies is_digit(#[trigger] s[i]) by {
            if i > 0 {
                assert(s[i] == s.skip(1)[i - 1]);
            }
        }
    }
}

fn digit_run_of(s: &str) -> (r: usize)
    ensures
        r == digit_run(s@),
        r <= s@.len(),
{
    let x: Vec<char> = crate::text::to_chars(s);
    let mut i: usize = 0;
    assert(s@.skip(0) =~= s@);
    while i < x.len() && 48 <= (x[i] as u32) && (x[i] as u32) <= 57
        invariant
            i <= x.len(),
            x@ == s@,
            digit_run(s@) == i + digit_run(s@.skip(i as int)),
        decreases x.len() - i,
    {
        assert(s@.skip(i as int).skip(1) =~= s@.skip(i + 1));
        i = i + 1;
    }
    i
}

/// The amount and the seconds of the unit of a duration, or why the text is none.
fn duration_parts(input: &str) -> (r: Result<(u64, u64), String>)
    ensures
        match r {
            Ok((amount, unit)) => duration_seconds(input@) == Ok::<int, Seq<char>>(amount * unit)
                && 0 < amount <= i64::MAX && 0 < unit <= 86400,
            Err(e) => duration_seconds(input@) == Err::<int, Seq<char>>(e@),
        },
{
    let t = trim_str(input);
    let n: usize = digit_run_of(t);
    let len: usize = t.unicode_len();
    if n == 0 || n == len {
        return Err("expected a duration like 5m".to_owned());
    }
    let digits = t.substring_char(0, n);
    let unit = t.substring_char(n, len);
    proof {
        lemma_digit_run(t@);
        assert(digits@ =~= t@.take(n as int));
        assert(unit@ =~= t@.skip(n as int));
        assert(is_digit(digits@[0]));
        assert(unsigned_digits(digits@) == digits@);
        assert forall|i: int| 0 <= i < digits@.len() implies is_digit(#[trigger] digits@[i]) by {
            assert(digits@[i] == t@[i]);
        }
    }
    let amount: u64 = match parse_u64(digits, 9_223_372_036_854_775_807) {
        Some(amount) => amount,
        None => {
            return Err("expected a positive integer duration amount".to_owned());
        },
    };
    if amount == 0 {
        return Err("duration must be positive".to_owned());
    }
    if str_eq(unit, "s") {
        Ok((amount, 1))
    } else if str_eq(unit, "m") {
        Ok((amount, 60))
    } else if str_eq(unit, "h") {
        Ok((amount, 3600))
    } else if str_eq(unit, "d") {
        Ok((amount, 86400))
    } else {
        Err("supported units are s, m, h, and d".to_owned())
    }
}

/// Whether a text is no duration, or one of a duration that is not too long.
pub fn duration_in_range(input: &str) -> (r: bool)
    ensures
        r == duration_fits(input@),
{
    match duration_parts(input) {
        Ok((amount, unit)) => {
            let total: u128 = amount as u128 * unit as u128;
            total <= 9_223_372_036_854_775
        },
        Err(_) => true,
    }
}

/// The seconds of a duration such as `5m`.
pub fn parse_duration(input: &str) -> (r: Result<i64, String>)
    requires
        duration_fits(input@),
    ensures
        match r {
            Ok(n) => duration_seconds(input@) == Ok::<int, Seq<char>>(n as int) && 0 < n
                <= MAX_DURATION_SECONDS,
            Err(e) => duration_seconds(input@) == Err::<int, Seq<char>>(e@),
        },
{
    match duration_parts(input) {
        Ok((amount, unit)) => {
            assert(0 < amount * unit) by (nonlinear_arith)
                requires
                    0 < amount,
                    0 < unit,
            ;
            Ok((amount * unit) as i64)
        },
        Err(e) => Err(e),
    }
}

impl RunnerConfigView {
    /// The seconds of the lease time, or why it is no duration.
    pub open spec fn lease_seconds(self) -> Result<int, Seq<char>> {
        match duration_seconds(self.lease_ttl) {
            Ok(n) => Ok(n),
            Err(reason) => Err(
                "invalid runner.lease_ttl '"@ + self.lease_ttl + "': "@ + reason,
            ),
        }
    }
}

impl RunnerConfig {
    /// The lease time in seconds.
    pub fn lease_ttl_duration(&self) -> (r: Result<i64, String>)
        requires
            duration_fits(self@.lease_ttl),
        ensures
            match r {
                Ok(n) => self@.lease_seconds() == Ok::<int, Seq<char>>(n as int) && 0 < n
                    <= MAX_DURATION_SECONDS,
                Err(e) => self@.lease_seconds() == Err::<int, Seq<char>>(e@),
            },
    {
        match parse_duration(self.lease_ttl.as_str()) {
            Ok(n) => Ok(n),
            Err(reason) => {
                let mut out = "invalid runner.lease_ttl '".to_owned();
                out.push_str(self.lease_ttl.as_str());
                out.push_str("': ");
                out.push_str(reason.as_str());
                Err(out)
            },
        }
    }
}

// ---------------------------------------------------------------------------------------------
// Loading and saving
// ---------------------------------------------------------------------------------------------

/// The settings that were read, where they can be used; those of a new user where there are none.
pub open spec fn loaded_global(agira_root: Seq<char>, program: Seq<char>, read: GlobalReadView) -> Result<
    GlobalConfigView,
    GlobalConfigErrorView,
> {
    let path = path_join(agira_root, "config.toml"@);
    match read {
        GlobalReadView::Missing => Ok(default_global(program)),
        GlobalReadView::Unreadable { message } => Err(
            GlobalConfigErrorView::Read { path, message },
        ),
        GlobalReadView::Malformed { message } => Err(
            GlobalConfigErrorView::Parse { path, message },
        ),
        GlobalReadView::Parsed { config } => match config.runner.lease_seconds() {
            Err(message) => Err(GlobalConfigErrorView::Parse { path, message }),
            Ok(_) => match config.runner.claude.check_permission_mode(program) {
                Err(message) => Err(GlobalConfigErrorView::Parse { path, message }),
                Ok(_) => Ok(config),
            },
        },
    }
}

/// The settings that were read, where they can be used; those of a new user where there are none.
pub fn load_or_create(agira_root: &str, program: &str, read: GlobalRead) -> (r: Result<
    GlobalConfig,
    GlobalConfigError,
>)
    requires
        read@ matches GlobalReadView::Parsed { config } ==> duration_fits(config.runner.lease_ttl),
    ensures
        outcome(r) == loaded_global(agira_root@, program@, read@),
{
    let path = join_path(agira_root, "config.toml");
    match read {
        GlobalRead::Missing => Ok(GlobalConfig::for_program(program)),
        GlobalRead::Unreadable { message } => Err(GlobalConfigError::Read { path, message }),
        GlobalRead::Malformed { message } => Err(GlobalConfigError::Parse { path, message }),
        GlobalRead::Parsed { config } => match config.runner.lease_ttl_duration() {
            Err(message) => Err(GlobalConfigError::Parse { path, message }),
            Ok(_) => match config.runner.claude.validate_permission_mode(program) {
                Err(message) => Err(GlobalConfigError::Parse { path, message }),
                Ok(_) => Ok(config),
            },
        },
    }
}

/// The text to write to the settings file where there is none.
pub fn settings_to_write(program: &str, read: &GlobalRead) -> (r: Option<String>)
    ensures
        r.deep_view() == if read@ is Missing {
            Some(default_toml(program@))
        } else {
            None
        },
{
    match read {
        GlobalRead::Missing => Some(default_config_toml(program)),
        _ => None,
    }
}

/// A list of texts as a value of a document.
pub open spec fn text_list(items: Seq<Seq<char>>) -> TomlItem {
    TomlItem::List(items.map_values(|s: Seq<char>| TomlItem::Text(s)))
}

/// Texts under keys as a table of a document.
pub open spec fn text_table(entries: Seq<(Seq<char>, Seq<char>)>) -> Map<Seq<char>, TomlItem>
    decreases entries.len(),
{
    if entries.len() == 0 {
        Map::empty()
    } else {
        text_table(entries.drop_last()).insert(entries.last().0, TomlItem::Text(entries.last().1))
    }
}

/// A table about the agent process, brought up to date.
pub open spec fn merged_claude(
    t: Map<Seq<char>, TomlItem>,
    c: ClaudeRunnerConfigView,
) -> Map<Seq<char>, TomlItem> {
    with_optional(
        t.insert("command"@, TomlItem::Text(c.command)).insert("model"@, TomlItem::Text(c.model)).insert(
            "permission_mode"@,
            TomlItem::Text(c.permission_mode),
        ),
        "settings_path"@,
        c.settings_path,
    ).insert("extra_args"@, text_list(c.extra_args)).insert(
        "env"@,
        TomlItem::Table(text_table(c.env)),
    )
}

/// A table about runners, brought up to date.
pub open spec fn merged_runner(t: Map<Seq<char>, TomlItem>, program: Seq<char>, c: RunnerConfigView) -> Map<
    Seq<char>,
    TomlItem,
> {
    let own = with_optional(
        t.insert("lease_ttl"@, TomlItem::Text(c.lease_ttl)),
        "orchestrator_template_path"@,
        c.orchestrator_template_path,
    ).insert("type"@, TomlItem::Text(c.runner_type)).insert(
        "auto_start"@,
        TomlItem::Boolean(c.auto_start),
    );
    own.insert(program, TomlItem::Table(merged_claude(subtable(own, program), c.claude)))
}

/// A document brought up to date with the settings of a user; what it holds besides stays.
pub open spec fn merged_global(t: Map<Seq<char>, TomlItem>, program: Seq<char>, c: GlobalConfigView) -> Map<
    Seq<char>,
    TomlItem,
> {
    let own = t.insert(
        "default_max_retries"@,
        TomlItem::Integer(c.default_max_retries as int),
    ).insert("hook_debug"@, TomlItem::Boolean(c.hook_debug)).insert(
        "on_retry_exhausted"@,
        TomlItem::Text(c.on_retry_exhausted.name()),
    );
    own.insert("runner"@, TomlItem::Table(merged_runner(subtable(own, "runner"@), program, c.runner)))
}

/// The text of the settings file that saving the settings of a user gives.
pub open spec fn saved_global(
    agira_root: Seq<char>,
    program: Seq<char>,
    read: TextReadView,
    c: GlobalConfigView,
) -> Result<
    Seq<char>,
    SaveGlobalConfigErrorView,
> {
    let path = path_join(agira_root, "config.toml"@);
    let document = match read {
        TextReadView::Missing => Ok(Map::<Seq<char>, TomlItem>::empty()),
        TextReadView::Unreadable { message } => Err(SaveGlobalConfigErrorView::Read { path }),
        TextReadView::Contents { text } => match toml_parsed(text) {
            Ok(m) => Ok(m),
            Err(_) => Err(SaveGlobalConfigErrorView::Parse { path }),
        },
    };
    match document {
        Err(e) => Err(e),
        Ok(m) => match toml_rendered(merged_global(m, program, c)) {
            Ok(s) => Ok(s),
            Err(_) => Err(SaveGlobalConfigErrorView::Serialize { path }),
        },
    }
}

/// Brings a document up to date with the settings of a user.
pub(crate) fn merge_global(
    document: toml::map::Map<String, toml::Value>,
    program: &str,
    config: &GlobalConfig,
) -> (r: toml::map::Map<String, toml::Value>)
    ensures
        table_entries(r) == merged_global(table_entries(document), program@, config@),
{
    let mut document = document;
    insert_value(
        &mut document,
        "default_max_retries".to_owned(),
        integer_value(config.default_max_retries as i64),
    );
    insert_value(&mut document, "hook_debug".to_owned(), boolean_value(config.hook_debug));
    insert_value(
        &mut document,
        "on_retry_exhausted".to_owned(),
        text_value(config.on_retry_exhausted.as_str().to_owned()),
    );
    let runner = merge_runner(subtable_of(&document, "runner"), program, &config.runner);
    insert_value(&mut document, "runner".to_owned(), table_value(runner));
    document
}

fn merge_runner(table: toml::map::Map<String, toml::Value>, program: &str, config: &RunnerConfig) -> (r:
    toml::map::Map<String, toml::Value>)
    ensures
        table_entries(r) == merged_runner(table_entries(table), program@, config@),
{
    let mut table = table;
    insert_value(&mut table, "lease_ttl".to_owned(), text_value(config.lease_ttl.clone()));
    set_optional(
        &mut table,
        "orchestrator_template_path",
        &config.orchestrator_template_path,
    );
    insert_value(&mut table, "type".to_owned(), text_value(config.runner_type.clone()));
    insert_value(&mut table, "auto_start".to_owned(), boolean_value(config.auto_start));
    let claude = merge_claude(subtable_of(&table, program), &config.claude);
    insert_value(&mut table, program.to_owned(), table_value(claude));
    table
}

fn merge_claude(table: toml::map::Map<String, toml::Value>, config: &ClaudeRunnerConfig) -> (r:
    toml::map::Map<String, toml::Value>)
    ensures
        table_entries(r) == merged_claude(table_entries(table), config@),
{
    let mut table = table;
    insert_value(&mut table, "command".to_owned(), text_value(config.command.clone()));
    insert_value(&mut table, "model".to_owned(), text_value(config.model.clone()));
    insert_value(
        &mut table,
        "permission_mode".to_owned(),
        text_value(config.permission_mode.clone()),
    );
    set_optional(&mut table, "settings_path", &config.settings_path);
    insert_value(&mut table, "extra_args".to_owned(), text_values(&config.extra_args));
    insert_value(&mut table, "env".to_owned(), table_value(text_entries(&config.env)));
    table
}

fn text_values(items: &Vec<String>) -> (r: toml::Value)
    ensures
        value_item(r) == text_list(items.deep_view()),
{
    let ghost all = items.deep_view();
    let mut out: Vec<toml::Value> = Vec::new();
    let mut i: usize = 0;
    while i < items.len()
        invariant
            i <= items.len(),
            all == items.deep_view(),
            out.len() == i,
            forall|j: int| 0 <= j < i ==> value_item(#[trigger] out@[j]) == TomlItem::Text(all[j]),
        decreases items.len() - i,
    {
        out.push(text_value(items[i].clone()));
        i = i + 1;
    }
    assert(out@.map_values(|v: toml::Value| value_item(v)) =~= all.map_values(
        |s: Seq<char>| TomlItem::Text(s),
    ));
    list_value(out)
}

fn text_entries(items: &StringMap<String>) -> (r: toml::map::Map<String, toml::Value>)
    ensures
        table_entries(r) == text_table(items@),
{
    let ghost all = items@;
    let mut out = new_table();
    let mut i: usize = 0;
    assert(all.take(0) =~= Seq::empty());
    while i < items.len()
        invariant
            i <= all.len(),
            all == items@,
            table_entries(out) == text_table(all.take(i as int)),
        decreases all.len() - i,
    {
        assert(all.take(i + 1).drop_last() =~= all.take(i as int));
        assert(all.take(i + 1).last() == all[i as int]);
        insert_value(&mut out, items.key_at(i).clone(), text_value(items.value_at(i).clone()));
        i = i + 1;
    }
    assert(all.take(i as int) =~= all);
    out
}

/// The text of the settings file once the settings of a user are saved in it: what the file held
/// besides stays.
pub fn save_global_config(agira_root: &str, program: &str, read: &TextRead, config: &GlobalConfig) -> (r: Result<
    String,
    SaveGlobalConfigError,
>)
    ensures
        outcome(r) == saved_global(agira_root@, program@, read@, config@),
{
    let path = join_path(agira_root, "config.toml");
    let document = match read {
        TextRead::Missing => new_table(),
        TextRead::Unreadable { .. } => {
            return Err(SaveGlobalConfigError::Read { path });
        },
        TextRead::Contents { text } => match parse_table(text.as_str()) {
            Ok(t) => t,
            Err(_) => {
                return Err(SaveGlobalConfigError::Parse { path });
            },
        },
    };
    match render_table(&merge_global(document, program, config)) {
        Ok(s) => Ok(s),
        Err(_) => Err(SaveGlobalConfigError::Serialize { path }),
    }
}

// ---------------------------------------------------------------------------------------------
// Laws
// ---------------------------------------------------------------------------------------------

/// Saving settings leaves the keys of the document that are none of the settings as they were.
pub proof fn law_saving_keeps_other_keys(t: Map<Seq<char>, TomlItem>, program: Seq<char>, c: GlobalConfigView, key: Seq<char>)
    requires
        key != "default_max_retries"@,
        key != "hook_debug"@,
        key != "on_retry_exhausted"@,
        key != "runner"@,
    ensures
        merged_global(t, program, c).contains_key(key) == t.contains_key(key),
        t.contains_key(key) ==> merged_global(t, program, c)[key] == t[key],
{
}

/// Saving settings leaves the keys about runners that are none of the settings as they were.
pub proof fn law_saving_keeps_other_runner_keys(
    t: Map<Seq<char>, TomlItem>,
    program: Seq<char>,
    c: GlobalConfigView,
    key: Seq<char>,
)
    requires
        key != "lease_ttl"@,
        key != "orchestrator_template_path"@,
        key != "type"@,
        key != "auto_start"@,
        key != program,
    ensures
        ({
            let before = subtable(t, "runner"@);
            let after = subtable(merged_global(t, program, c), "runner"@);
            &&& after.contains_key(key) == before.contains_key(key)
            &&& before.contains_key(key) ==> after[key] == before[key]
        }),
{
    lemma_global_keys();
}

proof fn lemma_global_keys()
    ensures
        "runner"@ != "default_max_retries"@,
        "runner"@ != "hook_debug"@,
        "runner"@ != "on_retry_exhausted"@,
        "hook_debug"@ != "default_max_retries"@,
        "on_retry_exhausted"@ != "hook_debug"@,
        "on_retry_exhausted"@ != "default_max_retries"@,
{
    reveal_strlit("runner");
    reveal_strlit("default_max_retries");
    reveal_strlit("hook_debug");
    reveal_strlit("on_retry_exhausted");
    assert("runner"@.len() == 6);
    assert("default_max_retries"@.len() == 19);
    assert("hook_debug"@.len() == 10);
    assert("on_retry_exhausted"@.len() == 18);
}

/// A name that is no key of another setting about runners.
pub open spec fn own_key(program: Seq<char>) -> bool {
    &&& program != "lease_ttl"@
    &&& program != "orchestrator_template_path"@
    &&& program != "type"@
    &&& program != "auto_start"@
}

proof fn lemma_runner_keys()
    ensures
        "lease_ttl"@ != "orchestrator_template_path"@,
        "lease_ttl"@ != "type"@,
        "lease_ttl"@ != "auto_start"@,
        "orchestrator_template_path"@ != "type"@,
        "orchestrator_template_path"@ != "auto_start"@,
        "type"@ != "auto_start"@,
{
    reveal_strlit("lease_ttl");
    reveal_strlit("orchestrator_template_path");
    reveal_strlit("type");
    reveal_strlit("auto_start");
    assert("lease_ttl"@.len() == 9);
    assert("orchestrator_template_path"@.len() == 26);
    assert("type"@.len() == 4);
    assert("auto_start"@.len() == 10);
}

/// A document with an item under a key.
pub open spec fn under(m: Map<Seq<char>, TomlItem>, key: Seq<char>, item: TomlItem) -> bool {
    m.contains_key(key) && m[key] == item
}

/// A document with a text under a key, or without the key where there is no text.
pub open spec fn under_optional(
    m: Map<Seq<char>, TomlItem>,
    key: Seq<char>,
    text: Option<Seq<char>>,
) -> bool {
    match text {
        Some(s) => under(m, key, TomlItem::Text(s)),
        None => !m.contains_key(key),
    }
}

/// A table that says how the agent process is started.
pub open spec fn holds_claude(m: Map<Seq<char>, TomlItem>, c: ClaudeRunnerConfigView) -> bool {
    &&& under(m, "command"@, TomlItem::Text(c.command))
    &&& under(m, "model"@, TomlItem::Text(c.model))
    &&& under(m, "permission_mode"@, TomlItem::Text(c.permission_mode))
    &&& under_optional(m, "settings_path"@, c.settings_path)
    &&& under(m, "extra_args"@, text_list(c.extra_args))
    &&& under(m, "env"@, TomlItem::Table(text_table(c.env)))
}

/// A document that holds each of the settings under its key.
pub open spec fn holds_settings(
    m: Map<Seq<char>, TomlItem>,
    program: Seq<char>,
    c: GlobalConfigView,
) -> bool {
    let r = subtable(m, "runner"@);
    &&& under(m, "default_max_retries"@, TomlItem::Integer(c.default_max_retries as int))
    &&& under(m, "hook_debug"@, TomlItem::Boolean(c.hook_debug))
    &&& under(m, "on_retry_exhausted"@, TomlItem::Text(c.on_retry_exhausted.name()))
    &&& under(r, "lease_ttl"@, TomlItem::Text(c.runner.lease_ttl))
    &&& under_optional(r, "orchestrator_template_path"@, c.runner.orchestrator_template_path)
    &&& under(r, "type"@, TomlItem::Text(c.runner.runner_type))
    &&& under(r, "auto_start"@, TomlItem::Boolean(c.runner.auto_start))
    &&& holds_claude(subtable(r, program), c.runner.claude)
}

/// A saved document holds each of the settings under its key, whatever it held before.
pub proof fn law_saved_settings_are_there(t: Map<Seq<char>, TomlItem>, program: Seq<char>, c: GlobalConfigView)
    requires
        own_key(program),
    ensures
        holds_settings(merged_global(t, program, c), program, c),
{
    lemma_global_keys();
    lemma_runner_keys();
    lemma_claude_keys();
}

/// A document holds the settings of one user only.
pub proof fn law_document_tells_the_settings(
    m: Map<Seq<char>, TomlItem>,
    program: Seq<char>,
    a: GlobalConfigView,
    b: GlobalConfigView,
)
    requires
        holds_settings(m, program, a),
        holds_settings(m, program, b),
        sorted(a.runner.claude.env),
        sorted(b.runner.claude.env),
    ensures
        a == b,
{
    reveal_strlit("block");
    reveal_strlit("fail");
    assert("block"@.len() == 5);
    assert("fail"@.len() == 4);
    let x = a.runner.claude;
    let y = b.runner.claude;
    let xs = x.extra_args.map_values(|s: Seq<char>| TomlItem::Text(s));
    let ys = y.extra_args.map_values(|s: Seq<char>| TomlItem::Text(s));
    assert(xs == ys);
    assert(x.extra_args.len() == xs.len() && y.extra_args.len() == ys.len());
    assert forall|i: int| 0 <= i < x.extra_args.len() implies x.extra_args[i] == y.extra_args[i] by {
        assert(xs[i] == TomlItem::Text(x.extra_args[i]));
        assert(ys[i] == TomlItem::Text(y.extra_args[i]));
    }
    assert(x.extra_args =~= y.extra_args);
    assert forall|key: Seq<char>| #[trigger] lookup(x.env, key) == lookup(y.env, key) by {
        lemma_text_table(x.env, key);
        lemma_text_table(y.env, key);
    }
    lemma_extensional(x.env, y.env);
    assert(a =~= b);
}

/// Settings that can be used, once they are saved and are read where the saved document holds
/// them, are loaded as they were saved, whatever the document held before.
pub proof fn law_saved_settings_are_loaded(
    agira_root: Seq<char>,
    program: Seq<char>,
    t: Map<Seq<char>, TomlItem>,
    c: GlobalConfigView,
    found: GlobalConfigView,
)
    requires
        own_key(program),
        sorted(c.runner.claude.env),
        sorted(found.runner.claude.env),
        c.runner.lease_seconds() is Ok,
        c.runner.claude.check_permission_mode(program) is Ok,
        holds_settings(merged_global(t, program, c), program, found),
    ensures
        loaded_global(agira_root, program, GlobalReadView::Parsed { config: found }) == Ok::<
            GlobalConfigView,
            GlobalConfigErrorView,
        >(c),
{
    law_saved_settings_are_there(t, program, c);
    law_document_tells_the_settings(merged_global(t, program, c), program, found, c);
}

proof fn lemma_text_table(entries: Seq<(Seq<char>, Seq<char>)>, key: Seq<char>)
    ensures
        text_table(entries).contains_key(key) == lookup(entries, key) is Some,
        lookup(entries, key) is Some ==> text_table(entries)[key] == TomlItem::Text(
            lookup(entries, key)->0,
        ),
    decreases entries.len(),
{
    if entries.len() > 0 {
        lemma_text_table(entries.drop_last(), key);
    }
}

proof fn lemma_claude_keys()
    ensures
        "command"@ != "model"@,
        "command"@ != "permission_mode"@,
        "command"@ != "settings_path"@,
        "command"@ != "extra_args"@,
        "command"@ != "env"@,
        "model"@ != "permission_mode"@,
        "model"@ != "settings_path"@,
        "model"@ != "extra_args"@,
        "model"@ != "env"@,
        "permission_mode"@ != "settings_path"@,
        "permission_mode"@ != "extra_args"@,
        "permission_mode"@ != "env"@,
        "settings_path"@ != "extra_args"@,
        "settings_path"@ != "env"@,
        "extra_args"@ != "env"@,
{
    reveal_strlit("command");
    reveal_strlit("model");
    reveal_strlit("permission_mode");
    reveal_strlit("settings_path");
    reveal_strlit("extra_args");
    reveal_strlit("env");
    assert("command"@.len() == 7);
    assert("model"@.len() == 5);
    assert("permission_mode"@.len() == 15);
    assert("settings_path"@.len() == 13);
    assert("extra_args"@.len() == 10);
    assert("env"@.len() == 3);
}

/// Saving settings a second time gives the same document as saving them once.
pub proof fn law_saving_twice_is_saving_once(t: Map<Seq<char>, TomlItem>, program: Seq<char>, c: GlobalConfigView)
    requires
        own_key(program),
    ensures
        merged_global(merged_global(t, program, c), program, c) == merged_global(t, program, c),
{
    lemma_global_keys();
    lemma_runner_keys();
    let once = merged_global(t, program, c);
    let twice = merged_global(once, program, c);
    let r = subtable(once, "runner"@);
    lemma_runner_twice(subtable(
        t.insert("default_max_retries"@, TomlItem::Integer(c.default_max_retries as int)).insert(
            "hook_debug"@,
            TomlItem::Boolean(c.hook_debug),
        ).insert("on_retry_exhausted"@, TomlItem::Text(c.on_retry_exhausted.name())),
        "runner"@,
    ), program, c.runner);
    assert(merged_runner(r, program, c.runner) == r);
    assert(twice =~= once);
}

proof fn lemma_runner_twice(t: Map<Seq<char>, TomlItem>, program: Seq<char>, c: RunnerConfigView)
    requires
        own_key(program),
    ensures
        merged_runner(merged_runner(t, program, c), program, c) == merged_runner(t, program, c),
{
    lemma_runner_keys();
    let once = merged_runner(t, program, c);
    let twice = merged_runner(once, program, c);
    let own = with_optional(
        t.insert("lease_ttl"@, TomlItem::Text(c.lease_ttl)),
        "orchestrator_template_path"@,
        c.orchestrator_template_path,
    ).insert("type"@, TomlItem::Text(c.runner_type)).insert(
        "auto_start"@,
        TomlItem::Boolean(c.auto_start),
    );
    lemma_claude_twice(subtable(own, program), c.claude);
    assert(subtable(once, program) == merged_claude(subtable(own, program), c.claude));
    assert(twice =~= once);
}

proof fn lemma_claude_twice(t: Map<Seq<char>, TomlItem>, c: ClaudeRunnerConfigView)
    ensures
        merged_claude(merged_claude(t, c), c) == merged_claude(t, c),
{
    lemma_claude_keys();
    assert(merged_claude(merged_claude(t, c), c) =~= merged_claude(t, c));
}

} // verus!
