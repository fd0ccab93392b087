//! Showing and changing the settings of a user.

use vstd::prelude::*;

use crate::commands::workflow::put_between;
use crate::duplicate::{outcome, Duplicate};
use crate::engine::global_config::{
    duration_fits, load_or_create, loaded_global, save_global_config, saved_global, GlobalConfig,
    GlobalConfigError, GlobalConfigErrorView, GlobalConfigView, GlobalRead, GlobalReadView,
    OnRetryExhausted, RunnerConfigView, SaveGlobalConfigError, SaveGlobalConfigErrorView, TextRead,
    TextReadView,
};
use crate::rows::{pad, padded, rows_of, write_rows, RowWriter};
use crate::text::{
    decimal, decimal_padded, decimal_str, follow, join, join_strs, lemma_decimal_round_trip,
    parse_u64, parse_unsigned, str_eq,
};

verus! {

/// A setting that can be changed.
#[derive(Debug, Clone, Copy, PartialEq, Eq, Structural)]
pub enum ConfigKey {
    HookDebug,
    DefaultMaxRetries,
    OnRetryExhausted,
    RunnerAutoStart,
    RunnerLeaseTtl,
    RunnerType,
}

impl DeepView for ConfigKey {
    type V = ConfigKey;

    open spec fn deep_view(&self) -> ConfigKey {
        *self
    }
}

/// Why a setting could not be shown or changed.
#[derive(Debug, PartialEq, Eq)]
pub enum ConfigCommandError {
    HomeDirectoryMissing,
    UnknownKey { key: String, valid_keys: String },
    InvalidValue { key: String, value: String, expected: String },
    InvalidDurationValue { key: String, value: String, reason: String },
    GlobalConfig(GlobalConfigError),
    Save(SaveGlobalConfigError),
}

/// The contents of a `ConfigCommandError`.
#[verifier::ext_equal]
pub enum ConfigCommandErrorView {
    HomeDirectoryMissing,
    UnknownKey { key: Seq<char>, valid_keys: Seq<char> },
    InvalidValue { key: Seq<char>, value: Seq<char>, expected: Seq<char> },
    InvalidDurationValue { key: Seq<char>, value: Seq<char>, reason: Seq<char> },
    GlobalConfig(GlobalConfigErrorView),
    Save(SaveGlobalConfigErrorView),
}

impl View for ConfigCommandError {
    type V = ConfigCommandErrorView;

    open spec fn view(&self) -> ConfigCommandErrorView {
        match self {
            ConfigCommandError::HomeDirectoryMissing => ConfigCommandErrorView::HomeDirectoryMissing,
            ConfigCommandError::UnknownKey { key, valid_keys } => ConfigCommandErrorView::UnknownKey { key: key@, valid_keys: valid_keys@ },
            ConfigCommandError::InvalidValue { key, value, expected } => ConfigCommandErrorView::InvalidValue { key: key@, value: value@, expected: expected@ },
            ConfigCommandError::InvalidDurationValue { key, value, reason } => ConfigCommandErrorView::InvalidDurationValue { key: key@, value: value@, reason: reason@ },
            ConfigCommandError::GlobalConfig(inner) => ConfigCommandErrorView::GlobalConfig(inner@),
            ConfigCommandError::Save(inner) => ConfigCommandErrorView::Save(inner@),
        }
    }
}

impl DeepView for ConfigCommandError {
    type V = ConfigCommandErrorView;

    open spec fn deep_view(&self) -> ConfigCommandErrorView {
        self@
    }
}

impl Duplicate for ConfigCommandError {
    fn duplicate(&self) -> (r: Self) {
        match self {
            ConfigCommandError::HomeDirectoryMissing => ConfigCommandError::HomeDirectoryMissing,
            ConfigCommandError::UnknownKey { key, valid_keys } => ConfigCommandError::UnknownKey { key: key.duplicate(), valid_keys: valid_keys.duplicate() },
            ConfigCommandError::InvalidValue { key, value, expected } => ConfigCommandError::InvalidValue { key: key.duplicate(), value: value.duplicate(), expected: expected.duplicate() },
            ConfigCommandError::InvalidDurationValue { key, value, reason } => ConfigCommandError::InvalidDurationValue { key: key.duplicate(), value: value.duplicate(), reason: reason.duplicate() },
            ConfigCommandError::GlobalConfig(inner) => ConfigCommandError::GlobalConfig(inner.duplicate()),
            ConfigCommandError::Save(inner) => ConfigCommandError::Save(inner.duplicate()),
        }
    }
}

impl Clone for ConfigCommandError {
    fn clone(&self) -> (r: Self)
        ensures
            r@ == self@,
    {
        self.duplicate()
    }
}

impl ConfigCommandErrorView {
    /// The text shown for the error.
    pub open spec fn message(self) -> Seq<char> {
        match self {
            ConfigCommandErrorView::HomeDirectoryMissing => "home directory missing"@,
            ConfigCommandErrorView::UnknownKey { key, valid_keys } => "unknown config key: "@ + key + "; valid keys: "@ + valid_keys,
            ConfigCommandErrorView::InvalidValue { key, value, expected } => "invalid value for "@ + key + ": "@ + value + "; expected "@ + expected,
            ConfigCommandErrorView::InvalidDurationValue { key, value, reason } => "invalid value for "@ + key + ": "@ + value + "; "@ + reason,
            ConfigCommandErrorView::GlobalConfig(inner) => inner.message(),
            ConfigCommandErrorView::Save(inner) => "failed to save global config: "@ + inner.message(),
        }
    }
}

impl ConfigCommandError {
    /// The text shown for the error.
    pub fn message(&self) -> (r: String)
        ensures
            r@ == self@.message(),
    {
        match self {
            ConfigCommandError::HomeDirectoryMissing => "home directory missing".to_owned(),
            ConfigCommandError::UnknownKey { key, valid_keys } => {
                let mut out = "unknown config key: ".to_owned();
                out.push_str(key.as_str());
                out.push_str("; valid keys: ");
                out.push_str(valid_keys.as_str());
                out
            },
            ConfigCommandError::InvalidValue { key, value, expected } => {
                let mut out = "invalid value for ".to_owned();
                out.push_str(key.as_str());
                out.push_str(": ");
                out.push_str(value.as_str());
                out.push_str("; expected ");
                out.push_str(expected.as_str());
                out
            },
            ConfigCommandError::InvalidDurationValue { key, value, reason } => {
                let mut out = "invalid value for ".to_owned();
                out.push_str(key.as_str());
                out.push_str(": ");
                out.push_str(value.as_str());
                out.push_str("; ");
                out.push_str(reason.as_str());
                out
            },
            ConfigCommandError::GlobalConfig(inner) => inner.message(),
            ConfigCommandError::Save(inner) => {
                let mut out = "failed to save global config: ".to_owned();
                out.push_str(inner.message().as_str());
                out
            },
        }
    }
}


/// A change of a setting.
#[derive(Debug, PartialEq, Eq)]
pub struct ConfigChange {
    /// The text of the settings file.
    pub text: String,
    /// What to tell the user.
    pub output: String,
}

/// The contents of a `ConfigChange`.
#[verifier::ext_equal]
pub struct ConfigChangeView {
    pub text: Seq<char>,
    pub output: Seq<char>,
}

impl View for ConfigChange {
    type V = ConfigChangeView;

    open spec fn view(&self) -> ConfigChangeView {
        ConfigChangeView {
            text: self.text@,
            output: self.output@,
        }
    }
}

impl DeepView for ConfigChange {
    type V = ConfigChangeView;

    open spec fn deep_view(&self) -> ConfigChangeView {
        self@
    }
}

impl Duplicate for ConfigChange {
    fn duplicate(&self) -> (r: Self) {
        ConfigChange {
            text: self.text.duplicate(),
            output: self.output.duplicate(),
        }
    }
}

impl Clone for ConfigChange {
    fn clone(&self) -> (r: Self)
        ensures
            r@ == self@,
    {
        self.duplicate()
    }
}


impl ConfigKey {
    /// The name of the setting.
    pub open spec fn name(self) -> Seq<char> {
        match self {
            ConfigKey::HookDebug => "hook_debug"@,
            ConfigKey::DefaultMaxRetries => "default_max_retries"@,
            ConfigKey::OnRetryExhausted => "on_retry_exhausted"@,
            ConfigKey::RunnerAutoStart => "runner.auto_start"@,
            ConfigKey::RunnerLeaseTtl => "runner.lease_ttl"@,
            ConfigKey::RunnerType => "runner.type"@,
        }
    }

    /// The name of the setting.
    pub fn as_str(self) -> (r: &'static str)
        ensures
            r@ == self.name(),
    {
        match self {
            ConfigKey::HookDebug => "hook_debug",
            ConfigKey::DefaultMaxRetries => "default_max_retries",
            ConfigKey::OnRetryExhausted => "on_retry_exhausted",
            ConfigKey::RunnerAutoStart => "runner.auto_start",
            ConfigKey::RunnerLeaseTtl => "runner.lease_ttl",
            ConfigKey::RunnerType => "runner.type",
        }
    }

    /// What kind of value the setting has.
    pub open spec fn kind(self) -> Seq<char> {
        match self {
            ConfigKey::HookDebug => "bool"@,
            ConfigKey::DefaultMaxRetries => "u32"@,
            ConfigKey::OnRetryExhausted => "block|fail"@,
            ConfigKey::RunnerAutoStart => "bool"@,
            ConfigKey::RunnerLeaseTtl => "duration string, e.g. 5m"@,
            ConfigKey::RunnerType => "string"@,
        }
    }

    /// What kind of value the setting has.
    pub fn help_label(self) -> (r: &'static str)
        ensures
            r@ == self.kind(),
    {
        match self {
            ConfigKey::HookDebug => "bool",
            ConfigKey::DefaultMaxRetries => "u32",
            ConfigKey::OnRetryExhausted => "block|fail",
            ConfigKey::RunnerAutoStart => "bool",
            ConfigKey::RunnerLeaseTtl => "duration string, e.g. 5m",
            ConfigKey::RunnerType => "string",
        }
    }
}

/// The settings that can be changed.
pub open spec fn all_keys() -> Seq<ConfigKey> {
    seq![
        ConfigKey::HookDebug,
        ConfigKey::DefaultMaxRetries,
        ConfigKey::OnRetryExhausted,
        ConfigKey::RunnerAutoStart,
        ConfigKey::RunnerLeaseTtl,
        ConfigKey::RunnerType,
    ]
}

/// The settings that can be changed.
pub fn config_registry() -> (r: Vec<ConfigKey>)
    ensures
        r.deep_view() == all_keys(),
{
    let r: Vec<ConfigKey> = vec![
        ConfigKey::HookDebug,
        ConfigKey::DefaultMaxRetries,
        ConfigKey::OnRetryExhausted,
        ConfigKey::RunnerAutoStart,
        ConfigKey::RunnerLeaseTtl,
        ConfigKey::RunnerType,
    ];
    assert(r.deep_view() =~= all_keys());
    r
}

/// A name of a setting as it is.
pub struct KeyName;

impl RowWriter<ConfigKey, ()> for KeyName {
    open spec fn row(key: ConfigKey, context: ()) -> Seq<char> {
        key.name()
    }

    fn write(key: &ConfigKey, context: &()) -> (r: String) {
        key.as_str().to_owned()
    }
}

/// The names of the settings.
pub open spec fn key_names() -> Seq<Seq<char>> {
    rows_of::<ConfigKey, (), KeyName>(all_keys(), ())
}

/// The names of the settings.
pub fn valid_keys() -> (r: Vec<String>)
    ensures
        r.deep_view() == key_names(),
{
    write_rows::<ConfigKey, (), KeyName>(config_registry().as_slice(), &())
}

/// The name that a name stands for.
pub open spec fn canonical(key: Seq<char>) -> Seq<char> {
    if key == "hook-debug"@ {
        "hook_debug"@
    } else if key == "default-max-retries"@ {
        "default_max_retries"@
    } else {
        key
    }
}

/// The name that a name stands for.
pub fn canonical_key(key: &str) -> (r: &str)
    ensures
        r@ == canonical(key@),
{
    if str_eq(key, "hook-debug") {
        "hook_debug"
    } else if str_eq(key, "default-max-retries") {
        "default_max_retries"
    } else {
        key
    }
}

/// The setting with a name.
pub open spec fn key_named(name: Seq<char>) -> Option<ConfigKey> {
    if name == "hook_debug"@ {
        Some(ConfigKey::HookDebug)
    } else if name == "default_max_retries"@ {
        Some(ConfigKey::DefaultMaxRetries)
    } else if name == "on_retry_exhausted"@ {
        Some(ConfigKey::OnRetryExhausted)
    } else if name == "runner.auto_start"@ {
        Some(ConfigKey::RunnerAutoStart)
    } else if name == "runner.lease_ttl"@ {
        Some(ConfigKey::RunnerLeaseTtl)
    } else if name == "runner.type"@ {
        Some(ConfigKey::RunnerType)
    } else {
        None
    }
}

/// The setting with a name.
pub fn find_entry(key: &str) -> (r: Option<ConfigKey>)
    ensures
        r == key_named(key@),
{
    if str_eq(key, "hook_debug") {
        Some(ConfigKey::HookDebug)
    } else if str_eq(key, "default_max_retries") {
        Some(ConfigKey::DefaultMaxRetries)
    } else if str_eq(key, "on_retry_exhausted") {
        Some(ConfigKey::OnRetryExhausted)
    } else if str_eq(key, "runner.auto_start") {
        Some(ConfigKey::RunnerAutoStart)
    } else if str_eq(key, "runner.lease_ttl") {
        Some(ConfigKey::RunnerLeaseTtl)
    } else if str_eq(key, "runner.type") {
        Some(ConfigKey::RunnerType)
    } else {
        None
    }
}

// ---------------------------------------------------------------------------------------------
// Values
// ---------------------------------------------------------------------------------------------

/// A truth value as a text.
pub open spec fn truth(b: bool) -> Seq<char> {
    if b {
        "true"@
    } else {
        "false"@
    }
}

fn truth_text(b: bool) -> (r: String)
    ensures
        r@ == truth(b),
{
    if b {
        "true".to_owned()
    } else {
        "false".to_owned()
    }
}

/// The value of a setting as a text.
pub open spec fn setting(config: GlobalConfigView, key: ConfigKey) -> Seq<char> {
    match key {
        ConfigKey::HookDebug => truth(config.hook_debug),
        ConfigKey::DefaultMaxRetries => decimal(config.default_max_retries as nat),
        ConfigKey::OnRetryExhausted => config.on_retry_exhausted.name(),
        ConfigKey::RunnerAutoStart => truth(config.runner.auto_start),
        ConfigKey::RunnerLeaseTtl => config.runner.lease_ttl,
        ConfigKey::RunnerType => config.runner.runner_type,
    }
}

/// The value of a setting as a text.
pub fn get_setting(config: &GlobalConfig, key: ConfigKey) -> (r: String)
    ensures
        r@ == setting(config@, key),
{
    match key {
        ConfigKey::HookDebug => truth_text(config.hook_debug),
        ConfigKey::DefaultMaxRetries => decimal_str(config.default_max_retries as u64),
        ConfigKey::OnRetryExhausted => config.on_retry_exhausted.as_str().to_owned(),
        ConfigKey::RunnerAutoStart => truth_text(config.runner.auto_start),
        ConfigKey::RunnerLeaseTtl => config.runner.lease_ttl.clone(),
        ConfigKey::RunnerType => config.runner.runner_type.clone(),
    }
}

/// The error for a value that a setting cannot have.
pub open spec fn bad_value(key: ConfigKey, value: Seq<char>, expected: Seq<char>) -> ConfigCommandErrorView {
    ConfigCommandErrorView::InvalidValue { key: key.name(), value, expected }
}

fn reject_value(key: ConfigKey, value: &str, expected: &str) -> (r: ConfigCommandError)
    ensures
        r@ == bad_value(key, value@, expected@),
{
    ConfigCommandError::InvalidValue {
        key: key.as_str().to_owned(),
        value: value.to_owned(),
        expected: expected.to_owned(),
    }
}

/// The truth value that a text stands for.
pub open spec fn truth_value(key: ConfigKey, value: Seq<char>) -> Result<bool, ConfigCommandErrorView> {
    if value == "true"@ {
        Ok(true)
    } else if value == "false"@ {
        Ok(false)
    } else {
        Err(bad_value(key, value, "true or false"@))
    }
}

/// The truth value that a text stands for.
pub fn parse_bool_value(key: ConfigKey, value: &str) -> (r: Result<bool, ConfigCommandError>)
    ensures
        outcome(r) == truth_value(key, value@),
{
    if str_eq(value, "true") {
        Ok(true)
    } else if str_eq(value, "false") {
        Ok(false)
    } else {
        Err(reject_value(key, value, "true or false"))
    }
}

/// The settings with a text as the value of one of them.
pub open spec fn with_setting(config: GlobalConfigView, key: ConfigKey, value: Seq<char>) -> Result<
    GlobalConfigView,
    ConfigCommandErrorView,
> {
    match key {
        ConfigKey::HookDebug => match truth_value(key, value) {
            Ok(b) => Ok(GlobalConfigView { hook_debug: b, ..config }),
            Err(e) => Err(e),
        },
        ConfigKey::DefaultMaxRetries => match parse_unsigned(value, u32::MAX as nat) {
            Some(n) => Ok(GlobalConfigView { default_max_retries: n as u32, ..config }),
            None => Err(bad_value(key, value, "an unsigned 32-bit integer"@)),
        },
        ConfigKey::OnRetryExhausted => if value == "block"@ {
            Ok(GlobalConfigView { on_retry_exhausted: OnRetryExhausted::Block, ..config })
        } else if value == "fail"@ {
            Ok(GlobalConfigView { on_retry_exhausted: OnRetryExhausted::Fail, ..config })
        } else {
            Err(bad_value(key, value, "block or fail"@))
        },
        ConfigKey::RunnerAutoStart => match truth_value(key, value) {
            Ok(b) => Ok(
                GlobalConfigView {
                    runner: RunnerConfigView { auto_start: b, ..config.runner },
                    ..config
                },
            ),
            Err(e) => Err(e),
        },
        ConfigKey::RunnerLeaseTtl => {
            let runner = RunnerConfigView { lease_ttl: value, ..config.runner };
            match runner.lease_seconds() {
                Ok(_) => Ok(GlobalConfigView { runner, ..config }),
                Err(reason) => Err(
                    ConfigCommandErrorView::InvalidDurationValue { key: key.name(), value, reason },
                ),
            }
        },
        ConfigKey::RunnerType => Ok(
            GlobalConfigView {
                runner: RunnerConfigView { runner_type: value, ..config.runner },
                ..config
            },
        ),
    }
}

/// Gives a setting a text as its value. Where it cannot have it, nothing is changed.
pub fn set_setting(config: &mut GlobalConfig, key: ConfigKey, value: &str) -> (r: Result<
    (),
    ConfigCommandError,
>)
    requires
        key == ConfigKey::RunnerLeaseTtl ==> duration_fits(value@),
    ensures
        match with_setting(old(config)@, key, value@) {
            Ok(after) => r is Ok && final(config)@ == after,
            Err(e) => outcome(r) == Err::<(), ConfigCommandErrorView>(e) && final(config)@ == old(
                config,
            )@,
        },
{
    match key {
        ConfigKey::HookDebug => match parse_bool_value(key, value) {
            Ok(b) => {
                config.hook_debug = b;
                Ok(())
            },
            Err(e) => Err(e),
        },
        ConfigKey::DefaultMaxRetries => match parse_u64(value, u32::MAX as u64) {
            Some(n) => {
                config.default_max_retries = n as u32;
                Ok(())
            },
            None => Err(reject_value(key, value, "an unsigned 32-bit integer")),
        },
        ConfigKey::OnRetryExhausted => if str_eq(value, "block") {
            config.on_retry_exhausted = OnRetryExhausted::Block;
            Ok(())
        } else if str_eq(value, "fail") {
            config.on_retry_exhausted = OnRetryExhausted::Fail;
            Ok(())
        } else {
            Err(reject_value(key, value, "block or fail"))
        },
        ConfigKey::RunnerAutoStart => match parse_bool_value(key, value) {
            Ok(b) => {
                config.runner.auto_start = b;
                Ok(())
            },
            Err(e) => Err(e),
        },
        ConfigKey::RunnerLeaseTtl => {
            let mut runner = config.runner.duplicate();
            runner.lease_ttl = value.to_owned();
            match runner.lease_ttl_duration() {
                Ok(_) => {
                    config.runner = runner;
                    Ok(())
                },
                Err(reason) => Err(
                    ConfigCommandError::InvalidDurationValue {
                        key: key.as_str().to_owned(),
                        value: value.to_owned(),
                        reason,
                    },
                ),
            }
        },
        ConfigKey::RunnerType => {
            config.runner.runner_type = value.to_owned();
            Ok(())
        },
    }
}

// ---------------------------------------------------------------------------------------------
// The commands
// ---------------------------------------------------------------------------------------------

/// A setting and its value.
pub open spec fn setting_line(config: GlobalConfigView, key: ConfigKey) -> Seq<char> {
    key.name() + " = "@ + setting(config, key) + "\n"@
}

fn write_setting_line(config: &GlobalConfig, key: ConfigKey) -> (r: String)
    ensures
        r@ == setting_line(config@, key),
{
    let mut line = follow(key.as_str(), " = ");
    line.push_str(get_setting(config, key).as_str());
    line.push_str("\n");
    line
}

/// A setting and its value as a row.
pub struct SettingRow;

impl RowWriter<ConfigKey, GlobalConfig> for SettingRow {
    open spec fn row(key: ConfigKey, config: GlobalConfigView) -> Seq<char> {
        setting_line(config, key)
    }

    fn write(key: &ConfigKey, config: &GlobalConfig) -> (r: String) {
        write_setting_line(config, *key)
    }
}

/// All settings and their values.
pub open spec fn settings_text(config: GlobalConfigView) -> Seq<char> {
    join(rows_of::<ConfigKey, GlobalConfig, SettingRow>(all_keys(), config), ""@)
}

/// All settings and their values.
pub fn format_config_get(config: &GlobalConfig) -> (r: String)
    ensures
        r@ == settings_text(config@),
{
    join_strs(
        &write_rows::<ConfigKey, GlobalConfig, SettingRow>(config_registry().as_slice(), config),
        "",
    )
}

/// The settings as they are shown.
pub open spec fn settings_shown(agira_root: Seq<char>, program: Seq<char>, read: GlobalReadView) -> Result<
    Seq<char>,
    ConfigCommandErrorView,
> {
    match loaded_global(agira_root, program, read) {
        Err(e) => Err(ConfigCommandErrorView::GlobalConfig(e)),
        Ok(config) => Ok(settings_text(config)),
    }
}

/// The settings as they are shown.
pub fn run_config_get(agira_root: &str, program: &str, read: GlobalRead) -> (r: Result<
    String,
    ConfigCommandError,
>)
    requires
        read@ matches GlobalReadView::Parsed { config } ==> duration_fits(config.runner.lease_ttl),
    ensures
        outcome(r) == settings_shown(agira_root@, program@, read@),
{
    match load_or_create(agira_root, program, read) {
        Err(e) => Err(ConfigCommandError::GlobalConfig(e)),
        Ok(config) => Ok(format_config_get(&config)),
    }
}

/// What changing a setting comes to. The text is that of the settings file once it is there.
pub open spec fn setting_changed(
    agira_root: Seq<char>,
    program: Seq<char>,
    read: GlobalReadView,
    text: TextReadView,
    key: Seq<char>,
    value: Seq<char>,
) -> Result<ConfigChangeView, ConfigCommandErrorView> {
    match key_named(canonical(key)) {
        None => Err(
            ConfigCommandErrorView::UnknownKey { key, valid_keys: join(key_names(), ", "@) },
        ),
        Some(entry) => match loaded_global(agira_root, program, read) {
            Err(e) => Err(ConfigCommandErrorView::GlobalConfig(e)),
            Ok(before) => match with_setting(before, entry, value) {
                Err(e) => Err(e),
                Ok(config) => match saved_global(agira_root, program, text, config) {
                    Err(e) => Err(ConfigCommandErrorView::Save(e)),
                    Ok(saved) => Ok(
                        ConfigChangeView { text: saved, output: setting_line(config, entry) },
                    ),
                },
            },
        },
    }
}

/// Changes a setting. The text is that of the settings file once it is there.
pub fn run_config_set(
    agira_root: &str,
    program: &str,
    read: GlobalRead,
    text: &TextRead,
    key: &str,
    value: &str,
) -> (r: Result<ConfigChange, ConfigCommandError>)
    requires
        read@ matches GlobalReadView::Parsed { config } ==> duration_fits(config.runner.lease_ttl),
        key@ == "runner.lease_ttl"@ ==> duration_fits(value@),
    ensures
        outcome(r) == setting_changed(agira_root@, program@, read@, text@, key@, value@),
{
    proof {
        lemma_lease_key(key@);
    }
    let entry = match find_entry(canonical_key(key)) {
        None => {
            return Err(
                ConfigCommandError::UnknownKey {
                    key: key.to_owned(),
                    valid_keys: join_strs(&valid_keys(), ", "),
                },
            );
        },
        Some(e) => e,
    };
    let mut config = match load_or_create(agira_root, program, read) {
        Err(e) => {
            return Err(ConfigCommandError::GlobalConfig(e));
        },
        Ok(c) => c,
    };
    match set_setting(&mut config, entry, value) {
        Err(e) => {
            return Err(e);
        },
        Ok(_) => {},
    }
    match save_global_config(agira_root, program, text, &config) {
        Err(e) => Err(ConfigCommandError::Save(e)),
        Ok(saved) => Ok(
            ConfigChange { text: saved, output: write_setting_line(&config, entry) },
        ),
    }
}

proof fn lemma_lease_key(key: Seq<char>)
    ensures
        key_named(canonical(key)) == Some(ConfigKey::RunnerLeaseTtl) ==> key
            == "runner.lease_ttl"@,
{
    reveal_strlit("hook_debug");
    reveal_strlit("default_max_retries");
    reveal_strlit("runner.lease_ttl");
    assert("hook_debug"@.len() != "runner.lease_ttl"@.len());
    assert("default_max_retries"@.len() != "runner.lease_ttl"@.len());
}

// ---------------------------------------------------------------------------------------------
// Help
// ---------------------------------------------------------------------------------------------

/// A setting by its name.
pub struct KeyRow;

impl RowWriter<ConfigKey, ()> for KeyRow {
    open spec fn row(key: ConfigKey, context: ()) -> Seq<char> {
        "  "@ + key.name() + "\n"@
    }

    fn write(key: &ConfigKey, context: &()) -> (r: String) {
        put_between("  ", key.as_str(), "\n")
    }
}

/// The settings by their names.
pub open spec fn key_rows() -> Seq<char> {
    join(rows_of::<ConfigKey, (), KeyRow>(all_keys(), ()), ""@)
}

fn write_key_rows() -> (r: String)
    ensures
        r@ == key_rows(),
{
    join_strs(&write_rows::<ConfigKey, (), KeyRow>(config_registry().as_slice(), &()), "")
}

/// The help about settings.
pub fn config_keys_help() -> (r: String)
    ensures
        r@ == "Valid config keys:\n\n"@ + key_rows()
            + "\nKeys use the same snake_case dotted paths as ~/.agira/config.toml."@,
{
    put_between(
        "Valid config keys:\n\n",
        write_key_rows().as_str(),
        "\nKeys use the same snake_case dotted paths as ~/.agira/config.toml.",
    )
}

/// The help about showing settings.
pub fn config_get_help() -> (r: String)
    ensures
        r@ == "Displayed config keys:\n\n"@ + key_rows(),
{
    follow("Displayed config keys:\n\n", write_key_rows().as_str())
}

/// A setting by its name and kind; the names are as wide as the widest.
pub struct KindRow;

impl RowWriter<ConfigKey, ()> for KindRow {
    open spec fn row(key: ConfigKey, context: ()) -> Seq<char> {
        "  "@ + padded(key.name(), 19) + "  "@ + key.kind() + "\n"@
    }

    fn write(key: &ConfigKey, context: &()) -> (r: String) {
        let mut out = follow("  ", pad(key.as_str(), 19).as_str());
        out.push_str("  ");
        out.push_str(key.help_label());
        out.push_str("\n");
        out
    }
}

/// The help about changing settings.
pub fn config_set_help() -> (r: String)
    ensures
        r@ == "Valid keys:\n\n"@ + join(
            rows_of::<ConfigKey, (), KindRow>(all_keys(), ()),
            ""@,
        ) + "\nLegacy aliases hook-debug and default-max-retries are still accepted."@,
{
    put_between(
        "Valid keys:\n\n",
        join_strs(
            &write_rows::<ConfigKey, (), KindRow>(config_registry().as_slice(), &()),
            "",
        ).as_str(),
        "\nLegacy aliases hook-debug and default-max-retries are still accepted.",
    )
}

// ---------------------------------------------------------------------------------------------
// Laws
// ---------------------------------------------------------------------------------------------

/// Each setting is found under its name.
pub proof fn law_settings_are_found(key: ConfigKey)
    ensures
        key_named(key.name()) == Some(key),
        key_named(canonical(key.name())) == Some(key),
        all_keys().contains(key),
{
    reveal_strlit("hook_debug");
    reveal_strlit("default_max_retries");
    reveal_strlit("on_retry_exhausted");
    reveal_strlit("runner.auto_start");
    reveal_strlit("runner.lease_ttl");
    reveal_strlit("runner.type");
    reveal_strlit("hook-debug");
    reveal_strlit("default-max-retries");
    assert("hook_debug"@.len() == 10);
    assert("default_max_retries"@.len() == 19);
    assert("on_retry_exhausted"@.len() == 18);
    assert("runner.auto_start"@.len() == 17);
    assert("runner.lease_ttl"@.len() == 16);
    assert("runner.type"@.len() == 11);
    assert("hook-debug"@[4] == '-');
    assert("hook_debug"@[4] == '_');
    assert("default-max-retries"@[7] == '-');
    assert("default_max_retries"@[7] == '_');
    assert(all_keys()[0] == ConfigKey::HookDebug);
    assert(all_keys()[1] == ConfigKey::DefaultMaxRetries);
    assert(all_keys()[2] == ConfigKey::OnRetryExhausted);
    assert(all_keys()[3] == ConfigKey::RunnerAutoStart);
    assert(all_keys()[4] == ConfigKey::RunnerLeaseTtl);
    assert(all_keys()[5] == ConfigKey::RunnerType);
}

/// A change of a setting leaves all other settings as they were.
pub proof fn law_one_setting_is_changed(config: GlobalConfigView, key: ConfigKey, value: Seq<char>, other: ConfigKey)
    requires
        with_setting(config, key, value) is Ok,
        other != key,
    ensures
        setting(with_setting(config, key, value)->Ok_0, other) == setting(config, other),
{
}

/// A setting that is a text, a truth value or one of some names has the text that it was given.
pub proof fn law_setting_has_its_value(config: GlobalConfigView, key: ConfigKey, value: Seq<char>)
    requires
        key != ConfigKey::DefaultMaxRetries,
        with_setting(config, key, value) is Ok,
    ensures
        setting(with_setting(config, key, value)->Ok_0, key) == value,
{
}

/// A setting that is a number has the number that it was given.
pub proof fn law_retries_have_their_value(config: GlobalConfigView, n: u32)
    ensures
        with_setting(config, ConfigKey::DefaultMaxRetries, decimal(n as nat)) == Ok::<
            GlobalConfigView,
            ConfigCommandErrorView,
        >((GlobalConfigView { default_max_retries: n, ..config })),
{
    lemma_decimal_round_trip(n as nat, 0, u32::MAX as nat);
    assert(decimal_padded(n as nat, 0) == decimal(n as nat));
}

} // verus!
