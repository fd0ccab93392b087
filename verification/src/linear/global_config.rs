//! The settings of a user.

use vstd::prelude::*;

use crate::duplicate::{outcome, Duplicate};
use crate::text::{join_path, path_join};

verus! {

/// The settings file of a new user.
pub const DEFAULT_CONFIG_TOML: &'static str = "default_max_retries = 3\n";

/// The settings of a user.
#[derive(Debug, PartialEq, Eq)]
pub struct GlobalConfig {
    pub default_max_retries: u32,
}

/// The contents of a `GlobalConfig`.
#[verifier::ext_equal]
pub struct GlobalConfigView {
    pub default_max_retries: u32,
}

impl View for GlobalConfig {
    type V = GlobalConfigView;

    open spec fn view(&self) -> GlobalConfigView {
        GlobalConfigView {
            default_max_retries: self.default_max_retries,
        }
    }
}

impl DeepView for GlobalConfig {
    type V = GlobalConfigView;

    open spec fn deep_view(&self) -> GlobalConfigView {
        self@
    }
}

impl Duplicate for GlobalConfig {
    fn duplicate(&self) -> (r: Self) {
        GlobalConfig {
            default_max_retries: self.default_max_retries,
        }
    }
}

impl Clone for GlobalConfig {
    fn clone(&self) -> (r: Self)
        ensures
            r@ == self@,
    {
        self.duplicate()
    }
}


/// What reading the settings of a user gave.
#[derive(Debug, PartialEq, Eq)]
pub enum GlobalRead {
    /// There is no such file.
    Missing,
    /// The file could not be read.
    Unreadable { message: String },
    /// The file holds no settings.
    Malformed { message: String },
    /// The settings that the file holds.
    Parsed { config: GlobalConfig },
}

/// The contents of a `GlobalRead`.
#[verifier::ext_equal]
pub enum GlobalReadView {
    Missing,
    Unreadable { message: Seq<char> },
    Malformed { message: Seq<char> },
    Parsed { config: GlobalConfigView },
}

impl View for GlobalRead {
    type V = GlobalReadView;

    open spec fn view(&self) -> GlobalReadView {
        match self {
            GlobalRead::Missing => GlobalReadView::Missing,
            GlobalRead::Unreadable { message } => GlobalReadView::Unreadable { message: message@ },
            GlobalRead::Malformed { message } => GlobalReadView::Malformed { message: message@ },
            GlobalRead::Parsed { config } => GlobalReadView::Parsed { config: config@ },
        }
    }
}

impl DeepView for GlobalRead {
    type V = GlobalReadView;

    open spec fn deep_view(&self) -> GlobalReadView {
        self@
    }
}

impl Duplicate for GlobalRead {
    fn duplicate(&self) -> (r: Self) {
        match self {
            GlobalRead::Missing => GlobalRead::Missing,
            GlobalRead::Unreadable { message } => GlobalRead::Unreadable { message: message.duplicate() },
            GlobalRead::Malformed { message } => GlobalRead::Malformed { message: message.duplicate() },
            GlobalRead::Parsed { config } => GlobalRead::Parsed { config: config.duplicate() },
        }
    }
}

impl Clone for GlobalRead {
    fn clone(&self) -> (r: Self)
        ensures
            r@ == self@,
    {
        self.duplicate()
    }
}


/// Why the settings of a user could not be read or written.
#[derive(Debug, PartialEq, Eq)]
pub enum GlobalConfigError {
    Read { path: String, message: String },
    Parse { path: String, message: String },
    Write { path: String, message: String },
}

/// The contents of a `GlobalConfigError`.
#[verifier::ext_equal]
pub enum GlobalConfigErrorView {
    Read { path: Seq<char>, message: Seq<char> },
    Parse { path: Seq<char>, message: Seq<char> },
    Write { path: Seq<char>, message: Seq<char> },
}

impl View for GlobalConfigError {
    type V = GlobalConfigErrorView;

    open spec fn view(&self) -> GlobalConfigErrorView {
        match self {
            GlobalConfigError::Read { path, message } => GlobalConfigErrorView::Read { path: path@, message: message@ },
            GlobalConfigError::Parse { path, message } => GlobalConfigErrorView::Parse { path: path@, message: message@ },
            GlobalConfigError::Write { path, message } => GlobalConfigErrorView::Write { path: path@, message: message@ },
        }
    }
}

impl DeepView for GlobalConfigError {
    type V = GlobalConfigErrorView;

    open spec fn deep_view(&self) -> GlobalConfigErrorView {
        self@
    }
}

impl Duplicate for GlobalConfigError {
    fn duplicate(&self) -> (r: Self) {
        match self {
            GlobalConfigError::Read { path, message } => GlobalConfigError::Read { path: path.duplicate(), message: message.duplicate() },
            GlobalConfigError::Parse { path, message } => GlobalConfigError::Parse { path: path.duplicate(), message: message.duplicate() },
            GlobalConfigError::Write { path, message } => GlobalConfigError::Write { path: path.duplicate(), message: message.duplicate() },
        }
    }
}

impl Clone for GlobalConfigError {
    fn clone(&self) -> (r: Self)
        ensures
            r@ == self@,
    {
        self.duplicate()
    }
}

impl GlobalConfigErrorView {
    /// The text shown for the error.
    pub open spec fn message(self) -> Seq<char> {
        match self {
            GlobalConfigErrorView::Read { path, .. } => "failed to read "@ + path,
            GlobalConfigErrorView::Parse { message, .. } => "invalid global config at ~/.agira/config.toml: "@ + message,
            GlobalConfigErrorView::Write { path, .. } => "failed to write "@ + path,
        }
    }
}

impl GlobalConfigError {
    /// The text shown for the error.
    pub fn message(&self) -> (r: String)
        ensures
            r@ == self@.message(),
    {
        match self {
            GlobalConfigError::Read { path, .. } => {
                let mut out = "failed to read ".to_owned();
                out.push_str(path.as_str());
                out
            },
            GlobalConfigError::Parse { message, .. } => {
                let mut out = "invalid global config at ~/.agira/config.toml: ".to_owned();
                out.push_str(message.as_str());
                out
            },
            GlobalConfigError::Write { path, .. } => {
                let mut out = "failed to write ".to_owned();
                out.push_str(path.as_str());
                out
            },
        }
    }
}


/// The settings of a new user.
pub open spec fn default_settings() -> GlobalConfigView {
    GlobalConfigView { default_max_retries: 3 }
}

impl Default for GlobalConfig {
    fn default() -> (r: Self)
        ensures
            r@ == default_settings(),
    {
        GlobalConfig { default_max_retries: 3 }
    }
}

/// The settings that were read; those of a new user where there are none.
pub open spec fn loaded_settings(agira_root: Seq<char>, read: GlobalReadView) -> Result<
    GlobalConfigView,
    GlobalConfigErrorView,
> {
    let path = path_join(agira_root, "config.toml"@);
    match read {
        GlobalReadView::Missing => Ok(default_settings()),
        GlobalReadView::Unreadable { message } => Err(GlobalConfigErrorView::Read { path, message }),
        GlobalReadView::Malformed { message } => Err(GlobalConfigErrorView::Parse { path, message }),
        GlobalReadView::Parsed { config } => Ok(config),
    }
}

/// The settings that were read, and the text to write to the settings file where there is none.
pub fn load_or_create(agira_root: &str, read: GlobalRead) -> (r: (
    Result<GlobalConfig, GlobalConfigError>,
    Option<String>,
))
    ensures
        outcome(r.0) == loaded_settings(agira_root@, read@),
        r.1.deep_view() == if read@ is Missing {
            Some(DEFAULT_CONFIG_TOML@)
        } else {
            None
        },
{
    let path = join_path(agira_root, "config.toml");
    match read {
        GlobalRead::Missing => (Ok(GlobalConfig::default()), Some(DEFAULT_CONFIG_TOML.to_owned())),
        GlobalRead::Unreadable { message } => (Err(GlobalConfigError::Read { path, message }), None),
        GlobalRead::Malformed { message } => (Err(GlobalConfigError::Parse { path, message }), None),
        GlobalRead::Parsed { config } => (Ok(config), None),
    }
}

} // verus!
