//! A project and the files it is kept in.

use vstd::prelude::*;

use crate::duplicate::Duplicate;
use crate::engine::tasks::{TasksRead, TasksReadView};
use crate::linear::config::{ConfigRead, ConfigReadView};
use crate::linear::global_config::{GlobalConfig, GlobalConfigView};
use crate::text::{join_path, path_join};

verus! {

/// A project and where its state is kept.
#[derive(Debug, PartialEq, Eq)]
pub struct Project {
    pub git_root: String,
    pub slug: String,
    pub state_dir: String,
    pub global_config: GlobalConfig,
}

/// The contents of a `Project`.
#[verifier::ext_equal]
pub struct ProjectView {
    pub git_root: Seq<char>,
    pub slug: Seq<char>,
    pub state_dir: Seq<char>,
    pub global_config: GlobalConfigView,
}

impl View for Project {
    type V = ProjectView;

    open spec fn view(&self) -> ProjectView {
        ProjectView {
            git_root: self.git_root@,
            slug: self.slug@,
            state_dir: self.state_dir@,
            global_config: self.global_config@,
        }
    }
}

impl DeepView for Project {
    type V = ProjectView;

    open spec fn deep_view(&self) -> ProjectView {
        self@
    }
}

impl Duplicate for Project {
    fn duplicate(&self) -> (r: Self) {
        Project {
            git_root: self.git_root.duplicate(),
            slug: self.slug.duplicate(),
            state_dir: self.state_dir.duplicate(),
            global_config: self.global_config.duplicate(),
        }
    }
}

impl Clone for Project {
    fn clone(&self) -> (r: Self)
        ensures
            r@ == self@,
    {
        self.duplicate()
    }
}


/// What a command found in the directory of a project.
#[derive(Debug, PartialEq, Eq)]
pub struct LineFiles {
    pub config: ConfigRead,
    pub tasks: TasksRead,
}

/// The contents of a `LineFiles`.
#[verifier::ext_equal]
pub struct LineFilesView {
    pub config: ConfigReadView,
    pub tasks: TasksReadView,
}

impl View for LineFiles {
    type V = LineFilesView;

    open spec fn view(&self) -> LineFilesView {
        LineFilesView {
            config: self.config@,
            tasks: self.tasks@,
        }
    }
}

impl DeepView for LineFiles {
    type V = LineFilesView;

    open spec fn deep_view(&self) -> LineFilesView {
        self@
    }
}

impl Duplicate for LineFiles {
    fn duplicate(&self) -> (r: Self) {
        LineFiles {
            config: self.config.duplicate(),
            tasks: self.tasks.duplicate(),
        }
    }
}

impl Clone for LineFiles {
    fn clone(&self) -> (r: Self)
        ensures
            r@ == self@,
    {
        self.duplicate()
    }
}


/// The file that holds the configuration of a project.
pub open spec fn config_path(project: ProjectView) -> Seq<char> {
    path_join(project.state_dir, "config.json"@)
}

/// The file that holds the configuration of a project.
pub fn config_file(project: &Project) -> (r: String)
    ensures
        r@ == config_path(project@),
{
    join_path(project.state_dir.as_str(), "config.json")
}

} // verus!
