//! Showing the tasks that are blocked.

use vstd::prelude::*;

use crate::commands::report::{
    load_config, on_open, project_config, quiet, ProjectFiles, ProjectFilesView, Report, ReportView,
};
use crate::commands::runner::{text_or, text_or_str};
use crate::commands::status::{
    by_id, indent_lines, indented_lines, map_status_config_error, sort_tasks_by_id_asc,
    status_config_error, ById, StatusError, StatusErrorView,
};
use crate::duplicate::{outcome, Duplicate};
use crate::engine::project::{Project, ProjectView};
use crate::engine::tasks::{opened, BLOCKED_STATE, Task, TaskStore, TaskView};
use crate::rows::{choice, keep_chosen, rows_of, write_rows, Choice, RowWriter};
use crate::sorting::{law_sorting_keeps_elements, order_of};
use crate::text::{join, join_strs, keep, lemma_keep, lemma_keep_from, lemma_keep_has, str_eq};

verus! {

/// What is said where no task is blocked.
pub const NO_BLOCKED_TASKS_MESSAGE: &'static str = "No blocked tasks.";

/// What showing blocked tasks leaves to be done, whether or not it succeeded.
#[derive(Debug, PartialEq, Eq)]
pub struct BlockedReport {
    pub report: Report,
    /// Tasks to show in the form that the file of tasks has.
    pub tasks: Option<Vec<Task>>,
}

/// The contents of a `BlockedReport`.
#[verifier::ext_equal]
pub struct BlockedReportView {
    pub report: ReportView,
    pub tasks: Option<Seq<TaskView>>,
}

impl View for BlockedReport {
    type V = BlockedReportView;

    open spec fn view(&self) -> BlockedReportView {
        BlockedReportView {
            report: self.report@,
            tasks: self.tasks.deep_view(),
        }
    }
}

impl DeepView for BlockedReport {
    type V = BlockedReportView;

    open spec fn deep_view(&self) -> BlockedReportView {
        self@
    }
}

impl Duplicate for BlockedReport {
    fn duplicate(&self) -> (r: Self) {
        BlockedReport {
            report: self.report.duplicate(),
            tasks: self.tasks.duplicate(),
        }
    }
}

impl Clone for BlockedReport {
    fn clone(&self) -> (r: Self)
        ensures
            r@ == self@,
    {
        self.duplicate()
    }
}


/// Tasks that are blocked.
pub struct IsBlocked;

impl Choice<Task, ()> for IsBlocked {
    open spec fn holds(t: TaskView, context: ()) -> bool {
        t.state == BLOCKED_STATE@
    }

    fn check(task: &Task, context: &()) -> (r: bool) {
        str_eq(task.state.as_str(), BLOCKED_STATE)
    }
}

/// The tasks that are blocked, in the order of their ids.
pub open spec fn blocked_tasks(tasks: Seq<TaskView>) -> Seq<TaskView> {
    keep(by_id(tasks), choice::<Task, (), IsBlocked>(()))
}

/// The tasks that are blocked, in the order of their ids.
pub fn find_blocked(tasks: &[Task]) -> (r: Vec<Task>)
    ensures
        r.deep_view() == blocked_tasks(tasks.deep_view()),
{
    keep_chosen::<Task, (), IsBlocked>(sort_tasks_by_id_asc(tasks).as_slice(), &())
}

/// How a task that is blocked is shown.
pub struct BlockedRow;

impl RowWriter<Task, ()> for BlockedRow {
    open spec fn row(t: TaskView, context: ()) -> Seq<char> {
        "ID: "@ + t.id + "\nTitle: "@ + t.title + "\nBlocked at phase: "@ + text_or(
            t.blocked_at_phase,
            "-"@,
        ) + "\nBlocked reason:\n"@ + indented_lines(text_or(t.blocked_reason, "-"@), 2, "-"@)
    }

    fn write(task: &Task, context: &()) -> (r: String) {
        let mut out = "ID: ".to_owned();
        out.push_str(task.id.as_str());
        out.push_str("\nTitle: ");
        out.push_str(task.title.as_str());
        out.push_str("\nBlocked at phase: ");
        out.push_str(text_or_str(&task.blocked_at_phase, "-"));
        out.push_str("\nBlocked reason:\n");
        out.push_str(format_multiline_value(text_or_str(&task.blocked_reason, "-"), 2).as_str());
        out
    }
}

/// The lines of a text, each with spaces in front, and a dash in place of an empty one.
pub fn format_multiline_value(value: &str, indent: usize) -> (r: String)
    ensures
        r@ == indented_lines(value@, indent as nat, "-"@),
{
    indent_lines(value, indent, "-")
}

/// The text about some tasks that are blocked.
pub open spec fn blocked_text(tasks: Seq<TaskView>) -> Seq<char> {
    join(rows_of::<Task, (), BlockedRow>(tasks, ()), "\n\n"@)
}

/// The text about some tasks that are blocked.
pub fn format_blocked_tasks(tasks: &[Task]) -> (r: String)
    ensures
        r@ == blocked_text(tasks.deep_view()),
{
    join_strs(&write_rows::<Task, (), BlockedRow>(tasks, &()), "\n\n")
}

/// What showing blocked tasks leaves to be done.
pub open spec fn blocked_shown(project: ProjectView, files: ProjectFilesView, json: bool) -> (
    BlockedReportView,
    Result<(), StatusErrorView>,
) {
    match project_config(project, files.config) {
        Err(e) => (
            BlockedReportView { report: quiet(), tasks: None },
            Err(status_config_error(e)),
        ),
        Ok(config) => match opened(project.state_dir, files.tasks, config) {
            Err(e) => (
                BlockedReportView { report: quiet(), tasks: None },
                Err(StatusErrorView::StoreError(e)),
            ),
            Ok(s) => {
                let found = blocked_tasks(s.tasks);
                (
                    if json {
                        BlockedReportView { report: on_open(s), tasks: Some(found) }
                    } else {
                        BlockedReportView {
                            report: on_open(s).said(
                                if found.len() == 0 {
                                    NO_BLOCKED_TASKS_MESSAGE@
                                } else {
                                    blocked_text(found)
                                },
                            ),
                            tasks: None,
                        }
                    },
                    Ok(()),
                )
            },
        },
    }
}

/// Shows the tasks that are blocked.
pub fn run_blocked(project: &Project, files: &ProjectFiles, json: bool) -> (r: (
    BlockedReport,
    Result<(), StatusError>,
))
    ensures
        (r.0@, outcome(r.1)) == blocked_shown(project@, files@, json),
{
    let config = match load_config(project, &files.config) {
        Err(e) => {
            return (
                BlockedReport { report: Report::quiet(), tasks: None },
                Err(map_status_config_error(e)),
            );
        },
        Ok(c) => c,
    };
    let store = match TaskStore::new(project.state_dir.as_str(), files.tasks.duplicate(), &config) {
        Err(e) => {
            return (
                BlockedReport { report: Report::quiet(), tasks: None },
                Err(StatusError::StoreError(e)),
            );
        },
        Ok(s) => s,
    };
    let mut report = Report::on_open(&store);
    let found = find_blocked(store.all_tasks());
    assert(found.deep_view().len() == found.len());
    if json {
        return (BlockedReport { report, tasks: Some(found) }, Ok(()));
    }
    if found.len() == 0 {
        report.say(NO_BLOCKED_TASKS_MESSAGE.to_owned());
    } else {
        report.say(format_blocked_tasks(found.as_slice()));
    }
    (BlockedReport { report, tasks: None }, Ok(()))
}

/// Each task that is shown is blocked, and each task that is blocked is shown.
pub proof fn law_blocked_tasks_are_shown(tasks: Seq<TaskView>)
    ensures
        forall|t: TaskView|
            #[trigger] blocked_tasks(tasks).contains(t) <==> tasks.contains(t) && t.state
                == BLOCKED_STATE@,
{
    let before = order_of::<Task, ById>();
    let p = choice::<Task, (), IsBlocked>(());
    let all = by_id(tasks);
    law_sorting_keeps_elements(tasks, before);
    lemma_keep(all, p);
    assert forall|t: TaskView|
        #[trigger] blocked_tasks(tasks).contains(t) <==> tasks.contains(t) && t.state
            == BLOCKED_STATE@ by {
        assert(tasks.to_multiset().count(t) == all.to_multiset().count(t));
        tasks.to_multiset_ensures();
        all.to_multiset_ensures();
        assert(tasks.contains(t) == all.contains(t));
        if blocked_tasks(tasks).contains(t) {
            let i = blocked_tasks(tasks).index_of(t);
            assert(p(blocked_tasks(tasks)[i]));
            lemma_keep_from(all, p, i);
        }
        if all.contains(t) && t.state == BLOCKED_STATE@ {
            let i = all.index_of(t);
            lemma_keep_has(all, p, i);
        }
    }
}

} // verus!
