//! What the list of projects shows, and how an agent is started.

use vstd::prelude::*;

use crate::commands::launch::{
    after_prompt, first_pid, is_frame, launch_line, launch_tokens, quoted, unframed,
};
use crate::commands::project::{
    active_task, config_of, count_in, hidden_note, json_row, project_line, project_list,
    project_row, project_rows, project_table, projects_among, shown_path, source_in, still_open,
    without_line_feeds, ActiveTaskView, EntrySeenView, InState, IsShown, IsStale, OpenFirst,
    ProjectEntryView, ProjectLine, ProjectListOutputView, ProjectListRow, ProjectListRowView,
    ProjectSeenView,
};
use crate::engine::config::ConfigView;
use crate::engine::global_config::ClaudeRunnerConfigView;
use crate::engine::pick::chosen;
use crate::engine::prompt_laws::{lemma_join_says, lemma_says, says};
use crate::engine::tasks::{opened, StoreErrorView, Task, TaskStoreView, TaskView};
use crate::rows::{choice, padded, padded_left, rows_of};
use crate::sorting::{law_sorting_keeps_elements, order_of};
use crate::text::{
    decimal, first_where, is_space, join, keep, law_keeping_is_filtering, lemma_first_where,
    parse_signed, repeated, trim, trim_start,
};
use crate::time::Instant;

verus! {

/// The row of a project counts its tasks: all of them, those that are done, those that are blocked
/// and those that were given up. It is fully done where all of them are done, and stale where the
/// directory that it belongs to is gone.
pub proof fn law_row_counts_the_tasks(seen: ProjectSeenView, s: TaskStoreView, now: Instant)
    requires
        opened(seen.entry.state_dir, seen.tasks, config_of(seen)) == Ok::<
            TaskStoreView,
            StoreErrorView,
        >(s),
        s.tasks.len() <= usize::MAX,
        config_of(seen).sequence(config_of(seen).default_workflow).len() > 0,
    ensures
        ({
            let row = project_row(seen, now);
            let config = config_of(seen);
            let end = config.sequence(config.default_workflow).last();
            let done = s.tasks.filter(|t: TaskView| t.state == end).len();
            &&& row.slug == seen.entry.name
            &&& row.source_path == seen.entry.source_path
            &&& row.state_dir == seen.entry.state_dir
            &&& row.counts is Some
            &&& row.counts->0.total == s.tasks.len()
            &&& row.counts->0.done == done
            &&& row.counts->0.blocked == s.tasks.filter(|t: TaskView| t.state == "blocked"@).len()
            &&& row.counts->0.failed == s.tasks.filter(|t: TaskView| t.state == "failed"@).len()
            &&& row.fully_done <==> done == s.tasks.len()
            &&& row.stale <==> seen.entry.source_path is Some && !seen.source_exists
        }),
{
    let config = config_of(seen);
    let end = config.sequence(config.default_workflow).last();
    lemma_count_in(s.tasks, end);
    lemma_count_in(s.tasks, "blocked"@);
    lemma_count_in(s.tasks, "failed"@);
}

proof fn lemma_count_in(tasks: Seq<TaskView>, state: Seq<char>)
    ensures
        count_in(tasks, state) == tasks.filter(|t: TaskView| t.state == state).len(),
        count_in(tasks, state) <= tasks.len(),
{
    let p = choice::<Task, String, InState>(state);
    let q = |t: TaskView| t.state == state;
    assert(p =~= q);
    law_keeping_is_filtering(tasks, q);
    lemma_kept_len(tasks, p);
}

proof fn lemma_kept_len(tasks: Seq<TaskView>, p: spec_fn(TaskView) -> bool)
    ensures
        keep(tasks, p).len() <= tasks.len(),
    decreases tasks.len(),
{
    if tasks.len() > 0 {
        lemma_kept_len(tasks.drop_last(), p);
    }
}

/// The tasks of a project that cannot be read are not counted, and it is not taken to be done.
pub proof fn law_unread_project_is_shown(seen: ProjectSeenView, now: Instant, show_stale: bool)
    requires
        opened(seen.entry.state_dir, seen.tasks, config_of(seen)) is Err,
    ensures
        ({
            let row = project_row(seen, now);
            &&& row.counts is None
            &&& row.active is None
            &&& !row.fully_done
            &&& json_row(row).error == Some("invalid tasks.json"@)
            &&& json_row(row).total is None
            &&& says(project_line(row, show_stale), "error: invalid tasks.json"@)
        }),
{
    lemma_says();
}

/// The active task of a project is the one that would be handed out next, or else the first one
/// that is neither done nor given up.
pub proof fn law_active_task_is_shown(
    tasks: Seq<TaskView>,
    config: ConfigView,
    terminal: Seq<char>,
    now: Instant,
    i: int,
)
    ensures
        ({
            let next = chosen(tasks, config, None, now);
            let active = active_task(tasks, config, terminal, now);
            let first = 0 <= i < tasks.len() && tasks[i].state != terminal && tasks[i].state
                != "failed"@ && forall|j: int|
                0 <= j < i ==> (#[trigger] tasks[j]).state == terminal || tasks[j].state
                    == "failed"@;
            &&& next is Some ==> active == Some(
                ActiveTaskView { id: next->0.id, phase: next->0.state },
            )
            &&& next is None && first ==> active == Some(
                ActiveTaskView { id: tasks[i].id, phase: tasks[i].state },
            )
            &&& next is None && (forall|j: int|
                0 <= j < tasks.len() ==> (#[trigger] tasks[j]).state == terminal || tasks[j].state
                    == "failed"@) ==> active is None
        }),
{
    let p = still_open(terminal);
    lemma_first_where(tasks, p);
    if first_where(tasks, p) is Some {
        let f = first_where(tasks, p)->0;
        assert(p(tasks[f]));
        assert(tasks[f].state != terminal);
        if 0 <= i < f && tasks[i].state != terminal && tasks[i].state != "failed"@ {
            assert(p(tasks[i]));
        }
    } else if 0 <= i < tasks.len() {
        assert(!p(tasks[i]));
    }
}

/// A list of projects holds each of them once. Those with work left come first; among those that
/// are alike in that the names go up.
pub proof fn law_list_holds_each_project(projects: Seq<ProjectSeenView>, now: Instant)
    ensures
        project_rows(projects, now).to_multiset() == projects.map_values(
            |p: ProjectSeenView| project_row(p, now),
        ).to_multiset(),
        project_list(projects, true, false, now) == (ProjectListOutputView::Rows {
            rows: project_rows(projects, now).map_values(
                |row: ProjectListRowView| json_row(row),
            ),
        }),
{
    law_sorting_keeps_elements(
        projects.map_values(|p: ProjectSeenView| project_row(p, now)),
        order_of::<ProjectListRow, OpenFirst>(),
    );
}

/// A row in a document tells what is counted.
pub proof fn law_document_row(row: ProjectListRowView)
    ensures
        json_row(row).slug == row.slug,
        json_row(row).source_path == row.source_path,
        json_row(row).state_dir == row.state_dir,
        json_row(row).active == row.active,
        json_row(row).stale == row.stale,
        row.counts is Some ==> json_row(row).total == Some(row.counts->0.total) && json_row(row).done
            == Some(row.counts->0.done) && json_row(row).blocked == Some(row.counts->0.blocked)
            && json_row(row).failed == Some(row.counts->0.failed) && json_row(row).error is None,
{
}

/// The line of a project tells its name, where it is, how much of it is done, what is worked on, and
/// how much is blocked or was given up.
pub proof fn law_line_tells_the_project(row: ProjectListRowView, show_stale: bool)
    requires
        row.counts is Some,
    ensures
        ({
            let line = project_line(row, show_stale);
            let n = row.counts->0;
            let path = if row.source_path is Some {
                row.source_path->0
            } else {
                row.state_dir
            };
            &&& says(line, row.slug)
            &&& says(
                line,
                if show_stale && row.stale {
                    path + " (missing)"@
                } else {
                    path
                },
            )
            &&& says(line, decimal(n.done as nat) + "/"@ + decimal(n.total as nat))
            &&& row.active is Some ==> says(
                line,
                row.active->0.id + " ("@ + row.active->0.phase + ")"@,
            )
            &&& row.active is None ==> says(line, "-"@)
            &&& says(line, decimal(n.blocked as nat) + "  "@ + padded_left(decimal(n.failed as nat), 6))
        }),
{
    lemma_says();
    let n = row.counts->0;
    let path = shown_path(row, show_stale);
    let progress = decimal(n.done as nat) + "/"@ + decimal(n.total as nat);
    let active = match row.active {
        Some(task) => task.id + " ("@ + task.phase + ")"@,
        None => "-"@,
    };
    let blocked = decimal(n.blocked as nat);
    let failed = decimal(n.failed as nat);
    lemma_padding_says(row.slug, 18);
    lemma_padding_says(path, 42);
    lemma_padding_says(progress, 12);
    lemma_padding_says(active, 24);
    let front = padded(row.slug, 18) + "  "@ + padded(path, 42) + "  "@ + padded(progress, 12)
        + "  "@ + padded(active, 24) + "  "@;
    let fill = if blocked.len() >= 7 {
        Seq::empty()
    } else {
        repeated(' ', (7 - blocked.len()) as nat)
    };
    assert(padded_left(blocked, 7) =~= fill + blocked);
    let tail = blocked + "  "@ + padded_left(failed, 6);
    assert(project_line(row, show_stale) =~= front + fill + tail);
}

proof fn lemma_padding_says(s: Seq<char>, width: nat)
    ensures
        says(padded(s, width), s),
{
    lemma_says();
}

/// Projects whose directory is gone are shown only where that is asked for. Otherwise it is said how
/// many are left out.
pub proof fn law_stale_projects_are_hidden(
    rows: Seq<ProjectListRowView>,
    show_stale: bool,
    k: int,
)
    ensures
        ({
            let hidden = rows.filter(|r: ProjectListRowView| r.stale).len();
            let text = project_table(rows, show_stale);
            &&& 0 <= k < rows.len() && (show_stale || !rows[k].stale) ==> says(
                text,
                project_line(rows[k], show_stale),
            )
            &&& !show_stale && hidden == 1 ==> says(
                text,
                "1 stale project hidden (use --stale to show)"@,
            )
            &&& !show_stale && hidden > 1 ==> says(
                text,
                decimal(hidden) + " stale projects hidden (use --stale to show)"@,
            )
            &&& !show_stale && (forall|j: int| 0 <= j < rows.len() ==> (#[trigger] rows[j]).stale)
                && rows.len() > 1 ==> text == decimal(hidden)
                + " stale projects hidden (use --stale to show)"@
        }),
{
    lemma_says();
    let p = choice::<ProjectListRow, (), IsStale>(());
    let q = |r: ProjectListRowView| r.stale;
    assert(p =~= q);
    law_keeping_is_filtering(rows, q);
    let shown = choice::<ProjectListRow, bool, IsShown>(show_stale);
    let visible = keep(rows, shown);
    if 0 <= k < rows.len() && (show_stale || !rows[k].stale) {
        lemma_keeps(rows, shown, k);
        let m = visible.index_of(rows[k]);
        let lines = rows_of::<ProjectListRow, bool, ProjectLine>(visible, show_stale);
        let all = crate::commands::project::table_head() + lines;
        assert(all[2 + m] == project_line(rows[k], show_stale));
        lemma_join_says(all, "\n"@, 2 + m);
    }
    reveal_strlit(" stale ");
    reveal_strlit("project");
    reveal_strlit("projects");
    reveal_strlit(" hidden (use --stale to show)");
    reveal_strlit("1 stale project hidden (use --stale to show)");
    reveal_strlit(" stale projects hidden (use --stale to show)");
    assert(decimal(1) =~= seq!['1']);
    assert(hidden_note(1) =~= "1 stale project hidden (use --stale to show)"@);
    let hidden = rows.filter(q).len();
    if hidden > 1 {
        assert(hidden_note(hidden) =~= decimal(hidden)
            + " stale projects hidden (use --stale to show)"@);
    }
    if !show_stale && (forall|j: int| 0 <= j < rows.len() ==> (#[trigger] rows[j]).stale)
        && rows.len() > 1 {
        lemma_keeps_none(rows, shown);
        lemma_keeps_all(rows, p);
    }
}

proof fn lemma_keeps(
    rows: Seq<ProjectListRowView>,
    p: spec_fn(ProjectListRowView) -> bool,
    k: int,
)
    requires
        0 <= k < rows.len(),
        p(rows[k]),
    ensures
        keep(rows, p).contains(rows[k]),
    decreases rows.len(),
{
    let front = rows.drop_last();
    if k < front.len() {
        lemma_keeps(front, p, k);
        let m = keep(front, p).index_of(rows[k]);
        assert(keep(rows, p)[m] == rows[k]);
    } else {
        assert(keep(rows, p)[keep(rows, p).len() - 1] == rows[k]);
    }
}

proof fn lemma_keeps_none(
    rows: Seq<ProjectListRowView>,
    p: spec_fn(ProjectListRowView) -> bool,
)
    requires
        forall|j: int| 0 <= j < rows.len() ==> !p(#[trigger] rows[j]),
    ensures
        keep(rows, p).len() == 0,
    decreases rows.len(),
{
    if rows.len() > 0 {
        let front = rows.drop_last();
        assert(!p(rows[rows.len() - 1]));
        assert forall|j: int| 0 <= j < front.len() implies !p(#[trigger] front[j]) by {
            assert(front[j] == rows[j]);
        }
        lemma_keeps_none(front, p);
    }
}

proof fn lemma_keeps_all(
    rows: Seq<ProjectListRowView>,
    p: spec_fn(ProjectListRowView) -> bool,
)
    requires
        forall|j: int| 0 <= j < rows.len() ==> p(#[trigger] rows[j]),
    ensures
        keep(rows, p).len() == rows.len(),
    decreases rows.len(),
{
    if rows.len() > 0 {
        let front = rows.drop_last();
        assert(p(rows[rows.len() - 1]));
        assert forall|j: int| 0 <= j < front.len() implies p(#[trigger] front[j]) by {
            assert(front[j] == rows[j]);
        }
        lemma_keeps_all(front, p);
    }
}

/// A project is a directory that holds a configuration. Its source is what a file in it says,
/// without line feeds at the end.
pub proof fn law_projects_are_directories_with_a_config(
    entries: Seq<EntrySeenView>,
    name: Seq<char>,
    path: Seq<char>,
    directory: bool,
    has_config: bool,
    source: Option<Seq<char>>,
)
    requires
        projects_among(entries) is Ok,
    ensures
        ({
            let found = projects_among(entries)->Ok_0;
            let more = projects_among(
                entries.push(
                    EntrySeenView::Found {
                        name,
                        path,
                        directory,
                        has_config,
                        source_text: source,
                    },
                ),
            );
            &&& more is Ok
            &&& !directory || !has_config ==> more->Ok_0 == found
            &&& directory && has_config ==> {
                &&& more->Ok_0.len() == found.len() + 1
                &&& more->Ok_0.drop_last() == found
                &&& more->Ok_0.last().name == name
                &&& more->Ok_0.last().state_dir == path
                &&& source is None ==> more->Ok_0.last().source_path is None
                &&& forall|s: Seq<char>|
                    s.len() > 0 && s.last() != '\n' && (source == Some(s) || source == Some(
                        #[trigger] s.push('\n'),
                    )) ==> more->Ok_0.last().source_path == Some(s)
            }
        }),
{
    let e = EntrySeenView::Found { name, path, directory, has_config, source_text: source };
    assert(entries.push(e).drop_last() =~= entries);
    let found = projects_among(entries)->Ok_0;
    if directory && has_config {
        let last = ProjectEntryView { name, state_dir: path, source_path: source_in(source) };
        assert(found.push(last).drop_last() =~= found);
        assert forall|s: Seq<char>|
            s.len() > 0 && s.last() != '\n' && (source == Some(s) || source == Some(
                #[trigger] s.push('\n'),
            )) implies source_in(source) == Some(s) by {
            assert(s.push('\n').drop_last() =~= s);
            assert(without_line_feeds(s) == s);
            assert(without_line_feeds(s.push('\n')) == s);
        }
    }
}

/// The command that starts an agent names the runner, the program, the model, the permissions and
/// what it is told, each as one word of the shell.
pub proof fn law_launch_line(
    config: ClaudeRunnerConfigView,
    runner_id: Seq<char>,
    prompt: Seq<char>,
    settings: Option<Seq<char>>,
    kickoff: Seq<char>,
    e: int,
    x: int,
)
    ensures
        ({
            let line = launch_line(config, runner_id, prompt, settings, kickoff);
            let tokens = launch_tokens(config, runner_id, prompt, settings, kickoff);
            let n = tokens.len();
            let m = config.env.len() as int;
            &&& line == join(tokens, " "@)
            &&& 0 <= e < m ==> tokens[e] == config.env[e].0 + "="@ + quoted(config.env[e].1)
            &&& tokens[m] == "AGIRA_RUNNER_ID="@ + quoted(runner_id)
            &&& tokens[m + 1] == quoted(config.command)
            &&& tokens[m + 2] == "--model"@
            &&& tokens[m + 3] == quoted(config.model)
            &&& tokens[m + 4] == "--permission-mode"@
            &&& tokens[m + 5] == quoted(config.permission_mode)
            &&& settings is Some ==> tokens[m + 6] == "--settings"@ && tokens[m + 7] == quoted(
                settings->0,
            ) && n == m + 8 + config.extra_args.len() + 3
            &&& settings is None ==> n == m + 6 + config.extra_args.len() + 3
            &&& 0 <= x < config.extra_args.len() ==> tokens[n - 3 - config.extra_args.len() + x]
                == quoted(config.extra_args[x])
            &&& tokens[n - 3] == "--append-system-prompt"@
            &&& tokens[n - 2] == quoted(prompt)
            &&& tokens[n - 1] == quoted(kickoff)
        }),
{
}

/// A line of the screen shows a prompt where a sign for it stands behind what frames it.
pub proof fn law_prompt_on_the_screen(input: Seq<char>, c: char, rest: Seq<char>)
    requires
        33 <= c as u32 <= 126,
        c != '>',
    ensures
        after_prompt(">"@ + input) == Some(input),
        after_prompt("❯"@ + input) == Some(input),
        after_prompt("│ > "@ + input) == Some(" "@ + input),
        after_prompt("  ❯ "@ + input) == Some(" "@ + input),
        after_prompt(seq![c] + rest) is None,
{
    reveal_strlit(">");
    reveal_strlit("❯");
    reveal_strlit("│ > ");
    reveal_strlit("  ❯ ");
    reveal_strlit(" ");
    let a = ">"@ + input;
    let b = "❯"@ + input;
    let d = "│ > "@ + input;
    let e = "  ❯ "@ + input;
    let f = seq![c] + rest;
    assert(a[0] == '>' && b[0] == '❯' && d[0] == '│' && e[0] == ' ' && f[0] == c);
    assert(!is_space('>') && !is_space('❯') && !is_space('│') && is_space(' ') && !is_space(c));
    assert(is_frame('│') && !is_frame('❯') && !is_frame('>') && !is_frame(c) && !is_frame(' '));
    assert(a.take(1) =~= ">"@ && a.skip(1) =~= input);
    assert(b.take(1) =~= "❯"@ && b.skip(1) =~= input);
    assert(b.take(1)[0] != ">"@[0]);
    assert(d.skip(1)[0] == ' ');
    assert(unframed(d) == unframed(d.skip(1)));
    assert(d.skip(1).skip(1)[0] == '>');
    assert(trim_start(d.skip(1)) == trim_start(d.skip(1).skip(1)));
    let g = d.skip(1).skip(1);
    assert(g.take(1) =~= ">"@ && g.skip(1) =~= " "@ + input);
    assert(e.skip(1)[0] == ' ' && e.skip(1).skip(1)[0] == '❯');
    assert(trim_start(e) == trim_start(e.skip(1)));
    assert(trim_start(e.skip(1)) == trim_start(e.skip(1).skip(1)));
    let h = e.skip(1).skip(1);
    assert(h.take(1) =~= "❯"@ && h.skip(1) =~= " "@ + input);
    assert(h.take(1)[0] != ">"@[0]);
    assert(f.take(1)[0] == c);
}

/// The number of a process is the first number on the lines.
pub proof fn law_first_number_is_taken(items: Seq<Seq<char>>, k: int)
    requires
        0 <= k < items.len(),
        parse_signed(trim(items[k]), i32::MIN as int, i32::MAX as int) is Some,
        forall|j: int|
            0 <= j < k ==> parse_signed(
                trim(#[trigger] items[j]),
                i32::MIN as int,
                i32::MAX as int,
            ) is None,
    ensures
        first_pid(items) == parse_signed(trim(items[k]), i32::MIN as int, i32::MAX as int),
    decreases items.len(),
{
    if k > 0 {
        assert(parse_signed(trim(items[0]), i32::MIN as int, i32::MAX as int) is None);
        let rest = items.skip(1);
        assert forall|j: int| 0 <= j < k - 1 implies parse_signed(
            trim(#[trigger] rest[j]),
            i32::MIN as int,
            i32::MAX as int,
        ) is None by {
            assert(rest[j] == items[j + 1]);
        }
        law_first_number_is_taken(rest, k - 1);
    }
}

} // verus!
