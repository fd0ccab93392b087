//! What becomes of commands that are run for events, and of changes to them.

use vstd::prelude::*;

use crate::commands::hook::{
    command_of, command_word, escaped, event_check, hook_added, hook_count, hook_events, hooks_in,
    hooks_removed, hooks_updated, spaced, with_command, without_hooks, CommandWord,
    HookFileChangeView, HookFilesView, HookReportView, HookScope, OnEvent, OnOther,
};
use crate::commands::report::project_config;
use crate::engine::config::{ConfigErrorView, ConfigReadView, ConfigView};
use crate::engine::hooks::{
    before_hooks, debug_actions, failure_line, field, hook_env, hook_item, hooks_item,
    plain_actions, ALL_TASKS_DONE_EVENT, EnvVarView, HookActionView, HookConfigView,
    HookContextView, HookEntry, HookEntryView, HookHappeningView, TASK_ADDED_EVENT,
};
use crate::engine::project::ProjectView;
use crate::rows::{choice, rows_of};
use crate::string_map::keys;
use crate::text::{blank, is_space, keep, law_keeping_is_filtering, path_join, signed_decimal};
use crate::text_laws::law_joined_parts;
use crate::toml_doc::{no_entries, toml_parsed, toml_rendered, TomlItem};

verus! {

/// A process is told of the task, of the project and of the move, each under a name of its own.
pub proof fn law_process_is_told(ctx: HookContextView)
    ensures
        hook_env(ctx).contains(EnvVarView { name: "AGIRA_TASK_ID"@, value: ctx.task_id }),
        hook_env(ctx).contains(EnvVarView { name: "AGIRA_TASK_TITLE"@, value: ctx.task_title }),
        hook_env(ctx).contains(
            EnvVarView { name: "AGIRA_TASK_DESCRIPTION"@, value: ctx.task_description },
        ),
        hook_env(ctx).contains(EnvVarView { name: "AGIRA_TASK_STATE"@, value: ctx.task_state }),
        hook_env(ctx).contains(
            EnvVarView { name: "AGIRA_TASK_DEPENDENCIES"@, value: ctx.task_dependencies },
        ),
        hook_env(ctx).contains(
            EnvVarView { name: "AGIRA_TASK_RETRY_COUNT"@, value: ctx.task_retry_count },
        ),
        hook_env(ctx).contains(
            EnvVarView { name: "AGIRA_TASK_MAX_RETRIES"@, value: ctx.task_max_retries },
        ),
        hook_env(ctx).contains(
            EnvVarView { name: "AGIRA_TASK_CREATED_AT"@, value: ctx.task_created_at },
        ),
        hook_env(ctx).contains(EnvVarView { name: "AGIRA_PROJECT_SLUG"@, value: ctx.project_slug }),
        hook_env(ctx).contains(EnvVarView { name: "AGIRA_PROJECT_PATH"@, value: ctx.project_path }),
        hook_env(ctx).contains(EnvVarView { name: "AGIRA_FROM_PHASE"@, value: ctx.from_phase }),
        hook_env(ctx).contains(EnvVarView { name: "AGIRA_TO_PHASE"@, value: ctx.to_phase }),
        hook_env(ctx).contains(EnvVarView { name: "AGIRA_ARTIFACT"@, value: ctx.artifact }),
        hook_env(ctx).len() == 13,
{
    let env = hook_env(ctx);
    assert(env[0].name == "AGIRA_TASK_ID"@);
    assert(env[1].name == "AGIRA_TASK_TITLE"@);
    assert(env[2].name == "AGIRA_TASK_DESCRIPTION"@);
    assert(env[3].name == "AGIRA_TASK_STATE"@);
    assert(env[4].name == "AGIRA_TASK_DEPENDENCIES"@);
    assert(env[5].name == "AGIRA_TASK_RETRY_COUNT"@);
    assert(env[6].name == "AGIRA_TASK_MAX_RETRIES"@);
    assert(env[7].name == "AGIRA_TASK_CREATED_AT"@);
    assert(env[8].name == "AGIRA_PROJECT_SLUG"@);
    assert(env[9].name == "AGIRA_PROJECT_PATH"@);
    assert(env[10].name == "AGIRA_FROM_PHASE"@);
    assert(env[11].name == "AGIRA_TO_PHASE"@);
    assert(env[12].name == "AGIRA_ARTIFACT"@);
}

/// A failure is written to the log, and only a failure: a command that could not be started, or
/// that ended without success. One that could not be started is warned of too. With debugging on,
/// one entry more tells what became of the command.
pub proof fn law_failed_command_is_logged(
    hook: HookEntryView,
    event: Seq<char>,
    ctx: HookContextView,
    pid: u32,
    success: bool,
    code: Option<i32>,
    stdout: Seq<char>,
    stderr: Seq<char>,
    error: Seq<char>,
    now: Seq<char>,
)
    ensures
        ({
            let exited = HookHappeningView::Exited { pid, success, code, stdout, stderr };
            let unstarted = HookHappeningView::SpawnFailed { error };
            let spawned = HookHappeningView::Spawned { pid };
            let plain = plain_actions(hook, event, ctx, exited, now);
            let debug = debug_actions(hook, event, ctx, exited, now);
            let failed = plain_actions(hook, event, ctx, unstarted, now);
            let failed_debug = debug_actions(hook, event, ctx, unstarted, now);
            &&& success ==> plain.len() == 0
            &&& !success ==> plain.len() == 1 && plain[0] == (HookActionView::LogFailure {
                line: failure_line(
                    now,
                    event,
                    ctx.task_id,
                    hook.run,
                    if code is Some {
                        "exit_status: "@ + signed_decimal(code->0 as int)
                    } else {
                        "exit_status: "@ + "unknown"@
                    },
                ),
            })
            &&& debug.len() == plain.len() + 1
            &&& debug.drop_last() == plain
            &&& debug.last() is LogDebug
            &&& debug.last()->entry.event == hook.on
            &&& debug.last()->entry.command == hook.run
            &&& debug.last()->entry.task_id == ctx.task_id
            &&& debug.last()->entry.spawn_result == "ok"@
            &&& debug.last()->entry.pid == Some(pid)
            &&& debug.last()->entry.exit_status == code
            &&& debug.last()->entry.stdout == Some(stdout)
            &&& debug.last()->entry.stderr == Some(stderr)
            &&& failed.len() == 2
            &&& failed[0] == (HookActionView::Warn {
                message: "warning: hook spawn failed: "@ + error,
            })
            &&& failed[1] is LogFailure
            &&& failed_debug.drop_last() == failed
            &&& failed_debug.last() is LogDebug
            &&& failed_debug.last()->entry.spawn_result == "error:"@ + error
            &&& failed_debug.last()->entry.pid is None
            &&& plain_actions(hook, event, ctx, spawned, now).len() == 0
            &&& debug_actions(hook, event, ctx, spawned, now).len() == 1
            &&& debug_actions(hook, event, ctx, spawned, now)[0]->entry.spawn_result == "spawned"@
            &&& before_hooks(0, event, ctx, false, now).len() == 0
            &&& before_hooks(0, event, ctx, true, now).len() == 1
            &&& before_hooks(0, event, ctx, true, now)[0]->entry.spawn_result
                == "no_matching_hooks"@
            &&& before_hooks(1, event, ctx, true, now).len() == 0
        }),
{
    let exited = HookHappeningView::Exited { pid, success, code, stdout, stderr };
    let unstarted = HookHappeningView::SpawnFailed { error };
    assert(debug_actions(hook, event, ctx, exited, now).drop_last() =~= plain_actions(
        hook,
        event,
        ctx,
        exited,
        now,
    ));
    assert(debug_actions(hook, event, ctx, unstarted, now).drop_last() =~= plain_actions(
        hook,
        event,
        ctx,
        unstarted,
        now,
    ));
}

/// A line of the log holds the time, the event, the task, the command and the reason, with tabs
/// between them. Tabs and ends of lines within are spaces, and a long command is cut off.
pub proof fn law_line_of_the_log(
    now: Seq<char>,
    event: Seq<char>,
    id: Seq<char>,
    command: Seq<char>,
    reason: Seq<char>,
    k: int,
)
    requires
        event.len() <= usize::MAX,
        id.len() <= usize::MAX,
        one_line(event),
        one_line(id),
    ensures
        one_line(command) && command.len() <= 200 ==> failure_line(now, event, id, command, reason)
            == now + "\t"@ + event + "\t"@ + id + "\t"@ + command + "\t"@ + reason + "\n"@,
        one_line(command) && command.len() > 200 ==> failure_line(now, event, id, command, reason)
            == now + "\t"@ + event + "\t"@ + id + "\t"@ + command.take(200) + "\t"@ + reason
            + "\n"@,
        0 <= k < field(command, 200).len() && (command[k] == '\t' || command[k] == '\n'
            || command[k] == '\r') ==> field(command, 200)[k] == ' ',
{
    assert(field(event, usize::MAX as nat) =~= event);
    assert(field(id, usize::MAX as nat) =~= id);
    if one_line(command) {
        if command.len() <= 200 {
            assert(field(command, 200) =~= command);
        } else {
            assert(field(command, 200) =~= command.take(200));
        }
    }
}

/// A text without tabs and ends of lines.
pub open spec fn one_line(s: Seq<char>) -> bool {
    forall|k: int| 0 <= k < s.len() ==> #[trigger] s[k] != '\t' && s[k] != '\n' && s[k] != '\r'
}

/// An event can have commands where it is named without white space and is one of four, or a phase
/// of the project.
pub proof fn law_events_with_commands(
    project: ProjectView,
    read: ConfigReadView,
    config: ConfigView,
    event: Seq<char>,
)
    requires
        project_config(project, read) == Ok::<ConfigView, ConfigErrorView>(config),
    ensures
        event_check(project, read, event) is Ok <==> {
            &&& event.len() > 0
            &&& forall|k: int| 0 <= k < event.len() ==> !is_space(#[trigger] event[k])
            &&& {
                ||| event == "*"@
                ||| event == "task_added"@
                ||| event == "all_tasks_done"@
                ||| event == "failed"@
                ||| exists|k: int|
                    0 <= k < config.phases.len() && (#[trigger] config.phases[k]).0 == event
            }
        },
{
    let four = seq!["*"@, TASK_ADDED_EVENT@, ALL_TASKS_DONE_EVENT@, "failed"@];
    let names = keys(config.phases);
    let all = hook_events(config);
    assert(four[0] == "*"@ && four[1] == "task_added"@ && four[2] == "all_tasks_done"@ && four[3]
        == "failed"@);
    assert(all.len() == 4 + names.len());
    assert(all[0] == "*"@ && all[1] == "task_added"@ && all[2] == "all_tasks_done"@ && all[3]
        == "failed"@);
    assert forall|k: int| 0 <= k < names.len() implies #[trigger] names[k] == config.phases[k].0
        && all[4 + k] == names[k] by {}
    if exists|k: int| 0 <= k < config.phases.len() && (#[trigger] config.phases[k]).0 == event {
        let k = choose|k: int|
            0 <= k < config.phases.len() && (#[trigger] config.phases[k]).0 == event;
        assert(names[k] == event);
        assert(all[4 + k] == event);
    }
    if all.contains(event) {
        let k = all.index_of(event);
        if k >= 4 {
            assert(names[k - 4] == event);
            assert(config.phases[k - 4].0 == event);
        }
    }
}

/// The commands that a change of commands leaves: of a project they are written to a file of their
/// own, of a user beside the other settings.
pub open spec fn leaves(
    report: HookReportView,
    project: ProjectView,
    seen: HookFilesView,
    global: bool,
    hooks: Seq<HookEntryView>,
) -> bool {
    let entries = TomlItem::List(
        hooks.map_values(
            |h: HookEntryView|
                TomlItem::Table(
                    no_entries().insert("on"@, TomlItem::Text(h.on)).insert(
                        "run"@,
                        TomlItem::Text(h.run),
                    ),
                ),
        ),
    );
    &&& report.change is Some
    &&& report.change->0 is Write
    &&& !global ==> {
        &&& report.change->0->Write_path == path_join(project.state_dir, "hooks.toml"@)
        &&& toml_rendered(no_entries().insert("hooks"@, entries)) == Ok::<Seq<char>, Seq<char>>(
            report.change->0->text,
        )
    }
    &&& global ==> {
        let before = if seen.settings is Contents {
            toml_parsed(seen.settings->text)->Ok_0
        } else {
            no_entries()
        };
        &&& seen.parent is Some ==> report.change->0->Write_path == path_join(
            seen.parent->0,
            "config.toml"@,
        )
        &&& hooks.len() > 0 ==> toml_rendered(before.insert("hooks"@, entries)) == Ok::<
            Seq<char>,
            Seq<char>,
        >(report.change->0->text)
        &&& hooks.len() == 0 ==> toml_rendered(before.remove("hooks"@)) == Ok::<
            Seq<char>,
            Seq<char>,
        >(report.change->0->text)
    }
}

/// The commands of a user or of a project.
pub open spec fn commands_at(project: ProjectView, global: bool) -> Seq<HookEntryView> {
    if global {
        project.global_hooks.hooks
    } else {
        project.project_hooks.hooks
    }
}

proof fn lemma_hooks_item(hooks: Seq<HookEntryView>)
    ensures
        hooks_item(HookConfigView { hooks }) == TomlItem::List(
            hooks.map_values(
                |h: HookEntryView|
                    TomlItem::Table(
                        no_entries().insert("on"@, TomlItem::Text(h.on)).insert(
                            "run"@,
                            TomlItem::Text(h.run),
                        ),
                    ),
            ),
        ),
{
    let a = hooks.map_values(|h: HookEntryView| hook_item(h));
    let b = hooks.map_values(
        |h: HookEntryView|
            TomlItem::Table(
                no_entries().insert("on"@, TomlItem::Text(h.on)).insert(
                    "run"@,
                    TomlItem::Text(h.run),
                ),
            ),
    );
    assert(a =~= b);
}

/// Adding a command puts it behind those that there are; of a project, unless a user is meant.
pub proof fn law_add_hook_command(
    project: ProjectView,
    seen: HookFilesView,
    event: Seq<char>,
    command: Seq<char>,
    global: bool,
)
    ensures
        ({
            let (report, result) = hook_added(project, seen, event, seq![command], global);
            let before = commands_at(project, global);
            &&& result is Ok ==> event_check(project, seen.config, event) is Ok && !blank(command)
            &&& result is Ok ==> leaves(
                report,
                project,
                seen,
                global,
                before.push(HookEntryView { on: event, run: command }),
            )
            &&& result is Ok && !global ==> report.output == Some(
                "added "@ + "hook "@ + event + ": "@ + command,
            )
            &&& result is Err ==> report.change is None && report.output is None
        }),
{
    let before = commands_at(project, global);
    assert(hooks_in(project, HookScope::asked(global)) == (HookConfigView { hooks: before }));
    lemma_hooks_item(before.push(HookEntryView { on: event, run: command }));
    reveal_strlit("added");
    reveal_strlit(" ");
    reveal_strlit("added ");
    assert("added"@ + " "@ =~= "added "@);
}

/// Removing the commands of an event leaves those of other events, in their order; there must have
/// been one. The file of a project that has none left is removed.
pub proof fn law_remove_hook_command(
    project: ProjectView,
    seen: HookFilesView,
    event: Seq<char>,
    global: bool,
)
    ensures
        ({
            let (report, result) = hooks_removed(project, seen, event, global);
            let before = commands_at(project, global);
            let left = before.filter(|h: HookEntryView| h.on != event);
            let some = exists|k: int| 0 <= k < before.len() && (#[trigger] before[k]).on == event;
            &&& result is Ok ==> event_check(project, seen.config, event) is Ok && some
            &&& event_check(project, seen.config, event) is Ok && !some ==> result is Err
            &&& result is Ok && (global || left.len() > 0) ==> leaves(
                report,
                project,
                seen,
                global,
                left,
            )
            &&& event_check(project, seen.config, event) is Ok && some && !global && left.len() == 0
                ==> result is Ok && report.change == Some(
                HookFileChangeView::Delete { path: path_join(project.state_dir, "hooks.toml"@) },
            )
            &&& result is Err ==> report.change is None && report.output is None
        }),
{
    let before = commands_at(project, global);
    assert(hooks_in(project, HookScope::asked(global)) == (HookConfigView { hooks: before }));
    lemma_kept(before, event);
    lemma_hooks_item(before.filter(|h: HookEntryView| h.on != event));
}

proof fn lemma_kept(before: Seq<HookEntryView>, event: Seq<char>)
    ensures
        without_hooks(HookConfigView { hooks: before }, event).hooks == before.filter(
            |h: HookEntryView| h.on != event,
        ),
        hook_count(HookConfigView { hooks: before }, event) > 0 <==> exists|k: int|
            0 <= k < before.len() && (#[trigger] before[k]).on == event,
{
    let p = choice::<HookEntry, String, OnOther>(event);
    let q = |h: HookEntryView| h.on != event;
    assert(p =~= q);
    law_keeping_is_filtering(before, q);
    lemma_count(before, event);
}

proof fn lemma_count(before: Seq<HookEntryView>, event: Seq<char>)
    ensures
        keep(before, choice::<HookEntry, String, OnEvent>(event)).len() > 0 <==> exists|k: int|
            0 <= k < before.len() && (#[trigger] before[k]).on == event,
    decreases before.len(),
{
    if before.len() > 0 {
        let front = before.drop_last();
        lemma_count(front, event);
        if exists|k: int| 0 <= k < front.len() && (#[trigger] front[k]).on == event {
            let k = choose|k: int| 0 <= k < front.len() && (#[trigger] front[k]).on == event;
            assert(before[k].on == event);
        }
        if before.last().on == event {
            assert(before[before.len() - 1].on == event);
        }
        if exists|k: int| 0 <= k < before.len() && (#[trigger] before[k]).on == event {
            let k = choose|k: int| 0 <= k < before.len() && (#[trigger] before[k]).on == event;
            if k < front.len() {
                assert(front[k].on == event);
            }
        }
    }
}

/// Changing the command of an event changes it wherever the event has one, and nothing else.
pub proof fn law_update_hook_command(
    project: ProjectView,
    seen: HookFilesView,
    event: Seq<char>,
    command: Seq<char>,
    global: bool,
)
    ensures
        ({
            let (report, result) = hooks_updated(project, seen, event, seq![command], global);
            let before = commands_at(project, global);
            let some = exists|k: int| 0 <= k < before.len() && (#[trigger] before[k]).on == event;
            &&& result is Ok ==> event_check(project, seen.config, event) is Ok && !blank(command)
                && some
            &&& result is Ok ==> leaves(
                report,
                project,
                seen,
                global,
                before.map_values(
                    |h: HookEntryView|
                        HookEntryView {
                            on: h.on,
                            run: if h.on == event {
                                command
                            } else {
                                h.run
                            },
                        },
                ),
            )
            &&& result is Err ==> report.change is None && report.output is None
        }),
{
    let before = commands_at(project, global);
    assert(hooks_in(project, HookScope::asked(global)) == (HookConfigView { hooks: before }));
    let after = before.map_values(
        |h: HookEntryView|
            HookEntryView {
                on: h.on,
                run: if h.on == event {
                    command
                } else {
                    h.run
                },
            },
    );
    lemma_kept(before, event);
    assert(with_command(HookConfigView { hooks: before }, event, command).hooks =~= after);
    lemma_hooks_item(after);
}

/// A command that is given in one piece stays as it is; of several pieces each is a word of it. A
/// piece with white space in it, or an empty one, is quoted, with a backslash in front of quotes,
/// backslashes and backticks.
pub proof fn law_command_of_its_pieces(
    piece: Seq<char>,
    other: Seq<char>,
    c: char,
)
    ensures
        command_of(seq![piece]) == piece,
        command_of(seq![piece, other]) == command_word(piece) + " "@ + command_word(other),
        piece.len() > 0 && (forall|k: int| 0 <= k < piece.len() ==> !is_space(#[trigger] piece[k]))
            ==> command_word(piece) == piece,
        (exists|k: int| 0 <= k < piece.len() && is_space(#[trigger] piece[k])) ==> command_word(
            piece,
        ) == "\""@ + escaped(piece) + "\""@,
        escaped(Seq::empty()) == Seq::<char>::empty(),
        c == '"' || c == '\\' || c == '`' ==> escaped(piece.push(c)) == escaped(piece).push(
            '\\',
        ).push(c),
        c != '"' && c != '\\' && c != '`' ==> escaped(piece.push(c)) == escaped(piece).push(c),
{
    let two = rows_of::<String, (), CommandWord>(seq![piece, other], ());
    let none = Seq::<Seq<char>>::empty();
    assert(two =~= seq![command_word(piece)].push(command_word(other)));
    law_joined_parts(none, command_word(piece), " "@);
    law_joined_parts(seq![command_word(piece)], command_word(other), " "@);
    assert(piece.push(c).drop_last() =~= piece);
    if exists|k: int| 0 <= k < piece.len() && is_space(#[trigger] piece[k]) {
        assert(spaced(piece));
    }
}

} // verus!
