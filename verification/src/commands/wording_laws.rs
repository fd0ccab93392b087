//! The words in which requests are refused, and in which what was done is said.

use vstd::prelude::*;

use crate::commands::add::has_title;
use crate::commands::add_batch::{
    lower_titles, manifest_needs, manifest_of, manifest_problems, repeated_aliases, repeated_texts,
    taken_titles, unknown_dependencies, unknown_phases, unknown_workflows, wrapped,
    AddBatchErrorView, AddBatchOptionsView, ManifestSeenView, ManifestTaskView,
};
use crate::commands::config::{with_setting, ConfigCommandErrorView, ConfigKey};
use crate::commands::hook::{
    command_of, hook_added, hook_count, hooks_removed, hooks_updated, HookFilesView, OnEvent,
};
use crate::commands::init::{
    first_phases, manager_in, middle_phases, phase_entries, phase_entry, phases_in, InitErrorView,
    PackageManager,
};
use crate::commands::launch::{merged_settings, quoted};
use crate::commands::project::hidden_note;
use crate::commands::report::{config_path, ProjectFilesView};
use crate::commands::runner::{
    new_runner_id, runner_home, runner_in, runner_log, session_of, settings_argument, stopping,
    RunnerActionView, RunnerCommandErrorView, RunnerStatusOutputView, SessionSeenView,
};
use crate::commands::self_update::{
    asset_named, platform_asset, tag_version, update_step, GithubReleaseView, ReleaseSeenView,
    SelfUpdateErrorView, UpdateStepView,
};
use crate::commands::setup_laws::in_order;
use crate::commands::status::{dependency_list, detail_text, history_lines, page_note, raw_document};
use crate::commands::todo::{next_report, GitSeenView};
use crate::commands::workflow::{
    default_workflow_set, in_phase, under_way, workflow_added, workflow_removed, workflow_updated,
    WorkflowListErrorView,
};
use crate::engine::advance::{commit_request, indented};
use crate::engine::config::{
    is_middle, lemma_palette, lemma_phase_names, palette, plain_phase, single_workflow,
    workflow_problem, ConfigView, PhaseDefView,
};
use crate::engine::global_config::{
    digit_run, duration_seconds, merged_claude, text_list, text_table, ClaudeRunnerConfigView,
    GlobalConfigView, RunnerConfigView, TextReadView,
};
use crate::engine::hooks::{
    debug_actions, debug_entry, field, spawn_reason, HookActionView, HookConfigView,
    HookContextView, HookEntry, HookEntryView, HookHappeningView,
};
use crate::engine::orchestrator::phase_rows;
use crate::engine::pick::{
    completed_lines, description_too_short, standstill_summary, task_duty, task_model,
    warning_section,
};
use crate::engine::project::{
    resolution_of, sha256_hex, CandidateResolution, CandidateSeenView, ProjectErrorView,
    ProjectView,
};
use crate::engine::runner::{opened_runners, RunnerStoreView, RunnersReadView};
use crate::engine::tasks::{
    lemma_position, opened, StoreErrorView, TaskStoreView, TaskView, TasksReadView,
};
use crate::json_doc::{optional_item, JsonItem};
use crate::rows::{choice, padded, padded_left, truncated};
use crate::string_map::{keys, lemma_put, lookup, put, sorted};
use crate::text::{
    after_prefix, decimal, digits_value, find_from, first_where, is_space, join, keep,
    law_keeping_is_filtering, lemma_first_where, lines, parse_unsigned, path_join, repeated,
    replace, split, trim,
};
use crate::text_set::text_set;
use crate::time::{rfc3339_text, Instant};
use crate::toml_doc::TomlItem;
use crate::topo::dependency_order;

verus! {

/// Each flaw of a manifest is told with what is at fault.
pub proof fn law_flaws_are_told(
    entries: Seq<ManifestTaskView>,
    tasks: Seq<TaskView>,
    config: ConfigView,
    options: AddBatchOptionsView,
    x: Seq<char>,
)
    ensures
        ({
            let told = manifest_problems(entries, tasks, config, options);
            &&& entries.len() == 0 ==> told.contains(
                "manifest must include at least one [[task]] entry"@,
            )
            &&& text_set(repeated_aliases(entries)).contains(x) ==> told.contains(
                "duplicate local id alias: "@ + x,
            )
            &&& text_set(repeated_texts(lower_titles(entries))).contains(x) ==> told.contains(
                "duplicate title in manifest: "@ + x,
            )
            &&& text_set(unknown_workflows(entries, options, config)).contains(x) ==> told.contains(
                "unknown workflow '"@ + x + "'"@,
            )
            &&& text_set(unknown_phases(entries, options, config)).contains(x) ==> told.contains(
                "unknown phase: "@ + x,
            )
            &&& text_set(unknown_dependencies(entries, tasks, entries.len())).contains(x)
                ==> told.contains("unknown dependency reference: "@ + x)
            &&& dependency_order(manifest_needs(entries)).len() != entries.len() ==> told.contains(
                "dependency cycle among manifest tasks"@,
            )
        }),
{
    let told = manifest_problems(entries, tasks, config, options);
    let a = if entries.len() == 0 {
        seq!["manifest must include at least one [[task]] entry"@]
    } else {
        Seq::empty()
    };
    let b = wrapped(text_set(repeated_aliases(entries)), "duplicate local id alias: "@, ""@);
    let c = wrapped(
        text_set(repeated_texts(lower_titles(entries))),
        "duplicate title in manifest: "@,
        ""@,
    );
    let d = taken_titles(entries, tasks, config.terminal());
    let e = wrapped(
        text_set(unknown_workflows(entries, options, config)),
        "unknown workflow '"@,
        "'"@,
    );
    let f = wrapped(text_set(unknown_phases(entries, options, config)), "unknown phase: "@, ""@);
    let g = wrapped(
        text_set(unknown_dependencies(entries, tasks, entries.len())),
        "unknown dependency reference: "@,
        ""@,
    );
    let h = if dependency_order(manifest_needs(entries)).len() != entries.len() {
        seq!["dependency cycle among manifest tasks"@]
    } else {
        Seq::empty()
    };
    assert(told == a + b + c + d + e + f + g + h);
    assert forall|y: Seq<char>|
        a.contains(y) || b.contains(y) || c.contains(y) || e.contains(y) || f.contains(y)
            || g.contains(y) || h.contains(y) implies #[trigger] told.contains(y) by {
        lemma_among(Seq::empty(), a, b + c + d + e + f + g + h, y);
        lemma_among(a, b, c + d + e + f + g + h, y);
        lemma_among(a + b, c, d + e + f + g + h, y);
        lemma_among(a + b + c + d, e, f + g + h, y);
        lemma_among(a + b + c + d + e, f, g + h, y);
        lemma_among(a + b + c + d + e + f, g, h, y);
        lemma_among(a + b + c + d + e + f + g, h, Seq::empty(), y);
        assert(told =~= Seq::empty() + a + (b + c + d + e + f + g + h));
        assert(told =~= a + b + (c + d + e + f + g + h));
        assert(told =~= a + b + c + (d + e + f + g + h));
        assert(told =~= a + b + c + d + e + (f + g + h));
        assert(told =~= a + b + c + d + e + f + (g + h));
        assert(told =~= a + b + c + d + e + f + g + h + Seq::empty());
    }
    lemma_told_of(text_set(repeated_aliases(entries)), "duplicate local id alias: "@, ""@, x);
    lemma_told_of(
        text_set(repeated_texts(lower_titles(entries))),
        "duplicate title in manifest: "@,
        ""@,
        x,
    );
    lemma_told_of(
        text_set(unknown_workflows(entries, options, config)),
        "unknown workflow '"@,
        "'"@,
        x,
    );
    lemma_told_of(text_set(unknown_phases(entries, options, config)), "unknown phase: "@, ""@, x);
    lemma_told_of(
        text_set(unknown_dependencies(entries, tasks, entries.len())),
        "unknown dependency reference: "@,
        ""@,
        x,
    );
    reveal_strlit("");
    assert("duplicate local id alias: "@ + x + ""@ =~= "duplicate local id alias: "@ + x);
    assert("duplicate title in manifest: "@ + x + ""@ =~= "duplicate title in manifest: "@ + x);
    assert("unknown phase: "@ + x + ""@ =~= "unknown phase: "@ + x);
    assert("unknown dependency reference: "@ + x + ""@ =~= "unknown dependency reference: "@ + x);
    if entries.len() == 0 {
        assert(a[0] == "manifest must include at least one [[task]] entry"@);
        assert(a.contains("manifest must include at least one [[task]] entry"@));
    }
    if dependency_order(manifest_needs(entries)).len() != entries.len() {
        assert(h[0] == "dependency cycle among manifest tasks"@);
        assert(h.contains("dependency cycle among manifest tasks"@));
    }
}

proof fn lemma_among(a: Seq<Seq<char>>, b: Seq<Seq<char>>, c: Seq<Seq<char>>, y: Seq<char>)
    ensures
        b.contains(y) ==> (a + b + c).contains(y),
{
    if b.contains(y) {
        let i = b.index_of(y);
        assert((a + b + c)[a.len() + i] == y);
    }
}

proof fn lemma_told_of(items: Seq<Seq<char>>, before: Seq<char>, after: Seq<char>, x: Seq<char>)
    ensures
        items.contains(x) ==> wrapped(items, before, after).contains(before + x + after),
{
    if items.contains(x) {
        let i = items.index_of(x);
        assert(wrapped(items, before, after)[i] == before + x + after);
    }
}

/// An entry whose title another task has is refused with that task's id and title.
pub proof fn law_taken_title_is_told(
    before: Seq<ManifestTaskView>,
    entry: ManifestTaskView,
    tasks: Seq<TaskView>,
    terminal: Option<Seq<char>>,
)
    ensures
        match first_where(tasks, has_title(entry.title, terminal)) {
            Some(i) => taken_titles(before.push(entry), tasks, terminal) == taken_titles(
                before,
                tasks,
                terminal,
            ).push(
                "a task with this title already exists: "@ + tasks[i].id + " \""@ + tasks[i].title
                    + "\""@,
            ),
            None => taken_titles(before.push(entry), tasks, terminal) == taken_titles(
                before,
                tasks,
                terminal,
            ),
        },
{
    assert(before.push(entry).drop_last() =~= before);
}

/// A manifest comes from one place: from a file or from what is typed in.
pub proof fn law_manifest_comes_from_one_place(
    options: AddBatchOptionsView,
    tasks: Seq<ManifestTaskView>,
    message: Seq<char>,
    path: Seq<char>,
)
    ensures
        options.file is Some && options.stdin || options.file is None && !options.stdin ==> forall|
            seen: ManifestSeenView,
        | #[trigger]
            manifest_of(options, seen) == Err::<Seq<ManifestTaskView>, AddBatchErrorView>(
                AddBatchErrorView::User { message: "supply exactly one of --file or --stdin"@ },
            ),
        options.file is Some && !options.stdin || options.file is None && options.stdin ==> {
            &&& manifest_of(options, ManifestSeenView::Parsed { tasks }) == Ok::<
                Seq<ManifestTaskView>,
                AddBatchErrorView,
            >(tasks)
            &&& manifest_of(options, ManifestSeenView::StdinFailed { message }) == Err::<
                Seq<ManifestTaskView>,
                AddBatchErrorView,
            >(AddBatchErrorView::StdinRead { message })
            &&& manifest_of(options, ManifestSeenView::FileFailed { path, message }) == Err::<
                Seq<ManifestTaskView>,
                AddBatchErrorView,
            >(AddBatchErrorView::ManifestRead { path, message })
            &&& manifest_of(options, ManifestSeenView::Malformed { message }) == Err::<
                Seq<ManifestTaskView>,
                AddBatchErrorView,
            >(AddBatchErrorView::ManifestParse { message })
        },
{
}

/// A value that does not suit a setting is refused, with what would suit it.
pub proof fn law_unfit_value_is_told(config: GlobalConfigView, value: Seq<char>)
    ensures
        value != "true"@ && value != "false"@ ==> with_setting(config, ConfigKey::HookDebug, value)
            == Err::<GlobalConfigView, ConfigCommandErrorView>(
            ConfigCommandErrorView::InvalidValue {
                key: "hook_debug"@,
                value,
                expected: "true or false"@,
            },
        ),
        value != "true"@ && value != "false"@ ==> with_setting(
            config,
            ConfigKey::RunnerAutoStart,
            value,
        ) == Err::<GlobalConfigView, ConfigCommandErrorView>(
            ConfigCommandErrorView::InvalidValue {
                key: "runner.auto_start"@,
                value,
                expected: "true or false"@,
            },
        ),
        parse_unsigned(value, 0xffff_ffff) is None ==> with_setting(
            config,
            ConfigKey::DefaultMaxRetries,
            value,
        ) == Err::<GlobalConfigView, ConfigCommandErrorView>(
            ConfigCommandErrorView::InvalidValue {
                key: "default_max_retries"@,
                value,
                expected: "an unsigned 32-bit integer"@,
            },
        ),
        value != "block"@ && value != "fail"@ ==> with_setting(
            config,
            ConfigKey::OnRetryExhausted,
            value,
        ) == Err::<GlobalConfigView, ConfigCommandErrorView>(
            ConfigCommandErrorView::InvalidValue {
                key: "on_retry_exhausted"@,
                value,
                expected: "block or fail"@,
            },
        ),
{
}

/// What kind of value each setting has.
pub proof fn law_kinds_of_settings()
    ensures
        ConfigKey::HookDebug.kind() == "bool"@,
        ConfigKey::DefaultMaxRetries.kind() == "u32"@,
        ConfigKey::OnRetryExhausted.kind() == "block|fail"@,
        ConfigKey::RunnerAutoStart.kind() == "bool"@,
        ConfigKey::RunnerLeaseTtl.kind() == "duration string, e.g. 5m"@,
        ConfigKey::RunnerType.kind() == "string"@,
{
}

/// What is done to commands is said with how many they are, whether they are of every project, and
/// the event.
pub proof fn law_changed_commands_are_told(
    project: ProjectView,
    seen: HookFilesView,
    event: Seq<char>,
    parts: Seq<Seq<char>>,
)
    ensures
        hook_added(project, seen, event, parts, false).1 is Ok ==> hook_added(
            project,
            seen,
            event,
            parts,
            false,
        ).0.output == Some("added"@ + " "@ + "hook "@ + event + ": "@ + command_of(parts)),
        hook_added(project, seen, event, parts, true).1 is Ok ==> hook_added(
            project,
            seen,
            event,
            parts,
            true,
        ).0.output == Some("added"@ + " global "@ + "hook "@ + event + ": "@ + command_of(parts)),
        hooks_removed(project, seen, event, false).1 is Ok ==> hooks_removed(
            project,
            seen,
            event,
            false,
        ).0.output == Some(
            "removed "@ + decimal(
                project.project_hooks.hooks.filter(|h: HookEntryView| h.on == event).len(),
            ) + " "@ + "hook(s) for "@ + event,
        ),
        hooks_removed(project, seen, event, true).1 is Ok ==> hooks_removed(
            project,
            seen,
            event,
            true,
        ).0.output == Some(
            "removed "@ + decimal(
                project.global_hooks.hooks.filter(|h: HookEntryView| h.on == event).len(),
            ) + " global "@ + "hook(s) for "@ + event,
        ),
        hooks_updated(project, seen, event, parts, false).1 is Ok ==> hooks_updated(
            project,
            seen,
            event,
            parts,
            false,
        ).0.output == Some(
            "updated "@ + decimal(
                project.project_hooks.hooks.filter(|h: HookEntryView| h.on == event).len(),
            ) + " "@ + "hook(s) for "@ + event + ": "@ + command_of(parts),
        ),
        hooks_updated(project, seen, event, parts, true).1 is Ok ==> hooks_updated(
            project,
            seen,
            event,
            parts,
            true,
        ).0.output == Some(
            "updated "@ + decimal(
                project.global_hooks.hooks.filter(|h: HookEntryView| h.on == event).len(),
            ) + " global "@ + "hook(s) for "@ + event + ": "@ + command_of(parts),
        ),
{
    lemma_counted(project.project_hooks, event);
    lemma_counted(project.global_hooks, event);
}

proof fn lemma_counted(config: HookConfigView, event: Seq<char>)
    ensures
        hook_count(config, event) == config.hooks.filter(|h: HookEntryView| h.on == event).len(),
{
    let chosen = choice::<HookEntry, String, OnEvent>(event);
    let f = |h: HookEntryView| h.on == event;
    assert(chosen =~= f);
    law_keeping_is_filtering(config.hooks, chosen);
}

/// A quoted text stands between quotes; a quote within it closes them, stands behind a backslash, and
/// opens them again. All other characters stand as they are.
pub proof fn law_quoting(s: Seq<char>, c: char)
    ensures
        quoted(Seq::empty()) == seq!['\'', '\''],
        c != '\'' ==> quoted(s.push(c)) == quoted(s).drop_last() + seq![c, '\''],
        c == '\'' ==> quoted(s.push(c)) == quoted(s).drop_last() + seq!['\'', '\\', '\'', '\'', '\''],
{
    reveal_strlit("'");
    reveal_strlit("'\\''");
    assert(s.push(c).drop_last() =~= s);
    assert(s.push(c).last() == c);
    assert(replace(Seq::empty(), '\'', "'\\''"@) =~= Seq::empty());
    assert(quoted(Seq::empty()) =~= seq!['\'', '\'']);
    assert(quoted(s).drop_last() =~= "'"@ + replace(s, '\'', "'\\''"@));
    if c == '\'' {
        assert(replace(s.push(c), '\'', "'\\''"@) == replace(s, '\'', "'\\''"@) + "'\\''"@);
        assert("'\\''"@ =~= seq!['\'', '\\', '\'', '\'']);
        assert(quoted(s.push(c)) =~= quoted(s).drop_last() + seq!['\'', '\\', '\'', '\'', '\'']);
    } else {
        assert(quoted(s.push(c)) =~= quoted(s).drop_last() + seq![c, '\'']);
    }
}

/// The heads of the two tables.
pub proof fn law_heads_of_tables()
    ensures
        crate::commands::status::table_head()[0] == padded("ID"@, 10) + "  "@ + padded("Title"@, 41)
            + "  "@ + padded("State"@, 15) + "  "@ + padded_left("Retries"@, 7) + "  "@ + padded(
            "Workflow"@,
            15,
        ) + "  "@ + "Last Action"@,
        crate::commands::project::table_head()[0] == padded("PROJECT"@, 18) + "  "@ + padded(
            "PATH"@,
            42,
        ) + "  "@ + padded("PROGRESS"@, 12) + "  "@ + padded("ACTIVE"@, 24) + "  "@ + padded_left(
            "BLOCKED"@,
            7,
        ) + "  "@ + padded_left("FAILED"@, 6),
{
}

/// How many projects or tasks are left out is told in words.
pub proof fn law_rest_is_told(count: nat, limit: nat, total: nat)
    ensures
        hidden_note(1) == decimal(1) + " stale "@ + "project"@ + " hidden (use --stale to show)"@,
        count != 1 ==> hidden_note(count) == decimal(count) + " stale "@ + "projects"@
            + " hidden (use --stale to show)"@,
        0 < limit < total ==> page_note(limit, total, true) == "\n"@ + "Showing "@ + decimal(limit)
            + " of "@ + decimal(total) + " tasks. Use --offset or --limit to see more."@,
        0 < limit < total ==> page_note(limit, total, false) == "\n"@ + "Showing latest "@ + decimal(
            limit,
        ) + " of "@ + decimal(total) + " tasks. Use --offset or --limit to see more."@,
        limit == 0 || total <= limit ==> page_note(limit, total, true).len() == 0 && page_note(
            limit,
            total,
            false,
        ).len() == 0,
{
}

/// What a task does not have is shown by a dash.
pub proof fn law_dashes_stand_for_nothing(t: TaskView, indent: nat)
    ensures
        t.dependencies.len() == 0 ==> dependency_list(t) == "—"@,
        t.blocked_at_phase is None && t.blocked_reason is None
            ==> crate::commands::status::blocked_text(t) == "—"@,
        t.blocked_at_phase is Some && t.blocked_reason is None
            ==> crate::commands::status::blocked_text(t) == t.blocked_at_phase->0 + " — —"@,
        t.blocked_at_phase is None && t.blocked_reason is Some
            ==> crate::commands::status::blocked_text(t) == "— — "@ + t.blocked_reason->0,
        detail_text(Seq::empty(), indent) == repeated(' ', indent) + "—"@,
        history_lines(Seq::empty()) == "  —"@,
{
}

/// The document of the status holds the tasks and what is known of the runner.
pub proof fn law_document_of_the_status(
    tasks: Map<Seq<char>, JsonItem>,
    status: RunnerStatusOutputView,
)
    ensures
        ({
            let d = raw_document(JsonItem::Object(tasks), status);
            let m = d->Object_0;
            let r = m["runner"@]->Object_0;
            &&& d is Object
            &&& m.dom() == set!["tasks"@, "runner"@]
            &&& tasks.contains_key("tasks"@) ==> m["tasks"@] == tasks["tasks"@]
            &&& !tasks.contains_key("tasks"@) ==> m["tasks"@] == JsonItem::List(Seq::empty())
            &&& m["runner"@] is Object
            &&& r["runner_id"@] == optional_item(status.runner_id)
            &&& r["runner_type"@] == optional_item(status.runner_type)
            &&& r["current_task"@] == optional_item(status.current_task)
            &&& r["liveness"@] == JsonItem::Text(status.liveness)
            &&& r["heartbeat_age"@] == optional_item(status.heartbeat_age)
        }),
{
    reveal_strlit("tasks");
    reveal_strlit("runner");
    reveal_strlit("runner_id");
    reveal_strlit("runner_type");
    reveal_strlit("current_task");
    reveal_strlit("liveness");
    reveal_strlit("heartbeat_age");
    assert("tasks"@.len() == 5 && "runner"@.len() == 6 && "runner_id"@.len() == 9
        && "runner_type"@.len() == 11 && "current_task"@.len() == 12 && "liveness"@.len() == 8
        && "heartbeat_age"@.len() == 13);
    let m = raw_document(JsonItem::Object(tasks), status)->Object_0;
    assert(m.dom() =~= set!["tasks"@, "runner"@]);
}

/// A runner has its log in its own directory, and an id out of what is its own.
pub proof fn law_runner_is_named(
    project: ProjectView,
    session: Seq<char>,
    now: Instant,
    pid: u32,
)
    ensures
        runner_log(project) == path_join(runner_home(project), "runner.log"@),
        new_runner_id(project, session, now, pid) == "runner-"@ + sha256_hex(
            project.slug + session + rfc3339_text(now) + decimal(pid as nat),
        ).take(12),
{
}

/// A change of the workflows that cannot be made is refused with its reason.
pub proof fn law_workflow_refusals(
    project: ProjectView,
    files: ProjectFilesView,
    config: ConfigView,
    name: Seq<char>,
    phases: Seq<Seq<char>>,
    phase: Seq<char>,
    after: Option<Seq<char>>,
)
    requires
        in_order(project, files.config, config),
    ensures
        ({
            let no = |reason: Seq<char>|
                Err::<ConfigView, WorkflowListErrorView>(
                    WorkflowListErrorView::InvalidConfig { path: config_path(project), reason },
                );
            let there = lookup(config.workflows, name);
            &&& there is None ==> default_workflow_set(project, files.config, name).1 == no(
                "unknown workflow '"@ + name + "'"@,
            )
            &&& there is Some ==> workflow_added(project, files.config, name, phases).1 == no(
                "workflow '"@ + name + "' already exists"@,
            )
            &&& workflow_removed(project, files, config.default_workflow).1 == no(
                "cannot remove the default workflow; set-default first"@,
            )
            &&& there is None && name != config.default_workflow ==> workflow_removed(
                project,
                files,
                name,
            ).1 == no("unknown workflow '"@ + name + "'"@)
            &&& workflow_updated(project, files, name, None, after, None).1 == no(
                "one of --add or --remove is required"@,
            )
            &&& there is None ==> workflow_updated(project, files, name, Some(phase), after, None).1
                == no("unknown workflow '"@ + name + "'"@)
            &&& there is Some && lookup(config.phases, phase) is None ==> workflow_updated(
                project,
                files,
                name,
                Some(phase),
                after,
                None,
            ).1 == no("unknown phase '"@ + phase + "'"@)
            &&& there is Some && lookup(config.phases, phase) is Some && there->0.contains(phase)
                ==> workflow_updated(project, files, name, Some(phase), after, None).1 == no(
                "workflow '"@ + name + "' already references phase '"@ + phase + "'"@,
            )
            &&& there is Some && lookup(config.phases, phase) is Some && !there->0.contains(phase)
                && after is Some && !there->0.contains(after->0) ==> workflow_updated(
                project,
                files,
                name,
                Some(phase),
                after,
                None,
            ).1 == no("phase '"@ + after->0 + "' not found in workflow '"@ + name + "'"@)
            &&& there is Some && (phase == "pending"@ || phase == "done"@) ==> workflow_updated(
                project,
                files,
                name,
                None,
                after,
                Some(phase),
            ).1 == no("cannot remove reserved phase '"@ + phase + "'"@)
        }),
{
    if lookup(config.workflows, name) is Some && after is Some {
        let steps = lookup(config.workflows, name)->0;
        lemma_position(steps, after->0);
    }
}

/// What is wrong with a configuration is told with the workflow and the phase.
pub proof fn law_config_refusals(
    c: ConfigView,
    phases: Seq<(Seq<char>, PhaseDefView)>,
    name: Seq<char>,
    steps: Seq<Seq<char>>,
)
    ensures
        lookup(c.workflows, c.default_workflow) is None ==> c.problem() == Some(
            "default_workflow '"@ + c.default_workflow + "' not found in workflows"@,
        ),
        workflow_problem(phases, name, Seq::empty()) == Some(
            "workflow '"@ + name + "' must not be empty"@,
        ),
        steps.len() > 0 && lookup(phases, steps[0]) is None ==> workflow_problem(phases, name, steps)
            == Some("workflow '"@ + name + "' references unknown phase '"@ + steps[0] + "'"@),
        steps.len() > 1 && lookup(phases, steps[0]) is Some && steps[1] == steps[0]
            ==> workflow_problem(phases, name, steps) == Some(
            "workflow '"@ + name + "' references duplicate phase '"@ + steps[1] + "'"@,
        ),
        steps.len() == 1 && lookup(phases, steps[0]) is Some && steps[0] != "done"@
            ==> workflow_problem(phases, name, steps) == Some(
            "workflow '"@ + name + "' terminal phase must be '"@ + "done"@ + "' (found '"@ + steps[0]
                + "')"@,
        ),
{
    reveal_with_fuel(crate::engine::config::steps_problem, 3);
    if steps.len() > 0 {
        assert(steps.take(0) =~= Seq::empty());
    }
    if steps.len() > 1 {
        assert(steps.take(1)[0] == steps[0]);
        assert(steps.take(1).contains(steps[0]));
    }
}

/// The headings of the sections of a prompt and of the summaries, and what a thin description is
/// warned of.
pub proof fn law_sections_are_headed(
    t: TaskView,
    config: ConfigView,
    error: Seq<char>,
    log: Seq<char>,
    id: Seq<char>,
    title: Seq<char>,
)
    ensures
        completed_lines(Seq::empty())
            == "# Agira Completion Summary\n\nAll tasks are in the terminal done phase.\n\n## Completed Tasks"@,
        standstill_summary(Seq::empty())
            == "# Agira Task Summary\n\nNo actionable tasks found. All remaining tasks are blocked, failed, or complete.\n\n## Non-actionable Tasks"@,
        phase_rows(config.phases, Seq::empty())
            == "\n## phase routing table\n\n| phase | backend | duty |\n|---|---|---|\n"@,
        description_too_short(t, config) ==> warning_section(t, config)
            == "\n\n## Description Quality Warning\nThis description is short ("@ + decimal(
            t.description.len(),
        ) + " chars). If the enriching phase did not produce a complete spec, update it before proceeding:\n  agira task update "@
            + t.id + " --description \"<complete spec>\"\nOr block for clarification:\n  agira task block "@
            + t.id + " --reason \"description too thin to implement\""@,
        !description_too_short(t, config) ==> warning_section(t, config).len() == 0,
        spawn_reason(error) == "spawn_error: "@ + field(error, 500),
        commit_request(id, title, None) == "# Commit\n\nTask "@ + id + " \""@ + title
            + "\" is complete — please commit.\n\n"@ + "No recent commits found."@
            + "\n\nSuggested commit message:\n  feat("@ + id + "): "@ + title,
        commit_request(id, title, Some(log)) == "# Commit\n\nTask "@ + id + " \""@ + title
            + "\" is complete — please commit.\n\n"@ + (
        "Recent commits for convention reference:\n"@ + join(indented(lines(log)), "\n"@))
            + "\n\nSuggested commit message:\n  feat("@ + id + "): "@ + title,
{
}

/// The managers of packages go by their names, with or without a version.
pub proof fn law_managers_go_by_name(field: Seq<char>)
    ensures
        manager_in(field) == Some(PackageManager::Bun) <==> split(field, '@')[0] == "bun"@,
        manager_in(field) == Some(PackageManager::Pnpm) <==> split(field, '@')[0] == "pnpm"@,
        manager_in(field) == Some(PackageManager::Yarn) <==> split(field, '@')[0] == "yarn"@,
        manager_in(field) == Some(PackageManager::Npm) <==> split(field, '@')[0] == "npm"@,
        PackageManager::Bun.name() == "bun"@,
        PackageManager::Pnpm.name() == "pnpm"@,
        PackageManager::Yarn.name() == "yarn"@,
        PackageManager::Npm.name() == "npm"@,
{
    reveal_strlit("bun");
    reveal_strlit("pnpm");
    reveal_strlit("yarn");
    reveal_strlit("npm");
    assert("bun"@.len() == 3 && "pnpm"@.len() == 4 && "yarn"@.len() == 4 && "npm"@.len() == 3);
    assert("bun"@[0] as u32 == 98 && "npm"@[0] as u32 == 110);
    assert("pnpm"@[0] as u32 == 112 && "yarn"@[0] as u32 == 121);
}

/// A new project has two phases, each with its model.
pub proof fn law_first_phases()
    ensures
        first_phases().len() == 2,
        first_phases()[0].0 == "in_progress"@,
        first_phases()[1].0 == "accepting"@,
        first_phases()[0].1.model == Some("sonnet"@),
        first_phases()[1].1.model == Some("sonnet"@),
{
}

/// Why a duration is not one.
pub proof fn law_unfit_duration_is_told(s: Seq<char>, runner: RunnerConfigView)
    ensures
        ({
            let t = trim(s);
            let n = digit_run(t);
            let amount = digits_value(t.take(n));
            &&& n == 0 || n == t.len() ==> duration_seconds(s) == Err::<int, Seq<char>>(
                "expected a duration like 5m"@,
            )
            &&& 0 < n < t.len() && amount > 0x7fff_ffff_ffff_ffff ==> duration_seconds(s) == Err::<
                int,
                Seq<char>,
            >("expected a positive integer duration amount"@)
            &&& 0 < n < t.len() && amount == 0 ==> duration_seconds(s) == Err::<int, Seq<char>>(
                "duration must be positive"@,
            )
            &&& 0 < n < t.len() && 0 < amount <= 0x7fff_ffff_ffff_ffff && t.skip(n) != "s"@ && t.skip(
                n,
            ) != "m"@ && t.skip(n) != "h"@ && t.skip(n) != "d"@ ==> duration_seconds(s) == Err::<
                int,
                Seq<char>,
            >("supported units are s, m, h, and d"@)
            &&& duration_seconds(runner.lease_ttl) is Err ==> runner.lease_seconds() == Err::<
                int,
                Seq<char>,
            >(
                "invalid runner.lease_ttl '"@ + runner.lease_ttl + "': "@ + duration_seconds(
                    runner.lease_ttl,
                )->Err_0,
            )
        }),
{
}

/// A file of settings is taken along; where it cannot be read or is not sound that is told.
pub proof fn law_settings_are_taken_along(
    program: Seq<char>,
    config: ClaudeRunnerConfigView,
    hooks: Seq<char>,
    dir: Seq<char>,
    message: Seq<char>,
)
    ensures
        config.settings_path is None ==> forall|read: TextReadView| #[trigger]
            settings_argument(program, config, hooks, dir, read) == Ok::<
                (Seq<char>, Option<Seq<char>>),
                RunnerCommandErrorView,
            >((hooks, None)),
        config.settings_path is Some && config.settings_path->0.len() > 0 ==> {
            &&& settings_argument(program, config, hooks, dir, TextReadView::Missing) == Err::<
                (Seq<char>, Option<Seq<char>>),
                RunnerCommandErrorView,
            >(
                RunnerCommandErrorView::Read {
                    path: config.settings_path->0,
                    message: "entity not found"@,
                },
            )
            &&& settings_argument(
                program,
                config,
                hooks,
                dir,
                TextReadView::Unreadable { message },
            ) == Err::<(Seq<char>, Option<Seq<char>>), RunnerCommandErrorView>(
                RunnerCommandErrorView::Read { path: config.settings_path->0, message },
            )
        },
{
}

/// A cell that is too long is cut and ends in an ellipsis; one that is too short is filled with
/// spaces.
pub proof fn law_cells_are_cut_and_filled(s: Seq<char>, n: nat)
    ensures
        s.len() <= n ==> truncated(s, n) == s,
        s.len() > n ==> truncated(s, n).len() == n + 1 && truncated(s, n).take(n as int) == s.take(
            n as int,
        ) && truncated(s, n)[n as int] == '…',
        s.len() >= n ==> padded(s, n) == s && padded_left(s, n) == s,
        s.len() < n ==> padded(s, n) == s + Seq::new((n - s.len()) as nat, |i: int| ' '),
        s.len() < n ==> padded_left(s, n) == Seq::new((n - s.len()) as nat, |i: int| ' ') + s,
{
    if s.len() > n {
        assert(truncated(s, n).take(n as int) =~= s.take(n as int));
    }
}

/// The characters that count as white space.
pub proof fn law_white_space(c: char)
    ensures
        ({
            let u = c as u32;
            is_space(c) <==> (9 <= u <= 13 || u == 0x20 || u == 0x85 || u == 0xA0 || u == 0x1680
                || 0x2000 <= u <= 0x200A || u == 0x2028 || u == 0x2029 || u == 0x202F || u == 0x205F
                || u == 0x3000)
        }),
{
}

proof fn lemma_entries(parts: Seq<Seq<char>>)
    ensures
        match phase_entries(parts) {
            Some(entries) => entries.len() == parts.len() && forall|k: int|
                0 <= k < parts.len() ==> phase_entry(#[trigger] parts[k]) == Some(entries[k]),
            None => exists|k: int|
                0 <= k < parts.len() && phase_entry(#[trigger] parts[k]) is None,
        },
    decreases parts.len(),
{
    if parts.len() > 0 {
        let front = parts.drop_last();
        lemma_entries(front);
        match phase_entries(front) {
            None => {
                let k = choose|k: int|
                    0 <= k < front.len() && phase_entry(#[trigger] front[k]) is None;
                assert(parts[k] == front[k]);
            },
            Some(rest) => {
                assert(parts[parts.len() - 1] == parts.last());
                if phase_entry(parts.last()) is Some {
                    let entries = phase_entries(parts)->0;
                    assert forall|k: int| 0 <= k < parts.len() implies phase_entry(
                        #[trigger] parts[k],
                    ) == Some(entries[k]) by {
                        if k < front.len() {
                            assert(parts[k] == front[k]);
                        }
                    }
                }
            },
        }
    }
}

/// Phases are listed with commas between them; where one of them is not sound the list is refused.
/// Otherwise they stand in the order of the list, without the two that every workflow has.
pub proof fn law_listed_phases(input: Seq<char>)
    ensures
        ({
            let parts = split(input, ',');
            let names = parts.map_values(|p: Seq<char>| (phase_entry(p)->0).0);
            &&& phases_in(input) is Ok <==> forall|k: int|
                0 <= k < parts.len() ==> phase_entry(#[trigger] parts[k]) is Some
            &&& phases_in(input) is Err ==> phases_in(input)->Err_0 == InitErrorView::InvalidPhases
            &&& phases_in(input) is Ok ==> phases_in(input)->Ok_0.map_values(
                |e: (Seq<char>, PhaseDefView)| e.0,
            ) == names.filter(|n: Seq<char>| n != "pending"@ && n != "done"@)
        }),
{
    let parts = split(input, ',');
    lemma_entries(parts);
    if phases_in(input) is Ok {
        let entries = phase_entries(parts)->0;
        let names = parts.map_values(|p: Seq<char>| (phase_entry(p)->0).0);
        assert(keys(entries) =~= names);
        let q = |n: Seq<char>| n != "pending"@ && n != "done"@;
        assert(is_middle() =~= q);
        law_keeping_is_filtering(names, q);
        assert(phases_in(input)->Ok_0.map_values(|e: (Seq<char>, PhaseDefView)| e.0) =~= keep(
            names,
            q,
        ));
    }
}

proof fn lemma_colon(s: Seq<char>, n: int, i: int)
    requires
        0 <= i <= n < s.len(),
        s[n] == ':',
        forall|k: int| 0 <= k < n ==> s[k] != ':',
    ensures
        find_from(s, ":"@, i) == Some(n),
    decreases n - i,
{
    reveal_strlit(":");
    assert(":"@.len() == 1 && ":"@[0] == ':');
    assert(s.subrange(i, i + 1)[0] == s[i]);
    if i < n {
        lemma_colon(s, n, i + 1);
    } else {
        assert(s.subrange(i, i + 1) =~= ":"@);
    }
}

proof fn lemma_no_colon(s: Seq<char>, i: int)
    requires
        0 <= i,
        !s.contains(':'),
    ensures
        find_from(s, ":"@, i) is None,
    decreases s.len() - i + 1,
{
    reveal_strlit(":");
    assert(":"@.len() == 1 && ":"@[0] == ':');
    if i + 1 <= s.len() {
        assert(s.subrange(i, i + 1)[0] == s[i]);
        assert(s.contains(s[i]));
        lemma_no_colon(s, i + 1);
    }
}

/// One phase of a list is a name, or a name and a model with a colon between them; spaces round them
/// do not count.
pub proof fn law_listed_phase(part: Seq<char>, n: int)
    ensures
        ({
            let pair = trim(part);
            &&& pair.len() == 0 ==> phase_entry(part) is None
            &&& pair.len() > 0 && !pair.contains(':') ==> phase_entry(part) == Some(
                (pair, PhaseDefView { model: None, duty: None, gate: None }),
            )
            &&& 0 <= n < pair.len() && pair[n] == ':' && (forall|k: int|
                0 <= k < n ==> pair[k] != ':') ==> {
                let name = trim(pair.take(n));
                let model = trim(pair.skip(n + 1));
                &&& name.len() > 0 && model.len() > 0 ==> phase_entry(part) == Some(
                    (name, PhaseDefView { model: Some(model), duty: None, gate: None }),
                )
                &&& name.len() == 0 || model.len() == 0 ==> phase_entry(part) is None
            }
        }),
{
    let pair = trim(part);
    reveal_strlit(":");
    assert(":"@.len() == 1);
    if !pair.contains(':') {
        lemma_no_colon(pair, 0);
    }
    if 0 <= n < pair.len() && pair[n] == ':' && (forall|k: int| 0 <= k < n ==> pair[k] != ':') {
        lemma_colon(pair, n, 0);
    }
}

/// Tasks and runners are kept in files of the state directory.
pub proof fn law_files_of_the_state(
    state_dir: Seq<char>,
    read: TasksReadView,
    config: ConfigView,
    runners: RunnersReadView,
)
    ensures
        opened(state_dir, read, config) is Ok ==> opened(state_dir, read, config)->Ok_0.tasks_path
            == path_join(state_dir, "tasks.json"@),
        opened_runners(state_dir, runners) is Ok ==> opened_runners(
            state_dir,
            runners,
        )->Ok_0.runners_path == path_join(path_join(state_dir, "runner"@), "runners.json"@),
{
}

/// A change that no task accounts for is asked to be committed under a name of its own.
pub proof fn law_stray_changes(
    project: ProjectView,
    config: ConfigView,
    s: TaskStoreView,
    git: GitSeenView,
    now: Instant,
)
    requires
        git.dirty,
        s.tasks.len() == 0,
    ensures
        next_report(project, config, s, git, now).output.len() == 2,
        next_report(project, config, s, git, now).output[0] == commit_request(
            "uncommitted"@,
            "Uncommitted changes"@,
            git.recent_commits,
        ),
{
}

/// A workflow that a task is under way in stays, and the task is named; one that is removed or
/// changed is said.
pub proof fn law_workflow_in_use(
    project: ProjectView,
    files: ProjectFilesView,
    config: ConfigView,
    s: TaskStoreView,
    name: Seq<char>,
    phase: Seq<char>,
    i: int,
)
    requires
        in_order(project, files.config, config),
        opened(project.state_dir, files.tasks, config) == Ok::<TaskStoreView, StoreErrorView>(s),
        lookup(config.workflows, name) is Some,
        name != config.default_workflow,
        0 <= i < s.tasks.len(),
        s.tasks[i].workflow == name,
        forall|j: int| 0 <= j < i ==> (#[trigger] s.tasks[j]).workflow != name,
    ensures
        s.tasks[i].state != "done"@ && s.tasks[i].state != "failed"@ ==> workflow_removed(
            project,
            files,
            name,
        ).1 == Err::<ConfigView, WorkflowListErrorView>(
            WorkflowListErrorView::InvalidConfig {
                path: config_path(project),
                reason: "cannot remove workflow '"@ + name + "': task "@ + s.tasks[i].id
                    + " is not terminal"@,
            },
        ),
        phase != "pending"@ && phase != "done"@ && s.tasks[i].state == phase ==> workflow_updated(
            project,
            files,
            name,
            None,
            None,
            Some(phase),
        ).1 == Err::<ConfigView, WorkflowListErrorView>(
            WorkflowListErrorView::InvalidConfig {
                path: config_path(project),
                reason: "cannot remove phase '"@ + phase + "' from workflow '"@ + (name
                    + "': task "@ + s.tasks[i].id) + " is in that phase"@,
            },
        ),
{
    lemma_first_where(s.tasks, under_way(name));
    lemma_first_where(s.tasks, in_phase(name, phase));
    if s.tasks[i].state != "done"@ && s.tasks[i].state != "failed"@ {
        assert(under_way(name)(s.tasks[i]));
        let f = first_where(s.tasks, under_way(name))->0;
        assert(under_way(name)(s.tasks[f]));
        assert(f == i);
    }
    if phase != "pending"@ && phase != "done"@ && s.tasks[i].state == phase {
        assert(in_phase(name, phase)(s.tasks[i]));
        let f = first_where(s.tasks, in_phase(name, phase))->0;
        assert(in_phase(name, phase)(s.tasks[f]));
        assert(f == i);
    }
}

/// What a hook did wrong is warned of and noted.
pub proof fn law_hook_that_cannot_be_waited_for(
    hook: HookEntryView,
    event: Seq<char>,
    ctx: HookContextView,
    pid: u32,
    error: Seq<char>,
    now: Seq<char>,
)
    ensures
        debug_actions(hook, event, ctx, HookHappeningView::WaitFailed { pid, error }, now)[0]
            == (HookActionView::Warn { message: "warning: hook wait failed: "@ + error }),
        debug_actions(hook, event, ctx, HookHappeningView::WaitFailed { pid, error }, now)[1]
            == (HookActionView::LogDebug {
            entry: debug_entry(
                now,
                hook,
                ctx.task_id,
                "error:wait failed: "@ + error,
                Some(pid),
            ),
        }),
{
}

/// What is written of the program that runs the tasks, each under its key.
pub proof fn law_program_is_written(t: Map<Seq<char>, TomlItem>, c: ClaudeRunnerConfigView, key: Seq<char>)
    ensures
        ({
            let m = merged_claude(t, c);
            &&& m["command"@] == TomlItem::Text(c.command)
            &&& m["model"@] == TomlItem::Text(c.model)
            &&& m["permission_mode"@] == TomlItem::Text(c.permission_mode)
            &&& c.settings_path is Some ==> m["settings_path"@] == TomlItem::Text(c.settings_path->0)
            &&& c.settings_path is None ==> !m.contains_key("settings_path"@)
            &&& m["extra_args"@] == text_list(c.extra_args)
            &&& m["env"@] == TomlItem::Table(text_table(c.env))
            &&& key != "command"@ && key != "model"@ && key != "permission_mode"@ && key
                != "settings_path"@ && key != "extra_args"@ && key != "env"@ ==> m.contains_key(key)
                == t.contains_key(key) && m[key] == t[key]
        }),
{
    reveal_strlit("command");
    reveal_strlit("model");
    reveal_strlit("permission_mode");
    reveal_strlit("settings_path");
    reveal_strlit("extra_args");
    reveal_strlit("env");
    assert("command"@.len() == 7 && "model"@.len() == 5 && "permission_mode"@.len() == 15
        && "settings_path"@.len() == 13 && "extra_args"@.len() == 10 && "env"@.len() == 3);
}

/// A way of asking that is not known is refused with those that are.
pub proof fn law_ways_of_asking(c: ClaudeRunnerConfigView, program: Seq<char>)
    ensures
        ({
            let known = seq![
                "auto"@,
                "acceptEdits"@,
                "bypassPermissions"@,
                "dontAsk"@,
                "default"@,
                "plan"@,
            ];
            &&& known.contains(c.permission_mode) ==> c.check_permission_mode(program) is Ok
            &&& !known.contains(c.permission_mode) ==> c.check_permission_mode(program) == Err::<
                (),
                Seq<char>,
            >(
                "invalid runner."@ + program + ".permission_mode '"@ + c.permission_mode
                    + "': expected one of "@ + join(known, ", "@),
            )
        }),
{
}

/// A state directory that is something else, or that belongs to another project, is not taken.
pub proof fn law_state_directory_is_taken(
    state_dir: Seq<char>,
    content: Seq<char>,
    other: Seq<char>,
    message: Seq<char>,
)
    ensures
        resolution_of(state_dir, CandidateSeenView::NotDirectory, content) == Err::<
            CandidateResolution,
            ProjectErrorView,
        >(
            ProjectErrorView::CreateStateDir {
                path: state_dir,
                message: "state path exists and is not a directory"@,
            },
        ),
        resolution_of(state_dir, CandidateSeenView::SourceUnreadable { message }, content) == Err::<
            CandidateResolution,
            ProjectErrorView,
        >(
            ProjectErrorView::SourcePathRead {
                path: path_join(state_dir, ".source_path"@),
                message,
            },
        ),
        resolution_of(state_dir, CandidateSeenView::Owned { source_path: other }, content) == Ok::<
            CandidateResolution,
            ProjectErrorView,
        >(
            if other == content {
                CandidateResolution::Use
            } else {
                CandidateResolution::Collision
            },
        ),
        resolution_of(state_dir, CandidateSeenView::Missing, content) == Ok::<
            CandidateResolution,
            ProjectErrorView,
        >(CandidateResolution::Create),
        resolution_of(state_dir, CandidateSeenView::Unowned { empty: true }, content) == Ok::<
            CandidateResolution,
            ProjectErrorView,
        >(CandidateResolution::Claim),
        resolution_of(state_dir, CandidateSeenView::Unowned { empty: false }, content) == Ok::<
            CandidateResolution,
            ProjectErrorView,
        >(CandidateResolution::Collision),
{
}

proof fn lemma_last_counts(entries: Seq<(Seq<char>, PhaseDefView)>, k: int)
    requires
        0 <= k < entries.len(),
        forall|j: int| k < j < entries.len() ==> (#[trigger] entries[j]).0 != entries[k].0,
    ensures
        sorted(palette(entries)),
        lookup(palette(entries), entries[k].0) == Some(entries[k].1),
    decreases entries.len(),
{
    let front = entries.drop_last();
    lemma_palette(entries);
    lemma_palette(front);
    lemma_put(palette(front), entries.last().0, entries.last().1);
    if k < entries.len() - 1 {
        assert(entries[entries.len() - 1].0 != entries[k].0);
        assert forall|j: int| k < j < front.len() implies (#[trigger] front[j]).0 != front[k].0 by {
            assert(front[j] == entries[j]);
        }
        lemma_last_counts(front, k);
    }
}

/// A configuration that is made out of listed phases has each of them as it is listed last, and one
/// workflow with all of them in their order.
pub proof fn law_listed_phases_are_configured(
    stack: Seq<char>,
    entries: Seq<(Seq<char>, PhaseDefView)>,
    max_retries: u32,
    k: int,
)
    requires
        0 <= k < entries.len(),
        forall|j: int| k < j < entries.len() ==> (#[trigger] entries[j]).0 != entries[k].0,
        entries[k].0 != "pending"@ && entries[k].0 != "done"@,
    ensures
        ({
            let c = single_workflow(stack, entries, max_retries);
            let bare = PhaseDefView { model: None, duty: None, gate: None };
            let names = entries.map_values(|e: (Seq<char>, PhaseDefView)| e.0);
            &&& c.stack == stack
            &&& c.max_retries == max_retries
            &&& lookup(c.phases, entries[k].0) == Some(entries[k].1)
            &&& lookup(c.phases, "pending"@) == Some(bare)
            &&& lookup(c.phases, "done"@) == Some(bare)
            &&& c.workflows.len() == 1
            &&& c.workflows[0].0 == c.default_workflow
            &&& c.workflows[0].1 == seq!["pending"@] + names.filter(
                |n: Seq<char>| n != "pending"@ && n != "done"@,
            ) + seq!["done"@]
            &&& middle_phases(entries).contains(entries[k])
        }),
{
    lemma_phase_names();
    lemma_last_counts(entries, k);
    let p = palette(entries);
    let once = put(p, "pending"@, plain_phase());
    lemma_put(p, "pending"@, plain_phase());
    lemma_put(once, "done"@, plain_phase());
    let names = entries.map_values(|e: (Seq<char>, PhaseDefView)| e.0);
    assert(keys(entries) =~= names);
    let q = |n: Seq<char>| n != "pending"@ && n != "done"@;
    assert(is_middle() =~= q);
    law_keeping_is_filtering(names, q);
    let f = |name: Seq<char>| (name, lookup(palette(entries), name)->0);
    assert(names[k] == entries[k].0 && q(names[k]));
    assert(names.filter(q).contains(names[k])) by {
        broadcast use vstd::seq_lib::group_filter_ensures;

    }
    let i = choose|i: int| 0 <= i < names.filter(q).len() && names.filter(q)[i] == names[k];
    assert(middle_phases(entries)[i] == f(names[k]));
    assert(f(names[k]) == entries[k]);
}

/// Where both sides have commands for an event, the runner's own come behind those of the user; all
/// else that the user has stays.
pub proof fn law_commands_are_put_together(
    user: Map<Seq<char>, JsonItem>,
    own: Map<Seq<char>, JsonItem>,
    hooks: Map<Seq<char>, JsonItem>,
    event: Seq<char>,
    key: Seq<char>,
)
    requires
        user.contains_key("hooks"@) && user["hooks"@] == JsonItem::Object(own),
    ensures
        ({
            let ours = Map::<Seq<char>, JsonItem>::empty().insert(
                "hooks"@,
                JsonItem::Object(hooks),
            );
            let merged = merged_settings(JsonItem::Object(user), JsonItem::Object(ours));
            let m = merged->Object_0;
            let events = m["hooks"@]->Object_0;
            &&& merged is Object
            &&& m.contains_key("hooks"@) && m["hooks"@] is Object
            &&& key != "hooks"@ ==> m.contains_key(key) == user.contains_key(key) && m[key]
                == user[key]
            &&& events.contains_key(event) <==> own.contains_key(event) || hooks.contains_key(event)
            &&& own.contains_key(event) && !hooks.contains_key(event) ==> events[event] == own[event]
            &&& !own.contains_key(event) && hooks.contains_key(event) ==> events[event]
                == hooks[event]
            &&& own.contains_key(event) && hooks.contains_key(event) && own[event] is List
                && hooks[event] is List ==> events[event] == JsonItem::List(
                own[event]->List_0 + hooks[event]->List_0,
            )
        }),
{
}

/// A runner that is not there, or whose session is not, cannot be stopped.
pub proof fn law_nothing_to_stop(
    project: ProjectView,
    s: RunnerStoreView,
    seen: SessionSeenView,
    error: RunnerCommandErrorView,
)
    ensures
        runner_in(s.runners, session_of(project)) is None ==> stopping(project, s, seen) == Err::<
            (RunnerStoreView, Seq<RunnerActionView>),
            RunnerCommandErrorView,
        >(RunnerCommandErrorView::NoRunnerRegistered),
        runner_in(s.runners, session_of(project)) is Some ==> stopping(
            project,
            s,
            SessionSeenView::Absent,
        ) == Err::<(RunnerStoreView, Seq<RunnerActionView>), RunnerCommandErrorView>(
            RunnerCommandErrorView::SessionNotAlive,
        ),
        runner_in(s.runners, session_of(project)) is Some ==> stopping(
            project,
            s,
            SessionSeenView::Failed { error },
        ) == Err::<(RunnerStoreView, Seq<RunnerActionView>), RunnerCommandErrorView>(error),
{
}

/// The first and the last phase have no model; any other phase of the workflow has its own.
pub proof fn law_model_of_a_phase(t: TaskView, config: ConfigView, phase: Seq<char>)
    ensures
        task_model(t, "pending"@, config) is None,
        task_model(t, "done"@, config) is None,
        phase != "pending"@ && phase != "done"@ && config.sequence(t.workflow).contains(phase)
            && lookup(config.phases, phase) is Some ==> task_model(t, phase, config) == (lookup(
            config.phases,
            phase,
        )->0).model,
        !config.sequence(t.workflow).contains(phase) ==> task_model(t, phase, config) is None
            && task_duty(t, phase, config) is None,
{
}

/// A release that has nothing for the machine is told with its tag; so is a machine that is not known.
pub proof fn law_update_refusals(
    os: Seq<char>,
    arch: Seq<char>,
    seen: ReleaseSeenView,
    release: GithubReleaseView,
    current_version: Seq<char>,
)
    ensures
        platform_asset(os, arch) is Err ==> update_step(os, arch, seen, current_version) == Err::<
            UpdateStepView,
            SelfUpdateErrorView,
        >(SelfUpdateErrorView::UnsupportedPlatform { os, arch }),
        platform_asset(os, arch) is Ok && release.tag_name != current_version && release.tag_name
            != "v"@ + current_version && asset_named(release, platform_asset(os, arch)->Ok_0) is None
            ==> update_step(os, arch, ReleaseSeenView::Release { release }, current_version) == Err::<
            UpdateStepView,
            SelfUpdateErrorView,
        >(SelfUpdateErrorView::AssetNotFound { os, arch, tag: release.tag_name }),
{
    reveal_strlit("v");
    if after_prefix(release.tag_name, "v"@) is Some {
        assert(release.tag_name =~= "v"@ + tag_version(release.tag_name));
    }
}

} // verus!
