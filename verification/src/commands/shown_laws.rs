//! What is shown of phases, workflows, runners and plans, and what a new project is told.

use vstd::prelude::*;

use crate::commands::add_batch::{plan_lines, BatchPlanView};
use crate::commands::config::{all_keys, settings_text, truth, ConfigKey, SettingRow};
use crate::commands::hook::{hook_list, HookRow};
use crate::commands::init::{
    checks_of, defaults_block, facts_of, init_prompt, project_scanned, script_command,
    script_commands, AgentFilesView, PackageFactsView, PackageManager, RepoSeenView,
};
use crate::commands::launch::{lifecycle_item, merged_settings};
use crate::commands::phase::{phase_line, phase_list};
use crate::commands::project::{
    projects_among, projects_found, ByName, EntrySeenView, ProjectEntry, ProjectEntryView,
    RootSeenView,
};
use crate::commands::report::quiet;
use crate::commands::runner::{
    settings_argument, status_text, template_of, text_or, RunnerCommandErrorView,
    RunnerStatusOutputView,
};
use crate::commands::self_update::{marker, part_of, ProgressMarker};
use crate::commands::setup_laws::lemma_first_part;
use crate::commands::status::{
    header_line, header_status, raw_document, raw_status, recent_line, shown_task, status,
    FileSeenView, StatusErrorView, StatusSeenView,
};
use crate::commands::task_command_laws::finds;
use crate::commands::todo::{last_moved_task, law_commit_target_moved_last};
use crate::commands::workflow::{shown_phases, workflow_lines, workflow_list, PhaseWithModel};
use crate::engine::change_laws::{law_first_task_is_found, stands_at};
use crate::engine::config::{Config, ConfigView, PhaseDefView};
use crate::engine::global_config::{
    ClaudeRunnerConfigView, GlobalConfig, GlobalConfigView, TextReadView,
};
use crate::engine::hooks::HookEntry;
use crate::engine::orchestrator::{default_template, table_cell};
use crate::engine::project::ProjectView;
use crate::engine::prompt_laws::{lemma_join_says, lemma_says, says};
use crate::engine::runner::{opened_runners, RunnerRegistryView, RunnersReadView};
use crate::engine::tasks::{TaskStoreView, TaskView};
use crate::json_doc::{json_parsed, json_pretty, JsonItem};
use crate::rows::rows_of;
use crate::sorting::{law_sorting_keeps_elements, law_sorting_orders, order_of, sorted_by};
use crate::string_map::lookup;
use crate::text::{
    decimal, join, lemma_lex_irreflexive, lemma_lex_total, lemma_lex_transitive, lex_lt, occurs,
    path_join, replace, split,
};
use crate::text_laws::law_each_character_is_replaced;
use crate::time::{law_time_is_a_line, on_the_line, rfc3339, Instant};

verus! {

/// The line of a phase shows its name, its model behind a colon, its duty and its gate, each where
/// there is one.
pub proof fn law_phase_line(name: Seq<char>, model: Seq<char>, duty: Seq<char>, gate: Seq<char>)
    requires
        duty.len() > 0,
    ensures
        phase_line(
            name,
            PhaseDefView { model: Some(model), duty: Some(duty), gate: Some(gate) },
        ) == name + ":"@ + model + "  "@ + duty + "  [gate: "@ + gate + "]"@,
        phase_line(name, PhaseDefView { model: None, duty: None, gate: None }) == name,
        phase_line(name, PhaseDefView { model: Some(model), duty: None, gate: None }) == name + ":"@
            + model,
        phase_line(name, PhaseDefView { model: None, duty: Some(duty), gate: None }) == name + "  "@
            + duty,
        phase_line(name, PhaseDefView { model: None, duty: None, gate: Some(gate) }) == name
            + "  [gate: "@ + gate + "]"@,
{
    let none = Seq::<char>::empty();
    assert(name + (":"@ + model) + ("  "@ + duty) + ("  [gate: "@ + gate + "]"@) =~= name + ":"@
        + model + "  "@ + duty + "  [gate: "@ + gate + "]"@);
    assert(name + none + none + none =~= name);
    assert(name + (":"@ + model) + none + none =~= name + ":"@ + model);
    assert(name + none + ("  "@ + duty) + none =~= name + "  "@ + duty);
    assert(name + none + none + ("  [gate: "@ + gate + "]"@) =~= name + "  [gate: "@ + gate + "]"@);
}

/// The phases of a project are listed in their order, one on each line.
pub proof fn law_phases_are_listed(phases: Seq<(Seq<char>, PhaseDefView)>, k: int)
    requires
        0 <= k < phases.len(),
    ensures
        phase_list(phases).len() == phases.len(),
        phase_list(phases)[k] == phase_line(phases[k].0, phases[k].1),
{
}

/// Each workflow is listed with its phases, and the usual one is marked.
pub proof fn law_workflows_are_listed(config: ConfigView, k: int)
    requires
        0 <= k < config.workflows.len(),
    ensures
        says(
            workflow_list(config),
            config.workflows[k].0 + (if config.workflows[k].0 == config.default_workflow {
                " (default)  "@
            } else {
                "  "@
            }) + shown_phases(config, config.workflows[k].1) + "\n"@,
        ),
{
    lemma_workflow_lines(config, config.workflows, k);
}

proof fn lemma_workflow_lines(
    config: ConfigView,
    ws: Seq<(Seq<char>, Seq<Seq<char>>)>,
    k: int,
)
    requires
        0 <= k < ws.len(),
    ensures
        says(
            workflow_lines(config, ws),
            ws[k].0 + (if ws[k].0 == config.default_workflow {
                " (default)  "@
            } else {
                "  "@
            }) + shown_phases(config, ws[k].1) + "\n"@,
        ),
    decreases ws.len(),
{
    lemma_says();
    let front = ws.drop_last();
    let (name, sequence) = ws.last();
    let mark = if name == config.default_workflow {
        " (default)  "@
    } else {
        "  "@
    };
    let line = name + mark + shown_phases(config, sequence) + "\n"@;
    assert(workflow_lines(config, ws) =~= workflow_lines(config, front) + line);
    if k < front.len() {
        lemma_workflow_lines(config, front, k);
    }
}

/// A workflow shows its phases in their order, each with its model where it has one.
pub proof fn law_workflow_shows_its_phases(config: ConfigView, steps: Seq<Seq<char>>, k: int)
    requires
        0 <= k < steps.len(),
    ensures
        ({
            let parts = rows_of::<String, Config, PhaseWithModel>(steps, config);
            let def = lookup(config.phases, steps[k]);
            &&& shown_phases(config, steps) == join(parts, " -> "@)
            &&& parts.len() == steps.len()
            &&& def is Some && def->0.model is Some ==> parts[k] == steps[k] + ":"@
                + def->0.model->0
            &&& def is None || def->0.model is None ==> parts[k] == steps[k]
        }),
{
}

/// What is known of a runner is shown line by line.
pub proof fn law_runner_is_shown(status: RunnerStatusOutputView)
    ensures
        status.runner_id is None ==> status_text(status) == status.liveness,
        status.runner_id is Some && status.runner_type is Some && status.current_task is Some
            && status.heartbeat_age is Some ==> status_text(status) == "runner: "@
            + status.runner_id->0 + "\ntype: "@ + status.runner_type->0 + "\ncurrent task: "@
            + status.current_task->0 + "\nliveness: "@ + status.liveness + "\nheartbeat: "@
            + status.heartbeat_age->0,
        status.runner_id is Some && status.current_task is None ==> says(
            status_text(status),
            "\ncurrent task: "@ + "none"@,
        ),
{
    if status.runner_id is Some && status.current_task is None {
        lemma_says();
        let head = "runner: "@ + status.runner_id->0 + "\ntype: "@ + text_or(
            status.runner_type,
            "unknown"@,
        );
        let task = "\ncurrent task: "@ + "none"@;
        let tail = "\nliveness: "@ + status.liveness + "\nheartbeat: "@ + text_or(
            status.heartbeat_age,
            "none"@,
        );
        assert(status_text(status) =~= head + task + tail);
    }
}

/// The prompt of an agent comes from the file that is named; where none is named, or the file is not
/// there, it is the usual one.
pub proof fn law_template_is_chosen(
    program: Seq<char>,
    agent: Seq<char>,
    path: Seq<char>,
    text: Seq<char>,
    message: Seq<char>,
    read: TextReadView,
)
    ensures
        template_of(program, agent, Some(path), TextReadView::Contents { text }) == Ok::<
            Seq<char>,
            RunnerCommandErrorView,
        >(text),
        template_of(program, agent, None, read) == Ok::<Seq<char>, RunnerCommandErrorView>(
            default_template(program, agent),
        ),
        template_of(program, agent, Some(path), TextReadView::Missing) == Ok::<
            Seq<char>,
            RunnerCommandErrorView,
        >(default_template(program, agent)),
        template_of(program, agent, Some(path), TextReadView::Unreadable { message }) == Err::<
            Seq<char>,
            RunnerCommandErrorView,
        >(RunnerCommandErrorView::Read { path, message }),
{
}

/// An agent is told of the events of its life as settings; where a user has settings of their own,
/// the two are merged in a file, and that is named instead.
pub proof fn law_settings_of_the_agent(
    program: Seq<char>,
    config: ClaudeRunnerConfigView,
    hooks: Seq<char>,
    dir: Seq<char>,
    text: Seq<char>,
    read: TextReadView,
)
    ensures
        config.settings_path is None ==> settings_argument(program, config, hooks, dir, read)
            == Ok::<(Seq<char>, Option<Seq<char>>), RunnerCommandErrorView>((hooks, None)),
        config.settings_path is Some && config.settings_path->0.len() > 0 && json_parsed(text) is Ok
            && json_parsed(hooks) is Ok ==> settings_argument(
            program,
            config,
            hooks,
            dir,
            TextReadView::Contents { text },
        ) == Ok::<(Seq<char>, Option<Seq<char>>), RunnerCommandErrorView>(
            (
                path_join(dir, program + "-runner-settings.json"@),
                Some(json_pretty(merged_settings(json_parsed(text)->Ok_0, json_parsed(hooks)->Ok_0))),
            ),
        ),
{
}

/// The events of an agent's life are told to its runner: that it is ready when a session starts,
/// that it is idle when it stops, and a sign of life after each use of a tool.
pub proof fn law_life_is_told()
    ensures
        ({
            let events = lifecycle_item()->Object_0["hooks"@]->Object_0;
            let command = |name: Seq<char>|
                events[name]->List_0[0]->Object_0["hooks"@]->List_0[0]->Object_0["command"@];
            &&& command("SessionStart"@) == JsonItem::Text(
                "agira runner event "@ + "ready"@ + " --runner \"$AGIRA_RUNNER_ID\""@,
            )
            &&& command("Stop"@) == JsonItem::Text(
                "agira runner event "@ + "idle"@ + " --runner \"$AGIRA_RUNNER_ID\""@,
            )
            &&& command("PostToolUse"@) == JsonItem::Text(
                "agira runner event "@ + "heartbeat"@ + " --runner \"$AGIRA_RUNNER_ID\""@,
            )
        }),
{
    reveal_strlit("SessionStart");
    reveal_strlit("Stop");
    reveal_strlit("PostToolUse");
    reveal_strlit("matcher");
    reveal_strlit("hooks");
    reveal_strlit("type");
    reveal_strlit("command");
    assert("SessionStart"@.len() == 12 && "Stop"@.len() == 4 && "PostToolUse"@.len() == 11);
    assert("matcher"@.len() == 7 && "hooks"@.len() == 5);
    assert("type"@.len() == 4 && "command"@.len() == 7);
}

/// The document about a project holds its tasks as they are in the file, and what is known of the
/// runner.
pub proof fn law_document_of_a_project(
    project: ProjectView,
    seen: StatusSeenView,
    text: Seq<char>,
    members: Map<Seq<char>, JsonItem>,
    now: Instant,
)
    requires
        seen.tasks_text == (TextReadView::Contents { text }),
        json_parsed(text) == Ok::<JsonItem, Seq<char>>(JsonItem::Object(members)),
        members.contains_key("tasks"@),
    ensures
        ({
            let r = raw_status(project, seen, now);
            let status = header_status(project, seen.runners, seen.session, now);
            let document = raw_document(JsonItem::Object(members), status);
            let runner = document->Object_0["runner"@]->Object_0;
            &&& r == Ok::<Seq<char>, StatusErrorView>(json_pretty(document))
            &&& document->Object_0["tasks"@] == members["tasks"@]
            &&& runner["liveness"@] == JsonItem::Text(status.liveness)
            &&& status.runner_id is Some ==> runner["runner_id"@] == JsonItem::Text(
                status.runner_id->0,
            )
            &&& status.runner_id is None ==> runner["runner_id"@] == JsonItem::Null
            &&& status.current_task is Some ==> runner["current_task"@] == JsonItem::Text(
                status.current_task->0,
            )
        }),
{
    reveal_strlit("tasks");
    reveal_strlit("runner");
    reveal_strlit("runner_id");
    reveal_strlit("runner_type");
    reveal_strlit("current_task");
    reveal_strlit("liveness");
    reveal_strlit("heartbeat_age");
    assert("tasks"@.len() == 5 && "runner"@.len() == 6);
    assert("runner_id"@.len() == 9 && "runner_type"@.len() == 11 && "current_task"@.len() == 12
        && "liveness"@.len() == 8 && "heartbeat_age"@.len() == 13);
}

/// A line of the log is recent where its time is no more than a day ago.
pub proof fn law_recent_is_within_a_day(
    stamp: Seq<char>,
    rest: Seq<char>,
    at: Instant,
    now: Instant,
)
    requires
        !stamp.contains('\t'),
        rfc3339(stamp) == Some(at),
        at.nanos < 1_000_000_000,
        now.nanos < 1_000_000_000,
        i64::MIN <= now.secs - 86_400,
    ensures
        recent_line(stamp + "\t"@ + rest, now) <==> on_the_line(at) >= on_the_line(now) - 86_400
            * 1_000_000_000,
        !recent_line(stamp, now),
{
    reveal_strlit("\t");
    assert(stamp + "\t"@ + rest =~= stamp.push('\t') + rest);
    lemma_first_part(stamp, '\t', rest);
    law_time_is_a_line(at, now.earlier(86_400), 0);
    lemma_whole_part(stamp, '\t');
}

proof fn lemma_whole_part(s: Seq<char>, c: char)
    requires
        !s.contains(c),
    ensures
        split(s, c).len() == 1,
    decreases s.len(),
{
    if s.len() > 0 {
        let rest = s.drop_last();
        assert(!rest.contains(c)) by {
            if rest.contains(c) {
                let k = rest.index_of(c);
                assert(s[k] == c);
            }
        }
        assert(s.last() != c) by {
            assert(s[s.len() - 1] == s.last());
        }
        lemma_whole_part(rest, c);
    }
}

/// Changes that are not committed belong to the last of the started tasks that moved at the latest
/// time.
pub proof fn law_last_of_equals_is_meant(tasks: Seq<TaskView>, initial: Seq<char>, k: int)
    requires
        0 <= k < tasks.len(),
        tasks[k].state != initial,
        forall|j: int|
            0 <= j < tasks.len() && (#[trigger] tasks[j]).state != initial ==> !lex_lt(
                moved_at(tasks[k]),
                moved_at(tasks[j]),
            ),
        forall|j: int|
            k < j < tasks.len() && (#[trigger] tasks[j]).state != initial ==> lex_lt(
                moved_at(tasks[j]),
                moved_at(tasks[k]),
            ),
    ensures
        last_moved_task(tasks, initial) == Some(tasks[k]),
    decreases tasks.len(),
{
    let front = tasks.drop_last();
    let n = tasks.len() - 1;
    if k < n {
        assert forall|j: int|
            0 <= j < front.len() && (#[trigger] front[j]).state != initial implies !lex_lt(
            moved_at(front[k]),
            moved_at(front[j]),
        ) by {
            assert(front[j] == tasks[j]);
        }
        assert forall|j: int|
            k < j < front.len() && (#[trigger] front[j]).state != initial implies lex_lt(
            moved_at(front[j]),
            moved_at(front[k]),
        ) by {
            assert(front[j] == tasks[j]);
        }
        law_last_of_equals_is_meant(front, initial, k);
        assert(tasks[n] == tasks.last());
    } else {
        law_commit_target_moved_last(front, initial);
        match last_moved_task(front, initial) {
            Some(b) => {
                let m = front.index_of(b);
                assert(tasks[m] == b);
                assert(!lex_lt(moved_at(tasks[k]), moved_at(tasks[m])));
            },
            None => {},
        }
    }
}

/// When a task last moved, or else when it was made.
pub open spec fn moved_at(t: TaskView) -> Seq<char> {
    if t.history.len() > 0 {
        t.history[t.history.len() - 1].timestamp
    } else {
        t.created_at
    }
}

/// What is said of a plan: the id that each name stands for, and each task that was or would be
/// added.
pub proof fn law_plan_is_said(plan: BatchPlanView, dry_run: bool, k: int, a: int)
    ensures
        ({
            let said = plan_lines(plan, dry_run);
            let names = plan.alias_to_real_id;
            &&& said.len() == names.len() + plan.planned.len()
            &&& 0 <= a < names.len() ==> said[a] == names[a].0 + " -> "@ + names[a].1
            &&& 0 <= k < plan.planned.len() ==> said[names.len() + k] == (if dry_run {
                "would add "@
            } else {
                "added "@
            }) + plan.planned[k].real_id + ": "@
                + plan.entries[plan.planned[k].index as int].title
        }),
{
}

/// A package is checked by its own scripts, run by its own tool; where it has none, by the usual
/// commands of the tool.
pub proof fn law_package_is_checked(manager: PackageManager, facts: PackageFactsView)
    ensures
        facts.has_test && facts.has_lint && facts.has_format ==> checks_of(manager, Some(facts))
            == seq![
            script_command(manager, "test"@),
            script_command(manager, "lint"@),
            script_command(manager, "format"@),
        ],
        facts.has_test && !facts.has_lint && !facts.has_format ==> checks_of(manager, Some(facts))
            == seq![script_command(manager, "test"@)],
        !facts.has_test && !facts.has_lint && !facts.has_format ==> checks_of(manager, Some(facts))
            == checks_of(manager, None),
        checks_of(PackageManager::Pnpm, None) == seq!["pnpm test"@, "pnpm lint"@, "pnpm format"@],
        checks_of(PackageManager::Yarn, None) == seq!["yarn test"@, "yarn lint"@, "yarn format"@],
        checks_of(PackageManager::Npm, None) == seq![
            "npm test"@,
            "npm run lint"@,
            "npm run format"@,
        ],
        checks_of(PackageManager::Bun, None) == seq![
            "bun test"@,
            "bunx eslint ."@,
            "bunx prettier --check ."@,
        ],
        script_command(PackageManager::Npm, "test"@) == "npm test"@,
        script_command(PackageManager::Npm, "lint"@) == "npm run "@ + "lint"@,
        script_command(PackageManager::Pnpm, "lint"@) == "pnpm "@ + "lint"@,
        script_command(PackageManager::Yarn, "lint"@) == "yarn "@ + "lint"@,
        script_command(PackageManager::Bun, "lint"@) == "bun run "@ + "lint"@,
{
    reveal_strlit("test");
    reveal_strlit("lint");
    assert("test"@[0] == 't' && "lint"@[0] == 'l');
    assert(script_commands(manager, None).len() == 0);
    if facts.has_test && facts.has_lint && facts.has_format {
        assert(script_commands(manager, Some(facts)) =~= seq![
            script_command(manager, "test"@),
            script_command(manager, "lint"@),
            script_command(manager, "format"@),
        ]);
    }
    if facts.has_test && !facts.has_lint && !facts.has_format {
        assert(script_commands(manager, Some(facts)) =~= seq![script_command(manager, "test"@)]);
    }
}

/// What a package says of itself is where it is usually written.
pub proof fn law_package_facts(m: Map<Seq<char>, JsonItem>)
    ensures
        ({
            let facts = facts_of(JsonItem::Object(m));
            let within = |key: Seq<char>, inner: Seq<char>|
                m.contains_key(key) && m[key] is Object && m[key]->Object_0.contains_key(inner);
            &&& facts.typescript <==> within("devDependencies"@, "typescript"@)
            &&& facts.has_test <==> within("scripts"@, "test"@)
            &&& facts.has_lint <==> within("scripts"@, "lint"@)
            &&& facts.has_format <==> within("scripts"@, "format"@)
            &&& m.contains_key("packageManager"@) && m["packageManager"@] is Text
                ==> facts.manager == Some(m["packageManager"@]->Text_0)
            &&& !m.contains_key("packageManager"@) ==> facts.manager is None
        }),
{
}

/// A request to look around names what was found of the project and how to check it.
pub proof fn law_request_names_what_was_found(
    stack: Seq<char>,
    commands: Seq<Seq<char>>,
    files: AgentFilesView,
)
    ensures
        stack != "unknown"@ ==> says(init_prompt(stack, commands, files), "- `stack="@ + stack),
        stack != "unknown"@ && commands.len() > 0 ==> says(
            init_prompt(stack, commands, files),
            "`\n- suggested implementing-phase gate commands: `"@ + join(commands, " && "@),
        ),
{
    lemma_says();
    if stack != "unknown"@ {
        let lead = "## agira's auto-detected defaults\n\n**agira auto-detected these defaults; verify them, don't blindly trust them. Treat them as a starting point for Step 3 recommendations.**\n\n"@;
        reveal_strlit(
            "## agira's auto-detected defaults\n\n**agira auto-detected these defaults; verify them, don't blindly trust them. Treat them as a starting point for Step 3 recommendations.**\n\n- `stack=",
        );
        reveal_strlit(
            "## agira's auto-detected defaults\n\n**agira auto-detected these defaults; verify them, don't blindly trust them. Treat them as a starting point for Step 3 recommendations.**\n\n",
        );
        reveal_strlit("- `stack=");
        assert("## agira's auto-detected defaults\n\n**agira auto-detected these defaults; verify them, don't blindly trust them. Treat them as a starting point for Step 3 recommendations.**\n\n- `stack="@
            =~= lead + "- `stack="@);
        let named = "- `stack="@ + stack;
        let listed = "`\n- suggested implementing-phase gate commands: `"@ + if commands.len()
            == 0 {
            "none found, derive from CI/scripts"@
        } else {
            join(commands, " && "@)
        };
        assert(defaults_block(stack, commands) =~= lead + named + listed + "`\n\n"@);
        assert(says(defaults_block(stack, commands), named));
        assert(says(defaults_block(stack, commands), listed));
    }
}

/// A project whose file of packages names the framework is of that kind, and else of the plain one.
pub proof fn law_pubspec_is_recognised(
    seen: RepoSeenView,
    facts: Option<PackageFactsView>,
    max_retries: u32,
    text: Seq<char>,
)
    requires
        !seen.cargo_toml,
        !seen.package_json,
        !seen.go_mod,
        !seen.pyproject_toml,
        !seen.pom_xml,
        !seen.build_gradle,
        !seen.build_gradle_kts,
        seen.pubspec_yaml,
        seen.pubspec_text == Some(text),
    ensures
        ({
            let found = project_scanned(seen, facts, max_retries);
            let framed = occurs(text, "flutter:"@) || occurs(text, "sdk: flutter"@);
            &&& framed ==> found.config.stack == "flutter"@ && found.commands == seq![
                "dart format --output=none --set-exit-if-changed ."@,
                "flutter analyze"@,
                "flutter test"@,
            ]
            &&& !framed ==> found.config.stack == "dart"@ && found.commands == seq![
                "dart format --output=none --set-exit-if-changed ."@,
                "dart analyze"@,
                "dart test"@,
            ]
        }),
{
}

/// A download is shown again where the bar grows, or with each mebibyte where the size is not known.
pub proof fn law_download_is_shown_again(downloaded: nat, total: u64, n: nat)
    requires
        downloaded <= u64::MAX,
    ensures
        marker(downloaded, Some(total)) == ProgressMarker::KnownBarSegments(
            part_of(downloaded, total as nat, 20) as usize,
        ),
        n * 1_048_576 <= downloaded < n * 1_048_576 + 1_048_576 ==> marker(downloaded, None)
            == ProgressMarker::UnknownTotalBucket(n as u64),
{
    if n * 1_048_576 <= downloaded < n * 1_048_576 + 1_048_576 {
        assert(downloaded / 1_048_576 == n);
    }
}

/// A cell of a table is the text itself, but for bars and ends of lines.
pub proof fn law_cell_of_a_table(a: Seq<char>, b: Seq<char>, c: char)
    requires
        c != '|',
        c != '\n',
    ensures
        table_cell(a + b) == table_cell(a) + table_cell(b),
        table_cell(seq![c]) == seq![c],
        table_cell(seq!['|']) == seq!['\\', '|'],
        table_cell(seq!['\n']) == "<br>"@,
{
    let bar = "\\|"@;
    let line = "<br>"@;
    reveal_strlit("\\|");
    law_each_character_is_replaced(a, b, '|', c, bar);
    law_each_character_is_replaced(replace(a, '|', bar), replace(b, '|', bar), '\n', c, line);
    law_each_character_is_replaced(a, b, '|', '\n', bar);
    law_each_character_is_replaced(seq!['\\'], seq!['|'], '\n', '\\', line);
    law_each_character_is_replaced(seq!['\\'], seq!['|'], '\n', '|', line);
    assert(bar =~= seq!['\\'] + seq!['|']);
    assert(seq!['\\'] + seq!['|'] =~= seq!['\\', '|']);
}

/// A task that is asked for as a document is the one with the id; and one that is asked for in detail
/// too.
pub proof fn law_task_is_shown_as_a_document(
    project: ProjectView,
    seen: StatusSeenView,
    config: ConfigView,
    s: TaskStoreView,
    id: Seq<char>,
    i: int,
    clock: Instant,
    now: Instant,
)
    requires
        finds(project, seen.files, config, s),
        seen.tasks_file == FileSeenView::There,
        stands_at(s.tasks, id, i),
    ensures
        status(project, seen, true, Some(id), None, None, clock, now).1 is Ok,
        status(project, seen, true, Some(id), None, None, clock, now).0.task == Some(s.tasks[i]),
        shown_task(quiet(), project, seen, id).1 == Ok::<TaskView, StatusErrorView>(s.tasks[i]),
{
    law_first_task_is_found(s.tasks, id, i);
}

/// Where there are no tasks that is said, below the line about the runner; a task that is asked for
/// is not there.
pub proof fn law_no_tasks_are_told(
    project: ProjectView,
    seen: StatusSeenView,
    id: Seq<char>,
    limit: Option<usize>,
    offset: Option<usize>,
    clock: Instant,
    now: Instant,
)
    requires
        seen.tasks_file == FileSeenView::Missing,
    ensures
        ({
            let (report, result) = status(
                project,
                seen,
                false,
                None,
                limit,
                offset,
                clock,
                now,
            );
            &&& result is Ok
            &&& report.report.output == seq![
                header_line(project, seen, now) + "\n"@,
                "No tasks. Run `agira task add` to get started."@,
            ]
            &&& status(project, seen, false, Some(id), limit, offset, clock, now).1 == Err::<
                (),
                StatusErrorView,
            >(StatusErrorView::TaskNotFound { id })
            &&& status(project, seen, true, Some(id), limit, offset, clock, now).1 == Err::<
                (),
                StatusErrorView,
            >(StatusErrorView::TaskNotFound { id })
        }),
{
}

/// The commands of a user and of a project are listed, each with its event.
pub proof fn law_commands_are_listed(project: ProjectView, k: int)
    ensures
        0 <= k < project.global_hooks.hooks.len() ==> says(
            hook_list(project),
            "global"@ + "  "@ + project.global_hooks.hooks[k].on + "  "@
                + project.global_hooks.hooks[k].run + "\n"@,
        ),
        0 <= k < project.project_hooks.hooks.len() ==> says(
            hook_list(project),
            "project"@ + "  "@ + project.project_hooks.hooks[k].on + "  "@
                + project.project_hooks.hooks[k].run + "\n"@,
        ),
        project.global_hooks.hooks.len() == 0 && project.project_hooks.hooks.len() == 0 ==> hook_list(
            project,
        ) == "no hooks configured\n"@,
{
    lemma_says();
    if 0 <= k < project.global_hooks.hooks.len() {
        let rows = rows_of::<HookEntry, String, HookRow>(project.global_hooks.hooks, "global"@);
        lemma_join_says(rows, ""@, k);
    }
    if 0 <= k < project.project_hooks.hooks.len() {
        let rows = rows_of::<HookEntry, String, HookRow>(project.project_hooks.hooks, "project"@);
        lemma_join_says(rows, ""@, k);
    }
}

/// Each setting is listed with its value.
pub proof fn law_settings_are_listed(config: GlobalConfigView)
    ensures
        says(settings_text(config), "hook_debug = "@ + truth(config.hook_debug) + "\n"@),
        says(
            settings_text(config),
            "default_max_retries = "@ + decimal(config.default_max_retries as nat) + "\n"@,
        ),
        says(
            settings_text(config),
            "runner.auto_start = "@ + truth(config.runner.auto_start) + "\n"@,
        ),
        says(settings_text(config), "runner.lease_ttl = "@ + config.runner.lease_ttl + "\n"@),
        says(settings_text(config), "runner.type = "@ + config.runner.runner_type + "\n"@),
{
    let rows = rows_of::<ConfigKey, GlobalConfig, SettingRow>(all_keys(), config);
    lemma_join_says(rows, ""@, 0);
    lemma_join_says(rows, ""@, 1);
    lemma_join_says(rows, ""@, 3);
    lemma_join_says(rows, ""@, 4);
    lemma_join_says(rows, ""@, 5);
    reveal_strlit(" = ");
    reveal_strlit("hook_debug");
    reveal_strlit("hook_debug = ");
    reveal_strlit("default_max_retries");
    reveal_strlit("default_max_retries = ");
    reveal_strlit("runner.auto_start");
    reveal_strlit("runner.auto_start = ");
    reveal_strlit("runner.lease_ttl");
    reveal_strlit("runner.lease_ttl = ");
    reveal_strlit("runner.type");
    reveal_strlit("runner.type = ");
    assert("hook_debug"@ + " = "@ =~= "hook_debug = "@);
    assert("default_max_retries"@ + " = "@ =~= "default_max_retries = "@);
    assert("runner.auto_start"@ + " = "@ =~= "runner.auto_start = "@);
    assert("runner.lease_ttl"@ + " = "@ =~= "runner.lease_ttl = "@);
    assert("runner.type"@ + " = "@ =~= "runner.type = "@);
}

/// Projects are found in the order of their names.
pub proof fn law_projects_go_up(root: Seq<char>, entries: Seq<EntrySeenView>)
    requires
        projects_among(entries) is Ok,
    ensures
        ({
            let found = projects_found(root, RootSeenView::Entries { entries });
            &&& found is Ok
            &&& found->Ok_0.to_multiset() == projects_among(entries)->Ok_0.to_multiset()
            &&& forall|i: int, j: int|
                0 <= i < j < found->Ok_0.len() ==> !lex_lt(
                    (#[trigger] found->Ok_0[j]).name,
                    (#[trigger] found->Ok_0[i]).name,
                )
        }),
{
    let before = order_of::<ProjectEntry, ByName>();
    let among = projects_among(entries)->Ok_0;
    law_sorting_keeps_elements(among, before);
    assert forall|a: ProjectEntryView| !#[trigger] before(a, a) by {
        lemma_lex_irreflexive(a.name);
    }
    assert forall|a: ProjectEntryView, b: ProjectEntryView, c: ProjectEntryView|
        #![trigger before(a, b), before(b, c)]
        before(a, b) && before(b, c) implies before(a, c) by {
        lemma_lex_transitive(a.name, b.name, c.name);
    }
    assert forall|a: ProjectEntryView, b: ProjectEntryView, c: ProjectEntryView|
        #![trigger before(a, b), before(c, b)]
        before(a, b) && !before(c, b) implies before(a, c) by {
        lemma_lex_total(c.name, b.name);
        if lex_lt(b.name, c.name) {
            lemma_lex_transitive(a.name, b.name, c.name);
        }
    }
    law_sorting_orders(among, before);
    let found = sorted_by(among, before);
    assert forall|i: int, j: int| 0 <= i < j < found.len() implies !lex_lt(
        (#[trigger] found[j]).name,
        (#[trigger] found[i]).name,
    ) by {
        assert(!before(found[j], found[i]));
    }
}

/// The runners of a project are those that are read; where there is no file there are none.
pub proof fn law_runners_are_as_read(state_dir: Seq<char>, registry: RunnerRegistryView)
    ensures
        opened_runners(state_dir, RunnersReadView::Parsed { registry }) matches Ok(s)
            && s.runners == registry.runners,
        opened_runners(state_dir, RunnersReadView::Missing) matches Ok(s) && s.runners.len() == 0,
{
}

} // verus!
