//! What adding the tasks of a manifest does, and when it is refused.

use vstd::prelude::*;

use crate::commands::add::has_title;
use crate::commands::add_batch::{
    alias_ids, alias_index, batch_plan, batch_progress, entry_phase, entry_workflow,
    law_commands_find_their_task, law_plan_is_carried_out, law_planned_names_are_distinct,
    lemma_known_dependencies, lemma_known_names, lemma_local_need, lemma_nothing_wrapped,
    lemma_plan, local_needs, lower_titles, manifest_needs, manifest_problems, planned_id,
    repeated_aliases, repeated_texts, shown_tasks, taken_titles, tasks_added, unknown_dependencies,
    unknown_names, unknown_phases, unknown_workflows, AddBatchOptionsView, BatchPlanView,
    ManifestSeenView, ManifestTaskView,
};
use crate::commands::report::ProjectFilesView;
use crate::commands::task_command_laws::{finds, told_of};
use crate::engine::change_laws::{law_added_task_is_as_asked, law_found_task_stands_somewhere};
use crate::engine::config::ConfigView;
use crate::engine::hooks::law_commands_of_an_event_are_run;
use crate::engine::project::ProjectView;
use crate::engine::tasks::{find_task, largest_number, lemma_task_index, TaskStoreView, TaskView};
use crate::string_map::{lemma_put, lookup, sorted};
use crate::text::{blank, first_where, lemma_first_where, lowercase};
use crate::text_set::{law_set_holds_the_texts, text_set};
use crate::time::{rfc3339_text, Instant};
use crate::topo::{dependency_order, law_order_respects_needs, ready};

verus! {

/// A task is the one that an entry of a manifest asks for.
pub open spec fn made_from(
    t: TaskView,
    e: ManifestTaskView,
    options: AddBatchOptionsView,
    config: ConfigView,
    timestamp: Seq<char>,
) -> bool {
    &&& t.title == e.title
    &&& t.description == e.description
    &&& e.workflow is Some ==> t.workflow == e.workflow->0
    &&& e.workflow is None && options.workflow is Some ==> t.workflow == options.workflow->0
    &&& e.workflow is None && options.workflow is None ==> t.workflow == config.default_workflow
    &&& e.phase is Some ==> t.state == e.phase->0
    &&& e.phase is None && options.phase is Some ==> t.state == options.phase->0
    &&& e.phase is None && options.phase is None ==> t.state == config.sequence(t.workflow)[0]
    &&& t.created_at == timestamp
    &&& t.retry_count == 0
    &&& t.locked_at is None
    &&& t.phases.len() == 0
    &&& t.dependencies.len() == e.depends_on.len()
}

/// The dependency of an added task is the id of the task made from the entry that has the name, or
/// the name itself where no entry has it.
pub open spec fn resolved(
    tasks: Seq<TaskView>,
    before: int,
    entries: Seq<ManifestTaskView>,
    order: Seq<usize>,
    k: int,
    d: int,
) -> bool {
    let name = entries[order[k] as int].depends_on[d];
    let to = tasks[before + k].dependencies[d];
    ||| exists|m: int|
        0 <= m < k && entries[#[trigger] order[m] as int].id == Some(name) && to == tasks[before
            + m].id
    ||| to == name && (forall|m: int|
        0 <= m < entries.len() ==> (#[trigger] entries[m]).id != Some(name)) && (exists|m: int|
        0 <= m < before && (#[trigger] tasks[m]).id == name)
}

proof fn lemma_alias_index(entries: Seq<ManifestTaskView>, alias: Seq<char>)
    requires
        entries.len() <= usize::MAX,
    ensures
        match alias_index(entries, alias) {
            Some(i) => i < entries.len() && entries[i as int].id == Some(alias),
            None => forall|m: int|
                0 <= m < entries.len() ==> (#[trigger] entries[m]).id != Some(alias),
        },
    decreases entries.len(),
{
    if entries.len() > 0 && entries.last().id != Some(alias) {
        let front = entries.drop_last();
        lemma_alias_index(front, alias);
        if alias_index(front, alias) is None {
            assert forall|m: int| 0 <= m < entries.len() implies (#[trigger] entries[m]).id != Some(
                alias,
            ) by {
                if m < front.len() {
                    assert(front[m] == entries[m]);
                }
            }
        }
    }
}

proof fn lemma_added_fields(
    s: TaskStoreView,
    plan: BatchPlanView,
    n: nat,
    timestamp: Seq<char>,
    k: int,
)
    requires
        batch_progress(s, plan, n, timestamp).error is None,
        0 <= k < n,
    ensures
        ({
            let done = batch_progress(s, plan, n, timestamp);
            let t = done.added[k];
            let p = plan.planned[k];
            let e = plan.entries[p.index as int];
            &&& done.added.len() == n
            &&& done.store.config == s.config
            &&& t.title == e.title
            &&& t.description == e.description
            &&& t.workflow == p.workflow
            &&& t.dependencies == p.resolved_dependencies
            &&& p.phase is Some ==> t.state == p.phase->0
            &&& p.phase is None ==> t.state == s.config.sequence(p.workflow)[0]
            &&& t.created_at == timestamp
            &&& t.retry_count == 0
            &&& t.locked_at is None
            &&& t.phases.len() == 0
        }),
    decreases n,
{
    let m = (n - 1) as nat;
    let before = batch_progress(s, plan, m, timestamp);
    let p = plan.planned[m as int];
    let e = plan.entries[p.index as int];
    if k < m {
        lemma_added_fields(s, plan, m, timestamp, k);
    } else if m > 0 {
        lemma_added_fields(s, plan, m, timestamp, 0);
    }
    law_added_task_is_as_asked(
        before.store,
        e.title,
        e.description,
        p.resolved_dependencies,
        p.phase,
        p.workflow,
        timestamp,
    );
    let done = batch_progress(s, plan, n, timestamp);
    if k < m {
        assert(done.added[k] == before.added[k]);
    } else {
        assert(done.added[k] == done.added.last());
    }
}

/// The tasks of a manifest are put behind those that there are, one for each entry, in an order in
/// which each comes after those of the manifest that it depends on. Each is the task that its entry
/// asks for, and depends on the tasks that its entry names. The tasks are written after each of
/// them, and its commands are run then.
pub proof fn law_manifest_is_added(
    project: ProjectView,
    files: ProjectFilesView,
    config: ConfigView,
    s: TaskStoreView,
    options: AddBatchOptionsView,
    entries: Seq<ManifestTaskView>,
    runner: Option<Seq<char>>,
    now: Instant,
) -> (order: Seq<usize>)
    requires
        finds(project, files, config, s),
        s.config == config,
        entries.len() <= usize::MAX,
        largest_number(s.tasks) + entries.len() <= usize::MAX,
        !options.dry_run,
        tasks_added(
            project,
            files,
            options,
            ManifestSeenView::Parsed { tasks: entries },
            runner,
            now,
        ).1 is Ok,
    ensures
        order.len() == entries.len(),
        order.no_duplicates(),
        forall|k: int| 0 <= k < order.len() ==> (#[trigger] order[k]) < entries.len(),
        ({
            let report = tasks_added(
                project,
                files,
                options,
                ManifestSeenView::Parsed { tasks: entries },
                runner,
                now,
            ).0;
            let before = s.tasks.len() as int;
            let after = report.steps.last().tasks;
            let auto_start = project.global_config.runner.auto_start;
            &&& entries.len() > 0
            &&& report.steps.len() == entries.len()
            &&& after.len() == before + entries.len()
            &&& forall|j: int| 0 <= j < before ==> #[trigger] after[j] == s.tasks[j]
            &&& forall|k: int|
                0 <= k < entries.len() ==> (#[trigger] report.steps[k]).tasks == after.take(
                    before + k + 1,
                )
            &&& forall|k: int|
                0 <= k < entries.len() ==> made_from(
                    after[before + k],
                    entries[#[trigger] order[k] as int],
                    options,
                    config,
                    rfc3339_text(now),
                )
            &&& forall|k: int|
                0 <= k < entries.len() ==> told_of(
                    (#[trigger] report.steps[k]).run,
                    project,
                    "task_added"@,
                    after[before + k],
                    Seq::empty(),
                    after[before + k].state,
                    Seq::empty(),
                )
            &&& forall|k: int, d: int|
                0 <= k < entries.len() && 0 <= d < entries[order[k] as int].depends_on.len()
                    ==> #[trigger] resolved(after, before, entries, order, k, d)
            &&& report.ensure_runner == if auto_start && !(runner is Some && !blank(runner->0)) {
                Some(project.global_config.runner.runner_type)
            } else {
                None
            }
        }),
{
    let seen = ManifestSeenView::Parsed { tasks: entries };
    let report = tasks_added(project, files, options, seen, runner, now).0;
    let plan = batch_plan(entries, s.tasks, config, options)->Ok_0;
    let timestamp = rfc3339_text(now);
    let n = entries.len();
    let needs = manifest_needs(entries);
    let order = dependency_order(needs);
    lemma_plan(entries, s.tasks, config, options);
    law_plan_is_carried_out(s, entries, options, timestamp);
    law_planned_names_are_distinct(entries, s.tasks, config, options);
    law_order_respects_needs(needs);
    law_commands_find_their_task(s, plan, n, timestamp);
    law_commands_of_an_event_are_run(project.global_hooks, project.project_hooks, "task_added"@);
    reveal_strlit("");
    assert(""@ =~= Seq::<char>::empty());
    let done = batch_progress(s, plan, n, timestamp);
    let before = s.tasks.len() as int;
    let after = report.steps.last().tasks;
    assert(done.added.take(n as int) =~= done.added);
    assert(after == done.store.tasks);
    assert forall|k: int| 0 <= k < n implies (#[trigger] report.steps[k]).tasks == after.take(
        before + k + 1,
    ) by {
        assert(done.saved[k] == s.tasks + done.added.take(k + 1));
        assert(s.tasks + done.added.take(k + 1) =~= after.take(before + k + 1));
    }
    assert forall|k: int| 0 <= k < n implies made_from(
        after[before + k],
        entries[#[trigger] order[k] as int],
        options,
        config,
        timestamp,
    ) by {
        lemma_added_fields(s, plan, n, timestamp, k);
        assert(plan.planned[k].index == order[k]);
    }
    assert forall|k: int| 0 <= k < n implies told_of(
        (#[trigger] report.steps[k]).run,
        project,
        "task_added"@,
        after[before + k],
        Seq::empty(),
        after[before + k].state,
        Seq::empty(),
    ) by {
        assert(after[before + k] == done.added[k]);
    }
    assert forall|k: int, d: int|
        0 <= k < n && 0 <= d < entries[order[k] as int].depends_on.len() implies #[trigger] resolved(
        after,
        before,
        entries,
        order,
        k,
        d,
    ) by {
        lemma_resolved(s, entries, options, timestamp, k, d);
    }
    order
}

proof fn lemma_resolved(
    s: TaskStoreView,
    entries: Seq<ManifestTaskView>,
    options: AddBatchOptionsView,
    timestamp: Seq<char>,
    k: int,
    d: int,
)
    requires
        entries.len() <= usize::MAX,
        largest_number(s.tasks) + entries.len() <= usize::MAX,
        batch_plan(entries, s.tasks, s.config, options) is Ok,
        0 <= k < entries.len(),
        0 <= d < entries[dependency_order(manifest_needs(entries))[k] as int].depends_on.len(),
    ensures
        resolved(
            batch_progress(
                s,
                batch_plan(entries, s.tasks, s.config, options)->Ok_0,
                entries.len(),
                timestamp,
            ).store.tasks,
            s.tasks.len() as int,
            entries,
            dependency_order(manifest_needs(entries)),
            k,
            d,
        ),
{
    let plan = batch_plan(entries, s.tasks, s.config, options)->Ok_0;
    let n = entries.len();
    let needs = manifest_needs(entries);
    let order = dependency_order(needs);
    lemma_plan(entries, s.tasks, s.config, options);
    law_plan_is_carried_out(s, entries, options, timestamp);
    law_order_respects_needs(needs);
    let done = batch_progress(s, plan, n, timestamp);
    let after = done.store.tasks;
    let before = s.tasks.len() as int;
    let at = order[k];
    let e = entries[at as int];
    let name = e.depends_on[d];
    let to = after[before + k].dependencies[d];
    assert(done.added[k].dependencies == plan.planned[k].resolved_dependencies);
    lemma_nothing_wrapped(
        unknown_dependencies(entries, s.tasks, n),
        "unknown dependency reference: "@,
        ""@,
    );
    lemma_known_dependencies(entries, s.tasks, n, at as int);
    lemma_known_names(entries, s.tasks, e.depends_on, d);
    lemma_alias_index(entries, name);
    match alias_index(entries, name) {
        Some(i) => {
            lemma_local_need(entries, e.depends_on, d);
            let mine = needs[at as int];
            let j = mine.index_of(i);
            assert(ready(needs, order[k] as int, order.take(k)));
            assert(order.take(k).contains(mine[j]));
            let place = order.take(k).index_of(i);
            assert(order[place] == i);
            assert(order.index_of(i) == place);
            assert(done.added[place].id == plan.planned[place].real_id);
            assert(after[before + place].id == to);
            assert(entries[order[place] as int].id == Some(name));
        },
        None => {
            let m = law_found_task_stands_somewhere(s.tasks, name);
            assert(after[m] == s.tasks[m]);
            assert(after[m].id == name);
        },
    }
}

/// The workflow that an entry asks for.
pub open spec fn asked_workflow(
    e: ManifestTaskView,
    options: AddBatchOptionsView,
    config: ConfigView,
) -> Seq<char> {
    if e.workflow is Some {
        e.workflow->0
    } else if options.workflow is Some {
        options.workflow->0
    } else {
        config.default_workflow
    }
}

/// An entry can be added to some tasks: its title is free, its workflow is known, the phase that
/// it asks for is one of the workflow, and each task that it names is there or in the manifest.
pub open spec fn sound_entry(
    e: ManifestTaskView,
    entries: Seq<ManifestTaskView>,
    tasks: Seq<TaskView>,
    config: ConfigView,
    options: AddBatchOptionsView,
) -> bool {
    let steps = config.sequence(asked_workflow(e, options, config));
    &&& forall|j: int|
        0 <= j < tasks.len() && (#[trigger] tasks[j]).state != config.sequence(
            config.default_workflow,
        ).last() ==> lowercase(tasks[j].title) != lowercase(e.title)
    &&& steps.len() > 0
    &&& e.phase is Some ==> steps.contains(e.phase->0)
    &&& e.phase is None && options.phase is Some ==> steps.contains(options.phase->0)
    &&& forall|d: int|
        0 <= d < e.depends_on.len() ==> known_name(entries, tasks, #[trigger] e.depends_on[d])
}

/// A name stands for an entry of the manifest or for a task.
pub open spec fn known_name(
    entries: Seq<ManifestTaskView>,
    tasks: Seq<TaskView>,
    name: Seq<char>,
) -> bool {
    ||| exists|m: int| 0 <= m < entries.len() && (#[trigger] entries[m]).id == Some(name)
    ||| exists|m: int| 0 <= m < tasks.len() && (#[trigger] tasks[m]).id == name
}

/// A manifest can be added to some tasks: it has entries, no two of them have one name or one
/// title, and each of them is sound.
pub open spec fn sound_manifest(
    entries: Seq<ManifestTaskView>,
    tasks: Seq<TaskView>,
    config: ConfigView,
    options: AddBatchOptionsView,
) -> bool {
    &&& entries.len() > 0
    &&& forall|i: int, j: int|
        0 <= i < j < entries.len() && (#[trigger] entries[i]).id is Some ==> entries[i].id != (
        #[trigger] entries[j]).id
    &&& forall|i: int, j: int|
        0 <= i < j < entries.len() ==> lowercase((#[trigger] entries[i]).title) != lowercase(
            (#[trigger] entries[j]).title,
        )
    &&& forall|i: int|
        0 <= i < entries.len() ==> sound_entry(
            #[trigger] entries[i],
            entries,
            tasks,
            config,
            options,
        )
}

/// All entries in an order in which each comes after those that it names.
pub open spec fn workable(entries: Seq<ManifestTaskView>, order: Seq<usize>) -> bool {
    &&& order.len() == entries.len()
    &&& order.no_duplicates()
    &&& forall|k: int| 0 <= k < order.len() ==> (#[trigger] order[k]) < entries.len()
    &&& forall|k: int, m: int|
        0 <= k < order.len() && 0 <= m < order.len() && entries[(#[trigger] order[m]) as int].id
            is Some && entries[(#[trigger] order[k]) as int].depends_on.contains(
            entries[order[m] as int].id->0,
        ) ==> m < k
}

/// A manifest is refused exactly where it is not sound, or its entries name each other so that no
/// order is left for them.
pub proof fn law_sound_manifest_is_planned(
    entries: Seq<ManifestTaskView>,
    tasks: Seq<TaskView>,
    config: ConfigView,
    options: AddBatchOptionsView,
    order: Seq<usize>,
)
    requires
        entries.len() <= usize::MAX,
        config.sequence(config.default_workflow).len() > 0,
    ensures
        sound_manifest(entries, tasks, config, options) && workable(entries, order) ==> batch_plan(
            entries,
            tasks,
            config,
            options,
        ) is Ok,
        batch_plan(entries, tasks, config, options) is Ok ==> sound_manifest(
            entries,
            tasks,
            config,
            options,
        ) && workable(entries, dependency_order(manifest_needs(entries))),
{
    if sound_manifest(entries, tasks, config, options) && workable(entries, order) {
        lemma_nothing_repeated(entries, entries.len() as int);
        lemma_titles_differ(lower_titles(entries));
        lemma_lists_are_empty(entries, entries, tasks, config, options);
        lemma_all_names_known(entries, tasks, config, options, entries.len());
        lemma_order_is_full(entries, order);
        lemma_empty_set();
        assert(entries.take(entries.len() as int) =~= entries);
        assert(manifest_problems(entries, tasks, config, options).len() == 0);
    }
    if batch_plan(entries, tasks, config, options) is Ok {
        lemma_planned_is_sound(entries, tasks, config, options);
    }
}

proof fn lemma_empty_set()
    ensures
        text_set(Seq::empty()).len() == 0,
{
    let none = Seq::<Seq<char>>::empty();
    law_set_holds_the_texts(none);
    if text_set(none).len() > 0 {
        assert(text_set(none).contains(text_set(none)[0]));
    }
}

proof fn lemma_nothing_repeated(entries: Seq<ManifestTaskView>, n: int)
    requires
        0 <= n <= entries.len() <= usize::MAX,
        forall|i: int, j: int|
            0 <= i < j < entries.len() && (#[trigger] entries[i]).id is Some ==> entries[i].id != (
            #[trigger] entries[j]).id,
    ensures
        repeated_aliases(entries.take(n)) == Seq::<Seq<char>>::empty(),
    decreases n,
{
    if n > 0 {
        lemma_nothing_repeated(entries, n - 1);
        assert(entries.take(n).drop_last() =~= entries.take(n - 1));
        let last = entries[n - 1];
        assert(entries.take(n).last() == last);
        if last.id is Some {
            lemma_alias_index(entries.take(n - 1), last.id->0);
            if alias_index(entries.take(n - 1), last.id->0) is Some {
                let i = alias_index(entries.take(n - 1), last.id->0)->0;
                assert(entries[i as int].id == last.id);
                assert(entries[i as int].id != entries[n - 1].id);
            }
        }
    }
}

proof fn lemma_titles_differ(items: Seq<Seq<char>>)
    requires
        forall|i: int, j: int|
            0 <= i < j < items.len() ==> (#[trigger] items[i]) != (#[trigger] items[j]),
    ensures
        repeated_texts(items) == Seq::<Seq<char>>::empty(),
    decreases items.len(),
{
    if items.len() > 0 {
        let front = items.drop_last();
        assert forall|i: int, j: int| 0 <= i < j < front.len() implies (#[trigger] front[i]) != (
        #[trigger] front[j]) by {
            assert(front[i] == items[i] && front[j] == items[j]);
        }
        lemma_titles_differ(front);
        if front.contains(items.last()) {
            let k = front.index_of(items.last());
            assert(items[k] == items[items.len() - 1]);
        }
    }
}

proof fn lemma_lists_are_empty(
    part: Seq<ManifestTaskView>,
    entries: Seq<ManifestTaskView>,
    tasks: Seq<TaskView>,
    config: ConfigView,
    options: AddBatchOptionsView,
)
    requires
        config.sequence(config.default_workflow).len() > 0,
        forall|i: int|
            0 <= i < part.len() ==> sound_entry(
                #[trigger] part[i],
                entries,
                tasks,
                config,
                options,
            ),
    ensures
        taken_titles(part, tasks, config.terminal()) == Seq::<Seq<char>>::empty(),
        unknown_workflows(part, options, config) == Seq::<Seq<char>>::empty(),
        unknown_phases(part, options, config) == Seq::<Seq<char>>::empty(),
    decreases part.len(),
{
    if part.len() > 0 {
        let front = part.drop_last();
        assert forall|i: int| 0 <= i < front.len() implies sound_entry(
            #[trigger] front[i],
            entries,
            tasks,
            config,
            options,
        ) by {
            assert(front[i] == part[i]);
        }
        lemma_lists_are_empty(front, entries, tasks, config, options);
        let e = part[part.len() - 1];
        assert(sound_entry(e, entries, tasks, config, options));
        let p = has_title(e.title, config.terminal());
        lemma_first_where(tasks, p);
        if first_where(tasks, p) is Some {
            let j = first_where(tasks, p)->0;
            assert(p(tasks[j]));
            assert(tasks[j].state != config.sequence(config.default_workflow).last());
        }
    }
}

proof fn lemma_names_known(
    entries: Seq<ManifestTaskView>,
    tasks: Seq<TaskView>,
    names: Seq<Seq<char>>,
)
    requires
        entries.len() <= usize::MAX,
        forall|d: int| 0 <= d < names.len() ==> known_name(entries, tasks, #[trigger] names[d]),
    ensures
        unknown_names(entries, tasks, names) == Seq::<Seq<char>>::empty(),
    decreases names.len(),
{
    if names.len() > 0 {
        let front = names.drop_last();
        assert forall|d: int| 0 <= d < front.len() implies known_name(
            entries,
            tasks,
            #[trigger] front[d],
        ) by {
            assert(front[d] == names[d]);
        }
        lemma_names_known(entries, tasks, front);
        let name = names[names.len() - 1];
        assert(known_name(entries, tasks, name));
        lemma_alias_index(entries, name);
        lemma_task_index(tasks, name);
        if alias_index(entries, name) is None && find_task(tasks, name) is None {
            if exists|m: int| 0 <= m < tasks.len() && (#[trigger] tasks[m]).id == name {
                let m = choose|m: int| 0 <= m < tasks.len() && (#[trigger] tasks[m]).id == name;
                assert(tasks[m].id != name);
            }
        }
    }
}

proof fn lemma_all_names_known(
    entries: Seq<ManifestTaskView>,
    tasks: Seq<TaskView>,
    config: ConfigView,
    options: AddBatchOptionsView,
    n: nat,
)
    requires
        n <= entries.len() <= usize::MAX,
        sound_manifest(entries, tasks, config, options),
    ensures
        unknown_dependencies(entries, tasks, n) == Seq::<Seq<char>>::empty(),
    decreases n,
{
    if n > 0 {
        lemma_all_names_known(entries, tasks, config, options, (n - 1) as nat);
        let e = entries[n - 1];
        assert(sound_entry(e, entries, tasks, config, options));
        lemma_names_known(entries, tasks, e.depends_on);
    }
}

proof fn lemma_need_is_named(entries: Seq<ManifestTaskView>, names: Seq<Seq<char>>, x: usize)
    requires
        entries.len() <= usize::MAX,
        local_needs(entries, names).contains(x),
    ensures
        x < entries.len(),
        entries[x as int].id is Some,
        names.contains(entries[x as int].id->0),
    decreases names.len(),
{
    if names.len() > 0 {
        let front = names.drop_last();
        let rest = local_needs(entries, front);
        let all = local_needs(entries, names);
        let k = all.index_of(x);
        lemma_alias_index(entries, names.last());
        if k < rest.len() {
            assert(rest[k] == x);
            lemma_need_is_named(entries, front, x);
            let d = front.index_of(entries[x as int].id->0);
            assert(names[d] == front[d]);
        } else {
            assert(names[names.len() - 1] == entries[x as int].id->0);
        }
    }
}

proof fn lemma_order_is_full(entries: Seq<ManifestTaskView>, order: Seq<usize>)
    requires
        entries.len() <= usize::MAX,
        workable(entries, order),
    ensures
        dependency_order(manifest_needs(entries)).len() == entries.len(),
{
    let needs = manifest_needs(entries);
    let r = dependency_order(needs);
    let n = entries.len();
    law_order_respects_needs(needs);
    lemma_all_reached(entries, order, order.len() as int);
    assert(order.to_set().subset_of(r.to_set())) by {
        assert forall|x: usize| order.to_set().contains(x) implies r.to_set().contains(x) by {
            let k = order.index_of(x);
            assert(r.contains(order[k]));
        }
    }
    order.unique_seq_to_set();
    r.unique_seq_to_set();
    vstd::set_lib::lemma_len_subset(order.to_set(), r.to_set());
    assert(r.to_set().subset_of(order.to_set())) by {
        assert forall|x: usize| r.to_set().contains(x) implies order.to_set().contains(x) by {
            let k = r.index_of(x);
            assert(r[k] < n);
            lemma_holds_all(order, n, x);
        }
    }
    vstd::set_lib::lemma_len_subset(r.to_set(), order.to_set());
}

proof fn lemma_all_reached(entries: Seq<ManifestTaskView>, order: Seq<usize>, n: int)
    requires
        entries.len() <= usize::MAX,
        workable(entries, order),
        0 <= n <= order.len(),
    ensures
        forall|k: int|
            0 <= k < n ==> dependency_order(manifest_needs(entries)).contains(#[trigger] order[k]),
    decreases n,
{
    if n > 0 {
        lemma_all_reached(entries, order, n - 1);
        let needs = manifest_needs(entries);
        let r = dependency_order(needs);
        law_order_respects_needs(needs);
        let at = order[n - 1];
        if !r.contains(at) {
            assert forall|j: int| 0 <= j < needs[at as int].len() implies r.contains(
                #[trigger] needs[at as int][j],
            ) by {
                let x = needs[at as int][j];
                assert(needs[at as int] == local_needs(entries, entries[at as int].depends_on));
                assert(local_needs(entries, entries[at as int].depends_on).contains(x));
                lemma_need_is_named(entries, entries[at as int].depends_on, x);
                lemma_holds_all(order, entries.len(), x);
                let m = order.index_of(x);
                assert(order[m] == x && order[n - 1] == at);
                assert(m < n - 1);
                assert(r.contains(order[m]));
            }
            assert(ready(needs, at as int, r));
            assert(at as int as usize == at);
        }
    }
}

proof fn lemma_holds_all(order: Seq<usize>, n: nat, x: usize)
    requires
        order.len() == n,
        order.no_duplicates(),
        forall|k: int| 0 <= k < order.len() ==> (#[trigger] order[k]) < n,
        x < n,
    ensures
        order.contains(x),
{
    if !order.contains(x) {
        let longer = order.push(x);
        let ints = longer.map_values(|y: usize| y as int);
        let places = vstd::set_lib::set_int_range(0, n as int);
        vstd::set_lib::lemma_int_range(0, n as int);
        assert(ints.no_duplicates()) by {
            assert forall|a: int, b: int|
                0 <= a < ints.len() && 0 <= b < ints.len() && a != b implies ints[a] != ints[b] by {
                if a == n {
                    assert(order[b] == longer[b]);
                    assert(order.contains(order[b]));
                } else if b == n {
                    assert(order[a] == longer[a]);
                    assert(order.contains(order[a]));
                } else {
                    assert(order[a] != order[b]);
                }
            }
        }
        ints.unique_seq_to_set();
        assert(ints.to_set().subset_of(places)) by {
            assert forall|y: int| ints.to_set().contains(y) implies places.contains(y) by {
                let k = ints.index_of(y);
                if k < n {
                    assert(order[k] < n);
                }
            }
        }
        vstd::set_lib::lemma_len_subset(ints.to_set(), places);
    }
}

proof fn lemma_planned_is_sound(
    entries: Seq<ManifestTaskView>,
    tasks: Seq<TaskView>,
    config: ConfigView,
    options: AddBatchOptionsView,
)
    requires
        entries.len() <= usize::MAX,
        config.sequence(config.default_workflow).len() > 0,
        batch_plan(entries, tasks, config, options) is Ok,
    ensures
        sound_manifest(entries, tasks, config, options),
        workable(entries, dependency_order(manifest_needs(entries))),
{
    let n = entries.len();
    law_planned_names_are_distinct(entries, tasks, config, options);
    lemma_plan(entries, tasks, config, options);
    lemma_nothing_wrapped(unknown_workflows(entries, options, config), "unknown workflow '"@, "'"@);
    lemma_nothing_wrapped(unknown_phases(entries, options, config), "unknown phase: "@, ""@);
    lemma_nothing_wrapped(
        unknown_dependencies(entries, tasks, n),
        "unknown dependency reference: "@,
        ""@,
    );
    assert forall|i: int| 0 <= i < n implies sound_entry(
        #[trigger] entries[i],
        entries,
        tasks,
        config,
        options,
    ) by {
        lemma_entry_lists(entries, tasks, config, options, i);
        lemma_known_dependencies(entries, tasks, n, i);
        let e = entries[i];
        assert forall|d: int| 0 <= d < e.depends_on.len() implies known_name(
            entries,
            tasks,
            #[trigger] e.depends_on[d],
        ) by {
            lemma_known_names(entries, tasks, e.depends_on, d);
            lemma_alias_index(entries, e.depends_on[d]);
            if alias_index(entries, e.depends_on[d]) is None {
                let m = law_found_task_stands_somewhere(tasks, e.depends_on[d]);
                assert(tasks[m].id == e.depends_on[d]);
            }
        }
    }
    let needs = manifest_needs(entries);
    let order = dependency_order(needs);
    law_order_respects_needs(needs);
    assert forall|k: int, m: int|
        0 <= k < order.len() && 0 <= m < order.len() && entries[(#[trigger] order[m]) as int].id
            is Some && entries[(#[trigger] order[k]) as int].depends_on.contains(
            entries[order[m] as int].id->0,
        ) implies m < k by {
        let names = entries[order[k] as int].depends_on;
        let d = names.index_of(entries[order[m] as int].id->0);
        lemma_alias_index(entries, names[d]);
        let i = alias_index(entries, names[d]);
        assert(i is Some) by {
            assert(entries[order[m] as int].id == Some(names[d]));
        }
        assert(i->0 == order[m]) by {
            assert(entries[i->0 as int].id == entries[order[m] as int].id);
        }
        lemma_local_need(entries, names, d);
        assert(ready(needs, order[k] as int, order.take(k)));
        let j = needs[order[k] as int].index_of(order[m]);
        assert(order.take(k).contains(needs[order[k] as int][j]));
        let place = order.take(k).index_of(order[m]);
        assert(order[place] == order[m]);
    }
}

proof fn lemma_entry_lists(
    entries: Seq<ManifestTaskView>,
    tasks: Seq<TaskView>,
    config: ConfigView,
    options: AddBatchOptionsView,
    i: int,
)
    requires
        0 <= i < entries.len(),
        config.sequence(config.default_workflow).len() > 0,
        taken_titles(entries, tasks, config.terminal()).len() == 0,
        unknown_workflows(entries, options, config).len() == 0,
        unknown_phases(entries, options, config).len() == 0,
    ensures
        ({
            let e = entries[i];
            let steps = config.sequence(asked_workflow(e, options, config));
            &&& forall|j: int|
                0 <= j < tasks.len() && (#[trigger] tasks[j]).state != config.sequence(
                    config.default_workflow,
                ).last() ==> lowercase(tasks[j].title) != lowercase(e.title)
            &&& steps.len() > 0
            &&& e.phase is Some ==> steps.contains(e.phase->0)
            &&& e.phase is None && options.phase is Some ==> steps.contains(options.phase->0)
        }),
    decreases entries.len(),
{
    if i < entries.len() - 1 {
        lemma_entry_lists(entries.drop_last(), tasks, config, options, i);
    } else {
        let e = entries[i];
        let p = has_title(e.title, config.terminal());
        lemma_first_where(tasks, p);
        assert forall|j: int|
            0 <= j < tasks.len() && (#[trigger] tasks[j]).state != config.sequence(
                config.default_workflow,
            ).last() implies lowercase(tasks[j].title) != lowercase(e.title) by {
            assert(!p(tasks[j]));
        }
    }
}

/// The command adds the tasks of a manifest that can be planned, and shows what it added, under the
/// ids that the tasks have. A trial run shows the same and adds nothing. A manifest that cannot be
/// planned, or that is not taken from one place, adds nothing.
pub proof fn law_batch_command(
    project: ProjectView,
    files: ProjectFilesView,
    config: ConfigView,
    s: TaskStoreView,
    options: AddBatchOptionsView,
    entries: Seq<ManifestTaskView>,
    runner: Option<Seq<char>>,
    now: Instant,
)
    requires
        finds(project, files, config, s),
        s.config == config,
        entries.len() <= usize::MAX,
        largest_number(s.tasks) + entries.len() <= usize::MAX,
    ensures
        ({
            let (report, result) = tasks_added(
                project,
                files,
                options,
                ManifestSeenView::Parsed { tasks: entries },
                runner,
                now,
            );
            let one_place = options.file is Some != options.stdin;
            &&& result is Ok <==> one_place && batch_plan(entries, s.tasks, config, options) is Ok
            &&& result is Err || options.dry_run ==> report.steps.len() == 0
                && report.ensure_runner is None
            &&& one_place ==> report.report.tasks == if s.migrated {
                Some(s.tasks)
            } else {
                None
            }
            &&& result is Ok && options.json ==> {
                &&& report.document is Some
                &&& report.document->0.dry_run == options.dry_run
                &&& report.document->0.tasks.len() == entries.len()
            }
            &&& result is Ok && options.json && !options.dry_run ==> forall|k: int|
                0 <= k < entries.len() ==> {
                    let shown = #[trigger] report.document->0.tasks[k];
                    let t = report.steps.last().tasks[s.tasks.len() + k];
                    &&& shown.id == t.id
                    &&& shown.title == t.title
                    &&& shown.depends_on == t.dependencies
                    &&& shown.workflow == t.workflow
                }
            &&& result is Ok && options.json ==> {
                let genuine = tasks_added(
                    project,
                    files,
                    AddBatchOptionsView { dry_run: false, ..options },
                    ManifestSeenView::Parsed { tasks: entries },
                    runner,
                    now,
                ).0;
                &&& genuine.document is Some
                &&& genuine.document->0.tasks == report.document->0.tasks
                &&& genuine.document->0.aliases == report.document->0.aliases
            }
        }),
{
    let real_options = AddBatchOptionsView { dry_run: false, ..options };
    if batch_plan(entries, s.tasks, config, options) is Ok {
        let plan = batch_plan(entries, s.tasks, config, options)->Ok_0;
        lemma_options(entries, options, real_options, config);
        lemma_unknown_same(entries, options, real_options, config);
        let order = dependency_order(manifest_needs(entries));
        let genuine = batch_plan(entries, s.tasks, config, real_options)->Ok_0;
        assert(genuine.planned =~= plan.planned) by {
            assert forall|k: int| 0 <= k < plan.planned.len() implies #[trigger] genuine.planned[k]
                == plan.planned[k] by {
                lemma_one_option(entries[order[k] as int], options, real_options, config);
            }
        }
        let timestamp = rfc3339_text(now);
        lemma_plan(entries, s.tasks, config, options);
        law_plan_is_carried_out(s, entries, options, timestamp);
        law_commands_find_their_task(s, plan, entries.len(), timestamp);
        let done = batch_progress(s, plan, entries.len(), timestamp);
        if entries.len() > 0 {
            assert(done.added.take(entries.len() as int) =~= done.added);
            assert forall|k: int| 0 <= k < entries.len() implies ({
                let shown = #[trigger] shown_tasks(plan)[k];
                let t = done.store.tasks[s.tasks.len() + k];
                &&& shown.id == t.id
                &&& shown.title == t.title
                &&& shown.depends_on == t.dependencies
                &&& shown.workflow == t.workflow
            }) by {
                lemma_added_fields(s, plan, entries.len(), timestamp, k);
                assert(done.added[k].id == plan.planned[k].real_id);
                assert(done.store.tasks[s.tasks.len() + k] == done.added[k]);
            }
        }
    }
}

proof fn lemma_one_option(
    e: ManifestTaskView,
    a: AddBatchOptionsView,
    b: AddBatchOptionsView,
    config: ConfigView,
)
    requires
        a.workflow == b.workflow,
        a.phase == b.phase,
    ensures
        entry_workflow(e, a, config) == entry_workflow(e, b, config),
        entry_phase(e, a) == entry_phase(e, b),
{
}

proof fn lemma_options(
    entries: Seq<ManifestTaskView>,
    a: AddBatchOptionsView,
    b: AddBatchOptionsView,
    config: ConfigView,
)
    requires
        a.workflow == b.workflow,
        a.phase == b.phase,
    ensures
        unknown_workflows(entries, a, config) == unknown_workflows(entries, b, config),
    decreases entries.len(),
{
    if entries.len() > 0 {
        lemma_options(entries.drop_last(), a, b, config);
    }
}

proof fn lemma_unknown_same(
    entries: Seq<ManifestTaskView>,
    a: AddBatchOptionsView,
    b: AddBatchOptionsView,
    config: ConfigView,
)
    requires
        a.workflow == b.workflow,
        a.phase == b.phase,
    ensures
        unknown_phases(entries, a, config) == unknown_phases(entries, b, config),
    decreases entries.len(),
{
    if entries.len() > 0 {
        lemma_unknown_same(entries.drop_last(), a, b, config);
    }
}

/// A name of the manifest stands for the id of the task that was made from its entry; and each task
/// is shown under its name, with the phase that was asked for.
pub proof fn law_names_stand_for_ids(
    s: TaskStoreView,
    entries: Seq<ManifestTaskView>,
    options: AddBatchOptionsView,
    timestamp: Seq<char>,
    k: int,
)
    requires
        entries.len() <= usize::MAX,
        largest_number(s.tasks) + entries.len() <= usize::MAX,
        batch_plan(entries, s.tasks, s.config, options) is Ok,
        0 <= k < entries.len(),
    ensures
        ({
            let plan = batch_plan(entries, s.tasks, s.config, options)->Ok_0;
            let order = dependency_order(manifest_needs(entries));
            let t = batch_progress(s, plan, entries.len(), timestamp).added[k];
            let e = entries[order[k] as int];
            let shown = shown_tasks(plan)[k];
            &&& e.id is Some ==> lookup(plan.alias_to_real_id, e.id->0) == Some(t.id)
            &&& shown.alias == e.id
            &&& shown.id == t.id
            &&& e.phase is Some ==> shown.phase == e.phase
            &&& e.phase is None ==> shown.phase == options.phase
        }),
{
    let plan = batch_plan(entries, s.tasks, s.config, options)->Ok_0;
    let n = entries.len();
    let needs = manifest_needs(entries);
    let order = dependency_order(needs);
    lemma_plan(entries, s.tasks, s.config, options);
    law_plan_is_carried_out(s, entries, options, timestamp);
    law_planned_names_are_distinct(entries, s.tasks, s.config, options);
    law_order_respects_needs(needs);
    let done = batch_progress(s, plan, n, timestamp);
    assert(done.added[k].id == plan.planned[k].real_id);
    let e = entries[order[k] as int];
    if e.id is Some {
        lemma_alias_ids(entries, order, largest_number(s.tasks), n, order[k] as int);
    }
}

proof fn lemma_alias_ids(
    entries: Seq<ManifestTaskView>,
    order: Seq<usize>,
    largest: nat,
    n: nat,
    at: int,
)
    requires
        n <= entries.len() <= usize::MAX,
        forall|i: int, j: int|
            0 <= i < j < entries.len() && (#[trigger] entries[i]).id is Some ==> entries[i].id != (
            #[trigger] entries[j]).id,
        0 <= at < entries.len(),
        entries[at].id is Some,
    ensures
        sorted(alias_ids(entries, order, largest, n)),
        at < n ==> lookup(alias_ids(entries, order, largest, n), entries[at].id->0) == Some(
            planned_id(order, largest, at as usize),
        ),
    decreases n,
{
    if n > 0 {
        lemma_alias_ids(entries, order, largest, (n - 1) as nat, at);
        let rest = alias_ids(entries, order, largest, (n - 1) as nat);
        if entries[n - 1].id is Some {
            lemma_put(rest, entries[n - 1].id->0, planned_id(order, largest, (n - 1) as usize));
            if at < n - 1 {
                assert(entries[at].id != entries[n - 1].id);
            }
        }
    }
}

} // verus!
