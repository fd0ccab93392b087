//! What changes of phases and workflows do, and how a project is set up.

use vstd::prelude::*;

use crate::commands::init::{
    init_step, manager_of, phase_entry, phases_in, project_scanned, AgentFilesView, InitErrorView,
    InitFlagsView, InitStepView, PackageFactsView, PackageManager, RepoSeenView,
};
use crate::commands::phase::{
    law_users_have_the_phase, phase_added, phase_removed, phase_updated, users_of,
};
use crate::commands::report::{project_config, ProjectFilesView};
use crate::commands::workflow::{
    default_workflow_set, in_phase, phase_put_in, phase_taken_out, text_is_not, under_way,
    unknown_phase, workflow_added, workflow_removed, workflow_updated,
};
use crate::engine::config::{
    is_middle, normalized, ConfigErrorView, ConfigReadView, ConfigView, PhaseDefView,
};
use crate::engine::config_laws::{in_the_middle, law_sound_config_is_used, sound_steps};
use crate::engine::project::ProjectView;
use crate::engine::tasks::{
    law_position_is_the_first, opened, StoreErrorView, TaskStoreView, TasksReadView,
};
use crate::string_map::{
    has_key, keys, lemma_lookup_at, lemma_lookup_some, lemma_put, lemma_without, lookup, put,
    sorted, without,
};
use crate::text::{
    blank, find_from, first_where, law_keeping_is_filtering, lemma_first_where, lemma_trim_blank,
    path_join, split, trim,
};

verus! {

/// A configuration that is in use and whose phases and workflows are in order.
pub open spec fn in_order(project: ProjectView, read: ConfigReadView, config: ConfigView) -> bool {
    &&& project_config(project, read) == Ok::<ConfigView, ConfigErrorView>(config)
    &&& sorted(config.phases)
    &&& sorted(config.workflows)
}

/// A configuration in which one phase is as given and all else is as it was.
pub open spec fn differs_in_phase(
    before: ConfigView,
    after: ConfigView,
    name: Seq<char>,
    def: Option<PhaseDefView>,
) -> bool {
    &&& after.stack == before.stack
    &&& after.workflows == before.workflows
    &&& after.default_workflow == before.default_workflow
    &&& after.max_retries == before.max_retries
    &&& lookup(after.phases, name) == def
    &&& forall|other: Seq<char>|
        other != name ==> #[trigger] lookup(after.phases, other) == lookup(before.phases, other)
}

/// A configuration in which one workflow is as given and all else is as it was.
pub open spec fn differs_in_workflow(
    before: ConfigView,
    after: ConfigView,
    name: Seq<char>,
    steps: Option<Seq<Seq<char>>>,
) -> bool {
    &&& after.stack == before.stack
    &&& after.phases == before.phases
    &&& after.default_workflow == before.default_workflow
    &&& after.max_retries == before.max_retries
    &&& lookup(after.workflows, name) == steps
    &&& forall|other: Seq<char>|
        other != name ==> #[trigger] lookup(after.workflows, other) == lookup(
            before.workflows,
            other,
        )
}

/// A phase is added under a name that is free and not one of the two that every workflow has; it has
/// the model and the duty that are given.
pub proof fn law_add_phase_command(
    project: ProjectView,
    read: ConfigReadView,
    config: ConfigView,
    name: Seq<char>,
    model: Option<Seq<char>>,
    duty: Option<Seq<char>>,
)
    requires
        in_order(project, read, config),
    ensures
        phase_added(project, read, name, model, duty) is Ok <==> name != "pending"@ && name
            != "done"@ && lookup(config.phases, name) is None,
        phase_added(project, read, name, model, duty) matches Ok((after, said)) ==> differs_in_phase(
            config,
            after,
            name,
            Some(PhaseDefView { model, duty, gate: None }),
        ) && said == "phase added: "@ + name,
{
    let def = PhaseDefView { model, duty, gate: None };
    lemma_put(config.phases, name, def);
    lemma_has_key(config.phases, name);
    lemma_phases_changed(
        config,
        ConfigView { phases: put(config.phases, name, def), ..config },
        name,
    );
}

proof fn lemma_has_key<T>(m: Seq<(Seq<char>, T)>, key: Seq<char>)
    ensures
        has_key(m, key) <==> lookup(m, key) is Some,
    decreases m.len(),
{
    if m.len() > 0 {
        lemma_has_key(m.drop_last(), key);
    }
}

proof fn lemma_phases_changed(before: ConfigView, after: ConfigView, name: Seq<char>)
    requires
        before.problem() is None,
        after == (ConfigView { phases: after.phases, ..before }),
        forall|other: Seq<char>|
            other != name ==> #[trigger] lookup(after.phases, other) == lookup(
                before.phases,
                other,
            ),
        lookup(after.phases, name) is Some || forall|k: int|
            0 <= k < before.workflows.len() ==> !(#[trigger] before.workflows[k]).1.contains(name),
    ensures
        after.problem() is None,
{
    law_sound_config_is_used(Seq::empty(), before);
    law_sound_config_is_used(Seq::empty(), after);
    assert forall|k: int| 0 <= k < after.workflows.len() implies sound_steps(
        after.phases,
        (#[trigger] after.workflows[k]).1,
    ) by {
        let steps = before.workflows[k].1;
        assert(sound_steps(before.phases, steps));
        assert forall|i: int| 0 <= i < steps.len() implies lookup(
            after.phases,
            #[trigger] steps[i],
        ) is Some by {
            if steps[i] == name {
                assert(before.workflows[k].1.contains(name));
            } else {
                assert(lookup(before.phases, steps[i]) is Some);
            }
        }
    }
}

/// A phase that is there is changed as asked: what is set is as given, what is cleared is gone, and
/// the rest stays. The two phases that every workflow has get no gate.
pub proof fn law_update_phase_command(
    project: ProjectView,
    read: ConfigReadView,
    config: ConfigView,
    name: Seq<char>,
    set_model: Option<Seq<char>>,
    set_duty: Option<Seq<char>>,
    clear_model: bool,
    clear_duty: bool,
    set_gate: Option<Seq<char>>,
    clear_gate: bool,
)
    requires
        in_order(project, read, config),
    ensures
        ({
            let r = phase_updated(
                project,
                read,
                name,
                set_model,
                set_duty,
                clear_model,
                clear_duty,
                set_gate,
                clear_gate,
            );
            let gated = set_gate is Some || clear_gate;
            let asked = set_model is Some || set_duty is Some || clear_model || clear_duty || gated;
            let def = lookup(config.phases, name)->0;
            &&& r is Ok <==> asked && lookup(config.phases, name) is Some && !(gated && (name
                == "pending"@ || name == "done"@))
            &&& r matches Ok((after, said)) ==> {
                let now = lookup(after.phases, name);
                &&& differs_in_phase(config, after, name, now)
                &&& now is Some
                &&& clear_model ==> now->0.model is None
                &&& !clear_model && set_model is Some ==> now->0.model == set_model
                &&& !clear_model && set_model is None ==> now->0.model == def.model
                &&& clear_duty ==> now->0.duty is None
                &&& !clear_duty && set_duty is Some ==> now->0.duty == set_duty
                &&& !clear_duty && set_duty is None ==> now->0.duty == def.duty
                &&& clear_gate ==> now->0.gate is None
                &&& !clear_gate && set_gate is Some ==> now->0.gate == set_gate
                &&& !clear_gate && set_gate is None ==> now->0.gate == def.gate
                &&& said == "phase updated: "@ + name
            }
        }),
{
    let def = lookup(config.phases, name)->0;
    let changed = PhaseDefView {
        model: crate::commands::phase::setting(def.model, set_model, clear_model),
        duty: crate::commands::phase::setting(def.duty, set_duty, clear_duty),
        gate: crate::commands::phase::setting(def.gate, set_gate, clear_gate),
    };
    lemma_put(config.phases, name, changed);
    lemma_phases_changed(
        config,
        ConfigView { phases: put(config.phases, name, changed), ..config },
        name,
    );
}

/// A phase is removed where it is there, is not one of the two that every workflow has, and no
/// workflow has it.
pub proof fn law_remove_phase_command(
    project: ProjectView,
    read: ConfigReadView,
    config: ConfigView,
    name: Seq<char>,
)
    requires
        in_order(project, read, config),
    ensures
        phase_removed(project, read, name) is Ok <==> name != "pending"@ && name != "done"@
            && lookup(config.phases, name) is Some && forall|k: int|
            0 <= k < config.workflows.len() ==> !(#[trigger] config.workflows[k]).1.contains(name),
        phase_removed(project, read, name) matches Ok((after, said)) ==> differs_in_phase(
            config,
            after,
            name,
            None,
        ) && said == "phase removed: "@ + name,
{
    lemma_has_key(config.phases, name);
    lemma_without(config.phases, name);
    law_users_have_the_phase(config.workflows, name);
    if users_of(config.workflows, name).len() == 0 {
        lemma_phases_changed(
            config,
            ConfigView { phases: without(config.phases, name), ..config },
            name,
        );
    }
}

/// A workflow is added under a name that is free, of phases that are there and of which none comes
/// twice, between the two phases that every workflow has.
pub proof fn law_add_workflow_command(
    project: ProjectView,
    read: ConfigReadView,
    config: ConfigView,
    name: Seq<char>,
    phases: Seq<Seq<char>>,
)
    requires
        in_order(project, read, config),
    ensures
        ({
            let (report, result) = workflow_added(project, read, name, phases);
            let steps = seq!["pending"@] + phases.filter(|p: Seq<char>| in_the_middle(p)) + seq![
                "done"@,
            ];
            &&& result is Ok <==> lookup(config.workflows, name) is None && sound_steps(
                config.phases,
                steps,
            )
            &&& result is Ok ==> differs_in_workflow(config, result->Ok_0, name, Some(steps))
                && report.output == seq!["workflow added: "@ + name]
            &&& report.tasks is None
            &&& report.hooks.len() == 0
        }),
{
    let steps = seq!["pending"@] + phases.filter(|p: Seq<char>| in_the_middle(p)) + seq!["done"@];
    lemma_normalized(phases);
    lemma_has_key(config.workflows, name);
    lemma_put(config.workflows, name, steps);
    let p = unknown_phase(config.phases);
    lemma_first_where(steps, p);
    if first_where(steps, p) is Some {
        let i = first_where(steps, p)->0;
        assert(p(steps[i]));
        lemma_has_key(config.phases, steps[i]);
    }
    let after = ConfigView { workflows: put(config.workflows, name, steps), ..config };
    lemma_workflow_changed(config, after, name, steps);
    if first_where(steps, p) is None {
        assert forall|i: int| 0 <= i < steps.len() implies lookup(
            config.phases,
            #[trigger] steps[i],
        ) is Some by {
            assert(!p(steps[i]));
            lemma_has_key(config.phases, steps[i]);
        }
    }
}

proof fn lemma_normalized(phases: Seq<Seq<char>>)
    ensures
        normalized(phases) == seq!["pending"@] + phases.filter(|p: Seq<char>| in_the_middle(p))
            + seq!["done"@],
{
    let q = |p: Seq<char>| in_the_middle(p);
    assert(is_middle() =~= q);
    law_keeping_is_filtering(phases, q);
}

proof fn lemma_workflow_changed(
    before: ConfigView,
    after: ConfigView,
    name: Seq<char>,
    steps: Seq<Seq<char>>,
)
    requires
        before.problem() is None,
        sorted(before.workflows),
        after == (ConfigView { workflows: put(before.workflows, name, steps), ..before }),
    ensures
        after.problem() is None <==> sound_steps(before.phases, steps),
{
    let ws = after.workflows;
    lemma_put(before.workflows, name, steps);
    law_sound_config_is_used(Seq::empty(), before);
    law_sound_config_is_used(Seq::empty(), after);
    lemma_has_key(before.workflows, before.default_workflow);
    lemma_has_key(ws, before.default_workflow);
    lemma_has_key(ws, name);
    let at = lemma_lookup_some(ws, name);
    assert(ws[at].1 == steps);
    if has_key(before.workflows, before.default_workflow) {
        let d = lemma_lookup_some(ws, before.default_workflow);
        assert(ws[d].0 == after.default_workflow);
    }
    if sound_steps(before.phases, steps) {
        assert forall|k: int| 0 <= k < ws.len() implies sound_steps(
            after.phases,
            (#[trigger] ws[k]).1,
        ) by {
            lemma_lookup_at(ws, k);
            if ws[k].0 != name {
                assert(lookup(ws, ws[k].0) == lookup(before.workflows, ws[k].0));
                lemma_has_key(before.workflows, ws[k].0);
                let m = lemma_lookup_some(before.workflows, ws[k].0);
                assert(sound_steps(before.phases, before.workflows[m].1));
            }
        }
    }
}

/// A phase is put into a workflow right behind the one that is named, or behind the first one.
pub proof fn law_phase_is_put_behind(
    project: ProjectView,
    config: ConfigView,
    name: Seq<char>,
    steps: Seq<Seq<char>>,
    phase: Seq<char>,
    after: Option<Seq<char>>,
)
    ensures
        ({
            let behind = if after is Some {
                after->0
            } else {
                "pending"@
            };
            let at = steps.index_of_first(behind);
            let r = phase_put_in(project, config, name, steps, phase, after);
            &&& r is Ok <==> lookup(config.phases, phase) is Some && !steps.contains(phase) && at
                is Some
            &&& r is Ok ==> {
                &&& r->Ok_0.len() == steps.len() + 1
                &&& r->Ok_0[at->0 + 1] == phase
                &&& r->Ok_0.remove(at->0 + 1) == steps
            }
        }),
{
    let behind = if after is Some {
        after->0
    } else {
        "pending"@
    };
    law_position_is_the_first(steps, behind);
    steps.index_of_first_ensures(behind);
    lemma_has_key(config.phases, phase);
    let r = phase_put_in(project, config, name, steps, phase, after);
    if r is Ok {
        let at = steps.index_of_first(behind)->0;
        assert(steps.insert(at + 1, phase).remove(at + 1) =~= steps);
    }
}

/// A phase is taken out of a workflow where no task of the workflow is in it; the others stay in
/// their order. The two phases that every workflow has are not taken out.
pub proof fn law_phase_is_taken_out(
    project: ProjectView,
    config: ConfigView,
    tasks: TasksReadView,
    s: TaskStoreView,
    name: Seq<char>,
    steps: Seq<Seq<char>>,
    phase: Seq<char>,
)
    requires
        opened(project.state_dir, tasks, config) == Ok::<TaskStoreView, StoreErrorView>(s),
    ensures
        ({
            let r = phase_taken_out(project, config, tasks, name, steps, phase).1;
            &&& r is Ok <==> phase != "pending"@ && phase != "done"@ && forall|i: int|
                0 <= i < s.tasks.len() && (#[trigger] s.tasks[i]).workflow == name
                    ==> s.tasks[i].state != phase
            &&& r is Ok ==> r->Ok_0 == steps.filter(|x: Seq<char>| x != phase)
        }),
{
    let p = in_phase(name, phase);
    lemma_first_where(s.tasks, p);
    if first_where(s.tasks, p) is Some {
        let i = first_where(s.tasks, p)->0;
        assert(p(s.tasks[i]));
    } else {
        assert forall|i: int|
            0 <= i < s.tasks.len() && (#[trigger] s.tasks[i]).workflow == name && phase
                != "done"@ implies s.tasks[i].state != phase by {
            assert(!p(s.tasks[i]));
        }
    }
    let q = |x: Seq<char>| x != phase;
    assert(text_is_not(phase) =~= q);
    law_keeping_is_filtering(steps, q);
}

/// A change of a workflow takes a phase out, puts one in, or does both, one after the other. The
/// workflow keeps the two phases that every one has at its ends, and no other workflow changes.
pub proof fn law_update_workflow_command(
    project: ProjectView,
    files: ProjectFilesView,
    config: ConfigView,
    s: TaskStoreView,
    name: Seq<char>,
    add: Option<Seq<char>>,
    after: Option<Seq<char>>,
    remove: Option<Seq<char>>,
)
    requires
        in_order(project, files.config, config),
        opened(project.state_dir, files.tasks, config) == Ok::<TaskStoreView, StoreErrorView>(s),
        workflow_updated(project, files, name, add, after, remove).1 is Ok,
    ensures
        ({
            let result = workflow_updated(project, files, name, add, after, remove).1;
            let steps = lookup(config.workflows, name);
            let shorter = if remove is Some {
                phase_taken_out(project, config, files.tasks, name, steps->0, remove->0).1
            } else {
                Ok(steps->0)
            };
            let longer = if add is Some {
                phase_put_in(project, config, name, shorter->Ok_0, add->0, after)
            } else {
                shorter
            };
            &&& add is Some || remove is Some
            &&& steps is Some
            &&& shorter is Ok
            &&& longer is Ok
            &&& differs_in_workflow(
                config,
                result->Ok_0,
                name,
                Some(
                    seq!["pending"@] + longer->Ok_0.filter(|p: Seq<char>| in_the_middle(p)) + seq![
                        "done"@,
                    ],
                ),
            )
        }),
{
    let steps = lookup(config.workflows, name);
    let shorter = if remove is Some {
        phase_taken_out(project, config, files.tasks, name, steps->0, remove->0).1
    } else {
        Ok(steps->0)
    };
    let longer = if add is Some {
        phase_put_in(project, config, name, shorter->Ok_0, add->0, after)
    } else {
        shorter
    };
    lemma_normalized(longer->Ok_0);
    lemma_put(config.workflows, name, normalized(longer->Ok_0));
}

/// A workflow is removed where it is there, is not the usual one, and each of its tasks is done or
/// was given up.
pub proof fn law_remove_workflow_command(
    project: ProjectView,
    files: ProjectFilesView,
    config: ConfigView,
    s: TaskStoreView,
    name: Seq<char>,
)
    requires
        in_order(project, files.config, config),
        opened(project.state_dir, files.tasks, config) == Ok::<TaskStoreView, StoreErrorView>(s),
    ensures
        ({
            let (report, result) = workflow_removed(project, files, name);
            &&& result is Ok <==> name != config.default_workflow && lookup(config.workflows, name)
                is Some && forall|i: int|
                0 <= i < s.tasks.len() && (#[trigger] s.tasks[i]).workflow == name
                    ==> s.tasks[i].state == "done"@ || s.tasks[i].state == "failed"@
            &&& result is Ok ==> differs_in_workflow(config, result->Ok_0, name, None)
        }),
{
    lemma_has_key(config.workflows, name);
    lemma_without(config.workflows, name);
    let p = under_way(name);
    lemma_first_where(s.tasks, p);
    if first_where(s.tasks, p) is Some {
        let i = first_where(s.tasks, p)->0;
        assert(p(s.tasks[i]));
    } else {
        assert forall|i: int|
            0 <= i < s.tasks.len() && (#[trigger] s.tasks[i]).workflow
                == name implies s.tasks[i].state == "done"@ || s.tasks[i].state == "failed"@ by {
            assert(!p(s.tasks[i]));
        }
    }
    let ws = without(config.workflows, name);
    let after = ConfigView { workflows: ws, ..config };
    law_sound_config_is_used(Seq::empty(), config);
    law_sound_config_is_used(Seq::empty(), after);
    if name != config.default_workflow {
        lemma_has_key(config.workflows, config.default_workflow);
        lemma_has_key(ws, config.default_workflow);
        let d = lemma_lookup_some(ws, config.default_workflow);
        assert(ws[d].0 == after.default_workflow);
        assert forall|k: int| 0 <= k < ws.len() implies sound_steps(
            after.phases,
            (#[trigger] ws[k]).1,
        ) by {
            lemma_lookup_at(ws, k);
            assert(ws[k].0 != name);
            lemma_has_key(config.workflows, ws[k].0);
            let m = lemma_lookup_some(config.workflows, ws[k].0);
            assert(sound_steps(config.phases, config.workflows[m].1));
        }
    }
}

/// The usual workflow becomes one that is there, and nothing else changes.
pub proof fn law_set_default_command(
    project: ProjectView,
    read: ConfigReadView,
    config: ConfigView,
    name: Seq<char>,
)
    requires
        in_order(project, read, config),
    ensures
        ({
            let (report, result) = default_workflow_set(project, read, name);
            &&& result is Ok <==> lookup(config.workflows, name) is Some
            &&& result is Ok ==> result->Ok_0 == (ConfigView { default_workflow: name, ..config })
                && report.output == seq!["default workflow: "@ + name]
        }),
{
    lemma_has_key(config.workflows, name);
    let after = ConfigView { default_workflow: name, ..config };
    law_sound_config_is_used(Seq::empty(), config);
    law_sound_config_is_used(Seq::empty(), after);
    if has_key(config.workflows, name) {
        let at = lemma_lookup_some(config.workflows, name);
        assert(after.workflows[at].0 == name);
    }
}

/// What a project is made of is told by the first mark of it that is found, in a fixed order.
pub proof fn law_stack_is_recognised(
    seen: RepoSeenView,
    facts: Option<PackageFactsView>,
    max_retries: u32,
)
    ensures
        ({
            let found = project_scanned(seen, facts, max_retries);
            let stack = found.config.stack;
            let package = !seen.cargo_toml && seen.package_json;
            let rest = !seen.cargo_toml && !seen.package_json;
            let typed = seen.tsconfig_json || facts is Some && facts->0.typescript;
            let gradle = seen.build_gradle || seen.build_gradle_kts;
            &&& seen.cargo_toml ==> stack == "rust"@ && found.commands == seq![
                "cargo fmt -- --check"@,
                "cargo test"@,
                "cargo clippy -- -D warnings"@,
            ]
            &&& package && typed ==> stack == "typescript"@
            &&& package && !typed ==> stack == "javascript"@
            &&& rest && seen.go_mod ==> stack == "go"@ && found.commands == seq![
                "test -z \"$(gofmt -l .)\""@,
                "go vet ./..."@,
                "go test ./..."@,
            ]
            &&& rest && !seen.go_mod && seen.pyproject_toml ==> stack == "python"@
                && found.commands == seq![
                "python -m ruff format --check ."@,
                "python -m ruff check ."@,
                "python -m pytest"@,
            ]
            &&& rest && !seen.go_mod && !seen.pyproject_toml && seen.pom_xml ==> stack == "java"@
                && found.commands == seq!["mvn verify"@]
            &&& rest && !seen.go_mod && !seen.pyproject_toml && !seen.pom_xml && gradle ==> stack
                == "java"@ && found.commands == seq!["./gradlew test"@]
            &&& rest && !seen.go_mod && !seen.pyproject_toml && !seen.pom_xml && !gradle
                && !seen.pubspec_yaml ==> stack == "unknown"@ && found.commands.len() == 0
            &&& found.config.max_retries == max_retries
            &&& found.config.default_workflow == "default"@
        }),
{
}

/// A package is handled by the tool that it names, before its version, or else by the one whose lock
/// file is there.
pub proof fn law_package_manager_is_recognised(
    seen: RepoSeenView,
    facts: PackageFactsView,
    version: Seq<char>,
)
    requires
        !version.contains('@'),
    ensures
        facts.manager == Some("pnpm@"@ + version) ==> manager_of(seen, Some(facts))
            == PackageManager::Pnpm,
        facts.manager == Some("yarn@"@ + version) ==> manager_of(seen, Some(facts))
            == PackageManager::Yarn,
        facts.manager == Some("bun@"@ + version) ==> manager_of(seen, Some(facts))
            == PackageManager::Bun,
        facts.manager == Some("npm@"@ + version) ==> manager_of(seen, Some(facts))
            == PackageManager::Npm,
        seen.bun_lockb ==> manager_of(seen, None) == PackageManager::Bun,
        !seen.bun_lockb && seen.pnpm_lock_yaml ==> manager_of(seen, None) == PackageManager::Pnpm,
        !seen.bun_lockb && !seen.pnpm_lock_yaml && seen.yarn_lock ==> manager_of(seen, None)
            == PackageManager::Yarn,
        !seen.bun_lockb && !seen.pnpm_lock_yaml && !seen.yarn_lock ==> manager_of(seen, None)
            == PackageManager::Npm,
        facts.manager is None ==> manager_of(seen, Some(facts)) == manager_of(seen, None),
{
    reveal_strlit("pnpm@");
    reveal_strlit("yarn@");
    reveal_strlit("bun@");
    reveal_strlit("npm@");
    reveal_strlit("pnpm");
    reveal_strlit("yarn");
    reveal_strlit("bun");
    reveal_strlit("npm");
    assert("pnpm"@.len() == 4 && "yarn"@.len() == 4 && "bun"@.len() == 3 && "npm"@.len() == 3);
    assert("pnpm"@[0] == 'p' && "yarn"@[0] == 'y' && "bun"@[0] == 'b' && "npm"@[0] == 'n');
    assert("pnpm@"@ =~= "pnpm"@.push('@'));
    assert("yarn@"@ =~= "yarn"@.push('@'));
    assert("bun@"@ =~= "bun"@.push('@'));
    assert("npm@"@ =~= "npm"@.push('@'));
    assert(forall|k: int| 0 <= k < 4 ==> "pnpm"@[k] != '@');
    assert(forall|k: int| 0 <= k < 4 ==> "yarn"@[k] != '@');
    assert(forall|k: int| 0 <= k < 3 ==> "bun"@[k] != '@');
    assert(forall|k: int| 0 <= k < 3 ==> "npm"@[k] != '@');
    lemma_first_part("pnpm"@, '@', version);
    lemma_first_part("yarn"@, '@', version);
    lemma_first_part("bun"@, '@', version);
    lemma_first_part("npm"@, '@', version);
}

/// The first part of a text is what stands before the first of the characters that part it.
pub proof fn lemma_first_part(front: Seq<char>, c: char, rest: Seq<char>)
    requires
        !front.contains(c),
    ensures
        split(front.push(c) + rest, c).len() > 1,
        split(front.push(c) + rest, c)[0] == front,
    decreases rest.len(),
{
    let s = front.push(c) + rest;
    if rest.len() == 0 {
        assert(s =~= front.push(c));
        assert(s.drop_last() =~= front);
        lemma_one_part(front, c);
    } else {
        let shorter = rest.drop_last();
        lemma_first_part(front, c, shorter);
        assert(s.drop_last() =~= front.push(c) + shorter);
    }
}

proof fn lemma_one_part(s: Seq<char>, c: char)
    requires
        !s.contains(c),
    ensures
        split(s, c) == seq![s],
    decreases s.len(),
{
    if s.len() > 0 {
        let rest = s.drop_last();
        assert(!rest.contains(c)) by {
            if rest.contains(c) {
                let k = rest.index_of(c);
                assert(s[k] == c);
            }
        }
        assert(s.last() != c) by {
            assert(s[s.len() - 1] == s.last());
        }
        lemma_one_part(rest, c);
        assert(rest.push(s.last()) =~= s);
        assert(split(s, c) =~= seq![s]);
    } else {
        assert(s =~= Seq::<char>::empty());
    }
}

/// A phase is given by its name, or by its name and a model with a colon between them.
pub proof fn law_phase_with_a_model(name: Seq<char>, model: Seq<char>)
    requires
        name.len() > 0,
        model.len() > 0,
        !name.contains(':'),
        trim(name) == name,
        trim(model) == model,
        trim(name + ":"@ + model) == name + ":"@ + model,
    ensures
        phase_entry(name) == Some((name, PhaseDefView { model: None, duty: None, gate: None })),
        phase_entry(name + ":"@ + model) == Some(
            (name, PhaseDefView { model: Some(model), duty: None, gate: None }),
        ),
{
    reveal_strlit(":");
    lemma_no_colon(name, 0);
    let pair = name + ":"@ + model;
    assert(pair.subrange(name.len() as int, name.len() as int + 1) =~= ":"@);
    lemma_colon_at(pair, 0, name.len() as int);
    assert(pair.take(name.len() as int) =~= name);
    assert(pair.skip(name.len() as int + 1) =~= model);
}

proof fn lemma_no_colon(s: Seq<char>, i: int)
    requires
        !s.contains(':'),
        0 <= i,
    ensures
        find_from(s, ":"@, i) is None,
    decreases s.len() - i + 1,
{
    reveal_strlit(":");
    if i + 1 <= s.len() {
        if s.subrange(i, i + 1) == ":"@ {
            assert(s.subrange(i, i + 1)[0] == s[i]);
            assert(s[i] == ':');
        }
        lemma_no_colon(s, i + 1);
    }
}

proof fn lemma_colon_at(s: Seq<char>, i: int, at: int)
    requires
        0 <= i <= at < s.len(),
        s.subrange(at, at + 1) == ":"@,
        forall|j: int| i <= j < at ==> #[trigger] s[j] != ':',
    ensures
        find_from(s, ":"@, i) == Some(at),
    decreases at - i,
{
    reveal_strlit(":");
    if i < at {
        if s.subrange(i, i + 1) == ":"@ {
            assert(s.subrange(i, i + 1)[0] == s[i]);
        }
        lemma_colon_at(s, i + 1, at);
    }
}

/// A project is set up from what is said of it: its stack, without spaces around it, and its phases,
/// between the two that every workflow has. Without anything said, a request to look around is
/// made; what is left out while something is said is asked for.
pub proof fn law_init_command(
    project: ProjectView,
    flags: InitFlagsView,
    seen: RepoSeenView,
    facts: Option<PackageFactsView>,
    files: AgentFilesView,
)
    ensures
        ({
            let r = init_step(project, flags, seen, facts, files);
            &&& flags.stack is None && flags.phases is None ==> r is Ok && r->Ok_0 is Prompt
            &&& flags.stack is Some && flags.phases is None ==> r == Err::<
                InitStepView,
                InitErrorView,
            >(InitErrorView::MissingFlags { missing: seq!["--phases"@] })
            &&& flags.stack is None && flags.phases is Some ==> r == Err::<
                InitStepView,
                InitErrorView,
            >(InitErrorView::MissingFlags { missing: seq!["--stack"@] })
            &&& flags.stack is Some && flags.phases is Some && blank(flags.stack->0) ==> r == Err::<
                InitStepView,
                InitErrorView,
            >(InitErrorView::MissingFlags { missing: seq!["--stack"@] })
            &&& r is Ok && r->Ok_0 is WriteConfig ==> {
                let config = r->Ok_0->config;
                let phases = phases_in(flags.phases->0)->Ok_0;
                &&& phases_in(flags.phases->0) is Ok
                &&& config.stack == trim(flags.stack->0)
                &&& config.default_workflow == "default"@
                &&& config.max_retries == project.global_config.default_max_retries
                &&& config.workflows.len() == 1
                &&& config.workflows[0].0 == "default"@
                &&& config.workflows[0].1 == seq!["pending"@] + keys(phases).filter(
                    |p: Seq<char>| in_the_middle(p),
                ) + seq!["done"@]
                &&& r->Ok_0->path == path_join(project.state_dir, "config.json"@)
            }
        }),
{
    if flags.stack is Some {
        lemma_trim_blank(flags.stack->0);
    }
    if flags.phases is Some && phases_in(flags.phases->0) is Ok {
        lemma_normalized(keys(phases_in(flags.phases->0)->Ok_0));
    }
}

} // verus!
