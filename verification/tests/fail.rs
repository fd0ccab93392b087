//! Tasks that fail, and those that fail with them.

use agira::commands::fail::{cascade_fail_dependents, fail_task_flow, run_fail_at, FailError};
use agira::commands::report::ProjectFiles;
use agira::engine::config::{Config, ConfigRead, PhaseDef};
use agira::engine::global_config::GlobalConfig;
use agira::engine::hooks::HookConfig;
use agira::engine::project::Project;
use agira::engine::tasks::{TaskStore, TasksRead};
use agira::time::Instant;

const STAMP: &str = "2026-06-11T12:00:00+00:00";

fn config(max_retries: u32) -> Config {
    Config::new_single_workflow(
        "test",
        vec![
            ("enriching".to_owned(), PhaseDef::default()),
            ("implementing".to_owned(), PhaseDef::default()),
        ],
        max_retries,
    )
}

fn make_store(max_retries: u32) -> TaskStore {
    TaskStore::new("/state", TasksRead::Missing, &config(max_retries)).expect("create store")
}

fn project() -> Project {
    Project {
        git_root: "/work/test".to_owned(),
        slug: "test".to_owned(),
        state_dir: "/state".to_owned(),
        global_config: GlobalConfig::for_program("agent"),
        global_hooks: HookConfig::default(),
        project_hooks: HookConfig::default(),
    }
}

#[test]
fn cascade_direct_dependent_is_failed() {
    let mut store = make_store(1);

    let task_a = store
        .add_task("A", "", vec![], None, "default".to_owned())
        .unwrap();
    let task_b = store
        .add_task("B", "", vec![task_a.id.clone()], None, "default".to_owned())
        .unwrap();

    store
        .fail_task(&task_a.id, "failed (max retries): root cause")
        .unwrap();

    cascade_fail_dependents(&mut store, &task_a.id, "done", STAMP).unwrap();

    let b = store.get_task(&task_b.id).unwrap();
    assert_eq!(b.state, "failed", "B must be cascade-failed");

    let last_history = b.history.last().unwrap();
    assert_eq!(last_history.to, "failed");
    assert_eq!(
        last_history.reason,
        format!("dependency {} failed", task_a.id)
    );
}

#[test]
fn cascade_direct_dependent_retry_count_unchanged() {
    let mut store = make_store(1);

    let task_a = store
        .add_task("A", "", vec![], None, "default".to_owned())
        .unwrap();
    let task_b = store
        .add_task("B", "", vec![task_a.id.clone()], None, "default".to_owned())
        .unwrap();

    store
        .fail_task(&task_a.id, "failed (max retries): root cause")
        .unwrap();

    cascade_fail_dependents(&mut store, &task_a.id, "done", STAMP).unwrap();

    let b = store.get_task(&task_b.id).unwrap();
    assert_eq!(b.retry_count, 0, "cascade must not increment retry_count");
}

#[test]
fn cascade_transitive_chain_both_dependents_failed() {
    let mut store = make_store(1);

    let task_a = store
        .add_task("A", "", vec![], None, "default".to_owned())
        .unwrap();
    let task_b = store
        .add_task("B", "", vec![task_a.id.clone()], None, "default".to_owned())
        .unwrap();
    let task_c = store
        .add_task("C", "", vec![task_b.id.clone()], None, "default".to_owned())
        .unwrap();

    store
        .fail_task(&task_a.id, "failed (max retries): root cause")
        .unwrap();

    cascade_fail_dependents(&mut store, &task_a.id, "done", STAMP).unwrap();

    let b = store.get_task(&task_b.id).unwrap();
    assert_eq!(b.state, "failed");
    assert_eq!(
        b.history.last().unwrap().reason,
        format!("dependency {} failed", task_a.id)
    );

    let c = store.get_task(&task_c.id).unwrap();
    assert_eq!(c.state, "failed");
    assert_eq!(
        c.history.last().unwrap().reason,
        format!("dependency {} failed", task_b.id)
    );
}

#[test]
fn cascade_diamond_failure_wins_over_done() {
    let mut store = make_store(1);

    let task_a = store
        .add_task("A", "", vec![], None, "default".to_owned())
        .unwrap();
    let task_b = store
        .add_task("B", "", vec![], None, "default".to_owned())
        .unwrap();
    let task_c = store
        .add_task(
            "C",
            "",
            vec![task_a.id.clone(), task_b.id.clone()],
            None,
            "default".to_owned(),
        )
        .unwrap();

    store
        .fail_task(&task_a.id, "failed (max retries): root cause")
        .unwrap();

    store.next_phase(&task_b.id).unwrap();
    store.next_phase(&task_b.id).unwrap();
    store.next_phase(&task_b.id).unwrap();

    cascade_fail_dependents(&mut store, &task_a.id, "done", STAMP).unwrap();

    let c = store.get_task(&task_c.id).unwrap();
    assert_eq!(
        c.state, "failed",
        "C must be cascade-failed even though B is done"
    );
    assert_eq!(
        c.history.last().unwrap().reason,
        format!("dependency {} failed", task_a.id)
    );
}

#[test]
fn cascade_skips_already_failed_dependent() {
    let mut store = make_store(1);

    let task_a = store
        .add_task("A", "", vec![], None, "default".to_owned())
        .unwrap();
    let task_b = store
        .add_task("B", "", vec![task_a.id.clone()], None, "default".to_owned())
        .unwrap();

    store
        .fail_task(&task_b.id, "failed (max retries): pre-failed")
        .unwrap();

    store
        .fail_task(&task_a.id, "failed (max retries): root cause")
        .unwrap();

    let history_len_before = store.get_task(&task_b.id).unwrap().history.len();
    cascade_fail_dependents(&mut store, &task_a.id, "done", STAMP).unwrap();
    let history_len_after = store.get_task(&task_b.id).unwrap().history.len();

    assert_eq!(
        history_len_before, history_len_after,
        "already-failed task must not receive a new history entry"
    );
}

#[test]
fn cascade_skips_done_dependent() {
    let mut store = make_store(1);

    let task_a = store
        .add_task("A", "", vec![], None, "default".to_owned())
        .unwrap();
    let task_b = store
        .add_task("B", "", vec![], None, "default".to_owned())
        .unwrap();

    store.next_phase(&task_b.id).unwrap();
    store.next_phase(&task_b.id).unwrap();
    store.next_phase(&task_b.id).unwrap();

    store
        .fail_task(&task_a.id, "failed (max retries): root cause")
        .unwrap();

    let task_c = store
        .add_task("C", "", vec![task_a.id.clone()], None, "default".to_owned())
        .unwrap();

    let history_len_b_before = store.get_task(&task_b.id).unwrap().history.len();

    cascade_fail_dependents(&mut store, &task_a.id, "done", STAMP).unwrap();

    let b = store.get_task(&task_b.id).unwrap();
    assert_eq!(b.state, "done", "done task must not be cascade-failed");
    assert_eq!(
        b.history.len(),
        history_len_b_before,
        "done task must not receive a new history entry"
    );
    assert_eq!(store.get_task(&task_c.id).unwrap().state, "failed");
}

#[test]
fn cascade_skips_blocked_dependent() {
    let mut store = make_store(3);

    let task_a = store
        .add_task("A", "", vec![], None, "default".to_owned())
        .unwrap();
    let task_b = store
        .add_task("B", "", vec![task_a.id.clone()], None, "default".to_owned())
        .unwrap();

    store.block_task(&task_b.id, "manual block").unwrap();

    store
        .fail_task(&task_a.id, "failed (max retries): root cause")
        .unwrap();

    cascade_fail_dependents(&mut store, &task_a.id, "done", STAMP).unwrap();

    let b = store.get_task(&task_b.id).unwrap();
    assert_eq!(b.state, "blocked", "blocked task must remain blocked");
}

#[test]
fn cascade_history_entry_has_correct_from_field() {
    let mut store = make_store(1);

    let task_a = store
        .add_task("A", "", vec![], None, "default".to_owned())
        .unwrap();
    let task_b = store
        .add_task("B", "", vec![task_a.id.clone()], None, "default".to_owned())
        .unwrap();

    let b_state_before = store.get_task(&task_b.id).unwrap().state.clone();

    store
        .fail_task(&task_a.id, "failed (max retries): root cause")
        .unwrap();

    cascade_fail_dependents(&mut store, &task_a.id, "done", STAMP).unwrap();

    let b = store.get_task(&task_b.id).unwrap();
    let history = b.history.last().unwrap();
    assert_eq!(
        history.from.as_deref(),
        Some(b_state_before.as_str()),
        "`from` must be the task state at cascade time"
    );
}

#[test]
fn a_task_is_retried_until_its_last_attempt_fails() {
    let project = project();
    let mut store = make_store(2);
    let task = store
        .add_task("A", "", vec![], Some("implementing"), "default".to_owned())
        .unwrap();

    let (first, result) = fail_task_flow(&project, &mut store, "done", &task.id, "no luck", STAMP);
    result.unwrap();
    assert_eq!(store.get_task(&task.id).unwrap().state, "enriching");
    assert_eq!(store.get_task(&task.id).unwrap().retry_count, 1);
    assert_eq!(first.report.output, vec!["task-001 retrying (1/2): no luck"]);

    let (last, result) = fail_task_flow(&project, &mut store, "done", &task.id, "again", STAMP);
    result.unwrap();
    let task = store.get_task(&task.id).unwrap();
    assert_eq!(task.state, "failed");
    assert_eq!(
        task.history.last().unwrap().reason,
        "failed (max retries): again"
    );
    assert_eq!(last.report.output, vec!["task-001 failed — max retries reached"]);
    assert_eq!(last.report.tasks.expect("what is saved"), store.all_tasks());
}

#[test]
fn what_cannot_fail_is_refused() {
    let project = project();
    let now = Instant::parse("2026-06-11T12:00:00Z").unwrap();
    let files = ProjectFiles {
        config: ConfigRead::Parsed { contents: String::new(), config: config(3) },
        tasks: TasksRead::Missing,
    };

    assert_eq!(
        run_fail_at(&project, &files, "task-001", None, now).1,
        Err(FailError::MissingReason)
    );
    assert_eq!(
        run_fail_at(&project, &files, "task-001", Some(" "), now).1,
        Err(FailError::EmptyReason)
    );
    assert_eq!(
        run_fail_at(&project, &files, "task-001", Some("x"), now).1,
        Err(FailError::TaskNotFound { id: "task-001".to_owned() })
    );

    let mut store = make_store(3);
    let done = store
        .add_task("A", "", vec![], Some("done"), "default".to_owned())
        .unwrap();
    let failed = store
        .add_task("B", "", vec![], None, "default".to_owned())
        .unwrap();
    store.fail_task(&failed.id, "x").unwrap();
    assert_eq!(
        fail_task_flow(&project, &mut store, "done", &done.id, "x", STAMP).1,
        Err(FailError::AlreadyTerminal { id: done.id.clone(), state: "done".to_owned() })
    );
    assert_eq!(
        fail_task_flow(&project, &mut store, "done", &failed.id, "x", STAMP).1,
        Err(FailError::AlreadyFailed { id: failed.id.clone() })
    );
}

#[test]
fn tasks_that_fail_along_are_saved_after_the_first_commands() {
    let project = project();
    let mut store = make_store(1);
    let root = store
        .add_task("A", "", vec![], Some("implementing"), "default".to_owned())
        .unwrap();
    let waiting = store
        .add_task("B", "", vec![root.id.clone()], None, "default".to_owned())
        .unwrap();

    let (report, result) = fail_task_flow(&project, &mut store, "done", &root.id, "x", STAMP);
    result.unwrap();

    let first = report.report.tasks.expect("the task that failed is saved");
    assert_eq!(first[0].state, "failed");
    assert_eq!(first[1].state, waiting.state);
    assert_eq!(report.report.hooks.len(), 1);
    assert_eq!(report.report.hooks[0].event, "failed");
    let then = report.along.expect("the task that waited is saved");
    assert_eq!(then[1].state, "failed");
    assert_eq!(then, store.all_tasks());
    assert_eq!(report.closing.expect("nothing is left to do").event, "all_tasks_done");

    let mut store = make_store(1);
    for title in ["A", "B"] {
        store.add_task(title, "", vec![], Some("implementing"), "default".to_owned()).unwrap();
    }
    let (report, _) = fail_task_flow(&project, &mut store, "done", "task-001", "x", STAMP);
    assert!(report.along.is_none() && report.closing.is_none());
}
