//! The runners of a project and the leases that they hold.

use agira::engine::runner::{
    is_lease_expired, RunnerRegistry, RunnerStore, RunnerStoreError, RunnersRead,
};
use agira::time::Instant;

const MINUTES: i64 = 60;

fn test_store() -> RunnerStore {
    RunnerStore::new("/state", RunnersRead::Missing).expect("create runner store")
}

fn reload(store: &RunnerStore) -> RunnerStore {
    let registry: RunnerRegistry = store.registry().clone();
    RunnerStore::new("/state", RunnersRead::Parsed { registry }).expect("reload runner store")
}

fn fixed_now() -> Instant {
    Instant::parse("2026-06-11T12:00:00Z").expect("parse fixed time")
}

#[test]
fn missing_file_loads_empty_registry() {
    let store = test_store();

    assert_eq!(store.runners_path(), "/state/runner/runners.json");
    assert!(store.registry().runners.is_empty());
}

#[test]
fn atomic_round_trip_persists_and_reloads_runner_fields() {
    let mut store = test_store();

    let runner = store
        .register("runner-a", "agent-tmux", "agira-test")
        .expect("register runner");

    let fresh_store = reload(&store);
    let reloaded = fresh_store
        .get_runner("runner-a")
        .expect("reloaded runner exists");

    assert_eq!(reloaded, &runner);
    assert!(fresh_store.runners_path().ends_with("runner/runners.json"));
}

#[test]
fn register_is_idempotent_and_refreshes_existing_runner() {
    let mut store = test_store();

    store
        .register("runner-a", "agent-tmux", "old-session")
        .expect("register runner");
    let refreshed = store
        .register("runner-a", "agent-tmux", "new-session")
        .expect("refresh runner");

    assert_eq!(store.registry().runners.len(), 1);
    assert_eq!(refreshed.status, "running");
    assert_eq!(refreshed.tmux_session, "new-session");
    assert!(refreshed.current_task.is_none());
    assert!(refreshed.lease_expires_at.is_none());
    assert!(refreshed.last_heartbeat.is_none());
    assert!(refreshed.idle_since.is_none());
}

#[test]
fn deregister_removes_present_runner_and_persists() {
    let mut store = test_store();

    store
        .register("runner-a", "agent-tmux", "agira-test")
        .expect("register runner");
    let removed = store.deregister("runner-a").expect("deregister runner");

    assert_eq!(removed.id, "runner-a");
    assert!(store.get_runner("runner-a").is_none());

    let fresh_store = reload(&store);
    assert!(fresh_store.get_runner("runner-a").is_none());
}

#[test]
fn deregister_absent_runner_returns_not_found() {
    let mut store = test_store();

    let result = store.deregister("missing-runner");

    assert!(matches!(result, Err(RunnerStoreError::NotFound)));
}

#[test]
fn acquire_sets_task_lease_and_heartbeat_with_fixed_clock() {
    let mut store = test_store();
    let now = fixed_now();

    store
        .register("runner-a", "agent-tmux", "agira-test")
        .expect("register runner");
    let runner = store
        .acquire_lease("runner-a", "task-118", 5 * MINUTES, now)
        .expect("acquire lease");

    assert_eq!(runner.current_task.as_deref(), Some("task-118"));
    assert_eq!(
        runner.last_heartbeat.as_deref(),
        Some("2026-06-11T12:00:00+00:00")
    );
    assert!(runner.idle_since.is_none());
    assert_eq!(
        runner.lease_expires_at.as_deref(),
        Some("2026-06-11T12:05:00+00:00")
    );
}

#[test]
fn renew_extends_expiry_and_refreshes_heartbeat() {
    let mut store = test_store();
    let now = fixed_now();

    store
        .register("runner-a", "agent-tmux", "agira-test")
        .expect("register runner");
    store
        .acquire_lease("runner-a", "task-118", 5 * MINUTES, now)
        .expect("acquire lease");
    let renewed_at = now.plus_seconds(3 * MINUTES);
    let runner = store
        .renew_lease("runner-a", 5 * MINUTES, renewed_at)
        .expect("renew lease");

    assert_eq!(runner.current_task.as_deref(), Some("task-118"));
    assert_eq!(
        runner.last_heartbeat.as_deref(),
        Some("2026-06-11T12:03:00+00:00")
    );
    assert!(runner.idle_since.is_none());
    assert_eq!(
        runner.lease_expires_at.as_deref(),
        Some("2026-06-11T12:08:00+00:00")
    );
}

#[test]
fn expiry_predicate_reports_boundary_with_fixed_clock() {
    let now = fixed_now();
    let expires_at = now.plus_seconds(5 * MINUTES).text();

    assert!(!is_lease_expired(
        Some(&expires_at),
        now.plus_seconds(4 * MINUTES)
    ));
    assert!(is_lease_expired(
        Some(&expires_at),
        now.plus_seconds(5 * MINUTES)
    ));
    assert!(is_lease_expired(
        Some(&expires_at),
        now.plus_seconds(6 * MINUTES)
    ));
    assert!(is_lease_expired(None, now));
}

#[test]
fn unparseable_timestamp_is_treated_as_live_fail_safe() {
    assert!(!is_lease_expired(Some("not-a-timestamp"), fixed_now()));
}

#[test]
fn release_clears_task_lease_and_heartbeat() {
    let mut store = test_store();
    let now = fixed_now();

    store
        .register("runner-a", "agent-tmux", "agira-test")
        .expect("register runner");
    store
        .acquire_lease("runner-a", "task-118", 5 * MINUTES, now)
        .expect("acquire lease");
    let runner = store.release_lease("runner-a").expect("release lease");

    assert!(runner.current_task.is_none());
    assert!(runner.lease_expires_at.is_none());
    assert!(runner.last_heartbeat.is_none());
}

#[test]
fn runner_events_record_idle_ready_and_heartbeat() {
    let mut store = test_store();
    let now = fixed_now();

    store
        .register("runner-a", "agent-tmux", "agira-test")
        .expect("register runner");
    let idle = store
        .record_idle("runner-a", now)
        .expect("record idle")
        .expect("runner updated");

    assert_eq!(
        idle.idle_since.as_deref(),
        Some("2026-06-11T12:00:00+00:00")
    );

    let ready = store
        .record_ready("runner-a", now.plus_seconds(1))
        .expect("record ready")
        .expect("runner updated");
    assert!(ready.idle_since.is_none());
    assert_eq!(
        ready.last_heartbeat.as_deref(),
        Some("2026-06-11T12:00:01+00:00")
    );

    store
        .record_idle("runner-a", now.plus_seconds(2))
        .expect("record idle")
        .expect("runner updated");
    let heartbeat = store
        .record_heartbeat("runner-a", now.plus_seconds(3))
        .expect("record heartbeat")
        .expect("runner updated");
    assert!(heartbeat.idle_since.is_none());
    assert_eq!(
        heartbeat.last_heartbeat.as_deref(),
        Some("2026-06-11T12:00:03+00:00")
    );
}

#[test]
fn runner_event_for_unknown_runner_is_noop() {
    let mut store = test_store();

    assert!(store
        .record_ready("missing", fixed_now())
        .expect("ready no-op")
        .is_none());
    assert!(store
        .record_idle("missing", fixed_now())
        .expect("idle no-op")
        .is_none());
    assert!(store
        .record_heartbeat("missing", fixed_now())
        .expect("heartbeat no-op")
        .is_none());
    assert!(store.registry().runners.is_empty());
}

#[test]
fn two_distinct_runner_ids_coexist_without_collision() {
    let mut store = test_store();

    store
        .register("runner-a", "agent-tmux", "agira-a")
        .expect("register runner a");
    store
        .register("runner-b", "agent-tmux", "agira-b")
        .expect("register runner b");

    assert_eq!(store.registry().runners.len(), 2);
    assert_eq!(
        store
            .get_runner("runner-a")
            .expect("runner a exists")
            .tmux_session,
        "agira-a"
    );
    assert_eq!(
        store
            .get_runner("runner-b")
            .expect("runner b exists")
            .tmux_session,
        "agira-b"
    );
}

#[test]
fn a_registry_that_cannot_be_read_is_reported() {
    assert!(matches!(
        RunnerStore::new("/s", RunnersRead::NoDirectory { message: "m".to_owned() }),
        Err(RunnerStoreError::Io { .. })
    ));
    assert!(matches!(
        RunnerStore::new("/s", RunnersRead::Unreadable { message: "m".to_owned() }),
        Err(RunnerStoreError::Io { .. })
    ));
    assert!(matches!(
        RunnerStore::new("/s", RunnersRead::Malformed { message: "m".to_owned() }),
        Err(RunnerStoreError::Deserialize { .. })
    ));
    let mut store = test_store();
    assert_eq!(
        store.acquire_lease("nobody", "task-001", MINUTES, fixed_now()),
        Err(RunnerStoreError::NotFound)
    );
    store.register_at("runner-a", "agent-tmux", "s", fixed_now()).unwrap();
    assert_eq!(
        store.record_process_group("runner-a", Some(42)).unwrap().pgid,
        Some(42)
    );
    assert_eq!(
        store.get_runner("runner-a").unwrap().registered_at,
        "2026-06-11T12:00:00+00:00"
    );
}
