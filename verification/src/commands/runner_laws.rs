//! What is known of a runner, and what is done about it.

use vstd::prelude::*;

use crate::commands::runner::{
    age, cold_starting, event_told, heartbeat_stale, lost_task, runner_in, runner_status,
    said_ready, session_of, starting, stopping, type_of, works_in, ColdStart, ColdStartFilesView,
    HEARTBEAT_STALENESS_SECS, HOOK_READY_MAX_ATTEMPTS, KICKOFF_SUBMIT_MAX_ATTEMPTS, PaneSeenView,
    RunnerActionView, RunnerEventKind, RunnerStatusOutputView, SessionSeenView, StartNextView,
    TUI_READY_MAX_ATTEMPTS,
};
use crate::commands::status::{plain_liveness, runner_header};
use crate::engine::project::ProjectView;
use crate::engine::runner::{
    law_change_leaves_other_runners, law_deregistered_runner_is_gone, lease_expired,
    RunnerRegistryView, RunnerStoreView, RunnerView, RunnersReadView,
};
use crate::string_map::{has_key, lemma_lookup_at, lemma_put, lookup, sorted};
use crate::text::{blank, decimal, first_where, lemma_first_where, trim};
use crate::time::{law_time_is_a_line, on_the_line, rfc3339, rfc3339_text, Instant};

verus! {

/// A runner that takes up a task holds it, was heard of now, and is not idle; all else stays. Its
/// lease is over once so many seconds have gone by, and not before.
pub proof fn law_lease_lasts_its_time(
    r: RunnerView,
    task: Option<Seq<char>>,
    ttl: int,
    now: Instant,
    at: Instant,
)
    requires
        i64::MIN <= now.secs + ttl <= i64::MAX,
        now.nanos < 1_000_000_000,
        at.nanos < 1_000_000_000,
        rfc3339(rfc3339_text(now.moved_by(ttl))) == Some(now.moved_by(ttl)),
    ensures
        ({
            let u = r.leased(task, ttl, now);
            &&& u.current_task == task
            &&& u.last_heartbeat == Some(rfc3339_text(now))
            &&& u.idle_since is None
            &&& u == RunnerView {
                current_task: u.current_task,
                lease_expires_at: u.lease_expires_at,
                last_heartbeat: u.last_heartbeat,
                idle_since: u.idle_since,
                ..r
            }
            &&& lease_expired(u.lease_expires_at, at) <==> on_the_line(at) >= on_the_line(now) + ttl
                * 1_000_000_000
        }),
{
    law_time_is_a_line(now, now, ttl);
    law_time_is_a_line(at, now.moved_by(ttl), 0);
}

/// A runner that gives a task back holds none and was not heard of; one that is heard of is not
/// idle; one that is idle keeps what it holds. A new runner holds nothing.
pub proof fn law_runner_says_where_it_is(
    r: RunnerView,
    id: Seq<char>,
    runner_type: Seq<char>,
    session: Seq<char>,
    now: Instant,
)
    ensures
        r.released() == (RunnerView {
            current_task: None,
            lease_expires_at: None,
            last_heartbeat: None,
            ..r
        }),
        r.heard(now) == (RunnerView {
            last_heartbeat: Some(rfc3339_text(now)),
            idle_since: None,
            ..r
        }),
        r.idle(now) == (RunnerView { idle_since: Some(rfc3339_text(now)), ..r }),
        ({
            let u = RunnerView::fresh(id, runner_type, session, now);
            &&& u.id == id
            &&& u.runner_type == runner_type
            &&& u.tmux_session == session
            &&& u.status == "running"@
            &&& u.registered_at == rfc3339_text(now)
            &&& u.current_task is None
            &&& u.lease_expires_at is None
            &&& u.last_heartbeat is None
            &&& u.idle_since is None
            &&& u.pgid is None
        }),
{
}

/// A runner is out of hearing where it was last heard of more than ten minutes ago.
pub proof fn law_ten_minutes_of_silence(text: Seq<char>, at: Instant, now: Instant)
    requires
        rfc3339(text) == Some(at),
        at.nanos < 1_000_000_000,
        now.nanos < 1_000_000_000,
    ensures
        heartbeat_stale(Some(text), now) <==> on_the_line(now) - on_the_line(at) > 600
            * 1_000_000_000,
        !heartbeat_stale(None, now),
{
    law_time_is_a_line(now, at, 0);
}

/// A task is lost to its runner where the lease on it is over or was never there, or the runner is
/// out of hearing; a runner that holds no task has none to lose.
pub proof fn law_task_is_lost(
    r: RunnerView,
    lease: Seq<char>,
    end: Instant,
    beat: Seq<char>,
    at: Instant,
    now: Instant,
)
    requires
        rfc3339(lease) == Some(end),
        rfc3339(beat) == Some(at),
        end.nanos < 1_000_000_000,
        at.nanos < 1_000_000_000,
        now.nanos < 1_000_000_000,
    ensures
        r.current_task is None ==> !lost_task(r, now),
        r.current_task is Some && r.lease_expires_at is None ==> lost_task(r, now),
        r.current_task is Some && r.lease_expires_at == Some(lease) && r.last_heartbeat == Some(beat)
            ==> (lost_task(r, now) <==> on_the_line(now) >= on_the_line(end) || on_the_line(now)
            - on_the_line(at) > 600 * 1_000_000_000),
        r.current_task is Some && r.lease_expires_at == Some(lease) && r.last_heartbeat is None ==> (
        lost_task(r, now) <==> on_the_line(now) >= on_the_line(end)),
{
    law_time_is_a_line(now, end, 0);
    law_ten_minutes_of_silence(beat, at, now);
}

/// An age is told in the largest of seconds, minutes, hours and days of which there is one whole,
/// cut to whole ones; an age below zero is none.
pub proof fn law_age_is_told(seconds: int)
    ensures
        seconds < 0 ==> age(seconds) == decimal(0) + "s ago"@,
        0 <= seconds < 60 ==> age(seconds) == decimal(seconds as nat) + "s ago"@,
        forall|n: nat|
            n * 60 <= seconds < n * 60 + 60 && 1 <= n < 60 ==> age(seconds) == #[trigger] decimal(n)
                + "m ago"@,
        forall|n: nat|
            n * 3_600 <= seconds < n * 3_600 + 3_600 && 1 <= n < 24 ==> age(seconds)
                == #[trigger] decimal(n) + "h ago"@,
        forall|n: nat|
            n * 86_400 <= seconds < n * 86_400 + 86_400 && 1 <= n ==> age(seconds)
                == #[trigger] decimal(n) + "d ago"@,
{
    assert forall|n: nat| n * 60 <= seconds < n * 60 + 60 && 1 <= n < 60 implies age(seconds)
        == #[trigger] decimal(n) + "m ago"@ by {
        assert(seconds as nat / 60 == n);
    }
    assert forall|n: nat|
        n * 3_600 <= seconds < n * 3_600 + 3_600 && 1 <= n < 24 implies age(seconds)
        == #[trigger] decimal(n) + "h ago"@ by {
        assert(seconds as nat / 3_600 == n);
    }
    assert forall|n: nat|
        n * 86_400 <= seconds < n * 86_400 + 86_400 && 1 <= n implies age(seconds)
        == #[trigger] decimal(n) + "d ago"@ by {
        assert(seconds as nat / 86_400 == n);
    }
}

/// A runner works for a project where its session is named after the slug of the project. The first
/// one that does is the runner of the project.
pub open spec fn is_runner_of(project: ProjectView, s: RunnerStoreView, i: int) -> bool {
    &&& 0 <= i < s.runners.len()
    &&& s.runners[i].1.tmux_session == "agira-"@ + project.slug
    &&& forall|j: int|
        0 <= j < i ==> (#[trigger] s.runners[j]).1.tmux_session != "agira-"@ + project.slug
}

/// A project has no runner where no session is named after its slug.
pub open spec fn has_no_runner(project: ProjectView, s: RunnerStoreView) -> bool {
    forall|j: int|
        0 <= j < s.runners.len() ==> (#[trigger] s.runners[j]).1.tmux_session != "agira-"@
            + project.slug
}

/// The runner of a project is the first one whose session is named after the slug of the project.
pub proof fn law_runner_of_project_is_found(project: ProjectView, s: RunnerStoreView)
    ensures
        forall|i: int| #[trigger]
            is_runner_of(project, s, i) ==> runner_in(s.runners, session_of(project)) == Some(
                s.runners[i].1,
            ),
        has_no_runner(project, s) <==> runner_in(s.runners, session_of(project)) is None,
{
    let p = works_in(session_of(project));
    lemma_first_where(s.runners, p);
    assert forall|i: int| #[trigger] is_runner_of(project, s, i) implies runner_in(
        s.runners,
        session_of(project),
    ) == Some(s.runners[i].1) by {
        assert(p(s.runners[i]));
        let f = first_where(s.runners, p)->0;
        if f < i {
            assert(s.runners[f].1.tmux_session != "agira-"@ + project.slug);
        }
    }
    if first_where(s.runners, p) is None {
        assert forall|j: int| 0 <= j < s.runners.len() implies (
        #[trigger] s.runners[j]).1.tmux_session != "agira-"@ + project.slug by {
            assert(!p(s.runners[j]));
        }
    }
}

/// What is known of the runner of a project: it is stale where its session is gone or its task is
/// lost, a zombie where nothing or a shell runs in the session, and else idle or live by whether it
/// holds a task.
pub proof fn law_runner_status_is_told(
    project: ProjectView,
    registry: RunnerRegistryView,
    s: RunnerStoreView,
    i: int,
    pane: PaneSeenView,
    now: Instant,
)
    requires
        s.runners == registry.runners,
        is_runner_of(project, s, i),
    ensures
        ({
            let read = RunnersReadView::Parsed { registry };
            let r = s.runners[i].1;
            let gone = runner_status(project, read, SessionSeenView::Absent, now);
            let there = runner_status(project, read, SessionSeenView::Present { pane }, now);
            &&& gone is Ok
            &&& gone->Ok_0.runner_id == Some(r.id)
            &&& gone->Ok_0.runner_type == Some(r.runner_type)
            &&& gone->Ok_0.current_task == r.current_task
            &&& gone->Ok_0.liveness == "stale"@
            &&& there is Ok <==> !(pane is Failed)
            &&& there is Ok ==> {
                &&& there->Ok_0.runner_id == Some(r.id)
                &&& there->Ok_0.runner_type == Some(r.runner_type)
                &&& there->Ok_0.current_task == r.current_task
                &&& there->Ok_0.heartbeat_age == gone->Ok_0.heartbeat_age
            }
            &&& pane is Dead || pane is Shell ==> there->Ok_0.liveness == "zombie"@
            &&& pane is Agent && r.current_task is None ==> there->Ok_0.liveness == "idle"@
            &&& pane is Agent && r.current_task is Some && lost_task(r, now)
                ==> there->Ok_0.liveness == "stale"@
            &&& pane is Agent && r.current_task is Some && !lost_task(r, now)
                ==> there->Ok_0.liveness == "live"@
            &&& r.last_heartbeat is None ==> gone->Ok_0.heartbeat_age == Some("none"@)
            &&& forall|at: Instant|
                r.last_heartbeat is Some && rfc3339(r.last_heartbeat->0) == Some(at)
                    ==> gone->Ok_0.heartbeat_age == Some(#[trigger] age(now.seconds_since(at)))
        }),
{
    law_runner_of_project_is_found(project, s);
}

/// Where a project has no runner, that is said, and whether there is a session all the same.
pub proof fn law_missing_runner_is_told(
    project: ProjectView,
    registry: RunnerRegistryView,
    s: RunnerStoreView,
    pane: PaneSeenView,
    now: Instant,
)
    requires
        s.runners == registry.runners,
        has_no_runner(project, s),
    ensures
        ({
            let read = RunnersReadView::Parsed { registry };
            let gone = runner_status(project, read, SessionSeenView::Absent, now);
            let there = runner_status(project, read, SessionSeenView::Present { pane }, now);
            &&& gone is Ok
            &&& gone->Ok_0.runner_id is None
            &&& gone->Ok_0.liveness == "no runner registered"@
            &&& there is Ok
            &&& there->Ok_0.runner_id is None
            &&& there->Ok_0.liveness == "session running but no runner registered"@
        }),
{
    law_runner_of_project_is_found(project, s);
}

/// Starting the runner of a project whose session is gone, dead or left to a shell forgets the
/// runner, ends what is left of it, and asks for a new process. One that is at work is kept: where
/// its task is lost the task is given back, and where it holds none it is told to go on.
pub proof fn law_start_decides(
    project: ProjectView,
    s: RunnerStoreView,
    i: int,
    pane: PaneSeenView,
    now: Instant,
)
    requires
        sorted(s.runners),
        is_runner_of(project, s, i),
        s.runners[i].0 == s.runners[i].1.id,
    ensures
        ({
            let r = s.runners[i].1;
            let gone = starting(project, s, SessionSeenView::Absent, now);
            let there = starting(project, s, SessionSeenView::Present { pane }, now);
            let kill = RunnerActionView::KillSession { session: "agira-"@ + project.slug };
            &&& gone is Ok
            &&& gone->Ok_0.1.next is ColdStart
            &&& !has_key(gone->Ok_0.0.runners, r.id)
            &&& forall|a: RunnerActionView| #[trigger]
                gone->Ok_0.1.actions.contains(a) ==> !(a is KillSession)
            &&& there is Ok <==> !(pane is Failed)
            &&& pane is Dead || pane is Shell ==> {
                &&& there->Ok_0.1.next is ColdStart
                &&& !has_key(there->Ok_0.0.runners, r.id)
                &&& there->Ok_0.1.actions[0] == kill
                &&& r.pgid is Some ==> there->Ok_0.1.actions.contains(
                    RunnerActionView::KillProcessGroup { pgid: r.pgid->0 },
                )
                &&& r.pgid is Some ==> gone->Ok_0.1.actions.contains(
                    RunnerActionView::KillProcessGroup { pgid: r.pgid->0 },
                )
                &&& there->Ok_0.1.actions.last() == (RunnerActionView::SaveRunners {
                    registry: RunnerRegistryView { runners: there->Ok_0.0.runners },
                })
            }
            &&& pane is Agent && r.current_task is Some && !lost_task(r, now) ==> {
                &&& there->Ok_0.0 == s
                &&& there->Ok_0.1.actions.len() == 0
                &&& there->Ok_0.1.next matches StartNextView::Finished { output }
                    && output.runner_id == r.id && output.already_running
            }
            &&& pane is Agent && r.current_task is None ==> {
                &&& there->Ok_0.0 == s
                &&& there->Ok_0.1.actions.len() == 0
                &&& there->Ok_0.1.next matches StartNextView::Kick { output } && output.runner_id
                    == r.id && output.already_running
            }
            &&& pane is Agent && r.current_task is Some && lost_task(r, now) ==> {
                &&& lookup(there->Ok_0.0.runners, r.id) == Some(
                    RunnerView {
                        current_task: None,
                        lease_expires_at: None,
                        last_heartbeat: None,
                        ..r
                    },
                )
                &&& there->Ok_0.1.actions == seq![
                    RunnerActionView::SaveRunners {
                        registry: RunnerRegistryView { runners: there->Ok_0.0.runners },
                    },
                ]
                &&& there->Ok_0.1.next matches StartNextView::Kick { output } && output.runner_id
                    == r.id && output.already_running
            }
        }),
{
    law_runner_of_project_is_found(project, s);
    let r = s.runners[i].1;
    lemma_lookup_there(s.runners, i);
    law_deregistered_runner_is_gone(s, r.id);
    law_change_leaves_other_runners(s, r.id, |x: RunnerView| x.released());
    let there = starting(project, s, SessionSeenView::Present { pane }, now);
    let gone = starting(project, s, SessionSeenView::Absent, now);
    if pane is Dead || pane is Shell {
        let actions = there->Ok_0.1.actions;
        if r.pgid is Some {
            assert(actions[1] == (RunnerActionView::KillProcessGroup { pgid: r.pgid->0 }));
            assert(gone->Ok_0.1.actions[0] == (RunnerActionView::KillProcessGroup {
                pgid: r.pgid->0,
            }));
        }
    }
}

proof fn lemma_lookup_there(runners: Seq<(Seq<char>, RunnerView)>, i: int)
    requires
        sorted(runners),
        0 <= i < runners.len(),
    ensures
        lookup(runners, runners[i].0) == Some(runners[i].1),
        has_key(runners, runners[i].0),
{
    lemma_lookup_at(runners, i);
}

/// A session that belongs to no runner of the project is not touched; without one a new process is
/// asked for at once.
pub proof fn law_start_without_runner(
    project: ProjectView,
    s: RunnerStoreView,
    pane: PaneSeenView,
    now: Instant,
)
    requires
        has_no_runner(project, s),
    ensures
        starting(project, s, SessionSeenView::Present { pane }, now) is Err,
        ({
            let gone = starting(project, s, SessionSeenView::Absent, now);
            &&& gone is Ok
            &&& gone->Ok_0.0 == s
            &&& gone->Ok_0.1.actions.len() == 0
            &&& gone->Ok_0.1.next is ColdStart
        }),
{
    law_runner_of_project_is_found(project, s);
}

/// A runner is stopped where it is there and its session is: the session is closed, and the runner
/// is forgotten.
pub proof fn law_stop_decides(project: ProjectView, s: RunnerStoreView, i: int, pane: PaneSeenView)
    requires
        sorted(s.runners),
        is_runner_of(project, s, i),
        s.runners[i].0 == s.runners[i].1.id,
    ensures
        stopping(project, s, SessionSeenView::Absent) is Err,
        ({
            let done = stopping(project, s, SessionSeenView::Present { pane });
            &&& done is Ok
            &&& !has_key(done->Ok_0.0.runners, s.runners[i].1.id)
            &&& done->Ok_0.1[0] == (RunnerActionView::KillSession {
                session: "agira-"@ + project.slug,
            })
            &&& done->Ok_0.1.last() == (RunnerActionView::SaveRunners {
                registry: RunnerRegistryView { runners: done->Ok_0.0.runners },
            })
        }),
{
    law_runner_of_project_is_found(project, s);
    let r = s.runners[i].1;
    lemma_lookup_there(s.runners, i);
    law_change_leaves_other_runners(s, r.id, |x: RunnerView| x.released());
    let released = s.change(r.id, |x: RunnerView| x.released())->Ok_0.0;
    law_deregistered_runner_is_gone(released, r.id);
}

/// An event is noted for the runner that it names, without the spaces around the name: a runner
/// that is ready or gives a sign of life was heard of now and is not idle, one that says it is idle
/// is so from now on. An event that names no runner, or none that is there, changes nothing.
pub proof fn law_event_is_noted(
    s: RunnerStoreView,
    runner_id: Option<Seq<char>>,
    now: Instant,
)
    requires
        sorted(s.runners),
    ensures
        ({
            let ready = event_told(s, RunnerEventKind::Ready, runner_id, now);
            let beat = event_told(s, RunnerEventKind::Heartbeat, runner_id, now);
            let idle = event_told(s, RunnerEventKind::Idle, runner_id, now);
            let named = runner_id is Some && !blank(runner_id->0);
            let id = trim(runner_id->0);
            let r = lookup(s.runners, id);
            &&& ready is Ok
            &&& beat == ready
            &&& idle is Ok
            &&& !named || r is None ==> ready->Ok_0.0 == s && idle->Ok_0.0 == s
            &&& named && r is Some ==> {
                &&& lookup(ready->Ok_0.0.runners, id) == Some(
                    RunnerView {
                        last_heartbeat: Some(rfc3339_text(now)),
                        idle_since: None,
                        ..r->0
                    },
                )
                &&& lookup(idle->Ok_0.0.runners, id) == Some(
                    RunnerView { idle_since: Some(rfc3339_text(now)), ..r->0 },
                )
                &&& forall|other: Seq<char>|
                    other != id ==> #[trigger] lookup(ready->Ok_0.0.runners, other) == lookup(
                        s.runners,
                        other,
                    )
                &&& forall|other: Seq<char>|
                    other != id ==> #[trigger] lookup(idle->Ok_0.0.runners, other) == lookup(
                        s.runners,
                        other,
                    )
            }
        }),
{
    let id = trim(runner_id->0);
    if runner_id is Some && !blank(runner_id->0) && lookup(s.runners, id) is Some {
        let r = lookup(s.runners, id)->0;
        lemma_put(s.runners, id, r.heard(now));
        lemma_put(s.runners, id, r.idle(now));
    }
}

/// The three events have names; no other name is one.
pub proof fn law_events_are_named(name: Seq<char>)
    ensures
        RunnerEventKind::named(name) is Some <==> name == "ready"@ || name == "idle"@ || name
            == "heartbeat"@,
        RunnerEventKind::named("ready"@) == Some(RunnerEventKind::Ready),
        RunnerEventKind::named("idle"@) == Some(RunnerEventKind::Idle),
        RunnerEventKind::named("heartbeat"@) == Some(RunnerEventKind::Heartbeat),
{
    reveal_strlit("ready");
    reveal_strlit("idle");
    reveal_strlit("heartbeat");
    assert("ready"@.len() == 5 && "idle"@.len() == 4 && "heartbeat"@.len() == 9);
}

/// A runner has said that it is ready where it holds no task and was heard of or is idle.
pub proof fn law_ready_runner_is_free(r: RunnerView)
    ensures
        said_ready(r) <==> r.current_task is None && (r.idle_since is Some || r.last_heartbeat
            is Some),
        TUI_READY_MAX_ATTEMPTS == 60,
        HOOK_READY_MAX_ATTEMPTS == 60,
        KICKOFF_SUBMIT_MAX_ATTEMPTS == 3,
        HEARTBEAT_STALENESS_SECS == 600,
{
}

/// A new process has a name of its own, a session named after the slug of the project, and the type
/// that was asked for, without spaces around it, where one was. Its runner is noted, its session is
/// opened and what it shows is kept in the log of the project.
pub proof fn law_cold_start_is_noted(
    project: ProjectView,
    program: Seq<char>,
    agent: Seq<char>,
    runner_type: Option<Seq<char>>,
    s: RunnerStoreView,
    files: ColdStartFilesView,
    now: Instant,
    pid: u32,
)
    requires
        sorted(s.runners),
        cold_starting(project, program, agent, runner_type, s, files, now, pid) is Ok,
    ensures
        ({
            let (after, start) = cold_starting(
                project,
                program,
                agent,
                runner_type,
                s,
                files,
                now,
                pid,
            )->Ok_0;
            let id = start.output.runner_id;
            let session = "agira-"@ + project.slug;
            let r = lookup(after.runners, id);
            let n = start.actions.len();
            &&& r is Some
            &&& r->0.id == id
            &&& r->0.tmux_session == session
            &&& r->0.current_task is None
            &&& r->0.registered_at == rfc3339_text(now)
            &&& runner_type is Some && !blank(runner_type->0) ==> r->0.runner_type == trim(
                runner_type->0,
            )
            &&& runner_type is None || blank(runner_type->0) ==> r->0.runner_type == program
                + "-tmux"@
            &&& forall|other: Seq<char>|
                other != id ==> #[trigger] lookup(after.runners, other) == lookup(s.runners, other)
            &&& start.output.session_name == session
            &&& !start.output.already_running
            &&& n >= 3
            &&& start.actions[n - 3] is NewSession
            &&& start.actions[n - 3]->NewSession_session == session
            &&& start.actions[n - 2] is PipePane
            &&& start.actions[n - 2]->PipePane_session == session
            &&& start.actions[n - 1] == (RunnerActionView::SaveRunners {
                registry: RunnerRegistryView { runners: after.runners },
            })
            &&& n == 3 || (n == 4 && start.actions[0] is WriteFile)
        }),
{
    let (after, start) = cold_starting(
        project,
        program,
        agent,
        runner_type,
        s,
        files,
        now,
        pid,
    )->Ok_0;
    let id = start.output.runner_id;
    lemma_put(
        s.runners,
        id,
        RunnerView::fresh(id, type_of(program, runner_type), session_of(project), now),
    );
}

/// The line about a runner tells what it does: which task it holds and when it was last heard of
/// while it is live, that it is idle where it holds none, and that it is stale where it is.
pub proof fn law_runner_line(status: RunnerStatusOutputView)
    ensures
        ({
            let line = runner_header(status);
            let label = "runner "@ + status.runner_id->0 + " ("@ + status.runner_type->0 + ")"@;
            let known = status.runner_id is Some && status.runner_type is Some
                && status.heartbeat_age is Some;
            &&& status.runner_id is None && status.liveness == "unregistered"@ ==> line
                == "runner session running but unregistered"@
            &&& status.runner_id is None && status.liveness != "unregistered"@ ==> line
                == "no runner"@
            &&& known && status.liveness == "live"@ && status.current_task is Some ==> line
                == status.current_task->0 + " held by "@ + label + ", heartbeat "@
                + status.heartbeat_age->0
            &&& known && (status.liveness == "idle"@ || status.liveness == "live"@
                && status.current_task is None) ==> line == label + " idle, heartbeat "@
                + status.heartbeat_age->0
            &&& known && status.liveness != "idle"@ && status.liveness != "live"@
                && status.current_task is Some ==> line == status.current_task->0 + " held by "@
                + label + " — stale"@
            &&& known && status.liveness != "idle"@ && status.liveness != "live"@
                && status.current_task is None ==> line == label + " stale"@
        }),
{
    reveal_strlit("live");
    reveal_strlit("idle");
    assert("live"@[0] == 'l' && "idle"@[0] == 'i');
}

/// The state of a runner is told as one of six words.
pub proof fn law_liveness_is_plain(status: RunnerStatusOutputView)
    ensures
        status.liveness == "live"@ && status.current_task is Some ==> plain_liveness(status)
            == "live"@,
        status.liveness == "live"@ && status.current_task is None ==> plain_liveness(status)
            == "idle"@,
        status.liveness == "idle"@ || status.liveness == "stale"@ || status.liveness == "zombie"@
            ==> plain_liveness(status) == status.liveness,
        status.liveness == "no runner registered"@ ==> plain_liveness(status) == "none"@,
        status.liveness == "session running but no runner registered"@ ==> plain_liveness(status)
            == "unregistered"@,
{
    reveal_strlit("live");
    reveal_strlit("idle");
    reveal_strlit("stale");
    reveal_strlit("zombie");
    reveal_strlit("no runner registered");
    reveal_strlit("session running but no runner registered");
    assert("live"@[0] == 'l');
    assert("idle"@[0] == 'i');
    assert("stale"@[0] == 's' && "stale"@.len() == 5);
    assert("zombie"@[0] == 'z');
    assert("no runner registered"@[0] == 'n');
    assert("session running but no runner registered"@.len() == 40);
}

} // verus!
