//! Runners: the processes that work on tasks, and the leases they hold on them.

use vstd::prelude::*;

use crate::duplicate::{outcome, Duplicate};
use crate::string_map::{has_key, lemma_put, lemma_without, lookup, put, sorted, without, StringMap};
use crate::text::{join_path, path_join};
use crate::time::{rfc3339, rfc3339_text, Instant, MAX_SECONDS, MIN_SECONDS};

verus! {

/// A process that works on tasks.
#[derive(Debug, PartialEq, Eq)]
pub struct Runner {
    pub id: String,
    pub runner_type: String,
    pub tmux_session: String,
    pub pgid: Option<i32>,
    pub status: String,
    pub current_task: Option<String>,
    pub lease_expires_at: Option<String>,
    pub last_heartbeat: Option<String>,
    pub idle_since: Option<String>,
    pub registered_at: String,
}

/// The contents of a `Runner`.
#[verifier::ext_equal]
pub struct RunnerView {
    pub id: Seq<char>,
    pub runner_type: Seq<char>,
    pub tmux_session: Seq<char>,
    pub pgid: Option<i32>,
    pub status: Seq<char>,
    pub current_task: Option<Seq<char>>,
    pub lease_expires_at: Option<Seq<char>>,
    pub last_heartbeat: Option<Seq<char>>,
    pub idle_since: Option<Seq<char>>,
    pub registered_at: Seq<char>,
}

impl View for Runner {
    type V = RunnerView;

    open spec fn view(&self) -> RunnerView {
        RunnerView {
            id: self.id@,
            runner_type: self.runner_type@,
            tmux_session: self.tmux_session@,
            pgid: self.pgid.deep_view(),
            status: self.status@,
            current_task: self.current_task.deep_view(),
            lease_expires_at: self.lease_expires_at.deep_view(),
            last_heartbeat: self.last_heartbeat.deep_view(),
            idle_since: self.idle_since.deep_view(),
            registered_at: self.registered_at@,
        }
    }
}

impl DeepView for Runner {
    type V = RunnerView;

    open spec fn deep_view(&self) -> RunnerView {
        self@
    }
}

impl Duplicate for Runner {
    fn duplicate(&self) -> (r: Self) {
        Runner {
            id: self.id.duplicate(),
            runner_type: self.runner_type.duplicate(),
            tmux_session: self.tmux_session.duplicate(),
            pgid: self.pgid.duplicate(),
            status: self.status.duplicate(),
            current_task: self.current_task.duplicate(),
            lease_expires_at: self.lease_expires_at.duplicate(),
            last_heartbeat: self.last_heartbeat.duplicate(),
            idle_since: self.idle_since.duplicate(),
            registered_at: self.registered_at.duplicate(),
        }
    }
}

impl Clone for Runner {
    fn clone(&self) -> (r: Self)
        ensures
            r@ == self@,
    {
        self.duplicate()
    }
}


/// The runners of a project, by their ids.
#[derive(Debug, PartialEq, Eq)]
pub struct RunnerRegistry {
    pub runners: StringMap<Runner>,
}

/// The contents of a `RunnerRegistry`.
#[verifier::ext_equal]
pub struct RunnerRegistryView {
    pub runners: Seq<(Seq<char>, RunnerView)>,
}

impl View for RunnerRegistry {
    type V = RunnerRegistryView;

    open spec fn view(&self) -> RunnerRegistryView {
        RunnerRegistryView {
            runners: self.runners@,
        }
    }
}

impl DeepView for RunnerRegistry {
    type V = RunnerRegistryView;

    open spec fn deep_view(&self) -> RunnerRegistryView {
        self@
    }
}

impl Duplicate for RunnerRegistry {
    fn duplicate(&self) -> (r: Self) {
        RunnerRegistry {
            runners: self.runners.duplicate(),
        }
    }
}

impl Clone for RunnerRegistry {
    fn clone(&self) -> (r: Self)
        ensures
            r@ == self@,
    {
        self.duplicate()
    }
}


impl Default for RunnerRegistry {
    fn default() -> (r: Self)
        ensures
            r@.runners == Seq::<(Seq<char>, RunnerView)>::empty(),
    {
        RunnerRegistry { runners: StringMap::new() }
    }
}

/// Why the runners of a project could not be changed.
#[derive(Debug, PartialEq, Eq)]
pub enum RunnerStoreError {
    NotFound,
    Io { path: String, message: String },
    Serialize { message: String },
    Deserialize { message: String },
}

/// The contents of a `RunnerStoreError`.
#[verifier::ext_equal]
pub enum RunnerStoreErrorView {
    NotFound,
    Io { path: Seq<char>, message: Seq<char> },
    Serialize { message: Seq<char> },
    Deserialize { message: Seq<char> },
}

impl View for RunnerStoreError {
    type V = RunnerStoreErrorView;

    open spec fn view(&self) -> RunnerStoreErrorView {
        match self {
            RunnerStoreError::NotFound => RunnerStoreErrorView::NotFound,
            RunnerStoreError::Io { path, message } => RunnerStoreErrorView::Io { path: path@, message: message@ },
            RunnerStoreError::Serialize { message } => RunnerStoreErrorView::Serialize { message: message@ },
            RunnerStoreError::Deserialize { message } => RunnerStoreErrorView::Deserialize { message: message@ },
        }
    }
}

impl DeepView for RunnerStoreError {
    type V = RunnerStoreErrorView;

    open spec fn deep_view(&self) -> RunnerStoreErrorView {
        self@
    }
}

impl Duplicate for RunnerStoreError {
    fn duplicate(&self) -> (r: Self) {
        match self {
            RunnerStoreError::NotFound => RunnerStoreError::NotFound,
            RunnerStoreError::Io { path, message } => RunnerStoreError::Io { path: path.duplicate(), message: message.duplicate() },
            RunnerStoreError::Serialize { message } => RunnerStoreError::Serialize { message: message.duplicate() },
            RunnerStoreError::Deserialize { message } => RunnerStoreError::Deserialize { message: message.duplicate() },
        }
    }
}

impl Clone for RunnerStoreError {
    fn clone(&self) -> (r: Self)
        ensures
            r@ == self@,
    {
        self.duplicate()
    }
}

impl RunnerStoreErrorView {
    /// The text shown for the error.
    pub open spec fn message(self) -> Seq<char> {
        match self {
            RunnerStoreErrorView::NotFound => "runner not found"@,
            RunnerStoreErrorView::Io { path, .. } => "failed to write or read "@ + path,
            RunnerStoreErrorView::Serialize { .. } => "failed to serialize runners"@,
            RunnerStoreErrorView::Deserialize { .. } => "failed to deserialize runners"@,
        }
    }
}

impl RunnerStoreError {
    /// The text shown for the error.
    pub fn message(&self) -> (r: String)
        ensures
            r@ == self@.message(),
    {
        match self {
            RunnerStoreError::NotFound => "runner not found".to_owned(),
            RunnerStoreError::Io { path, .. } => {
                let mut out = "failed to write or read ".to_owned();
                out.push_str(path.as_str());
                out
            },
            RunnerStoreError::Serialize { .. } => "failed to serialize runners".to_owned(),
            RunnerStoreError::Deserialize { .. } => "failed to deserialize runners".to_owned(),
        }
    }
}


/// What reading the runners of a project gave.
#[derive(Debug, PartialEq, Eq)]
pub enum RunnersRead {
    /// The directory of the runners could not be made.
    NoDirectory { message: String },
    /// There is no such file.
    Missing,
    /// The file could not be read.
    Unreadable { message: String },
    /// The file holds no runners.
    Malformed { message: String },
    /// The runners that the file holds.
    Parsed { registry: RunnerRegistry },
}

/// The contents of a `RunnersRead`.
#[verifier::ext_equal]
pub enum RunnersReadView {
    NoDirectory { message: Seq<char> },
    Missing,
    Unreadable { message: Seq<char> },
    Malformed { message: Seq<char> },
    Parsed { registry: RunnerRegistryView },
}

impl View for RunnersRead {
    type V = RunnersReadView;

    open spec fn view(&self) -> RunnersReadView {
        match self {
            RunnersRead::NoDirectory { message } => RunnersReadView::NoDirectory { message: message@ },
            RunnersRead::Missing => RunnersReadView::Missing,
            RunnersRead::Unreadable { message } => RunnersReadView::Unreadable { message: message@ },
            RunnersRead::Malformed { message } => RunnersReadView::Malformed { message: message@ },
            RunnersRead::Parsed { registry } => RunnersReadView::Parsed { registry: registry@ },
        }
    }
}

impl DeepView for RunnersRead {
    type V = RunnersReadView;

    open spec fn deep_view(&self) -> RunnersReadView {
        self@
    }
}

impl Duplicate for RunnersRead {
    fn duplicate(&self) -> (r: Self) {
        match self {
            RunnersRead::NoDirectory { message } => RunnersRead::NoDirectory { message: message.duplicate() },
            RunnersRead::Missing => RunnersRead::Missing,
            RunnersRead::Unreadable { message } => RunnersRead::Unreadable { message: message.duplicate() },
            RunnersRead::Malformed { message } => RunnersRead::Malformed { message: message.duplicate() },
            RunnersRead::Parsed { registry } => RunnersRead::Parsed { registry: registry.duplicate() },
        }
    }
}

impl Clone for RunnersRead {
    fn clone(&self) -> (r: Self)
        ensures
            r@ == self@,
    {
        self.duplicate()
    }
}


/// The contents of a store of runners.
#[verifier::ext_equal]
pub struct RunnerStoreView {
    pub runners_path: Seq<char>,
    pub runners: Seq<(Seq<char>, RunnerView)>,
}

/// The runners of a project.
#[derive(Debug, PartialEq, Eq)]
pub struct RunnerStore {
    runners_path: String,
    registry: RunnerRegistry,
}

impl View for RunnerStore {
    type V = RunnerStoreView;

    closed spec fn view(&self) -> RunnerStoreView {
        RunnerStoreView { runners_path: self.runners_path@, runners: self.registry@.runners }
    }
}

impl DeepView for RunnerStore {
    type V = RunnerStoreView;

    open spec fn deep_view(&self) -> RunnerStoreView {
        self@
    }
}

/// The store that a project's runners make up.
pub open spec fn opened_runners(state_dir: Seq<char>, read: RunnersReadView) -> Result<
    RunnerStoreView,
    RunnerStoreErrorView,
> {
    let dir = path_join(state_dir, "runner"@);
    let runners_path = path_join(dir, "runners.json"@);
    match read {
        RunnersReadView::NoDirectory { message } => Err(
            RunnerStoreErrorView::Io { path: dir, message },
        ),
        RunnersReadView::Missing => Ok(RunnerStoreView { runners_path, runners: Seq::empty() }),
        RunnersReadView::Unreadable { message } => Err(
            RunnerStoreErrorView::Io { path: runners_path, message },
        ),
        RunnersReadView::Malformed { message } => Err(
            RunnerStoreErrorView::Deserialize { message },
        ),
        RunnersReadView::Parsed { registry } => Ok(
            RunnerStoreView { runners_path, runners: registry.runners },
        ),
    }
}

/// What a change of a store comes to: the store after it and what it returns, or a refusal that
/// leaves the store as it was.
pub open spec fn runner_stepped<T>(
    before: RunnerStoreView,
    after: RunnerStoreView,
    returned: Result<T, RunnerStoreErrorView>,
    step: Result<(RunnerStoreView, T), RunnerStoreErrorView>,
) -> bool {
    match step {
        Ok((s, x)) => after == s && returned == Ok::<T, RunnerStoreErrorView>(x),
        Err(e) => after == before && returned == Err::<T, RunnerStoreErrorView>(e),
    }
}

impl RunnerView {
    /// A runner that was just registered.
    pub open spec fn fresh(
        id: Seq<char>,
        runner_type: Seq<char>,
        tmux_session: Seq<char>,
        now: Instant,
    ) -> RunnerView {
        RunnerView {
            id,
            runner_type,
            tmux_session,
            pgid: None,
            status: "running"@,
            current_task: None,
            lease_expires_at: None,
            last_heartbeat: None,
            idle_since: None,
            registered_at: rfc3339_text(now),
        }
    }

    /// The runner with a lease that runs out some seconds from now.
    pub open spec fn leased(self, task: Option<Seq<char>>, ttl: int, now: Instant) -> RunnerView {
        RunnerView {
            current_task: task,
            lease_expires_at: Some(rfc3339_text(now.moved_by(ttl))),
            last_heartbeat: Some(rfc3339_text(now)),
            idle_since: None,
            ..self
        }
    }

    /// The runner without a lease.
    pub open spec fn released(self) -> RunnerView {
        RunnerView { current_task: None, lease_expires_at: None, last_heartbeat: None, ..self }
    }

    /// The runner that just gave a sign of life.
    pub open spec fn heard(self, now: Instant) -> RunnerView {
        RunnerView { last_heartbeat: Some(rfc3339_text(now)), idle_since: None, ..self }
    }

    /// The runner that just ran out of work.
    pub open spec fn idle(self, now: Instant) -> RunnerView {
        RunnerView { idle_since: Some(rfc3339_text(now)), ..self }
    }
}

impl RunnerStoreView {
    /// The store with a runner under an id.
    pub open spec fn with(self, id: Seq<char>, runner: RunnerView) -> RunnerStoreView {
        RunnerStoreView { runners: put(self.runners, id, runner), ..self }
    }

    /// Registering a runner, in place of one with the same id.
    pub open spec fn register(self, runner: RunnerView) -> Result<
        (RunnerStoreView, RunnerView),
        RunnerStoreErrorView,
    > {
        Ok((self.with(runner.id, runner), runner))
    }

    /// Taking a runner out.
    pub open spec fn deregister(self, id: Seq<char>) -> Result<
        (RunnerStoreView, RunnerView),
        RunnerStoreErrorView,
    > {
        match lookup(self.runners, id) {
            None => Err(RunnerStoreErrorView::NotFound),
            Some(r) => Ok(
                (RunnerStoreView { runners: without(self.runners, id), ..self }, r),
            ),
        }
    }

    /// Putting another form of a runner in its place; an unknown runner is refused.
    pub open spec fn change(self, id: Seq<char>, f: spec_fn(RunnerView) -> RunnerView) -> Result<
        (RunnerStoreView, RunnerView),
        RunnerStoreErrorView,
    > {
        match lookup(self.runners, id) {
            None => Err(RunnerStoreErrorView::NotFound),
            Some(r) => Ok((self.with(id, f(r)), f(r))),
        }
    }

    /// Putting another form of a runner in its place; an unknown runner is passed over.
    pub open spec fn touch(self, id: Seq<char>, f: spec_fn(RunnerView) -> RunnerView) -> Result<
        (RunnerStoreView, Option<RunnerView>),
        RunnerStoreErrorView,
    > {
        match lookup(self.runners, id) {
            None => Ok((self, None)),
            Some(r) => Ok((self.with(id, f(r)), Some(f(r)))),
        }
    }
}

/// A lease that is not there or that ran out. A time that cannot be read counts as one that has not
/// come, so that no task is taken from a runner that may be at work.
pub open spec fn lease_expired(lease: Option<Seq<char>>, now: Instant) -> bool {
    match lease {
        None => true,
        Some(text) => match rfc3339(text) {
            None => false,
            Some(end) => now.at_or_after(end),
        },
    }
}

/// Whether a lease is not there or ran out.
pub fn is_lease_expired(lease_expires_at: Option<&str>, now: Instant) -> (r: bool)
    ensures
        r == lease_expired(lease_expires_at.deep_view(), now),
{
    match lease_expires_at {
        None => true,
        Some(text) => match Instant::parse(text) {
            None => false,
            Some(end) => now.reached(&end),
        },
    }
}

impl RunnerStore {
    /// The store of a project's runners.
    pub fn new(state_dir: &str, read: RunnersRead) -> (r: Result<RunnerStore, RunnerStoreError>)
        ensures
            outcome(r) == opened_runners(state_dir@, read@),
    {
        let dir = join_path(state_dir, "runner");
        let runners_path = join_path(dir.as_str(), "runners.json");
        match read {
            RunnersRead::NoDirectory { message } => Err(
                RunnerStoreError::Io { path: dir, message },
            ),
            RunnersRead::Missing => Ok(
                RunnerStore { runners_path, registry: RunnerRegistry::default() },
            ),
            RunnersRead::Unreadable { message } => Err(
                RunnerStoreError::Io { path: runners_path, message },
            ),
            RunnersRead::Malformed { message } => Err(RunnerStoreError::Deserialize { message }),
            RunnersRead::Parsed { registry } => Ok(RunnerStore { runners_path, registry }),
        }
    }

    /// Takes other runners in place of the present ones.
    pub fn save(&mut self, registry: RunnerRegistry)
        ensures
            final(self)@ == (RunnerStoreView { runners: registry@.runners, ..old(self)@ }),
    {
        self.registry = registry;
    }

    /// Where the runners are kept.
    pub fn runners_path(&self) -> (r: &str)
        ensures
            r@ == self@.runners_path,
    {
        self.runners_path.as_str()
    }

    /// The runners.
    pub fn registry(&self) -> (r: &RunnerRegistry)
        ensures
            r@.runners == self@.runners,
    {
        &self.registry
    }

    /// The runner with an id.
    pub fn get_runner(&self, id: &str) -> (r: Option<&Runner>)
        ensures
            r.deep_view() == lookup(self@.runners, id@),
    {
        self.registry.runners.get(id)
    }

    fn replace(&mut self, id: &str, runner: &Runner)
        ensures
            final(self)@ == old(self)@.with(id@, runner@),
    {
        let mut registry = self.registry.duplicate();
        registry.runners.insert(id.to_owned(), runner.duplicate());
        self.save(registry);
    }

    /// Registers a runner at a given time.
    pub fn register_at(&mut self, id: &str, runner_type: &str, tmux_session: &str, now: Instant) -> (r:
        Result<Runner, RunnerStoreError>)
        requires
            now.on_calendar(),
        ensures
            runner_stepped(
                old(self)@,
                final(self)@,
                outcome(r),
                old(self)@.register(RunnerView::fresh(id@, runner_type@, tmux_session@, now)),
            ),
    {
        let runner = Runner {
            id: id.to_owned(),
            runner_type: runner_type.to_owned(),
            tmux_session: tmux_session.to_owned(),
            pgid: None,
            status: "running".to_owned(),
            current_task: None,
            lease_expires_at: None,
            last_heartbeat: None,
            idle_since: None,
            registered_at: now.text(),
        };
        self.replace(id, &runner);
        Ok(runner)
    }

    /// Registers a runner.
    pub fn register(&mut self, id: &str, runner_type: &str, tmux_session: &str) -> (r: Result<
        Runner,
        RunnerStoreError,
    >)
        ensures
            exists|now: Instant|
                now.on_calendar() && runner_stepped(
                    old(self)@,
                    final(self)@,
                    outcome(r),
                    old(self)@.register(
                        #[trigger] RunnerView::fresh(id@, runner_type@, tmux_session@, now),
                    ),
                ),
    {
        self.register_at(id, runner_type, tmux_session, Instant::now())
    }

    /// Takes a runner out.
    pub fn deregister(&mut self, id: &str) -> (r: Result<Runner, RunnerStoreError>)
        ensures
            runner_stepped(old(self)@, final(self)@, outcome(r), old(self)@.deregister(id@)),
    {
        let runner: Runner = match self.registry.runners.get(id) {
            None => {
                return Err(RunnerStoreError::NotFound);
            },
            Some(runner) => runner.duplicate(),
        };
        let mut registry = self.registry.duplicate();
        registry.runners.remove(id);
        self.save(registry);
        Ok(runner)
    }

    /// Gives a runner a lease on a task for some seconds. Until they have passed the lease is
    /// live, and from then on it has run out.
    pub fn acquire_lease(&mut self, runner_id: &str, task_id: &str, ttl: i64, now: Instant) -> (r:
        Result<Runner, RunnerStoreError>)
        requires
            now.on_calendar(),
            MIN_SECONDS <= now.secs + ttl <= MAX_SECONDS,
        ensures
            runner_stepped(
                old(self)@,
                final(self)@,
                outcome(r),
                old(self)@.change(
                    runner_id@,
                    |x: RunnerView| x.leased(Some(task_id@), ttl as int, now),
                ),
            ),
            r is Ok && now.moved_by(ttl as int).plain() ==> forall|t: Instant| #[trigger]
                lease_expired(r->Ok_0@.lease_expires_at, t) == t.at_or_after(now.moved_by(ttl as int)),
    {
        let mut runner: Runner = match self.registry.runners.get(runner_id) {
            None => {
                return Err(RunnerStoreError::NotFound);
            },
            Some(runner) => runner.duplicate(),
        };
        let end = now.plus_seconds(ttl);
        runner.current_task = Some(task_id.to_owned());
        runner.lease_expires_at = Some(end.text());
        runner.last_heartbeat = Some(now.text());
        runner.idle_since = None;
        self.replace(runner_id, &runner);
        Ok(runner)
    }

    /// Gives the lease of a runner another term. Until it has passed the lease is live, and from
    /// then on it has run out.
    pub fn renew_lease(&mut self, runner_id: &str, ttl: i64, now: Instant) -> (r: Result<
        Runner,
        RunnerStoreError,
    >)
        requires
            now.on_calendar(),
            MIN_SECONDS <= now.secs + ttl <= MAX_SECONDS,
        ensures
            runner_stepped(
                old(self)@,
                final(self)@,
                outcome(r),
                old(self)@.change(
                    runner_id@,
                    |x: RunnerView| x.leased(x.current_task, ttl as int, now),
                ),
            ),
            r is Ok && now.moved_by(ttl as int).plain() ==> forall|t: Instant| #[trigger]
                lease_expired(r->Ok_0@.lease_expires_at, t) == t.at_or_after(now.moved_by(ttl as int)),
    {
        let mut runner: Runner = match self.registry.runners.get(runner_id) {
            None => {
                return Err(RunnerStoreError::NotFound);
            },
            Some(runner) => runner.duplicate(),
        };
        let end = now.plus_seconds(ttl);
        runner.lease_expires_at = Some(end.text());
        runner.last_heartbeat = Some(now.text());
        runner.idle_since = None;
        self.replace(runner_id, &runner);
        Ok(runner)
    }

    /// Takes the lease of a runner away.
    pub fn release_lease(&mut self, runner_id: &str) -> (r: Result<Runner, RunnerStoreError>)
        ensures
            runner_stepped(
                old(self)@,
                final(self)@,
                outcome(r),
                old(self)@.change(runner_id@, |x: RunnerView| x.released()),
            ),
    {
        let mut runner: Runner = match self.registry.runners.get(runner_id) {
            None => {
                return Err(RunnerStoreError::NotFound);
            },
            Some(runner) => runner.duplicate(),
        };
        runner.current_task = None;
        runner.lease_expires_at = None;
        runner.last_heartbeat = None;
        self.replace(runner_id, &runner);
        Ok(runner)
    }

    /// Records the process group of a runner.
    pub fn record_process_group(&mut self, runner_id: &str, pgid: Option<i32>) -> (r: Result<
        Runner,
        RunnerStoreError,
    >)
        ensures
            runner_stepped(
                old(self)@,
                final(self)@,
                outcome(r),
                old(self)@.change(runner_id@, |x: RunnerView| RunnerView { pgid, ..x }),
            ),
    {
        let mut runner: Runner = match self.registry.runners.get(runner_id) {
            None => {
                return Err(RunnerStoreError::NotFound);
            },
            Some(runner) => runner.duplicate(),
        };
        runner.pgid = pgid;
        self.replace(runner_id, &runner);
        Ok(runner)
    }

    /// Records that a runner is ready; an unknown runner is passed over.
    pub fn record_ready(&mut self, runner_id: &str, now: Instant) -> (r: Result<
        Option<Runner>,
        RunnerStoreError,
    >)
        requires
            now.on_calendar(),
        ensures
            runner_stepped(
                old(self)@,
                final(self)@,
                outcome(r),
                old(self)@.touch(runner_id@, |x: RunnerView| x.heard(now)),
            ),
    {
        self.record_activity(runner_id, now)
    }

    /// Records a sign of life of a runner; an unknown runner is passed over.
    pub fn record_heartbeat(&mut self, runner_id: &str, now: Instant) -> (r: Result<
        Option<Runner>,
        RunnerStoreError,
    >)
        requires
            now.on_calendar(),
        ensures
            runner_stepped(
                old(self)@,
                final(self)@,
                outcome(r),
                old(self)@.touch(runner_id@, |x: RunnerView| x.heard(now)),
            ),
    {
        self.record_activity(runner_id, now)
    }

    /// Records that a runner ran out of work; an unknown runner is passed over.
    pub fn record_idle(&mut self, runner_id: &str, now: Instant) -> (r: Result<
        Option<Runner>,
        RunnerStoreError,
    >)
        requires
            now.on_calendar(),
        ensures
            runner_stepped(
                old(self)@,
                final(self)@,
                outcome(r),
                old(self)@.touch(runner_id@, |x: RunnerView| x.idle(now)),
            ),
    {
        let mut runner: Runner = match self.registry.runners.get(runner_id) {
            None => {
                return Ok(None);
            },
            Some(runner) => runner.duplicate(),
        };
        runner.idle_since = Some(now.text());
        self.replace(runner_id, &runner);
        Ok(Some(runner))
    }

    fn record_activity(&mut self, runner_id: &str, now: Instant) -> (r: Result<
        Option<Runner>,
        RunnerStoreError,
    >)
        requires
            now.on_calendar(),
        ensures
            runner_stepped(
                old(self)@,
                final(self)@,
                outcome(r),
                old(self)@.touch(runner_id@, |x: RunnerView| x.heard(now)),
            ),
    {
        let mut runner: Runner = match self.registry.runners.get(runner_id) {
            None => {
                return Ok(None);
            },
            Some(runner) => runner.duplicate(),
        };
        runner.last_heartbeat = Some(now.text());
        runner.idle_since = None;
        self.replace(runner_id, &runner);
        Ok(Some(runner))
    }
}

// ---------------------------------------------------------------------------------------------
// Laws
// ---------------------------------------------------------------------------------------------

/// A runner that was registered is found under its id, and the others stay as they were.
pub proof fn law_registered_runner_is_found(s: RunnerStoreView, runner: RunnerView)
    requires
        sorted(s.runners),
    ensures
        s.register(runner) matches Ok((after, returned)) && returned == runner && lookup(
            after.runners,
            runner.id,
        ) == Some(runner) && forall|other: Seq<char>|
            other != runner.id ==> #[trigger] lookup(after.runners, other) == lookup(
                s.runners,
                other,
            ),
{
    lemma_put(s.runners, runner.id, runner);
}

/// A runner that was taken out is no longer there, and the others stay as they were.
pub proof fn law_deregistered_runner_is_gone(s: RunnerStoreView, id: Seq<char>)
    requires
        sorted(s.runners),
    ensures
        s.deregister(id) is Ok <==> has_key(s.runners, id),
        s.deregister(id) matches Ok((after, returned)) ==> lookup(s.runners, id) == Some(returned)
            && !has_key(after.runners, id) && forall|other: Seq<char>|
            other != id ==> #[trigger] lookup(after.runners, other) == lookup(s.runners, other),
{
    lemma_without(s.runners, id);
}

/// A change of one runner leaves the others as they were.
pub proof fn law_change_leaves_other_runners(
    s: RunnerStoreView,
    id: Seq<char>,
    f: spec_fn(RunnerView) -> RunnerView,
)
    requires
        sorted(s.runners),
    ensures
        s.change(id, f) matches Ok((after, returned)) ==> lookup(after.runners, id) == Some(returned)
            && sorted(after.runners) && forall|other: Seq<char>|
            other != id ==> #[trigger] lookup(after.runners, other) == lookup(s.runners, other),
{
    if lookup(s.runners, id) is Some {
        lemma_put(s.runners, id, f(lookup(s.runners, id)->0));
    }
}

/// After a lease was taken away the runner holds none, whatever the time.
pub proof fn law_released_lease_is_expired(r: RunnerView, now: Instant)
    ensures
        lease_expired(r.released().lease_expires_at, now),
        r.released().current_task is None,
{
}

/// A lease that ran out stays so.
pub proof fn law_expired_lease_stays_expired(lease: Option<Seq<char>>, now: Instant, later: Instant)
    requires
        lease_expired(lease, now),
        later.at_or_after(now),
    ensures
        lease_expired(lease, later),
{
}

} // verus!
