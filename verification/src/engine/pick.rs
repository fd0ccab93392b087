//! Which task comes next, and what its worker is told.

use vstd::prelude::*;

use crate::duplicate::Duplicate;
use crate::engine::config::{Config, ConfigView, INITIAL_PHASE_NAME, TERMINAL_PHASE_NAME};
use crate::engine::runner::{
    is_lease_expired, lease_expired, RunnerRegistry, RunnerRegistryView, RunnerView,
};
use crate::engine::tasks::{
    find_task, index_of_task, position, position_of, BLOCKED_STATE, ClarificationView, FAILED_STATE,
    HistoryEntryView, Task, TaskPhase, TaskPhaseView, TaskView,
};
use crate::sorting::{order_of, sorted_by, stable_sort, StableOrder};
use crate::string_map::lookup;
use crate::text::{
    after_first, after_first_str, after_last, after_last_str, after_prefix, blank, decimal,
    decimal_str, first_where, is_blank, join, join_path, join_strs, lemma_first_is,
    lemma_first_none, lex_lt, lowercase, parse_u64, parse_unsigned, path_join, split, split_str,
    str_eq, str_lt, strip_prefix, to_lowercase, trim, trim_str,
};
use crate::time::{rfc3339, Instant};

verus! {

/// A lock older than this many seconds no longer counts.
pub const LOCK_STALE_AFTER_SECS: i64 = 3600;

/// What is said where there are no tasks.
pub const NO_TASKS_MESSAGE: &'static str =
    "No tasks found. Add tasks with `agira task add \"<title>\"`";

// ---------------------------------------------------------------------------------------------
// Choosing a task
// ---------------------------------------------------------------------------------------------

/// The number at the end of an id, after its last hyphen; zero where there is none.
pub open spec fn pick_number(id: Seq<char>) -> nat {
    match after_last(id, '-') {
        Some(suffix) => match parse_unsigned(suffix, u32::MAX as nat) {
            Some(n) => n,
            None => 0,
        },
        None => 0,
    }
}

/// The number at the end of an id.
pub fn task_id_number(id: &str) -> (r: u32)
    ensures
        r == pick_number(id@),
{
    match after_last_str(id, '-') {
        Some(suffix) => match parse_u64(suffix.as_str(), u32::MAX as u64) {
            Some(n) => n as u32,
            None => 0,
        },
        None => 0,
    }
}

/// A lock that is there and not too old. A time that cannot be read counts as recent, so that no
/// task is taken from one who may be at work.
pub open spec fn lock_live(locked_at: Option<Seq<char>>, now: Instant) -> bool {
    match locked_at {
        None => false,
        Some(text) => match rfc3339(text) {
            None => true,
            Some(t) => now.seconds_since(t) < LOCK_STALE_AFTER_SECS,
        },
    }
}

/// Whether a lock is there and not too old.
pub fn is_lock_live(locked_at: Option<&str>, now: Instant) -> (r: bool)
    ensures
        r == lock_live(locked_at.deep_view(), now),
{
    match locked_at {
        None => false,
        Some(text) => match Instant::parse(text) {
            None => true,
            Some(t) => now.elapsed_since(&t) < LOCK_STALE_AFTER_SECS as i128,
        },
    }
}

/// A runner other than the one that asks holds a live lease on the task.
pub open spec fn leased_to_other(
    runners: Seq<(Seq<char>, RunnerView)>,
    asking: Seq<char>,
    task_id: Seq<char>,
    now: Instant,
) -> bool {
    exists|i: int| #[trigger] other_lease_at(runners, asking, task_id, now, i)
}

/// The runner at a position is not the one that asks and holds a live lease on the task.
pub open spec fn other_lease_at(
    runners: Seq<(Seq<char>, RunnerView)>,
    asking: Seq<char>,
    task_id: Seq<char>,
    now: Instant,
    i: int,
) -> bool {
    0 <= i < runners.len() && runners[i].0 != asking && runners[i].1.current_task == Some(task_id)
        && !lease_expired(runners[i].1.lease_expires_at, now)
}

/// Who asks for a task: nobody in particular, or a runner among others.
pub open spec fn free_for(
    runner: Option<(RunnerRegistryView, Seq<char>)>,
    task_id: Seq<char>,
    now: Instant,
) -> bool {
    match runner {
        None => true,
        Some((registry, asking)) => !leased_to_other(registry.runners, asking, task_id, now),
    }
}

/// Whether a runner other than the one that asks holds a live lease on the task.
pub fn is_live_lease_held_by_other_runner(
    task: &Task,
    runner: Option<(&RunnerRegistry, &str)>,
    now: Instant,
) -> (r: bool)
    ensures
        r == !free_for(runner.deep_view(), task@.id, now),
{
    let (registry, asking) = match runner {
        None => {
            return false;
        },
        Some(x) => x,
    };
    let ghost entries = registry@.runners;
    let mut i: usize = 0;
    while i < registry.runners.len()
        invariant
            i <= entries.len(),
            entries == registry@.runners,
            runner.deep_view() == Some((registry@, asking@)),
            forall|j: int|
                0 <= j < i ==> !#[trigger] other_lease_at(entries, asking@, task@.id, now, j),
        decreases entries.len() - i,
    {
        let holder = registry.runners.value_at(i);
        if !str_eq(registry.runners.key_at(i).as_str(), asking) && crate::text::opt_eq(
            &holder.current_task,
            Some(task.id.as_str()),
        ) && !is_lease_expired(as_str_opt(&holder.lease_expires_at), now) {
            assert(other_lease_at(entries, asking@, task@.id, now, i as int));
            return true;
        }
        i = i + 1;
    }
    false
}

/// An optional text, borrowed.
pub fn as_str_opt(s: &Option<String>) -> (r: Option<&str>)
    ensures
        r.deep_view() == s.deep_view(),
{
    match s {
        Some(x) => Some(x.as_str()),
        None => None,
    }
}

/// A state in which nothing is to be done: blocked, given up, or done.
pub open spec fn at_rest(state: Seq<char>, terminal: Seq<char>) -> bool {
    state == BLOCKED_STATE@ || state == FAILED_STATE@ || state == terminal
}

/// Whether nothing is to be done in a state.
pub fn is_non_actionable_state(state: &str, terminal_phase: &str) -> (r: bool)
    ensures
        r == at_rest(state@, terminal_phase@),
{
    str_eq(state, BLOCKED_STATE) || str_eq(state, FAILED_STATE) || str_eq(state, terminal_phase)
}

/// The position of a phase in the default workflow.
pub fn phase_index(phase: &str, config: &Config) -> (r: Option<usize>)
    ensures
        match r {
            Some(i) => position(config@.sequence(config@.default_workflow), phase@) == Some(i as int),
            None => position(config@.sequence(config@.default_workflow), phase@) is None,
        },
{
    position_of(config.sequence(config.default_workflow.as_str()), phase)
}

/// The position of a phase in a task's workflow.
pub fn task_phase_index(task: &Task, phase: &str, config: &Config) -> (r: Option<usize>)
    ensures
        match r {
            Some(i) => position(config@.sequence(task@.workflow), phase@) == Some(i as int) && i
                < config@.sequence(task@.workflow).len(),
            None => position(config@.sequence(task@.workflow), phase@) is None,
        },
{
    position_of(config.sequence(task.workflow.as_str()), phase)
}

/// A task that stands in a phase in which something is to be done.
pub open spec fn actionable(t: TaskView, config: ConfigView) -> bool {
    config.terminal() is Some && !at_rest(t.state, config.terminal()->0) && position(
        config.sequence(t.workflow),
        t.state,
    ) is Some
}

/// Whether a task stands in a phase in which something is to be done.
pub fn is_actionable(task: &Task, config: &Config) -> (r: bool)
    ensures
        r == actionable(task@, config@),
{
    match config.terminal_phase() {
        None => false,
        Some(terminal) => !is_non_actionable_state(task.state.as_str(), terminal)
            && task_phase_index(task, task.state.as_str(), config).is_some(),
    }
}

/// Each dependency of a task stands in the terminal phase.
pub open spec fn dependencies_done(t: TaskView, all: Seq<TaskView>, terminal: Seq<char>) -> bool {
    forall|j: int|
        0 <= j < t.dependencies.len() ==> dependency_done(#[trigger] t.dependencies[j], all, terminal)
}

/// The task with an id is there and stands in the terminal phase.
pub open spec fn dependency_done(id: Seq<char>, all: Seq<TaskView>, terminal: Seq<char>) -> bool {
    find_task(all, id) matches Some(d) && d.state == terminal
}

/// Whether each dependency of a task stands in the terminal phase.
pub fn deps_satisfied(task: &Task, all_tasks: &[Task], terminal_phase: &str) -> (r: bool)
    ensures
        r == dependencies_done(task@, all_tasks.deep_view(), terminal_phase@),
{
    let mut j: usize = 0;
    while j < task.dependencies.len()
        invariant
            j <= task.dependencies.len(),
            forall|k: int|
                0 <= k < j ==> dependency_done(
                    #[trigger] task@.dependencies[k],
                    all_tasks.deep_view(),
                    terminal_phase@,
                ),
        decreases task.dependencies.len() - j,
    {
        assert(task@.dependencies[j as int] == task.dependencies@[j as int]@);
        let done = match index_of_task(all_tasks, task.dependencies[j].as_str()) {
            Some(i) => {
                assert(all_tasks.deep_view()[i as int] == all_tasks@[i as int]@);
                str_eq(all_tasks[i].state.as_str(), terminal_phase)
            },
            None => false,
        };
        if !done {
            assert(!dependency_done(
                task@.dependencies[j as int],
                all_tasks.deep_view(),
                terminal_phase@,
            ));
            return false;
        }
        j = j + 1;
    }
    true
}

/// A task that the one who asks can work on now.
pub open spec fn eligible(
    t: TaskView,
    all: Seq<TaskView>,
    config: ConfigView,
    runner: Option<(RunnerRegistryView, Seq<char>)>,
    now: Instant,
) -> bool {
    &&& actionable(t, config)
    &&& !lock_live(t.locked_at, now)
    &&& free_for(runner, t.id, now)
    &&& dependencies_done(t, all, config.terminal()->0)
}

/// How far a task has come in its workflow.
pub open spec fn progress(t: TaskView, config: ConfigView) -> int {
    match position(config.sequence(t.workflow), t.state) {
        Some(i) => i,
        None => 0,
    }
}

/// The second task comes before the first: it has come further, or as far with a smaller number.
pub open spec fn beats(a: TaskView, b: TaskView, config: ConfigView) -> bool {
    progress(b, config) > progress(a, config) || (progress(b, config) == progress(a, config)
        && pick_number(b.id) < pick_number(a.id))
}

/// Position `c` holds the task to work on next: one that can be worked on, which no other such
/// task beats and which no later one equals.
pub open spec fn is_choice(
    all: Seq<TaskView>,
    config: ConfigView,
    runner: Option<(RunnerRegistryView, Seq<char>)>,
    now: Instant,
    n: int,
    c: int,
) -> bool {
    &&& 0 <= c < n <= all.len()
    &&& eligible(all[c], all, config, runner, now)
    &&& forall|j: int|
        0 <= j < n && #[trigger] eligible(all[j], all, config, runner, now) ==> !beats(
            all[c],
            all[j],
            config,
        )
    &&& forall|j: int|
        c < j < n && #[trigger] eligible(all[j], all, config, runner, now) ==> beats(
            all[j],
            all[c],
            config,
        )
}

/// The task to work on next, where there is one that can be worked on.
pub open spec fn chosen(
    all: Seq<TaskView>,
    config: ConfigView,
    runner: Option<(RunnerRegistryView, Seq<char>)>,
    now: Instant,
) -> Option<TaskView> {
    if exists|c: int| is_choice(all, config, runner, now, all.len() as int, c) {
        Some(all[choose|c: int| is_choice(all, config, runner, now, all.len() as int, c)])
    } else {
        None
    }
}

proof fn lemma_choice_unique(
    all: Seq<TaskView>,
    config: ConfigView,
    runner: Option<(RunnerRegistryView, Seq<char>)>,
    now: Instant,
    c: int,
)
    requires
        is_choice(all, config, runner, now, all.len() as int, c),
    ensures
        chosen(all, config, runner, now) == Some(all[c]),
{
    let d = choose|d: int| is_choice(all, config, runner, now, all.len() as int, d);
    assert(is_choice(all, config, runner, now, all.len() as int, d));
    if c < d {
        assert(eligible(all[d], all, config, runner, now));
        assert(beats(all[d], all[c], config));
        assert(eligible(all[c], all, config, runner, now));
        assert(!beats(all[d], all[c], config));
    } else if d < c {
        assert(eligible(all[c], all, config, runner, now));
        assert(beats(all[c], all[d], config));
        assert(eligible(all[d], all, config, runner, now));
        assert(!beats(all[c], all[d], config));
    }
}

/// The task to work on next for the one who asks.
pub fn select_next_task_with_leases_at<'a>(
    all_tasks: &'a [Task],
    config: &Config,
    runner: Option<(&RunnerRegistry, &str)>,
    now: Instant,
) -> (r: Option<&'a Task>)
    ensures
        r.deep_view() == chosen(all_tasks.deep_view(), config@, runner.deep_view(), now),
{
    let ghost all = all_tasks.deep_view();
    let ghost asking = runner.deep_view();
    let terminal: &str = match config.terminal_phase() {
        None => {
            assert forall|c: int| !#[trigger] is_choice(
                all,
                config@,
                asking,
                now,
                all.len() as int,
                c,
            ) by {}
            return None;
        },
        Some(t) => t,
    };
    let mut best: Option<usize> = None;
    let mut i: usize = 0;
    while i < all_tasks.len()
        invariant
            i <= all_tasks.len(),
            all == all_tasks.deep_view(),
            asking == runner.deep_view(),
            config@.terminal() == Some(terminal@),
            match best {
                Some(c) => is_choice(all, config@, asking, now, i as int, c as int),
                None => forall|j: int|
                    0 <= j < i ==> !#[trigger] eligible(all[j], all, config@, asking, now),
            },
        decreases all_tasks.len() - i,
    {
        let task = &all_tasks[i];
        assert(all[i as int] == task@);
        if is_actionable(task, config) && !is_lock_live(as_str_opt(&task.locked_at), now)
            && !is_live_lease_held_by_other_runner(task, runner, now) && deps_satisfied(
            task,
            all_tasks,
            terminal,
        ) {
            assert(eligible(all[i as int], all, config@, asking, now));
            match best {
                None => {
                    best = Some(i);
                },
                Some(c) => {
                    assert(all[c as int] == all_tasks@[c as int]@);
                    if !beaten(task, &all_tasks[c], config) {
                        proof {
                            lemma_new_choice(all, config@, asking, now, i as int, c as int);
                        }
                        best = Some(i);
                    }
                },
            }
        } else {
            assert(!eligible(all[i as int], all, config@, asking, now));
        }
        i = i + 1;
    }
    match best {
        Some(c) => {
            proof {
                lemma_choice_unique(all, config@, asking, now, c as int);
            }
            assert(all[c as int] == all_tasks@[c as int]@);
            Some(&all_tasks[c])
        },
        None => {
            assert forall|c: int| !#[trigger] is_choice(
                all,
                config@,
                asking,
                now,
                all.len() as int,
                c,
            ) by {}
            None
        },
    }
}

proof fn lemma_new_choice(
    all: Seq<TaskView>,
    config: ConfigView,
    runner: Option<(RunnerRegistryView, Seq<char>)>,
    now: Instant,
    i: int,
    c: int,
)
    requires
        0 <= i < all.len(),
        is_choice(all, config, runner, now, i, c),
        eligible(all[i], all, config, runner, now),
        !beats(all[i], all[c], config),
    ensures
        is_choice(all, config, runner, now, i + 1, i),
{
    assert forall|j: int| 0 <= j < i + 1 && #[trigger] eligible(
        all[j],
        all,
        config,
        runner,
        now,
    ) implies !beats(all[i], all[j], config) by {
        if j < i {
            assert(!beats(all[c], all[j], config));
        }
    }
}

fn beaten(a: &Task, b: &Task, config: &Config) -> (r: bool)
    ensures
        r == beats(a@, b@, config@),
{
    let pa: usize = match task_phase_index(a, a.state.as_str(), config) {
        Some(i) => i,
        None => 0,
    };
    let pb: usize = match task_phase_index(b, b.state.as_str(), config) {
        Some(i) => i,
        None => 0,
    };
    pb > pa || (pb == pa && task_id_number(b.id.as_str()) < task_id_number(a.id.as_str()))
}

/// The task to work on next at a given time.
pub fn select_next_task_at<'a>(all_tasks: &'a [Task], config: &Config, now: Instant) -> (r: Option<
    &'a Task,
>)
    ensures
        r.deep_view() == chosen(all_tasks.deep_view(), config@, None, now),
{
    select_next_task_with_leases_at(all_tasks, config, None, now)
}

/// The task to work on next.
pub fn select_next_task<'a>(all_tasks: &'a [Task], config: &Config) -> (r: Option<&'a Task>)
    ensures
        exists|now: Instant|
            now.on_calendar() && r.deep_view() == #[trigger] chosen(
                all_tasks.deep_view(),
                config@,
                None,
                now,
            ),
{
    select_next_task_at(all_tasks, config, Instant::now())
}

/// The task to work on next for a runner.
pub fn select_next_task_for_runner<'a>(
    all_tasks: &'a [Task],
    config: &Config,
    runner_registry: &RunnerRegistry,
    runner_id: &str,
    now: Instant,
) -> (r: Option<&'a Task>)
    ensures
        r.deep_view() == chosen(
            all_tasks.deep_view(),
            config@,
            Some((runner_registry@, runner_id@)),
            now,
        ),
{
    select_next_task_with_leases_at(all_tasks, config, Some((runner_registry, runner_id)), now)
}

/// The task that is chosen can be worked on, and one is chosen wherever some task can be.
pub proof fn law_chosen_task_is_eligible(
    all: Seq<TaskView>,
    config: ConfigView,
    runner: Option<(RunnerRegistryView, Seq<char>)>,
    now: Instant,
)
    ensures
        match chosen(all, config, runner, now) {
            Some(t) => all.contains(t) && eligible(t, all, config, runner, now) && forall|j: int|
                0 <= j < all.len() && #[trigger] eligible(all[j], all, config, runner, now)
                    ==> !beats(t, all[j], config),
            None => forall|j: int|
                0 <= j < all.len() ==> !#[trigger] eligible(all[j], all, config, runner, now),
        },
{
    if chosen(all, config, runner, now) is Some {
        let c = choose|c: int| is_choice(all, config, runner, now, all.len() as int, c);
        assert(is_choice(all, config, runner, now, all.len() as int, c));
    } else {
        lemma_choice_exists(all, config, runner, now, all.len() as int);
    }
}

proof fn lemma_choice_exists(
    all: Seq<TaskView>,
    config: ConfigView,
    runner: Option<(RunnerRegistryView, Seq<char>)>,
    now: Instant,
    n: int,
)
    requires
        0 <= n <= all.len(),
    ensures
        (exists|c: int| is_choice(all, config, runner, now, n, c)) || forall|j: int|
            0 <= j < n ==> !#[trigger] eligible(all[j], all, config, runner, now),
    decreases n,
{
    if n > 0 {
        let i = n - 1;
        lemma_choice_exists(all, config, runner, now, i);
        if eligible(all[i], all, config, runner, now) {
            if exists|c: int| is_choice(all, config, runner, now, i, c) {
                let c = choose|c: int| is_choice(all, config, runner, now, i, c);
                if beats(all[i], all[c], config) {
                    assert(is_choice(all, config, runner, now, n, c));
                } else {
                    lemma_new_choice(all, config, runner, now, i, c);
                }
            } else {
                assert(is_choice(all, config, runner, now, n, i));
            }
        } else if exists|c: int| is_choice(all, config, runner, now, i, c) {
            let c = choose|c: int| is_choice(all, config, runner, now, i, c);
            assert(is_choice(all, config, runner, now, n, c));
        }
    }
}

/// A task whose lock is recent, or on which another runner holds a live lease, is not chosen.
pub proof fn law_taken_tasks_are_not_chosen(
    all: Seq<TaskView>,
    config: ConfigView,
    registry: RunnerRegistryView,
    asking: Seq<char>,
    now: Instant,
)
    ensures
        chosen(all, config, Some((registry, asking)), now) matches Some(t) ==> !lock_live(
            t.locked_at,
            now,
        ) && !leased_to_other(registry.runners, asking, t.id, now),
{
    law_chosen_task_is_eligible(all, config, Some((registry, asking)), now);
}

// ---------------------------------------------------------------------------------------------
// Acceptance criteria in descriptions
// ---------------------------------------------------------------------------------------------

/// The number of hash signs at the front of a line.
pub open spec fn hashes(line: Seq<char>) -> int
    decreases line.len(),
{
    if line.len() > 0 && line[0] == '#' {
        1 + hashes(line.skip(1))
    } else {
        0
    }
}

/// The level of a heading: one to six hash signs, and then a space or nothing.
pub open spec fn heading_level(line: Seq<char>) -> Option<int> {
    let h = hashes(line);
    if h == 0 || h > 6 || (h < line.len() && line[h] != ' ') {
        None
    } else {
        Some(h)
    }
}

fn count_hashes(line: &str) -> (r: usize)
    ensures
        r == hashes(line@),
        r <= line@.len(),
{
    let x: Vec<char> = crate::text::to_chars(line);
    let mut i: usize = 0;
    assert(line@.skip(0) =~= line@);
    while i < x.len() && x[i] == '#'
        invariant
            i <= x.len(),
            x@ == line@,
            hashes(line@) == i + hashes(line@.skip(i as int)),
        decreases x.len() - i,
    {
        assert(line@.skip(i as int).skip(1) =~= line@.skip(i + 1));
        i = i + 1;
    }
    i
}

/// The level of a heading.
pub fn atx_heading_level(line: &str) -> (r: Option<usize>)
    ensures
        match r {
            Some(n) => heading_level(line@) == Some(n as int),
            None => heading_level(line@) is None,
        },
{
    let h: usize = count_hashes(line);
    if h == 0 || h > 6 {
        return None;
    }
    if h < line.unicode_len() && line.get_char(h) != ' ' {
        return None;
    }
    Some(h)
}

/// A title of a section with acceptance criteria.
pub open spec fn criteria_title(text: Seq<char>) -> bool {
    let lower = lowercase(trim(text));
    lower == "acceptance criteria"@ || lower == "验收"@ || lower == "验收标准"@
}

/// Whether a title is one of a section with acceptance criteria.
pub fn is_acceptance_criteria_heading(text: &str) -> (r: bool)
    ensures
        r == criteria_title(text@),
{
    let lower = to_lowercase(trim_str(text));
    str_eq(lower.as_str(), "acceptance criteria") || str_eq(lower.as_str(), "验收") || str_eq(
        lower.as_str(),
        "验收标准",
    )
}

/// The lines that open a section with acceptance criteria.
pub open spec fn opens_criteria() -> spec_fn(Seq<char>) -> bool {
    |line: Seq<char>|
        heading_level(line) == Some(2int) && criteria_title(trim(line.skip(hashes(line))))
}

/// The lines that open a section of the first or the second level.
pub open spec fn opens_section() -> spec_fn(Seq<char>) -> bool {
    |line: Seq<char>| heading_level(line) is Some && heading_level(line)->0 <= 2
}

/// The lines without the blank ones at the end.
pub open spec fn trim_last_lines(lines: Seq<Seq<char>>) -> Seq<Seq<char>>
    decreases lines.len(),
{
    if lines.len() > 0 && blank(lines.last()) {
        trim_last_lines(lines.drop_last())
    } else {
        lines
    }
}

/// The lines without the blank ones in front.
pub open spec fn trim_first_lines(lines: Seq<Seq<char>>) -> Seq<Seq<char>>
    decreases lines.len(),
{
    if lines.len() > 0 && blank(lines[0]) {
        trim_first_lines(lines.skip(1))
    } else {
        lines
    }
}

/// The end of a section that starts at line `start`.
pub open spec fn section_end(lines: Seq<Seq<char>>, start: int) -> int {
    match first_where(lines.skip(start + 1), opens_section()) {
        Some(rel) => start + 1 + rel,
        None => lines.len() as int,
    }
}

/// What is left of the lines in front of and behind a section: with two empty lines in between
/// where both are there.
pub open spec fn around(before: Seq<Seq<char>>, after: Seq<Seq<char>>) -> Seq<Seq<char>> {
    if before.len() == 0 {
        after
    } else if after.len() == 0 {
        before
    } else {
        before.push(Seq::empty()).push(Seq::empty()) + after
    }
}

/// A text without its first section with acceptance criteria.
pub open spec fn without_criteria(text: Seq<char>) -> Seq<char> {
    let lines = split(text, '\n');
    match first_where(lines, opens_criteria()) {
        None => text,
        Some(start) => join(
            around(
                trim_last_lines(lines.take(start)),
                trim_first_lines(lines.skip(section_end(lines, start))),
            ),
            "\n"@,
        ),
    }
}

fn line_opens_criteria(line: &str) -> (r: bool)
    ensures
        r == opens_criteria()(line@),
{
    match atx_heading_level(line) {
        Some(level) => {
            if level == 2 {
                let h: usize = count_hashes(line);
                let rest = line.substring_char(h, line.unicode_len());
                assert(rest@ =~= line@.skip(hashes(line@)));
                is_acceptance_criteria_heading(trim_str(rest))
            } else {
                false
            }
        },
        None => false,
    }
}

fn first_criteria_line(lines: &Vec<String>) -> (r: Option<usize>)
    ensures
        match r {
            Some(i) => first_where(lines.deep_view(), opens_criteria()) == Some(i as int) && i
                < lines.len(),
            None => first_where(lines.deep_view(), opens_criteria()) is None,
        },
{
    let mut i: usize = 0;
    while i < lines.len()
        invariant
            i <= lines.len(),
            forall|j: int| 0 <= j < i ==> !opens_criteria()(#[trigger] lines.deep_view()[j]),
        decreases lines.len() - i,
    {
        assert(lines.deep_view()[i as int] == lines@[i as int]@);
        if line_opens_criteria(lines[i].as_str()) {
            proof {
                lemma_first_is(lines.deep_view(), opens_criteria(), i as int);
            }
            return Some(i);
        }
        i = i + 1;
    }
    proof {
        lemma_first_none(lines.deep_view(), opens_criteria());
    }
    None
}

fn end_of_section(lines: &Vec<String>, start: usize) -> (r: usize)
    requires
        start < lines.len(),
    ensures
        r == section_end(lines.deep_view(), start as int),
        start < r <= lines.len(),
{
    let ghost rest = lines.deep_view().skip(start + 1);
    let mut i: usize = start + 1;
    while i < lines.len()
        invariant
            start < i <= lines.len(),
            rest == lines.deep_view().skip(start + 1),
            forall|j: int| 0 <= j < i - start - 1 ==> !opens_section()(#[trigger] rest[j]),
        decreases lines.len() - i,
    {
        assert(rest[i - start - 1] == lines@[i as int]@);
        match atx_heading_level(lines[i].as_str()) {
            Some(level) => {
                if level <= 2 {
                    proof {
                        lemma_first_is(rest, opens_section(), i - start - 1);
                    }
                    return i;
                }
            },
            None => {},
        }
        i = i + 1;
    }
    proof {
        lemma_first_none(rest, opens_section());
    }
    i
}

/// The lines without the blank ones at the end.
pub fn trim_trailing_blank_lines(lines: Vec<String>) -> (r: Vec<String>)
    ensures
        r.deep_view() == trim_last_lines(lines.deep_view()),
{
    let ghost all = lines.deep_view();
    let mut lines = lines;
    while lines.len() > 0 && is_blank(lines[lines.len() - 1].as_str())
        invariant
            trim_last_lines(lines.deep_view()) == trim_last_lines(all),
        decreases lines.len(),
    {
        let ghost before = lines.deep_view();
        assert(before.last() == lines@[lines.len() - 1]@);
        lines.pop();
        assert(lines.deep_view() =~= before.drop_last());
    }
    if lines.len() > 0 {
        assert(lines.deep_view().last() == lines@[lines.len() - 1]@);
    }
    lines
}

/// The lines without the blank ones in front.
pub fn trim_leading_blank_lines(lines: Vec<String>) -> (r: Vec<String>)
    ensures
        r.deep_view() == trim_first_lines(lines.deep_view()),
{
    let ghost all = lines.deep_view();
    let mut lines = lines;
    while lines.len() > 0 && is_blank(lines[0].as_str())
        invariant
            trim_first_lines(lines.deep_view()) == trim_first_lines(all),
        decreases lines.len(),
    {
        let ghost before = lines.deep_view();
        assert(before[0] == lines@[0]@);
        lines.remove(0);
        assert(lines.deep_view() =~= before.skip(1));
    }
    if lines.len() > 0 {
        assert(lines.deep_view()[0] == lines@[0]@);
    }
    lines
}

fn copy_range(lines: &Vec<String>, from: usize, to: usize) -> (r: Vec<String>)
    requires
        from <= to <= lines.len(),
    ensures
        r.deep_view() == lines.deep_view().subrange(from as int, to as int),
{
    let mut out: Vec<String> = Vec::new();
    let mut i: usize = from;
    while i < to
        invariant
            from <= i <= to <= lines.len(),
            out.deep_view() == lines.deep_view().subrange(from as int, i as int),
        decreases to - i,
    {
        let ghost before = out.deep_view();
        out.push(lines[i].clone());
        assert(out.deep_view() =~= before.push(lines.deep_view()[i as int]));
        i = i + 1;
        assert(lines.deep_view().subrange(from as int, i as int) =~= before.push(
            lines.deep_view()[i - 1],
        ));
    }
    out
}

/// The text without its first section with acceptance criteria.
pub fn strip_acceptance_criteria(text: &str) -> (r: String)
    ensures
        r@ == without_criteria(text@),
{
    let lines: Vec<String> = split_str(text, '\n');
    let start: usize = match first_criteria_line(&lines) {
        None => {
            return text.to_owned();
        },
        Some(i) => i,
    };
    let end: usize = end_of_section(&lines, start);
    let front = copy_range(&lines, 0, start);
    let back = copy_range(&lines, end, lines.len());
    assert(front.deep_view() =~= lines.deep_view().take(start as int));
    assert(back.deep_view() =~= lines.deep_view().skip(end as int));
    let before = trim_trailing_blank_lines(front);
    let after = trim_leading_blank_lines(back);
    if before.len() == 0 {
        return join_strs(&after, "\n");
    }
    if after.len() == 0 {
        return join_strs(&before, "\n");
    }
    let ghost b = before.deep_view();
    let mut all = before;
    all.push(String::new());
    all.push(String::new());
    assert(all.deep_view() =~= b.push(Seq::empty()).push(Seq::empty()));
    let ghost head = all.deep_view();
    let mut i: usize = 0;
    assert(after.deep_view().take(0) =~= Seq::<Seq<char>>::empty());
    while i < after.len()
        invariant
            i <= after.len(),
            all.deep_view() == head + after.deep_view().take(i as int),
        decreases after.len() - i,
    {
        let ghost so_far = all.deep_view();
        all.push(after[i].clone());
        assert(all.deep_view() =~= so_far.push(after.deep_view()[i as int]));
        i = i + 1;
        assert(all.deep_view() =~= head + after.deep_view().take(i as int));
    }
    assert(after.deep_view().take(i as int) =~= after.deep_view());
    join_strs(&all, "\n")
}

/// A text without such a section stays as it is.
pub proof fn law_text_without_criteria_is_kept(text: Seq<char>)
    requires
        forall|i: int|
            0 <= i < split(text, '\n').len() ==> !opens_criteria()(#[trigger] split(text, '\n')[i]),
    ensures
        without_criteria(text) == text,
{
    lemma_first_none(split(text, '\n'), opens_criteria());
}

// ---------------------------------------------------------------------------------------------
// The prompt of a task
// ---------------------------------------------------------------------------------------------

/// A phase with a gate that is not empty.
pub open spec fn gated(phase: Seq<char>, config: ConfigView) -> bool {
    lookup(config.phases, phase) matches Some(def) && def.gate is Some && def.gate->0.len() > 0
}

/// Whether a phase has a gate that is not empty.
pub fn phase_is_gated(phase: &str, config: &Config) -> (r: bool)
    ensures
        r == gated(phase@, config@),
{
    match config.phase_def(phase) {
        Some(def) => match &def.gate {
            Some(gate) => !gate.as_str().is_empty(),
            None => false,
        },
        None => false,
    }
}

/// What follows `retry ` in the reason of the latest move that starts so.
pub open spec fn latest_retry(history: Seq<HistoryEntryView>) -> Option<Seq<char>>
    decreases history.len(),
{
    if history.len() == 0 {
        None
    } else {
        match after_prefix(history.last().reason, "retry "@) {
            Some(x) => Some(x),
            None => latest_retry(history.drop_last()),
        }
    }
}

/// What was said when a task was last sent back.
pub open spec fn review_feedback(t: TaskView) -> Option<Seq<char>> {
    if t.retry_count == 0 {
        None
    } else {
        match latest_retry(t.history) {
            Some(x) => Some(after_first(x, ": "@)),
            None => None,
        }
    }
}

/// What was said when a task was last sent back.
pub fn previous_review_feedback(task: &Task) -> (r: Option<&str>)
    ensures
        r.deep_view() == review_feedback(task@),
{
    if task.retry_count == 0 {
        return None;
    }
    let ghost history = task@.history;
    let mut n: usize = task.history.len();
    assert(history.take(n as int) =~= history);
    while n > 0
        invariant
            n <= task.history.len(),
            history == task@.history,
            task.retry_count != 0,
            latest_retry(history) == latest_retry(history.take(n as int)),
        decreases n,
    {
        assert(history.take(n as int).last() == task.history@[n - 1]@);
        assert(history.take(n as int).drop_last() =~= history.take(n - 1));
        match strip_prefix(task.history[n - 1].reason.as_str(), "retry ") {
            Some(x) => {
                return Some(after_first_str(x, ": "));
            },
            None => {},
        }
        n = n - 1;
    }
    None
}

/// A short description of a task that is past the phase in which descriptions are worked out.
pub open spec fn description_too_short(t: TaskView, config: ConfigView) -> bool {
    let steps = config.sequence(config.default_workflow);
    &&& t.description.len() < 150
    &&& match position(steps, "enriching"@) {
        Some(e) => position(steps, t.state) is Some && position(steps, t.state)->0 > e,
        None => t.state != INITIAL_PHASE_NAME@,
    }
}

/// Whether the description of a task is short though it should have been worked out.
pub fn description_warning_applies(task: &Task, config: &Config) -> (r: bool)
    ensures
        r == description_too_short(task@, config@),
{
    if task.description.as_str().unicode_len() >= 150 {
        return false;
    }
    match phase_index("enriching", config) {
        Some(e) => match phase_index(task.state.as_str(), config) {
            Some(k) => k > e,
            None => false,
        },
        None => !str_eq(task.state.as_str(), INITIAL_PHASE_NAME),
    }
}

/// The model that works on a task in a phase.
pub open spec fn task_model(t: TaskView, phase: Seq<char>, config: ConfigView) -> Option<Seq<char>> {
    if phase == INITIAL_PHASE_NAME@ || phase == TERMINAL_PHASE_NAME@ || !config.sequence(
        t.workflow,
    ).contains(phase) {
        None
    } else {
        match lookup(config.phases, phase) {
            Some(def) => def.model,
            None => None,
        }
    }
}

/// The model that works on a task in a phase.
pub fn effective_task_model<'a>(task: &'a Task, phase: &str, config: &'a Config) -> (r: Option<
    &'a str,
>)
    ensures
        r.deep_view() == task_model(task@, phase@, config@),
{
    if str_eq(phase, INITIAL_PHASE_NAME) || str_eq(phase, TERMINAL_PHASE_NAME) {
        return None;
    }
    proof {
        crate::engine::tasks::lemma_position(config@.sequence(task@.workflow), phase@);
    }
    if task_phase_index(task, phase, config).is_none() {
        return None;
    }
    match config.phase_def(phase) {
        Some(def) => as_str_opt(&def.model),
        None => None,
    }
}

/// What is to be done with a task in a phase.
pub open spec fn task_duty(t: TaskView, phase: Seq<char>, config: ConfigView) -> Option<Seq<char>> {
    if !config.sequence(t.workflow).contains(phase) {
        None
    } else {
        match lookup(config.phases, phase) {
            Some(def) => if def.duty is Some && def.duty->0.len() > 0 {
                def.duty
            } else {
                None
            },
            None => None,
        }
    }
}

/// What is to be done with a task in a phase.
pub fn effective_task_duty<'a>(task: &'a Task, phase: &str, config: &'a Config) -> (r: Option<
    &'a str,
>)
    ensures
        r.deep_view() == task_duty(task@, phase@, config@),
{
    proof {
        crate::engine::tasks::lemma_position(config@.sequence(task@.workflow), phase@);
    }
    if task_phase_index(task, phase, config).is_none() {
        return None;
    }
    match config.phase_def(phase) {
        Some(def) => match &def.duty {
            Some(duty) => {
                if duty.as_str().is_empty() {
                    None
                } else {
                    Some(duty.as_str())
                }
            },
            None => None,
        },
        None => None,
    }
}

/// What came out of the first phases of a workflow, of those that have something.
pub open spec fn outcomes(
    phases: Seq<(Seq<char>, TaskPhaseView)>,
    steps: Seq<Seq<char>>,
) -> Seq<(Seq<char>, TaskPhaseView)>
    decreases steps.len(),
{
    if steps.len() == 0 {
        Seq::empty()
    } else {
        match lookup(phases, steps.last()) {
            Some(p) => outcomes(phases, steps.drop_last()).push((steps.last(), p)),
            None => outcomes(phases, steps.drop_last()),
        }
    }
}

/// What came out of the phases in front of the present one of a task.
pub open spec fn prior_outcomes(t: TaskView, config: ConfigView) -> Seq<(Seq<char>, TaskPhaseView)> {
    let steps = config.sequence(t.workflow);
    match position(steps, t.state) {
        Some(k) => outcomes(t.phases, steps.take(k)),
        None => Seq::empty(),
    }
}

/// What came out of the phases in front of the present one of a task.
pub fn prior_phases(task: &Task, config: &Config) -> (r: Vec<(String, TaskPhase)>)
    ensures
        r.deep_view() == prior_outcomes(task@, config@),
{
    let ghost steps = config@.sequence(task@.workflow);
    let mut out: Vec<(String, TaskPhase)> = Vec::new();
    assert(out.deep_view() =~= Seq::empty());
    let k: usize = match task_phase_index(task, task.state.as_str(), config) {
        None => {
            return out;
        },
        Some(k) => k,
    };
    let names = config.sequence(task.workflow.as_str());
    let mut i: usize = 0;
    assert(steps.take(0) =~= Seq::<Seq<char>>::empty());
    while i < k
        invariant
            i <= k < steps.len(),
            steps == config@.sequence(task@.workflow),
            names.deep_view() == steps,
            out.deep_view() == outcomes(task@.phases, steps.take(i as int)),
        decreases k - i,
    {
        assert(steps.take(i + 1).drop_last() =~= steps.take(i as int));
        assert(steps.take(i + 1).last() == names@[i as int]@);
        let ghost before = out.deep_view();
        match task.phases.get(names[i].as_str()) {
            Some(phase) => {
                out.push((names[i].clone(), phase.duplicate()));
                assert(out.deep_view() =~= before.push((names@[i as int]@, phase@)));
            },
            None => {},
        }
        i = i + 1;
    }
    out
}

/// A text, or what stands for an empty one.
pub open spec fn or_else(s: Seq<char>, empty: Seq<char>) -> Seq<char> {
    if s.len() == 0 {
        empty
    } else {
        s
    }
}

fn or_else_str<'a>(s: &'a str, empty: &'a str) -> (r: &'a str)
    ensures
        r@ == or_else(s@, empty@),
{
    if s.is_empty() {
        empty
    } else {
        s
    }
}

/// The lines about what came out of phases.
pub open spec fn outcome_lines(phases: Seq<(Seq<char>, TaskPhaseView)>) -> Seq<char>
    decreases phases.len(),
{
    if phases.len() == 0 {
        Seq::empty()
    } else {
        outcome_lines(phases.drop_last()) + "\n- Phase: "@ + phases.last().0 + "\n  Completed at: "@
            + phases.last().1.completed_at + "\n  Artifact: "@ + or_else(
            phases.last().1.artifact,
            "<empty>"@,
        )
    }
}

fn write_outcomes(phases: &Vec<(String, TaskPhase)>) -> (r: String)
    ensures
        r@ == outcome_lines(phases.deep_view()),
{
    let ghost all = phases.deep_view();
    let mut out = String::new();
    let mut i: usize = 0;
    assert(all.take(0) =~= Seq::empty());
    while i < phases.len()
        invariant
            i <= phases.len(),
            all == phases.deep_view(),
            out@ == outcome_lines(all.take(i as int)),
        decreases phases.len() - i,
    {
        assert(all.take(i + 1).drop_last() =~= all.take(i as int));
        assert(all.take(i + 1).last() == (phases@[i as int].0@, phases@[i as int].1@));
        out.push_str("\n- Phase: ");
        out.push_str(phases[i].0.as_str());
        out.push_str("\n  Completed at: ");
        out.push_str(phases[i].1.completed_at.as_str());
        out.push_str("\n  Artifact: ");
        out.push_str(or_else_str(phases[i].1.artifact.as_str(), "<empty>"));
        i = i + 1;
    }
    assert(all.take(i as int) =~= all);
    out
}

/// The lines about questions that were answered.
pub open spec fn clarification_lines(items: Seq<ClarificationView>) -> Seq<char>
    decreases items.len(),
{
    if items.len() == 0 {
        Seq::empty()
    } else {
        clarification_lines(items.drop_last()) + "\n- Phase: "@ + items.last().phase
            + "\n  Question: "@ + items.last().question + "\n  Answer: "@ + items.last().answer
    }
}

fn write_clarifications(task: &Task) -> (r: String)
    ensures
        r@ == clarification_lines(task@.clarifications),
{
    let ghost all = task@.clarifications;
    let mut out = String::new();
    let mut i: usize = 0;
    assert(all.take(0) =~= Seq::empty());
    while i < task.clarifications.len()
        invariant
            i <= task.clarifications.len(),
            all == task@.clarifications,
            out@ == clarification_lines(all.take(i as int)),
        decreases task.clarifications.len() - i,
    {
        assert(all.take(i + 1).drop_last() =~= all.take(i as int));
        assert(all.take(i + 1).last() == task.clarifications@[i as int]@);
        out.push_str("\n- Phase: ");
        out.push_str(task.clarifications[i].phase.as_str());
        out.push_str("\n  Question: ");
        out.push_str(task.clarifications[i].question.as_str());
        out.push_str("\n  Answer: ");
        out.push_str(task.clarifications[i].answer.as_str());
        i = i + 1;
    }
    assert(all.take(i as int) =~= all);
    out
}

/// What the prompt says of the description of a task.
pub open spec fn shown_description(t: TaskView, config: ConfigView) -> Seq<char> {
    if t.description.len() == 0 {
        "No description provided."@
    } else if gated(t.state, config) {
        without_criteria(t.description)
    } else {
        t.description
    }
}

/// The warning about a short description.
pub open spec fn warning_section(t: TaskView, config: ConfigView) -> Seq<char> {
    if description_too_short(t, config) {
        "\n\n## Description Quality Warning\nThis description is short ("@ + decimal(
            t.description.len(),
        ) + " chars). If the enriching phase did not produce a complete spec, update it before proceeding:\n  agira task update "@
            + t.id + " --description \"<complete spec>\"\nOr block for clarification:\n  agira task block "@
            + t.id + " --reason \"description too thin to implement\""@
    } else {
        Seq::empty()
    }
}

/// Where the evidence for a task is kept.
pub open spec fn attachments_path(state_dir: Seq<char>, id: Seq<char>) -> Seq<char> {
    path_join(path_join(state_dir, "attachments"@), id)
}

/// What the prompt says of answers, of feedback and of evidence.
pub open spec fn context_section(t: TaskView, state_dir: Seq<char>) -> Seq<char> {
    if t.state == INITIAL_PHASE_NAME@ || t.state == TERMINAL_PHASE_NAME@ {
        Seq::empty()
    } else {
        let path = attachments_path(state_dir, t.id);
        (if t.clarifications.len() > 0 {
            "\n\n## 已澄清事项"@ + clarification_lines(t.clarifications)
        } else {
            Seq::empty()
        }) + (match review_feedback(t) {
            Some(feedback) => "\n\n## Previous Review Feedback\n"@ + feedback
                + "\n\nRead any existing files under "@ + path
                + "/ before implementing; prior review findings or evidence may already be there."@,
            None => Seq::empty(),
        }) + ("\n\n## Attachments\nSave evidence files (screenshots, recordings, test output) to:\n"@
            + path
            + "/\nCreate the directory if it does not exist. Reference saved files in your --artifact text."@)
    }
}

/// What the prompt says of decisions that the worker must not make.
pub open spec fn checkpoint_section(t: TaskView) -> Seq<char> {
    "\n\n## Checkpoints\nNEVER ask the user a question in-session. If a user decision is required to proceed, block the task instead of proceeding or guessing. Blocking is the correct escalation path whenever a checkpoint is needed, not a last resort. Write each question clearly on its own line in the reason, then stop. Run:\n`agira task block "@
        + t.id + " --reason \"<questions>\"`"@
}

/// Whether a phase of a task is handed to a model.
pub open spec fn dispatched(t: TaskView, phase: Seq<char>, config: ConfigView) -> bool {
    task_model(t, phase, config) matches Some(m) && m.len() > 0
}

/// How a worker of a phase that is handed to no model reports that it is done.
pub open spec fn completion_section(t: TaskView, config: ConfigView) -> Seq<char> {
    if dispatched(t, t.state, config) {
        Seq::empty()
    } else {
        "\n\n## Completion\n`agira task todo --task "@ + t.id + " --from "@ + t.state
            + " --artifact \"<evidence>\"`"@
    }
}

/// What the worker of a task is told.
pub open spec fn task_prompt(t: TaskView, config: ConfigView, state_dir: Seq<char>) -> Seq<char> {
    if t.state == INITIAL_PHASE_NAME@ {
        "Run: agira task todo --artifact \"task accepted\" to advance the task to the next phase."@
    } else {
        "# Agira Task Prompt\n\n## Task\n- ID: "@ + t.id + "\n- Title: "@ + t.title
            + "\n- Current phase: "@ + t.state + (match task_model(t, t.state, config) {
            Some(m) => "\n- Agent role: "@ + m,
            None => Seq::empty(),
        }) + "\n\n## Description\n"@ + shown_description(t, config) + warning_section(t, config) + (
        match task_duty(t, t.state, config) {
            Some(duty) => "\n\n## Phase Duty\n"@ + duty,
            None => Seq::empty(),
        }) + (if t.phases.len() > 0 {
            "\n\n## Acceptance Criteria"@ + outcome_lines(prior_outcomes(t, config))
        } else {
            Seq::empty()
        }) + context_section(t, state_dir) + checkpoint_section(t) + completion_section(t, config)
    }
}

fn write_description(task: &Task, config: &Config) -> (r: String)
    ensures
        r@ == shown_description(task@, config@),
{
    if task.description.as_str().is_empty() {
        "No description provided.".to_owned()
    } else if phase_is_gated(task.state.as_str(), config) {
        strip_acceptance_criteria(task.description.as_str())
    } else {
        task.description.clone()
    }
}

fn write_warning(task: &Task, config: &Config) -> (r: String)
    ensures
        r@ == warning_section(task@, config@),
{
    if !description_warning_applies(task, config) {
        return String::new();
    }
    let mut out =
        "\n\n## Description Quality Warning\nThis description is short (".to_owned();
    out.push_str(decimal_str(task.description.as_str().unicode_len() as u64).as_str());
    out.push_str(
        " chars). If the enriching phase did not produce a complete spec, update it before proceeding:\n  agira task update ",
    );
    out.push_str(task.id.as_str());
    out.push_str(
        " --description \"<complete spec>\"\nOr block for clarification:\n  agira task block ",
    );
    out.push_str(task.id.as_str());
    out.push_str(" --reason \"description too thin to implement\"");
    out
}

fn write_context(task: &Task, state_dir: &str) -> (r: String)
    ensures
        r@ == context_section(task@, state_dir@),
{
    if str_eq(task.state.as_str(), INITIAL_PHASE_NAME) || str_eq(
        task.state.as_str(),
        TERMINAL_PHASE_NAME,
    ) {
        return String::new();
    }
    let path = join_path(join_path(state_dir, "attachments").as_str(), task.id.as_str());
    let mut out = String::new();
    if task.clarifications.len() > 0 {
        out.push_str("\n\n## 已澄清事项");
        out.push_str(write_clarifications(task).as_str());
    }
    let ghost first = if task@.clarifications.len() > 0 {
        "\n\n## 已澄清事项"@ + clarification_lines(task@.clarifications)
    } else {
        Seq::<char>::empty()
    };
    assert(out@ =~= first);
    let mut second = String::new();
    match previous_review_feedback(task) {
        Some(feedback) => {
            second.push_str("\n\n## Previous Review Feedback\n");
            second.push_str(feedback);
            second.push_str("\n\nRead any existing files under ");
            second.push_str(path.as_str());
            second.push_str(
                "/ before implementing; prior review findings or evidence may already be there.",
            );
            assert(second@ =~= "\n\n## Previous Review Feedback\n"@ + feedback@
                + "\n\nRead any existing files under "@ + path@
                + "/ before implementing; prior review findings or evidence may already be there."@);
        },
        None => {},
    }
    let mut third =
        "\n\n## Attachments\nSave evidence files (screenshots, recordings, test output) to:\n".to_owned();
    third.push_str(path.as_str());
    third.push_str(
        "/\nCreate the directory if it does not exist. Reference saved files in your --artifact text.",
    );
    out.push_str(second.as_str());
    out.push_str(third.as_str());
    out
}

/// What the worker of a task is told.
pub fn format_task_prompt_output(task: &Task, config: &Config, state_dir: &str) -> (r: String)
    ensures
        r@ == task_prompt(task@, config@, state_dir@),
{
    if str_eq(task.state.as_str(), INITIAL_PHASE_NAME) {
        return "Run: agira task todo --artifact \"task accepted\" to advance the task to the next phase.".to_owned();
    }
    let model = effective_task_model(task, task.state.as_str(), config);
    let duty = effective_task_duty(task, task.state.as_str(), config);
    let mut out = "# Agira Task Prompt\n\n## Task\n- ID: ".to_owned();
    out.push_str(task.id.as_str());
    out.push_str("\n- Title: ");
    out.push_str(task.title.as_str());
    out.push_str("\n- Current phase: ");
    out.push_str(task.state.as_str());
    let mut role = String::new();
    match model {
        Some(m) => {
            role = "\n- Agent role: ".to_owned();
            role.push_str(m);
        },
        None => {},
    }
    out.push_str(role.as_str());
    out.push_str("\n\n## Description\n");
    out.push_str(write_description(task, config).as_str());
    out.push_str(write_warning(task, config).as_str());
    let mut duties = String::new();
    match duty {
        Some(d) => {
            duties = "\n\n## Phase Duty\n".to_owned();
            duties.push_str(d);
        },
        None => {},
    }
    out.push_str(duties.as_str());
    let mut done = String::new();
    if !task.phases.is_empty() {
        done = "\n\n## Acceptance Criteria".to_owned();
        done.push_str(write_outcomes(&prior_phases(task, config)).as_str());
    }
    out.push_str(done.as_str());
    out.push_str(write_context(task, state_dir).as_str());
    let mut checkpoints =
        "\n\n## Checkpoints\nNEVER ask the user a question in-session. If a user decision is required to proceed, block the task instead of proceeding or guessing. Blocking is the correct escalation path whenever a checkpoint is needed, not a last resort. Write each question clearly on its own line in the reason, then stop. Run:\n`agira task block ".to_owned();
    checkpoints.push_str(task.id.as_str());
    checkpoints.push_str(" --reason \"<questions>\"`");
    out.push_str(checkpoints.as_str());
    let mut completion = String::new();
    let handed_over = match model {
        Some(m) => !m.is_empty(),
        None => false,
    };
    if !handed_over {
        completion = "\n\n## Completion\n`agira task todo --task ".to_owned();
        completion.push_str(task.id.as_str());
        completion.push_str(" --from ");
        completion.push_str(task.state.as_str());
        completion.push_str(" --artifact \"<evidence>\"`");
    }
    out.push_str(completion.as_str());
    out
}

// ---------------------------------------------------------------------------------------------
// Summaries
// ---------------------------------------------------------------------------------------------

/// There are tasks and all of them stand in the terminal phase.
pub open spec fn all_done(tasks: Seq<TaskView>, config: ConfigView) -> bool {
    tasks.len() > 0 && config.terminal() is Some && forall|i: int|
        0 <= i < tasks.len() ==> (#[trigger] tasks[i]).state == config.terminal()->0
}

/// Whether there are tasks and all of them stand in the terminal phase.
pub fn is_all_done(tasks: &[Task], config: &Config) -> (r: bool)
    ensures
        r == all_done(tasks.deep_view(), config@),
{
    if tasks.len() == 0 {
        return false;
    }
    let terminal = match config.terminal_phase() {
        None => {
            return false;
        },
        Some(t) => t,
    };
    let mut i: usize = 0;
    while i < tasks.len()
        invariant
            i <= tasks.len(),
            config@.terminal() == Some(terminal@),
            forall|j: int| 0 <= j < i ==> (#[trigger] tasks.deep_view()[j]).state == terminal@,
        decreases tasks.len() - i,
    {
        assert(tasks.deep_view()[i as int] == tasks@[i as int]@);
        if !str_eq(tasks[i].state.as_str(), terminal) {
            return false;
        }
        i = i + 1;
    }
    true
}

/// The first time is after the second; where one of them cannot be read, the texts decide.
pub open spec fn completed_after(a: Seq<char>, b: Seq<char>) -> bool {
    match (rfc3339(a), rfc3339(b)) {
        (Some(x), Some(y)) => !y.at_or_after(x),
        _ => lex_lt(b, a),
    }
}

fn is_completed_after(a: &str, b: &str) -> (r: bool)
    ensures
        r == completed_after(a@, b@),
{
    match (Instant::parse(a), Instant::parse(b)) {
        (Some(x), Some(y)) => !y.reached(&x),
        _ => str_lt(b, a),
    }
}

/// The entry completed last; of those completed at the same time the one walked last.
pub open spec fn latest_phase(phases: Seq<(Seq<char>, TaskPhaseView)>) -> Option<TaskPhaseView>
    decreases phases.len(),
{
    if phases.len() == 0 {
        None
    } else {
        match latest_phase(phases.drop_last()) {
            None => Some(phases.last().1),
            Some(best) => if completed_after(best.completed_at, phases.last().1.completed_at) {
                Some(best)
            } else {
                Some(phases.last().1)
            },
        }
    }
}

/// What came out of the phase that was completed last.
pub open spec fn final_artifact(t: TaskView) -> Seq<char> {
    match latest_phase(t.phases) {
        Some(p) => or_else(p.artifact, "<none>"@),
        None => "<none>"@,
    }
}

/// What came out of the phase that was completed last.
pub fn latest_artifact(task: &Task) -> (r: String)
    ensures
        r@ == final_artifact(task@),
{
    let ghost all = task@.phases;
    let mut best: Option<usize> = None;
    let mut i: usize = 0;
    assert(all.take(0) =~= Seq::empty());
    while i < task.phases.len()
        invariant
            i <= all.len(),
            all == task@.phases,
            match best {
                Some(b) => b < i && latest_phase(all.take(i as int)) == Some(all[b as int].1),
                None => latest_phase(all.take(i as int)) is None,
            },
        decreases all.len() - i,
    {
        assert(all.take(i + 1).drop_last() =~= all.take(i as int));
        assert(all.take(i + 1).last() == all[i as int]);
        match best {
            None => {
                best = Some(i);
            },
            Some(b) => {
                if !is_completed_after(
                    task.phases.value_at(b).completed_at.as_str(),
                    task.phases.value_at(i).completed_at.as_str(),
                ) {
                    best = Some(i);
                }
            },
        }
        i = i + 1;
    }
    assert(all.take(i as int) =~= all);
    match best {
        Some(b) => or_else_str(task.phases.value_at(b).artifact.as_str(), "<none>").to_owned(),
        None => "<none>".to_owned(),
    }
}

/// The order of tasks by the numbers of their ids.
pub struct ByNumber;

impl StableOrder<Task> for ByNumber {
    open spec fn precedes(a: TaskView, b: TaskView) -> bool {
        pick_number(a.id) < pick_number(b.id)
    }

    fn check(a: &Task, b: &Task) -> (r: bool) {
        task_id_number(a.id.as_str()) < task_id_number(b.id.as_str())
    }
}

/// The lines about completed tasks.
pub open spec fn completed_lines(tasks: Seq<TaskView>) -> Seq<char>
    decreases tasks.len(),
{
    if tasks.len() == 0 {
        "# Agira Completion Summary\n\nAll tasks are in the terminal done phase.\n\n## Completed Tasks"@
    } else {
        completed_lines(tasks.drop_last()) + "\n- "@ + tasks.last().id + ": "@ + tasks.last().title
            + "\n  Final artifact: "@ + final_artifact(tasks.last())
    }
}

/// What is said where all tasks are done, in the order of their numbers.
pub open spec fn completion_summary(tasks: Seq<TaskView>) -> Seq<char> {
    completed_lines(sorted_by(tasks, order_of::<Task, ByNumber>()))
}

/// What is said where all tasks are done.
pub fn format_completion_summary(tasks: &[Task]) -> (r: String)
    ensures
        r@ == completion_summary(tasks.deep_view()),
{
    let ordered: Vec<Task> = stable_sort::<Task, ByNumber>(tasks);
    let ghost all = ordered.deep_view();
    let mut out =
        "# Agira Completion Summary\n\nAll tasks are in the terminal done phase.\n\n## Completed Tasks".to_owned();
    let mut i: usize = 0;
    assert(all.take(0) =~= Seq::empty());
    while i < ordered.len()
        invariant
            i <= ordered.len(),
            all == ordered.deep_view(),
            out@ == completed_lines(all.take(i as int)),
        decreases ordered.len() - i,
    {
        assert(all.take(i + 1).drop_last() =~= all.take(i as int));
        assert(all.take(i + 1).last() == ordered@[i as int]@);
        out.push_str("\n- ");
        out.push_str(ordered[i].id.as_str());
        out.push_str(": ");
        out.push_str(ordered[i].title.as_str());
        out.push_str("\n  Final artifact: ");
        out.push_str(latest_artifact(&ordered[i]).as_str());
        i = i + 1;
    }
    assert(all.take(i as int) =~= all);
    out
}

/// What is said where nothing can be worked on.
pub open spec fn standstill_summary(tasks: Seq<TaskView>) -> Seq<char>
    decreases tasks.len(),
{
    if tasks.len() == 0 {
        "# Agira Task Summary\n\nNo actionable tasks found. All remaining tasks are blocked, failed, or complete.\n\n## Non-actionable Tasks"@
    } else {
        standstill_summary(tasks.drop_last()) + "\n- "@ + tasks.last().id + ": "@
            + tasks.last().title + " ("@ + tasks.last().state + ")"@
    }
}

/// What is said where nothing can be worked on.
pub fn format_non_actionable_summary(tasks: &[Task]) -> (r: String)
    ensures
        r@ == standstill_summary(tasks.deep_view()),
{
    let ghost all = tasks.deep_view();
    let mut out =
        "# Agira Task Summary\n\nNo actionable tasks found. All remaining tasks are blocked, failed, or complete.\n\n## Non-actionable Tasks".to_owned();
    let mut i: usize = 0;
    assert(all.take(0) =~= Seq::empty());
    while i < tasks.len()
        invariant
            i <= tasks.len(),
            all == tasks.deep_view(),
            out@ == standstill_summary(all.take(i as int)),
        decreases tasks.len() - i,
    {
        assert(all.take(i + 1).drop_last() =~= all.take(i as int));
        assert(all.take(i + 1).last() == tasks@[i as int]@);
        out.push_str("\n- ");
        out.push_str(tasks[i].id.as_str());
        out.push_str(": ");
        out.push_str(tasks[i].title.as_str());
        out.push_str(" (");
        out.push_str(tasks[i].state.as_str());
        out.push_str(")");
        i = i + 1;
    }
    assert(all.take(i as int) =~= all);
    out
}

/// What the one who asks for work is told.
pub open spec fn pick_output(
    config: ConfigView,
    tasks: Seq<TaskView>,
    state_dir: Seq<char>,
    runner: Option<(RunnerRegistryView, Seq<char>)>,
    now: Instant,
) -> Seq<char> {
    if tasks.len() == 0 {
        NO_TASKS_MESSAGE@
    } else if all_done(tasks, config) {
        completion_summary(tasks)
    } else {
        match chosen(tasks, config, runner, now) {
            Some(t) => task_prompt(t, config, state_dir),
            None => standstill_summary(tasks),
        }
    }
}

fn pick_output_at(
    config: &Config,
    tasks: &[Task],
    state_dir: &str,
    runner: Option<(&RunnerRegistry, &str)>,
    now: Instant,
) -> (r: String)
    ensures
        r@ == pick_output(config@, tasks.deep_view(), state_dir@, runner.deep_view(), now),
{
    if tasks.len() == 0 {
        return NO_TASKS_MESSAGE.to_owned();
    }
    if is_all_done(tasks, config) {
        return format_completion_summary(tasks);
    }
    match select_next_task_with_leases_at(tasks, config, runner, now) {
        Some(task) => format_task_prompt_output(task, config, state_dir),
        None => format_non_actionable_summary(tasks),
    }
}

/// What the one who asks for work at a given time is told.
pub fn format_pick_output_at(config: &Config, tasks: &[Task], state_dir: &str, now: Instant) -> (r:
    String)
    ensures
        r@ == pick_output(config@, tasks.deep_view(), state_dir@, None, now),
{
    pick_output_at(config, tasks, state_dir, None, now)
}

/// What the one who asks for work is told.
pub fn format_pick_output(config: &Config, tasks: &[Task], state_dir: &str) -> (r: String)
    ensures
        exists|now: Instant|
            now.on_calendar() && r@ == #[trigger] pick_output(
                config@,
                tasks.deep_view(),
                state_dir@,
                None,
                now,
            ),
{
    format_pick_output_at(config, tasks, state_dir, Instant::now())
}

/// What a runner that asks for work is told.
pub fn format_pick_output_for_runner(
    config: &Config,
    tasks: &[Task],
    state_dir: &str,
    runner_registry: &RunnerRegistry,
    runner_id: &str,
    now: Instant,
) -> (r: String)
    ensures
        r@ == pick_output(
            config@,
            tasks.deep_view(),
            state_dir@,
            Some((runner_registry@, runner_id@)),
            now,
        ),
{
    pick_output_at(config, tasks, state_dir, Some((runner_registry, runner_id)), now)
}

} // verus!
