//! What holds of the task that is chosen next.

use vstd::prelude::*;

use crate::engine::config::ConfigView;
use crate::engine::pick::{
    beats, chosen, dependency_done, eligible, is_choice, law_chosen_task_is_eligible,
    leased_to_other, other_lease_at, pick_number,
};
use crate::engine::runner::RunnerRegistryView;
use crate::engine::tasks::{
    law_position_is_the_first, lemma_position, lemma_task_index, task_index, TaskView,
};
use crate::text::{
    decimal_padded, is_digit, lemma_after_last, lemma_decimal_round_trip, lemma_padded_digits,
};
use crate::time::{rfc3339, Instant};

verus! {

/// A lock that was given back, or that was taken an hour ago or earlier.
pub open spec fn lock_is_over(t: TaskView, now: Instant) -> bool {
    t.locked_at matches Some(text) ==> (rfc3339(text) matches Some(at) && now.seconds_since(at)
        >= 3600)
}

/// No runner other than the one that asks holds a task under a lease that still runs.
pub open spec fn not_held_by_another(
    t: TaskView,
    runner: Option<(RunnerRegistryView, Seq<char>)>,
    now: Instant,
) -> bool {
    runner matches Some((registry, asking)) ==> forall|i: int|
        #![trigger registry.runners[i]]
        0 <= i < registry.runners.len() && registry.runners[i].0 != asking
            && registry.runners[i].1.current_task == Some(t.id) ==> (
        registry.runners[i].1.lease_expires_at matches Some(text) ==> (rfc3339(text) matches Some(
            end,
        ) && now.at_or_after(end)))
}

/// The first task with an id stands at a place and is done.
pub open spec fn done_at(all: Seq<TaskView>, id: Seq<char>, done: Seq<char>, i: int) -> bool {
    &&& 0 <= i < all.len()
    &&& all[i].id == id
    &&& all[i].state == done
    &&& forall|j: int| 0 <= j < i ==> (#[trigger] all[j]).id != id
}

/// The task with an id is among the tasks and is done.
pub open spec fn done_among(all: Seq<TaskView>, id: Seq<char>, done: Seq<char>) -> bool {
    exists|i: int| #[trigger] done_at(all, id, done, i)
}

/// Every task that a task depends on is among the tasks and is done.
pub open spec fn nothing_to_wait_for(t: TaskView, all: Seq<TaskView>, done: Seq<char>) -> bool {
    forall|k: int|
        0 <= k < t.dependencies.len() ==> done_among(all, #[trigger] t.dependencies[k], done)
}

/// A task that the one who asks may take up: it is in a phase of its workflow and neither done, nor
/// given up, nor blocked; nobody else is at work on it; and nothing that it waits for is open.
pub open spec fn may_be_taken_up(
    t: TaskView,
    all: Seq<TaskView>,
    config: ConfigView,
    runner: Option<(RunnerRegistryView, Seq<char>)>,
    now: Instant,
) -> bool {
    let usual = config.sequence(config.default_workflow);
    &&& usual.len() > 0
    &&& config.sequence(t.workflow).contains(t.state)
    &&& t.state != usual.last()
    &&& t.state != "failed"@
    &&& t.state != "blocked"@
    &&& lock_is_over(t, now)
    &&& not_held_by_another(t, runner, now)
    &&& nothing_to_wait_for(t, all, usual.last())
}

proof fn lemma_may_be_taken_up(
    t: TaskView,
    all: Seq<TaskView>,
    config: ConfigView,
    runner: Option<(RunnerRegistryView, Seq<char>)>,
    now: Instant,
)
    ensures
        eligible(t, all, config, runner, now) == may_be_taken_up(t, all, config, runner, now),
{
    let usual = config.sequence(config.default_workflow);
    lemma_position(config.sequence(t.workflow), t.state);
    if eligible(t, all, config, runner, now) {
        if runner is Some {
            let (registry, asking) = runner->0;
            assert forall|i: int|
                #![trigger registry.runners[i]]
                0 <= i < registry.runners.len() && registry.runners[i].0 != asking
                    && registry.runners[i].1.current_task == Some(t.id) implies (
            registry.runners[i].1.lease_expires_at matches Some(text) ==> (rfc3339(
                text,
            ) matches Some(end) && now.at_or_after(end))) by {
                assert(!other_lease_at(registry.runners, asking, t.id, now, i));
            }
        }
        assert forall|k: int| 0 <= k < t.dependencies.len() implies done_among(
            all,
            #[trigger] t.dependencies[k],
            usual.last(),
        ) by {
            assert(dependency_done(t.dependencies[k], all, usual.last()));
            lemma_task_index(all, t.dependencies[k]);
            let i = task_index(all, t.dependencies[k])->0;
            assert(done_at(all, t.dependencies[k], usual.last(), i));
        }
    }
    if may_be_taken_up(t, all, config, runner, now) {
        assert forall|k: int| 0 <= k < t.dependencies.len() implies dependency_done(
            #[trigger] t.dependencies[k],
            all,
            usual.last(),
        ) by {
            assert(done_among(all, t.dependencies[k], usual.last()));
            let i = choose|i: int| #[trigger] done_at(all, t.dependencies[k], usual.last(), i);
            assert(done_at(all, t.dependencies[k], usual.last(), i));
            lemma_task_index(all, t.dependencies[k]);
            let m = task_index(all, t.dependencies[k]);
            assert(m is Some);
            if m->0 < i {
                assert(all[m->0].id != t.dependencies[k]);
            }
        }
        if runner is Some {
            let (registry, asking) = runner->0;
            assert(!leased_to_other(registry.runners, asking, t.id, now)) by {
                assert forall|i: int| !#[trigger] other_lease_at(
                    registry.runners,
                    asking,
                    t.id,
                    now,
                    i,
                ) by {
                    if 0 <= i < registry.runners.len() {
                        let e = registry.runners[i];
                    }
                }
            }
        }
    }
}

/// The task that is chosen is one of the tasks and may be taken up, and one is chosen whenever
/// some task may be.
pub proof fn law_chosen_task_may_be_taken_up(
    all: Seq<TaskView>,
    config: ConfigView,
    runner: Option<(RunnerRegistryView, Seq<char>)>,
    now: Instant,
)
    ensures
        chosen(all, config, runner, now) matches Some(t) ==> all.contains(t) && may_be_taken_up(
            t,
            all,
            config,
            runner,
            now,
        ),
        forall|j: int|
            #![trigger all[j]]
            0 <= j < all.len() && may_be_taken_up(all[j], all, config, runner, now) ==> chosen(
                all,
                config,
                runner,
                now,
            ) is Some,
{
    law_chosen_task_is_eligible(all, config, runner, now);
    if chosen(all, config, runner, now) is Some {
        lemma_may_be_taken_up(chosen(all, config, runner, now)->0, all, config, runner, now);
    }
    assert forall|j: int|
        #![trigger all[j]]
        0 <= j < all.len() && may_be_taken_up(all[j], all, config, runner, now) implies chosen(
        all,
        config,
        runner,
        now,
    ) is Some by {
        lemma_may_be_taken_up(all[j], all, config, runner, now);
    }
}

/// The task that is chosen has come furthest: no task that may be taken up stands at a later place
/// of its workflow, and none that stands at the same place has a smaller number. Of those that are
/// equal in both it is the last one.
pub proof fn law_furthest_task_is_chosen(
    all: Seq<TaskView>,
    config: ConfigView,
    runner: Option<(RunnerRegistryView, Seq<char>)>,
    now: Instant,
    j: int,
)
    requires
        0 <= j < all.len(),
        may_be_taken_up(all[j], all, config, runner, now),
    ensures
        ({
            let t = chosen(all, config, runner, now)->0;
            let u = all[j];
            let p = config.sequence(t.workflow).index_of_first(t.state);
            let q = config.sequence(u.workflow).index_of_first(u.state);
            &&& chosen(all, config, runner, now) is Some
            &&& p is Some
            &&& q is Some
            &&& q->0 <= p->0
            &&& q->0 == p->0 ==> pick_number(t.id) <= pick_number(u.id)
            &&& q->0 == p->0 && pick_number(t.id) == pick_number(u.id) ==> exists|c: int|
                j <= c < all.len() && #[trigger] all[c] == t
        }),
{
    law_chosen_task_may_be_taken_up(all, config, runner, now);
    law_chosen_task_is_eligible(all, config, runner, now);
    lemma_may_be_taken_up(all[j], all, config, runner, now);
    let t = chosen(all, config, runner, now)->0;
    law_position_is_the_first(config.sequence(t.workflow), t.state);
    law_position_is_the_first(config.sequence(all[j].workflow), all[j].state);
    config.sequence(t.workflow).index_of_first_ensures(t.state);
    config.sequence(all[j].workflow).index_of_first_ensures(all[j].state);
    assert(!beats(t, all[j], config));
    let c = choose|c: int| is_choice(all, config, runner, now, all.len() as int, c);
    assert(is_choice(all, config, runner, now, all.len() as int, c));
    assert(all[c] == t);
}

/// The number of an id is the one that is written after its last hyphen, with or without zeros in
/// front.
pub proof fn law_number_stands_after_the_hyphen(prefix: Seq<char>, n: nat, width: nat)
    requires
        n <= u32::MAX,
    ensures
        pick_number(prefix + "-"@ + decimal_padded(n, width)) == n,
{
    reveal_strlit("-");
    let digits = decimal_padded(n, width);
    lemma_decimal_round_trip(n, width, u32::MAX as nat);
    lemma_padded_digits(n, width);
    assert(!is_digit('-'));
    lemma_after_last(prefix, '-', digits);
    assert(prefix + "-"@ + digits =~= prefix.push('-') + digits);
}

} // verus!
