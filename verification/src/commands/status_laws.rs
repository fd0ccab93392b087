//! What the table of tasks shows.

use vstd::prelude::*;

use crate::commands::status::{
    by_id, header_line, id_before, last_reason, law_table_is_ordered, recent_line, retries,
    shown_state, status, status_table, table_page, trailing_number, ById, FileSeenView,
    StatusErrorView, StatusRow, StatusSeenView,
};
use crate::commands::task_command_laws::finds;
use crate::engine::change_laws::{
    law_first_task_is_found, law_found_task_stands_somewhere, stands_at,
};
use crate::engine::config::ConfigView;
use crate::engine::project::ProjectView;
use crate::engine::tasks::{find_task, Task, TaskStoreView, TaskView};
use crate::rows::{padded, padded_left, truncated, window, RowWriter};
use crate::sorting::{law_sorting_keeps_elements, order_of};
use crate::text::{
    after_last, decimal, decimal_padded, is_digit, lemma_after_last, lemma_decimal_round_trip,
    lemma_padded_digits, lex_lt, repeated,
};
use crate::time::Instant;

verus! {

/// Where nothing else is asked for, the table shows the last twenty tasks in the order of their
/// ids, or all where there are fewer, and says so where there are more.
pub proof fn law_latest_tasks_are_shown(tasks: Seq<TaskView>, terminal: Seq<char>)
    ensures
        ({
            let n = tasks.len();
            let all = by_id(tasks);
            let shown = if n > 20 {
                all.skip(n - 20)
            } else {
                all
            };
            &&& all.len() == n
            &&& shown.len() == if n > 20 {
                20
            } else {
                n
            }
            &&& table_page(tasks, terminal, None, None) == status_table(shown, terminal) + if n
                > 20 {
                "\nShowing latest 20 of "@ + decimal(n)
                    + " tasks. Use --offset or --limit to see more."@
            } else {
                Seq::empty()
            }
        }),
{
    law_table_is_ordered(tasks);
    let all = by_id(tasks);
    law_sorting_keeps_elements(tasks, order_of::<Task, ById>());
    assert(all.skip(0) =~= all);
    if all.len() > 20 {
        reveal_strlit("\n");
        reveal_strlit("Showing latest ");
        reveal_strlit(" of ");
        reveal_strlit("\nShowing latest 20 of ");
        assert(decimal(20) =~= seq!['2', '0']) by {
            reveal_with_fuel(decimal, 3);
        }
        assert("\n"@ + "Showing latest "@ + decimal(20) + " of "@ =~= "\nShowing latest 20 of "@);
    }
    if all.len() == 0 {
        assert(window(all, 20, 0) =~= all);
    }
    assert(status_table(
        if all.len() > 20 {
            all.skip(all.len() - 20)
        } else {
            all
        },
        terminal,
    ) + Seq::<char>::empty() =~= status_table(
        if all.len() > 20 {
            all.skip(all.len() - 20)
        } else {
            all
        },
        terminal,
    ));
}

/// Where a part of the table is asked for, it starts behind as many tasks as were to be passed
/// over, none where that is not said, and shows as many as were asked for, twenty where that is not
/// said and all of them for zero.
pub proof fn law_asked_part_is_shown(
    tasks: Seq<TaskView>,
    terminal: Seq<char>,
    limit: Option<usize>,
    offset: Option<usize>,
)
    requires
        limit is Some || offset is Some,
    ensures
        ({
            let n = tasks.len() as int;
            let from = match offset {
                Some(x) => if x <= n {
                    x as int
                } else {
                    n
                },
                None => 0,
            };
            let count = match limit {
                Some(x) => x as int,
                None => 20,
            };
            let to = if count == 0 || from + count > n {
                n
            } else {
                from + count
            };
            table_page(tasks, terminal, limit, offset) == status_table(
                by_id(tasks).subrange(from, to),
                terminal,
            ) + if count != 0 && n > count {
                "\nShowing "@ + decimal(count as nat) + " of "@ + decimal(n as nat)
                    + " tasks. Use --offset or --limit to see more."@
            } else {
                Seq::empty()
            }
        }),
{
    law_sorting_keeps_elements(tasks, order_of::<Task, ById>());
    let all = by_id(tasks);
    let n = all.len() as int;
    let count: nat = match limit {
        Some(x) => x as nat,
        None => 20,
    };
    let skip: nat = match offset {
        Some(x) => x as nat,
        None => 0,
    };
    let from = if skip <= n {
        skip as int
    } else {
        n
    };
    let to = if count == 0 || from + count > n {
        n
    } else {
        from + count
    };
    assert(window(all, count, skip) =~= all.subrange(from, to));
    reveal_strlit("\n");
    reveal_strlit("Showing ");
    reveal_strlit("\nShowing ");
    assert("\n"@ + "Showing "@ =~= "\nShowing "@);
}

/// The table holds each task once, and the numbers behind the last hyphen of their ids go up.
pub proof fn law_numbers_go_up(
    tasks: Seq<TaskView>,
    i: int,
    j: int,
    before: Seq<char>,
    after: Seq<char>,
    n: nat,
    m: nat,
    width: nat,
)
    requires
        0 <= i < j < by_id(tasks).len(),
        by_id(tasks)[i].id == before + "-"@ + decimal_padded(n, width),
        by_id(tasks)[j].id == after + "-"@ + decimal_padded(m, width),
        n <= u64::MAX,
        m <= u64::MAX,
    ensures
        by_id(tasks).to_multiset() == tasks.to_multiset(),
        n <= m,
{
    law_table_is_ordered(tasks);
    lemma_number_behind(before, n, width);
    lemma_number_behind(after, m, width);
    assert(!id_before(by_id(tasks)[j].id, by_id(tasks)[i].id));
}

proof fn lemma_number_behind(prefix: Seq<char>, n: nat, width: nat)
    requires
        n <= u64::MAX,
    ensures
        trailing_number(prefix + "-"@ + decimal_padded(n, width)) == Some(n),
{
    reveal_strlit("-");
    let digits = decimal_padded(n, width);
    lemma_decimal_round_trip(n, width, u64::MAX as nat);
    lemma_padded_digits(n, width);
    assert(!is_digit('-'));
    lemma_after_last(prefix, '-', digits);
    assert(prefix + "-"@ + digits =~= prefix.push('-') + digits);
}

/// Tasks whose ids end in a number stand in front of those whose ids hold no hyphen.
pub proof fn law_numbered_tasks_come_first(
    tasks: Seq<TaskView>,
    i: int,
    j: int,
    prefix: Seq<char>,
    n: nat,
    width: nat,
)
    requires
        0 <= i < by_id(tasks).len(),
        0 <= j < by_id(tasks).len(),
        by_id(tasks)[i].id == prefix + "-"@ + decimal_padded(n, width),
        n <= u64::MAX,
        !by_id(tasks)[j].id.contains('-'),
    ensures
        i < j,
{
    law_table_is_ordered(tasks);
    lemma_number_behind(prefix, n, width);
    lemma_no_hyphen(by_id(tasks)[j].id);
    if j < i {
        assert(!id_before(by_id(tasks)[i].id, by_id(tasks)[j].id));
    }
}

proof fn lemma_no_hyphen(id: Seq<char>)
    requires
        !id.contains('-'),
    ensures
        after_last(id, '-') is None,
    decreases id.len(),
{
    if id.len() > 0 {
        assert(id.contains(id.last())) by {
            assert(id[id.len() - 1] == id.last());
        }
        assert(!id.drop_last().contains('-')) by {
            if id.drop_last().contains('-') {
                let k = id.drop_last().index_of('-');
                assert(id[k] == '-');
            }
        }
        lemma_no_hyphen(id.drop_last());
    }
}

/// The row of a task shows its id, its title, its state, how often it was and may be tried, its
/// workflow, and why it moved last.
pub proof fn law_row_shows_the_task(t: TaskView, terminal: Seq<char>)
    ensures
        ({
            let state = if t.state == "blocked"@ {
                "⊘ blocked"@
            } else if t.state == "failed"@ {
                "✗ failed"@
            } else if t.state == terminal {
                "✓ "@ + t.state
            } else {
                t.state
            };
            let reason = if t.history.len() > 0 {
                t.history.last().reason
            } else {
                "-"@
            };
            let row = <StatusRow as RowWriter<Task, String>>::row(t, terminal);
            exists|a: Seq<char>, b: Seq<char>, c: Seq<char>, d: Seq<char>, e: Seq<char>|
                row == t.id + a + truncated(t.title, 40) + b + truncated(state, 13) + c + (decimal(
                    t.retry_count as nat,
                ) + "/"@ + decimal(t.max_retries as nat)) + d + truncated(t.workflow, 14) + e
                    + truncated(reason, 30) && #[trigger] only_spaces(a + b + c + d + e)
        }),
{
    let shown = shown_state(t.state, terminal);
    let title = truncated(t.title, 40);
    let tried = retries(t);
    let flow = truncated(t.workflow, 14);
    reveal_strlit("  ");
    let gap = "  "@;
    let a = filling(t.id, 10) + gap;
    let b = filling(title, 41) + gap;
    let c = filling(shown, 15) + gap + filling(tried, 7);
    let d = gap;
    let e = filling(flow, 15) + gap;
    lemma_filling(t.id, 10);
    lemma_filling(title, 41);
    lemma_filling(shown, 15);
    lemma_filling(tried, 7);
    lemma_filling(flow, 15);
    assert(<StatusRow as RowWriter<Task, String>>::row(t, terminal) =~= t.id + a + title + b + shown + c + tried + d + flow + e
        + truncated(last_reason(t), 30));
    assert(only_spaces(a + b + c + d + e));
}

/// A text of spaces.
pub open spec fn only_spaces(s: Seq<char>) -> bool {
    forall|k: int| 0 <= k < s.len() ==> #[trigger] s[k] == ' '
}

spec fn filling(s: Seq<char>, width: nat) -> Seq<char> {
    if s.len() >= width {
        Seq::empty()
    } else {
        repeated(' ', (width - s.len()) as nat)
    }
}

proof fn lemma_filling(s: Seq<char>, width: nat)
    ensures
        only_spaces(filling(s, width)),
        padded(s, width) == s + filling(s, width),
        padded_left(s, width) == filling(s, width) + s,
{
    assert(s + Seq::<char>::empty() =~= s);
    assert(Seq::<char>::empty() + s =~= s);
}

/// The command shows a line about the runner and the page that is asked for; where a task is asked
/// for it shows that one alone.
pub proof fn law_status_command(
    project: ProjectView,
    seen: StatusSeenView,
    config: ConfigView,
    s: TaskStoreView,
    filter: Option<Seq<char>>,
    limit: Option<usize>,
    offset: Option<usize>,
    clock: Instant,
    now: Instant,
)
    requires
        finds(project, seen.files, config, s),
        seen.tasks_file == FileSeenView::There,
        s.tasks.len() > 0,
    ensures
        ({
            let (report, result) = status(
                project,
                seen,
                false,
                filter,
                limit,
                offset,
                clock,
                now,
            );
            let terminal = config.sequence(config.default_workflow).last();
            &&& filter is None ==> result is Ok && report.report.output == seq![
                header_line(project, seen, now) + "\n\n"@ + table_page(
                    s.tasks,
                    terminal,
                    limit,
                    offset,
                ),
            ]
            &&& forall|i: int|
                filter is Some && #[trigger] stands_at(s.tasks, filter->0, i) ==> result is Ok
                    && report.report.output == seq![status_table(seq![s.tasks[i]], terminal)]
            &&& filter is Some && (forall|i: int|
                0 <= i < s.tasks.len() ==> (#[trigger] s.tasks[i]).id != filter->0) ==> result
                == Err::<(), StatusErrorView>(StatusErrorView::TaskNotFound { id: filter->0 })
            &&& report.report.hooks.len() == 0
            &&& report.report.tasks == if s.migrated {
                Some(s.tasks)
            } else {
                None
            }
        }),
{
    if filter is Some {
        let id = filter->0;
        assert forall|i: int| #[trigger] stands_at(s.tasks, id, i) implies find_task(s.tasks, id)
            == Some(s.tasks[i]) by {
            law_first_task_is_found(s.tasks, id, i);
        }
        if find_task(s.tasks, id) is Some {
            let i = law_found_task_stands_somewhere(s.tasks, id);
            assert(s.tasks[i].id == id);
        }
    }
}

/// Failures are warned of where one is in the log from the last day.
pub proof fn law_recent_failures_are_warned_of(
    project: ProjectView,
    seen: StatusSeenView,
    json: bool,
    filter: Option<Seq<char>>,
    limit: Option<usize>,
    offset: Option<usize>,
    clock: Instant,
    now: Instant,
)
    ensures
        ({
            let warnings = status(project, seen, json, filter, limit, offset, clock, now).0.report.warnings;
            warnings == if exists|k: int|
                0 <= k < seen.hook_log.len() && recent_line(#[trigger] seen.hook_log[k], clock) {
                seq!["warning: recent hook failures in "@ + seen.hook_log_path]
            } else {
                Seq::empty()
            }
        }),
{
}

/// Tasks whose ids end in the same number, and tasks whose ids hold no hyphen, stand in the order of
/// the ids as texts.
pub proof fn law_equal_numbers_go_by_text(
    tasks: Seq<TaskView>,
    i: int,
    j: int,
    before: Seq<char>,
    after: Seq<char>,
    n: nat,
    width: nat,
)
    requires
        0 <= i < j < by_id(tasks).len(),
        n <= u64::MAX,
    ensures
        ({
            let a = by_id(tasks)[i].id;
            let b = by_id(tasks)[j].id;
            &&& a == before + "-"@ + decimal_padded(n, width) && b == after + "-"@ + decimal_padded(
                n,
                width,
            ) ==> !lex_lt(b, a)
            &&& !a.contains('-') && !b.contains('-') ==> !lex_lt(b, a)
        }),
{
    law_table_is_ordered(tasks);
    let a = by_id(tasks)[i].id;
    let b = by_id(tasks)[j].id;
    assert(!id_before(b, a));
    lemma_number_behind(before, n, width);
    lemma_number_behind(after, n, width);
    if !a.contains('-') && !b.contains('-') {
        lemma_no_hyphen(a);
        lemma_no_hyphen(b);
    }
}

} // verus!
