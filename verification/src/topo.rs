//! Putting things in an order in which each comes after what it needs.

use vstd::prelude::*;


verus! {

/// All that the thing at a position needs is done.
pub open spec fn ready(needs: Seq<Seq<usize>>, j: int, done: Seq<usize>) -> bool {
    forall|k: int| 0 <= k < needs[j].len() ==> done.contains(#[trigger] needs[j][k])
}

/// The first things, up to a number, that need nothing.
pub open spec fn needing_nothing(needs: Seq<Seq<usize>>, n: nat) -> Seq<usize>
    decreases n,
{
    if n == 0 {
        Seq::empty()
    } else {
        let rest = needing_nothing(needs, (n - 1) as nat);
        if needs[n - 1].len() == 0 {
            rest.push((n - 1) as usize)
        } else {
            rest
        }
    }
}

/// The first things, up to a number, that need the one given and of which all needs are done.
pub open spec fn set_free(needs: Seq<Seq<usize>>, n: nat, x: usize, done: Seq<usize>) -> Seq<usize>
    decreases n,
{
    if n == 0 {
        Seq::empty()
    } else {
        let rest = set_free(needs, (n - 1) as nat, x, done);
        if needs[n - 1].contains(x) && ready(needs, n - 1, done) {
            rest.push((n - 1) as usize)
        } else {
            rest
        }
    }
}

/// An order that goes on from one of which so many things are done: each thing that is done sets
/// those free that waited for it last.
pub open spec fn ordered_from(needs: Seq<Seq<usize>>, order: Seq<usize>, head: nat) -> Seq<usize>
    decreases needs.len() - head,
{
    if head >= order.len() || head >= needs.len() {
        order
    } else {
        ordered_from(
            needs,
            order + set_free(needs, needs.len(), order[head as int], order.take(head as int + 1)),
            head + 1,
        )
    }
}

/// The things that can be put in an order in which each comes after what it needs, in the order in
/// which they become free.
pub open spec fn dependency_order(needs: Seq<Seq<usize>>) -> Seq<usize> {
    ordered_from(needs, needing_nothing(needs, needs.len()), 0)
}

fn list_holds(list: &Vec<usize>, x: usize, upto: usize) -> (r: bool)
    requires
        upto <= list.len(),
    ensures
        r == list@.take(upto as int).contains(x),
{
    let ghost front = list@.take(upto as int);
    let mut i: usize = 0;
    while i < upto
        invariant
            i <= upto <= list.len(),
            front == list@.take(upto as int),
            forall|j: int| 0 <= j < i ==> #[trigger] front[j] != x,
        decreases upto - i,
    {
        if list[i] == x {
            assert(front[i as int] == x);
            return true;
        }
        i = i + 1;
    }
    false
}

fn is_ready(needs: &Vec<Vec<usize>>, j: usize, order: &Vec<usize>, upto: usize) -> (r: bool)
    requires
        j < needs.len(),
        upto <= order.len(),
    ensures
        r == ready(needs.deep_view(), j as int, order@.take(upto as int)),
{
    let ghost mine = needs.deep_view()[j as int];
    assert(mine == needs@[j as int].deep_view());
    assert(mine =~= needs@[j as int]@);
    let mut k: usize = 0;
    while k < needs[j].len()
        invariant
            j < needs.len(),
            upto <= order.len(),
            k <= needs@[j as int].len(),
            mine == needs.deep_view()[j as int],
            mine == needs@[j as int]@,
            forall|m: int| 0 <= m < k ==> order@.take(upto as int).contains(#[trigger] mine[m]),
        decreases needs@[j as int].len() - k,
    {
        if !list_holds(order, needs[j][k], upto) {
            assert(!order@.take(upto as int).contains(mine[k as int]));
            return false;
        }
        k = k + 1;
    }
    true
}

fn find_free(needs: &Vec<Vec<usize>>, order: &Vec<usize>, head: usize) -> (r: Vec<usize>)
    requires
        head < order.len(),
    ensures
        r@ == set_free(
            needs.deep_view(),
            needs.len() as nat,
            order@[head as int],
            order@.take(head + 1),
        ),
{
    let x: usize = order[head];
    let mut out: Vec<usize> = Vec::new();
    let mut j: usize = 0;
    while j < needs.len()
        invariant
            j <= needs.len(),
            head < order.len(),
            x == order@[head as int],
            out@ == set_free(needs.deep_view(), j as nat, x, order@.take(head + 1)),
        decreases needs.len() - j,
    {
        assert(needs.deep_view()[j as int] =~= needs@[j as int]@);
        assert(needs@[j as int]@.take(needs@[j as int]@.len() as int) =~= needs@[j as int]@);
        if list_holds(&needs[j], x, needs[j].len()) && is_ready(needs, j, order, head + 1) {
            out.push(j);
        }
        j = j + 1;
    }
    out
}

/// The things that can be put in an order in which each comes after what it needs.
pub fn sort_by_needs(needs: &Vec<Vec<usize>>) -> (r: Vec<usize>)
    ensures
        r@ == dependency_order(needs.deep_view()),
{
    let ghost all = needs.deep_view();
    let ghost n = needs.len() as nat;
    let mut order: Vec<usize> = Vec::new();
    let mut j: usize = 0;
    while j < needs.len()
        invariant
            j <= needs.len(),
            all == needs.deep_view(),
            order@ == needing_nothing(all, j as nat),
        decreases needs.len() - j,
    {
        assert(all[j as int] =~= needs@[j as int]@);
        if needs[j].len() == 0 {
            order.push(j);
        }
        j = j + 1;
    }
    let mut head: usize = 0;
    while head < order.len() && head < needs.len()
        invariant
            head <= needs.len(),
            all == needs.deep_view(),
            ordered_from(all, order@, head as nat) == dependency_order(all),
        decreases needs.len() - head,
    {
        let mut more = find_free(needs, &order, head);
        order.append(&mut more);
        head = head + 1;
    }
    order
}

// ---------------------------------------------------------------------------------------------
// Laws
// ---------------------------------------------------------------------------------------------

/// A list of positions of things.
pub open spec fn in_range(order: Seq<usize>, n: nat) -> bool {
    forall|k: int| 0 <= k < order.len() ==> (#[trigger] order[k]) < n
}

/// Each thing in a list comes after what it needs.
pub open spec fn after_needs(needs: Seq<Seq<usize>>, order: Seq<usize>) -> bool {
    forall|k: int| 0 <= k < order.len() ==> ready(needs, #[trigger] order[k] as int, order.take(k))
}

/// Each thing of which all needs are among the first ones of a list is in the list.
pub open spec fn complete_upto(needs: Seq<Seq<usize>>, order: Seq<usize>, head: nat) -> bool {
    forall|j: int|
        0 <= j < needs.len() && #[trigger] ready(needs, j, order.take(head as int))
            ==> order.contains(j as usize)
}

proof fn lemma_needing_nothing(needs: Seq<Seq<usize>>, n: nat)
    requires
        n <= needs.len() <= usize::MAX,
    ensures
        needing_nothing(needs, n).no_duplicates(),
        forall|k: int|
            0 <= k < needing_nothing(needs, n).len() ==> (#[trigger] needing_nothing(needs, n)[k])
                < n && needs[needing_nothing(needs, n)[k] as int].len() == 0,
        forall|j: int|
            0 <= j < n && (#[trigger] needs[j]).len() == 0 ==> needing_nothing(needs, n).contains(
                j as usize,
            ),
    decreases n,
{
    if n > 0 {
        let rest = needing_nothing(needs, (n - 1) as nat);
        let all = needing_nothing(needs, n);
        lemma_needing_nothing(needs, (n - 1) as nat);
        assert forall|j: int| 0 <= j < n && (#[trigger] needs[j]).len() == 0 implies all.contains(
            j as usize,
        ) by {
            if j < n - 1 {
                let k = rest.index_of(j as usize);
                assert(all[k] == j as usize);
            } else {
                assert(all[rest.len() as int] == j as usize);
            }
        }
    }
}

proof fn lemma_set_free(needs: Seq<Seq<usize>>, n: nat, x: usize, done: Seq<usize>)
    requires
        n <= needs.len() <= usize::MAX,
    ensures
        set_free(needs, n, x, done).no_duplicates(),
        forall|k: int|
            0 <= k < set_free(needs, n, x, done).len() ==> {
                let j = #[trigger] set_free(needs, n, x, done)[k];
                j < n && needs[j as int].contains(x) && ready(needs, j as int, done)
            },
        forall|j: int|
            0 <= j < n && needs[j].contains(x) && #[trigger] ready(needs, j, done) ==> set_free(
                needs,
                n,
                x,
                done,
            ).contains(j as usize),
    decreases n,
{
    if n > 0 {
        let rest = set_free(needs, (n - 1) as nat, x, done);
        let all = set_free(needs, n, x, done);
        lemma_set_free(needs, (n - 1) as nat, x, done);
        assert forall|j: int|
            0 <= j < n && needs[j].contains(x) && #[trigger] ready(needs, j, done) implies all.contains(
        j as usize) by {
            if j < n - 1 {
                let k = rest.index_of(j as usize);
                assert(all[k] == j as usize);
            } else {
                assert(all[rest.len() as int] == j as usize);
            }
        }
    }
}

proof fn lemma_ready_more(needs: Seq<Seq<usize>>, j: int, fewer: Seq<usize>, more: Seq<usize>)
    requires
        ready(needs, j, fewer),
        fewer.is_prefix_of(more),
    ensures
        ready(needs, j, more),
{
    assert forall|k: int| 0 <= k < needs[j].len() implies more.contains(
        #[trigger] needs[j][k],
    ) by {
        assert(fewer.contains(needs[j][k]));
        let m = fewer.index_of(needs[j][k]);
        assert(more[m] == needs[j][k]);
    }
}

proof fn lemma_no_more_than(order: Seq<usize>, n: nat)
    requires
        order.no_duplicates(),
        in_range(order, n),
    ensures
        order.len() <= n,
{
    let places = vstd::set_lib::set_int_range(0, n as int);
    let ints = order.map_values(|x: usize| x as int);
    vstd::set_lib::lemma_int_range(0, n as int);
    assert(ints.no_duplicates()) by {
        assert forall|a: int, b: int| 0 <= a < ints.len() && 0 <= b < ints.len() && a != b implies ints[a]
            != ints[b] by {
            assert(order[a] != order[b]);
        }
    }
    ints.unique_seq_to_set();
    assert(ints.to_set().subset_of(places)) by {
        assert forall|x: int| ints.to_set().contains(x) implies places.contains(x) by {
            let k = ints.index_of(x);
            assert(order[k] < n);
        }
    }
    vstd::set_lib::lemma_len_subset(ints.to_set(), places);
}

proof fn lemma_ordered_from(needs: Seq<Seq<usize>>, order: Seq<usize>, head: nat)
    requires
        needs.len() <= usize::MAX,
        head <= order.len(),
        order.no_duplicates(),
        in_range(order, needs.len()),
        after_needs(needs, order),
        complete_upto(needs, order, head),
        forall|k: int|
            0 <= k < order.len() ==> ready(needs, #[trigger] order[k] as int, order.take(head as int)),
    ensures
        ({
            let r = ordered_from(needs, order, head);
            &&& r.no_duplicates()
            &&& in_range(r, needs.len())
            &&& after_needs(needs, r)
            &&& complete_upto(needs, r, r.len())
        }),
    decreases needs.len() - head,
{
    lemma_no_more_than(order, needs.len());
    if head >= order.len() || head >= needs.len() {
        assert(head == order.len());
        assert(order.take(head as int) =~= order);
    } else {
        let x = order[head as int];
        let before = order.take(head as int);
        let done = order.take(head as int + 1);
        let more = set_free(needs, needs.len(), x, done);
        let longer = order + more;
        lemma_set_free(needs, needs.len(), x, done);
        assert(done =~= before.push(x));
        assert(longer.take(head as int + 1) =~= done);
        assert forall|a: int, b: int|
            0 <= a < longer.len() && 0 <= b < longer.len() && a != b implies longer[a]
            != longer[b] by {
            if a < order.len() && b >= order.len() {
                lemma_not_yet(needs, order, head, a, more[b - order.len()]);
            } else if b < order.len() && a >= order.len() {
                lemma_not_yet(needs, order, head, b, more[a - order.len()]);
            }
        }
        assert forall|k: int| 0 <= k < longer.len() implies (#[trigger] longer[k])
            < needs.len() by {
            if k >= order.len() {
                assert(longer[k] == more[k - order.len()]);
            }
        }
        assert forall|k: int| 0 <= k < longer.len() implies ready(
            needs,
            #[trigger] longer[k] as int,
            longer.take(k),
        ) by {
            if k < order.len() {
                assert(longer[k] == order[k]);
                assert(longer.take(k) =~= order.take(k));
            } else {
                assert(longer[k] == more[k - order.len()]);
                assert(done.is_prefix_of(longer.take(k))) by {
                    assert(longer.take(k).take(head as int + 1) =~= done);
                }
                lemma_ready_more(needs, longer[k] as int, done, longer.take(k));
            }
        }
        assert forall|k: int| 0 <= k < longer.len() implies ready(
            needs,
            #[trigger] longer[k] as int,
            longer.take(head as int + 1),
        ) by {
            if k < order.len() {
                assert(longer[k] == order[k]);
                lemma_ready_more(needs, order[k] as int, before, done);
            } else {
                assert(longer[k] == more[k - order.len()]);
            }
        }
        assert forall|j: int|
            0 <= j < needs.len() && #[trigger] ready(
                needs,
                j,
                longer.take(head as int + 1),
            ) implies longer.contains(j as usize) by {
            if needs[j].contains(x) {
                assert(ready(needs, j, done));
                let k = more.index_of(j as usize);
                assert(longer[order.len() + k] == j as usize);
            } else {
                assert forall|k: int| 0 <= k < needs[j].len() implies before.contains(
                    #[trigger] needs[j][k],
                ) by {
                    assert(done.contains(needs[j][k]));
                    assert(needs[j].contains(needs[j][k]));
                    let m = done.index_of(needs[j][k]);
                    assert(m < head);
                    assert(before[m] == needs[j][k]);
                }
                assert(ready(needs, j, before));
                let k = order.index_of(j as usize);
                assert(longer[k] == j as usize);
            }
        }
        lemma_ordered_from(needs, longer, head + 1);
    }
}

proof fn lemma_not_yet(needs: Seq<Seq<usize>>, order: Seq<usize>, head: nat, a: int, j: usize)
    requires
        order.no_duplicates(),
        head < order.len(),
        0 <= a < order.len(),
        needs[j as int].contains(order[head as int]),
        ready(needs, order[a] as int, order.take(head as int)),
    ensures
        order[a] != j,
{
    if order[a] == j {
        let k = needs[j as int].index_of(order[head as int]);
        assert(order.take(head as int).contains(needs[j as int][k]));
        let m = order.take(head as int).index_of(order[head as int]);
        assert(order[m] == order[head as int]);
    }
}

/// Things are put in an order in which each comes once and after all that it needs. What is left
/// out cannot be put in: it needs something that is left out too.
pub proof fn law_order_respects_needs(needs: Seq<Seq<usize>>)
    requires
        needs.len() <= usize::MAX,
    ensures
        ({
            let r = dependency_order(needs);
            &&& r.no_duplicates()
            &&& in_range(r, needs.len())
            &&& after_needs(needs, r)
            &&& forall|j: int|
                0 <= j < needs.len() && !r.contains(j as usize) ==> !#[trigger] ready(needs, j, r)
        }),
{
    let start = needing_nothing(needs, needs.len());
    lemma_needing_nothing(needs, needs.len());
    assert(start.take(0) =~= Seq::<usize>::empty());
    assert forall|j: int|
        0 <= j < needs.len() && #[trigger] ready(needs, j, start.take(0)) implies start.contains(
        j as usize,
    ) by {
        if needs[j].len() > 0 {
            assert(start.take(0).contains(needs[j][0]));
        }
    }
    lemma_ordered_from(needs, start, 0);
    let r = dependency_order(needs);
    assert(r.take(r.len() as int) =~= r);
}

/// Where every thing can be put in, the order holds each of them.
pub proof fn law_full_order_holds_all(needs: Seq<Seq<usize>>)
    requires
        needs.len() <= usize::MAX,
        dependency_order(needs).len() == needs.len(),
    ensures
        forall|j: int| 0 <= j < needs.len() ==> dependency_order(needs).contains(#[trigger] (j as usize)),
{
    law_order_respects_needs(needs);
    let r = dependency_order(needs);
    let n = needs.len();
    assert forall|j: int| 0 <= j < n implies r.contains(#[trigger] (j as usize)) by {
        if !r.contains(j as usize) {
            let longer = r.push(j as usize);
            assert(longer.no_duplicates()) by {
                assert forall|a: int, b: int|
                    0 <= a < longer.len() && 0 <= b < longer.len() && a != b implies longer[a]
                    != longer[b] by {
                    if a == r.len() {
                        assert(r[b] == longer[b]);
                        assert(r.contains(r[b]));
                    } else if b == r.len() {
                        assert(r[a] == longer[a]);
                        assert(r.contains(r[a]));
                    }
                }
            }
            lemma_no_more_than(longer, n);
        }
    }
}

proof fn lemma_goes_on(needs: Seq<Seq<usize>>, order: Seq<usize>, head: nat)
    ensures
        order.is_prefix_of(ordered_from(needs, order, head)),
    decreases needs.len() - head,
{
    if head < order.len() && head < needs.len() {
        let more = set_free(needs, needs.len(), order[head as int], order.take(head as int + 1));
        lemma_goes_on(needs, order + more, head + 1);
        let whole = ordered_from(needs, order, head);
        assert(order =~= whole.take(order.len() as int)) by {
            assert((order + more).len() <= whole.len());
            assert forall|k: int| 0 <= k < order.len() implies order[k] == whole[k] by {
                assert((order + more)[k] == whole[k]);
            }
        }
    }
}

proof fn lemma_goes_up(needs: Seq<Seq<usize>>, n: nat)
    requires
        n <= needs.len() <= usize::MAX,
    ensures
        forall|a: int, b: int|
            0 <= a < b < needing_nothing(needs, n).len() ==> (#[trigger] needing_nothing(
                needs,
                n,
            )[a]) < (#[trigger] needing_nothing(needs, n)[b]),
    decreases n,
{
    if n > 0 {
        lemma_goes_up(needs, (n - 1) as nat);
        lemma_needing_nothing(needs, (n - 1) as nat);
    }
}

/// Things that need nothing come first, in the order in which they are given; all others come
/// behind them.
pub proof fn law_free_things_come_first(needs: Seq<Seq<usize>>) -> (count: int)
    requires
        needs.len() <= usize::MAX,
    ensures
        ({
            let r = dependency_order(needs);
            &&& 0 <= count <= r.len()
            &&& forall|a: int, b: int| 0 <= a < b < count ==> (#[trigger] r[a]) < (#[trigger] r[b])
            &&& forall|a: int| 0 <= a < count ==> needs[(#[trigger] r[a]) as int].len() == 0
            &&& forall|a: int|
                count <= a < r.len() ==> needs[(#[trigger] r[a]) as int].len() > 0
            &&& forall|j: int|
                0 <= j < needs.len() && (#[trigger] needs[j]).len() == 0 ==> r.take(count).contains(
                    j as usize,
                )
        }),
{
    let start = needing_nothing(needs, needs.len());
    let r = dependency_order(needs);
    lemma_needing_nothing(needs, needs.len());
    lemma_goes_up(needs, needs.len());
    lemma_goes_on(needs, start, 0);
    law_order_respects_needs(needs);
    let count = start.len() as int;
    assert forall|a: int| 0 <= a < count implies #[trigger] r[a] == start[a] by {}
    assert(r.take(count) =~= start);
    assert forall|a: int| count <= a < r.len() implies needs[(#[trigger] r[a]) as int].len() > 0 by {
        if needs[r[a] as int].len() == 0 {
            assert(start.contains(r[a] as int as usize));
            let k = start.index_of(r[a]);
            assert(r[k] == r[a]);
        }
    }
    count
}

} // verus!
