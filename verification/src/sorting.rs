//! Sorting that keeps equal elements in their order.

use vstd::prelude::*;

use crate::duplicate::Duplicate;

verus! {

/// The position at which an element is put among sorted ones: behind all that it does not have to
/// stand in front of.
pub open spec fn slot<A>(s: Seq<A>, x: A, before: spec_fn(A, A) -> bool) -> int
    decreases s.len(),
{
    if s.len() == 0 {
        0
    } else if before(x, s.last()) {
        slot(s.drop_last(), x, before)
    } else {
        s.len() as int
    }
}

/// The elements sorted by an order, equal ones in the order they came in.
pub open spec fn sorted_by<A>(s: Seq<A>, before: spec_fn(A, A) -> bool) -> Seq<A>
    decreases s.len(),
{
    if s.len() == 0 {
        Seq::empty()
    } else {
        let front = sorted_by(s.drop_last(), before);
        front.insert(slot(front, s.last(), before), s.last())
    }
}

/// An order of which nothing is in front of itself, and which goes over from one element to the
/// next, also by way of equal ones.
pub open spec fn is_order<A>(before: spec_fn(A, A) -> bool) -> bool {
    &&& forall|a: A| !#[trigger] before(a, a)
    &&& forall|a: A, b: A, c: A|
        #![trigger before(a, b), before(b, c)]
        before(a, b) && before(b, c) ==> before(a, c)
    &&& forall|a: A, b: A, c: A|
        #![trigger before(a, b), before(c, b)]
        before(a, b) && !before(c, b) ==> before(a, c)
}

pub proof fn lemma_slot<A>(s: Seq<A>, x: A, before: spec_fn(A, A) -> bool)
    ensures
        0 <= slot(s, x, before) <= s.len(),
        forall|i: int| slot(s, x, before) <= i < s.len() ==> before(x, #[trigger] s[i]),
        slot(s, x, before) > 0 ==> !before(x, s[slot(s, x, before) - 1]),
    decreases s.len(),
{
    if s.len() > 0 && before(x, s.last()) {
        lemma_slot(s.drop_last(), x, before);
        assert forall|i: int| slot(s, x, before) <= i < s.len() implies before(
            x,
            #[trigger] s[i],
        ) by {
            if i < s.len() - 1 {
                assert(s.drop_last()[i] == s[i]);
            }
        }
    }
}

/// Sorting keeps the elements, each as often as it was there.
pub proof fn law_sorting_keeps_elements<A>(s: Seq<A>, before: spec_fn(A, A) -> bool)
    ensures
        sorted_by(s, before).to_multiset() == s.to_multiset(),
        sorted_by(s, before).len() == s.len(),
    decreases s.len(),
{
    broadcast use vstd::seq_lib::group_to_multiset_ensures;

    if s.len() > 0 {
        law_sorting_keeps_elements(s.drop_last(), before);
        let front = sorted_by(s.drop_last(), before);
        lemma_slot(front, s.last(), before);
        let at = slot(front, s.last(), before);
        assert(s =~= s.drop_last().push(s.last()));
        vstd::seq_lib::to_multiset_insert(front, at, s.last());
        assert(sorted_by(s, before).to_multiset() =~= s.to_multiset());
    } else {
        assert(sorted_by(s, before) =~= s);
    }
}

/// After sorting no element stands behind one that it has to stand in front of.
pub proof fn law_sorting_orders<A>(s: Seq<A>, before: spec_fn(A, A) -> bool)
    requires
        is_order(before),
    ensures
        forall|i: int, j: int|
            0 <= i < j < sorted_by(s, before).len() ==> !before(
                #[trigger] sorted_by(s, before)[j],
                #[trigger] sorted_by(s, before)[i],
            ),
    decreases s.len(),
{
    if s.len() > 0 {
        law_sorting_orders(s.drop_last(), before);
        let front = sorted_by(s.drop_last(), before);
        let x = s.last();
        lemma_slot(front, x, before);
        let at = slot(front, x, before);
        let all = front.insert(at, x);
        assert forall|i: int, j: int| 0 <= i < j < all.len() implies !before(
            #[trigger] all[j],
            #[trigger] all[i],
        ) by {
            if i == at {
                assert(all[j] == front[j - 1]);
                if before(front[j - 1], x) {
                    assert(before(x, front[j - 1]));
                    assert(before(x, x));
                }
            } else if j == at {
                assert(all[i] == front[i]);
                if before(x, front[i]) {
                    if i < at - 1 {
                        assert(!before(front[at - 1], front[i]));
                        assert(before(x, front[at - 1]));
                    }
                }
            } else {
                assert(all[i] == front[if i < at { i } else { i - 1 }]);
                assert(all[j] == front[if j < at { j } else { j - 1 }]);
            }
        }
    }
}

/// An order of elements that can be computed.
pub trait StableOrder<T: Duplicate> {
    /// The first element has to stand in front of the second.
    spec fn precedes(a: T::V, b: T::V) -> bool;

    /// Whether the first element has to stand in front of the second.
    fn check(a: &T, b: &T) -> (r: bool)
        ensures
            r == Self::precedes(a.deep_view(), b.deep_view()),
    ;
}

/// The order as a function of two elements.
pub open spec fn order_of<T: Duplicate, O: StableOrder<T>>() -> spec_fn(T::V, T::V) -> bool {
    |a: T::V, b: T::V| O::precedes(a, b)
}

/// The elements sorted by an order, equal ones in the order they came in.
pub fn stable_sort<T: Duplicate, O: StableOrder<T>>(items: &[T]) -> (r: Vec<T>)
    ensures
        r.deep_view() == sorted_by(items.deep_view(), order_of::<T, O>()),
{
    let ghost all = items.deep_view();
    let ghost before = order_of::<T, O>();
    let mut out: Vec<T> = Vec::new();
    let mut i: usize = 0;
    assert(all.take(0) =~= Seq::<T::V>::empty());
    assert(out.deep_view() =~= sorted_by(all.take(0), before));
    while i < items.len()
        invariant
            i <= items.len(),
            all == items.deep_view(),
            before == order_of::<T, O>(),
            out.deep_view() == sorted_by(all.take(i as int), before),
        decreases items.len() - i,
    {
        let ghost front = out.deep_view();
        let ghost x = all[i as int];
        assert(x == items@[i as int].deep_view());
        let mut n: usize = out.len();
        assert(front.take(n as int) =~= front);
        while n > 0 && O::check(&items[i], &out[n - 1])
            invariant
                i < items.len(),
                n <= out.len(),
                all == items.deep_view(),
                x == items@[i as int].deep_view(),
                before == order_of::<T, O>(),
                front == out.deep_view(),
                slot(front, x, before) == slot(front.take(n as int), x, before),
            decreases n,
        {
            assert(front.take(n as int).last() == out@[n - 1].deep_view());
            assert(front.take(n as int).drop_last() =~= front.take(n - 1));
            n = n - 1;
        }
        if n > 0 {
            assert(front.take(n as int).last() == out@[n - 1].deep_view());
        }
        assert(n == slot(front, x, before));
        out.insert(n, items[i].duplicate());
        assert(out.deep_view() =~= front.insert(n as int, x));
        assert(all.take(i + 1).drop_last() =~= all.take(i as int));
        assert(all.take(i + 1).last() == x);
        i = i + 1;
    }
    assert(all.take(i as int) =~= all);
    out
}

} // verus!
