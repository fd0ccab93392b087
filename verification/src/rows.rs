//! Lists as rows of text, and columns of a fixed width.

use vstd::prelude::*;

use crate::duplicate::Duplicate;
use crate::text::{keep, repeat_char, repeated};

verus! {

/// A way to write an item as a row, in some context.
pub trait RowWriter<T: DeepView, C: DeepView> {
    /// The row of an item.
    spec fn row(item: T::V, context: C::V) -> Seq<char>;

    /// Writes the row of an item.
    fn write(item: &T, context: &C) -> (r: String)
        ensures
            r@ == Self::row(item.deep_view(), context.deep_view()),
    ;
}

/// The rows of some items.
pub open spec fn rows_of<T: DeepView, C: DeepView, W: RowWriter<T, C>>(
    items: Seq<T::V>,
    context: C::V,
) -> Seq<Seq<char>> {
    items.map_values(|x: T::V| W::row(x, context))
}

/// Writes the rows of some items.
pub fn write_rows<T: DeepView, C: DeepView, W: RowWriter<T, C>>(items: &[T], context: &C) -> (r: Vec<
    String,
>)
    ensures
        r.deep_view() == rows_of::<T, C, W>(items.deep_view(), context.deep_view()),
{
    let ghost all = rows_of::<T, C, W>(items.deep_view(), context.deep_view());
    let mut out: Vec<String> = Vec::new();
    let mut i: usize = 0;
    assert(out.deep_view() =~= all.take(0));
    while i < items.len()
        invariant
            i <= items.len(),
            all == rows_of::<T, C, W>(items.deep_view(), context.deep_view()),
            out.deep_view() == all.take(i as int),
        decreases items.len() - i,
    {
        let ghost before = out.deep_view();
        assert(items.deep_view()[i as int] == items@[i as int].deep_view());
        out.push(W::write(&items[i], context));
        assert(out.deep_view() =~= before.push(all[i as int]));
        assert(all.take(i + 1) =~= all.take(i as int).push(all[i as int]));
        i = i + 1;
    }
    assert(all.take(i as int) =~= all);
    out
}

/// A choice among items, in some context.
pub trait Choice<T: DeepView, C: DeepView> {
    /// Whether an item is chosen.
    spec fn holds(item: T::V, context: C::V) -> bool;

    /// Whether an item is chosen.
    fn check(item: &T, context: &C) -> (r: bool)
        ensures
            r == Self::holds(item.deep_view(), context.deep_view()),
    ;
}

/// The items that are chosen.
pub open spec fn choice<T: DeepView, C: DeepView, P: Choice<T, C>>(context: C::V) -> spec_fn(
    T::V,
) -> bool {
    |x: T::V| P::holds(x, context)
}

/// Copies the items that are chosen.
pub fn keep_chosen<T: Duplicate, C: DeepView, P: Choice<T, C>>(items: &[T], context: &C) -> (r: Vec<T>)
    ensures
        r.deep_view() == keep(items.deep_view(), choice::<T, C, P>(context.deep_view())),
{
    let ghost all = items.deep_view();
    let ghost p = choice::<T, C, P>(context.deep_view());
    let mut out: Vec<T> = Vec::new();
    let mut i: usize = 0;
    assert(all.take(0) =~= Seq::<T::V>::empty());
    assert(out.deep_view() =~= Seq::<T::V>::empty());
    while i < items.len()
        invariant
            i <= items.len(),
            all == items.deep_view(),
            p == choice::<T, C, P>(context.deep_view()),
            out.deep_view() == keep(all.take(i as int), p),
        decreases items.len() - i,
    {
        let ghost before = out.deep_view();
        assert(all.take(i + 1).drop_last() =~= all.take(i as int));
        assert(all.take(i + 1).last() == items@[i as int].deep_view());
        if P::check(&items[i], context) {
            out.push(items[i].duplicate());
            assert(out.deep_view() =~= before.push(all[i as int]));
        }
        i = i + 1;
    }
    assert(all.take(i as int) =~= all);
    out
}

/// A text with spaces behind, up to the given width.
pub open spec fn padded(s: Seq<char>, width: nat) -> Seq<char> {
    if s.len() >= width {
        s
    } else {
        s + repeated(' ', (width - s.len()) as nat)
    }
}

/// A text with spaces in front, up to the given width.
pub open spec fn padded_left(s: Seq<char>, width: nat) -> Seq<char> {
    if s.len() >= width {
        s
    } else {
        repeated(' ', (width - s.len()) as nat) + s
    }
}

/// A text with spaces behind, up to the given width.
pub fn pad(s: &str, width: usize) -> (r: String)
    ensures
        r@ == padded(s@, width as nat),
{
    let n: usize = s.unicode_len();
    let mut out = s.to_owned();
    if n < width {
        out.push_str(repeat_char(' ', width - n).as_str());
    }
    out
}

/// A text with spaces in front, up to the given width.
pub fn pad_left(s: &str, width: usize) -> (r: String)
    ensures
        r@ == padded_left(s@, width as nat),
{
    let n: usize = s.unicode_len();
    if n < width {
        let mut out = repeat_char(' ', width - n);
        out.push_str(s);
        out
    } else {
        s.to_owned()
    }
}

/// A text that is cut off after some characters, with a sign for what is left out.
pub open spec fn truncated(s: Seq<char>, limit: nat) -> Seq<char> {
    if s.len() > limit {
        s.take(limit as int).push('…')
    } else {
        s
    }
}

/// A text that is cut off after some characters, with a sign for what is left out.
pub fn truncate_chars(value: &str, limit: usize) -> (r: String)
    ensures
        r@ == truncated(value@, limit as nat),
{
    let n: usize = value.unicode_len();
    if n > limit {
        let head = value.substring_char(0, limit);
        assert(head@ =~= value@.take(limit as int));
        let mut out = head.to_owned();
        out.push('…');
        out
    } else {
        value.to_owned()
    }
}

/// A text that is cut off has at most one character more than it may have.
pub proof fn law_truncated_text_is_short(s: Seq<char>, limit: nat)
    ensures
        truncated(s, limit).len() <= limit + 1,
        s.len() <= limit ==> truncated(s, limit) == s,
{
}

/// The rest of a list from a position, at most so many items; zero stands for all of them.
pub open spec fn window<A>(s: Seq<A>, limit: nat, offset: nat) -> Seq<A> {
    let rest = if offset >= s.len() {
        Seq::empty()
    } else {
        s.skip(offset as int)
    };
    if limit == 0 || limit >= rest.len() {
        rest
    } else {
        rest.take(limit as int)
    }
}

/// The rest of a list from a position, at most so many items; zero stands for all of them.
pub fn paginate<T: Duplicate>(items: &[T], limit: usize, offset: usize) -> (r: Vec<T>)
    ensures
        r.deep_view() == window(items.deep_view(), limit as nat, offset as nat),
{
    let n: usize = items.len();
    let from: usize = if offset >= n {
        n
    } else {
        offset
    };
    let to: usize = if limit == 0 || limit >= n - from {
        n
    } else {
        from + limit
    };
    let ghost all = items.deep_view();
    let mut out: Vec<T> = Vec::new();
    let mut i: usize = from;
    assert(out.deep_view() =~= all.subrange(from as int, from as int));
    while i < to
        invariant
            from <= i <= to <= n,
            n == items.len(),
            all == items.deep_view(),
            out.deep_view() == all.subrange(from as int, i as int),
        decreases to - i,
    {
        let ghost before = out.deep_view();
        out.push(items[i].duplicate());
        assert(out.deep_view() =~= before.push(all[i as int]));
        assert(all.subrange(from as int, i + 1) =~= all.subrange(from as int, i as int).push(
            all[i as int],
        ));
        i = i + 1;
    }
    assert(all.subrange(from as int, to as int) =~= window(all, limit as nat, offset as nat));
    out
}

} // verus!
