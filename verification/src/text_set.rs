//! Sets of texts, in the order of the texts.

use vstd::prelude::*;

use crate::string_map::{
    has_key, keys, lemma_lookup_at, lemma_lookup_some, lemma_put, put, sorted, StringMap,
};
use crate::text::lex_lt;

verus! {

/// The texts of a list as the keys of a map.
pub open spec fn text_map(items: Seq<Seq<char>>) -> Seq<(Seq<char>, ())>
    decreases items.len(),
{
    if items.len() == 0 {
        Seq::empty()
    } else {
        put(text_map(items.drop_last()), items.last(), ())
    }
}

/// The texts of a list, each once and in their order.
pub open spec fn text_set(items: Seq<Seq<char>>) -> Seq<Seq<char>> {
    keys(text_map(items))
}

/// The texts of a list, each once and in their order.
pub fn sort_texts(items: &Vec<String>) -> (r: Vec<String>)
    ensures
        r.deep_view() == text_set(items.deep_view()),
{
    let ghost all = items.deep_view();
    let mut map: StringMap<()> = StringMap::new();
    let mut i: usize = 0;
    assert(all.take(0) =~= Seq::<Seq<char>>::empty());
    while i < items.len()
        invariant
            i <= items.len(),
            all == items.deep_view(),
            map@ == text_map(all.take(i as int)),
        decreases items.len() - i,
    {
        assert(all.take(i + 1).drop_last() =~= all.take(i as int));
        assert(all.take(i + 1).last() == items@[i as int]@);
        map.insert(items[i].clone(), ());
        i = i + 1;
    }
    assert(all.take(i as int) =~= all);
    map.key_list()
}

proof fn lemma_text_map(items: Seq<Seq<char>>)
    ensures
        sorted(text_map(items)),
        forall|x: Seq<char>| #[trigger] has_key(text_map(items), x) == items.contains(x),
    decreases items.len(),
{
    if items.len() > 0 {
        let front = items.drop_last();
        lemma_text_map(front);
        lemma_put(text_map(front), items.last(), ());
        assert forall|x: Seq<char>| #[trigger] has_key(text_map(items), x) == items.contains(x) by {
            assert(has_key(text_map(front), x) == front.contains(x));
            assert(items[items.len() - 1] == items.last());
            if front.contains(x) {
                let k = front.index_of(x);
                assert(items[k] == x);
            }
            if items.contains(x) && x != items.last() {
                let k = items.index_of(x);
                assert(front[k] == x);
            }
        }
    }
}

/// A set holds the texts of the list it was made of and no others, each once, and they go up.
pub proof fn law_set_holds_the_texts(items: Seq<Seq<char>>)
    ensures
        forall|x: Seq<char>| #[trigger] text_set(items).contains(x) == items.contains(x),
        forall|i: int, j: int|
            0 <= i < j < text_set(items).len() ==> lex_lt(
                #[trigger] text_set(items)[i],
                #[trigger] text_set(items)[j],
            ),
{
    lemma_text_map(items);
    let m = text_map(items);
    let s = text_set(items);
    assert forall|x: Seq<char>| #[trigger] s.contains(x) == items.contains(x) by {
        assert(has_key(m, x) == items.contains(x));
        if s.contains(x) {
            let k = s.index_of(x);
            assert(m[k].0 == x);
            lemma_lookup_at(m, k);
        }
        if has_key(m, x) {
            let k = lemma_lookup_some(m, x);
            assert(s[k] == x);
        }
    }
}

} // verus!
