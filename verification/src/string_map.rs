//! Maps keyed by text, walked in the order of their keys.

use vstd::prelude::*;

use crate::duplicate::Duplicate;
use crate::text::{
    lemma_lex_asymmetric, lemma_lex_irreflexive, lemma_lex_total, lemma_lex_transitive, lex_lt,
    str_eq, str_lt,
};

verus! {

/// The keys stand in strictly increasing order, so none occurs twice.
pub open spec fn sorted<T>(m: Seq<(Seq<char>, T)>) -> bool {
    forall|i: int, j: int| 0 <= i < j < m.len() ==> lex_lt((#[trigger] m[i]).0, (#[trigger] m[j]).0)
}

/// The value under a key.
pub open spec fn lookup<T>(m: Seq<(Seq<char>, T)>, key: Seq<char>) -> Option<T>
    decreases m.len(),
{
    if m.len() == 0 {
        None
    } else if m.last().0 == key {
        Some(m.last().1)
    } else {
        lookup(m.drop_last(), key)
    }
}

/// Some entry has the key.
pub open spec fn has_key<T>(m: Seq<(Seq<char>, T)>, key: Seq<char>) -> bool {
    lookup(m, key) is Some
}

/// The number of entries in front of the place of a key.
pub open spec fn rank<T>(m: Seq<(Seq<char>, T)>, key: Seq<char>) -> int
    decreases m.len(),
{
    if m.len() == 0 {
        0
    } else if lex_lt(m.last().0, key) {
        m.len() as int
    } else {
        rank(m.drop_last(), key)
    }
}

/// The map with the value under the key: in place of the one that was there, or as a new entry at
/// the place that the order of the keys gives it.
pub open spec fn put<T>(m: Seq<(Seq<char>, T)>, key: Seq<char>, value: T) -> Seq<(Seq<char>, T)> {
    let at = rank(m, key);
    if at < m.len() && m[at].0 == key {
        m.update(at, (key, value))
    } else {
        m.insert(at, (key, value))
    }
}

/// The map without the key.
pub open spec fn without<T>(m: Seq<(Seq<char>, T)>, key: Seq<char>) -> Seq<(Seq<char>, T)> {
    let at = rank(m, key);
    if at < m.len() && m[at].0 == key {
        m.remove(at)
    } else {
        m
    }
}

/// The keys in their order.
pub open spec fn keys<T>(m: Seq<(Seq<char>, T)>) -> Seq<Seq<char>> {
    m.map_values(|e: (Seq<char>, T)| e.0)
}

/// The rank of a key splits a sorted map: smaller keys in front, the others behind.
pub proof fn lemma_rank<T>(m: Seq<(Seq<char>, T)>, key: Seq<char>)
    requires
        sorted(m),
    ensures
        0 <= rank(m, key) <= m.len(),
        forall|i: int| 0 <= i < rank(m, key) ==> lex_lt((#[trigger] m[i]).0, key),
        forall|i: int| rank(m, key) <= i < m.len() ==> !lex_lt((#[trigger] m[i]).0, key),
    decreases m.len(),
{
    if m.len() > 0 {
        if lex_lt(m.last().0, key) {
            assert forall|i: int| 0 <= i < m.len() implies lex_lt((#[trigger] m[i]).0, key) by {
                if i < m.len() - 1 {
                    lemma_lex_transitive(m[i].0, m.last().0, key);
                }
            }
        } else {
            lemma_rank(m.drop_last(), key);
            let r = rank(m, key);
            assert forall|i: int| 0 <= i < r implies lex_lt((#[trigger] m[i]).0, key) by {
                assert(m.drop_last()[i] == m[i]);
            }
            assert forall|i: int| r <= i < m.len() implies !lex_lt((#[trigger] m[i]).0, key) by {
                if i < m.len() - 1 {
                    assert(m.drop_last()[i] == m[i]);
                }
            }
        }
    }
}

/// A key of a sorted map has the value of its one entry.
pub proof fn lemma_lookup_at<T>(m: Seq<(Seq<char>, T)>, i: int)
    requires
        sorted(m),
        0 <= i < m.len(),
    ensures
        lookup(m, m[i].0) == Some(m[i].1),
    decreases m.len(),
{
    if i < m.len() - 1 {
        lemma_lex_asymmetric(m[i].0, m.last().0);
        lemma_lookup_at(m.drop_last(), i);
    }
}

/// A key that no entry has is not there.
pub proof fn lemma_lookup_none<T>(m: Seq<(Seq<char>, T)>, key: Seq<char>)
    requires
        forall|i: int| 0 <= i < m.len() ==> (#[trigger] m[i]).0 != key,
    ensures
        lookup(m, key) is None,
    decreases m.len(),
{
    if m.len() > 0 {
        assert(m[m.len() - 1].0 != key);
        assert forall|i: int| 0 <= i < m.drop_last().len() implies (#[trigger] m.drop_last()[i]).0
            != key by {
            assert(m[i].0 != key);
        }
        lemma_lookup_none(m.drop_last(), key);
    }
}

/// A key that is there belongs to some entry, which holds its value.
pub proof fn lemma_lookup_some<T>(m: Seq<(Seq<char>, T)>, key: Seq<char>) -> (at: int)
    requires
        has_key(m, key),
    ensures
        0 <= at < m.len(),
        m[at].0 == key,
        lookup(m, key) == Some(m[at].1),
    decreases m.len(),
{
    if m.last().0 == key {
        m.len() - 1
    } else {
        lemma_lookup_some(m.drop_last(), key)
    }
}

/// In a sorted map the entry at the rank of a key tells whether the key is there.
pub proof fn lemma_lookup_rank<T>(m: Seq<(Seq<char>, T)>, key: Seq<char>)
    requires
        sorted(m),
    ensures
        ({
            let at = rank(m, key);
            if at < m.len() && m[at].0 == key {
                lookup(m, key) == Some(m[at].1)
            } else {
                lookup(m, key) is None
            }
        }),
{
    lemma_rank(m, key);
    let at = rank(m, key);
    if at < m.len() && m[at].0 == key {
        lemma_lookup_at(m, at);
    } else {
        assert forall|i: int| 0 <= i < m.len() implies (#[trigger] m[i]).0 != key by {
            if i < at {
                lemma_lex_asymmetric(m[i].0, key);
            } else if at < i {
                lemma_lex_total(m[at].0, key);
                lemma_lex_transitive(key, m[at].0, m[i].0);
                lemma_lex_irreflexive(key);
            }
        }
        lemma_lookup_none(m, key);
    }
}

/// Putting a value under a key keeps the order of the keys, gives that value under that key, and
/// changes nothing under any other.
pub proof fn lemma_put<T>(m: Seq<(Seq<char>, T)>, key: Seq<char>, value: T)
    requires
        sorted(m),
    ensures
        sorted(put(m, key, value)),
        lookup(put(m, key, value), key) == Some(value),
        forall|other: Seq<char>|
            other != key ==> #[trigger] lookup(put(m, key, value), other) == lookup(m, other),
{
    lemma_rank(m, key);
    let at = rank(m, key);
    let p = put(m, key, value);
    if at < m.len() && m[at].0 == key {
        assert forall|i: int, j: int| 0 <= i < j < p.len() implies lex_lt(
            (#[trigger] p[i]).0,
            (#[trigger] p[j]).0,
        ) by {
            assert(p[i].0 == m[i].0);
            assert(p[j].0 == m[j].0);
        }
    } else {
        assert forall|i: int, j: int| 0 <= i < j < p.len() implies lex_lt(
            (#[trigger] p[i]).0,
            (#[trigger] p[j]).0,
        ) by {
            if i == at {
                assert(p[j] == m[j - 1]);
                lemma_lex_total(m[at].0, key);
                if j - 1 > at {
                    lemma_lex_transitive(key, m[at].0, m[j - 1].0);
                }
            } else if j == at {
                assert(p[i] == m[i]);
            } else if i < at && j > at {
                assert(p[i] == m[i] && p[j] == m[j - 1]);
            } else if i > at {
                assert(p[i] == m[i - 1] && p[j] == m[j - 1]);
            } else {
                assert(p[i] == m[i] && p[j] == m[j]);
            }
        }
    }
    assert(p[at] == (key, value));
    lemma_lookup_at(p, at);
    assert forall|other: Seq<char>| other != key implies #[trigger] lookup(p, other) == lookup(
        m,
        other,
    ) by {
        if has_key(m, other) {
            let i = lemma_lookup_some(m, other);
            if at < m.len() && m[at].0 == key {
                assert(p[i] == m[i]);
                lemma_lookup_at(p, i);
            } else if i < at {
                assert(p[i] == m[i]);
                lemma_lookup_at(p, i);
            } else {
                assert(p[i + 1] == m[i]);
                lemma_lookup_at(p, i + 1);
            }
        } else {
            assert forall|i: int| 0 <= i < p.len() implies (#[trigger] p[i]).0 != other by {
                if p[i].0 == other {
                    let k = if at < m.len() && m[at].0 == key {
                        i
                    } else if i < at {
                        i
                    } else {
                        i - 1
                    };
                    assert(p[i] == m[k]);
                    lemma_lookup_at(m, k);
                }
            }
            lemma_lookup_none(p, other);
        }
    }
}

/// Taking a key out keeps the order of the keys, leaves nothing under that key, and changes
/// nothing under any other.
pub proof fn lemma_without<T>(m: Seq<(Seq<char>, T)>, key: Seq<char>)
    requires
        sorted(m),
    ensures
        sorted(without(m, key)),
        lookup(without(m, key), key) is None,
        forall|other: Seq<char>|
            other != key ==> #[trigger] lookup(without(m, key), other) == lookup(m, other),
{
    lemma_rank(m, key);
    lemma_lookup_rank(m, key);
    let at = rank(m, key);
    let p = without(m, key);
    if at < m.len() && m[at].0 == key {
        assert forall|i: int, j: int| 0 <= i < j < p.len() implies lex_lt(
            (#[trigger] p[i]).0,
            (#[trigger] p[j]).0,
        ) by {
            assert(p[i] == m[if i < at { i } else { i + 1 }]);
            assert(p[j] == m[if j < at { j } else { j + 1 }]);
        }
        assert forall|i: int| 0 <= i < p.len() implies (#[trigger] p[i]).0 != key by {
            let k = if i < at { i } else { i + 1 };
            assert(p[i] == m[k]);
            if i < at {
                lemma_lex_asymmetric(m[k].0, m[at].0);
            } else {
                lemma_lex_asymmetric(m[at].0, m[k].0);
            }
        }
        lemma_lookup_none(p, key);
        assert forall|other: Seq<char>| other != key implies #[trigger] lookup(p, other) == lookup(
            m,
            other,
        ) by {
            if has_key(m, other) {
                let i = lemma_lookup_some(m, other);
                let k = if i < at { i } else { i - 1 };
                assert(p[k] == m[i]);
                lemma_lookup_at(p, k);
            } else {
                assert forall|i: int| 0 <= i < p.len() implies (#[trigger] p[i]).0 != other by {
                    let k = if i < at { i } else { i + 1 };
                    assert(p[i] == m[k]);
                    if p[i].0 == other {
                        lemma_lookup_at(m, k);
                    }
                }
                lemma_lookup_none(p, other);
            }
        }
    }
}

/// Two sorted maps that give the same value under each key are the same sequence of entries.
pub proof fn lemma_extensional<T>(a: Seq<(Seq<char>, T)>, b: Seq<(Seq<char>, T)>)
    requires
        sorted(a),
        sorted(b),
        forall|key: Seq<char>| #[trigger] lookup(a, key) == lookup(b, key),
    ensures
        a == b,
    decreases a.len(),
{
    if a.len() == 0 {
        if b.len() > 0 {
            lemma_lookup_at(b, b.len() - 1);
            assert(lookup(a, b[b.len() - 1].0) is None);
        }
        assert(a =~= b);
    } else {
        lemma_lookup_at(a, a.len() - 1);
        assert(has_key(b, a.last().0));
        let i = lemma_lookup_some(b, a.last().0);
        lemma_lookup_at(b, b.len() - 1);
        assert(has_key(a, b.last().0));
        let j = lemma_lookup_some(a, b.last().0);
        if i < b.len() - 1 {
            assert(lex_lt(a.last().0, b.last().0));
            if j < a.len() - 1 {
                lemma_lex_asymmetric(a.last().0, b.last().0);
            }
            lemma_lex_irreflexive(a.last().0);
        }
        assert(a.last().0 == b.last().0);
        let x = a.drop_last();
        let y = b.drop_last();
        assert forall|key: Seq<char>| #[trigger] lookup(x, key) == lookup(y, key) by {
            assert(lookup(a, key) == lookup(b, key));
            if key == a.last().0 {
                assert forall|k: int| 0 <= k < x.len() implies (#[trigger] x[k]).0 != key by {
                    lemma_lex_asymmetric(a[k].0, a[a.len() - 1].0);
                }
                lemma_lookup_none(x, key);
                assert forall|k: int| 0 <= k < y.len() implies (#[trigger] y[k]).0 != key by {
                    lemma_lex_asymmetric(b[k].0, b[b.len() - 1].0);
                }
                lemma_lookup_none(y, key);
            }
        }
        lemma_extensional(x, y);
        assert(a =~= x.push(a.last()));
        assert(b =~= y.push(b.last()));
    }
}

/// A map keyed by text whose entries are kept in the order of their keys.
#[derive(Debug, PartialEq, Eq)]
pub struct StringMap<V> {
    entries: Vec<(String, V)>,
}

impl<V: DeepView> View for StringMap<V> {
    type V = Seq<(Seq<char>, V::V)>;

    closed spec fn view(&self) -> Seq<(Seq<char>, V::V)> {
        self.entries.deep_view()
    }
}

impl<V: DeepView> DeepView for StringMap<V> {
    type V = Seq<(Seq<char>, V::V)>;

    open spec fn deep_view(&self) -> Seq<(Seq<char>, V::V)> {
        self@
    }
}

impl<V> StringMap<V> {
    #[verifier::type_invariant]
    spec fn keys_in_order(self) -> bool {
        forall|i: int, j: int|
            0 <= i < j < self.entries@.len() ==> lex_lt(
                (#[trigger] self.entries@[i]).0@,
                (#[trigger] self.entries@[j]).0@,
            )
    }
}

impl<V: DeepView> StringMap<V> {
    /// A map without entries.
    pub fn new() -> (r: Self)
        ensures
            r@ == Seq::<(Seq<char>, V::V)>::empty(),
    {
        let r = StringMap { entries: Vec::new() };
        assert(r@ =~= Seq::<(Seq<char>, V::V)>::empty());
        r
    }

    /// The number of entries.
    pub fn len(&self) -> (r: usize)
        ensures
            r == self@.len(),
            sorted(self@),
    {
        proof {
            use_type_invariant(&*self);
            self.lemma_sorted();
        }
        self.entries.len()
    }

    /// Whether there is no entry.
    pub fn is_empty(&self) -> (r: bool)
        ensures
            r == (self@.len() == 0),
    {
        self.entries.len() == 0
    }

    proof fn lemma_sorted(&self)
        requires
            self.keys_in_order(),
        ensures
            sorted(self@),
    {
        assert forall|i: int, j: int| 0 <= i < j < self@.len() implies lex_lt(
            (#[trigger] self@[i]).0,
            (#[trigger] self@[j]).0,
        ) by {
            assert(self@[i].0 == self.entries@[i].0@);
            assert(self@[j].0 == self.entries@[j].0@);
        }
    }

    /// The key of the entry at a position.
    pub fn key_at(&self, i: usize) -> (r: &String)
        requires
            i < self@.len(),
        ensures
            r@ == self@[i as int].0,
    {
        &self.entries[i].0
    }

    /// The value of the entry at a position.
    pub fn value_at(&self, i: usize) -> (r: &V)
        requires
            i < self@.len(),
        ensures
            r.deep_view() == self@[i as int].1,
    {
        &self.entries[i].1
    }

    fn position(&self, key: &str) -> (r: usize)
        ensures
            r == rank(self@, key@),
            0 <= r <= self@.len(),
            sorted(self@),
    {
        proof {
            use_type_invariant(&*self);
            self.lemma_sorted();
            lemma_rank(self@, key@);
        }
        let mut n: usize = self.entries.len();
        assert(self@.take(n as int) =~= self@);
        while n > 0 && !str_lt(self.entries[n - 1].0.as_str(), key)
            invariant
                n <= self.entries.len(),
                rank(self@, key@) == rank(self@.take(n as int), key@),
            decreases n,
        {
            assert(self@.take(n as int).drop_last() =~= self@.take(n - 1));
            assert(self@.take(n as int).last().0 == self.entries@[n - 1].0@);
            n = n - 1;
        }
        if n > 0 {
            assert(self@.take(n as int).last().0 == self.entries@[n - 1].0@);
        }
        n
    }

    /// The value under a key.
    pub fn get(&self, key: &str) -> (r: Option<&V>)
        ensures
            r is Some <==> has_key(self@, key@),
            r matches Some(v) ==> lookup(self@, key@) == Some(v.deep_view()),
    {
        let at: usize = self.position(key);
        proof {
            lemma_lookup_rank(self@, key@);
        }
        if at < self.entries.len() && str_eq(self.entries[at].0.as_str(), key) {
            Some(&self.entries[at].1)
        } else {
            None
        }
    }

    /// Whether a key is there.
    pub fn contains_key(&self, key: &str) -> (r: bool)
        ensures
            r == has_key(self@, key@),
    {
        self.get(key).is_some()
    }

    /// Puts a value under a key.
    pub fn insert(&mut self, key: String, value: V)
        ensures
            final(self)@ == put(old(self)@, key@, value.deep_view()),
            sorted(final(self)@),
    {
        let ghost before = self@;
        let ghost k = key@;
        let ghost v = value.deep_view();
        let at: usize = self.position(key.as_str());
        proof {
            lemma_put(before, k, v);
        }
        let mut entries: Vec<(String, V)> = Vec::new();
        std::mem::swap(&mut entries, &mut self.entries);
        if at < entries.len() && str_eq(entries[at].0.as_str(), key.as_str()) {
            entries[at] = (key, value);
        } else {
            entries.insert(at, (key, value));
        }
        assert(entries.deep_view() =~= put(before, k, v));
        assert forall|i: int, j: int| 0 <= i < j < entries@.len() implies lex_lt(
            (#[trigger] entries@[i]).0@,
            (#[trigger] entries@[j]).0@,
        ) by {
            assert(entries.deep_view()[i].0 == entries@[i].0@);
            assert(entries.deep_view()[j].0 == entries@[j].0@);
        }
        self.entries = entries;
    }

    /// Takes a key out.
    pub fn remove(&mut self, key: &str)
        ensures
            final(self)@ == without(old(self)@, key@),
            sorted(final(self)@),
    {
        let ghost before = self@;
        let at: usize = self.position(key);
        proof {
            lemma_without(before, key@);
        }
        let mut entries: Vec<(String, V)> = Vec::new();
        std::mem::swap(&mut entries, &mut self.entries);
        if at < entries.len() && str_eq(entries[at].0.as_str(), key) {
            entries.remove(at);
        }
        assert(entries.deep_view() =~= without(before, key@));
        assert forall|i: int, j: int| 0 <= i < j < entries@.len() implies lex_lt(
            (#[trigger] entries@[i]).0@,
            (#[trigger] entries@[j]).0@,
        ) by {
            assert(entries.deep_view()[i].0 == entries@[i].0@);
            assert(entries.deep_view()[j].0 == entries@[j].0@);
        }
        self.entries = entries;
    }

    /// Puts another value in place of the one at a position.
    pub fn set_at(&mut self, i: usize, value: V)
        requires
            i < old(self)@.len(),
        ensures
            final(self)@ == old(self)@.update(i as int, (old(self)@[i as int].0, value.deep_view())),
    {
        let ghost before = self@;
        let ghost v = value.deep_view();
        proof {
            use_type_invariant(&*self);
        }
        let ghost kept = self.entries@;
        let mut entries: Vec<(String, V)> = Vec::new();
        std::mem::swap(&mut entries, &mut self.entries);
        let key = entries[i].0.clone();
        entries[i] = (key, value);
        assert(entries.deep_view() =~= before.update(i as int, (before[i as int].0, v)));
        assert forall|a: int, b: int| 0 <= a < b < entries@.len() implies lex_lt(
            (#[trigger] entries@[a]).0@,
            (#[trigger] entries@[b]).0@,
        ) by {
            assert(entries@[a].0@ == kept[a].0@);
            assert(entries@[b].0@ == kept[b].0@);
        }
        self.entries = entries;
    }

    /// The keys in their order.
    pub fn key_list(&self) -> (r: Vec<String>)
        ensures
            r.deep_view() == keys(self@),
    {
        let mut out: Vec<String> = Vec::new();
        let mut i: usize = 0;
        while i < self.entries.len()
            invariant
                i <= self.entries.len(),
                out.deep_view() == keys(self@).take(i as int),
            decreases self.entries.len() - i,
        {
            let ghost before = out.deep_view();
            out.push(self.entries[i].0.clone());
            assert(out.deep_view() =~= before.push(self@[i as int].0));
            assert(keys(self@).take(i + 1) =~= keys(self@).take(i as int).push(keys(self@)[i as int]));
            i = i + 1;
        }
        assert(keys(self@).take(i as int) =~= keys(self@));
        out
    }
}

impl<V: Duplicate> Clone for StringMap<V> {
    fn clone(&self) -> (r: Self)
        ensures
            r@ == self@,
    {
        proof {
            use_type_invariant(self);
        }
        let mut entries: Vec<(String, V)> = Vec::new();
        let mut i: usize = 0;
        while i < self.entries.len()
            invariant
                i <= self.entries.len(),
                entries.deep_view() == self@.take(i as int),
            decreases self.entries.len() - i,
        {
            let ghost before = entries.deep_view();
            entries.push((self.entries[i].0.clone(), self.entries[i].1.duplicate()));
            assert(entries.deep_view() =~= before.push(self@[i as int]));
            assert(self@.take(i + 1) =~= self@.take(i as int).push(self@[i as int]));
            i = i + 1;
        }
        assert(entries.deep_view() =~= self@);
        assert forall|i: int, j: int| 0 <= i < j < entries@.len() implies lex_lt(
            (#[trigger] entries@[i]).0@,
            (#[trigger] entries@[j]).0@,
        ) by {
            assert(entries.deep_view()[i].0 == self.entries@[i].0@);
            assert(entries.deep_view()[j].0 == self.entries@[j].0@);
            assert(entries.deep_view()[i].0 == entries@[i].0@);
            assert(entries.deep_view()[j].0 == entries@[j].0@);
        }
        StringMap { entries }
    }
}

impl<V: Duplicate> Duplicate for StringMap<V> {
    fn duplicate(&self) -> (r: Self) {
        self.clone()
    }
}

} // verus!
