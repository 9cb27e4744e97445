use vstd::prelude::*;
use vstd::set_lib::lemma_subset_equality;

use crate::text::str_equal;

verus! {

/// A value that can be copied into an equal value.
pub trait Duplicate: Sized + DeepView {
    fn duplicate(&self) -> (r: Self)
        ensures
            r.deep_view() == self.deep_view(),
    ;
}

/// A value that can be compared with another of its type by content.
pub trait SameAs: DeepView {
    fn same_as(&self, other: &Self) -> (r: bool)
        ensures
            r == (self.deep_view() == other.deep_view()),
    ;
}

impl Duplicate for String {
    fn duplicate(&self) -> (r: Self) {
        self.clone()
    }
}

impl SameAs for String {
    fn same_as(&self, other: &Self) -> (r: bool) {
        *self == *other
    }
}

/// Whether some entry of `s` has key `k`.
pub open spec fn has_key<T>(s: Seq<(Seq<char>, T)>, k: Seq<char>) -> bool {
    exists|i: int| 0 <= i < s.len() && s[i].0 == k
}

/// Whether no two entries of `s` share a key.
pub open spec fn distinct_keys<T>(s: Seq<(Seq<char>, T)>) -> bool {
    forall|i: int, j: int| 0 <= i < s.len() && 0 <= j < s.len() && i != j ==> s[i].0 != s[j].0
}

/// The map that inserting the entries of `s` one after the other builds:
/// a later entry replaces an earlier one with the same key.
pub open spec fn to_map<T>(s: Seq<(Seq<char>, T)>) -> Map<Seq<char>, T>
    decreases s.len(),
{
    if s.len() == 0 {
        Map::empty()
    } else {
        to_map(s.drop_last()).insert(s.last().0, s.last().1)
    }
}

/// The position of the entry with key `k` (meaningful when there is one).
pub open spec fn key_index<T>(s: Seq<(Seq<char>, T)>, k: Seq<char>) -> int {
    choose|i: int| 0 <= i < s.len() && s[i].0 == k
}

/// The entries after putting `(k, v)`: in place when the key is present,
/// at the end otherwise.
pub open spec fn put<T>(s: Seq<(Seq<char>, T)>, k: Seq<char>, v: T) -> Seq<(Seq<char>, T)> {
    if has_key(s, k) {
        s.update(key_index(s, k), (k, v))
    } else {
        s.push((k, v))
    }
}

pub proof fn lemma_to_map_dom<T>(s: Seq<(Seq<char>, T)>, k: Seq<char>)
    ensures
        to_map(s).dom().contains(k) <==> has_key(s, k),
        to_map(s).dom().finite(),
    decreases s.len(),
{
    if s.len() > 0 {
        lemma_to_map_dom(s.drop_last(), k);
        if has_key(s.drop_last(), k) {
            let i = choose|i: int| 0 <= i < s.drop_last().len() && s.drop_last()[i].0 == k;
            assert(s[i].0 == k);
        }
        if has_key(s, k) && k != s.last().0 {
            let i = choose|i: int| 0 <= i < s.len() && s[i].0 == k;
            assert(s.drop_last()[i].0 == k);
        }
    }
}

pub proof fn lemma_to_map_value<T>(s: Seq<(Seq<char>, T)>, i: int)
    requires
        distinct_keys(s),
        0 <= i < s.len(),
    ensures
        to_map(s).dom().contains(s[i].0),
        to_map(s)[s[i].0] == s[i].1,
    decreases s.len(),
{
    if i < s.len() - 1 {
        let t = s.drop_last();
        assert(t[i] == s[i]);
        assert(distinct_keys(t));
        lemma_to_map_value(t, i);
        assert(s.last().0 != s[i].0);
    }
}

pub proof fn lemma_to_map_len<T>(s: Seq<(Seq<char>, T)>)
    requires
        distinct_keys(s),
    ensures
        to_map(s).dom().finite(),
        to_map(s).dom().len() == s.len(),
    decreases s.len(),
{
    lemma_to_map_dom(s, Seq::empty());
    if s.len() > 0 {
        let t = s.drop_last();
        assert(distinct_keys(t));
        lemma_to_map_len(t);
        lemma_to_map_dom(t, s.last().0);
        if has_key(t, s.last().0) {
            let j = choose|j: int| 0 <= j < t.len() && t[j].0 == s.last().0;
            assert(s[j].0 == s[s.len() - 1].0);
        }
    }
}

pub proof fn lemma_put<T>(s: Seq<(Seq<char>, T)>, k: Seq<char>, v: T)
    requires
        distinct_keys(s),
    ensures
        distinct_keys(put(s, k, v)),
        to_map(put(s, k, v)) == to_map(s).insert(k, v),
        put(s, k, v).len() == if has_key(s, k) { s.len() } else { s.len() + 1 },
{
    let p = put(s, k, v);
    if has_key(s, k) {
        let idx = key_index(s, k);
        assert(distinct_keys(p));
        assert forall|key: Seq<char>| #[trigger] to_map(p).dom().contains(key) == to_map(s).insert(
            k,
            v,
        ).dom().contains(key) by {
            lemma_to_map_dom(p, key);
            lemma_to_map_dom(s, key);
            if has_key(s, key) {
                let j = choose|j: int| 0 <= j < s.len() && s[j].0 == key;
                assert(p[j].0 == key);
            }
            if has_key(p, key) {
                let j = choose|j: int| 0 <= j < p.len() && p[j].0 == key;
                assert(s[j].0 == key);
            }
        }
        assert forall|key: Seq<char>| #[trigger] to_map(p).dom().contains(key) implies to_map(p)[key]
            == to_map(s).insert(k, v)[key] by {
            lemma_to_map_dom(p, key);
            let j = choose|j: int| 0 <= j < p.len() && p[j].0 == key;
            lemma_to_map_value(p, j);
            if j != idx {
                lemma_to_map_value(s, j);
            }
        }
        assert(to_map(p) =~= to_map(s).insert(k, v));
    } else {
        assert(p.drop_last() =~= s);
        assert forall|i: int, j: int|
            0 <= i < p.len() && 0 <= j < p.len() && i != j implies p[i].0 != p[j].0 by {
            if i == s.len() {
                assert(s[j].0 == p[j].0);
            } else if j == s.len() {
                assert(s[i].0 == p[i].0);
            }
        }
    }
}

pub proof fn lemma_remove<T>(s: Seq<(Seq<char>, T)>, i: int)
    requires
        distinct_keys(s),
        0 <= i < s.len(),
    ensures
        distinct_keys(s.remove(i)),
        to_map(s.remove(i)) == to_map(s).remove(s[i].0),
{
    let r = s.remove(i);
    let k = s[i].0;
    assert forall|a: int, b: int| 0 <= a < r.len() && 0 <= b < r.len() && a != b implies r[a].0
        != r[b].0 by {
        let sa = if a < i { a } else { a + 1 };
        let sb = if b < i { b } else { b + 1 };
        assert(r[a] == s[sa]);
        assert(r[b] == s[sb]);
    }
    assert forall|key: Seq<char>| #[trigger] to_map(r).dom().contains(key) == to_map(s).remove(
        k,
    ).dom().contains(key) by {
        lemma_to_map_dom(r, key);
        lemma_to_map_dom(s, key);
        if has_key(s, key) && key != k {
            let j = choose|j: int| 0 <= j < s.len() && s[j].0 == key;
            let rj = if j < i { j } else { j - 1 };
            assert(r[rj] == s[j]);
        }
        if has_key(r, key) {
            let j = choose|j: int| 0 <= j < r.len() && r[j].0 == key;
            let sj = if j < i { j } else { j + 1 };
            assert(r[j] == s[sj]);
        }
    }
    assert forall|key: Seq<char>| #[trigger] to_map(r).dom().contains(key) implies to_map(r)[key]
        == to_map(s).remove(k)[key] by {
        lemma_to_map_dom(r, key);
        let j = choose|j: int| 0 <= j < r.len() && r[j].0 == key;
        let sj = if j < i { j } else { j + 1 };
        assert(r[j] == s[sj]);
        lemma_to_map_value(r, j);
        lemma_to_map_value(s, sj);
    }
    assert(to_map(r) =~= to_map(s).remove(k));
}

/// A value read right after it is put under a key is the value put; putting
/// a value under one key leaves every other key as it was.
pub proof fn law_get_after_insert<T>(m: Map<Seq<char>, T>, k: Seq<char>, other: Seq<char>, v: T)
    ensures
        m.insert(k, v).get(k) == Some(v),
        other != k ==> m.insert(k, v).get(other) == m.get(other),
{
}

/// A map from strings to values that keeps its entries in insertion order.
/// No two entries share a key.
#[derive(Debug)]
pub struct StringMap<V: DeepView> {
    items: Vec<(String, V)>,
}

impl<V: DeepView> StringMap<V> {
    /// The entries, in order, each key and value taken by its view.
    pub closed spec fn entries(&self) -> Seq<(Seq<char>, V::V)> {
        self.items@.map_values(|e: (String, V)| (e.0@, e.1.deep_view()))
    }

    #[verifier::type_invariant]
    pub open spec fn keys_are_distinct(&self) -> bool {
        distinct_keys(self.entries())
    }

    /// Every map's entries have distinct keys and build its view.
    pub proof fn lemma_wf(&self)
        requires
            self.keys_are_distinct(),
        ensures
            distinct_keys(self.entries()),
            self@ == to_map(self.entries()),
            self@.dom().finite(),
            self@.len() == self.entries().len(),
    {
        lemma_to_map_len(self.entries());
    }

    pub fn new() -> (r: Self)
        ensures
            r.entries() == Seq::<(Seq<char>, V::V)>::empty(),
            r@ == Map::<Seq<char>, V::V>::empty(),
    {
        let r = StringMap { items: Vec::new() };
        assert(r.entries() =~= Seq::<(Seq<char>, V::V)>::empty());
        r
    }

    pub fn len(&self) -> (r: usize)
        ensures
            r == self@.len(),
            r == self.entries().len(),
    {
        proof {
            use_type_invariant(self);
            self.lemma_wf();
        }
        self.items.len()
    }

    pub fn is_empty(&self) -> (r: bool)
        ensures
            r == (self@.len() == 0),
            r == (self.entries().len() == 0),
    {
        self.len() == 0
    }

    fn find(&self, key: &str) -> (r: Option<usize>)
        ensures
            match r {
                Some(i) => i < self.entries().len() && self.entries()[i as int].0 == key@,
                None => !has_key(self.entries(), key@),
            },
    {
        let mut i: usize = 0;
        while i < self.items.len()
            invariant
                i <= self.items@.len(),
                self.entries().len() == self.items@.len(),
                forall|j: int| 0 <= j < i ==> self.entries()[j].0 != key@,
            decreases self.items@.len() - i,
        {
            if str_equal(self.items[i].0.as_str(), key) {
                return Some(i);
            }
            i = i + 1;
        }
        None
    }

    /// The key of the entry at position `i`.
    pub fn key_at(&self, i: usize) -> (r: &String)
        requires
            i < self.entries().len(),
        ensures
            r@ == self.entries()[i as int].0,
    {
        &self.items[i].0
    }

    /// The value of the entry at position `i`.
    pub fn value_at(&self, i: usize) -> (r: &V)
        requires
            i < self.entries().len(),
        ensures
            r.deep_view() == self.entries()[i as int].1,
    {
        &self.items[i].1
    }

    pub fn contains_key(&self, key: &str) -> (r: bool)
        ensures
            r == self@.contains_key(key@),
    {
        proof {
            use_type_invariant(self);
            self.lemma_wf();
            lemma_to_map_dom(self.entries(), key@);
        }
        self.find(key).is_some()
    }

    pub fn get(&self, key: &str) -> (r: Option<&V>)
        ensures
            r is Some == self@.contains_key(key@),
            r is Some ==> r->0.deep_view() == self@[key@],
    {
        proof {
            use_type_invariant(self);
            self.lemma_wf();
            lemma_to_map_dom(self.entries(), key@);
        }
        match self.find(key) {
            Some(i) => {
                proof {
                    lemma_to_map_value(self.entries(), i as int);
                }
                Some(&self.items[i].1)
            },
            None => None,
        }
    }

    pub fn insert(&mut self, key: String, value: V)
        ensures
            final(self)@ == old(self)@.insert(key@, value.deep_view()),
            final(self).entries() == put(old(self).entries(), key@, value.deep_view()),
    {
        proof {
            use_type_invariant(&*self);
            lemma_put(self.entries(), key@, value.deep_view());
        }
        let ghost old_entries = self.entries();
        let ghost k = key@;
        let ghost v = value.deep_view();
        match self.find(key.as_str()) {
            Some(i) => {
                proof {
                    assert(has_key(old_entries, k));
                    let idx = key_index(old_entries, k);
                    assert(old_entries[idx].0 == k);
                    if idx != i {
                        assert(old_entries[i as int].0 == k);
                    }
                }
                let mut items: Vec<(String, V)> = Vec::new();
                std::mem::swap(&mut items, &mut self.items);
                items.set(i, (key, value));
                proof {
                    assert(items@.map_values(|e: (String, V)| (e.0@, e.1.deep_view())) =~= put(
                        old_entries,
                        k,
                        v,
                    ));
                }
                self.items = items;
                proof {
                    assert(self.entries() =~= put(old_entries, k, v));
                }
            },
            None => {
                let mut items: Vec<(String, V)> = Vec::new();
                std::mem::swap(&mut items, &mut self.items);
                items.push((key, value));
                proof {
                    assert(items@.map_values(|e: (String, V)| (e.0@, e.1.deep_view())) =~= put(
                        old_entries,
                        k,
                        v,
                    ));
                }
                self.items = items;
                proof {
                    assert(self.entries() =~= put(old_entries, k, v));
                }
            },
        }
        proof {
            lemma_to_map_len(self.entries());
        }
    }

    pub fn remove(&mut self, key: &str)
        ensures
            final(self)@ == old(self)@.remove(key@),
    {
        proof {
            use_type_invariant(&*self);
            lemma_to_map_dom(self.entries(), key@);
        }
        let ghost old_entries = self.entries();
        match self.find(key) {
            Some(i) => {
                proof {
                    lemma_remove(old_entries, i as int);
                }
                let mut items: Vec<(String, V)> = Vec::new();
                std::mem::swap(&mut items, &mut self.items);
                let _ = items.remove(i);
                proof {
                    assert(items@.map_values(|e: (String, V)| (e.0@, e.1.deep_view())) =~= old_entries.remove(i as int));
                }
                self.items = items;
                proof {
                    assert(self.entries() =~= old_entries.remove(i as int));
                }
            },
            None => {
                proof {
                    assert(old_entries.len() == 0 || !has_key(old_entries, key@));
                    assert(to_map(old_entries).remove(key@) =~= to_map(old_entries));
                }
            },
        }
    }
}

impl<V: Duplicate> Clone for StringMap<V> {
    fn clone(&self) -> (r: Self)
        ensures
            r@ == self@,
    {
        self.duplicate()
    }
}

impl<V: DeepView> View for StringMap<V> {
    type V = Map<Seq<char>, V::V>;

    open spec fn view(&self) -> Map<Seq<char>, V::V> {
        to_map(self.entries())
    }
}

impl<V: DeepView> DeepView for StringMap<V> {
    type V = Map<Seq<char>, V::V>;

    open spec fn deep_view(&self) -> Map<Seq<char>, V::V> {
        self@
    }
}

impl<V: Duplicate> Duplicate for StringMap<V> {
    fn duplicate(&self) -> (r: Self)
        ensures
            r.entries() == self.entries(),
    {
        proof {
            use_type_invariant(self);
        }
        let mut items: Vec<(String, V)> = Vec::new();
        let mut i: usize = 0;
        while i < self.items.len()
            invariant
                i <= self.items@.len(),
                items@.len() == i,
                forall|j: int|
                    0 <= j < i ==> (#[trigger] items@[j]).0@ == self.items@[j].0@
                        && items@[j].1.deep_view() == self.items@[j].1.deep_view(),
            decreases self.items@.len() - i,
        {
            let k = self.items[i].0.duplicate();
            let v = self.items[i].1.duplicate();
            items.push((k, v));
            i = i + 1;
        }
        proof {
            assert(items@.map_values(|e: (String, V)| (e.0@, e.1.deep_view())) =~= self.entries());
        }
        let r = StringMap { items };
        r
    }
}

impl<V: SameAs> SameAs for StringMap<V> {
    fn same_as(&self, other: &Self) -> (r: bool) {
        proof {
            use_type_invariant(self);
            use_type_invariant(other);
            self.lemma_wf();
            other.lemma_wf();
        }
        if self.items.len() != other.items.len() {
            return false;
        }
        let mut i: usize = 0;
        while i < self.items.len()
            invariant
                i <= self.items@.len(),
                self.entries().len() == self.items@.len(),
                self.entries().len() == other.entries().len(),
                distinct_keys(self.entries()),
                distinct_keys(other.entries()),
                self@ == to_map(self.entries()),
                other@ == to_map(other.entries()),
                forall|j: int|
                    #![trigger self.entries()[j]]
                    0 <= j < i ==> other@.contains_key(self.entries()[j].0)
                        && other@[self.entries()[j].0] == self.entries()[j].1,
            decreases self.items@.len() - i,
        {
            let key = &self.items[i].0;
            match other.get(key.as_str()) {
                None => {
                    proof {
                        lemma_to_map_value(self.entries(), i as int);
                    }
                    return false;
                },
                Some(v) => {
                    if !self.items[i].1.same_as(v) {
                        proof {
                            lemma_to_map_value(self.entries(), i as int);
                        }
                        return false;
                    }
                    assert(other@.contains_key(self.entries()[i as int].0)
                        && other@[self.entries()[i as int].0] == self.entries()[i as int].1);
                },
            }
            i = i + 1;
        }
        proof {
            assert forall|k: Seq<char>| #[trigger] self@.dom().contains(k) implies other@.dom().contains(
                k,
            ) && other@[k] == self@[k] by {
                lemma_to_map_dom(self.entries(), k);
                let j = choose|j: int| 0 <= j < self.entries().len() && self.entries()[j].0 == k;
                lemma_to_map_value(self.entries(), j);
                assert(other@.contains_key(self.entries()[j].0));
            }
            assert(self@.dom().subset_of(other@.dom()));
            lemma_subset_equality(self@.dom(), other@.dom());
            assert(self@ =~= other@);
        }
        true
    }
}

} // verus!
