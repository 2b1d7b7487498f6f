//! String-keyed map and set with verified contents.
//!
//! Both keep their entries in insertion order in a `Vec` and hold the
//! invariant that no key occurs twice; their views are a `Map` / `Set`
//! over the keys' character sequences.

use vstd::prelude::*;

use crate::text::str_eq;

verus! {

/// Position of the entry whose key is `k`, if any.
pub open spec fn key_index<V>(entries: Seq<(String, V)>, k: Seq<char>) -> int {
    choose|i: int| 0 <= i < entries.len() && entries[i].0@ == k
}

pub open spec fn has_key<V>(entries: Seq<(String, V)>, k: Seq<char>) -> bool {
    exists|i: int| 0 <= i < entries.len() && entries[i].0@ == k
}

pub open spec fn keys_distinct<V>(entries: Seq<(String, V)>) -> bool {
    forall|i: int, j: int|
        0 <= i < entries.len() && 0 <= j < entries.len() && i != j ==> entries[i].0@
            != entries[j].0@
}

/// The map an entry list denotes.
pub open spec fn entries_map<V>(entries: Seq<(String, V)>) -> Map<Seq<char>, V> {
    Map::new(|k: Seq<char>| has_key(entries, k), |k: Seq<char>| entries[key_index(entries, k)].1)
}

/// A map from strings to `V`.
pub struct StrMap<V> {
    entries: Vec<(String, V)>,
}

impl<V> View for StrMap<V> {
    type V = Map<Seq<char>, V>;

    closed spec fn view(&self) -> Map<Seq<char>, V> {
        entries_map(self.entries@)
    }
}

proof fn lemma_key_index_unique<V>(entries: Seq<(String, V)>, i: int)
    requires
        keys_distinct(entries),
        0 <= i < entries.len(),
    ensures
        has_key(entries, entries[i].0@),
        key_index(entries, entries[i].0@) == i,
{
    let k = entries[i].0@;
    assert(has_key(entries, k));
    let j = key_index(entries, k);
    assert(0 <= j < entries.len() && entries[j].0@ == k);
}

impl<V> StrMap<V> {
    /// No key is stored twice.
    pub closed spec fn wf(&self) -> bool {
        keys_distinct(self.entries@)
    }

    pub fn new() -> (m: Self)
        ensures
            m.wf(),
            m@ == Map::<Seq<char>, V>::empty(),
    {
        let m = StrMap { entries: Vec::new() };
        assert(m@ =~= Map::<Seq<char>, V>::empty());
        m
    }

    pub closed spec fn spec_len(&self) -> nat {
        self.entries@.len()
    }

    pub proof fn lemma_len(&self)
        requires
            self.wf(),
        ensures
            self@.dom().finite(),
            self@.dom().len() == self.spec_len(),
    {
        let es = self.entries@;
        let dom = self@.dom();
        let keys = Seq::new(es.len(), |i: int| es[i].0@);
        assert forall|k: Seq<char>| dom.contains(k) <==> keys.contains(k) by {
            if dom.contains(k) {
                let i = key_index(es, k);
                assert(keys[i] == k);
            }
            if keys.contains(k) {
                let i = choose|i: int| 0 <= i < keys.len() && keys[i] == k;
                assert(es[i].0@ == k);
            }
        }
        assert(dom =~= keys.to_set());
        assert(keys.no_duplicates()) by {
            assert forall|i: int, j: int| 0 <= i < keys.len() && 0 <= j < keys.len() && i != j implies keys[i] != keys[j] by {
            }
        }
        keys.unique_seq_to_set();
    }

    /// Number of keys.
    pub fn len(&self) -> (n: usize)
        ensures
            n == self.spec_len(),
    {
        self.entries.len()
    }

    pub fn is_empty(&self) -> (r: bool)
        requires
            self.wf(),
        ensures
            r == (self@ == Map::<Seq<char>, V>::empty()),
    {
        if self.entries.len() == 0 {
            assert(self@ =~= Map::<Seq<char>, V>::empty());
            true
        } else {
            assert(self@.dom().contains(self.entries@[0].0@));
            false
        }
    }

    fn position(&self, k: &str) -> (r: Option<usize>)
        requires
            self.wf(),
        ensures
            match r {
                Some(i) => i < self.entries@.len() && self.entries@[i as int].0@ == k@
                    && key_index(self.entries@, k@) == i,
                None => !has_key(self.entries@, k@),
            },
    {
        let mut i: usize = 0;
        while i < self.entries.len()
            invariant
                self.wf(),
                i <= self.entries@.len(),
                forall|j: int| 0 <= j < i ==> self.entries@[j].0@ != k@,
            decreases self.entries@.len() - i,
        {
            if str_eq(self.entries[i].0.as_str(), k) {
                proof {
                    lemma_key_index_unique(self.entries@, i as int);
                }
                return Some(i);
            }
            i += 1;
        }
        None
    }

    /// Whether `k` is a key.
    pub fn contains_key(&self, k: &str) -> (r: bool)
        requires
            self.wf(),
        ensures
            r == self@.dom().contains(k@),
    {
        self.position(k).is_some()
    }

    /// The value stored under `k`.
    pub fn get(&self, k: &str) -> (r: Option<&V>)
        requires
            self.wf(),
        ensures
            match r {
                Some(v) => self@.dom().contains(k@) && *v == self@[k@],
                None => !self@.dom().contains(k@),
            },
    {
        match self.position(k) {
            Some(i) => Some(&self.entries[i].1),
            None => None,
        }
    }

    /// Every key once, in insertion order.
    pub fn keys(&self) -> (ks: Vec<String>)
        requires
            self.wf(),
        ensures
            forall|i: int, j: int|
                0 <= i < ks@.len() && 0 <= j < ks@.len() && i != j ==> (#[trigger] ks@[i])@
                    != (#[trigger] ks@[j])@,
            forall|u: Seq<char>|
                self@.dom().contains(u) <==> exists|i: int| 0 <= i < ks@.len() && (#[trigger] ks@[i])@ == u,
    {
        let mut ks: Vec<String> = Vec::new();
        let n = self.entries.len();
        let mut i: usize = 0;
        while i < n
            invariant
                n == self.entries@.len(),
                i <= n,
                ks@.len() == i,
                forall|j: int| 0 <= j < i ==> (#[trigger] ks@[j])@ == self.entries@[j].0@,
            decreases n - i,
        {
            ks.push(self.entries[i].0.clone());
            i += 1;
        }
        assert forall|u: Seq<char>| self@.dom().contains(u) <==> exists|i: int|
            0 <= i < ks@.len() && (#[trigger] ks@[i])@ == u by {
            if self@.dom().contains(u) {
                let j = key_index(self.entries@, u);
                assert(ks@[j]@ == u);
            }
            if exists|i: int| 0 <= i < ks@.len() && (#[trigger] ks@[i])@ == u {
                let i = choose|i: int| 0 <= i < ks@.len() && (#[trigger] ks@[i])@ == u;
                assert(has_key(self.entries@, u));
            }
        }
        ks
    }

    /// Store `v` under `k`, replacing any previous value.
    pub fn insert(&mut self, k: String, v: V)
        requires
            old(self).wf(),
        ensures
            final(self).wf(),
            final(self)@ == old(self)@.insert(k@, v),
    {
        let ghost old_es = self.entries@;
        match self.position(k.as_str()) {
            Some(i) => {
                let ghost kk = k@;
                self.entries.set(i, (k, v));
                proof {
                    let es = self.entries@;
                    assert(keys_distinct(es)) by {
                        assert forall|a: int, b: int|
                            0 <= a < es.len() && 0 <= b < es.len() && a != b implies es[a].0@
                            != es[b].0@ by {
                            if a != i && b != i {
                                assert(es[a] == old_es[a] && es[b] == old_es[b]);
                            } else if a == i {
                                assert(es[b] == old_es[b]);
                                assert(old_es[i as int].0@ == kk);
                            } else {
                                assert(es[a] == old_es[a]);
                                assert(old_es[i as int].0@ == kk);
                            }
                        }
                    }
                    assert forall|key: Seq<char>| #[trigger] has_key(es, key) <==> has_key(old_es, key) by {
                        if has_key(es, key) {
                            let j = choose|j: int| 0 <= j < es.len() && es[j].0@ == key;
                            if j == i {
                                assert(old_es[j].0@ == key);
                            } else {
                                assert(old_es[j] == es[j]);
                            }
                        }
                        if has_key(old_es, key) {
                            let j = choose|j: int| 0 <= j < old_es.len() && old_es[j].0@ == key;
                            if j == i {
                                assert(es[j].0@ == key);
                            } else {
                                assert(old_es[j] == es[j]);
                            }
                        }
                    }
                    assert forall|key: Seq<char>| has_key(es, key) implies es[key_index(es, key)].1
                        == old(self)@.insert(kk, v)[key] by {
                        let j = key_index(es, key);
                        if key == kk {
                            lemma_key_index_unique(es, i as int);
                        } else {
                            let oj = key_index(old_es, key);
                            lemma_key_index_unique(old_es, oj);
                            assert(oj != i);
                            assert(es[oj] == old_es[oj]);
                            lemma_key_index_unique(es, oj);
                        }
                    }
                    assert(self@ =~= old(self)@.insert(kk, v));
                }
            },
            None => {
                let ghost kk = k@;
                self.entries.push((k, v));
                proof {
                    let es = self.entries@;
                    let n = old_es.len() as int;
                    assert(keys_distinct(es)) by {
                        assert forall|a: int, b: int|
                            0 <= a < es.len() && 0 <= b < es.len() && a != b implies es[a].0@
                            != es[b].0@ by {
                            if a < n && b < n {
                                assert(es[a] == old_es[a] && es[b] == old_es[b]);
                            } else if a == n {
                                assert(es[b] == old_es[b]);
                            } else {
                                assert(es[a] == old_es[a]);
                            }
                        }
                    }
                    assert forall|key: Seq<char>| #[trigger] has_key(es, key) <==> (has_key(old_es, key) || key == kk) by {
                        if has_key(es, key) {
                            let j = choose|j: int| 0 <= j < es.len() && es[j].0@ == key;
                            if j < n {
                                assert(old_es[j] == es[j]);
                            }
                        }
                        if has_key(old_es, key) {
                            let j = choose|j: int| 0 <= j < old_es.len() && old_es[j].0@ == key;
                            assert(old_es[j] == es[j]);
                        }
                        if key == kk {
                            assert(es[n].0@ == kk);
                        }
                    }
                    assert forall|key: Seq<char>| has_key(es, key) implies es[key_index(es, key)].1
                        == old(self)@.insert(kk, v)[key] by {
                        if key == kk {
                            lemma_key_index_unique(es, n);
                        } else {
                            let oj = key_index(old_es, key);
                            lemma_key_index_unique(old_es, oj);
                            assert(es[oj] == old_es[oj]);
                            lemma_key_index_unique(es, oj);
                        }
                    }
                    assert(self@ =~= old(self)@.insert(kk, v));
                }
            },
        }
    }

    /// Drop the entry for `k`, if any.
    pub fn remove(&mut self, k: &str)
        requires
            old(self).wf(),
        ensures
            final(self).wf(),
            final(self)@ == old(self)@.remove(k@),
    {
        let ghost old_es = self.entries@;
        match self.position(k) {
            Some(i) => {
                self.entries.remove(i);
                proof {
                    let es = self.entries@;
                    assert(es == old_es.remove(i as int));
                    assert(keys_distinct(es)) by {
                        assert forall|a: int, b: int|
                            0 <= a < es.len() && 0 <= b < es.len() && a != b implies es[a].0@
                            != es[b].0@ by {
                            let oa = if a < i { a } else { a + 1 };
                            let ob = if b < i { b } else { b + 1 };
                            assert(es[a] == old_es[oa] && es[b] == old_es[ob]);
                        }
                    }
                    assert forall|key: Seq<char>| #[trigger] has_key(es, key) <==> (has_key(old_es, key) && key != k@) by {
                        if has_key(es, key) {
                            let j = choose|j: int| 0 <= j < es.len() && es[j].0@ == key;
                            let oj = if j < i { j } else { j + 1 };
                            assert(old_es[oj] == es[j]);
                            assert(oj != i);
                        }
                        if has_key(old_es, key) && key != k@ {
                            let j = choose|j: int| 0 <= j < old_es.len() && old_es[j].0@ == key;
                            assert(j != i);
                            let nj = if j < i { j } else { j - 1 };
                            assert(es[nj] == old_es[j]);
                        }
                    }
                    assert forall|key: Seq<char>| has_key(es, key) implies es[key_index(es, key)].1
                        == old(self)@.remove(k@)[key] by {
                        let j = key_index(es, key);
                        lemma_key_index_unique(es, j);
                        let oj = if j < i { j } else { j + 1 };
                        assert(old_es[oj] == es[j]);
                        lemma_key_index_unique(old_es, oj);
                    }
                    assert(self@ =~= old(self)@.remove(k@));
                }
            },
            None => {
                assert(self@ =~= old(self)@.remove(k@));
            },
        }
    }

    /// Remove every entry.
    pub fn clear(&mut self)
        ensures
            final(self).wf(),
            final(self)@ == Map::<Seq<char>, V>::empty(),
    {
        self.entries.clear();
        assert(self@ =~= Map::<Seq<char>, V>::empty());
    }
}

/// A set of strings.
pub struct StrSet {
    map: StrMap<()>,
}

impl View for StrSet {
    type V = Set<Seq<char>>;

    closed spec fn view(&self) -> Set<Seq<char>> {
        self.map@.dom()
    }
}

impl StrSet {
    pub closed spec fn wf(&self) -> bool {
        self.map.wf()
    }

    pub fn new() -> (s: Self)
        ensures
            s.wf(),
            s@ == Set::<Seq<char>>::empty(),
    {
        let s = StrSet { map: StrMap::new() };
        assert(s@ =~= Set::<Seq<char>>::empty());
        s
    }

    pub fn contains(&self, k: &str) -> (r: bool)
        requires
            self.wf(),
        ensures
            r == self@.contains(k@),
    {
        self.map.contains_key(k)
    }

    pub fn insert(&mut self, k: String)
        requires
            old(self).wf(),
        ensures
            final(self).wf(),
            final(self)@ == old(self)@.insert(k@),
    {
        self.map.insert(k, ());
        assert(self@ =~= old(self)@.insert(k@));
    }

    pub fn remove(&mut self, k: &str)
        requires
            old(self).wf(),
        ensures
            final(self).wf(),
            final(self)@ == old(self)@.remove(k@),
    {
        self.map.remove(k);
        assert(self@ =~= old(self)@.remove(k@));
    }

    pub fn clear(&mut self)
        ensures
            final(self).wf(),
            final(self)@ == Set::<Seq<char>>::empty(),
    {
        self.map.clear();
        assert(self@ =~= Set::<Seq<char>>::empty());
    }

    pub fn is_empty(&self) -> (r: bool)
        requires
            self.wf(),
        ensures
            r == (self@ == Set::<Seq<char>>::empty()),
    {
        let r = self.map.is_empty();
        if r {
            assert(self@ =~= Set::<Seq<char>>::empty());
        } else {
            proof {
                assert(self.map@ != Map::<Seq<char>, ()>::empty());
                if self@ == Set::<Seq<char>>::empty() {
                    assert(self.map@ =~= Map::<Seq<char>, ()>::empty());
                }
            }
        }
        r
    }

    /// Every member once.
    pub fn to_vec(&self) -> (v: Vec<String>)
        requires
            self.wf(),
        ensures
            forall|i: int, j: int|
                0 <= i < v@.len() && 0 <= j < v@.len() && i != j ==> (#[trigger] v@[i])@
                    != (#[trigger] v@[j])@,
            forall|u: Seq<char>|
                self@.contains(u) <==> exists|i: int| 0 <= i < v@.len() && (#[trigger] v@[i])@ == u,
    {
        self.map.keys()
    }

    /// Number of members.
    pub fn len(&self) -> (n: usize)
        requires
            self.wf(),
        ensures
            n == self@.len(),
    {
        proof {
            self.map.lemma_len();
        }
        self.map.len()
    }
}


/// A value with a small integer key that identifies it: the members of an
/// [`EnumSet`] are told apart by their keys.
pub trait SmallKey: Copy + Sized {
    spec fn key_spec(self) -> u8;

    fn key(&self) -> (k: u8)
        ensures
            k == self.key_spec(),
    ;

    proof fn lemma_key_injective(a: Self, b: Self)
        ensures
            a.key_spec() == b.key_spec() ==> a == b,
    ;
}

/// A set of small-key values (the variants of a field-less enum), kept as
/// a vector in which no key occurs twice.
pub struct EnumSet<T: SmallKey> {
    items: Vec<T>,
}

impl<T: SmallKey> View for EnumSet<T> {
    type V = Set<T>;

    closed spec fn view(&self) -> Set<T> {
        self.items@.to_set()
    }
}

impl<T: SmallKey> EnumSet<T> {
    /// No key occurs twice.
    pub closed spec fn wf(&self) -> bool {
        forall|i: int, j: int|
            0 <= i < j < self.items@.len() ==> (#[trigger] self.items@[i]).key_spec()
                != (#[trigger] self.items@[j]).key_spec()
    }

    pub fn new() -> (s: Self)
        ensures
            s.wf(),
            s@ == Set::<T>::empty(),
    {
        let s = EnumSet { items: Vec::new() };
        assert(s@ =~= Set::<T>::empty());
        s
    }

    fn position(&self, x: T) -> (r: Option<usize>)
        ensures
            r matches Some(i) ==> i < self.items@.len() && self.items@[i as int] == x,
            r is None ==> !self@.contains(x),
    {
        let mut i: usize = 0;
        while i < self.items.len()
            invariant
                i <= self.items@.len(),
                forall|j: int| 0 <= j < i ==> self.items@[j] != x,
            decreases self.items@.len() - i,
        {
            if self.items[i].key() == x.key() {
                proof {
                    T::lemma_key_injective(self.items@[i as int], x);
                }
                return Some(i);
            }
            proof {
                if self.items@[i as int] == x {
                    assert(self.items@[i as int].key_spec() == x.key_spec());
                }
            }
            i = i + 1;
        }
        None
    }

    pub fn contains(&self, x: T) -> (r: bool)
        ensures
            r == self@.contains(x),
    {
        match self.position(x) {
            Some(i) => {
                assert(self.items@.contains(x)) by {
                    assert(self.items@[i as int] == x);
                }
                true
            },
            None => false,
        }
    }

    pub fn insert(&mut self, x: T)
        requires
            old(self).wf(),
        ensures
            final(self).wf(),
            final(self)@ == old(self)@.insert(x),
    {
        let pos = self.position(x);
        if pos.is_none() {
            proof {
                assert forall|j: int| 0 <= j < self.items@.len() implies
                    (#[trigger] self.items@[j]).key_spec() != x.key_spec() by {
                    T::lemma_key_injective(self.items@[j], x);
                    assert(self.items@.contains(self.items@[j]));
                }
            }
            let ghost before = self.items@;
            self.items.push(x);
            proof {
                assert forall|a: T| #[trigger] self.items@.contains(a) == (before.contains(a) || a == x) by {
                    if self.items@.contains(a) && a != x {
                        let k = choose|k: int| 0 <= k < self.items@.len() && self.items@[k] == a;
                        assert(before[k] == a);
                    }
                    if before.contains(a) {
                        let k = choose|k: int| 0 <= k < before.len() && before[k] == a;
                        assert(self.items@[k] == a);
                    }
                    if a == x {
                        assert(self.items@[before.len() as int] == x);
                    }
                }
            }
            assert(self@ =~= old(self)@.insert(x));
        } else {
            assert(self.items@.contains(x)) by {
                assert(self.items@[pos.unwrap() as int] == x);
            }
            assert(self@ =~= old(self)@.insert(x));
        }
    }

    pub fn remove(&mut self, x: T)
        requires
            old(self).wf(),
        ensures
            final(self).wf(),
            final(self)@ == old(self)@.remove(x),
    {
        match self.position(x) {
            Some(i) => {
                let ghost before = self.items@;
                self.items.remove(i);
                proof {
                    assert forall|a: T| #[trigger] self@.contains(a) == old(self)@.remove(x).contains(a) by {
                        if self.items@.contains(a) {
                            let k = choose|k: int| 0 <= k < self.items@.len() && self.items@[k] == a;
                            if k < i {
                                assert(before[k] == a);
                            } else {
                                assert(before[k + 1] == a);
                                assert(before[i as int].key_spec() != before[k + 1].key_spec());
                            }
                            assert(before.contains(a));
                        }
                        if before.contains(a) && a != x {
                            let k = choose|k: int| 0 <= k < before.len() && before[k] == a;
                            if k < i {
                                assert(self.items@[k] == a);
                            } else {
                                assert(k != i);
                                assert(self.items@[k - 1] == a);
                            }
                        }
                    }
                    assert(self@ =~= old(self)@.remove(x));
                    assert forall|p: int, q: int| 0 <= p < q < self.items@.len() implies
                        (#[trigger] self.items@[p]).key_spec() != (#[trigger] self.items@[q]).key_spec() by {
                        let bp = if p < i { p } else { p + 1 };
                        let bq = if q < i { q } else { q + 1 };
                        assert(self.items@[p] == before[bp]);
                        assert(self.items@[q] == before[bq]);
                    }
                }
            },
            None => {
                assert(self@ =~= old(self)@.remove(x));
            },
        }
    }

    pub fn clear(&mut self)
        ensures
            final(self).wf(),
            final(self)@ == Set::<T>::empty(),
    {
        self.items.clear();
        assert(self@ =~= Set::<T>::empty());
    }

    pub fn is_empty(&self) -> (r: bool)
        ensures
            r == (self@ == Set::<T>::empty()),
    {
        if self.items.len() == 0 {
            assert(self@ =~= Set::<T>::empty());
            true
        } else {
            assert(self@.contains(self.items@[0]));
            false
        }
    }

    /// Number of members.
    pub fn len(&self) -> (n: usize)
        requires
            self.wf(),
        ensures
            n == self@.len(),
    {
        proof {
            assert forall|i: int, j: int| 0 <= i < self.items@.len() && 0 <= j < self.items@.len()
                && i != j implies self.items@[i] != self.items@[j] by {
                if i < j {
                    assert(self.items@[i].key_spec() != self.items@[j].key_spec());
                } else {
                    assert(self.items@[j].key_spec() != self.items@[i].key_spec());
                }
            }
            assert(self.items@.no_duplicates());
            self.items@.unique_seq_to_set();
        }
        self.items.len()
    }
}

} // verus!
