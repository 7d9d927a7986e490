//! Small association maps with exact `Map` views: one keyed by
//! strings, one keyed by 64-bit integers. Entries are kept in a vector
//! with pairwise-distinct keys.

use crate::text::str_eq;
use vstd::prelude::*;

verus! {

/// A map from strings to values, modelled as `Map<Seq<char>, V::V>`.
pub struct StrMap<V: View> {
    entries: Vec<(String, V)>,
}

spec fn str_entries_map<V: View>(s: Seq<(String, V)>) -> Map<Seq<char>, V::V>
    decreases s.len(),
{
    if s.len() == 0 {
        Map::empty()
    } else {
        str_entries_map(s.drop_last()).insert(s.last().0@, s.last().1@)
    }
}

spec fn str_keys_distinct<V>(s: Seq<(String, V)>) -> bool {
    forall|i: int, j: int| 0 <= i < j < s.len() ==> s[i].0@ != s[j].0@
}

proof fn lemma_str_entries_props<V: View>(s: Seq<(String, V)>, k: Seq<char>)
    ensures
        str_entries_map(s).contains_key(k) <==> exists|i: int| 0 <= i < s.len() && s[i].0@ == k,
        str_keys_distinct(s) ==> forall|i: int|
            0 <= i < s.len() && s[i].0@ == k ==> str_entries_map(s).contains_key(k)
                && str_entries_map(s)[k] == s[i].1@,
    decreases s.len(),
{
    if s.len() > 0 {
        lemma_str_entries_props(s.drop_last(), k);
        assert(forall|i: int| 0 <= i < s.len() - 1 ==> s[i] == s.drop_last()[i]);
        if str_entries_map(s).contains_key(k) {
            if s.last().0@ != k {
                assert(str_entries_map(s.drop_last()).contains_key(k));
            } else {
                assert(s[s.len() - 1].0@ == k);
            }
        }
        if exists|i: int| 0 <= i < s.len() && s[i].0@ == k {
            let i = choose|i: int| 0 <= i < s.len() && s[i].0@ == k;
            if i < s.len() - 1 {
                assert(str_entries_map(s.drop_last()).contains_key(k));
            }
        }
        if str_keys_distinct(s) {
            assert(str_keys_distinct(s.drop_last()));
        }
    }
}

proof fn lemma_str_entries_remove<V: View>(s: Seq<(String, V)>, idx: int)
    requires
        str_keys_distinct(s),
        0 <= idx < s.len(),
    ensures
        str_entries_map(s.remove(idx)) == str_entries_map(s).remove(s[idx].0@),
    decreases s.len(),
{
    let k = s[idx].0@;
    if idx == s.len() - 1 {
        assert(s.remove(idx) =~= s.drop_last());
        lemma_str_entries_props(s.drop_last(), k);
        assert(!str_entries_map(s.drop_last()).contains_key(k));
        assert(str_entries_map(s.drop_last()).remove(k) =~= str_entries_map(s.drop_last()));
        assert(str_entries_map(s).remove(k) =~= str_entries_map(s.drop_last()).insert(
            s.last().0@,
            s.last().1@,
        ).remove(k));
        assert(str_entries_map(s.drop_last()).insert(k, s.last().1@).remove(k)
            =~= str_entries_map(s.drop_last()).remove(k));
    } else {
        let t = s.remove(idx);
        assert(t.len() == s.len() - 1);
        assert(t.last() == s.last());
        assert(t.drop_last() =~= s.drop_last().remove(idx));
        assert(str_keys_distinct(s.drop_last())) by {
            assert(forall|i: int| 0 <= i < s.len() - 1 ==> s[i] == s.drop_last()[i]);
        }
        lemma_str_entries_remove(s.drop_last(), idx);
        assert(s.drop_last()[idx] == s[idx]);
        assert(str_entries_map(t) == str_entries_map(t.drop_last()).insert(
            t.last().0@,
            t.last().1@,
        ));
        assert(s.last().0@ != k);
        assert(str_entries_map(s.drop_last()).remove(k).insert(s.last().0@, s.last().1@)
            =~= str_entries_map(s.drop_last()).insert(s.last().0@, s.last().1@).remove(k));
    }
}

impl<V: View> StrMap<V> {
    /// Well-formedness: the keys are pairwise distinct. `new`
    /// establishes it and every method keeps it.
    pub closed spec fn wf(&self) -> bool {
        str_keys_distinct(self.entries@)
    }

    pub closed spec fn view(&self) -> Map<Seq<char>, V::V> {
        str_entries_map(self.entries@)
    }

    /// The number of entries.
    pub closed spec fn spec_len(&self) -> nat {
        self.entries@.len()
    }

    pub fn new() -> (r: Self)
        ensures
            r.wf(),
            r@ == Map::<Seq<char>, V::V>::empty(),
            r.spec_len() == 0,
    {
        StrMap { entries: Vec::new() }
    }

    pub fn len(&self) -> (r: usize)
        ensures
            r == self.spec_len(),
    {
        self.entries.len()
    }

    fn index_of(&self, key: &str) -> (r: Option<usize>)
        ensures
            match r {
                Some(i) => i < self.entries@.len() && self.entries@[i as int].0@ == key@,
                None => forall|i: int|
                    0 <= i < self.entries@.len() ==> self.entries@[i].0@ != key@,
            },
    {
        let n = self.entries.len();
        let mut i: usize = 0;
        while i < n
            invariant
                n == self.entries@.len(),
                i <= n,
                forall|j: int| 0 <= j < i ==> self.entries@[j].0@ != key@,
            decreases n - i,
        {
            if str_eq(self.entries[i].0.as_str(), key) {
                return Some(i);
            }
            i += 1;
        }
        None
    }


    /// The keys, each exactly once.
    pub fn keys(&self) -> (r: Vec<String>)
        requires
            self.wf(),
        ensures
            r@.len() == self.spec_len(),
            forall|i: int| 0 <= i < r@.len() ==> self@.contains_key(#[trigger] r@[i]@),
            forall|i: int, j: int| 0 <= i < j < r@.len() ==> r@[i]@ != r@[j]@,
            forall|k: Seq<char>| self@.contains_key(k) ==> exists|i: int|
                0 <= i < r@.len() && #[trigger] r@[i]@ == k,
    {
        let n = self.entries.len();
        let mut r: Vec<String> = Vec::new();
        let mut i: usize = 0;
        while i < n
            invariant
                n == self.entries@.len(),
                self.wf(),
                i <= n,
                r@.len() == i,
                forall|j: int| 0 <= j < i ==> r@[j]@ == #[trigger] self.entries@[j].0@,
            decreases n - i,
        {
            r.push(self.entries[i].0.clone());
            i += 1;
        }
        proof {
            assert forall|j: int| 0 <= j < r@.len() implies self@.contains_key(
                #[trigger] r@[j]@,
            ) by {
                assert(r@[j]@ == self.entries@[j].0@);
                lemma_str_entries_props(self.entries@, r@[j]@);
            }
            assert forall|a: int, b: int| 0 <= a < b < r@.len() implies #[trigger] r@[a]@
                != #[trigger] r@[b]@ by {
                assert(r@[a]@ == self.entries@[a].0@);
                assert(r@[b]@ == self.entries@[b].0@);
            }
            assert forall|k: Seq<char>| self@.contains_key(k) implies exists|j: int|
                0 <= j < r@.len() && #[trigger] r@[j]@ == k by {
                lemma_str_entries_props(self.entries@, k);
                let j = choose|j: int|
                    0 <= j < self.entries@.len() && self.entries@[j].0@ == k;
                assert(r@[j]@ == self.entries@[j].0@);
                assert(r@[j]@ == k);
            }
        }
        r
    }

    pub fn contains_key(&self, key: &str) -> (r: bool)
        requires
            self.wf(),
        ensures
            r == self@.contains_key(key@),
    {
        proof {
            lemma_str_entries_props(self.entries@, key@);
        }
        self.index_of(key).is_some()
    }

    /// A reference to the value under `key`, if present.
    pub fn get(&self, key: &str) -> (r: Option<&V>)
        requires
            self.wf(),
        ensures
            match r {
                Some(v) => self@.contains_key(key@) && self@[key@] == v@,
                None => !self@.contains_key(key@),
            },
    {
        proof {
            lemma_str_entries_props(self.entries@, key@);
        }
        match self.index_of(key) {
            Some(i) => Some(&self.entries[i].1),
            None => None,
        }
    }

    /// Insert or replace the value under `key`.
    pub fn insert(&mut self, key: String, value: V)
        requires
            old(self).wf(),
        ensures
            final(self).wf(),
            final(self)@ == old(self)@.insert(key@, value@),
            final(self).spec_len() == if old(self)@.contains_key(key@) {
                old(self).spec_len()
            } else {
                old(self).spec_len() + 1
            },
    {
        proof {
            lemma_str_entries_props(self.entries@, key@);
        }
        let ghost s0 = self.entries@;
        match self.index_of(key.as_str()) {
            Some(i) => {
                proof {
                    lemma_str_entries_remove(s0, i as int);
                }
                self.entries.remove(i);
                proof {
                    assert(forall|a: int, b: int|
                        0 <= a < b < self.entries@.len() ==> #[trigger] self.entries@[a].0@
                            != #[trigger] self.entries@[b].0@) by {
                        assert(forall|a: int|
                            0 <= a < self.entries@.len() ==> exists|b: int|
                                0 <= b < s0.len() && #[trigger] self.entries@[a] == s0[b]);
                    }
                }
            },
            None => {},
        }
        let ghost s1 = self.entries@;
        proof {
            lemma_str_entries_props(s1, key@);
        }
        self.entries.push((key, value));
        proof {
            assert(self.entries@.drop_last() =~= s1);
            assert(self.entries@.last().0@ == key@);
            assert(str_entries_map(self.entries@) == str_entries_map(s1).insert(key@, value@));
            if old(self)@.contains_key(key@) {
                assert(str_entries_map(s1) =~= old(self)@.remove(key@));
                assert(str_entries_map(s1).insert(key@, value@) =~= old(self)@.insert(
                    key@,
                    value@,
                ));
            } else {
                assert(str_entries_map(s1) == old(self)@);
            }
            assert(str_keys_distinct(self.entries@)) by {
                lemma_str_entries_props(s1, key@);
                assert(forall|j: int|
                    0 <= j < s1.len() ==> #[trigger] s1[j].0@ != key@);
                assert(forall|j: int|
                    0 <= j < self.entries@.len() - 1 ==> self.entries@[j] == s1[j]);
            }
        }
    }

    /// Take the value under `key` out, if present.
    pub fn remove(&mut self, key: &str) -> (r: Option<V>)
        requires
            old(self).wf(),
        ensures
            final(self).wf(),
            final(self)@ == old(self)@.remove(key@),
            match r {
                Some(v) => old(self)@.contains_key(key@) && old(self)@[key@] == v@
                    && final(self).spec_len() == old(self).spec_len() - 1,
                None => !old(self)@.contains_key(key@)
                    && final(self).spec_len() == old(self).spec_len(),
            },
    {
        proof {
            lemma_str_entries_props(self.entries@, key@);
        }
        let ghost s0 = self.entries@;
        match self.index_of(key) {
            Some(i) => {
                proof {
                    lemma_str_entries_remove(s0, i as int);
                }
                let pair = self.entries.remove(i);
                proof {
                    assert(forall|a: int, b: int|
                        0 <= a < b < self.entries@.len() ==> #[trigger] self.entries@[a].0@
                            != #[trigger] self.entries@[b].0@) by {
                        assert(forall|a: int|
                            0 <= a < self.entries@.len() ==> exists|b: int|
                                0 <= b < s0.len() && #[trigger] self.entries@[a] == s0[b]);
                    }
                }
                Some(pair.1)
            },
            None => {
                proof {
                    assert(!old(self)@.contains_key(key@));
                    assert(old(self)@.remove(key@) =~= old(self)@);
                }
                None
            },
        }
    }
}


/// A map from 64-bit integer keys to values, modelled as `Map<int, V::V>`.
pub struct I64Map<V: View> {
    entries: Vec<(i64, V)>,
}

spec fn i64_entries_map<V: View>(s: Seq<(i64, V)>) -> Map<int, V::V>
    decreases s.len(),
{
    if s.len() == 0 {
        Map::empty()
    } else {
        i64_entries_map(s.drop_last()).insert(s.last().0 as int, s.last().1@)
    }
}

spec fn i64_keys_distinct<V>(s: Seq<(i64, V)>) -> bool {
    forall|i: int, j: int| 0 <= i < j < s.len() ==> s[i].0 as int != s[j].0 as int
}

proof fn lemma_i64_entries_props<V: View>(s: Seq<(i64, V)>, k: int)
    ensures
        i64_entries_map(s).contains_key(k) <==> exists|i: int| 0 <= i < s.len() && s[i].0 as int == k,
        i64_keys_distinct(s) ==> forall|i: int|
            0 <= i < s.len() && s[i].0 as int == k ==> i64_entries_map(s).contains_key(k)
                && i64_entries_map(s)[k] == s[i].1@,
    decreases s.len(),
{
    if s.len() > 0 {
        lemma_i64_entries_props(s.drop_last(), k);
        assert(forall|i: int| 0 <= i < s.len() - 1 ==> s[i] == s.drop_last()[i]);
        if i64_entries_map(s).contains_key(k) {
            if s.last().0 as int != k {
                assert(i64_entries_map(s.drop_last()).contains_key(k));
            } else {
                assert(s[s.len() - 1].0 as int == k);
            }
        }
        if exists|i: int| 0 <= i < s.len() && s[i].0 as int == k {
            let i = choose|i: int| 0 <= i < s.len() && s[i].0 as int == k;
            if i < s.len() - 1 {
                assert(i64_entries_map(s.drop_last()).contains_key(k));
            }
        }
        if i64_keys_distinct(s) {
            assert(i64_keys_distinct(s.drop_last()));
        }
    }
}

proof fn lemma_i64_entries_remove<V: View>(s: Seq<(i64, V)>, idx: int)
    requires
        i64_keys_distinct(s),
        0 <= idx < s.len(),
    ensures
        i64_entries_map(s.remove(idx)) == i64_entries_map(s).remove(s[idx].0 as int),
    decreases s.len(),
{
    let k = s[idx].0 as int;
    if idx == s.len() - 1 {
        assert(s.remove(idx) =~= s.drop_last());
        lemma_i64_entries_props(s.drop_last(), k);
        assert(!i64_entries_map(s.drop_last()).contains_key(k));
        assert(i64_entries_map(s.drop_last()).remove(k) =~= i64_entries_map(s.drop_last()));
        assert(i64_entries_map(s).remove(k) =~= i64_entries_map(s.drop_last()).insert(
            s.last().0 as int,
            s.last().1@,
        ).remove(k));
        assert(i64_entries_map(s.drop_last()).insert(k, s.last().1@).remove(k)
            =~= i64_entries_map(s.drop_last()).remove(k));
    } else {
        let t = s.remove(idx);
        assert(t.len() == s.len() - 1);
        assert(t.last() == s.last());
        assert(t.drop_last() =~= s.drop_last().remove(idx));
        assert(i64_keys_distinct(s.drop_last())) by {
            assert(forall|i: int| 0 <= i < s.len() - 1 ==> s[i] == s.drop_last()[i]);
        }
        lemma_i64_entries_remove(s.drop_last(), idx);
        assert(s.drop_last()[idx] == s[idx]);
        assert(i64_entries_map(t) == i64_entries_map(t.drop_last()).insert(
            t.last().0 as int,
            t.last().1@,
        ));
        assert(s.last().0 as int != k);
        assert(i64_entries_map(s.drop_last()).remove(k).insert(s.last().0 as int, s.last().1@)
            =~= i64_entries_map(s.drop_last()).insert(s.last().0 as int, s.last().1@).remove(k));
    }
}

impl<V: View> I64Map<V> {
    /// Well-formedness: the keys are pairwise distinct. `new`
    /// establishes it and every method keeps it.
    pub closed spec fn wf(&self) -> bool {
        i64_keys_distinct(self.entries@)
    }

    pub closed spec fn view(&self) -> Map<int, V::V> {
        i64_entries_map(self.entries@)
    }

    /// The number of entries.
    pub closed spec fn spec_len(&self) -> nat {
        self.entries@.len()
    }

    pub fn new() -> (r: Self)
        ensures
            r.wf(),
            r@ == Map::<int, V::V>::empty(),
            r.spec_len() == 0,
    {
        I64Map { entries: Vec::new() }
    }

    pub fn len(&self) -> (r: usize)
        ensures
            r == self.spec_len(),
    {
        self.entries.len()
    }

    fn index_of(&self, key: i64) -> (r: Option<usize>)
        ensures
            match r {
                Some(i) => i < self.entries@.len() && self.entries@[i as int].0 as int == key as int,
                None => forall|i: int|
                    0 <= i < self.entries@.len() ==> self.entries@[i].0 as int != key as int,
            },
    {
        let n = self.entries.len();
        let mut i: usize = 0;
        while i < n
            invariant
                n == self.entries@.len(),
                i <= n,
                forall|j: int| 0 <= j < i ==> self.entries@[j].0 as int != key as int,
            decreases n - i,
        {
            if self.entries[i].0 == key {
                return Some(i);
            }
            i += 1;
        }
        None
    }


    /// The keys, each exactly once.
    pub fn keys(&self) -> (r: Vec<i64>)
        requires
            self.wf(),
        ensures
            r@.len() == self.spec_len(),
            forall|i: int| 0 <= i < r@.len() ==> self@.contains_key(#[trigger] r@[i] as int),
            forall|i: int, j: int| 0 <= i < j < r@.len() ==> r@[i] as int != r@[j] as int,
            forall|k: int| self@.contains_key(k) ==> exists|i: int|
                0 <= i < r@.len() && #[trigger] r@[i] as int == k,
    {
        let n = self.entries.len();
        let mut r: Vec<i64> = Vec::new();
        let mut i: usize = 0;
        while i < n
            invariant
                n == self.entries@.len(),
                self.wf(),
                i <= n,
                r@.len() == i,
                forall|j: int| 0 <= j < i ==> r@[j] as int == #[trigger] self.entries@[j].0 as int,
            decreases n - i,
        {
            r.push(self.entries[i].0);
            i += 1;
        }
        proof {
            assert forall|j: int| 0 <= j < r@.len() implies self@.contains_key(
                #[trigger] r@[j] as int,
            ) by {
                assert(r@[j] as int == self.entries@[j].0 as int);
                lemma_i64_entries_props(self.entries@, r@[j] as int);
            }
            assert forall|a: int, b: int| 0 <= a < b < r@.len() implies #[trigger] r@[a] as int
                != #[trigger] r@[b] as int by {
                assert(r@[a] as int == self.entries@[a].0 as int);
                assert(r@[b] as int == self.entries@[b].0 as int);
            }
            assert forall|k: int| self@.contains_key(k) implies exists|j: int|
                0 <= j < r@.len() && #[trigger] r@[j] as int == k by {
                lemma_i64_entries_props(self.entries@, k);
                let j = choose|j: int|
                    0 <= j < self.entries@.len() && self.entries@[j].0 as int == k;
                assert(r@[j] as int == self.entries@[j].0 as int);
                assert(r@[j] as int == k);
            }
        }
        r
    }

    pub fn contains_key(&self, key: i64) -> (r: bool)
        requires
            self.wf(),
        ensures
            r == self@.contains_key(key as int),
    {
        proof {
            lemma_i64_entries_props(self.entries@, key as int);
        }
        self.index_of(key).is_some()
    }

    /// A reference to the value under `key`, if present.
    pub fn get(&self, key: i64) -> (r: Option<&V>)
        requires
            self.wf(),
        ensures
            match r {
                Some(v) => self@.contains_key(key as int) && self@[key as int] == v@,
                None => !self@.contains_key(key as int),
            },
    {
        proof {
            lemma_i64_entries_props(self.entries@, key as int);
        }
        match self.index_of(key) {
            Some(i) => Some(&self.entries[i].1),
            None => None,
        }
    }

    /// Insert or replace the value under `key`.
    pub fn insert(&mut self, key: i64, value: V)
        requires
            old(self).wf(),
        ensures
            final(self).wf(),
            final(self)@ == old(self)@.insert(key as int, value@),
            final(self).spec_len() == if old(self)@.contains_key(key as int) {
                old(self).spec_len()
            } else {
                old(self).spec_len() + 1
            },
    {
        proof {
            lemma_i64_entries_props(self.entries@, key as int);
        }
        let ghost s0 = self.entries@;
        match self.index_of(key) {
            Some(i) => {
                proof {
                    lemma_i64_entries_remove(s0, i as int);
                }
                self.entries.remove(i);
                proof {
                    assert(forall|a: int, b: int|
                        0 <= a < b < self.entries@.len() ==> #[trigger] self.entries@[a].0 as int
                            != #[trigger] self.entries@[b].0 as int) by {
                        assert(forall|a: int|
                            0 <= a < self.entries@.len() ==> exists|b: int|
                                0 <= b < s0.len() && #[trigger] self.entries@[a] == s0[b]);
                    }
                }
            },
            None => {},
        }
        let ghost s1 = self.entries@;
        proof {
            lemma_i64_entries_props(s1, key as int);
        }
        self.entries.push((key, value));
        proof {
            assert(self.entries@.drop_last() =~= s1);
            assert(self.entries@.last().0 as int == key as int);
            assert(i64_entries_map(self.entries@) == i64_entries_map(s1).insert(key as int, value@));
            if old(self)@.contains_key(key as int) {
                assert(i64_entries_map(s1) =~= old(self)@.remove(key as int));
                assert(i64_entries_map(s1).insert(key as int, value@) =~= old(self)@.insert(
                    key as int,
                    value@,
                ));
            } else {
                assert(i64_entries_map(s1) == old(self)@);
            }
            assert(i64_keys_distinct(self.entries@)) by {
                lemma_i64_entries_props(s1, key as int);
                assert(forall|j: int|
                    0 <= j < s1.len() ==> #[trigger] s1[j].0 as int != key as int);
                assert(forall|j: int|
                    0 <= j < self.entries@.len() - 1 ==> self.entries@[j] == s1[j]);
            }
        }
    }

    /// Take the value under `key` out, if present.
    pub fn remove(&mut self, key: i64) -> (r: Option<V>)
        requires
            old(self).wf(),
        ensures
            final(self).wf(),
            final(self)@ == old(self)@.remove(key as int),
            match r {
                Some(v) => old(self)@.contains_key(key as int) && old(self)@[key as int] == v@
                    && final(self).spec_len() == old(self).spec_len() - 1,
                None => !old(self)@.contains_key(key as int)
                    && final(self).spec_len() == old(self).spec_len(),
            },
    {
        proof {
            lemma_i64_entries_props(self.entries@, key as int);
        }
        let ghost s0 = self.entries@;
        match self.index_of(key) {
            Some(i) => {
                proof {
                    lemma_i64_entries_remove(s0, i as int);
                }
                let pair = self.entries.remove(i);
                proof {
                    assert(forall|a: int, b: int|
                        0 <= a < b < self.entries@.len() ==> #[trigger] self.entries@[a].0 as int
                            != #[trigger] self.entries@[b].0 as int) by {
                        assert(forall|a: int|
                            0 <= a < self.entries@.len() ==> exists|b: int|
                                0 <= b < s0.len() && #[trigger] self.entries@[a] == s0[b]);
                    }
                }
                Some(pair.1)
            },
            None => {
                proof {
                    assert(!old(self)@.contains_key(key as int));
                    assert(old(self)@.remove(key as int) =~= old(self)@);
                }
                None
            },
        }
    }
}


} // verus!
