//! Attribute names mapped to attribute records (`InfoRecordOut`).
//!
//! The names are strings; the map keeps its entries in a vector in which
//! no name occurs twice.

use vstd::prelude::*;

use crate::text::{owned, str_eq};

verus! {

/// An attribute's code and value, both as text.
#[derive(Debug, PartialEq)]
pub struct InfoRecordOut {
    pub code: String,
    pub value: String,
}

/// The mathematical content of an [`InfoRecordOut`].
pub struct InfoRecordOutView {
    pub code: Seq<char>,
    pub value: Seq<char>,
}

impl View for InfoRecordOut {
    type V = InfoRecordOutView;

    open spec fn view(&self) -> InfoRecordOutView {
        InfoRecordOutView { code: self.code@, value: self.value@ }
    }
}

impl InfoRecordOut {
    pub fn from(code: &str, value: &str) -> (r: Self)
        ensures
            r.code@ == code@,
            r.value@ == value@,
    {
        InfoRecordOut { code: owned(code), value: owned(value) }
    }

    /// A copy of this record.
    pub fn duplicate(&self) -> (r: Self)
        ensures
            r@ == self@,
    {
        InfoRecordOut { code: self.code.clone(), value: self.value.clone() }
    }
}

/// The map that a list of entries stands for (a later entry wins).
pub open spec fn map_of(s: Seq<(String, InfoRecordOut)>) -> Map<Seq<char>, InfoRecordOutView>
    decreases s.len(),
{
    if s.len() == 0 {
        Map::empty()
    } else {
        map_of(s.drop_last()).insert(s.last().0@, s.last().1@)
    }
}

/// No name occurs twice among the entries.
pub open spec fn distinct_names(s: Seq<(String, InfoRecordOut)>) -> bool {
    forall|i: int, j: int| 0 <= i < j < s.len() ==> #[trigger] s[i].0@ != #[trigger] s[j].0@
}

/// Attribute names mapped to attribute records.
#[derive(Debug)]
pub struct AttributeMap {
    entries: Vec<(String, InfoRecordOut)>,
}

impl View for AttributeMap {
    type V = Map<Seq<char>, InfoRecordOutView>;

    closed spec fn view(&self) -> Map<Seq<char>, InfoRecordOutView> {
        map_of(self.entries@)
    }
}

/// The map of a list of entries has exactly their names, each with the
/// record of the entry that holds it.
pub proof fn lemma_map_of(s: Seq<(String, InfoRecordOut)>)
    requires
        distinct_names(s),
    ensures
        map_of(s).dom().finite(),
        map_of(s).dom().len() == s.len(),
        forall|k: Seq<char>| #[trigger]
            map_of(s).contains_key(k) <==> exists|i: int| 0 <= i < s.len() && s[i].0@ == k,
        forall|i: int| 0 <= i < s.len() ==> #[trigger] map_of(s)[s[i].0@] == s[i].1@,
    decreases s.len(),
{
    if s.len() > 0 {
        let t = s.drop_last();
        assert(distinct_names(t));
        lemma_map_of(t);
        let k = s.last().0@;
        assert(!map_of(t).contains_key(k)) by {
            if map_of(t).contains_key(k) {
                let i = choose|i: int| 0 <= i < t.len() && t[i].0@ == k;
                assert(s[i].0@ == s[s.len() - 1].0@);
            }
        }
        assert forall|kk: Seq<char>| #[trigger]
            map_of(s).contains_key(kk) <==> exists|i: int| 0 <= i < s.len() && s[i].0@ == kk by {
            if map_of(s).contains_key(kk) && kk != k {
                let i = choose|i: int| 0 <= i < t.len() && t[i].0@ == kk;
                assert(s[i].0@ == kk);
            }
            if exists|i: int| 0 <= i < s.len() && s[i].0@ == kk {
                let i = choose|i: int| 0 <= i < s.len() && s[i].0@ == kk;
                if i < s.len() - 1 {
                    assert(t[i].0@ == kk);
                }
            }
        }
        assert forall|i: int| 0 <= i < s.len() implies #[trigger] map_of(s)[s[i].0@] == s[i].1@ by {
            if i < s.len() - 1 {
                assert(t[i] == s[i]);
                assert(s[i].0@ != k);
            }
        }
    }
}

/// Lists of entries whose names and records read the same stand for the
/// same map, and one has distinct names where the other has.
pub proof fn lemma_map_of_same_views(a: Seq<(String, InfoRecordOut)>, b: Seq<(String, InfoRecordOut)>)
    requires
        a.len() == b.len(),
        forall|i: int| 0 <= i < a.len() ==> (#[trigger] a[i]).0@ == b[i].0@ && a[i].1@ == b[i].1@,
    ensures
        map_of(a) == map_of(b),
        distinct_names(a) ==> distinct_names(b),
    decreases a.len(),
{
    if a.len() > 0 {
        lemma_map_of_same_views(a.drop_last(), b.drop_last());
        assert(a.last().0@ == b.last().0@);
    }
    if distinct_names(a) {
        assert forall|i: int, j: int| 0 <= i < j < b.len() implies #[trigger] b[i].0@ != #[trigger] b[j].0@ by {
            assert(a[i].0@ != a[j].0@);
        }
    }
}

impl AttributeMap {
    /// A copy of this map.
    pub fn duplicate(&self) -> (r: Self)
        ensures
            r@ == self@,
    {
        proof {
            use_type_invariant(self);
        }
        let mut entries: Vec<(String, InfoRecordOut)> = Vec::new();
        let mut i: usize = 0;
        while i < self.entries.len()
            invariant
                i <= self.entries@.len(),
                entries@.len() == i,
                forall|j: int|
                    0 <= j < i ==> (#[trigger] entries@[j]).0@ == self.entries@[j].0@ && entries@[j].1@
                        == self.entries@[j].1@,
            decreases self.entries@.len() - i,
        {
            let name = self.entries[i].0.clone();
            let record = self.entries[i].1.duplicate();
            entries.push((name, record));
            i = i + 1;
        }
        proof {
            lemma_map_of_same_views(self.entries@, entries@);
        }
        AttributeMap { entries }
    }

    #[verifier::type_invariant]
    closed spec fn well_formed(self) -> bool {
        distinct_names(self.entries@)
    }

    /// An empty map.
    pub fn new() -> (r: Self)
        ensures
            r@ == Map::<Seq<char>, InfoRecordOutView>::empty(),
    {
        AttributeMap { entries: Vec::new() }
    }

    /// The number of names in the map.
    pub fn len(&self) -> (r: usize)
        ensures
            self@.dom().finite(),
            r == self@.dom().len(),
    {
        proof {
            use_type_invariant(self);
            lemma_map_of(self.entries@);
        }
        self.entries.len()
    }

    fn find(&self, name: &str) -> (r: Option<usize>)
        ensures
            match r {
                Some(i) => i < self.entries@.len() && self.entries@[i as int].0@ == name@,
                None => forall|i: int|
                    0 <= i < self.entries@.len() ==> #[trigger] self.entries@[i].0@ != name@,
            },
    {
        let mut i: usize = 0;
        while i < self.entries.len()
            invariant
                i <= self.entries@.len(),
                forall|j: int| 0 <= j < i ==> #[trigger] self.entries@[j].0@ != name@,
            decreases self.entries@.len() - i,
        {
            if str_eq(self.entries[i].0.as_str(), name) {
                return Some(i);
            }
            i = i + 1;
        }
        None
    }

    /// The record of a name, if the map has the name.
    pub fn get(&self, name: &str) -> (r: Option<&InfoRecordOut>)
        ensures
            match r {
                Some(v) => self@.contains_key(name@) && v@ == self@[name@],
                None => !self@.contains_key(name@),
            },
    {
        proof {
            use_type_invariant(self);
            lemma_map_of(self.entries@);
        }
        match self.find(name) {
            Some(i) => Some(&self.entries[i].1),
            None => None,
        }
    }

    /// Maps `name` to `value`, replacing an earlier record of the name.
    pub fn insert(&mut self, name: String, value: InfoRecordOut)
        ensures
            final(self)@ == old(self)@.insert(name@, value@),
    {
        proof {
            use_type_invariant(&*self);
            lemma_map_of(self.entries@);
        }
        let ghost old_entries = self.entries@;
        match self.find(name.as_str()) {
            Some(i) => {
                let ghost k = name@;
                let mut entries: Vec<(String, InfoRecordOut)> = Vec::new();
                std::mem::swap(&mut entries, &mut self.entries);
                entries.set(i, (name, value));
                proof {
                    let s = entries@;
                    assert(distinct_names(s)) by {
                        assert forall|a: int, b: int| 0 <= a < b < s.len() implies #[trigger] s[a].0@
                            != #[trigger] s[b].0@ by {
                            if a != i && b != i {
                                assert(s[a] == old_entries[a] && s[b] == old_entries[b]);
                            } else if a == i {
                                assert(s[b] == old_entries[b]);
                                assert(old_entries[i as int].0@ != old_entries[b].0@);
                            } else {
                                assert(s[a] == old_entries[a]);
                                assert(old_entries[a].0@ != old_entries[i as int].0@);
                            }
                        }
                    }
                    lemma_map_of(s);
                    assert(map_of(s) =~= map_of(old_entries).insert(k, value@)) by {
                        assert forall|kk: Seq<char>| #[trigger] map_of(s).contains_key(kk)
                            == map_of(old_entries).insert(k, value@).contains_key(kk) by {
                            assert(s[i as int].0@ == k);
                            assert(old_entries[i as int].0@ == k);
                            if exists|j: int| 0 <= j < old_entries.len() && old_entries[j].0@ == kk {
                                let j = choose|j: int| 0 <= j < old_entries.len() && old_entries[j].0@ == kk;
                                if j != i {
                                    assert(s[j] == old_entries[j]);
                                }
                            }
                            if exists|j: int| 0 <= j < s.len() && s[j].0@ == kk {
                                let j = choose|j: int| 0 <= j < s.len() && s[j].0@ == kk;
                                if j != i {
                                    assert(s[j] == old_entries[j]);
                                }
                            }
                        }
                        assert forall|kk: Seq<char>| #[trigger] map_of(s).contains_key(kk)
                            implies map_of(s)[kk] == map_of(old_entries).insert(k, value@)[kk] by {
                            let j = choose|j: int| 0 <= j < s.len() && s[j].0@ == kk;
                            if j != i {
                                assert(s[j] == old_entries[j]);
                            }
                        }
                    }
                }
                self.entries = entries;
            },
            None => {
                let mut entries: Vec<(String, InfoRecordOut)> = Vec::new();
                std::mem::swap(&mut entries, &mut self.entries);
                entries.push((name, value));
                proof {
                    let s = entries@;
                    assert(s.drop_last() == old_entries);
                    assert(distinct_names(s)) by {
                        assert forall|a: int, b: int| 0 <= a < b < s.len() implies #[trigger] s[a].0@
                            != #[trigger] s[b].0@ by {
                            if b < s.len() - 1 {
                                assert(s[a] == old_entries[a] && s[b] == old_entries[b]);
                            } else {
                                assert(s[a] == old_entries[a]);
                            }
                        }
                    }
                }
                self.entries = entries;
            },
        }
    }

    /// Removes a name from the map and returns its record, if it had one.
    pub fn remove(&mut self, name: &str) -> (r: Option<InfoRecordOut>)
        ensures
            final(self)@ == old(self)@.remove(name@),
            match r {
                Some(v) => old(self)@.contains_key(name@) && v@ == old(self)@[name@],
                None => !old(self)@.contains_key(name@),
            },
    {
        proof {
            use_type_invariant(&*self);
            lemma_map_of(self.entries@);
        }
        let ghost old_entries = self.entries@;
        match self.find(name) {
            Some(i) => {
                let mut entries: Vec<(String, InfoRecordOut)> = Vec::new();
                std::mem::swap(&mut entries, &mut self.entries);
                let removed = entries.remove(i);
                proof {
                    let s = entries@;
                    assert(s == old_entries.remove(i as int));
                    assert(distinct_names(s)) by {
                        assert forall|a: int, b: int| 0 <= a < b < s.len() implies #[trigger] s[a].0@
                            != #[trigger] s[b].0@ by {
                            let a2 = if a < i { a } else { a + 1 };
                            let b2 = if b < i { b } else { b + 1 };
                            assert(s[a] == old_entries[a2] && s[b] == old_entries[b2]);
                        }
                    }
                    lemma_map_of(s);
                    assert(map_of(s) =~= map_of(old_entries).remove(name@)) by {
                        assert forall|kk: Seq<char>| #[trigger] map_of(s).contains_key(kk)
                            == map_of(old_entries).remove(name@).contains_key(kk) by {
                            if exists|j: int| 0 <= j < old_entries.len() && old_entries[j].0@ == kk {
                                let j = choose|j: int| 0 <= j < old_entries.len() && old_entries[j].0@ == kk;
                                if j < i {
                                    assert(s[j] == old_entries[j]);
                                } else if j > i {
                                    assert(s[j - 1] == old_entries[j]);
                                }
                            }
                            if exists|j: int| 0 <= j < s.len() && s[j].0@ == kk {
                                let j = choose|j: int| 0 <= j < s.len() && s[j].0@ == kk;
                                let j2 = if j < i { j } else { j + 1 };
                                assert(s[j] == old_entries[j2]);
                            }
                        }
                        assert forall|kk: Seq<char>| #[trigger] map_of(s).contains_key(kk)
                            implies map_of(s)[kk] == map_of(old_entries).remove(name@)[kk] by {
                            let j = choose|j: int| 0 <= j < s.len() && s[j].0@ == kk;
                            let j2 = if j < i { j } else { j + 1 };
                            assert(s[j] == old_entries[j2]);
                        }
                    }
                }
                self.entries = entries;
                Some(removed.1)
            },
            None => {
                assert(map_of(old_entries).remove(name@) =~= map_of(old_entries));
                None
            },
        }
    }

    /// A map with the given entries, inserted in order (a later entry
    /// with the same name replaces an earlier one).
    pub fn from_pairs(pairs: Vec<(String, InfoRecordOut)>) -> (r: Self)
        ensures
            r@ == map_of(pairs@),
    {
        let mut r = AttributeMap::new();
        let mut rest = pairs;
        let ghost all = rest@;
        let n = rest.len();
        let mut i: usize = 0;
        while rest.len() > 0
            invariant
                all.len() == n,
                i <= n,
                rest@ == all.subrange(i as int, n as int),
                r@ == map_of(all.subrange(0, i as int)),
            decreases rest@.len(),
        {
            let (k, v) = rest.remove(0);
            assert(all[i as int] == (k, v));
            r.insert(k, v);
            assert(all.subrange(0, i + 1).drop_last() == all.subrange(0, i as int));
            i = i + 1;
        }
        assert(all.subrange(0, n as int) == all);
        r
    }
}

} // verus!
