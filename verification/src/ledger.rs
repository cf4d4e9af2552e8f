use vstd::prelude::*;

use crate::text::str_eq;

verus! {

/// A map from names to values, kept as a list of entries in insertion order
/// with no name occurring twice.
pub struct Ledger<V> {
    entries: Vec<(String, V)>,
}

/// No name occurs twice.
pub open spec fn names_unique<V>(entries: Seq<(String, V)>) -> bool {
    forall|i: int, j: int|
        0 <= i < j < entries.len() ==> #[trigger] entries[i].0@ != #[trigger] entries[j].0@
}

/// The map that a list of uniquely named entries stands for.
pub open spec fn entries_map<V>(entries: Seq<(String, V)>) -> Map<Seq<char>, V> {
    Map::new(
        |k: Seq<char>| exists|i: int| 0 <= i < entries.len() && #[trigger] entries[i].0@ == k,
        |k: Seq<char>| entries[choose|i: int| 0 <= i < entries.len() && #[trigger] entries[i].0@ == k].1,
    )
}

/// The entry at `i` is the one that the map reads for its name.
pub proof fn lemma_entries_map_at<V>(entries: Seq<(String, V)>, i: int)
    requires
        names_unique(entries),
        0 <= i < entries.len(),
    ensures
        entries_map(entries).contains_key(entries[i].0@),
        entries_map(entries)[entries[i].0@] == entries[i].1,
{
    let k = entries[i].0@;
    assert(exists|j: int| 0 <= j < entries.len() && #[trigger] entries[j].0@ == k);
    let c = choose|j: int| 0 <= j < entries.len() && #[trigger] entries[j].0@ == k;
    if c != i {
        if c < i {
            assert(entries[c].0@ != entries[i].0@);
        } else {
            assert(entries[i].0@ != entries[c].0@);
        }
    }
}

impl<V> Ledger<V> {
    #[verifier::type_invariant]
    spec fn inv(self) -> bool {
        names_unique(self.entries@)
    }

    /// The entries in insertion order.
    pub closed spec fn spec_entries(self) -> Seq<(String, V)> {
        self.entries@
    }

    /// The map from names to values.
    pub closed spec fn map(self) -> Map<Seq<char>, V> {
        entries_map(self.entries@)
    }

    pub fn new() -> (l: Self)
        ensures
            l.map() == Map::<Seq<char>, V>::empty(),
            l.spec_entries().len() == 0,
    {
        let l = Ledger { entries: Vec::new() };
        assert(l.map() =~= Map::<Seq<char>, V>::empty());
        l
    }

    /// The position of `name` among the entries.
    fn find(&self, name: &str) -> (r: Option<usize>)
        ensures
            match r {
                Some(i) => i < self.entries@.len() && self.entries@[i as int].0@ == name@,
                None => forall|j: int|
                    0 <= j < self.entries@.len() ==> #[trigger] self.entries@[j].0@ != name@,
            },
    {
        let mut i: usize = 0;
        while i < self.entries.len()
            invariant
                i <= self.entries@.len(),
                forall|j: int| 0 <= j < i ==> #[trigger] self.entries@[j].0@ != name@,
            decreases self.entries@.len() - i,
        {
            if str_eq(self.entries[i].0.as_str(), name) {
                return Some(i);
            }
            i = i + 1;
        }
        None
    }

    /// The number of entries; it also tells how the entries make up the map.
    pub fn len(&self) -> (n: usize)
        ensures
            n == self.spec_entries().len(),
            names_unique(self.spec_entries()),
            forall|k: Seq<char>| #[trigger] self.map().contains_key(k) <==> exists|i: int| 0 <= i < n && #[trigger] self.spec_entries()[i].0@ == k,
            forall|i: int| 0 <= i < n ==> self.map().contains_key(#[trigger] self.spec_entries()[i].0@)
                && self.map()[self.spec_entries()[i].0@] == self.spec_entries()[i].1,
    {
        proof {
            use_type_invariant(self);
            assert forall|i: int| 0 <= i < self.entries@.len() implies self.map().contains_key(#[trigger] self.spec_entries()[i].0@)
                && self.map()[self.spec_entries()[i].0@] == self.spec_entries()[i].1 by {
                lemma_entries_map_at(self.entries@, i);
            }
        }
        self.entries.len()
    }

    /// The entry at position `i`.
    pub fn entry(&self, i: usize) -> (e: &(String, V))
        requires
            i < self.spec_entries().len(),
        ensures
            *e == self.spec_entries()[i as int],
            self.map().contains_key(e.0@),
            self.map()[e.0@] == e.1,
    {
        proof {
            use_type_invariant(self);
            lemma_entries_map_at(self.entries@, i as int);
        }
        &self.entries[i]
    }

    pub fn contains(&self, name: &str) -> (b: bool)
        ensures
            b == self.map().contains_key(name@),
    {
        proof {
            use_type_invariant(self);
        }
        match self.find(name) {
            Some(i) => {
                proof {
                    lemma_entries_map_at(self.entries@, i as int);
                }
                true
            },
            None => false,
        }
    }

    pub fn get(&self, name: &str) -> (r: Option<&V>)
        ensures
            match r {
                Some(v) => self.map().contains_key(name@) && *v == self.map()[name@],
                None => !self.map().contains_key(name@),
            },
    {
        proof {
            use_type_invariant(self);
        }
        match self.find(name) {
            Some(i) => {
                proof {
                    lemma_entries_map_at(self.entries@, i as int);
                }
                Some(&self.entries[i].1)
            },
            None => None,
        }
    }

    /// Sets the value of `name`, keeping its place if it is already present
    /// and appending it otherwise.
    pub fn set(&mut self, name: String, value: V)
        ensures
            final(self).map() == old(self).map().insert(name@, value),
            old(self).map().contains_key(name@) ==> final(self).spec_entries().len()
                == old(self).spec_entries().len(),
            !old(self).map().contains_key(name@) ==> final(self).spec_entries()
                == old(self).spec_entries().push((name, value)),
    {
        proof {
            use_type_invariant(&*self);
        }
        let ghost old_entries = self.entries@;
        let ghost name_view = name@;
        match self.find(name.as_str()) {
            Some(i) => {
                proof {
                    lemma_entries_map_at(old_entries, i as int);
                }
                let mut entries: Vec<(String, V)> = Vec::new();
                std::mem::swap(&mut entries, &mut self.entries);
                entries.set(i, (name, value));
                let ghost new_entries = entries@;
                assert(new_entries == old_entries.update(i as int, (new_entries[i as int].0, value)));
                assert(names_unique(new_entries)) by {
                    assert forall|a: int, b: int| 0 <= a < b < new_entries.len() implies
                        #[trigger] new_entries[a].0@ != #[trigger] new_entries[b].0@ by {
                        if a != i as int && b != i as int {
                            assert(old_entries[a].0@ != old_entries[b].0@);
                        } else if a == i as int {
                            assert(old_entries[a].0@ != old_entries[b].0@);
                        } else {
                            assert(old_entries[a].0@ != old_entries[b].0@);
                        }
                    }
                }
                proof {
                    assert forall|k: Seq<char>| #![auto] entries_map(new_entries).contains_key(k) == entries_map(old_entries).insert(name_view, value).contains_key(k) by {
                        if k == name_view {
                            lemma_entries_map_at(new_entries, i as int);
                        } else if entries_map(old_entries).contains_key(k) {
                            let j = choose|j: int| 0 <= j < old_entries.len() && #[trigger] old_entries[j].0@ == k;
                            assert(new_entries[j].0@ == k);
                        } else if entries_map(new_entries).contains_key(k) {
                            let j = choose|j: int| 0 <= j < new_entries.len() && #[trigger] new_entries[j].0@ == k;
                            assert(old_entries[j].0@ == k);
                        }
                    }
                    assert forall|k: Seq<char>| #[trigger] entries_map(new_entries).contains_key(k) implies entries_map(new_entries)[k] == entries_map(old_entries).insert(name_view, value)[k] by {
                        if k == name_view {
                            lemma_entries_map_at(new_entries, i as int);
                        } else {
                            let j = choose|j: int| 0 <= j < new_entries.len() && #[trigger] new_entries[j].0@ == k;
                            lemma_entries_map_at(new_entries, j);
                            lemma_entries_map_at(old_entries, j);
                        }
                    }
                    assert(entries_map(new_entries) =~= entries_map(old_entries).insert(name_view, value));
                }
                self.entries = entries;
            },
            None => {
                let mut entries: Vec<(String, V)> = Vec::new();
                std::mem::swap(&mut entries, &mut self.entries);
                entries.push((name, value));
                let ghost new_entries = entries@;
                let ghost n = old_entries.len() as int;
                assert(names_unique(new_entries)) by {
                    assert forall|a: int, b: int| 0 <= a < b < new_entries.len() implies
                        #[trigger] new_entries[a].0@ != #[trigger] new_entries[b].0@ by {
                        if b < n {
                            assert(old_entries[a].0@ != old_entries[b].0@);
                        } else {
                            assert(old_entries[a].0@ != name_view);
                        }
                    }
                }
                proof {
                    assert forall|k: Seq<char>| #![auto] entries_map(new_entries).contains_key(k) == entries_map(old_entries).insert(name_view, value).contains_key(k) by {
                        if k == name_view {
                            lemma_entries_map_at(new_entries, n);
                        } else if entries_map(old_entries).contains_key(k) {
                            let j = choose|j: int| 0 <= j < old_entries.len() && #[trigger] old_entries[j].0@ == k;
                            assert(new_entries[j].0@ == k);
                        } else if entries_map(new_entries).contains_key(k) {
                            let j = choose|j: int| 0 <= j < new_entries.len() && #[trigger] new_entries[j].0@ == k;
                            assert(old_entries[j].0@ == k);
                        }
                    }
                    assert forall|k: Seq<char>| #[trigger] entries_map(new_entries).contains_key(k) implies entries_map(new_entries)[k] == entries_map(old_entries).insert(name_view, value)[k] by {
                        if k == name_view {
                            lemma_entries_map_at(new_entries, n);
                        } else {
                            let j = choose|j: int| 0 <= j < new_entries.len() && #[trigger] new_entries[j].0@ == k;
                            lemma_entries_map_at(new_entries, j);
                            lemma_entries_map_at(old_entries, j);
                        }
                    }
                    assert(entries_map(new_entries) =~= entries_map(old_entries).insert(name_view, value));
                }
                self.entries = entries;
            },
        }
    }

    /// The names in insertion order.
    pub fn names(&self) -> (r: Vec<String>)
        ensures
            r@.len() == self.spec_entries().len(),
            forall|i: int| 0 <= i < r@.len() ==> #[trigger] r@[i]@ == self.spec_entries()[i].0@,
            forall|k: Seq<char>|
                self.map().contains_key(k) <==> exists|i: int| 0 <= i < r@.len() && #[trigger] r@[i]@ == k,
    {
        let mut out: Vec<String> = Vec::new();
        let mut i: usize = 0;
        while i < self.entries.len()
            invariant
                i <= self.entries@.len(),
                out@.len() == i,
                forall|j: int| 0 <= j < i ==> #[trigger] out@[j]@ == self.entries@[j].0@,
            decreases self.entries@.len() - i,
        {
            out.push(self.entries[i].0.clone());
            i = i + 1;
        }
        assert forall|k: Seq<char>| self.map().contains_key(k) <==> exists|i: int| 0 <= i < out@.len() && #[trigger] out@[i]@ == k by {
            if self.map().contains_key(k) {
                let j = choose|j: int| 0 <= j < self.entries@.len() && #[trigger] self.entries@[j].0@ == k;
                assert(out@[j]@ == k);
            }
            if exists|i: int| 0 <= i < out@.len() && #[trigger] out@[i]@ == k {
                let j = choose|i: int| 0 <= i < out@.len() && #[trigger] out@[i]@ == k;
                assert(self.entries@[j].0@ == k);
            }
        }
        out
    }

    /// Removes `name` if present.
    pub fn remove(&mut self, name: &str)
        ensures
            final(self).map() == old(self).map().remove(name@),
    {
        proof {
            use_type_invariant(&*self);
        }
        match self.find(name) {
            Some(i) => {
                let ghost old_entries = self.entries@;
                let mut entries: Vec<(String, V)> = Vec::new();
                std::mem::swap(&mut entries, &mut self.entries);
                let _ = entries.remove(i);
                proof {
                    lemma_remove_at(old_entries, i as int);
                }
                self.entries = entries;
            },
            None => {
                assert(self.map() =~= self.map().remove(name@));
            },
        }
    }

    /// Removes the entry at position `i`.
    fn remove_at(&mut self, i: usize)
        requires
            i < old(self).spec_entries().len(),
        ensures
            final(self).map() == old(self).map().remove(old(self).spec_entries()[i as int].0@),
            final(self).spec_entries() == old(self).spec_entries().remove(i as int),
    {
        proof {
            use_type_invariant(&*self);
        }
        let ghost old_entries = self.entries@;
        let mut entries: Vec<(String, V)> = Vec::new();
        std::mem::swap(&mut entries, &mut self.entries);
        let _ = entries.remove(i);
        proof {
            lemma_remove_at(old_entries, i as int);
        }
        self.entries = entries;
    }
}


impl<V> Ledger<V> {
    /// Replaces the value at position `i`.
    fn update_at(&mut self, i: usize, value: V)
        requires
            i < old(self).spec_entries().len(),
        ensures
            final(self).map() == old(self).map().insert(old(self).spec_entries()[i as int].0@, value),
            final(self).spec_entries().len() == old(self).spec_entries().len(),
            forall|j: int| 0 <= j < final(self).spec_entries().len() ==> #[trigger] final(self).spec_entries()[j].0@ == old(self).spec_entries()[j].0@,
    {
        proof {
            use_type_invariant(&*self);
        }
        let ghost old_entries = self.entries@;
        let mut entries: Vec<(String, V)> = Vec::new();
        std::mem::swap(&mut entries, &mut self.entries);
        let (name, _) = entries.remove(i);
        entries.insert(i, (name, value));
        proof {
            assert(entries@ =~= old_entries.update(i as int, (old_entries[i as int].0, value)));
            lemma_update_at(old_entries, i as int, value);
        }
        self.entries = entries;
    }

    /// The names held by the first `i` entries.
    pub closed spec fn names_before(self, i: int) -> Set<Seq<char>> {
        Set::new(|k: Seq<char>| exists|j: int| 0 <= j < i && #[trigger] self.entries@[j].0@ == k)
    }
}

/// Counting down: every value above one drops by one, the rest leave the map.
pub open spec fn tick_down_map_i64(m: Map<Seq<char>, i64>) -> Map<Seq<char>, i64> {
    Map::new(|k: Seq<char>| m.contains_key(k) && m[k] > 1, |k: Seq<char>| (m[k] - 1) as i64)
}

/// Counting down: every value above one drops by one, the rest leave the map.
pub open spec fn tick_down_map_i32(m: Map<Seq<char>, i32>) -> Map<Seq<char>, i32> {
    Map::new(|k: Seq<char>| m.contains_key(k) && m[k] > 1, |k: Seq<char>| (m[k] - 1) as i32)
}

impl Ledger<i64> {
    /// Decrements every positive value and drops the values that reach zero or below.
    pub fn tick_down(&mut self)
        ensures
            final(self).map() == tick_down_map_i64(old(self).map()),
    {
        let ghost m0 = self.map();
        let mut i: usize = 0;
        while i < self.len()
            invariant
                i <= self.spec_entries().len(),
                forall|k: Seq<char>| #[trigger] self.map().contains_key(k) && self.names_before(i as int).contains(k)
                    ==> m0.contains_key(k) && m0[k] > 1 && self.map()[k] == m0[k] - 1,
                forall|k: Seq<char>| #[trigger] self.map().contains_key(k) && !self.names_before(i as int).contains(k)
                    ==> m0.contains_key(k) && self.map()[k] == m0[k],
                forall|k: Seq<char>| m0.contains_key(k) && m0[k] > 1 ==> #[trigger] self.map().contains_key(k),
                forall|k: Seq<char>| #[trigger] self.names_before(i as int).contains(k) ==> self.map().contains_key(k),
            decreases self.spec_entries().len() - i,
        {
            proof {
                use_type_invariant(&*self);
            }
            let ghost before = *self;
            let v = self.entry(i).1;
            let ghost name = self.spec_entries()[i as int].0@;
            proof {
                lemma_entries_map_at(self.spec_entries(), i as int);
                assert(!before.names_before(i as int).contains(name)) by {
                    if before.names_before(i as int).contains(name) {
                        let j = choose|j: int| 0 <= j < i && #[trigger] before.entries@[j].0@ == name;
                        assert(before.entries@[j].0@ != before.entries@[i as int].0@);
                    }
                }
            }
            if v > 1 {
                self.update_at(i, v - 1);
                proof {
                    assert forall|k: Seq<char>| #[trigger] self.names_before(i + 1).contains(k) <==> before.names_before(i as int).contains(k) || k == name by {
                        if self.names_before(i + 1).contains(k) {
                            let j = choose|j: int| 0 <= j < i + 1 && #[trigger] self.entries@[j].0@ == k;
                            if j < i {
                                assert(before.entries@[j].0@ == k);
                            }
                        }
                        if before.names_before(i as int).contains(k) {
                            let j = choose|j: int| 0 <= j < i && #[trigger] before.entries@[j].0@ == k;
                            assert(self.entries@[j].0@ == k);
                        }
                        if k == name {
                            assert(self.entries@[i as int].0@ == k);
                        }
                    }
                }
                i = i + 1;
            } else {
                self.remove_at(i);
                proof {
                    assert forall|k: Seq<char>| #[trigger] self.names_before(i as int).contains(k) <==> before.names_before(i as int).contains(k) by {
                        if self.names_before(i as int).contains(k) {
                            let j = choose|j: int| 0 <= j < i && #[trigger] self.entries@[j].0@ == k;
                            assert(before.entries@[j].0@ == k);
                        }
                        if before.names_before(i as int).contains(k) {
                            let j = choose|j: int| 0 <= j < i && #[trigger] before.entries@[j].0@ == k;
                            assert(self.entries@[j].0@ == k);
                        }
                    }
                }
            }
        }
        proof {
            use_type_invariant(&*self);
            assert forall|k: Seq<char>| #[trigger] self.map().contains_key(k) implies self.names_before(i as int).contains(k) by {
                let j = choose|j: int| 0 <= j < self.entries@.len() && #[trigger] self.entries@[j].0@ == k;
                assert(self.entries@[j].0@ == k);
            }
            assert(self.map() =~= tick_down_map_i64(m0));
        }
    }
}

impl Ledger<i32> {
    /// Decrements every positive value and drops the values that reach zero or below.
    pub fn tick_down(&mut self)
        ensures
            final(self).map() == tick_down_map_i32(old(self).map()),
    {
        let ghost m0 = self.map();
        let mut i: usize = 0;
        while i < self.len()
            invariant
                i <= self.spec_entries().len(),
                forall|k: Seq<char>| #[trigger] self.map().contains_key(k) && self.names_before(i as int).contains(k)
                    ==> m0.contains_key(k) && m0[k] > 1 && self.map()[k] == m0[k] - 1,
                forall|k: Seq<char>| #[trigger] self.map().contains_key(k) && !self.names_before(i as int).contains(k)
                    ==> m0.contains_key(k) && self.map()[k] == m0[k],
                forall|k: Seq<char>| m0.contains_key(k) && m0[k] > 1 ==> #[trigger] self.map().contains_key(k),
                forall|k: Seq<char>| #[trigger] self.names_before(i as int).contains(k) ==> self.map().contains_key(k),
            decreases self.spec_entries().len() - i,
        {
            proof {
                use_type_invariant(&*self);
            }
            let ghost before = *self;
            let v = self.entry(i).1;
            let ghost name = self.spec_entries()[i as int].0@;
            proof {
                lemma_entries_map_at(self.spec_entries(), i as int);
                assert(!before.names_before(i as int).contains(name)) by {
                    if before.names_before(i as int).contains(name) {
                        let j = choose|j: int| 0 <= j < i && #[trigger] before.entries@[j].0@ == name;
                        assert(before.entries@[j].0@ != before.entries@[i as int].0@);
                    }
                }
            }
            if v > 1 {
                self.update_at(i, v - 1);
                proof {
                    assert forall|k: Seq<char>| #[trigger] self.names_before(i + 1).contains(k) <==> before.names_before(i as int).contains(k) || k == name by {
                        if self.names_before(i + 1).contains(k) {
                            let j = choose|j: int| 0 <= j < i + 1 && #[trigger] self.entries@[j].0@ == k;
                            if j < i {
                                assert(before.entries@[j].0@ == k);
                            }
                        }
                        if before.names_before(i as int).contains(k) {
                            let j = choose|j: int| 0 <= j < i && #[trigger] before.entries@[j].0@ == k;
                            assert(self.entries@[j].0@ == k);
                        }
                        if k == name {
                            assert(self.entries@[i as int].0@ == k);
                        }
                    }
                }
                i = i + 1;
            } else {
                self.remove_at(i);
                proof {
                    assert forall|k: Seq<char>| #[trigger] self.names_before(i as int).contains(k) <==> before.names_before(i as int).contains(k) by {
                        if self.names_before(i as int).contains(k) {
                            let j = choose|j: int| 0 <= j < i && #[trigger] self.entries@[j].0@ == k;
                            assert(before.entries@[j].0@ == k);
                        }
                        if before.names_before(i as int).contains(k) {
                            let j = choose|j: int| 0 <= j < i && #[trigger] before.entries@[j].0@ == k;
                            assert(self.entries@[j].0@ == k);
                        }
                    }
                }
            }
        }
        proof {
            use_type_invariant(&*self);
            assert forall|k: Seq<char>| #[trigger] self.map().contains_key(k) implies self.names_before(i as int).contains(k) by {
                let j = choose|j: int| 0 <= j < self.entries@.len() && #[trigger] self.entries@[j].0@ == k;
                assert(self.entries@[j].0@ == k);
            }
            assert(self.map() =~= tick_down_map_i32(m0));
        }
    }
}

/// The entries of `m` whose value is not `value`.
pub open spec fn without_value(m: Map<Seq<char>, String>, value: Seq<char>) -> Map<Seq<char>, String> {
    Map::new(|k: Seq<char>| m.contains_key(k) && m[k]@ != value, |k: Seq<char>| m[k])
}

impl Ledger<String> {
    /// Drops every entry whose value is `value`.
    pub fn remove_value(&mut self, value: &str)
        ensures
            final(self).map() == without_value(old(self).map(), value@),
    {
        let ghost m0 = self.map();
        let mut i: usize = 0;
        while i < self.len()
            invariant
                i <= self.spec_entries().len(),
                forall|k: Seq<char>| #[trigger] self.map().contains_key(k) && self.names_before(i as int).contains(k)
                    ==> m0.contains_key(k) && m0[k]@ != value@ && self.map()[k] == m0[k],
                forall|k: Seq<char>| #[trigger] self.map().contains_key(k) && !self.names_before(i as int).contains(k)
                    ==> m0.contains_key(k) && self.map()[k] == m0[k],
                forall|k: Seq<char>| m0.contains_key(k) && m0[k]@ != value@ ==> #[trigger] self.map().contains_key(k),
                forall|k: Seq<char>| #[trigger] self.names_before(i as int).contains(k) ==> self.map().contains_key(k),
            decreases self.spec_entries().len() - i,
        {
            proof {
                use_type_invariant(&*self);
            }
            let ghost before = *self;
            let keep = !str_eq(self.entry(i).1.as_str(), value);
            let ghost name = self.spec_entries()[i as int].0@;
            proof {
                lemma_entries_map_at(self.spec_entries(), i as int);
                assert(!before.names_before(i as int).contains(name)) by {
                    if before.names_before(i as int).contains(name) {
                        let j = choose|j: int| 0 <= j < i && #[trigger] before.entries@[j].0@ == name;
                        assert(before.entries@[j].0@ != before.entries@[i as int].0@);
                    }
                }
            }
            if keep {
                proof {
                    assert forall|k: Seq<char>| #[trigger] self.names_before(i + 1).contains(k) <==> before.names_before(i as int).contains(k) || k == name by {
                        if self.names_before(i + 1).contains(k) {
                            let j = choose|j: int| 0 <= j < i + 1 && #[trigger] self.entries@[j].0@ == k;
                            if j < i {
                                assert(before.entries@[j].0@ == k);
                            }
                        }
                        if before.names_before(i as int).contains(k) {
                            let j = choose|j: int| 0 <= j < i && #[trigger] before.entries@[j].0@ == k;
                            assert(self.entries@[j].0@ == k);
                        }
                        if k == name {
                            assert(self.entries@[i as int].0@ == k);
                        }
                    }
                }
                i = i + 1;
            } else {
                self.remove_at(i);
                proof {
                    assert forall|k: Seq<char>| #[trigger] self.names_before(i as int).contains(k) <==> before.names_before(i as int).contains(k) by {
                        if self.names_before(i as int).contains(k) {
                            let j = choose|j: int| 0 <= j < i && #[trigger] self.entries@[j].0@ == k;
                            assert(before.entries@[j].0@ == k);
                        }
                        if before.names_before(i as int).contains(k) {
                            let j = choose|j: int| 0 <= j < i && #[trigger] before.entries@[j].0@ == k;
                            assert(self.entries@[j].0@ == k);
                        }
                    }
                }
            }
        }
        proof {
            use_type_invariant(&*self);
            assert forall|k: Seq<char>| #[trigger] self.map().contains_key(k) implies self.names_before(i as int).contains(k) by {
                let j = choose|j: int| 0 <= j < self.entries@.len() && #[trigger] self.entries@[j].0@ == k;
                assert(self.entries@[j].0@ == k);
            }
            assert(self.map() =~= without_value(m0, value@));
        }
    }
}

impl Ledger<String> {
    /// Every entry as an owned pair, in insertion order.
    pub fn pairs(&self) -> (r: Vec<(String, String)>)
        ensures
            forall|a: int| 0 <= a < r@.len() ==> self.map().contains_key(#[trigger] r@[a].0@)
                && self.map()[r@[a].0@]@ == r@[a].1@,
            forall|k: Seq<char>| self.map().contains_key(k) ==> exists|a: int| 0 <= a < r@.len() && #[trigger] r@[a].0@ == k,
            forall|a: int, b: int| 0 <= a < b < r@.len() ==> #[trigger] r@[a].0@ != #[trigger] r@[b].0@,
    {
        proof {
            use_type_invariant(self);
        }
        let ghost e = self.entries@;
        let mut out: Vec<(String, String)> = Vec::new();
        let mut i: usize = 0;
        while i < self.entries.len()
            invariant
                e == self.entries@,
                names_unique(e),
                i <= e.len(),
                out@.len() == i,
                forall|a: int| #![trigger out@[a]] 0 <= a < i ==> out@[a].0@ == e[a].0@ && out@[a].1@ == e[a].1@,
            decreases e.len() - i,
        {
            out.push((self.entries[i].0.clone(), self.entries[i].1.clone()));
            i = i + 1;
        }
        proof {
            assert forall|a: int| 0 <= a < out@.len() implies self.map().contains_key(#[trigger] out@[a].0@)
                && self.map()[out@[a].0@]@ == out@[a].1@ by {
                lemma_entries_map_at(e, a);
            }
            assert forall|k: Seq<char>| self.map().contains_key(k) implies exists|a: int| 0 <= a < out@.len() && #[trigger] out@[a].0@ == k by {
                let m = choose|m: int| 0 <= m < e.len() && #[trigger] e[m].0@ == k;
                assert(out@[m].0@ == k);
            }
            assert forall|a: int, b: int| 0 <= a < b < out@.len() implies #[trigger] out@[a].0@ != #[trigger] out@[b].0@ by {
                assert(e[a].0@ != e[b].0@);
            }
        }
        out
    }

    /// The distinct values, each once, in order of first appearance.
    pub fn distinct_values(&self) -> (r: Vec<String>)
        ensures
            forall|a: int| 0 <= a < r@.len() ==> holds_value(self.map(), #[trigger] r@[a]@),
            forall|k: Seq<char>| #[trigger] self.map().contains_key(k) ==> exists|a: int| 0 <= a < r@.len() && #[trigger] r@[a]@ == self.map()[k]@,
            forall|a: int, b: int| 0 <= a < b < r@.len() ==> #[trigger] r@[a]@ != #[trigger] r@[b]@,
    {
        proof {
            use_type_invariant(self);
        }
        let ghost e = self.entries@;
        let mut out: Vec<String> = Vec::new();
        let ghost mut idx: Seq<int> = Seq::empty();
        let mut i: usize = 0;
        while i < self.entries.len()
            invariant
                e == self.entries@,
                names_unique(e),
                i <= e.len(),
                idx.len() == out@.len(),
                forall|a: int| #![trigger idx[a]] 0 <= a < idx.len() ==> 0 <= idx[a] < i && out@[a]@ == e[idx[a]].1@,
                forall|m: int| #![trigger e[m]] 0 <= m < i ==> covered(out@, e[m].1@),
                forall|a: int, b: int| 0 <= a < b < out@.len() ==> #[trigger] out@[a]@ != #[trigger] out@[b]@,
            decreases e.len() - i,
        {
            let v = &self.entries[i].1;
            let mut seen = false;
            let mut j: usize = 0;
            while j < out.len()
                invariant
                    j <= out@.len(),
                    !seen ==> forall|a: int| 0 <= a < j ==> #[trigger] out@[a]@ != v@,
                    seen ==> covered(out@, v@),
                decreases out@.len() - j,
            {
                if !seen && str_eq(out[j].as_str(), v.as_str()) {
                    seen = true;
                    proof {
                        reveal(covered);
                        assert(out@[j as int]@ == v@);
                    }
                }
                j = j + 1;
            }
            let ghost before = out@;
            let ghost before_idx = idx;
            if !seen {
                out.push(v.clone());
                proof {
                    idx = idx.push(i as int);
                    reveal(covered);
                    assert forall|m: int| #![trigger e[m]] 0 <= m < i + 1 implies covered(out@, e[m].1@) by {
                        if m < i {
                            assert(covered(before, e[m].1@));
                            let a = choose|a: int| 0 <= a < before.len() && #[trigger] before[a]@ == e[m].1@;
                            assert(out@[a] == before[a]);
                        } else {
                            assert(out@[before.len() as int]@ == e[m].1@);
                        }
                    }
                    assert forall|a: int| #![trigger idx[a]] 0 <= a < idx.len() implies 0 <= idx[a] < i + 1 && out@[a]@ == e[idx[a]].1@ by {
                        if a < before.len() {
                            assert(idx[a] == before_idx[a]);
                            assert(out@[a] == before[a]);
                        }
                    }
                }
            }
            i = i + 1;
        }
        proof {
            assert forall|a: int| 0 <= a < out@.len() implies holds_value(self.map(), #[trigger] out@[a]@) by {
                let m = idx[a];
                lemma_entries_map_at(e, m);
                let k = e[m].0@;
                assert(self.map().contains_key(k) && self.map()[k]@ == out@[a]@);
            }
            assert forall|k: Seq<char>| #[trigger] self.map().contains_key(k) implies exists|a: int| 0 <= a < out@.len() && #[trigger] out@[a]@ == self.map()[k]@ by {
                let m = choose|m: int| 0 <= m < e.len() && #[trigger] e[m].0@ == k;
                lemma_entries_map_at(e, m);
                assert(covered(out@, e[m].1@));
                reveal(covered);
            }
        }
        out
    }

    /// The names whose value is `value`, each once, in insertion order.
    pub fn names_with_value(&self, value: &str) -> (r: Vec<String>)
        ensures
            forall|a: int| 0 <= a < r@.len() ==> self.map().contains_key(#[trigger] r@[a]@)
                && self.map()[r@[a]@]@ == value@,
            forall|k: Seq<char>| self.map().contains_key(k) && self.map()[k]@ == value@
                ==> exists|a: int| 0 <= a < r@.len() && #[trigger] r@[a]@ == k,
            forall|a: int, b: int| 0 <= a < b < r@.len() ==> #[trigger] r@[a]@ != #[trigger] r@[b]@,
    {
        proof {
            use_type_invariant(self);
        }
        let ghost e = self.entries@;
        let mut out: Vec<String> = Vec::new();
        let ghost mut idx: Seq<int> = Seq::empty();
        let mut i: usize = 0;
        while i < self.entries.len()
            invariant
                e == self.entries@,
                names_unique(e),
                i <= e.len(),
                idx.len() == out@.len(),
                forall|a: int| #![trigger idx[a]] 0 <= a < idx.len() ==> 0 <= idx[a] < i && out@[a]@ == e[idx[a]].0@ && e[idx[a]].1@ == value@,
                forall|a: int, b: int| #![trigger idx[a], idx[b]] 0 <= a < b < idx.len() ==> idx[a] < idx[b],
                forall|m: int| #![trigger e[m]] 0 <= m < i && e[m].1@ == value@ ==> exists|a: int| #![trigger idx[a]] 0 <= a < idx.len() && idx[a] == m,
            decreases e.len() - i,
        {
            if str_eq(self.entries[i].1.as_str(), value) {
                let ghost before = idx;
                out.push(self.entries[i].0.clone());
                proof {
                    idx = idx.push(i as int);
                    assert forall|m: int| #![trigger e[m]] 0 <= m < i + 1 && e[m].1@ == value@ implies exists|a: int| #![trigger idx[a]] 0 <= a < idx.len() && idx[a] == m by {
                        if m < i {
                            let a = choose|a: int| #![trigger before[a]] 0 <= a < before.len() && before[a] == m;
                            assert(idx[a] == before[a]);
                        } else {
                            assert(idx[before.len() as int] == m);
                        }
                    }
                }
            }
            i = i + 1;
        }
        proof {
            assert forall|a: int| 0 <= a < out@.len() implies self.map().contains_key(#[trigger] out@[a]@)
                && self.map()[out@[a]@]@ == value@ by {
                lemma_entries_map_at(e, idx[a]);
            }
            assert forall|k: Seq<char>| self.map().contains_key(k) && self.map()[k]@ == value@
                implies exists|a: int| 0 <= a < out@.len() && #[trigger] out@[a]@ == k by {
                let m = choose|m: int| 0 <= m < e.len() && #[trigger] e[m].0@ == k;
                lemma_entries_map_at(e, m);
                let a = choose|a: int| #![trigger idx[a]] 0 <= a < idx.len() && idx[a] == m;
                assert(out@[a]@ == k);
            }
            assert forall|a: int, b: int| 0 <= a < b < out@.len() implies #[trigger] out@[a]@ != #[trigger] out@[b]@ by {
                assert(idx[a] < idx[b]);
                assert(e[idx[a]].0@ != e[idx[b]].0@);
            }
        }
        out
    }
}

/// Some name maps to a string with the view `v`.
pub open spec fn holds_value(m: Map<Seq<char>, String>, v: Seq<char>) -> bool {
    exists|k: Seq<char>| m.contains_key(k) && #[trigger] m[k]@ == v
}

/// Some string in `strings` has the view `v`.
#[verifier::opaque]
pub open spec fn covered(strings: Seq<String>, v: Seq<char>) -> bool {
    exists|a: int| 0 <= a < strings.len() && #[trigger] strings[a]@ == v
}

/// Dropping the entry at `i` keeps names unique and drops its name from the map.
pub proof fn lemma_remove_at<V>(entries: Seq<(String, V)>, i: int)
    requires
        names_unique(entries),
        0 <= i < entries.len(),
    ensures
        names_unique(entries.remove(i)),
        entries_map(entries.remove(i)) == entries_map(entries).remove(entries[i].0@),
{
    let r = entries.remove(i);
    let name = entries[i].0@;
    assert forall|a: int, b: int| 0 <= a < b < r.len() implies #[trigger] r[a].0@ != #[trigger] r[b].0@ by {
        let oa = if a < i { a } else { a + 1 };
        let ob = if b < i { b } else { b + 1 };
        assert(r[a] == entries[oa]);
        assert(r[b] == entries[ob]);
        assert(entries[oa].0@ != entries[ob].0@);
    }
    let m0 = entries_map(entries);
    let m1 = entries_map(r);
    assert forall|k: Seq<char>| #![auto] m1.contains_key(k) == m0.remove(name).contains_key(k) by {
        if m1.contains_key(k) {
            let a = choose|a: int| 0 <= a < r.len() && #[trigger] r[a].0@ == k;
            let oa = if a < i { a } else { a + 1 };
            assert(entries[oa].0@ == k);
            assert(oa != i);
            if k == name {
                if oa < i {
                    assert(entries[oa].0@ != entries[i].0@);
                } else {
                    assert(entries[i].0@ != entries[oa].0@);
                }
            }
        }
        if m0.remove(name).contains_key(k) {
            let j = choose|j: int| 0 <= j < entries.len() && #[trigger] entries[j].0@ == k;
            assert(j != i);
            let a = if j < i { j } else { j - 1 };
            assert(r[a].0@ == k);
        }
    }
    assert forall|k: Seq<char>| #[trigger] m1.contains_key(k) implies m1[k] == m0.remove(name)[k] by {
        let a = choose|a: int| 0 <= a < r.len() && #[trigger] r[a].0@ == k;
        let oa = if a < i { a } else { a + 1 };
        assert(r[a] == entries[oa]);
        lemma_entries_map_at(r, a);
        lemma_entries_map_at(entries, oa);
    }
    assert(m1 =~= m0.remove(name));
}

/// Replacing the value at `i` writes that value into the map under its name.
pub proof fn lemma_update_at<V>(entries: Seq<(String, V)>, i: int, v: V)
    requires
        names_unique(entries),
        0 <= i < entries.len(),
    ensures
        names_unique(entries.update(i, (entries[i].0, v))),
        entries_map(entries.update(i, (entries[i].0, v))) == entries_map(entries).insert(entries[i].0@, v),
{
    let r = entries.update(i, (entries[i].0, v));
    let name = entries[i].0@;
    assert forall|a: int, b: int| 0 <= a < b < r.len() implies #[trigger] r[a].0@ != #[trigger] r[b].0@ by {
        assert(r[a].0@ == entries[a].0@);
        assert(r[b].0@ == entries[b].0@);
    }
    let m0 = entries_map(entries);
    let m1 = entries_map(r);
    assert forall|k: Seq<char>| #![auto] m1.contains_key(k) == m0.insert(name, v).contains_key(k) by {
        if m1.contains_key(k) {
            let a = choose|a: int| 0 <= a < r.len() && #[trigger] r[a].0@ == k;
            assert(entries[a].0@ == k);
        }
        if m0.insert(name, v).contains_key(k) {
            if k == name {
                assert(r[i].0@ == k);
            } else {
                let j = choose|j: int| 0 <= j < entries.len() && #[trigger] entries[j].0@ == k;
                assert(r[j].0@ == k);
            }
        }
    }
    assert forall|k: Seq<char>| #[trigger] m1.contains_key(k) implies m1[k] == m0.insert(name, v)[k] by {
        let a = choose|a: int| 0 <= a < r.len() && #[trigger] r[a].0@ == k;
        lemma_entries_map_at(r, a);
        if a != i {
            lemma_entries_map_at(entries, a);
            assert(entries[a].0@ != name) by {
                if a < i {
                    assert(entries[a].0@ != entries[i].0@);
                } else {
                    assert(entries[i].0@ != entries[a].0@);
                }
            }
        }
    }
    assert(m1 =~= m0.insert(name, v));
}

} // verus!
