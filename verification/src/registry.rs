use vstd::prelude::*;

verus! {

/// Values registered under names, at most one value per name.
///
/// Registering under a name that is taken replaces the value and keeps the name's place, so
/// the entries stay in the order in which their names first came.
pub struct Registry<V> {
    entries: Vec<(String, V)>,
}

/// Whether `i` is a place in `entries` that holds `name`.
pub open spec fn holds_name<V>(entries: Seq<(String, V)>, name: Seq<char>, i: int) -> bool {
    0 <= i < entries.len() && entries[i].0@ == name
}

/// Whether no two places in `entries` hold the same name.
pub open spec fn names_distinct<V>(entries: Seq<(String, V)>) -> bool {
    forall|i: int, j: int|
        0 <= i < j < entries.len() ==> (#[trigger] entries[i]).0@ != (#[trigger] entries[j]).0@
}

/// The value that each name in `entries` stands for.
pub open spec fn entries_map<V>(entries: Seq<(String, V)>) -> Map<Seq<char>, V> {
    Map::new(
        |name: Seq<char>| exists|i: int| holds_name(entries, name, i),
        |name: Seq<char>| entries[choose|i: int| holds_name(entries, name, i)].1,
    )
}

/// In a sequence with distinct names, a name's value is the one at any place that holds it.
pub proof fn lemma_entries_map_at<V>(entries: Seq<(String, V)>, i: int)
    requires
        names_distinct(entries),
        0 <= i < entries.len(),
    ensures
        entries_map(entries).contains_key(entries[i].0@),
        entries_map(entries)[entries[i].0@] == entries[i].1,
{
    let name = entries[i].0@;
    assert(holds_name(entries, name, i));
    let j = choose|j: int| holds_name(entries, name, j);
    assert(holds_name(entries, name, j));
    if j < i {
        assert(entries[j].0@ != entries[i].0@);
    } else if i < j {
        assert(entries[i].0@ != entries[j].0@);
    }
}

/// Appending a fresh name adds it to the map.
pub proof fn lemma_entries_map_push<V>(entries: Seq<(String, V)>, entry: (String, V))
    requires
        names_distinct(entries),
        !entries_map(entries).contains_key(entry.0@),
    ensures
        names_distinct(entries.push(entry)),
        entries_map(entries.push(entry)) == entries_map(entries).insert(entry.0@, entry.1),
{
    let after = entries.push(entry);
    assert forall|i: int, j: int| 0 <= i < j < after.len() implies (#[trigger] after[i]).0@ != (
    #[trigger] after[j]).0@ by {
        if j == entries.len() {
            assert(holds_name(entries, after[i].0@, i));
        } else {
            assert(entries[i].0@ != entries[j].0@);
        }
    }
    let expected = entries_map(entries).insert(entry.0@, entry.1);
    assert forall|name: Seq<char>| #[trigger]
        entries_map(after).contains_key(name) implies expected.contains_key(name) by {
        let i = choose|i: int| holds_name(after, name, i);
        if i < entries.len() {
            assert(holds_name(entries, name, i));
        }
    }
    assert forall|name: Seq<char>| #[trigger]
        expected.contains_key(name) implies entries_map(after).contains_key(name)
        && entries_map(after)[name] == expected[name] by {
        if name == entry.0@ {
            lemma_entries_map_at(after, entries.len() as int);
        } else {
            let i = choose|i: int| holds_name(entries, name, i);
            assert(holds_name(entries, name, i));
            lemma_entries_map_at(entries, i);
            lemma_entries_map_at(after, i);
        }
    }
    assert(entries_map(after) =~= expected);
}

/// Replacing the value at a name's place replaces it in the map.
pub proof fn lemma_entries_map_update<V>(entries: Seq<(String, V)>, i: int, entry: (String, V))
    requires
        names_distinct(entries),
        holds_name(entries, entry.0@, i),
    ensures
        names_distinct(entries.update(i, entry)),
        entries_map(entries.update(i, entry)) == entries_map(entries).insert(entry.0@, entry.1),
{
    let after = entries.update(i, entry);
    assert forall|a: int, b: int| 0 <= a < b < after.len() implies (#[trigger] after[a]).0@ != (
    #[trigger] after[b]).0@ by {
        assert(entries[a].0@ != entries[b].0@);
    }
    let expected = entries_map(entries).insert(entry.0@, entry.1);
    assert forall|name: Seq<char>| #[trigger]
        entries_map(after).contains_key(name) implies expected.contains_key(name) by {
        let j = choose|j: int| holds_name(after, name, j);
        assert(holds_name(entries, name, j));
    }
    assert forall|name: Seq<char>| #[trigger]
        expected.contains_key(name) implies entries_map(after).contains_key(name)
        && entries_map(after)[name] == expected[name] by {
        if name == entry.0@ {
            lemma_entries_map_at(after, i);
        } else {
            let j = choose|j: int| holds_name(entries, name, j);
            assert(holds_name(entries, name, j));
            lemma_entries_map_at(entries, j);
            lemma_entries_map_at(after, j);
        }
    }
    assert(entries_map(after) =~= expected);
}

impl<V> Registry<V> {
    #[verifier::type_invariant]
    spec fn well_formed(self) -> bool {
        names_distinct(self.entries@)
    }

    /// The entries, in the order in which their names were first registered.
    pub closed spec fn entries(&self) -> Seq<(String, V)> {
        self.entries@
    }

    /// The registered names, in the order in which they were first registered.
    pub open spec fn names(&self) -> Seq<Seq<char>> {
        self.entries().map_values(|entry: (String, V)| entry.0@)
    }

    /// The value registered under each name.
    pub open spec fn view(&self) -> Map<Seq<char>, V> {
        entries_map(self.entries())
    }

    /// A registry with nothing in it.
    pub fn new() -> (r: Self)
        ensures
            r.entries() == Seq::<(String, V)>::empty(),
            r@ == Map::<Seq<char>, V>::empty(),
    {
        let r = Registry { entries: Vec::new() };
        assert(r@ =~= Map::<Seq<char>, V>::empty());
        r
    }

    /// The number of registered names.
    pub fn len(&self) -> (n: usize)
        ensures
            n == self.entries().len(),
            n == self@.dom().len(),
            self@.dom().finite(),
    {
        proof {
            use_type_invariant(self);
            lemma_entries_map_dom_len(self.entries@);
        }
        self.entries.len()
    }

    /// The place that holds `name`, if there is one.
    fn position(&self, name: &String) -> (r: Option<usize>)
        ensures
            match r {
                Some(i) => holds_name(self.entries(), name@, i as int),
                None => !self@.contains_key(name@),
            },
    {
        let mut i: usize = 0;
        while i < self.entries.len()
            invariant
                i <= self.entries.len(),
                forall|j: int| 0 <= j < i ==> !holds_name(self.entries@, name@, j),
            decreases self.entries.len() - i,
        {
            if self.entries[i].0 == *name {
                return Some(i);
            }
            i += 1;
        }
        None
    }

    /// The value registered under `name`, if there is one.
    pub fn get(&self, name: &str) -> (r: Option<&V>)
        ensures
            r == (if self@.contains_key(name@) {
                Some(&self@[name@])
            } else {
                None
            }),
    {
        let name = name.to_owned();
        match self.position(&name) {
            Some(i) => {
                proof {
                    use_type_invariant(self);
                    lemma_entries_map_at(self.entries@, i as int);
                }
                Some(&self.entries[i].1)
            },
            None => None,
        }
    }

    /// Registers `value` under `name`, in place of what was registered under it before.
    pub fn insert(&mut self, name: String, value: V)
        ensures
            final(self)@ == old(self)@.insert(name@, value),
            final(self).entries() == (if old(self)@.contains_key(name@) {
                old(self).entries().update(
                    choose|i: int| holds_name(old(self).entries(), name@, i),
                    (name, value),
                )
            } else {
                old(self).entries().push((name, value))
            }),
    {
        proof {
            use_type_invariant(&*self);
        }
        let found = self.position(&name);
        let mut entries: Vec<(String, V)> = Vec::new();
        core::mem::swap(&mut self.entries, &mut entries);
        match found {
            Some(i) => {
                proof {
                    lemma_entries_map_at(entries@, i as int);
                    let j = choose|j: int| holds_name(entries@, name@, j);
                    assert(holds_name(entries@, name@, j));
                    if j < i {
                        assert(entries@[j].0@ != entries@[i as int].0@);
                    } else if i < j {
                        assert(entries@[i as int].0@ != entries@[j].0@);
                    }
                    lemma_entries_map_update(entries@, i as int, (name, value));
                }
                entries.set(i, (name, value));
            },
            None => {
                proof {
                    lemma_entries_map_push(entries@, (name, value));
                }
                entries.push((name, value));
            },
        }
        core::mem::swap(&mut self.entries, &mut entries);
    }

    /// Hands the entries out, in the order in which their names were first registered.
    pub fn into_entries(self) -> (entries: Vec<(String, V)>)
        ensures
            entries@ == self.entries(),
            names_distinct(entries@),
            entries_map(entries@) == self@,
            entries@.len() == self@.dom().len(),
    {
        proof {
            use_type_invariant(&self);
            lemma_entries_map_dom_len(self.entries@);
        }
        self.entries
    }
}

/// A sequence with distinct names stands for as many names as it has places.
pub proof fn lemma_entries_map_dom_len<V>(entries: Seq<(String, V)>)
    requires
        names_distinct(entries),
    ensures
        entries_map(entries).dom().finite(),
        entries_map(entries).dom().len() == entries.len(),
    decreases entries.len(),
{
    if entries.len() == 0 {
        assert(entries_map(entries).dom() =~= Set::<Seq<char>>::empty());
    } else {
        let shorter = entries.drop_last();
        let last = entries.last();
        assert forall|i: int, j: int| 0 <= i < j < shorter.len() implies (#[trigger] shorter[i]).0@
            != (#[trigger] shorter[j]).0@ by {
            assert(entries[i].0@ != entries[j].0@);
        }
        lemma_entries_map_dom_len(shorter);
        if entries_map(shorter).contains_key(last.0@) {
            let i = choose|i: int| holds_name(shorter, last.0@, i);
            assert(holds_name(shorter, last.0@, i));
            assert(entries[i].0@ != entries[entries.len() - 1].0@);
        }
        assert(shorter.push(last) =~= entries);
        lemma_entries_map_push(shorter, last);
        assert(entries_map(entries).dom() =~= entries_map(shorter).dom().insert(last.0@));
    }
}

} // verus!
