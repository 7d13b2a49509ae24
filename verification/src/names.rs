//! Values by names.

use vstd::prelude::*;
use crate::text::same;

verus! {

/// Values by names. A name stands in the list once.
pub struct Named<V> {
    entries: Vec<(String, V)>,
}

/// What entries say of names; the last entry of a name counts.
pub open spec fn map_of<V>(entries: Seq<(String, V)>) -> Map<Seq<char>, V>
    decreases entries.len(),
{
    if entries.len() == 0 {
        Map::empty()
    } else {
        map_of(entries.drop_last()).insert(entries.last().0@, entries.last().1)
    }
}

impl<V> View for Named<V> {
    type V = Map<Seq<char>, V>;

    closed spec fn view(&self) -> Map<Seq<char>, V> {
        map_of(self.entries@)
    }
}

/// Whether an entry stands for a name, behind which there is none.
spec fn is_last<V>(entries: Seq<(String, V)>, i: int, name: Seq<char>) -> bool {
    &&& 0 <= i < entries.len() && entries[i].0@ == name
    &&& forall|j: int| i < j < entries.len() ==> (#[trigger] entries[j]).0@ != name
}

proof fn found<V>(entries: Seq<(String, V)>, i: int, name: Seq<char>)
    requires
        is_last(entries, i, name),
    ensures
        map_of(entries).contains_key(name),
        map_of(entries)[name] == entries[i].1,
    decreases entries.len(),
{
    if i < entries.len() - 1 {
        let before = entries.drop_last();
        assert(entries[entries.len() - 1].0@ != name);
        assert(is_last(before, i, name)) by {
            assert forall|j: int| i < j < before.len() implies (#[trigger] before[j]).0@ != name by {
                assert(before[j] == entries[j]);
            }
        }
        found(before, i, name);
    }
}

proof fn absent<V>(entries: Seq<(String, V)>, name: Seq<char>)
    requires
        forall|j: int| 0 <= j < entries.len() ==> (#[trigger] entries[j]).0@ != name,
    ensures
        !map_of(entries).contains_key(name),
    decreases entries.len(),
{
    if entries.len() > 0 {
        let before = entries.drop_last();
        assert(entries[entries.len() - 1].0@ != name);
        assert forall|j: int| 0 <= j < before.len() implies (#[trigger] before[j]).0@ != name by {
            assert(before[j] == entries[j]);
        }
        absent(before, name);
    }
}

proof fn replaced<V>(entries: Seq<(String, V)>, i: int, entry: (String, V))
    requires
        is_last(entries, i, entry.0@),
    ensures
        map_of(entries.update(i, entry)) == map_of(entries).insert(entry.0@, entry.1),
    decreases entries.len(),
{
    let before = entries.drop_last();
    let after = entries.update(i, entry);
    if i == entries.len() - 1 {
        assert(after.drop_last() =~= before);
    } else {
        let last = entries[entries.len() - 1];
        assert(last.0@ != entry.0@);
        assert(is_last(before, i, entry.0@)) by {
            assert forall|j: int| i < j < before.len() implies (#[trigger] before[j]).0@
                != entry.0@ by {
                assert(before[j] == entries[j]);
            }
        }
        replaced(before, i, entry);
        assert(after.drop_last() =~= before.update(i, entry));
        assert(after.last() == last);
    }
    assert(map_of(after) =~= map_of(entries).insert(entry.0@, entry.1));
}

impl<V> Named<V> {
    /// No names.
    pub fn new() -> (r: Named<V>)
        ensures
            r@ == Map::<Seq<char>, V>::empty(),
    {
        Named { entries: Vec::new() }
    }

    fn find(&self, name: &str) -> (r: Option<usize>)
        ensures
            match r {
                Some(i) => is_last(self.entries@, i as int, name@),
                None => forall|j: int|
                    0 <= j < self.entries@.len() ==> (#[trigger] self.entries@[j]).0@ != name@,
            },
    {
        let mut i: usize = self.entries.len();
        while i > 0
            invariant
                i <= self.entries@.len(),
                forall|j: int|
                    i <= j < self.entries@.len() ==> (#[trigger] self.entries@[j]).0@ != name@,
            decreases i,
        {
            if same(self.entries[i - 1].0.as_str(), name) {
                return Some(i - 1);
            }
            i = i - 1;
        }
        None
    }

    /// The value of a name.
    pub fn get(&self, name: &str) -> (r: Option<&V>)
        ensures
            match r {
                Some(v) => self@.contains_key(name@) && self@[name@] == *v,
                None => !self@.contains_key(name@),
            },
    {
        match self.find(name) {
            Some(i) => {
                proof {
                    found(self.entries@, i as int, name@);
                }
                Some(&self.entries[i].1)
            },
            None => {
                proof {
                    absent(self.entries@, name@);
                }
                None
            },
        }
    }

    /// Gives a name a value; it takes the place of one that the name had.
    pub fn insert(&mut self, name: String, value: V)
        ensures
            final(self)@ == old(self)@.insert(name@, value),
    {
        let ghost before = self.entries@;
        match self.find(name.as_str()) {
            Some(i) => {
                proof {
                    replaced(before, i as int, (name, value));
                }
                self.entries.set(i, (name, value));
            },
            None => {
                self.entries.push((name, value));
                assert(self.entries@.drop_last() =~= before);
            },
        }
    }
}

impl<V: Copy> Named<V> {
    /// A copy.
    pub fn copy(&self) -> (r: Named<V>)
        ensures
            r@ == self@,
    {
        let mut entries: Vec<(String, V)> = Vec::new();
        let mut i: usize = 0;
        assert(self.entries@.take(0) =~= Seq::<(String, V)>::empty());
        while i < self.entries.len()
            invariant
                i <= self.entries@.len(),
                map_of(entries@) == map_of(self.entries@.take(i as int)),
            decreases self.entries@.len() - i,
        {
            let ghost before = entries@;
            entries.push((self.entries[i].0.clone(), self.entries[i].1));
            i = i + 1;
            assert(entries@.drop_last() =~= before);
            assert(self.entries@.take(i as int).drop_last() =~= self.entries@.take(i - 1));
        }
        assert(self.entries@.take(i as int) =~= self.entries@);
        Named { entries }
    }
}

} // verus!
