//! The consumer's registry of discovered devices, keyed by display name.
//!
//! Display names are not unique among devices. A device that is sighted
//! under a name already in the registry takes the place of the one that was
//! there: the registry holds the latest device of each name.

use vstd::prelude::*;

verus! {

/// One registered device.
pub struct Entry<D> {
    /// The display name the device was sighted under.
    pub name: String,
    /// The device.
    pub device: D,
}

/// Devices by display name, in the order in which the names were first seen.
pub struct Registry<D> {
    entries: Vec<Entry<D>>,
}

/// Whether `entries` holds `name` at index `i`.
pub open spec fn holds_at<D>(entries: Seq<Entry<D>>, name: Seq<char>, i: int) -> bool {
    0 <= i < entries.len() && entries[i].name@ == name
}

/// Whether no name stands twice in `entries`.
pub open spec fn distinct_names<D>(entries: Seq<Entry<D>>) -> bool {
    forall|i: int, j: int|
        0 <= i < j < entries.len() ==> (#[trigger] entries[i]).name@ != (#[trigger] entries[j]).name@
}

/// The map from name to device that `entries` spells.
pub open spec fn as_map<D>(entries: Seq<Entry<D>>) -> Map<Seq<char>, D> {
    Map::new(
        |name: Seq<char>| exists|i: int| holds_at(entries, name, i),
        |name: Seq<char>| entries[choose|i: int| holds_at(entries, name, i)].device,
    )
}

impl<D> View for Registry<D> {
    type V = Map<Seq<char>, D>;

    closed spec fn view(&self) -> Map<Seq<char>, D> {
        as_map(self.entries@)
    }
}

impl<D> Registry<D> {
    /// The registered names, in the order in which they were first seen.
    pub closed spec fn names(&self) -> Seq<Seq<char>> {
        Seq::new(self.entries@.len(), |i: int| self.entries@[i].name@)
    }

    /// No name is registered twice.
    pub closed spec fn wf(&self) -> bool {
        distinct_names(self.entries@)
    }

    /// An empty registry.
    pub fn new() -> (r: Registry<D>)
        ensures
            r.wf(),
            r@ == Map::<Seq<char>, D>::empty(),
            r.names() == Seq::<Seq<char>>::empty(),
    {
        let r = Registry { entries: Vec::new() };
        assert(r@ =~= Map::<Seq<char>, D>::empty());
        assert(r.names() =~= Seq::<Seq<char>>::empty());
        r
    }

    /// The number of registered names.
    pub fn len(&self) -> (n: usize)
        ensures
            n == self.names().len(),
    {
        self.entries.len()
    }

    /// Whether nothing is registered.
    pub fn is_empty(&self) -> (b: bool)
        ensures
            b <==> self.names().len() == 0,
    {
        self.entries.len() == 0
    }

    fn find(&self, name: &str) -> (r: Option<usize>)
        ensures
            r matches Some(i) ==> holds_at(self.entries@, name@, i as int),
            r is None ==> forall|i: int| !holds_at(self.entries@, name@, i),
    {
        let key: String = name.to_owned();
        let mut i: usize = 0;
        while i < self.entries.len()
            invariant
                i <= self.entries@.len(),
                key@ == name@,
                forall|j: int| 0 <= j < i ==> !holds_at(self.entries@, name@, j),
            decreases self.entries@.len() - i,
        {
            if self.entries[i].name == key {
                return Some(i);
            }
            i += 1;
        }
        None
    }

    /// The device registered under `name`, if there is one.
    pub fn get(&self, name: &str) -> (r: Option<&D>)
        requires
            self.wf(),
        ensures
            r is Some <==> self@.contains_key(name@),
            r matches Some(device) ==> *device == self@[name@],
    {
        match self.find(name) {
            Some(i) => {
                proof {
                    lemma_lookup(self.entries@, name@, i as int);
                }
                Some(&self.entries[i].device)
            },
            None => None,
        }
    }

    /// Whether a device is registered under `name`.
    pub fn contains(&self, name: &str) -> (b: bool)
        requires
            self.wf(),
        ensures
            b <==> self@.contains_key(name@),
    {
        self.get(name).is_some()
    }

    /// Registers `device` under `name`. A device already registered under
    /// that name is replaced, and the name keeps its place; a new name goes
    /// to the end.
    pub fn insert(&mut self, name: String, device: D)
        requires
            old(self).wf(),
        ensures
            final(self).wf(),
            final(self)@ == old(self)@.insert(name@, device),
            old(self)@.contains_key(name@) ==> final(self).names() == old(self).names(),
            !old(self)@.contains_key(name@) ==> final(self).names() == old(self).names().push(
                name@,
            ),
    {
        let ghost before = self.entries@;
        let ghost key = name@;
        match self.find(name.as_str()) {
            Some(i) => {
                self.entries.set(i, Entry { name, device });
                proof {
                    let after = self.entries@;
                    assert(after =~= before.update(i as int, Entry { name, device }));
                    assert forall|a: int, b: int| 0 <= a < b < after.len() implies (
                    #[trigger] after[a]).name@ != (#[trigger] after[b]).name@ by {
                        assert(before[a].name@ != before[b].name@);
                    }
                    lemma_replaced(before, after, i as int);
                    assert(final(self).names() =~= old(self).names());
                }
            },
            None => {
                self.entries.push(Entry { name, device });
                proof {
                    let after = self.entries@;
                    assert(after =~= before.push(Entry { name, device }));
                    assert forall|a: int, b: int| 0 <= a < b < after.len() implies (
                    #[trigger] after[a]).name@ != (#[trigger] after[b]).name@ by {
                        if b == before.len() {
                            assert(!holds_at(before, key, a));
                        } else {
                            assert(before[a].name@ != before[b].name@);
                        }
                    }
                    lemma_appended(before, after);
                    assert(final(self).names() =~= old(self).names().push(key));
                }
            },
        }
    }

    /// Forgets every device.
    pub fn clear(&mut self)
        ensures
            final(self).wf(),
            final(self)@ == Map::<Seq<char>, D>::empty(),
            final(self).names() == Seq::<Seq<char>>::empty(),
    {
        self.entries.clear();
        assert(self@ =~= Map::<Seq<char>, D>::empty());
        assert(self.names() =~= Seq::<Seq<char>>::empty());
    }

    /// The registered names, in the order in which they were first seen.
    pub fn list(&self) -> (names: Vec<String>)
        ensures
            names@.len() == self.names().len(),
            forall|i: int| 0 <= i < names@.len() ==> (#[trigger] names@[i])@ == self.names()[i],
    {
        let mut names: Vec<String> = Vec::new();
        let mut i: usize = 0;
        while i < self.entries.len()
            invariant
                i <= self.entries@.len(),
                names@.len() == i,
                forall|j: int| 0 <= j < i ==> (#[trigger] names@[j])@ == self.entries@[j].name@,
            decreases self.entries@.len() - i,
        {
            names.push(self.entries[i].name.clone());
            i += 1;
        }
        names
    }

    /// The names are those under which a device is registered, each once.
    pub proof fn names_are_keys(&self)
        requires
            self.wf(),
        ensures
            self.names().no_duplicates(),
            forall|name: Seq<char>| self.names().contains(name) <==> self@.contains_key(name),
    {
        let names = self.names();
        let entries = self.entries@;
        assert forall|i: int, j: int| 0 <= i < names.len() && 0 <= j < names.len() && i != j implies names[i] != names[j] by {
            if i < j {
                assert(entries[i].name@ != entries[j].name@);
            } else {
                assert(entries[j].name@ != entries[i].name@);
            }
        }
        assert forall|name: Seq<char>| names.contains(name) <==> self@.contains_key(name) by {
            if names.contains(name) {
                let i = choose|i: int| 0 <= i < names.len() && names[i] == name;
                assert(holds_at(entries, name, i));
            }
            if self@.contains_key(name) {
                let i = choose|i: int| holds_at(entries, name, i);
                assert(names[i] == name);
            }
        }
    }
}

/// Among distinct names, the entry found under a name is the map's entry.
proof fn lemma_lookup<D>(entries: Seq<Entry<D>>, name: Seq<char>, i: int)
    requires
        distinct_names(entries),
        holds_at(entries, name, i),
    ensures
        as_map(entries).contains_key(name),
        as_map(entries)[name] == entries[i].device,
{
    let k = choose|k: int| holds_at(entries, name, k);
    assert(holds_at(entries, name, k));
    if k < i {
        assert(entries[k].name@ != entries[i].name@);
    }
    if i < k {
        assert(entries[i].name@ != entries[k].name@);
    }
}

/// Replacing the entry of a name replaces its device in the map.
proof fn lemma_replaced<D>(before: Seq<Entry<D>>, after: Seq<Entry<D>>, i: int)
    requires
        distinct_names(before),
        distinct_names(after),
        0 <= i < before.len(),
        after.len() == before.len(),
        after[i].name@ == before[i].name@,
        forall|j: int| 0 <= j < before.len() && j != i ==> after[j] == before[j],
    ensures
        as_map(after) == as_map(before).insert(after[i].name@, after[i].device),
{
    let name = after[i].name@;
    let target = as_map(before).insert(name, after[i].device);
    assert forall|key: Seq<char>| as_map(after).contains_key(key) <==> target.contains_key(
        key,
    ) by {
        if as_map(after).contains_key(key) {
            let k = choose|k: int| holds_at(after, key, k);
            assert(holds_at(before, key, k));
        }
        if as_map(before).contains_key(key) {
            let k = choose|k: int| holds_at(before, key, k);
            assert(holds_at(after, key, k));
        }
        if key == name {
            assert(holds_at(after, key, i));
        }
    }
    assert forall|key: Seq<char>| as_map(after).contains_key(key) implies as_map(after)[key]
        == target[key] by {
        let k = choose|k: int| holds_at(after, key, k);
        lemma_lookup(after, key, k);
        if key != name {
            assert(k != i);
            assert(holds_at(before, key, k));
            lemma_lookup(before, key, k);
        } else {
            lemma_lookup(after, key, i);
        }
    }
    assert(as_map(after) =~= target);
}

/// Appending an entry under a new name adds it to the map.
proof fn lemma_appended<D>(before: Seq<Entry<D>>, after: Seq<Entry<D>>)
    requires
        distinct_names(after),
        after.len() == before.len() + 1,
        forall|j: int| 0 <= j < before.len() ==> after[j] == before[j],
    ensures
        as_map(after) == as_map(before).insert(after.last().name@, after.last().device),
{
    let name = after.last().name@;
    let target = as_map(before).insert(name, after.last().device);
    assert forall|key: Seq<char>| as_map(after).contains_key(key) <==> target.contains_key(
        key,
    ) by {
        if as_map(after).contains_key(key) {
            let k = choose|k: int| holds_at(after, key, k);
            if k < before.len() {
                assert(holds_at(before, key, k));
            }
        }
        if as_map(before).contains_key(key) {
            let k = choose|k: int| holds_at(before, key, k);
            assert(holds_at(after, key, k));
        }
        if key == name {
            assert(holds_at(after, key, after.len() - 1));
        }
    }
    assert forall|key: Seq<char>| as_map(after).contains_key(key) implies as_map(after)[key]
        == target[key] by {
        let k = choose|k: int| holds_at(after, key, k);
        lemma_lookup(after, key, k);
        if key != name {
            assert(k < before.len());
            assert(holds_at(before, key, k));
            assert(distinct_names(before)) by {
                assert forall|a: int, b: int| 0 <= a < b < before.len() implies (
                #[trigger] before[a]).name@ != (#[trigger] before[b]).name@ by {
                    assert(after[a].name@ != after[b].name@);
                }
            }
            lemma_lookup(before, key, k);
        } else {
            lemma_lookup(after, key, after.len() - 1);
        }
    }
    assert(as_map(after) =~= target);
}

} // verus!
