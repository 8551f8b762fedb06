//! A map from names that keeps the order in which they came.

use vstd::hash_map::StringHashMap;
use vstd::prelude::*;

verus! {

/// An entry of a [`NameMap`].
pub struct Named<V> {
    /// The name.
    pub name: String,
    /// What it stands for.
    pub value: V,
}

struct Entries<V> {
    list: Vec<Named<V>>,
    places: StringHashMap<usize>,
}

impl<V> Entries<V> {
    spec fn wf(self) -> bool {
        &&& forall|i: int|
            0 <= i < self.list@.len() ==> {
                &&& self.places@.contains_key(#[trigger] self.list@[i].name@)
                &&& self.places@[self.list@[i].name@] == i
            }
        &&& forall|name: Seq<char>| #[trigger]
            self.places@.contains_key(name) ==> {
                &&& self.places@[name] < self.list@.len()
                &&& self.list@[self.places@[name] as int].name@ == name
            }
    }
}

/// A map from names, each of which occurs once, in the order in which they came.
pub struct NameMap<V> {
    entries: Entries<V>,
}

impl<V> View for NameMap<V> {
    type V = Seq<(Seq<char>, V)>;

    closed spec fn view(&self) -> Seq<(Seq<char>, V)> {
        self.entries.list@.map_values(|entry: Named<V>| (entry.name@, entry.value))
    }
}

/// `name` is one of the names of `map`.
pub open spec fn has_name<V>(map: Seq<(Seq<char>, V)>, name: Seq<char>) -> bool {
    exists|i: int| 0 <= i < map.len() && #[trigger] map[i].0 == name
}

/// The place of `name` in `map`.
pub open spec fn place_of<V>(map: Seq<(Seq<char>, V)>, name: Seq<char>) -> int {
    choose|i: int| 0 <= i < map.len() && #[trigger] map[i].0 == name
}

/// What `name` stands for in `map`.
pub open spec fn lookup<V>(map: Seq<(Seq<char>, V)>, name: Seq<char>) -> Option<V> {
    if has_name(map, name) {
        Some(map[place_of(map, name)].1)
    } else {
        None
    }
}

/// What a name stands for stands in its place.
pub proof fn lemma_lookup<V>(map: Seq<(Seq<char>, V)>, name: Seq<char>)
    requires
        lookup(map, name) is Some,
    ensures
        0 <= place_of(map, name) < map.len(),
        map[place_of(map, name)] == (name, lookup(map, name)->0),
{
}

/// No name occurs twice in `map`.
pub open spec fn names_once<V>(map: Seq<(Seq<char>, V)>) -> bool {
    forall|i: int, j: int|
        0 <= i < map.len() && 0 <= j < map.len() && #[trigger] map[i].0 == #[trigger] map[j].0
            ==> i == j
}

impl<V> NameMap<V> {
    #[verifier::type_invariant]
    spec fn entries_agree(self) -> bool {
        self.entries.wf()
    }

    /// A map without names.
    pub fn new() -> (map: Self)
        ensures
            map@ == Seq::<(Seq<char>, V)>::empty(),
    {
        let map = NameMap { entries: Entries { list: Vec::new(), places: StringHashMap::new() } };
        assert(map@ =~= Seq::<(Seq<char>, V)>::empty());
        map
    }

    /// How many names there are.
    pub fn len(&self) -> (len: usize)
        ensures
            len == self@.len(),
    {
        self.entries.list.len()
    }

    /// The entry at a place.
    pub fn entry(&self, i: usize) -> (entry: &Named<V>)
        requires
            i < self@.len(),
        ensures
            (entry.name@, entry.value) == self@[i as int],
    {
        &self.entries.list[i]
    }

    /// What a name stands for.
    pub fn get(&self, name: &str) -> (value: Option<&V>)
        ensures
            names_once(self@),
            match value {
                Some(value) => lookup(self@, name@) == Some(*value),
                None => lookup(self@, name@) is None,
            },
    {
        proof {
            use_type_invariant(&*self);
            self.lemma_names_once();
        }
        match self.entries.places.get(name) {
            Some(place) => {
                assert(self@[*place as int].0 == name@);
                Some(&self.entries.list[*place].value)
            },
            None => {
                assert(!has_name(self@, name@)) by {
                    if has_name(self@, name@) {
                        let i = place_of(self@, name@);
                        assert(self.entries.list@[i].name@ == name@);
                    }
                }
                None
            },
        }
    }

    /// Puts a name behind the others, if it is not there yet. Says whether it was put.
    pub fn insert(&mut self, name: &str, value: V) -> (inserted: bool)
        ensures
            names_once(final(self)@),
            inserted == !has_name(old(self)@, name@),
            inserted ==> final(self)@ == old(self)@.push((name@, value)),
            !inserted ==> final(self)@ == old(self)@,
    {
        proof {
            use_type_invariant(&*self);
            self.lemma_names_once();
        }
        let ghost before = self@;
        let mut entries = Entries { list: Vec::new(), places: StringHashMap::new() };
        std::mem::swap(&mut entries, &mut self.entries);
        let ghost list = entries.list@;
        if entries.places.contains_key(name) {
            assert(before[entries.places@[name@] as int].0 == name@);
            self.entries = entries;
            return false;
        }
        assert(!has_name(before, name@)) by {
            if has_name(before, name@) {
                let i = place_of(before, name@);
                assert(list[i].name@ == name@);
            }
        }
        let place = entries.list.len();
        entries.places.insert(name.to_owned(), place);
        entries.list.push(Named { name: name.to_owned(), value });
        assert(entries.wf()) by {
            assert forall|i: int| 0 <= i < entries.list@.len() implies {
                &&& entries.places@.contains_key(#[trigger] entries.list@[i].name@)
                &&& entries.places@[entries.list@[i].name@] == i
            } by {
                if i < list.len() {
                    assert(entries.list@[i] == list[i]);
                    assert(before[i].0 == list[i].name@);
                }
            }
        }
        self.entries = entries;
        proof {
            assert(self@ =~= before.push((name@, value)));
            self.lemma_names_once();
        }
        true
    }

    /// A copy of the map.
    pub fn copy(&self) -> (map: Self) where V: Copy
        ensures
            map@ == self@,
    {
        proof {
            use_type_invariant(&*self);
            self.lemma_names_once();
        }
        let mut map = NameMap::new();
        let mut i: usize = 0;
        assert(map@ =~= self@.take(0));
        while i < self.len()
            invariant
                i <= self@.len(),
                names_once(self@),
                map@ == self@.take(i as int),
            decreases self@.len() - i,
        {
            let entry = self.entry(i);
            assert(!has_name(map@, entry.name@)) by {
                if has_name(map@, entry.name@) {
                    let k = place_of(map@, entry.name@);
                    assert(self@[k].0 == self@[i as int].0);
                }
            }
            map.insert(entry.name.as_str(), entry.value);
            i = i + 1;
            assert(map@ =~= self@.take(i as int));
        }
        assert(map@ =~= self@);
        map
    }

    proof fn lemma_names_once(&self)
        requires
            self.entries.wf(),
        ensures
            names_once(self@),
    {
        assert forall|i: int, j: int|
            0 <= i < self@.len() && 0 <= j < self@.len() && #[trigger] self@[i].0
                == #[trigger] self@[j].0 implies i == j by {
            assert(self.entries.list@[i].name@ == self.entries.list@[j].name@);
        }
    }
}

} // verus!
