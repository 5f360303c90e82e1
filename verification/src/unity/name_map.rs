//! A collection keyed by name that remembers the names it holds.

use vstd::hash_map::StringHashMap;
use vstd::prelude::*;

verus! {

/// Whether no two items of a sequence are the same.
pub open spec fn distinct(names: Seq<Seq<char>>) -> bool {
    forall|i: int, j: int| 0 <= i < j < names.len() ==> names[i] != names[j]
}

/// The characters of each string of a sequence, in order.
pub open spec fn texts(names: Seq<String>) -> Seq<Seq<char>> {
    names.map_values(|name: String| name@)
}

/// The map that holds each item of a sequence under its name. Of two items
/// with one name it holds the later.
pub open spec fn by_name<V>(items: Seq<V>, name_of: spec_fn(V) -> Seq<char>) -> Map<Seq<char>, V>
    decreases items.len(),
{
    if items.len() == 0 {
        Map::empty()
    } else {
        by_name(items.drop_last(), name_of).insert(name_of(items.last()), items.last())
    }
}

/// A name is held exactly if an item of the sequence has it.
pub proof fn lemma_by_name_holds<V>(
    items: Seq<V>,
    name_of: spec_fn(V) -> Seq<char>,
    name: Seq<char>,
)
    ensures
        by_name(items, name_of).contains_key(name) <==> exists|i: int|
            0 <= i < items.len() && #[trigger] name_of(items[i]) == name,
    decreases items.len(),
{
    if items.len() > 0 {
        let earlier = items.drop_last();
        lemma_by_name_holds(earlier, name_of, name);
        if by_name(items, name_of).contains_key(name) {
            if name == name_of(items.last()) {
                assert(name_of(items[items.len() - 1]) == name);
            } else {
                assert(by_name(earlier, name_of).contains_key(name));
                let i = choose|i: int|
                    0 <= i < earlier.len() && #[trigger] name_of(earlier[i]) == name;
                assert(name_of(items[i]) == name);
            }
        }
        if exists|i: int| 0 <= i < items.len() && #[trigger] name_of(items[i]) == name {
            let i = choose|i: int| 0 <= i < items.len() && #[trigger] name_of(items[i]) == name;
            if i < items.len() - 1 {
                assert(name_of(earlier[i]) == name);
            }
        }
    }
}

/// What stands under a name is an item of the sequence, and has that name.
pub proof fn lemma_by_name_holds_items<V>(
    items: Seq<V>,
    name_of: spec_fn(V) -> Seq<char>,
    name: Seq<char>,
)
    requires
        by_name(items, name_of).contains_key(name),
    ensures
        items.contains(by_name(items, name_of)[name]),
        name_of(by_name(items, name_of)[name]) == name,
    decreases items.len(),
{
    if items.len() > 0 {
        if name == name_of(items.last()) {
            assert(items[items.len() - 1] == items.last());
        } else {
            let earlier = items.drop_last();
            lemma_by_name_holds_items(earlier, name_of, name);
            let i = choose|i: int|
                0 <= i < earlier.len() && earlier[i] == by_name(earlier, name_of)[name];
            assert(items[i] == earlier[i]);
        }
    }
}

/// Under the name of an item that no later item shares stands that item.
pub proof fn lemma_by_name_keeps_last<V>(
    items: Seq<V>,
    name_of: spec_fn(V) -> Seq<char>,
    i: int,
)
    requires
        0 <= i < items.len(),
        forall|j: int| i < j < items.len() ==> name_of(#[trigger] items[j]) != name_of(items[i]),
    ensures
        by_name(items, name_of).contains_key(name_of(items[i])),
        by_name(items, name_of)[name_of(items[i])] == items[i],
    decreases items.len(),
{
    if i < items.len() - 1 {
        let earlier = items.drop_last();
        assert(earlier[i] == items[i]);
        assert forall|j: int| i < j < earlier.len() implies name_of(#[trigger] earlier[j])
            != name_of(earlier[i]) by {
            assert(earlier[j] == items[j]);
        }
        lemma_by_name_keeps_last(earlier, name_of, i);
        assert(name_of(items[items.len() - 1]) != name_of(items[i]));
    }
}

/// Names that are the keys of a map: each of them is held, and nothing else.
pub proof fn lemma_names_are_the_keys<V>(map: Map<Seq<char>, V>, names: Seq<Seq<char>>)
    requires
        names.to_set() == map.dom(),
    ensures
        forall|i: int| 0 <= i < names.len() ==> map.contains_key(#[trigger] names[i]),
        forall|name: Seq<char>| !names.contains(name) ==> !map.contains_key(name),
{
    assert forall|i: int| 0 <= i < names.len() implies map.contains_key(#[trigger] names[i]) by {
        assert(names.to_set().contains(names[i]));
    }
    assert forall|name: Seq<char>| !names.contains(name) implies !map.contains_key(name) by {
        assert(!names.to_set().contains(name));
    }
}

/// Values under names. A name holds one value: a value put under a name that
/// is taken replaces the one that was there.
#[verifier::reject_recursive_types(V)]
pub struct NameMap<V> {
    entries: StringHashMap<V>,
    names: Vec<String>,
}

impl<V> View for NameMap<V> {
    type V = Map<Seq<char>, V>;

    closed spec fn view(&self) -> Map<Seq<char>, V> {
        self.entries@
    }
}

impl<V> NameMap<V> {
    /// The names are listed once each, and they are the names that hold a
    /// value.
    #[verifier::type_invariant]
    spec fn listed_names_are_the_keys(self) -> bool {
        &&& distinct(texts(self.names@))
        &&& texts(self.names@).to_set() == self.entries@.dom()
    }

    /// A collection that holds nothing.
    pub fn new() -> (map: NameMap<V>)
        ensures
            map@ == Map::<Seq<char>, V>::empty(),
    {
        let names: Vec<String> = Vec::new();
        let entries: StringHashMap<V> = StringHashMap::new();
        assert(texts(names@).to_set() =~= entries@.dom());
        NameMap { entries, names }
    }

    /// The collection with `value` under `name`.
    pub fn with(self, name: String, value: V) -> (map: NameMap<V>)
        ensures
            map@ == self@.insert(name@, value),
    {
        proof {
            use_type_invariant(&self);
        }
        let mut entries = self.entries;
        let mut names = self.names;
        if !entries.contains_key(name.as_str()) {
            let ghost before = names@;
            names.push(name.clone());
            assert(texts(names@) =~= texts(before).push(name@));
            assert(forall|i: int| 0 <= i < before.len() ==> texts(before).to_set().contains(
                #[trigger] texts(before)[i],
            ));
            proof {
                texts(before).lemma_push_to_set_commute(name@);
            }
        } else {
            assert(texts(names@).to_set().insert(name@) =~= texts(names@).to_set());
        }
        entries.insert(name, value);
        assert(texts(names@).to_set() =~= entries@.dom());
        NameMap { entries, names }
    }

    /// Whether a value is held under `name`.
    pub fn contains(&self, name: &str) -> (found: bool)
        ensures
            found == self@.contains_key(name@),
    {
        self.entries.contains_key(name)
    }

    /// The value under `name`.
    pub fn get(&self, name: &str) -> (value: Option<&V>)
        ensures
            value is Some == self@.contains_key(name@),
            value matches Some(v) ==> *v == self@[name@],
    {
        self.entries.get(name)
    }

    /// The names that hold a value, each once, in no order that callers may
    /// count on.
    pub fn names(&self) -> (names: Vec<String>)
        ensures
            distinct(texts(names@)),
            texts(names@).to_set() == self@.dom(),
    {
        proof {
            use_type_invariant(self);
        }
        let mut names: Vec<String> = Vec::new();
        let mut i: usize = 0;
        while i < self.names.len()
            invariant
                i <= self.names.len(),
                texts(names@) == texts(self.names@.take(i as int)),
            decreases self.names.len() - i,
        {
            let ghost before = names@;
            names.push(self.names[i].clone());
            assert(texts(names@) =~= texts(before).push(self.names@[i as int]@));
            assert(texts(self.names@.take(i + 1)) =~= texts(self.names@.take(i as int)).push(
                self.names@[i as int]@,
            ));
            i = i + 1;
        }
        assert(self.names@.take(i as int) =~= self.names@);
        names
    }
}

} // verus!
