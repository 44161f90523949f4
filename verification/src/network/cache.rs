//! The entity cache: one store per entity type, filled as entities arrive.
use crate::network::models as nmodels;
use std::collections::HashMap;
use vstd::prelude::*;
use vstd::std_specs::iter::IteratorSpec;

verus! {

broadcast use vstd::std_specs::hash::group_hash_axioms;

/// An entity as the service sends it, which knows the key it is filed under.
pub trait Identified {
    /// The key of this entity.
    spec fn key_of(&self) -> u32;

    fn key(&self) -> (key: u32)
        ensures
            key == self.key_of(),
    ;
}

/// `entities` filed into `entries` one after another, each under its own key.
/// Where two of them have the same key, the later one stays.
pub open spec fn filed<V: Identified>(entries: Map<u32, V>, entities: Seq<V>) -> Map<u32, V>
    decreases entities.len(),
{
    if entities.len() == 0 {
        entries
    } else {
        filed(entries, entities.drop_last()).insert(entities.last().key_of(), entities.last())
    }
}

/// `listing` holds every entry of `entries` exactly once, the entry of `keys[i]` at place `i`.
pub open spec fn lists<V>(listing: Seq<V>, keys: Seq<u32>, entries: Map<u32, V>) -> bool {
    &&& keys.no_duplicates()
    &&& keys.to_set() == entries.dom()
    &&& keys.len() == listing.len()
    &&& forall|i: int| 0 <= i < keys.len() ==> listing[i] == entries[#[trigger] keys[i]]
}

/// `listing` holds every entry of `entries` exactly once, in some order.
pub open spec fn is_listing<V>(listing: Seq<V>, entries: Map<u32, V>) -> bool {
    exists|keys: Seq<u32>| #[trigger] lists(listing, keys, entries)
}

/// What the references of `listing` refer to, in the same order.
pub open spec fn referents<V>(listing: Seq<&V>) -> Seq<V> {
    listing.map_values(|entity: &V| *entity)
}

/// The cached entities of one type, by key, and whether the whole collection was ever listed.
pub struct EntityStore<V> {
    entries: HashMap<u32, V>,
    populated: bool,
}

/// A store as a plain value.
pub struct StoreView<V> {
    /// The cached entities, by key.
    pub entries: Map<u32, V>,
    /// Whether a listing of the whole collection has been filed.
    pub populated: bool,
}

impl<V> StoreView<V> {
    /// The store that holds nothing.
    pub open spec fn empty() -> StoreView<V> {
        StoreView { entries: Map::empty(), populated: false }
    }

    /// This store after `entity` was filed under `key`.
    pub open spec fn insert(self, key: u32, entity: V) -> StoreView<V> {
        StoreView { entries: self.entries.insert(key, entity), ..self }
    }
}

impl<V: Identified> StoreView<V> {
    /// This store after a listing of the whole collection was filed.
    pub open spec fn mark_populated(self, entities: Seq<V>) -> StoreView<V> {
        StoreView { entries: filed(self.entries, entities), populated: true }
    }
}

impl<V> View for EntityStore<V> {
    type V = StoreView<V>;

    closed spec fn view(&self) -> StoreView<V> {
        StoreView { entries: self.entries@, populated: self.populated }
    }
}

impl<V> EntityStore<V> {
    pub fn new() -> (store: Self)
        ensures
            store@ == StoreView::<V>::empty(),
    {
        EntityStore { entries: HashMap::new(), populated: false }
    }

    /// The entity cached under `key`, if there is one.
    pub fn get(&self, key: u32) -> (found: Option<&V>)
        ensures
            match found {
                Some(entity) => self@.entries.contains_key(key) && *entity == self@.entries[key],
                None => !self@.entries.contains_key(key),
            },
    {
        self.entries.get(&key)
    }

    /// Files `entity` under `key`, in place of what was there.
    pub fn insert(&mut self, key: u32, entity: V)
        ensures
            final(self)@ == old(self)@.insert(key, entity),
    {
        self.entries.insert(key, entity);
    }

    pub fn is_populated(&self) -> (populated: bool)
        ensures
            populated == self@.populated,
    {
        self.populated
    }

    /// All cached entities, each once and in no particular order.
    pub fn get_all(&self) -> (listing: Vec<&V>)
        ensures
            is_listing(referents(listing@), self@.entries),
    {
        let mut listing: Vec<&V> = Vec::new();
        let ghost mut keys: Seq<u32> = Seq::empty();
        let ghost pairs = self.entries.iter().remaining();
        for pair in it: self.entries.iter()
            invariant
                it.seq() == pairs,
                keys.len() == listing.len(),
                keys.len() == it.index(),
                forall|i: int| 0 <= i < keys.len() ==> keys[i] == *(#[trigger] pairs[i]).0,
                forall|i: int| 0 <= i < keys.len() ==> *listing[i] == *(#[trigger] pairs[i]).1,
        {
            proof {
                keys = keys.push(*pair.0);
            }
            listing.push(pair.1);
        }
        proof {
            let entries = self@.entries;
            let listed = referents(listing@);
            assert(keys.no_duplicates()) by {
                assert forall|i: int, j: int|
                    0 <= i < keys.len() && 0 <= j < keys.len() && i != j implies keys[i]
                    != keys[j] by {
                    if keys[i] == keys[j] {
                        assert(entries[*pairs[i].0] == *pairs[i].1);
                        assert(entries[*pairs[j].0] == *pairs[j].1);
                        assert(pairs[i] == pairs[j]);
                    }
                }
            }
            assert(keys.to_set() =~= entries.dom()) by {
                assert forall|key: u32| entries.contains_key(key) implies keys.contains(key) by {
                    let pair = (&key, &entries[key]);
                    assert(pairs.contains(pair));
                    let i = choose|i: int| 0 <= i < pairs.len() && pairs[i] == pair;
                    assert(keys[i] == key);
                }
                assert forall|key: u32| keys.contains(key) implies entries.contains_key(key) by {
                    let i = choose|i: int| 0 <= i < keys.len() && keys[i] == key;
                    assert(entries.contains_key(*pairs[i].0));
                }
            }
            assert forall|i: int| 0 <= i < keys.len() implies listed[i] == entries[#[trigger] keys[i]] by {
                assert(entries[*pairs[i].0] == *pairs[i].1);
            }
            assert(lists(referents(listing@), keys, self@.entries));
        }
        listing
    }

    /// All cached entities, each once and in no particular order,
    /// if the whole collection has been filed; nothing otherwise.
    pub fn get_all_if_populated(&self) -> (all: Option<Vec<&V>>)
        ensures
            match all {
                Some(listing) => self@.populated && is_listing(
                    referents(listing@),
                    self@.entries,
                ),
                None => !self@.populated,
            },
    {
        if self.populated {
            Some(self.get_all())
        } else {
            None
        }
    }
}

impl<V: Identified> EntityStore<V> {
    /// Files every entity of `entities` under its own key, in their order.
    pub fn insert_all(&mut self, entities: Vec<V>)
        ensures
            final(self)@ == (StoreView {
                entries: filed(old(self)@.entries, entities@),
                ..old(self)@
            }),
    {
        let ghost all = entities@;
        let ghost before = self@.entries;
        for entity in it: entities
            invariant
                it.seq() == all,
                self@.entries == filed(before, all.take(it.index())),
                self@.populated == old(self)@.populated,
        {
            proof {
                let n = it.index();
                assert(all.take(n + 1).drop_last() =~= all.take(n));
            }
            let key = entity.key();
            self.entries.insert(key, entity);
        }
        assert(all.take(all.len() as int) =~= all);
    }

    /// Files a listing of the whole collection: every entity under its own key,
    /// and with the last of them the mark that the collection is complete.
    pub fn mark_populated(&mut self, entities: Vec<V>)
        ensures
            final(self)@ == old(self)@.mark_populated(entities@),
    {
        self.insert_all(entities);
        self.populated = true;
    }
}

/// Everything that the client has learned from the service so far.
pub struct ClientCache {
    pub departments: EntityStore<nmodels::Department>,
    pub courses: EntityStore<nmodels::Course>,
    pub classes: EntityStore<nmodels::Class>,
    pub class_instances: EntityStore<nmodels::ClassInstance>,
    pub class_shifts: EntityStore<nmodels::ClassShift>,
    pub buildings: EntityStore<nmodels::Building>,
    pub places: EntityStore<nmodels::Place>,
    pub students: EntityStore<nmodels::Student>,
    pub teachers: EntityStore<nmodels::Teacher>,
    pub enrollments: EntityStore<nmodels::Enrollment>,
    pub groups: EntityStore<nmodels::WeakGroup>,
}

/// The cache as a plain value.
pub struct CacheView {
    pub departments: StoreView<nmodels::Department>,
    pub courses: StoreView<nmodels::Course>,
    pub classes: StoreView<nmodels::Class>,
    pub class_instances: StoreView<nmodels::ClassInstance>,
    pub class_shifts: StoreView<nmodels::ClassShift>,
    pub buildings: StoreView<nmodels::Building>,
    pub places: StoreView<nmodels::Place>,
    pub students: StoreView<nmodels::Student>,
    pub teachers: StoreView<nmodels::Teacher>,
    pub enrollments: StoreView<nmodels::Enrollment>,
    pub groups: StoreView<nmodels::WeakGroup>,
}

impl View for ClientCache {
    type V = CacheView;

    open spec fn view(&self) -> CacheView {
        CacheView {
            departments: self.departments@,
            courses: self.courses@,
            classes: self.classes@,
            class_instances: self.class_instances@,
            class_shifts: self.class_shifts@,
            buildings: self.buildings@,
            places: self.places@,
            students: self.students@,
            teachers: self.teachers@,
            enrollments: self.enrollments@,
            groups: self.groups@,
        }
    }
}

impl CacheView {
    /// The cache that holds nothing.
    pub open spec fn empty() -> CacheView {
        CacheView {
            departments: StoreView::empty(),
            courses: StoreView::empty(),
            classes: StoreView::empty(),
            class_instances: StoreView::empty(),
            class_shifts: StoreView::empty(),
            buildings: StoreView::empty(),
            places: StoreView::empty(),
            students: StoreView::empty(),
            teachers: StoreView::empty(),
            enrollments: StoreView::empty(),
            groups: StoreView::empty(),
        }
    }
}

impl ClientCache {
    pub fn new() -> (cache: ClientCache)
        ensures
            cache@ == CacheView::empty(),
    {
        ClientCache {
            departments: EntityStore::new(),
            courses: EntityStore::new(),
            classes: EntityStore::new(),
            class_instances: EntityStore::new(),
            class_shifts: EntityStore::new(),
            buildings: EntityStore::new(),
            places: EntityStore::new(),
            students: EntityStore::new(),
            teachers: EntityStore::new(),
            enrollments: EntityStore::new(),
            groups: EntityStore::new(),
        }
    }
}

} // verus!
