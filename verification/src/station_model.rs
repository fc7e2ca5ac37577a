//! The list of stations shown by a view: stations in the order in which they
//! were added, at most one per identifier, kept in an `IndexMap` keyed by the
//! station's identifier.
use indexmap::IndexMap;
use vstd::prelude::*;

use crate::station::{StationView, SwStation};

verus! {

#[verifier::external_type_specification]
#[verifier::external_body]
#[verifier::reject_recursive_types(K)]
#[verifier::reject_recursive_types(V)]
#[verifier::reject_recursive_types(S)]
pub struct ExIndexMap<K, V, S>(IndexMap<K, V, S>);

/// The entries of a station map, in the map's order: each key's characters
/// with the station stored under it.
pub uninterp spec fn station_entries(m: IndexMap<String, SwStation>) -> Seq<(Seq<char>, SwStation)>;

/// No key occurs twice.
pub open spec fn keys_distinct(e: Seq<(Seq<char>, SwStation)>) -> bool {
    forall|i: int, j: int| 0 <= i < e.len() && 0 <= j < e.len() && i != j ==> e[i].0 != e[j].0
}

/// Some entry has the key `k`.
pub open spec fn has_key(e: Seq<(Seq<char>, SwStation)>, k: Seq<char>) -> bool {
    exists|i: int| 0 <= i < e.len() && e[i].0 == k
}

/// The entries after removing position `i` by moving the last entry into
/// its place.
pub open spec fn swap_removed<A>(e: Seq<A>, i: int) -> Seq<A> {
    if i == e.len() - 1 {
        e.drop_last()
    } else {
        e.update(i, e.last()).drop_last()
    }
}

/// `IndexMap::default`: an empty map.
#[verifier::external_body]
fn map_new() -> (m: IndexMap<String, SwStation>)
    ensures
        station_entries(m) == Seq::<(Seq<char>, SwStation)>::empty(),
{
    IndexMap::default()
}

/// `IndexMap::len`: the number of entries.
#[verifier::external_body]
fn map_len(m: &IndexMap<String, SwStation>) -> (r: usize)
    ensures
        r == station_entries(*m).len(),
{
    m.len()
}

/// `IndexMap::contains_key`: whether an entry has the key.
#[verifier::external_body]
fn map_contains_key(m: &IndexMap<String, SwStation>, key: &String) -> (r: bool)
    ensures
        r == has_key(station_entries(*m), key@),
{
    m.contains_key(key)
}

/// `IndexMap::get_index_of`: the position of the entry with the key.
#[verifier::external_body]
fn map_get_index_of(m: &IndexMap<String, SwStation>, key: &String) -> (r: Option<usize>)
    ensures
        r matches Some(i) ==> i < station_entries(*m).len() && station_entries(*m)[i as int].0 == key@,
        r is None ==> !has_key(station_entries(*m), key@),
{
    m.get_index_of(key)
}

/// `IndexMap::insert`: an entry with a new key goes last; an entry with a
/// key already present keeps its place and gets the new value, and the old
/// value is handed back.
#[verifier::external_body]
fn map_insert(m: &mut IndexMap<String, SwStation>, key: String, value: SwStation) -> (r: Option<SwStation>)
    requires
        keys_distinct(station_entries(*old(m))),
    ensures
        !has_key(station_entries(*old(m)), key@) ==> {
            &&& station_entries(*final(m)) == station_entries(*old(m)).push((key@, value))
            &&& r is None
        },
        forall|i: int|
            0 <= i < station_entries(*old(m)).len() && #[trigger] station_entries(*old(m))[i].0 == key@
                ==> {
                &&& station_entries(*final(m)) == station_entries(*old(m)).update(i, (key@, value))
                &&& r == Some(station_entries(*old(m))[i].1)
            },
{
    m.insert(key, value)
}

/// `IndexMap::remove`, which is `swap_remove`: the entry with the key is
/// taken out and the last entry moves into its place.
#[verifier::external_body]
fn map_remove(m: &mut IndexMap<String, SwStation>, key: &String) -> (r: Option<SwStation>)
    requires
        keys_distinct(station_entries(*old(m))),
    ensures
        !has_key(station_entries(*old(m)), key@) ==> {
            &&& station_entries(*final(m)) == station_entries(*old(m))
            &&& r is None
        },
        forall|i: int|
            0 <= i < station_entries(*old(m)).len() && #[trigger] station_entries(*old(m))[i].0 == key@
                ==> {
                &&& station_entries(*final(m)) == swap_removed(station_entries(*old(m)), i)
                &&& r == Some(station_entries(*old(m))[i].1)
            },
{
    m.remove(key)
}

/// `IndexMap::clear`: no entries are left.
#[verifier::external_body]
fn map_clear(m: &mut IndexMap<String, SwStation>)
    ensures
        station_entries(*final(m)) == Seq::<(Seq<char>, SwStation)>::empty(),
{
    m.clear()
}

/// `IndexMap::get_index`: the value at a position, if the position is in
/// range.
#[verifier::external_body]
fn map_get_index(m: &IndexMap<String, SwStation>, index: usize) -> (r: Option<&SwStation>)
    ensures
        r matches Some(v) ==> index < station_entries(*m).len() && *v == station_entries(*m)[index as int].1,
        r is None ==> index >= station_entries(*m).len(),
{
    m.get_index(index).map(|(_, v)| v)
}

/// A change of the list, as list models announce it: at `position`,
/// `removed` items went away and `added` items came in.
#[derive(Clone, Copy, Debug, PartialEq, Eq, Structural)]
pub struct ItemsChange {
    pub position: u32,
    pub removed: u32,
    pub added: u32,
}

/// The stations of a list, in the order in which they were added.
pub struct SwStationModel {
    map: IndexMap<String, SwStation>,
}

/// The stations of a model's entries.
pub open spec fn entry_stations(e: Seq<(Seq<char>, SwStation)>) -> Seq<StationView> {
    Seq::new(e.len(), |i: int| e[i].1@)
}

/// The entries of a well-formed model: keys are distinct and each is the
/// identifier of the station stored under it.
pub open spec fn entries_wf(e: Seq<(Seq<char>, SwStation)>) -> bool {
    &&& keys_distinct(e)
    &&& forall|i: int| 0 <= i < e.len() ==> #[trigger] e[i].0 == e[i].1.uuid@
}

/// No two stations of the list share an identifier.
pub open spec fn uuids_distinct(s: Seq<StationView>) -> bool {
    forall|i: int, j: int| 0 <= i < s.len() && 0 <= j < s.len() && i != j ==> s[i].uuid != s[j].uuid
}

/// Some station of the list has the identifier `uuid`.
pub open spec fn contains_uuid(s: Seq<StationView>, uuid: Seq<char>) -> bool {
    exists|i: int| 0 <= i < s.len() && #[trigger] s[i].uuid == uuid
}

impl View for SwStationModel {
    type V = Seq<StationView>;

    closed spec fn view(&self) -> Seq<StationView> {
        entry_stations(station_entries(self.map))
    }
}

impl SwStationModel {
    #[verifier::type_invariant]
    closed spec fn wf(self) -> bool {
        entries_wf(station_entries(self.map))
    }

    /// An empty list.
    pub fn new() -> (r: Self)
        ensures
            r@ == Seq::<StationView>::empty(),
            uuids_distinct(r@),
    {
        let r = SwStationModel { map: map_new() };
        assert(r@ =~= Seq::<StationView>::empty());
        r
    }

    /// The number of stations, as list models count (truncated to `u32`).
    pub fn n_items(&self) -> (r: u32)
        ensures
            r == self@.len() as u32,
    {
        map_len(&self.map) as u32
    }

    /// The station at a position, if there is one.
    pub fn item(&self, position: u32) -> (r: Option<SwStation>)
        ensures
            r matches Some(s) ==> position < self@.len() && s@ == self@[position as int],
            r is None ==> position >= self@.len(),
    {
        match map_get_index(&self.map, position as usize) {
            Some(s) => Some(s.clone()),
            None => None,
        }
    }

    /// Adds a station at the end of the list, unless a station with the same
    /// identifier is already there; says what changed.
    pub fn add_station(&mut self, station: &SwStation) -> (r: Option<ItemsChange>)
        ensures
            uuids_distinct(final(self)@),
            contains_uuid(old(self)@, station@.uuid) ==> final(self)@ == old(self)@ && r is None,
            !contains_uuid(old(self)@, station@.uuid) ==> {
                &&& final(self)@ == old(self)@.push(station@)
                &&& r == Some(ItemsChange { position: old(self)@.len() as u32, removed: 0, added: 1 })
            },
    {
        proof {
            use_type_invariant(&*self);
        }
        let uuid = station.uuid();
        let res = self.insert_new(station, uuid);
        proof {
            self.lemma_distinct();
        }
        res
    }

    /// The identifiers of a well-formed model's stations are distinct.
    proof fn lemma_distinct(&self)
        requires
            self.wf(),
        ensures
            uuids_distinct(self@),
    {
        let e = station_entries(self.map);
        assert forall|i: int, j: int|
            0 <= i < self@.len() && 0 <= j < self@.len() && i != j implies self@[i].uuid != self@[j].uuid by {
            assert(e[i].0 == e[i].1.uuid@);
            assert(e[j].0 == e[j].1.uuid@);
        }
    }

    fn insert_new(&mut self, station: &SwStation, uuid: String) -> (r: Option<ItemsChange>)
        requires
            old(self).wf(),
            uuid@ == station@.uuid,
        ensures
            final(self).wf(),
            contains_uuid(old(self)@, station@.uuid) ==> final(self)@ == old(self)@ && r is None,
            !contains_uuid(old(self)@, station@.uuid) ==> {
                &&& final(self)@ == old(self)@.push(station@)
                &&& r == Some(ItemsChange { position: old(self)@.len() as u32, removed: 0, added: 1 })
            },
    {
        let ghost e = station_entries(self.map);
        if map_contains_key(&self.map, &uuid) {
            proof {
                let i = choose|i: int| 0 <= i < e.len() && e[i].0 == uuid@;
                assert(e[i].0 == e[i].1.uuid@);
                assert(old(self)@[i].uuid == station@.uuid);
            }
            return None;
        }
        proof {
            assert forall|i: int| 0 <= i < old(self)@.len() implies old(self)@[i].uuid != station@.uuid by {
                assert(e[i].0 == e[i].1.uuid@);
            }
        }
        let value = station.clone();
        let mut map = map_new();
        std::mem::swap(&mut map, &mut self.map);
        let _ = map_insert(&mut map, uuid, value);
        self.map = map;
        proof {
            let e2 = station_entries(self.map);
            assert(e2 == e.push((station.uuid@, value)));
            assert(entry_stations(e2) =~= entry_stations(e).push(station@));
        }
        let len = map_len(&self.map);
        Some(ItemsChange { position: (len - 1) as u32, removed: 0, added: 1 })
    }

    /// Takes the station with the same identifier out of the list; the last
    /// station moves into its place. Says what changed.
    pub fn remove_station(&mut self, station: &SwStation) -> (r: Option<ItemsChange>)
        requires
            old(self)@.len() <= 0x1_0000_0000,
        ensures
            uuids_distinct(final(self)@),
            !contains_uuid(old(self)@, station@.uuid) ==> final(self)@ == old(self)@ && r is None,
            forall|i: int|
                0 <= i < old(self)@.len() && #[trigger] old(self)@[i].uuid == station@.uuid ==> {
                    &&& final(self)@ == swap_removed(old(self)@, i)
                    &&& r == Some(ItemsChange { position: i as u32, removed: 1, added: 0 })
                },
    {
        proof {
            use_type_invariant(&*self);
        }
        let ghost e = station_entries(self.map);
        let uuid = station.uuid();
        match map_get_index_of(&self.map, &uuid) {
            Some(pos) => {
                proof {
                    assert(e[pos as int].0 == e[pos as int].1.uuid@);
                    assert(old(self)@[pos as int].uuid == station@.uuid);
                }
                let mut map = map_new();
                std::mem::swap(&mut map, &mut self.map);
                let _ = map_remove(&mut map, &uuid);
                proof {
                    let e2 = station_entries(map);
                    assert(e2 == swap_removed(e, pos as int));
                    assert(entries_wf(e2)) by {
                        assert forall|k: int| 0 <= k < e2.len() implies #[trigger] e2[k].0 == e2[k].1.uuid@ by {
                            if k == pos as int {
                                assert(e[e.len() - 1].0 == e[e.len() - 1].1.uuid@);
                            } else {
                                assert(e[k].0 == e[k].1.uuid@);
                            }
                        }
                    }
                }
                self.map = map;
                proof {
                    let e2 = station_entries(self.map);
                    assert(e2 == swap_removed(e, pos as int));
                    assert(entry_stations(e2) =~= swap_removed(old(self)@, pos as int));
                    assert forall|i: int|
                        0 <= i < old(self)@.len() && #[trigger] old(self)@[i].uuid == station@.uuid implies i == pos by {
                        assert(e[i].0 == e[i].1.uuid@);
                    }
                }
                Some(ItemsChange { position: pos as u32, removed: 1, added: 0 })
            },
            None => {
                proof {
                    assert forall|i: int| 0 <= i < old(self)@.len() implies old(self)@[i].uuid != station@.uuid by {
                        assert(e[i].0 == e[i].1.uuid@);
                    }
                }
                None
            },
        }
    }

    /// Removes every station; says what changed.
    pub fn clear(&mut self) -> (r: ItemsChange)
        ensures
            final(self)@ == Seq::<StationView>::empty(),
            r == (ItemsChange { position: 0, removed: old(self)@.len() as u32, added: 0 }),
    {
        let len = self.n_items();
        let mut map = map_new();
        std::mem::swap(&mut map, &mut self.map);
        map_clear(&mut map);
        self.map = map;
        proof {
            assert(self@ =~= Seq::<StationView>::empty());
        }
        ItemsChange { position: 0, removed: len, added: 0 }
    }
}

impl Default for SwStationModel {
    fn default() -> (r: Self)
        ensures
            r@ == Seq::<StationView>::empty(),
    {
        Self::new()
    }
}

} // verus!
