//! The user's library: the stations they saved, as shown in the library
//! view, and the decisions taken while they are loaded from the database.
use vstd::prelude::*;

use crate::client::Error;
use crate::station::{favicon_view, StationMetadata, StationView, SwStation};
use crate::station_model::{contains_uuid, swap_removed, uuids_distinct, SwStationModel};

verus! {

/// What the library view shows.
#[derive(Clone, Copy, Debug, PartialEq, Eq, Structural)]
pub enum SwLibraryStatus {
    Loading,
    Content,
    Empty,
    Offline,
}

impl Default for SwLibraryStatus {
    fn default() -> (r: Self)
        ensures
            r == SwLibraryStatus::Loading,
    {
        SwLibraryStatus::Loading
    }
}

/// A row of the library's database table.
pub struct StationEntry {
    pub uuid: String,
    pub is_local: bool,
    /// The station's metadata as JSON, cached for offline use.
    pub data: Option<String>,
    /// The encoded image of a custom icon.
    pub favicon: Option<Vec<u8>>,
}

/// The list after adding `st`, unless a station with its identifier is there.
pub open spec fn add_one(s: Seq<StationView>, st: StationView) -> Seq<StationView> {
    if contains_uuid(s, st.uuid) {
        s
    } else {
        s.push(st)
    }
}

/// The list after adding each of `new` in turn.
pub open spec fn add_all(s: Seq<StationView>, new: Seq<StationView>) -> Seq<StationView>
    decreases new.len(),
{
    if new.len() == 0 {
        s
    } else {
        add_one(add_all(s, new.drop_last()), new.last())
    }
}

/// The values of a sequence of stations.
pub open spec fn views(s: Seq<SwStation>) -> Seq<StationView> {
    s.map_values(|st: SwStation| st@)
}

/// The list after taking out the station with identifier `uuid`, the last
/// station moving into its place.
pub open spec fn remove_one(s: Seq<StationView>, uuid: Seq<char>) -> Seq<StationView> {
    if contains_uuid(s, uuid) {
        swap_removed(s, choose|i: int| 0 <= i < s.len() && s[i].uuid == uuid)
    } else {
        s
    }
}

/// The list after removing, in turn, stations with the identifiers of
/// `gone`.
pub open spec fn remove_all_views(s: Seq<StationView>, gone: Seq<StationView>) -> Seq<StationView>
    decreases gone.len(),
{
    if gone.len() == 0 {
        s
    } else {
        remove_one(remove_all_views(s, gone.drop_last()), gone.last().uuid)
    }
}

/// The status that a loaded library has: `Empty` when the list model counts
/// no items, else `Content`.
pub open spec fn loaded_status(s: Seq<StationView>) -> SwLibraryStatus {
    if s.len() as u32 == 0 {
        SwLibraryStatus::Empty
    } else {
        SwLibraryStatus::Content
    }
}

/// What to do next for a database entry that is being loaded.
#[derive(Clone, Copy, Debug, PartialEq, Eq, Structural)]
pub enum LoadAction {
    /// Ask radio-browser.info for the station's current metadata.
    FetchMetadata,
    /// Use the metadata cached in the entry, if it can be read, with the
    /// given orphan flag.
    UseCachedData { is_orphaned: bool },
    /// Delete the entry from the database: it is local and has no data.
    DeleteEntry,
    /// Write the station back to the database, its metadata being fresh.
    UpdateEntry,
}

/// The stations the user saved.
pub struct SwLibrary {
    model: SwStationModel,
    status: SwLibraryStatus,
    /// The radio-browser.info server the library asks for metadata, once
    /// one is known.
    server: Option<String>,
}

impl SwLibrary {
    /// No two stations of the library share an identifier.
    #[verifier::type_invariant]
    closed spec fn distinct_stations(self) -> bool {
        uuids_distinct(self.model@)
    }

    /// The model, an empty one left in its place.
    fn take_model(&mut self) -> (r: SwStationModel)
        ensures
            r@ == old(self).stations(),
            uuids_distinct(r@),
            final(self).stations() == Seq::<StationView>::empty(),
            final(self).spec_status() == old(self).spec_status(),
            final(self).spec_server() == old(self).spec_server(),
    {
        proof {
            use_type_invariant(&*self);
        }
        let mut model = SwStationModel::new();
        std::mem::swap(&mut model, &mut self.model);
        model
    }

    /// The stations of the library.
    pub closed spec fn stations(&self) -> Seq<StationView> {
        self.model@
    }

    pub closed spec fn spec_status(&self) -> SwLibraryStatus {
        self.status
    }

    pub closed spec fn spec_server(&self) -> Option<Seq<char>> {
        match self.server {
            Some(s) => Some(s@),
            None => None,
        }
    }

    /// An empty library, loading, with no server.
    pub fn new() -> (r: Self)
        ensures
            r.stations() == Seq::<StationView>::empty(),
            r.spec_status() == SwLibraryStatus::Loading,
            r.spec_server() is None,
            uuids_distinct(r.stations()),
    {
        SwLibrary { model: SwStationModel::new(), status: SwLibraryStatus::Loading, server: None }
    }

    /// The list of the library's stations.
    pub fn model(&self) -> (r: &SwStationModel)
        ensures
            r@ == self.stations(),
            uuids_distinct(self.stations()),
    {
        proof {
            use_type_invariant(self);
        }
        &self.model
    }

    pub fn status(&self) -> (r: SwLibraryStatus)
        ensures
            r == self.spec_status(),
            uuids_distinct(self.stations()),
    {
        proof {
            use_type_invariant(self);
        }
        self.status
    }

    /// The server the library asks for metadata.
    pub fn server(&self) -> (r: Option<String>)
        ensures
            r matches Some(t) ==> self.spec_server() == Some(t@),
            r is None ==> self.spec_server() is None,
            uuids_distinct(self.stations()),
    {
        proof {
            use_type_invariant(self);
        }
        match &self.server {
            Some(s) => Some(s.clone()),
            None => None,
        }
    }

    /// Whether a server is known to ask for metadata.
    pub fn has_server(&self) -> (r: bool)
        ensures
            r == self.spec_server() is Some,
            uuids_distinct(self.stations()),
    {
        proof {
            use_type_invariant(self);
        }
        self.server.is_some()
    }

    /// Takes a new server, if one is given, and starts loading again: the
    /// list is emptied and the status is `Loading`. A library that had a
    /// server keeps it when none is given.
    pub fn refresh_data(&mut self, server: Option<String>)
        ensures
            final(self).stations() == Seq::<StationView>::empty(),
            final(self).spec_status() == SwLibraryStatus::Loading,
            server matches Some(s) ==> final(self).spec_server() == Some(s@),
            server is None ==> final(self).spec_server() == old(self).spec_server(),
            uuids_distinct(final(self).stations()),
    {
        proof {
            use_type_invariant(&*self);
        }
        if let Some(s) = server {
            self.server = Some(s);
        }
        let _ = self.take_model();
        self.status = SwLibraryStatus::Loading;
    }

    fn update_library_status(&mut self)
        ensures
            final(self).stations() == old(self).stations(),
            final(self).spec_server() == old(self).spec_server(),
            final(self).spec_status() == loaded_status(old(self).stations()),
            uuids_distinct(final(self).stations()),
    {
        proof {
            use_type_invariant(&*self);
        }
        if self.model.n_items() == 0 {
            self.status = SwLibraryStatus::Empty;
        } else {
            self.status = SwLibraryStatus::Content;
        }
    }
}

impl SwLibrary {
    /// Adds stations to the library, skipping those already in it, and
    /// updates the status.
    pub fn add_stations(&mut self, stations: Vec<SwStation>)
        ensures
            final(self).stations() == add_all(old(self).stations(), views(stations@)),
            final(self).spec_status() == loaded_status(final(self).stations()),
            final(self).spec_server() == old(self).spec_server(),
            uuids_distinct(final(self).stations()),
            forall|j: int|
                0 <= j < stations@.len() ==> contains_uuid(final(self).stations(), #[trigger] stations@[j]@.uuid),
            forall|u: Seq<char>| contains_uuid(old(self).stations(), u) ==> contains_uuid(final(self).stations(), u),
    {
        let mut model = self.take_model();
        let mut i: usize = 0;
        let ghost s0 = model@;
        assert(views(stations@.take(0)) =~= Seq::<StationView>::empty());
        while i < stations.len()
            invariant
                i <= stations.len(),
                model@ == add_all(s0, views(stations@.take(i as int))),
                uuids_distinct(model@),
            decreases stations.len() - i,
        {
            let _ = model.add_station(&stations[i]);
            assert(views(stations@.take(i + 1)).drop_last() =~= views(stations@.take(i as int)));
            i = i + 1;
        }
        assert(stations@.take(stations.len() as int) =~= stations@);
        self.model = model;
        self.update_library_status();
        proof {
            law_added_stations_present(s0, views(stations@));
            assert forall|j: int| 0 <= j < stations@.len() implies contains_uuid(
                self.stations(),
                #[trigger] stations@[j]@.uuid,
            ) by {
                assert(views(stations@)[j] == stations@[j]@);
            }
        }
    }

    /// Takes stations out of the library, each by its identifier, and
    /// updates the status.
    pub fn remove_stations(&mut self, stations: Vec<SwStation>)
        requires
            old(self).stations().len() <= 0x1_0000_0000,
        ensures
            final(self).stations() == remove_all_views(old(self).stations(), views(stations@)),
            final(self).spec_status() == loaded_status(final(self).stations()),
            final(self).spec_server() == old(self).spec_server(),
            uuids_distinct(final(self).stations()),
            forall|j: int|
                0 <= j < stations@.len() ==> !contains_uuid(final(self).stations(), #[trigger] stations@[j]@.uuid),
    {
        let mut model = self.take_model();
        let mut i: usize = 0;
        let ghost s0 = model@;
        assert(views(stations@.take(0)) =~= Seq::<StationView>::empty());
        while i < stations.len()
            invariant
                i <= stations.len(),
                model@ == remove_all_views(s0, views(stations@.take(i as int))),
                model@.len() <= s0.len(),
                s0.len() <= 0x1_0000_0000,
                uuids_distinct(model@),
            decreases stations.len() - i,
        {
            let ghost before = model@;
            let _ = model.remove_station(&stations[i]);
            proof {
                let uuid = stations@[i as int]@.uuid;
                if contains_uuid(before, uuid) {
                    let k = choose|k: int| 0 <= k < before.len() && before[k].uuid == uuid;
                    assert(model@ == swap_removed(before, k));
                }
            }
            assert(views(stations@.take(i + 1)).drop_last() =~= views(stations@.take(i as int)));
            i = i + 1;
        }
        assert(stations@.take(stations.len() as int) =~= stations@);
        self.model = model;
        self.update_library_status();
        proof {
            law_removed_stations_absent(s0, views(stations@));
            assert forall|j: int| 0 <= j < stations@.len() implies !contains_uuid(
                self.stations(),
                #[trigger] stations@[j]@.uuid,
            ) by {
                assert(views(stations@)[j] == stations@[j]@);
            }
        }
    }

    /// The first decision for a database entry being loaded: a local entry
    /// is read from its cached data, or deleted when it has none; any other
    /// entry is fetched from radio-browser.info when a server is known, else
    /// read from its cached data.
    pub fn load_station_start(&self, entry: &StationEntry) -> (r: LoadAction)
        ensures
            r == (if entry.is_local {
                if entry.data is Some {
                    LoadAction::UseCachedData { is_orphaned: false }
                } else {
                    LoadAction::DeleteEntry
                }
            } else if self.spec_server() is Some {
                LoadAction::FetchMetadata
            } else {
                LoadAction::UseCachedData { is_orphaned: false }
            }),
            uuids_distinct(self.stations()),
    {
        proof {
            use_type_invariant(self);
        }
        if entry.is_local {
            if entry.data.is_some() {
                LoadAction::UseCachedData { is_orphaned: false }
            } else {
                LoadAction::DeleteEntry
            }
        } else if self.server.is_some() {
            LoadAction::FetchMetadata
        } else {
            LoadAction::UseCachedData { is_orphaned: false }
        }
    }

    /// What follows the answer of radio-browser.info for an entry: fresh
    /// metadata makes a station that is added to the library and written
    /// back; a failure falls back to the cached data, the station being
    /// orphaned when radio-browser.info no longer knows its identifier.
    pub fn load_station_fetched(
        &mut self,
        entry: &StationEntry,
        fetched: Result<StationMetadata, Error>,
        favicon: Option<Vec<u8>>,
    ) -> (r: (LoadAction, Option<SwStation>))
        ensures
            uuids_distinct(final(self).stations()),
            final(self).spec_status() == old(self).spec_status(),
            final(self).spec_server() == old(self).spec_server(),
            match fetched {
                Ok(md) => {
                    &&& r.0 == LoadAction::UpdateEntry
                    &&& r.1 matches Some(st) && st@ == (StationView {
                        uuid: entry.uuid@,
                        is_local: false,
                        is_orphaned: false,
                        metadata: md,
                        favicon: favicon_view(favicon),
                    })
                    &&& final(self).stations() == add_one(old(self).stations(), r.1.unwrap()@)
                },
                Err(e) => {
                    &&& r.0 == LoadAction::UseCachedData { is_orphaned: e is InvalidStation }
                    &&& r.1 is None
                    &&& final(self).stations() == old(self).stations()
                },
            },
    {
        match fetched {
            Ok(metadata) => {
                let station = SwStation::new(entry.uuid.clone(), false, false, metadata, favicon);
                let mut model = self.take_model();
                let _ = model.add_station(&station);
                self.model = model;
                (LoadAction::UpdateEntry, Some(station))
            },
            Err(e) => {
                proof {
                    use_type_invariant(&*self);
                }
                let is_orphaned = match e {
                    Error::InvalidStation(_) => true,
                    _ => false,
                };
                (LoadAction::UseCachedData { is_orphaned }, None)
            },
        }
    }

    /// Adds the station of an entry from its cached metadata, when that
    /// could be read; nothing happens otherwise.
    pub fn load_station_cached(
        &mut self,
        entry: &StationEntry,
        cached: Option<StationMetadata>,
        is_orphaned: bool,
        favicon: Option<Vec<u8>>,
    ) -> (r: Option<SwStation>)
        ensures
            uuids_distinct(final(self).stations()),
            final(self).spec_status() == old(self).spec_status(),
            final(self).spec_server() == old(self).spec_server(),
            match cached {
                Some(md) => {
                    &&& r matches Some(st) && st@ == (StationView {
                        uuid: entry.uuid@,
                        is_local: entry.is_local,
                        is_orphaned: is_orphaned,
                        metadata: md,
                        favicon: favicon_view(favicon),
                    })
                    &&& final(self).stations() == add_one(old(self).stations(), r.unwrap()@)
                },
                None => r is None && final(self).stations() == old(self).stations(),
            },
    {
        match cached {
            Some(metadata) => {
                let station = SwStation::new(entry.uuid.clone(), entry.is_local, is_orphaned, metadata, favicon);
                let mut model = self.take_model();
                let _ = model.add_station(&station);
                self.model = model;
                Some(station)
            },
            None => {
                proof {
                    use_type_invariant(&*self);
                }
                None
            },
        }
    }

    /// Ends loading: the status becomes `Empty` or `Content`.
    pub fn finish_loading(&mut self)
        ensures
            final(self).stations() == old(self).stations(),
            final(self).spec_server() == old(self).spec_server(),
            final(self).spec_status() == loaded_status(old(self).stations()),
            uuids_distinct(final(self).stations()),
    {
        self.update_library_status();
    }
}

// ---------------------------------------------------------------------------
// Laws

/// Adding a station that is not in the list and then removing it by its
/// identifier gives back the list as it was.
pub proof fn law_add_then_remove(s: Seq<StationView>, st: StationView)
    requires
        !contains_uuid(s, st.uuid),
    ensures
        remove_one(add_one(s, st), st.uuid) == s,
{
    let t = s.push(st);
    assert(t[s.len() as int].uuid == st.uuid);
    assert(contains_uuid(t, st.uuid));
    let i = choose|i: int| 0 <= i < t.len() && t[i].uuid == st.uuid;
    if i < s.len() {
        assert(s[i].uuid == st.uuid);
        assert(false);
    }
    assert(swap_removed(t, i) =~= s);
}

/// A station in the list stays in it when one more is added.
proof fn lemma_add_one_keeps(t: Seq<StationView>, st: StationView, uuid: Seq<char>)
    requires
        contains_uuid(t, uuid),
    ensures
        contains_uuid(add_one(t, st), uuid),
{
    let k = choose|k: int| 0 <= k < t.len() && t[k].uuid == uuid;
    if !contains_uuid(t, st.uuid) {
        assert(t.push(st)[k].uuid == uuid);
    }
}

/// After adding stations, the list has a station with the identifier of
/// each one added (the station itself, or one that was there before with
/// its identifier), and still has every station it had.
pub proof fn law_added_stations_present(s: Seq<StationView>, new: Seq<StationView>)
    ensures
        forall|j: int| 0 <= j < new.len() ==> contains_uuid(add_all(s, new), #[trigger] new[j].uuid),
        forall|u: Seq<char>| contains_uuid(s, u) ==> contains_uuid(add_all(s, new), u),
    decreases new.len(),
{
    if new.len() > 0 {
        let init = new.drop_last();
        law_added_stations_present(s, init);
        let t = add_all(s, init);
        let last = new.last();
        assert(contains_uuid(add_one(t, last), last.uuid)) by {
            if !contains_uuid(t, last.uuid) {
                assert(t.push(last)[t.len() as int].uuid == last.uuid);
            }
        }
        assert forall|j: int| 0 <= j < new.len() implies contains_uuid(add_all(s, new), #[trigger] new[j].uuid) by {
            if j < new.len() - 1 {
                assert(new[j] == init[j]);
                lemma_add_one_keeps(t, last, new[j].uuid);
            }
        }
        assert forall|u: Seq<char>| contains_uuid(s, u) implies contains_uuid(add_all(s, new), u) by {
            lemma_add_one_keeps(t, last, u);
        }
    }
}

/// In a list without repeated identifiers, taking out one station by its
/// identifier keeps identifiers distinct, removes that identifier, and
/// brings in no identifier that was absent.
proof fn lemma_remove_one(s: Seq<StationView>, uuid: Seq<char>)
    requires
        crate::station_model::uuids_distinct(s),
    ensures
        crate::station_model::uuids_distinct(remove_one(s, uuid)),
        !contains_uuid(remove_one(s, uuid), uuid),
        forall|u: Seq<char>| !contains_uuid(s, u) ==> !contains_uuid(remove_one(s, uuid), u),
{
    if contains_uuid(s, uuid) {
        let i = choose|i: int| 0 <= i < s.len() && s[i].uuid == uuid;
        let t = swap_removed(s, i);
        let n = s.len() - 1;
        assert forall|k: int| 0 <= k < t.len() implies #[trigger] t[k] == (if k == i {
            s[n]
        } else {
            s[k]
        }) by {}
        assert forall|a: int, b: int| 0 <= a < t.len() && 0 <= b < t.len() && a != b implies t[a].uuid
            != t[b].uuid by {
            let ia = if a == i { n } else { a };
            let ib = if b == i { n } else { b };
            assert(t[a] == s[ia]);
            assert(t[b] == s[ib]);
        }
        assert forall|k: int| 0 <= k < t.len() implies t[k].uuid != uuid by {
            let ik = if k == i { n } else { k };
            assert(t[k] == s[ik]);
            assert(ik != i);
        }
        assert forall|u: Seq<char>| !contains_uuid(s, u) implies !contains_uuid(t, u) by {
            assert forall|k: int| 0 <= k < t.len() implies t[k].uuid != u by {
                let ik = if k == i { n } else { k };
                assert(t[k] == s[ik]);
            }
        }
    }
}

/// In a list without repeated identifiers, removing stations leaves none
/// with an identifier of a removed station, and identifiers stay distinct.
pub proof fn law_removed_stations_absent(s: Seq<StationView>, gone: Seq<StationView>)
    requires
        crate::station_model::uuids_distinct(s),
    ensures
        crate::station_model::uuids_distinct(remove_all_views(s, gone)),
        forall|j: int| 0 <= j < gone.len() ==> !contains_uuid(remove_all_views(s, gone), #[trigger] gone[j].uuid),
    decreases gone.len(),
{
    if gone.len() > 0 {
        let init = gone.drop_last();
        law_removed_stations_absent(s, init);
        let t = remove_all_views(s, init);
        lemma_remove_one(t, gone.last().uuid);
        assert forall|j: int| 0 <= j < gone.len() implies !contains_uuid(remove_all_views(s, gone), #[trigger] gone[j].uuid) by {
            if j < gone.len() - 1 {
                assert(gone[j] == init[j]);
            }
        }
    }
}

/// Adding stations brings in nothing else: each station of the list after
/// adding was in the list before or is one of those added.
pub proof fn law_added_stations_come_from(s: Seq<StationView>, new: Seq<StationView>)
    ensures
        forall|i: int|
            0 <= i < add_all(s, new).len() ==> s.contains(#[trigger] add_all(s, new)[i]) || new.contains(
                add_all(s, new)[i],
            ),
    decreases new.len(),
{
    if new.len() > 0 {
        let init = new.drop_last();
        let last = new.last();
        law_added_stations_come_from(s, init);
        let t = add_all(s, init);
        assert forall|i: int| 0 <= i < add_all(s, new).len() implies s.contains(
            #[trigger] add_all(s, new)[i],
        ) || new.contains(add_all(s, new)[i]) by {
            let x = add_all(s, new)[i];
            if i < t.len() {
                assert(x == t[i]);
                if init.contains(x) {
                    let j = choose|j: int| 0 <= j < init.len() && init[j] == x;
                    assert(new[j] == x);
                }
            } else {
                assert(x == last);
                assert(new[new.len() - 1] == x);
            }
        }
    }
}

/// Adding stations keeps, unchanged, each added station whose identifier
/// was neither in the list nor among the stations added before it.
pub proof fn law_new_stations_added_unchanged(s: Seq<StationView>, new: Seq<StationView>)
    ensures
        forall|j: int|
            0 <= j < new.len() && !contains_uuid(s, new[j].uuid) && (forall|k: int|
                0 <= k < j ==> new[k].uuid != new[j].uuid) ==> add_all(s, new).contains(#[trigger] new[j]),
    decreases new.len(),
{
    if new.len() > 0 {
        let init = new.drop_last();
        let last = new.last();
        law_new_stations_added_unchanged(s, init);
        law_added_stations_come_from(s, init);
        let t = add_all(s, init);
        assert forall|j: int|
            0 <= j < new.len() && !contains_uuid(s, new[j].uuid) && (forall|k: int|
                0 <= k < j ==> new[k].uuid != new[j].uuid) implies add_all(s, new).contains(
            #[trigger] new[j],
        ) by {
            if j < new.len() - 1 {
                assert(new[j] == init[j]);
                assert forall|k: int| 0 <= k < j implies init[k].uuid != init[j].uuid by {
                    assert(init[k] == new[k]);
                }
                assert(t.contains(init[j]));
                let i = choose|i: int| 0 <= i < t.len() && t[i] == init[j];
                if !contains_uuid(t, last.uuid) {
                    assert(t.push(last)[i] == new[j]);
                }
            } else {
                assert(new[j] == last);
                if contains_uuid(t, last.uuid) {
                    let i = choose|i: int| 0 <= i < t.len() && t[i].uuid == last.uuid;
                    let x = t[i];
                    if s.contains(x) {
                        let m = choose|m: int| 0 <= m < s.len() && s[m] == x;
                        assert(s[m].uuid == last.uuid);
                    } else {
                        assert(init.contains(x));
                        let k = choose|k: int| 0 <= k < init.len() && init[k] == x;
                        assert(new[k] == x);
                    }
                    assert(false);
                }
                assert(t.push(last)[t.len() as int] == last);
            }
        }
    }
}

} // verus!
