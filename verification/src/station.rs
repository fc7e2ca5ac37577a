//! A radio station: the metadata that radio-browser.info publishes for it,
//! and what the library knows about it besides.
use vstd::prelude::*;

verus! {

/// What radio-browser.info publishes about a station (the fields that the
/// application reads).
#[derive(Debug)]
pub struct StationMetadata {
    pub stationuuid: String,
    pub name: String,
    pub language: String,
    pub country: String,
    pub state: String,
    pub codec: String,
    pub tags: String,
    pub votes: i32,
    pub bitrate: i32,
    /// Address of the station's icon, if it has one.
    pub favicon: Option<String>,
}

impl Clone for StationMetadata {
    fn clone(&self) -> (r: Self)
        ensures
            r == *self,
    {
        let favicon = match &self.favicon {
            Some(f) => Some(f.clone()),
            None => None,
        };
        StationMetadata {
            stationuuid: self.stationuuid.clone(),
            name: self.name.clone(),
            language: self.language.clone(),
            country: self.country.clone(),
            state: self.state.clone(),
            codec: self.codec.clone(),
            tags: self.tags.clone(),
            votes: self.votes,
            bitrate: self.bitrate,
            favicon,
        }
    }
}

/// A station as the library holds it.
pub struct SwStation {
    pub uuid: String,
    /// Created by the user, not known to radio-browser.info.
    pub is_local: bool,
    /// No longer known to radio-browser.info.
    pub is_orphaned: bool,
    pub metadata: StationMetadata,
    /// The encoded image of a custom icon, if one was loaded.
    pub favicon: Option<Vec<u8>>,
}

/// A byte vector with the same contents.
fn copy_bytes(v: &Vec<u8>) -> (r: Vec<u8>)
    ensures
        r@ == v@,
{
    let mut r: Vec<u8> = Vec::new();
    let mut i: usize = 0;
    while i < v.len()
        invariant
            i <= v.len(),
            r@ == v@.subrange(0, i as int),
        decreases v.len() - i,
    {
        r.push(v[i]);
        i = i + 1;
        assert(r@ =~= v@.subrange(0, i as int));
    }
    assert(v@.subrange(0, v.len() as int) =~= v@);
    r
}

/// A station as a value: its identifier's characters, its flags, its
/// metadata and the bytes of its icon.
pub struct StationView {
    pub uuid: Seq<char>,
    pub is_local: bool,
    pub is_orphaned: bool,
    pub metadata: StationMetadata,
    pub favicon: Option<Seq<u8>>,
}

/// The bytes of an optional icon.
pub open spec fn favicon_view(f: Option<Vec<u8>>) -> Option<Seq<u8>> {
    match f {
        Some(v) => Some(v@),
        None => None,
    }
}

impl View for SwStation {
    type V = StationView;

    open spec fn view(&self) -> StationView {
        StationView {
            uuid: self.uuid@,
            is_local: self.is_local,
            is_orphaned: self.is_orphaned,
            metadata: self.metadata,
            favicon: favicon_view(self.favicon),
        }
    }
}

impl Clone for SwStation {
    fn clone(&self) -> (r: Self)
        ensures
            r@ == self@,
            r.uuid == self.uuid,
            r.metadata == self.metadata,
    {
        let favicon = match &self.favicon {
            Some(f) => Some(copy_bytes(f)),
            None => None,
        };
        SwStation {
            uuid: self.uuid.clone(),
            is_local: self.is_local,
            is_orphaned: self.is_orphaned,
            metadata: self.metadata.clone(),
            favicon,
        }
    }
}

impl SwStation {
    /// A station with the given identifier, flags, metadata and icon.
    pub fn new(
        uuid: String,
        is_local: bool,
        is_orphaned: bool,
        metadata: StationMetadata,
        favicon: Option<Vec<u8>>,
    ) -> (r: Self)
        ensures
            r.uuid == uuid,
            r.is_local == is_local,
            r.is_orphaned == is_orphaned,
            r.metadata == metadata,
            r.favicon == favicon,
    {
        SwStation { uuid, is_local, is_orphaned, metadata, favicon }
    }

    pub fn uuid(&self) -> (r: String)
        ensures
            r == self.uuid,
    {
        self.uuid.clone()
    }

    pub fn is_local(&self) -> (r: bool)
        ensures
            r == self.is_local,
    {
        self.is_local
    }

    pub fn is_orphaned(&self) -> (r: bool)
        ensures
            r == self.is_orphaned,
    {
        self.is_orphaned
    }

    pub fn metadata(&self) -> (r: StationMetadata)
        ensures
            r == self.metadata,
    {
        self.metadata.clone()
    }

    pub fn favicon(&self) -> (r: Option<Vec<u8>>)
        ensures
            favicon_view(r) == self@.favicon,
    {
        match &self.favicon {
            Some(f) => Some(copy_bytes(f)),
            None => None,
        }
    }
}

} // verus!
