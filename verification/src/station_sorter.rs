//! The order in which station lists are shown: by one metadata field,
//! ascending or descending.
use std::cmp::Ordering;
use vstd::prelude::*;
use vstd::string::*;

use crate::station::{StationMetadata, SwStation};
use crate::text::{
    compare_text, flipped, lemma_lex_antisymmetric, lemma_lex_equal, lemma_lex_reflexive,
    lemma_lex_transitive, lex_order, text_eq,
};

verus! {

/// The field by which stations are sorted.
#[derive(Clone, Copy, Debug, PartialEq, Eq, Structural)]
pub enum SwSorting {
    Default,
    Name,
    Language,
    Country,
    State,
    Codec,
    Votes,
    Bitrate,
}

/// The name of a sorting, as settings store it.
pub open spec fn sorting_name(s: SwSorting) -> Seq<char> {
    match s {
        SwSorting::Default => "Default"@,
        SwSorting::Name => "Name"@,
        SwSorting::Language => "Language"@,
        SwSorting::Country => "Country"@,
        SwSorting::State => "State"@,
        SwSorting::Codec => "Codec"@,
        SwSorting::Votes => "Votes"@,
        SwSorting::Bitrate => "Bitrate"@,
    }
}

impl SwSorting {
    /// The sorting with this name, if there is one.
    pub fn from_name(s: &str) -> (r: Option<SwSorting>)
        ensures
            r matches Some(x) ==> sorting_name(x) == s@,
            r is None ==> forall|x: SwSorting| sorting_name(x) != s@,
    {
        if text_eq(s, "Default") {
            Some(SwSorting::Default)
        } else if text_eq(s, "Name") {
            Some(SwSorting::Name)
        } else if text_eq(s, "Language") {
            Some(SwSorting::Language)
        } else if text_eq(s, "Country") {
            Some(SwSorting::Country)
        } else if text_eq(s, "State") {
            Some(SwSorting::State)
        } else if text_eq(s, "Codec") {
            Some(SwSorting::Codec)
        } else if text_eq(s, "Votes") {
            Some(SwSorting::Votes)
        } else if text_eq(s, "Bitrate") {
            Some(SwSorting::Bitrate)
        } else {
            None
        }
    }

    /// The name of the sorting.
    pub fn name(&self) -> (r: &'static str)
        ensures
            r@ == sorting_name(*self),
    {
        match self {
            SwSorting::Default => "Default",
            SwSorting::Name => "Name",
            SwSorting::Language => "Language",
            SwSorting::Country => "Country",
            SwSorting::State => "State",
            SwSorting::Codec => "Codec",
            SwSorting::Votes => "Votes",
            SwSorting::Bitrate => "Bitrate",
        }
    }
}

impl Default for SwSorting {
    fn default() -> (r: Self)
        ensures
            r == SwSorting::Default,
    {
        SwSorting::Default
    }
}

/// The order of two integers.
pub open spec fn int_order(x: i32, y: i32) -> Ordering {
    if x < y {
        Ordering::Less
    } else if y < x {
        Ordering::Greater
    } else {
        Ordering::Equal
    }
}

/// The order of two stations' metadata by the given field, ascending.
pub open spec fn metadata_order(a: StationMetadata, b: StationMetadata, sorting: SwSorting) -> Ordering {
    match sorting {
        SwSorting::Default => Ordering::Equal,
        SwSorting::Name => lex_order(a.name@, b.name@),
        SwSorting::Language => lex_order(a.language@, b.language@),
        SwSorting::Country => lex_order(a.country@, b.country@),
        SwSorting::State => lex_order(a.state@, b.state@),
        SwSorting::Codec => lex_order(a.codec@, b.codec@),
        SwSorting::Votes => int_order(a.votes, b.votes),
        SwSorting::Bitrate => int_order(a.bitrate, b.bitrate),
    }
}

/// The order of two stations under the given sorting: ascending, or, when
/// `descending` holds, the same field compared the other way round.
pub open spec fn station_order(a: SwStation, b: SwStation, sorting: SwSorting, descending: bool) -> Ordering {
    if descending {
        metadata_order(b.metadata, a.metadata, sorting)
    } else {
        metadata_order(a.metadata, b.metadata, sorting)
    }
}

fn compare_int(x: i32, y: i32) -> (r: Ordering)
    ensures
        r == int_order(x, y),
{
    if x < y {
        Ordering::Less
    } else if y < x {
        Ordering::Greater
    } else {
        Ordering::Equal
    }
}

fn compare_metadata(a: &StationMetadata, b: &StationMetadata, sorting: SwSorting) -> (r: Ordering)
    ensures
        r == metadata_order(*a, *b, sorting),
{
    match sorting {
        SwSorting::Default => Ordering::Equal,
        SwSorting::Name => compare_text(a.name.as_str(), b.name.as_str()),
        SwSorting::Language => compare_text(a.language.as_str(), b.language.as_str()),
        SwSorting::Country => compare_text(a.country.as_str(), b.country.as_str()),
        SwSorting::State => compare_text(a.state.as_str(), b.state.as_str()),
        SwSorting::Codec => compare_text(a.codec.as_str(), b.codec.as_str()),
        SwSorting::Votes => compare_int(a.votes, b.votes),
        SwSorting::Bitrate => compare_int(a.bitrate, b.bitrate),
    }
}

/// Sorts stations by one metadata field; `descending` reverses the order.
pub struct SwStationSorter {
    pub descending: bool,
    pub sorting: SwSorting,
}

impl SwStationSorter {
    /// A sorter that keeps the given order (`Default`), ascending.
    pub fn new() -> (r: Self)
        ensures
            r.descending == false,
            r.sorting == SwSorting::Default,
    {
        SwStationSorter { descending: false, sorting: SwSorting::Default }
    }

    pub fn descending(&self) -> (r: bool)
        ensures
            r == self.descending,
    {
        self.descending
    }

    pub fn set_descending(&mut self, descending: bool)
        ensures
            final(self).descending == descending,
            final(self).sorting == old(self).sorting,
    {
        self.descending = descending;
    }

    pub fn sorting(&self) -> (r: SwSorting)
        ensures
            r == self.sorting,
    {
        self.sorting
    }

    pub fn set_sorting(&mut self, sorting: SwSorting)
        ensures
            final(self).sorting == sorting,
            final(self).descending == old(self).descending,
    {
        self.sorting = sorting;
    }

    /// Compares two stations by the sorter's field and direction.
    pub fn compare(&self, a: &SwStation, b: &SwStation) -> (r: Ordering)
        ensures
            r == station_order(*a, *b, self.sorting, self.descending),
    {
        Self::station_cmp(a, b, self.sorting, self.descending)
    }

    /// Compares two stations by `sorting`; with `descending` the two are
    /// swapped before they are compared.
    pub fn station_cmp(a: &SwStation, b: &SwStation, sorting: SwSorting, descending: bool) -> (r: Ordering)
        ensures
            r == station_order(*a, *b, sorting, descending),
    {
        if descending {
            compare_metadata(&b.metadata, &a.metadata, sorting)
        } else {
            compare_metadata(&a.metadata, &b.metadata, sorting)
        }
    }
}

impl Default for SwStationSorter {
    fn default() -> (r: Self)
        ensures
            r.descending == false,
            r.sorting == SwSorting::Default,
    {
        Self::new()
    }
}

/// Descending order is ascending order reversed: for every field, comparing
/// two stations in descending order gives the opposite of comparing them in
/// ascending order.
pub proof fn law_descending_reverses(a: SwStation, b: SwStation, sorting: SwSorting)
    ensures
        station_order(a, b, sorting, true) == flipped(station_order(a, b, sorting, false)),
{
    lemma_metadata_antisymmetric(a.metadata, b.metadata, sorting);
}

/// Comparing a station with itself gives `Equal`, whatever the sorting.
pub proof fn law_order_reflexive(a: SwStation, sorting: SwSorting, descending: bool)
    ensures
        station_order(a, a, sorting, descending) == Ordering::Equal,
{
    lemma_lex_reflexive(a.metadata.name@);
    lemma_lex_reflexive(a.metadata.language@);
    lemma_lex_reflexive(a.metadata.country@);
    lemma_lex_reflexive(a.metadata.state@);
    lemma_lex_reflexive(a.metadata.codec@);
}

proof fn lemma_metadata_antisymmetric(a: StationMetadata, b: StationMetadata, sorting: SwSorting)
    ensures
        metadata_order(a, b, sorting) == flipped(metadata_order(b, a, sorting)),
{
    lemma_lex_antisymmetric(a.name@, b.name@);
    lemma_lex_antisymmetric(a.language@, b.language@);
    lemma_lex_antisymmetric(a.country@, b.country@);
    lemma_lex_antisymmetric(a.state@, b.state@);
    lemma_lex_antisymmetric(a.codec@, b.codec@);
}

/// Swapping the two stations flips the result of the comparison.
pub proof fn law_order_antisymmetric(a: SwStation, b: SwStation, sorting: SwSorting, descending: bool)
    ensures
        station_order(a, b, sorting, descending) == flipped(station_order(b, a, sorting, descending)),
{
    lemma_metadata_antisymmetric(a.metadata, b.metadata, sorting);
}

proof fn lemma_metadata_transitive(a: StationMetadata, b: StationMetadata, c: StationMetadata, sorting: SwSorting)
    requires
        metadata_order(a, b, sorting) == Ordering::Less,
        metadata_order(b, c, sorting) == Ordering::Less,
    ensures
        metadata_order(a, c, sorting) == Ordering::Less,
{
    match sorting {
        SwSorting::Name => lemma_lex_transitive(a.name@, b.name@, c.name@),
        SwSorting::Language => lemma_lex_transitive(a.language@, b.language@, c.language@),
        SwSorting::Country => lemma_lex_transitive(a.country@, b.country@, c.country@),
        SwSorting::State => lemma_lex_transitive(a.state@, b.state@, c.state@),
        SwSorting::Codec => lemma_lex_transitive(a.codec@, b.codec@, c.codec@),
        _ => {},
    }
}

/// If `a` comes before `b` and `b` before `c`, then `a` comes before `c`.
pub proof fn law_order_transitive(
    a: SwStation,
    b: SwStation,
    c: SwStation,
    sorting: SwSorting,
    descending: bool,
)
    requires
        station_order(a, b, sorting, descending) == Ordering::Less,
        station_order(b, c, sorting, descending) == Ordering::Less,
    ensures
        station_order(a, c, sorting, descending) == Ordering::Less,
{
    if descending {
        lemma_metadata_transitive(c.metadata, b.metadata, a.metadata, sorting);
    } else {
        lemma_metadata_transitive(a.metadata, b.metadata, c.metadata, sorting);
    }
}

proof fn lemma_metadata_equal(a: StationMetadata, b: StationMetadata, sorting: SwSorting)
    ensures
        metadata_order(a, b, sorting) == Ordering::Equal <==> match sorting {
            SwSorting::Default => true,
            SwSorting::Name => a.name@ == b.name@,
            SwSorting::Language => a.language@ == b.language@,
            SwSorting::Country => a.country@ == b.country@,
            SwSorting::State => a.state@ == b.state@,
            SwSorting::Codec => a.codec@ == b.codec@,
            SwSorting::Votes => a.votes == b.votes,
            SwSorting::Bitrate => a.bitrate == b.bitrate,
        },
{
    lemma_lex_equal(a.name@, b.name@);
    lemma_lex_equal(a.language@, b.language@);
    lemma_lex_equal(a.country@, b.country@);
    lemma_lex_equal(a.state@, b.state@);
    lemma_lex_equal(a.codec@, b.codec@);
}

/// Stations that compare `Equal` are interchangeable: if `a` and `b`
/// compare `Equal`, then `a` compares with any `c` as `b` does.
pub proof fn law_equal_interchangeable(
    a: SwStation,
    b: SwStation,
    c: SwStation,
    sorting: SwSorting,
    descending: bool,
)
    requires
        station_order(a, b, sorting, descending) == Ordering::Equal,
    ensures
        station_order(a, c, sorting, descending) == station_order(b, c, sorting, descending),
{
    lemma_metadata_equal(a.metadata, b.metadata, sorting);
    lemma_metadata_equal(b.metadata, a.metadata, sorting);
}

/// The names of the sortings are told apart by their length and their
/// first character.
proof fn lemma_names_told_apart()
    ensures
        "Default"@.len() == 7 && "Default"@[0] == 'D',
        "Name"@.len() == 4 && "Name"@[0] == 'N',
        "Language"@.len() == 8 && "Language"@[0] == 'L',
        "Country"@.len() == 7 && "Country"@[0] == 'C',
        "State"@.len() == 5 && "State"@[0] == 'S',
        "Codec"@.len() == 5 && "Codec"@[0] == 'C',
        "Votes"@.len() == 5 && "Votes"@[0] == 'V',
        "Bitrate"@.len() == 7 && "Bitrate"@[0] == 'B',
{
    reveal_strlit("Default");
    reveal_strlit("Name");
    reveal_strlit("Language");
    reveal_strlit("Country");
    reveal_strlit("State");
    reveal_strlit("Codec");
    reveal_strlit("Votes");
    reveal_strlit("Bitrate");
}

/// A sorting is named after the field it sorts by, as the settings name
/// it: the sorting named "Name" compares station names, "Language" their
/// languages, "Country" their countries, "State" their states, "Codec" their
/// codecs, "Votes" and "Bitrate" those numbers, and "Default" keeps the
/// order as it is.
pub proof fn law_sorting_named_after_its_field(s: SwSorting, a: StationMetadata, b: StationMetadata)
    ensures
        sorting_name(s) == "Default"@ ==> metadata_order(a, b, s) == Ordering::Equal,
        sorting_name(s) == "Name"@ ==> metadata_order(a, b, s) == lex_order(a.name@, b.name@),
        sorting_name(s) == "Language"@ ==> metadata_order(a, b, s) == lex_order(a.language@, b.language@),
        sorting_name(s) == "Country"@ ==> metadata_order(a, b, s) == lex_order(a.country@, b.country@),
        sorting_name(s) == "State"@ ==> metadata_order(a, b, s) == lex_order(a.state@, b.state@),
        sorting_name(s) == "Codec"@ ==> metadata_order(a, b, s) == lex_order(a.codec@, b.codec@),
        sorting_name(s) == "Votes"@ ==> metadata_order(a, b, s) == int_order(a.votes, b.votes),
        sorting_name(s) == "Bitrate"@ ==> metadata_order(a, b, s) == int_order(a.bitrate, b.bitrate),
{
    lemma_names_told_apart();
}

/// Each name belongs to at most one sorting, so reading a sorting back from
/// its name gives the same sorting.
pub proof fn law_sorting_names_distinct(x: SwSorting, y: SwSorting)
    ensures
        sorting_name(x) == sorting_name(y) ==> x == y,
{
    lemma_names_told_apart();
}

} // verus!
