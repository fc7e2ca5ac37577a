use std::cmp::Ordering;

use shortwave::station::{StationMetadata, SwStation};
use shortwave::station_sorter::{SwSorting, SwStationSorter};

fn station(name: &str, country: &str, votes: i32, bitrate: i32) -> SwStation {
    let md = StationMetadata {
        stationuuid: name.to_string(),
        name: name.to_string(),
        language: "german".to_string(),
        country: country.to_string(),
        state: String::new(),
        codec: "MP3".to_string(),
        tags: String::new(),
        votes,
        bitrate,
        favicon: None,
    };
    SwStation::new(name.to_string(), false, false, md, None)
}

#[test]
fn default_sorting_keeps_order() {
    let sorter = SwStationSorter::new();
    assert_eq!(sorter.sorting(), SwSorting::Default);
    assert!(!sorter.descending());
    let a = station("A", "x", 1, 1);
    let b = station("B", "y", 2, 2);
    assert_eq!(sorter.compare(&a, &b), Ordering::Equal);
}

#[test]
fn sorting_by_name_is_lexicographic() {
    let mut sorter = SwStationSorter::default();
    sorter.set_sorting(SwSorting::Name);
    let a = station("Abc", "x", 0, 0);
    let b = station("Abd", "x", 0, 0);
    let c = station("Ab", "x", 0, 0);
    assert_eq!(sorter.compare(&a, &b), Ordering::Less);
    assert_eq!(sorter.compare(&b, &a), Ordering::Greater);
    assert_eq!(sorter.compare(&c, &a), Ordering::Less);
    assert_eq!(sorter.compare(&a, &a), Ordering::Equal);
    assert_eq!("Abc".cmp("Abd"), Ordering::Less);
}

#[test]
fn descending_reverses_the_order() {
    let mut sorter = SwStationSorter::new();
    sorter.set_sorting(SwSorting::Votes);
    let few = station("A", "x", 3, 0);
    let many = station("B", "x", 70, 0);
    assert_eq!(sorter.compare(&few, &many), Ordering::Less);
    sorter.set_descending(true);
    assert_eq!(sorter.compare(&few, &many), Ordering::Greater);
    assert_eq!(sorter.sorting(), SwSorting::Votes);
}

#[test]
fn sorting_by_each_field() {
    let a = station("A", "Austria", 10, 128);
    let b = station("B", "Belgium", 5, 320);
    assert_eq!(SwStationSorter::station_cmp(&a, &b, SwSorting::Country, false), Ordering::Less);
    assert_eq!(SwStationSorter::station_cmp(&a, &b, SwSorting::Votes, false), Ordering::Greater);
    assert_eq!(SwStationSorter::station_cmp(&a, &b, SwSorting::Bitrate, false), Ordering::Less);
    assert_eq!(SwStationSorter::station_cmp(&a, &b, SwSorting::Language, false), Ordering::Equal);
    assert_eq!(SwStationSorter::station_cmp(&a, &b, SwSorting::Codec, true), Ordering::Equal);
    assert_eq!(SwStationSorter::station_cmp(&a, &b, SwSorting::Bitrate, true), Ordering::Greater);
}

#[test]
fn non_ascii_names_sort_by_character() {
    let a = station("Zürich", "x", 0, 0);
    let b = station("Zz", "x", 0, 0);
    assert_eq!(SwStationSorter::station_cmp(&a, &b, SwSorting::Name, false), "Zürich".cmp("Zz"));
}

#[test]
fn sorting_names_round_trip() {
    for s in [
        SwSorting::Default,
        SwSorting::Name,
        SwSorting::Language,
        SwSorting::Country,
        SwSorting::State,
        SwSorting::Codec,
        SwSorting::Votes,
        SwSorting::Bitrate,
    ] {
        assert_eq!(SwSorting::from_name(s.name()), Some(s));
    }
    assert_eq!(SwSorting::from_name("votes"), None);
    assert_eq!(SwSorting::default(), SwSorting::Default);
}
