use shortwave::client::Error;
use shortwave::library::{LoadAction, StationEntry, SwLibrary, SwLibraryStatus};
use shortwave::station::{StationMetadata, SwStation};

fn metadata(uuid: &str, name: &str) -> StationMetadata {
    StationMetadata {
        stationuuid: uuid.to_string(),
        name: name.to_string(),
        language: String::new(),
        country: String::new(),
        state: String::new(),
        codec: String::new(),
        tags: String::new(),
        votes: 0,
        bitrate: 0,
        favicon: None,
    }
}

fn station(uuid: &str) -> SwStation {
    SwStation::new(uuid.to_string(), false, false, metadata(uuid, uuid), None)
}

fn entry(uuid: &str, is_local: bool, data: Option<&str>) -> StationEntry {
    StationEntry {
        uuid: uuid.to_string(),
        is_local,
        data: data.map(|d| d.to_string()),
        favicon: None,
    }
}

#[test]
fn new_library_is_loading() {
    let library = SwLibrary::new();
    assert_eq!(library.status(), SwLibraryStatus::Loading);
    assert_eq!(library.model().n_items(), 0);
    assert!(!library.has_server());
    assert_eq!(SwLibraryStatus::default(), SwLibraryStatus::Loading);
}

#[test]
fn adding_and_removing_updates_the_status() {
    let mut library = SwLibrary::new();
    library.add_stations(vec![station("a"), station("b"), station("a")]);
    assert_eq!(library.model().n_items(), 2);
    assert_eq!(library.status(), SwLibraryStatus::Content);
    library.remove_stations(vec![station("a")]);
    assert_eq!(library.model().n_items(), 1);
    assert_eq!(library.status(), SwLibraryStatus::Content);
    library.remove_stations(vec![station("b"), station("zzz")]);
    assert_eq!(library.model().n_items(), 0);
    assert_eq!(library.status(), SwLibraryStatus::Empty);
}

#[test]
fn added_stations_are_present() {
    let mut library = SwLibrary::new();
    library.add_stations(vec![station("a")]);
    library.add_stations(vec![station("b"), station("c")]);
    let uuids: Vec<String> = (0..3).map(|i| library.model().item(i).unwrap().uuid()).collect();
    assert_eq!(uuids, vec!["a", "b", "c"]);
}

#[test]
fn refresh_empties_and_keeps_the_known_server() {
    let mut library = SwLibrary::new();
    library.add_stations(vec![station("a")]);
    library.refresh_data(Some("https://example.org/".to_string()));
    assert!(library.has_server());
    assert_eq!(library.status(), SwLibraryStatus::Loading);
    assert_eq!(library.model().n_items(), 0);
    library.refresh_data(None);
    assert!(library.has_server());
}

#[test]
fn local_entries_are_read_from_the_cache_or_deleted() {
    let library = SwLibrary::new();
    assert_eq!(
        library.load_station_start(&entry("a", true, Some("{}"))),
        LoadAction::UseCachedData { is_orphaned: false }
    );
    assert_eq!(library.load_station_start(&entry("a", true, None)), LoadAction::DeleteEntry);
}

#[test]
fn other_entries_are_fetched_when_a_server_is_known() {
    let mut library = SwLibrary::new();
    assert_eq!(
        library.load_station_start(&entry("a", false, None)),
        LoadAction::UseCachedData { is_orphaned: false }
    );
    library.refresh_data(Some("https://example.org/".to_string()));
    assert_eq!(library.load_station_start(&entry("a", false, None)), LoadAction::FetchMetadata);
}

#[test]
fn fetched_metadata_adds_the_station() {
    let mut library = SwLibrary::new();
    let (action, st) = library.load_station_fetched(&entry("a", false, None), Ok(metadata("a", "Fresh")), None);
    assert_eq!(action, LoadAction::UpdateEntry);
    let st = st.unwrap();
    assert_eq!(st.uuid(), "a");
    assert!(!st.is_local() && !st.is_orphaned());
    assert_eq!(library.model().item(0).unwrap().metadata().name, "Fresh");
    assert_eq!(library.status(), SwLibraryStatus::Loading);
    library.finish_loading();
    assert_eq!(library.status(), SwLibraryStatus::Content);
}

#[test]
fn an_unknown_station_falls_back_to_the_cache_as_orphan() {
    let mut library = SwLibrary::new();
    let (action, st) = library.load_station_fetched(
        &entry("a", false, Some("{}")),
        Err(Error::InvalidStation("a".to_string())),
        None,
    );
    assert_eq!(action, LoadAction::UseCachedData { is_orphaned: true });
    assert!(st.is_none());
    let (action, _) =
        library.load_station_fetched(&entry("a", false, None), Err(Error::Network("down".to_string())), None);
    assert_eq!(action, LoadAction::UseCachedData { is_orphaned: false });
    let added = library.load_station_cached(&entry("a", false, Some("{}")), Some(metadata("a", "Old")), true, Some(vec![9]));
    let added = added.unwrap();
    assert!(added.is_orphaned());
    assert_eq!(added.favicon(), Some(vec![9]));
    assert_eq!(library.model().n_items(), 1);
    assert!(library.load_station_cached(&entry("b", false, None), None, false, None).is_none());
    assert_eq!(library.model().n_items(), 1);
}

#[test]
fn finishing_an_empty_load_is_empty() {
    let mut library = SwLibrary::new();
    library.finish_loading();
    assert_eq!(library.status(), SwLibraryStatus::Empty);
}
