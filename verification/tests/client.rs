use shortwave::client::{
    try_build_url, Error, LookupAction, LookupEvent, ServerLookup, StationRequest, SwClient,
    STATION_BY_UUID, STATION_SEARCH, STATS,
};
use shortwave::station::StationMetadata;

fn metadata(uuid: &str) -> StationMetadata {
    StationMetadata {
        stationuuid: uuid.to_string(),
        name: format!("Station {uuid}"),
        language: String::new(),
        country: String::new(),
        state: String::new(),
        codec: String::new(),
        tags: String::new(),
        votes: 0,
        bitrate: 0,
        favicon: None,
    }
}

#[test]
fn request_query_lists_the_fields_that_are_set() {
    let r = StationRequest::search_for_name(Some("Radio Eins & more".to_string()), 250);
    assert_eq!(r.url_encode(), "name=Radio+Eins+%26+more&order=votes&reverse=true&limit=250");
    let empty = StationRequest::default();
    assert_eq!(empty.url_encode(), "");
    let r = StationRequest { reverse: Some(false), limit: Some(0), ..Default::default() };
    assert_eq!(r.url_encode(), "reverse=false&limit=0");
    let r = StationRequest { limit: Some(4294967295), ..Default::default() };
    assert_eq!(r.url_encode(), "limit=4294967295");
}

#[test]
fn form_encoding_keeps_safe_bytes_and_escapes_the_rest() {
    let r = StationRequest { name: Some("a-Z_0.9*~/ü".to_string()), ..Default::default() };
    assert_eq!(r.url_encode(), "name=a-Z_0.9*%7E%2F%C3%BC");
}

#[test]
fn api_paths() {
    assert_eq!(STATION_SEARCH, "json/stations/search");
    assert_eq!(STATION_BY_UUID, "json/stations/byuuid/");
    assert_eq!(STATS, "json/stats");
}

#[test]
fn build_url_joins_the_server_and_the_path() {
    let r = try_build_url(Some("https://de1.api.radio-browser.info/"), "json/stations/search", Some("name=a&limit=2"));
    match r {
        Some(Ok(u)) => assert_eq!(u, "https://de1.api.radio-browser.info/json/stations/search?name=a&limit=2"),
        _ => panic!("expected an address"),
    }
    let r = try_build_url(Some("https://host.example/api/"), "json/stats", None);
    match r {
        Some(Ok(u)) => assert_eq!(u, "https://host.example/api/json/stats"),
        _ => panic!("expected an address"),
    }
}

#[test]
fn build_url_without_server() {
    assert!(matches!(try_build_url(None, "json/stats", None), Some(Err(Error::NoServerAvailable))));
}

#[test]
fn build_url_with_a_broken_server_address() {
    assert!(try_build_url(Some("not a url"), "json/stats", None).is_none());
}

#[test]
fn request_and_metadata_addresses() {
    let server = Some("https://example.org/");
    let r = StationRequest::search_for_name(Some("jazz".to_string()), 12);
    match SwClient::station_request_url(server, &r) {
        Some(Ok(u)) => assert_eq!(u, "https://example.org/json/stations/search?name=jazz&order=votes&reverse=true&limit=12"),
        _ => panic!("expected an address"),
    }
    match SwClient::station_metadata_url(server, "1234-abcd") {
        Some(Ok(u)) => assert_eq!(u, "https://example.org/json/stations/byuuid/1234-abcd"),
        _ => panic!("expected an address"),
    }
    assert_eq!(SwClient::stats_url("de1.example"), "https://de1.example/json/stats");
}

#[test]
fn a_response_replaces_the_stations() {
    let mut client = SwClient::new();
    client.apply_station_response(vec![metadata("a"), metadata("b"), metadata("a")]);
    assert_eq!(client.model().n_items(), 2);
    let first = client.model().item(0).unwrap();
    assert_eq!(first.uuid(), "a");
    assert!(!first.is_local() && !first.is_orphaned());
    assert_eq!(first.favicon(), None);
    client.apply_station_response(vec![metadata("c")]);
    assert_eq!(client.model().n_items(), 1);
    assert_eq!(client.model().item(0).unwrap().uuid(), "c");
}

#[test]
fn metadata_lookup_takes_the_last_answer() {
    match SwClient::station_metadata_from_response("x", vec![metadata("first"), metadata("last")]) {
        Ok(md) => assert_eq!(md.stationuuid, "last"),
        Err(_) => panic!("expected metadata"),
    }
    match SwClient::station_metadata_from_response("x", vec![]) {
        Err(Error::InvalidStation(u)) => assert_eq!(u, "x"),
        _ => panic!("expected an invalid station"),
    }
}

#[test]
fn server_lookup_tries_candidates_until_one_answers() {
    let mut lookup = ServerLookup::new(vec![1u8, 2, 3]);
    let mut seen: Vec<u8> = (0..lookup.len()).map(|i| *lookup.candidate(i)).collect();
    seen.sort();
    assert_eq!(seen, vec![1, 2, 3]);
    assert!(matches!(lookup.step(LookupEvent::Start), LookupAction::ReverseLookup(0)));
    assert!(matches!(lookup.step(LookupEvent::ReverseLookupDone(None)), LookupAction::ReverseLookup(1)));
    match lookup.step(LookupEvent::ReverseLookupDone(Some("host.b".to_string()))) {
        LookupAction::TestServer(h) => assert_eq!(h, "host.b"),
        _ => panic!("expected a test"),
    }
    assert!(matches!(lookup.step(LookupEvent::TestDone(false)), LookupAction::ReverseLookup(2)));
    assert!(matches!(lookup.step(LookupEvent::TestDone(true)), LookupAction::ReverseLookup(2)));
    match lookup.step(LookupEvent::ReverseLookupDone(Some("host.c".to_string()))) {
        LookupAction::TestServer(h) => assert_eq!(h, "host.c"),
        _ => panic!("expected a test"),
    }
    match lookup.step(LookupEvent::TestDone(true)) {
        LookupAction::Finish(Some(a)) => assert_eq!(a, "https://host.c/"),
        _ => panic!("expected a server"),
    }
}

#[test]
fn server_lookup_without_answer_finds_nothing() {
    let mut lookup: ServerLookup<u8> = ServerLookup::new(vec![]);
    assert!(matches!(lookup.step(LookupEvent::Start), LookupAction::Finish(None)));
    let mut lookup = ServerLookup::new(vec![7u8]);
    assert!(matches!(lookup.step(LookupEvent::Start), LookupAction::ReverseLookup(0)));
    assert!(matches!(lookup.step(LookupEvent::ReverseLookupDone(None)), LookupAction::Finish(None)));
}
