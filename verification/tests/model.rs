use shortwave::station::{StationMetadata, SwStation};
use shortwave::station_model::{ItemsChange, SwStationModel};

fn metadata(uuid: &str, name: &str) -> StationMetadata {
    StationMetadata {
        stationuuid: uuid.to_string(),
        name: name.to_string(),
        language: String::new(),
        country: String::new(),
        state: String::new(),
        codec: String::new(),
        tags: String::new(),
        votes: 0,
        bitrate: 0,
        favicon: None,
    }
}

fn station(uuid: &str, name: &str) -> SwStation {
    SwStation::new(uuid.to_string(), false, false, metadata(uuid, name), None)
}

fn names(model: &SwStationModel) -> Vec<String> {
    let mut out = Vec::new();
    let mut i = 0;
    while let Some(s) = model.item(i) {
        out.push(s.metadata().name);
        i += 1;
    }
    out
}

#[test]
fn new_model_is_empty() {
    let model = SwStationModel::new();
    assert_eq!(model.n_items(), 0);
    assert!(model.item(0).is_none());
}

#[test]
fn add_appends_and_reports_position() {
    let mut model = SwStationModel::default();
    assert_eq!(
        model.add_station(&station("a", "Alpha")),
        Some(ItemsChange { position: 0, removed: 0, added: 1 })
    );
    assert_eq!(
        model.add_station(&station("b", "Beta")),
        Some(ItemsChange { position: 1, removed: 0, added: 1 })
    );
    assert_eq!(model.n_items(), 2);
    assert_eq!(names(&model), vec!["Alpha", "Beta"]);
}

#[test]
fn add_refuses_a_second_station_with_the_same_uuid() {
    let mut model = SwStationModel::new();
    model.add_station(&station("a", "Alpha"));
    assert_eq!(model.add_station(&station("a", "Other name")), None);
    assert_eq!(names(&model), vec!["Alpha"]);
}

#[test]
fn remove_moves_the_last_station_into_the_gap() {
    let mut model = SwStationModel::new();
    model.add_station(&station("a", "Alpha"));
    model.add_station(&station("b", "Beta"));
    model.add_station(&station("c", "Gamma"));
    assert_eq!(
        model.remove_station(&station("a", "Alpha")),
        Some(ItemsChange { position: 0, removed: 1, added: 0 })
    );
    assert_eq!(names(&model), vec!["Gamma", "Beta"]);
}

#[test]
fn remove_of_an_unknown_station_changes_nothing() {
    let mut model = SwStationModel::new();
    model.add_station(&station("a", "Alpha"));
    assert_eq!(model.remove_station(&station("x", "Nowhere")), None);
    assert_eq!(names(&model), vec!["Alpha"]);
}

#[test]
fn add_then_remove_restores_the_list() {
    let mut model = SwStationModel::new();
    model.add_station(&station("a", "Alpha"));
    model.add_station(&station("b", "Beta"));
    let before = names(&model);
    model.add_station(&station("c", "Gamma"));
    model.remove_station(&station("c", "Gamma"));
    assert_eq!(names(&model), before);
}

#[test]
fn clear_reports_the_removed_count() {
    let mut model = SwStationModel::new();
    model.add_station(&station("a", "Alpha"));
    model.add_station(&station("b", "Beta"));
    assert_eq!(model.clear(), ItemsChange { position: 0, removed: 2, added: 0 });
    assert_eq!(model.n_items(), 0);
}

#[test]
fn item_hands_out_a_copy_of_the_station() {
    let mut model = SwStationModel::new();
    let s = SwStation::new("a".to_string(), true, true, metadata("a", "Alpha"), Some(vec![1, 2, 3]));
    model.add_station(&s);
    let got = model.item(0).unwrap();
    assert_eq!(got.uuid(), "a");
    assert!(got.is_local());
    assert!(got.is_orphaned());
    assert_eq!(got.favicon(), Some(vec![1, 2, 3]));
    assert!(model.item(1).is_none());
}
