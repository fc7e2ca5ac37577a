use shortwave::station::{StationMetadata, SwStation};
use shortwave::ui::{
    debug_info_text, favicon_source, station_row_content, version_text, Action, DevicesPage,
    DiscovererMessage, FaviconSource, PlaybackState, SwFeaturedCarousel, SwStreamingDialog,
    ToolbarController,
};

fn station(country: &str, tags: &str, favicon: Option<&str>, icon: Option<Vec<u8>>) -> SwStation {
    let md = StationMetadata {
        stationuuid: "u".to_string(),
        name: "Radio".to_string(),
        language: String::new(),
        country: country.to_string(),
        state: String::new(),
        codec: String::new(),
        tags: tags.to_string(),
        votes: 0,
        bitrate: 0,
        favicon: favicon.map(|f| f.to_string()),
    };
    SwStation::new("u".to_string(), true, false, md, icon)
}

#[test]
fn row_subtitle_combines_country_and_tags() {
    let c = station_row_content(&station("germany", "jazz,blues", None, None));
    assert_eq!(c.title, "Radio");
    assert_eq!(c.subtitle, "Germany \u{b7} jazz, blues");
    assert!(c.subtitle_visible);
    assert!(c.local_icon_visible);
    assert!(!c.orphaned_icon_visible);
}

#[test]
fn row_subtitle_edge_cases() {
    assert_eq!(station_row_content(&station("", "jazz,blues", None, None)).subtitle, "jazz,blues");
    assert_eq!(station_row_content(&station("the_netherlands", "", None, None)).subtitle, "The Netherlands");
    let empty = station_row_content(&station("", "", None, None));
    assert_eq!(empty.subtitle, "");
    assert!(!empty.subtitle_visible);
}

#[test]
fn formatted_tags() {
    let s = station("", "a,b,,c", None, None);
    assert_eq!(s.metadata().formatted_tags(), "a, b, , c");
}

#[test]
fn favicon_sources() {
    assert!(matches!(favicon_source(&station("", "", Some("https://x/i.png"), Some(vec![1]))), FaviconSource::Stored(b) if b == vec![1]));
    assert!(matches!(favicon_source(&station("", "", Some("https://x/i.png"), None)), FaviconSource::Download(u) if u == "https://x/i.png"));
    assert!(matches!(favicon_source(&station("", "", None, None)), FaviconSource::NoIcon));
}

#[test]
fn toolbar_playback_button() {
    assert_eq!(ToolbarController::set_playback_state(&PlaybackState::Playing), "stop_playback");
    assert_eq!(ToolbarController::set_playback_state(&PlaybackState::Stopped), "start_playback");
    assert_eq!(ToolbarController::set_playback_state(&PlaybackState::Loading), "loading");
    assert_eq!(
        ToolbarController::set_playback_state(&PlaybackState::Failure("oops".to_string())),
        "start_playback"
    );
}

#[test]
fn toolbar_song_title() {
    let d = ToolbarController::set_song_title("Song");
    assert_eq!(d.text, "Song");
    assert_eq!(d.tooltip.as_deref(), Some("Song"));
    assert!(d.revealed);
    let d = ToolbarController::set_song_title("");
    assert_eq!(d.text, "");
    assert!(d.tooltip.is_none());
    assert!(!d.revealed);
    let (name, _) = ToolbarController::set_station(&station("", "", None, None));
    assert_eq!(name, "Radio");
}

#[test]
fn carousel_navigation() {
    assert_eq!(SwFeaturedCarousel::previous_page(0, 3), 0);
    assert_eq!(SwFeaturedCarousel::previous_page(2, 3), 1);
    assert_eq!(SwFeaturedCarousel::next_page(0, 3), 1);
    assert_eq!(SwFeaturedCarousel::next_page(2, 3), 2);
    assert_eq!(SwFeaturedCarousel::next_page(7, 3), 2);
    assert!(SwFeaturedCarousel::style_after_add(1));
    assert!(!SwFeaturedCarousel::style_after_add(2));
    let a = Action::new("win.x", "Do it");
    assert_eq!((a.name.as_str(), a.label.as_str()), ("win.x", "Do it"));
}

#[test]
fn streaming_dialog_messages() {
    let mut d = SwStreamingDialog::new();
    let u = d.handle_message(DiscovererMessage::DiscoverStarted);
    assert!(u.clear_devices && u.spinning);
    assert_eq!(u.page, DevicesPage::Loading);
    assert_eq!(u.list_visible, Some(false));
    let u = d.handle_message(DiscovererMessage::DiscoverEnded);
    assert_eq!(u.page, DevicesPage::NoDevices);
    assert!(!u.spinning);
    let u = d.handle_message(DiscovererMessage::FoundDevice("TV".to_string(), "10.0.0.2".to_string()));
    assert_eq!(u.new_row, Some(("TV".to_string(), "10.0.0.2".to_string())));
    assert_eq!(u.page, DevicesPage::Ready);
    let u = d.handle_message(DiscovererMessage::DiscoverEnded);
    assert_eq!(u.page, DevicesPage::Ready);
    d.handle_message(DiscovererMessage::DiscoverStarted);
    assert_eq!(d.handle_message(DiscovererMessage::DiscoverEnded).page, DevicesPage::NoDevices);
}

#[test]
fn about_texts() {
    assert_eq!(version_text("development", "3.2.0"), "3.2.0-devel");
    assert_eq!(version_text("default", "3.2.0"), "3.2.0");
    assert_eq!(debug_info_text("abc123"), "Git Commit: abc123");
}
