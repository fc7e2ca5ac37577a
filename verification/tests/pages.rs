use shortwave::app::{ColorScheme, SwApplication};
use shortwave::library::SwLibraryStatus;
use shortwave::pages::{SearchPageView, SearchUpdate, SortIcon, SwDiscoverPage, SwSearchPage};
use shortwave::station_sorter::SwSorting;
use shortwave::window::SwView;

#[test]
fn discover_requests() {
    let (votes, trending, clicked) = SwDiscoverPage::discover_requests();
    assert_eq!(votes.url_encode(), "order=votes&reverse=true&limit=12");
    assert_eq!(trending.url_encode(), "order=clicktrend&limit=12");
    assert_eq!(clicked.url_encode(), "order=clicktimestamp&limit=12");
}

#[test]
fn featured_pages() {
    let pages = SwDiscoverPage::featured_pages();
    assert_eq!(pages.len(), 3);
    assert_eq!(pages[0].color, "#1a5fb4");
    assert!(pages[0].action.is_none());
    assert_eq!(pages[1].action.as_ref().unwrap().name, "win.create-new-station");
    assert_eq!(pages[2].action.as_ref().unwrap().label, "Open website");
}

#[test]
fn search_page_builds_its_request() {
    let mut page = SwSearchPage::new();
    assert_eq!(page.results_limit(), 250);
    assert_eq!(page.update_search().view, SearchPageView::Empty);
    page.search_changed("jazz fm");
    assert_eq!(page.update_search().view, SearchPageView::Spinner);
    assert_eq!(page.station_request().url_encode(), "name=jazz+fm&order=votes&reverse=true&limit=250");
    page.sorting_changed("Bitrate");
    assert_eq!(page.order_changed("Ascending"), SortIcon::Ascending);
    assert_eq!(page.station_request().url_encode(), "name=jazz+fm&order=bitrate&reverse=false&limit=250");
    assert_eq!(page.order_changed("Descending"), SortIcon::Descending);
    assert_eq!(page.station_request().reverse, Some(true));
    page.search_changed("");
    assert_eq!(page.update_search().view, SearchPageView::Empty);
}

#[test]
fn search_is_sent_once_after_the_last_change() {
    let mut page = SwSearchPage::new();
    page.search_changed("jazz");
    let first = page.update_search();
    assert_eq!(first, SearchUpdate { view: SearchPageView::Spinner, cancel: None, schedule: Some(1) });
    page.search_changed("jazz fm");
    let second = page.update_search();
    assert_eq!(second, SearchUpdate { view: SearchPageView::Spinner, cancel: Some(1), schedule: Some(2) });
    page.order_changed("Ascending");
    let third = page.update_search();
    assert_eq!(third, SearchUpdate { view: SearchPageView::Spinner, cancel: Some(2), schedule: Some(3) });
    assert!(page.timeout_fired(1).is_none());
    assert!(page.timeout_fired(2).is_none());
    let sent = page.timeout_fired(3).expect("the last timer sends the search");
    assert_eq!(sent.url_encode(), "name=jazz+fm&order=votes&reverse=false&limit=250");
    assert!(page.timeout_fired(3).is_none());
    page.search_changed("");
    assert_eq!(page.update_search(), SearchUpdate { view: SearchPageView::Empty, cancel: None, schedule: None });
}

#[test]
fn clearing_the_entry_cancels_the_pending_search() {
    let mut page = SwSearchPage::new();
    page.search_changed("rock");
    assert_eq!(page.update_search().schedule, Some(1));
    page.search_changed("");
    assert_eq!(page.update_search(), SearchUpdate { view: SearchPageView::Empty, cancel: Some(1), schedule: None });
    assert!(page.timeout_fired(1).is_none());
}

#[test]
fn search_results_view() {
    let page = SwSearchPage::new();
    assert_eq!(page.search_finished(0), (SearchPageView::NoResults, false));
    assert_eq!(page.search_finished(12), (SearchPageView::Results, false));
    assert_eq!(page.search_finished(250), (SearchPageView::Results, true));
}

#[test]
fn application_refresh() {
    let mut app = SwApplication::new();
    assert_eq!(app.library().status(), SwLibraryStatus::Loading);
    app.window_mut().set_view(SwView::Search);
    let change = app.refresh_data(None);
    assert!(change.reveal_infobar && !change.online_actions_enabled);
    assert_eq!(app.window().view(), SwView::Library);
    assert!(!app.library().has_server());
    app.window_mut().set_view(SwView::Discover);
    let change = app.refresh_data(Some("https://example.org/".to_string()));
    assert!(!change.reveal_infobar && change.online_actions_enabled);
    assert_eq!(app.window().view(), SwView::Discover);
    assert!(app.library().has_server());
}

#[test]
fn settings_and_color_scheme() {
    assert_eq!(SwApplication::sorting_from_settings("Votes", "Descending"), (SwSorting::Votes, true));
    assert_eq!(SwApplication::sorting_from_settings("Name", "Ascending"), (SwSorting::Name, false));
    assert_eq!(SwApplication::color_scheme(true, true), None);
    assert_eq!(SwApplication::color_scheme(false, true), Some(ColorScheme::PreferDark));
    assert_eq!(SwApplication::color_scheme(false, false), Some(ColorScheme::PreferLight));
}
