use shortwave::window::{AppMenu, BackAction, OfflineChange, SwApplicationWindow, SwView};

#[test]
fn new_window_shows_the_library() {
    let w = SwApplicationWindow::new();
    assert_eq!(w.view(), SwView::Library);
    assert_eq!(SwView::default(), SwView::Library);
    let l = w.update_view(false);
    assert_eq!(l.page, Some(SwView::Library));
    assert_eq!(l.menu, Some(AppMenu::Library));
    assert_eq!(l.reveal_flap, None);
    assert_eq!(l.reveal_toolbar, None);
    assert!(l.add_button_visible && !l.back_button_visible);
    assert_eq!(l.reveal_search, Some(false));
}

#[test]
fn layouts_with_the_player_active() {
    let mut w = SwApplicationWindow::new();
    w.show_player_widget();
    w.set_view(SwView::Discover);
    let wide = w.update_view(false);
    assert_eq!((wide.reveal_flap, wide.reveal_toolbar), (Some(true), Some(false)));
    let slim = w.update_view(true);
    assert_eq!((slim.reveal_flap, slim.reveal_toolbar), (Some(false), Some(true)));
    assert_eq!(slim.search_active, Some(false));
    assert_eq!(slim.menu, Some(AppMenu::Default));
    w.set_view(SwView::Player);
    let player = w.update_view(true);
    assert_eq!((player.reveal_flap, player.reveal_toolbar), (Some(true), Some(false)));
    assert_eq!(player.page, None);
    assert!(player.back_button_visible && !player.add_button_visible);
    w.set_view(SwView::Search);
    let search = w.update_view(false);
    assert_eq!(search.search_active, Some(true));
    assert_eq!(search.reveal_search, Some(true));
}

#[test]
fn going_back() {
    let mut w = SwApplicationWindow::new();
    assert_eq!(w.go_back(), BackAction::NavigateBack);
    w.set_view(SwView::Player);
    assert_eq!(w.go_back(), BackAction::CloseFlap);
}

#[test]
fn visible_view_follows_the_widgets() {
    let mut w = SwApplicationWindow::new();
    w.update_visible_view(true, true, SwView::Search);
    assert_eq!(w.view(), SwView::Player);
    w.update_visible_view(false, true, SwView::Search);
    assert_eq!(w.view(), SwView::Search);
}

#[test]
fn search_button() {
    let mut w = SwApplicationWindow::new();
    w.search_toggled(true);
    assert_eq!(w.view(), SwView::Search);
    w.search_toggled(false);
    assert_eq!(w.view(), SwView::Discover);
    w.set_view(SwView::Player);
    w.search_toggled(false);
    assert_eq!(w.view(), SwView::Player);
}

#[test]
fn offline_mode() {
    let mut w = SwApplicationWindow::new();
    w.set_view(SwView::Search);
    assert_eq!(w.enable_offline_mode(true), OfflineChange { reveal_infobar: true, online_actions_enabled: false });
    assert_eq!(w.view(), SwView::Library);
    w.set_view(SwView::Discover);
    assert_eq!(w.enable_offline_mode(false), OfflineChange { reveal_infobar: false, online_actions_enabled: true });
    assert_eq!(w.view(), SwView::Discover);
}

#[test]
fn mini_player_sizes() {
    let r = SwApplicationWindow::enable_mini_player(true, true, 950, 650);
    assert!(r.unmaximize);
    assert_eq!((r.width, r.height), (450, 105));
    let r = SwApplicationWindow::enable_mini_player(true, false, 500, 120);
    assert!(!r.unmaximize);
    assert_eq!((r.width, r.height), (500, 120));
    let r = SwApplicationWindow::enable_mini_player(false, true, 450, 105);
    assert!(!r.unmaximize);
    assert_eq!((r.width, r.height), (950, 650));
    let r = SwApplicationWindow::enable_mini_player(false, false, 1200, 800);
    assert_eq!((r.width, r.height), (1200, 800));
    let r = SwApplicationWindow::enable_mini_player(false, false, 700, 175);
    assert_eq!((r.width, r.height), (700, 175));
}

#[test]
fn devel_profiles() {
    assert!(SwApplicationWindow::is_devel_profile("development"));
    assert!(SwApplicationWindow::is_devel_profile("beta"));
    assert!(!SwApplicationWindow::is_devel_profile("default"));
}
