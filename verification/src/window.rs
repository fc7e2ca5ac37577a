//! The main window's decisions: which view is shown, how the player sidebar
//! and toolbar are laid out for it, and how the window changes size for the
//! mini player.
use vstd::prelude::*;

use crate::text::text_eq;

verus! {

/// The views of the main window.
#[derive(Clone, Copy, Debug, PartialEq, Eq, Structural)]
pub enum SwView {
    Library,
    Discover,
    Search,
    Player,
}

impl Default for SwView {
    fn default() -> (r: Self)
        ensures
            r == SwView::Library,
    {
        SwView::Library
    }
}

/// The menu behind the application menu button.
#[derive(Clone, Copy, Debug, PartialEq, Eq, Structural)]
pub enum AppMenu {
    Library,
    Default,
}

/// The widget states that showing a view sets; `None` leaves a widget as it
/// is.
#[derive(Clone, Copy, Debug, PartialEq, Eq, Structural)]
pub struct ViewLayout {
    /// Whether the player sidebar is revealed.
    pub reveal_flap: Option<bool>,
    /// Whether the bottom toolbar with the player controls is revealed.
    pub reveal_toolbar: Option<bool>,
    /// The page that the leaflet shows.
    pub page: Option<SwView>,
    pub menu: Option<AppMenu>,
    /// Whether the search button is pressed.
    pub search_active: Option<bool>,
    /// Whether the search bar is revealed.
    pub reveal_search: Option<bool>,
    pub add_button_visible: bool,
    pub back_button_visible: bool,
}

/// The layout for `view`: the player widgets, once the player is active,
/// go to the sidebar, or, in slim mode outside the player view, to the
/// bottom toolbar; then the view's page, menu and buttons.
pub open spec fn view_layout(view: SwView, slim_mode: bool, player_activated: bool) -> ViewLayout {
    let (flap, toolbar) = if player_activated {
        if slim_mode && view == SwView::Player {
            (Some(true), Some(false))
        } else if slim_mode {
            (Some(false), Some(true))
        } else {
            (Some(true), Some(false))
        }
    } else {
        (None, None)
    };
    match view {
        SwView::Library => ViewLayout {
            reveal_flap: flap,
            reveal_toolbar: toolbar,
            page: Some(SwView::Library),
            menu: Some(AppMenu::Library),
            search_active: None,
            reveal_search: Some(false),
            add_button_visible: true,
            back_button_visible: false,
        },
        SwView::Discover => ViewLayout {
            reveal_flap: flap,
            reveal_toolbar: toolbar,
            page: Some(SwView::Discover),
            menu: Some(AppMenu::Default),
            search_active: Some(false),
            reveal_search: Some(true),
            add_button_visible: false,
            back_button_visible: true,
        },
        SwView::Search => ViewLayout {
            reveal_flap: flap,
            reveal_toolbar: toolbar,
            page: Some(SwView::Search),
            menu: Some(AppMenu::Default),
            search_active: Some(true),
            reveal_search: Some(true),
            add_button_visible: false,
            back_button_visible: true,
        },
        SwView::Player => ViewLayout {
            reveal_flap: Some(true),
            reveal_toolbar: toolbar,
            page: None,
            menu: None,
            search_active: Some(false),
            reveal_search: None,
            add_button_visible: false,
            back_button_visible: true,
        },
    }
}

/// How the window goes back.
#[derive(Clone, Copy, Debug, PartialEq, Eq, Structural)]
pub enum BackAction {
    /// Hide the player sidebar.
    CloseFlap,
    /// Let the leaflet navigate back.
    NavigateBack,
}

/// What switching offline mode on or off changes.
#[derive(Clone, Copy, Debug, PartialEq, Eq, Structural)]
pub struct OfflineChange {
    /// Whether the "no connection" bar is revealed.
    pub reveal_infobar: bool,
    /// Whether the discover and search views can be chosen.
    pub online_actions_enabled: bool,
}

/// How the window resizes when the mini player is switched on or off.
#[derive(Clone, Copy, Debug, PartialEq, Eq, Structural)]
pub struct MiniPlayerResize {
    /// Leave the maximized state first.
    pub unmaximize: bool,
    /// The size the window animates to.
    pub width: i32,
    pub height: i32,
}

/// The size the window goes to: the previous size, unless it is of the
/// wrong kind (a mini player is at most 175 high, a normal window more),
/// in which case a default size of the right kind.
pub open spec fn mini_player_size(enable: bool, previous_width: i32, previous_height: i32) -> (i32, i32) {
    if enable {
        if previous_height > 175 {
            (450, 105)
        } else {
            (previous_width, previous_height)
        }
    } else {
        if previous_height < 175 {
            (950, 650)
        } else {
            (previous_width, previous_height)
        }
    }
}

/// The view state of the main window.
pub struct SwApplicationWindow {
    view: SwView,
    /// The player widgets are shown (the sidebar is no longer locked).
    player_activated: bool,
}

impl SwApplicationWindow {
    pub closed spec fn spec_view(&self) -> SwView {
        self.view
    }

    pub closed spec fn spec_player_activated(&self) -> bool {
        self.player_activated
    }

    /// A window showing the library, the player not yet shown.
    pub fn new() -> (r: Self)
        ensures
            r.spec_view() == SwView::Library,
            !r.spec_player_activated(),
    {
        SwApplicationWindow { view: SwView::Library, player_activated: false }
    }

    pub fn view(&self) -> (r: SwView)
        ensures
            r == self.spec_view(),
    {
        self.view
    }

    /// Asks for `view`; the layout follows with `update_view`.
    pub fn set_view(&mut self, view: SwView)
        ensures
            final(self).spec_view() == view,
            final(self).spec_player_activated() == old(self).spec_player_activated(),
    {
        self.view = view;
    }

    /// Shows the player widgets; the view follows with
    /// `update_visible_view`.
    pub fn show_player_widget(&mut self)
        ensures
            final(self).spec_view() == old(self).spec_view(),
            final(self).spec_player_activated(),
    {
        self.player_activated = true;
    }

    /// The layout of the current view, in slim mode or not.
    pub fn update_view(&self, slim_mode: bool) -> (r: ViewLayout)
        ensures
            r == view_layout(self.spec_view(), slim_mode, self.spec_player_activated()),
    {
        let view = self.view;
        let (flap, toolbar) = if self.player_activated {
            if slim_mode && view == SwView::Player {
                (Some(true), Some(false))
            } else if slim_mode {
                (Some(false), Some(true))
            } else {
                (Some(true), Some(false))
            }
        } else {
            (None, None)
        };
        match view {
            SwView::Library => ViewLayout {
                reveal_flap: flap,
                reveal_toolbar: toolbar,
                page: Some(SwView::Library),
                menu: Some(AppMenu::Library),
                search_active: None,
                reveal_search: Some(false),
                add_button_visible: true,
                back_button_visible: false,
            },
            SwView::Discover => ViewLayout {
                reveal_flap: flap,
                reveal_toolbar: toolbar,
                page: Some(SwView::Discover),
                menu: Some(AppMenu::Default),
                search_active: Some(false),
                reveal_search: Some(true),
                add_button_visible: false,
                back_button_visible: true,
            },
            SwView::Search => ViewLayout {
                reveal_flap: flap,
                reveal_toolbar: toolbar,
                page: Some(SwView::Search),
                menu: Some(AppMenu::Default),
                search_active: Some(true),
                reveal_search: Some(true),
                add_button_visible: false,
                back_button_visible: true,
            },
            SwView::Player => ViewLayout {
                reveal_flap: Some(true),
                reveal_toolbar: toolbar,
                page: None,
                menu: None,
                search_active: Some(false),
                reveal_search: None,
                add_button_visible: false,
                back_button_visible: true,
            },
        }
    }

    /// Takes the view from what the window shows: the player when the
    /// folded sidebar is revealed, else the leaflet's page.
    pub fn update_visible_view(&mut self, folded: bool, reveals_flap: bool, leaflet_page: SwView)
        requires
            leaflet_page != SwView::Player,
        ensures
            final(self).spec_view() == (if folded && reveals_flap {
                SwView::Player
            } else {
                leaflet_page
            }),
            final(self).spec_player_activated() == old(self).spec_player_activated(),
    {
        if folded && reveals_flap {
            self.view = SwView::Player;
        } else {
            self.view = leaflet_page;
        }
    }

    /// Going back closes the player sidebar in the player view, and
    /// navigates the leaflet back elsewhere.
    pub fn go_back(&self) -> (r: BackAction)
        ensures
            r == (if self.spec_view() == SwView::Player {
                BackAction::CloseFlap
            } else {
                BackAction::NavigateBack
            }),
    {
        if self.view == SwView::Player {
            BackAction::CloseFlap
        } else {
            BackAction::NavigateBack
        }
    }

    /// The search button was toggled: pressed shows the search, released
    /// shows discover unless the player is shown.
    pub fn search_toggled(&mut self, active: bool)
        ensures
            final(self).spec_view() == (if active {
                SwView::Search
            } else if old(self).spec_view() != SwView::Player {
                SwView::Discover
            } else {
                old(self).spec_view()
            }),
            final(self).spec_player_activated() == old(self).spec_player_activated(),
    {
        if active {
            self.view = SwView::Search;
        } else if self.view != SwView::Player {
            self.view = SwView::Discover;
        }
    }

    /// Offline mode reveals the "no connection" bar, goes to the library
    /// and disables discover and search; leaving it does the opposite but
    /// keeps the view.
    pub fn enable_offline_mode(&mut self, enable: bool) -> (r: OfflineChange)
        ensures
            r == (OfflineChange { reveal_infobar: enable, online_actions_enabled: !enable }),
            enable ==> final(self).spec_view() == SwView::Library,
            !enable ==> final(self).spec_view() == old(self).spec_view(),
            final(self).spec_player_activated() == old(self).spec_player_activated(),
    {
        if enable {
            self.view = SwView::Library;
        }
        OfflineChange { reveal_infobar: enable, online_actions_enabled: !enable }
    }

    /// How the window resizes for the mini player, from the size saved
    /// before the last switch.
    pub fn enable_mini_player(
        enable: bool,
        is_maximized: bool,
        previous_width: i32,
        previous_height: i32,
    ) -> (r: MiniPlayerResize)
        ensures
            r.unmaximize == (is_maximized && enable),
            (r.width, r.height) == mini_player_size(enable, previous_width, previous_height),
    {
        let (width, height) = if enable {
            if previous_height > 175 {
                (450, 105)
            } else {
                (previous_width, previous_height)
            }
        } else {
            if previous_height < 175 {
                (950, 650)
            } else {
                (previous_width, previous_height)
            }
        };
        MiniPlayerResize { unmaximize: is_maximized && enable, width, height }
    }

    /// Development and beta builds mark the window with the `devel` style.
    pub fn is_devel_profile(profile: &str) -> (r: bool)
        ensures
            r == (profile@ == "development"@ || profile@ == "beta"@),
    {
        text_eq(profile, "development") || text_eq(profile, "beta")
    }
}

/// Once the player is shown, its controls are in exactly one place: the
/// sidebar or the bottom toolbar.
pub proof fn law_player_controls_in_one_place(view: SwView, slim_mode: bool)
    ensures
        (view_layout(view, slim_mode, true).reveal_flap == Some(true)) != (view_layout(
            view,
            slim_mode,
            true,
        ).reveal_toolbar == Some(true)),
{
}

/// Every view shows exactly one of the add button and the back button:
/// the library offers to add, the other views to go back.
pub proof fn law_add_or_back(view: SwView, slim_mode: bool, player_activated: bool)
    ensures
        view_layout(view, slim_mode, player_activated).add_button_visible != view_layout(
            view,
            slim_mode,
            player_activated,
        ).back_button_visible,
        view_layout(view, slim_mode, player_activated).add_button_visible == (view == SwView::Library),
{
}

/// The leaflet shows the page of the view asked for, whatever the mode and
/// the player; the player view, which has no page, leaves it as it is. The
/// search button is pressed in the search view and released in the others.
pub proof fn law_layout_shows_the_view_asked_for(view: SwView, slim_mode: bool, player_activated: bool)
    ensures
        view != SwView::Player ==> view_layout(view, slim_mode, player_activated).page == Some(view),
        view == SwView::Player ==> view_layout(view, slim_mode, player_activated).page is None,
        view != SwView::Library ==> view_layout(view, slim_mode, player_activated).search_active == Some(
            view == SwView::Search,
        ),
{
}

/// The mini player window is at most 175 high, the normal window at least.
pub proof fn law_mini_player_height(enable: bool, previous_width: i32, previous_height: i32)
    ensures
        enable ==> mini_player_size(enable, previous_width, previous_height).1 <= 175,
        !enable ==> mini_player_size(enable, previous_width, previous_height).1 >= 175,
{
}

} // verus!
