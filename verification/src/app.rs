//! The application's own decisions: what a refresh does to the library and
//! the window, the sorting taken from the settings, and the colour scheme.
use vstd::prelude::*;

use crate::library::{SwLibrary, SwLibraryStatus};
use crate::station::StationView;
use crate::station_sorter::{sorting_name, SwSorting};
use crate::text::text_eq;
use crate::window::{OfflineChange, SwApplicationWindow, SwView};

verus! {

/// The colour scheme the application asks for.
#[derive(Clone, Copy, Debug, PartialEq, Eq, Structural)]
pub enum ColorScheme {
    PreferDark,
    PreferLight,
}

/// The application: its library and its window.
pub struct SwApplication {
    library: SwLibrary,
    window: SwApplicationWindow,
}

impl SwApplication {
    pub closed spec fn spec_library(&self) -> SwLibrary {
        self.library
    }

    pub closed spec fn spec_window(&self) -> SwApplicationWindow {
        self.window
    }

    /// A starting application: an empty library, loading, and a window
    /// showing it.
    pub fn new() -> (r: Self)
        ensures
            r.spec_library().stations() == Seq::<StationView>::empty(),
            r.spec_library().spec_status() == SwLibraryStatus::Loading,
            r.spec_library().spec_server() is None,
            r.spec_window().spec_view() == SwView::Library,
            !r.spec_window().spec_player_activated(),
    {
        SwApplication { library: SwLibrary::new(), window: SwApplicationWindow::new() }
    }

    pub fn library(&self) -> (r: &SwLibrary)
        ensures
            *r == self.spec_library(),
    {
        &self.library
    }

    pub fn library_mut(&mut self) -> (r: &mut SwLibrary)
        ensures
            *r == old(self).spec_library(),
            final(self).spec_library() == *final(r),
            final(self).spec_window() == old(self).spec_window(),
    {
        &mut self.library
    }

    pub fn window(&self) -> (r: &SwApplicationWindow)
        ensures
            *r == self.spec_window(),
    {
        &self.window
    }

    pub fn window_mut(&mut self) -> (r: &mut SwApplicationWindow)
        ensures
            *r == old(self).spec_window(),
            final(self).spec_window() == *final(r),
            final(self).spec_library() == old(self).spec_library(),
    {
        &mut self.window
    }

    /// A refresh with the server that the lookup found, or none: the
    /// library reloads (taking the server, if any), and the window goes
    /// offline exactly when there is no server.
    pub fn refresh_data(&mut self, server: Option<String>) -> (r: OfflineChange)
        ensures
            final(self).spec_library().stations() == Seq::<StationView>::empty(),
            final(self).spec_library().spec_status() == SwLibraryStatus::Loading,
            server matches Some(s) ==> final(self).spec_library().spec_server() == Some(s@),
            server is None ==> final(self).spec_library().spec_server() == old(
                self,
            ).spec_library().spec_server(),
            r == (OfflineChange { reveal_infobar: server is None, online_actions_enabled: server is Some }),
            server is None ==> final(self).spec_window().spec_view() == SwView::Library,
            server is Some ==> final(self).spec_window().spec_view() == old(self).spec_window().spec_view(),
    {
        let offline = server.is_none();
        self.library.refresh_data(server);
        self.window.enable_offline_mode(offline)
    }

    /// The sorting and direction that the settings hold: the sorting by
    /// name, descending when the order is "Descending".
    pub fn sorting_from_settings(sorting: &str, order: &str) -> (r: (SwSorting, bool))
        requires
            exists|x: SwSorting| sorting_name(x) == sorting@,
        ensures
            sorting_name(r.0) == sorting@,
            r.1 == (order@ == "Descending"@),
    {
        let s = SwSorting::from_name(sorting);
        (s.unwrap(), text_eq(order, "Descending"))
    }

    /// The colour scheme to set: where the system offers none, the dark
    /// mode setting decides; where it does, nothing is set.
    pub fn color_scheme(system_supports_color_schemes: bool, dark_mode: bool) -> (r: Option<ColorScheme>)
        ensures
            system_supports_color_schemes ==> r is None,
            !system_supports_color_schemes ==> r == Some(
                if dark_mode {
                    ColorScheme::PreferDark
                } else {
                    ColorScheme::PreferLight
                },
            ),
    {
        if system_supports_color_schemes {
            None
        } else if dark_mode {
            Some(ColorScheme::PreferDark)
        } else {
            Some(ColorScheme::PreferLight)
        }
    }
}

} // verus!
