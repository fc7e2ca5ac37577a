//! The decisions of the smaller widgets: station rows, the player toolbar,
//! the featured carousel, the streaming dialog and the about window.
use vstd::prelude::*;
use vstd::string::*;

use crate::station::{StationMetadata, SwStation};
use crate::text::text_eq;

verus! {

// ---------------------------------------------------------------------------
// Station rows

/// The title-case form of a text, as `inflector`'s `to_title_case` writes it.
pub uninterp spec fn title_cased(s: Seq<char>) -> Seq<char>;

/// `inflector::cases::titlecase::to_title_case`.
#[verifier::external_body]
fn title_case(s: &str) -> (r: String)
    ensures
        r@ == title_cased(s@),
{
    inflector::cases::titlecase::to_title_case(s)
}

/// A station's tags for display: a comma becomes a comma and a space.
pub open spec fn formatted_tags(tags: Seq<char>) -> Seq<char>
    decreases tags.len(),
{
    if tags.len() == 0 {
        Seq::empty()
    } else {
        (if tags[0] == ',' {
            ", "@
        } else {
            seq![tags[0]]
        }) + formatted_tags(tags.drop_first())
    }
}

proof fn lemma_formatted_tags_append(s: Seq<char>, c: char)
    ensures
        formatted_tags(s.push(c)) == formatted_tags(s) + (if c == ',' {
            ", "@
        } else {
            seq![c]
        }),
    decreases s.len(),
{
    if s.len() == 0 {
        assert(s.push(c).drop_first() =~= Seq::<char>::empty());
        assert(formatted_tags(Seq::<char>::empty()) == Seq::<char>::empty());
    } else {
        assert(s.push(c).drop_first() =~= s.drop_first().push(c));
        lemma_formatted_tags_append(s.drop_first(), c);
    }
}

impl StationMetadata {
    /// The tags, each comma followed by a space.
    pub fn formatted_tags(&self) -> (r: String)
        ensures
            r@ == formatted_tags(self.tags@),
    {
        let tags = self.tags.as_str();
        let n = tags.unicode_len();
        let mut r = String::new();
        let mut i: usize = 0;
        assert(tags@.subrange(0, 0) =~= Seq::<char>::empty());
        while i < n
            invariant
                i <= n,
                n == tags@.len(),
                tags@ == self.tags@,
                r@ == formatted_tags(tags@.subrange(0, i as int)),
            decreases n - i,
        {
            let c = tags.get_char(i);
            proof {
                assert(tags@.subrange(0, i + 1) =~= tags@.subrange(0, i as int).push(c));
                lemma_formatted_tags_append(tags@.subrange(0, i as int), c);
            }
            if c == ',' {
                r.append(", ");
            } else {
                r.append(tags.substring_char(i, i + 1));
                assert(tags@.subrange(i as int, i + 1) =~= seq![c]);
            }
            i = i + 1;
        }
        assert(tags@.subrange(0, n as int) =~= tags@);
        r
    }
}

/// A row's second line: the country in title case and the formatted tags,
/// separated by a middle dot; the tags alone when there is no country.
pub open spec fn station_subtitle(md: StationMetadata) -> Seq<char> {
    let country = title_cased(md.country@);
    if country.len() == 0 {
        md.tags@
    } else if md.tags@.len() != 0 {
        country + " \u{b7} "@ + formatted_tags(md.tags@)
    } else {
        country
    }
}

/// Where a station's icon comes from.
pub enum FaviconSource {
    /// The custom icon stored with the station.
    Stored(Vec<u8>),
    /// The icon behind this address, to be downloaded.
    Download(String),
    /// The station has no icon.
    NoIcon,
}

/// A station's icon: its own, else the one its metadata points to.
pub fn favicon_source(station: &SwStation) -> (r: FaviconSource)
    ensures
        match r {
            FaviconSource::Stored(b) => station@.favicon == Some(b@),
            FaviconSource::Download(u) => station@.favicon is None && station.metadata.favicon
                == Some(u),
            FaviconSource::NoIcon => station@.favicon is None && station.metadata.favicon is None,
        },
{
    match station.favicon() {
        Some(b) => FaviconSource::Stored(b),
        None => match &station.metadata.favicon {
            Some(u) => FaviconSource::Download(u.clone()),
            None => FaviconSource::NoIcon,
        },
    }
}

/// What a station row shows.
pub struct StationRowContent {
    pub title: String,
    pub subtitle: String,
    pub subtitle_visible: bool,
    pub local_icon_visible: bool,
    pub orphaned_icon_visible: bool,
}

/// The content of a station's row.
pub fn station_row_content(station: &SwStation) -> (r: StationRowContent)
    ensures
        r.title@ == station.metadata.name@,
        r.subtitle@ == station_subtitle(station.metadata),
        r.subtitle_visible == (station_subtitle(station.metadata).len() != 0),
        r.local_icon_visible == station.is_local,
        r.orphaned_icon_visible == station.is_orphaned,
{
    let metadata = &station.metadata;
    let mut subtitle = title_case(metadata.country.as_str());
    if subtitle.as_str().is_empty() {
        subtitle = metadata.tags.clone();
    } else if !metadata.tags.as_str().is_empty() {
        subtitle = subtitle.concat(" \u{b7} ").concat(metadata.formatted_tags().as_str());
    }
    let subtitle_visible = !subtitle.as_str().is_empty();
    StationRowContent {
        title: metadata.name.clone(),
        subtitle,
        subtitle_visible,
        local_icon_visible: station.is_local,
        orphaned_icon_visible: station.is_orphaned,
    }
}

// ---------------------------------------------------------------------------
// Player toolbar

/// The state of playback.
pub enum PlaybackState {
    Playing,
    Stopped,
    Loading,
    Failure(String),
}

/// The page of the playback button stack for a playback state.
pub open spec fn playback_button(state: PlaybackState) -> Seq<char> {
    match state {
        PlaybackState::Playing => "stop_playback"@,
        PlaybackState::Stopped => "start_playback"@,
        PlaybackState::Loading => "loading"@,
        PlaybackState::Failure(_) => "start_playback"@,
    }
}

/// What the toolbar shows under the station's name.
pub struct SongTitleDisplay {
    pub text: String,
    pub tooltip: Option<String>,
    pub revealed: bool,
}

/// The player toolbar at the bottom of the window.
pub struct ToolbarController;

impl ToolbarController {
    /// The button that playback in this state offers: stop while playing,
    /// start when stopped or failed, a spinner while loading.
    pub fn set_playback_state(playback_state: &PlaybackState) -> (r: &'static str)
        ensures
            r@ == playback_button(*playback_state),
    {
        match playback_state {
            PlaybackState::Playing => "stop_playback",
            PlaybackState::Stopped => "start_playback",
            PlaybackState::Loading => "loading",
            PlaybackState::Failure(_) => "start_playback",
        }
    }

    /// A song title is shown, with itself as tooltip; an empty one hides the
    /// line.
    pub fn set_song_title(title: &str) -> (r: SongTitleDisplay)
        ensures
            title@.len() != 0 ==> (r.text@ == title@ && r.revealed && (r.tooltip matches Some(t)
                && t@ == title@)),
            title@.len() == 0 ==> r.text@.len() == 0 && r.tooltip is None && !r.revealed,
    {
        if !title.is_empty() {
            SongTitleDisplay {
                text: String::from_str(title),
                tooltip: Some(String::from_str(title)),
                revealed: true,
            }
        } else {
            SongTitleDisplay { text: String::new(), tooltip: None, revealed: false }
        }
    }

    /// The station's name for the title and its tooltip, and where its icon
    /// comes from.
    pub fn set_station(station: &SwStation) -> (r: (String, FaviconSource))
        ensures
            r.0@ == station.metadata.name@,
            match r.1 {
                FaviconSource::Stored(b) => station@.favicon == Some(b@),
                FaviconSource::Download(u) => station@.favicon is None && station.metadata.favicon
                    == Some(u),
                FaviconSource::NoIcon => station@.favicon is None && station.metadata.favicon is None,
            },
    {
        (station.metadata.name.clone(), favicon_source(station))
    }
}

// ---------------------------------------------------------------------------
// Featured carousel

/// A button on a carousel page: the action it triggers and its label.
pub struct Action {
    pub name: String,
    pub label: String,
}

impl Action {
    pub fn new(name: &str, label: &str) -> (r: Self)
        ensures
            r.name@ == name@,
            r.label@ == label@,
    {
        Action { name: String::from_str(name), label: String::from_str(label) }
    }
}

/// A page of the featured carousel: its title, its background colour and
/// an optional button.
pub struct FeaturedPage {
    pub title: String,
    pub color: String,
    pub action: Option<Action>,
}

/// The featured carousel.
pub struct SwFeaturedCarousel;

impl SwFeaturedCarousel {
    /// The page the "previous" button scrolls to from the page at
    /// `position`: the one before, or the first.
    pub fn previous_page(position: usize, n_pages: usize) -> (r: usize)
        requires
            n_pages > 0,
            position <= n_pages,
        ensures
            r == (if position > 0 {
                position - 1
            } else {
                0
            }),
            r < n_pages,
    {
        if position > 0 {
            position - 1
        } else {
            0
        }
    }

    /// The page the "next" button scrolls to from the page at `position`:
    /// the one after, or the last.
    pub fn next_page(position: usize, n_pages: usize) -> (r: usize)
        requires
            n_pages > 0,
        ensures
            r == (if position < n_pages - 1 {
                position + 1
            } else {
                n_pages - 1
            }),
            r < n_pages,
    {
        if position < n_pages - 1 {
            position + 1
        } else {
            n_pages - 1
        }
    }

    /// The style follows the first page once a page is added to an empty
    /// carousel.
    pub fn style_after_add(n_pages: usize) -> (r: bool)
        ensures
            r == (n_pages == 1),
    {
        n_pages == 1
    }
}

// ---------------------------------------------------------------------------
// Streaming dialog

/// What the search for cast devices reports.
pub enum DiscovererMessage {
    DiscoverStarted,
    DiscoverEnded,
    /// A device, with its name and its address as text.
    FoundDevice(String, String),
}

/// The page of the dialog's stack.
#[derive(Clone, Copy, Debug, PartialEq, Eq, Structural)]
pub enum DevicesPage {
    Loading,
    NoDevices,
    Ready,
}

/// What a message changes in the dialog; `None` leaves a widget as it is.
pub struct DialogUpdate {
    /// Remove every device row first.
    pub clear_devices: bool,
    /// A row to add: the device's name and address.
    pub new_row: Option<(String, String)>,
    pub list_visible: Option<bool>,
    pub page: DevicesPage,
    pub spinning: bool,
}

/// The dialog that lists the devices a station can be streamed to.
pub struct SwStreamingDialog {
    n_devices: usize,
}

impl SwStreamingDialog {
    /// The number of device rows.
    pub closed spec fn spec_n_devices(&self) -> nat {
        self.n_devices as nat
    }

    pub fn new() -> (r: Self)
        ensures
            r.spec_n_devices() == 0,
    {
        SwStreamingDialog { n_devices: 0 }
    }

    /// Handles a message of the device search: a new search empties the
    /// list and spins; its end shows the list, or that there is none; a
    /// found device gets a row.
    pub fn handle_message(&mut self, message: DiscovererMessage) -> (r: DialogUpdate)
        ensures
            match message {
                DiscovererMessage::DiscoverStarted => {
                    &&& final(self).spec_n_devices() == 0
                    &&& r.clear_devices && r.new_row is None
                    &&& r.list_visible == Some(false)
                    &&& r.page == DevicesPage::Loading && r.spinning
                },
                DiscovererMessage::DiscoverEnded => {
                    &&& final(self).spec_n_devices() == old(self).spec_n_devices()
                    &&& !r.clear_devices && r.new_row is None && r.list_visible is None
                    &&& r.page == (if old(self).spec_n_devices() == 0 {
                        DevicesPage::NoDevices
                    } else {
                        DevicesPage::Ready
                    })
                    &&& !r.spinning
                },
                DiscovererMessage::FoundDevice(name, address) => {
                    &&& final(self).spec_n_devices() > 0
                    &&& !r.clear_devices
                    &&& r.new_row matches Some(row) && row.0 == name && row.1 == address
                    &&& r.list_visible == Some(true)
                    &&& r.page == DevicesPage::Ready && !r.spinning
                },
            },
    {
        match message {
            DiscovererMessage::DiscoverStarted => {
                self.n_devices = 0;
                DialogUpdate {
                    clear_devices: true,
                    new_row: None,
                    list_visible: Some(false),
                    page: DevicesPage::Loading,
                    spinning: true,
                }
            },
            DiscovererMessage::DiscoverEnded => {
                let page = if self.n_devices == 0 {
                    DevicesPage::NoDevices
                } else {
                    DevicesPage::Ready
                };
                DialogUpdate { clear_devices: false, new_row: None, list_visible: None, page, spinning: false }
            },
            DiscovererMessage::FoundDevice(name, address) => {
                if self.n_devices < usize::MAX {
                    self.n_devices = self.n_devices + 1;
                }
                DialogUpdate {
                    clear_devices: false,
                    new_row: Some((name, address)),
                    list_visible: Some(true),
                    page: DevicesPage::Ready,
                    spinning: false,
                }
            },
        }
    }
}

// ---------------------------------------------------------------------------
// About window

/// The version shown in the about window: development builds carry a
/// `-devel` suffix.
pub open spec fn about_version(profile: Seq<char>, version: Seq<char>) -> Seq<char> {
    if profile == "development"@ {
        version + "-devel"@
    } else {
        version
    }
}

/// The version text of the about window.
pub fn version_text(profile: &str, version: &str) -> (r: String)
    ensures
        r@ == about_version(profile@, version@),
{
    if text_eq(profile, "development") {
        String::from_str(version).concat("-devel")
    } else {
        String::from_str(version)
    }
}

/// The debug information of the about window: the commit it was built from.
pub fn debug_info_text(vcs_tag: &str) -> (r: String)
    ensures
        r@ == "Git Commit: "@ + vcs_tag@,
{
    String::from_str("Git Commit: ").concat(vcs_tag)
}

} // verus!
