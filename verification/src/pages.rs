//! The discover and search pages: the requests they send and what they show
//! of the answers.
use vstd::prelude::*;
use vstd::string::*;

use crate::client::StationRequest;
use crate::text::text_eq;
use crate::ui::{Action, FeaturedPage};

verus! {

/// The pages of the discover page.
pub struct SwDiscoverPage;

/// A request for the `limit` first stations by `order`, highest first when
/// `reverse` is set.
pub open spec fn top_request(r: StationRequest, order: Seq<char>, reverse: Option<bool>) -> bool {
    &&& r.name is None
    &&& r.order matches Some(o) && o@ == order
    &&& r.reverse == reverse
    &&& r.limit == Some(12u32)
}

impl SwDiscoverPage {
    /// The three station lists of the discover page: the most voted, the
    /// trending (highest click trend) and the recently clicked stations,
    /// twelve each.
    pub fn discover_requests() -> (r: (StationRequest, StationRequest, StationRequest))
        ensures
            top_request(r.0, "votes"@, Some(true)),
            top_request(r.1, "clicktrend"@, None),
            top_request(r.2, "clicktimestamp"@, None),
    {
        let votes = StationRequest {
            order: Some(String::from_str("votes")),
            limit: Some(12),
            reverse: Some(true),
            ..Default::default()
        };
        let trending = StationRequest {
            order: Some(String::from_str("clicktrend")),
            limit: Some(12),
            ..Default::default()
        };
        let clicked = StationRequest {
            order: Some(String::from_str("clicktimestamp")),
            limit: Some(12),
            ..Default::default()
        };
        (votes, trending, clicked)
    }

    /// The pages of the featured carousel, titles in English.
    pub fn featured_pages() -> (r: Vec<FeaturedPage>)
        ensures
            r@.len() == 3,
            r@[0].title@ == "Browse over 30,000 stations"@,
            r@[0].color@ == "#1a5fb4"@,
            r@[0].action is None,
            r@[1].title@ == "Your favorite station is missing?"@,
            r@[1].color@ == "#e5a50a"@,
            r@[1].action matches Some(a) && a.name@ == "win.create-new-station"@ && a.label@
                == "Add new station"@,
            r@[2].title@ == "Powered by radio-browser.info"@,
            r@[2].color@ == "#26a269"@,
            r@[2].action matches Some(a) && a.name@ == "win.open-radio-browser-info"@ && a.label@
                == "Open website"@,
    {
        let mut pages: Vec<FeaturedPage> = Vec::new();
        pages.push(
            FeaturedPage {
                title: String::from_str("Browse over 30,000 stations"),
                color: String::from_str("#1a5fb4"),
                action: None,
            },
        );
        pages.push(
            FeaturedPage {
                title: String::from_str("Your favorite station is missing?"),
                color: String::from_str("#e5a50a"),
                action: Some(Action::new("win.create-new-station", "Add new station")),
            },
        );
        pages.push(
            FeaturedPage {
                title: String::from_str("Powered by radio-browser.info"),
                color: String::from_str("#26a269"),
                action: Some(Action::new("win.open-radio-browser-info", "Open website")),
            },
        );
        pages
    }
}

/// The sorting choices of the search page.
pub open spec fn search_sorting_key(state: Seq<char>) -> Option<Seq<char>> {
    if state == "Name"@ {
        Some("name"@)
    } else if state == "Language"@ {
        Some("language"@)
    } else if state == "Country"@ {
        Some("country"@)
    } else if state == "State"@ {
        Some("state"@)
    } else if state == "Votes"@ {
        Some("votes"@)
    } else if state == "Bitrate"@ {
        Some("bitrate"@)
    } else {
        None
    }
}

/// A character in lower case: an ASCII capital becomes its small letter;
/// every other character stays.
pub open spec fn lower_char(c: char) -> char {
    if 'A' <= c <= 'Z' {
        ((c as u32) + 32) as char
    } else {
        c
    }
}

/// A text in lower case, character by character.
pub open spec fn lower_text(s: Seq<char>) -> Seq<char> {
    s.map_values(|c: char| lower_char(c))
}

/// The search is ordered by the field chosen in the sorting menu: each
/// menu state (Name, Language, Country, State, Votes, Bitrate) gives itself
/// in lower case as the order key, and no other state gives a key.
pub proof fn law_sorting_key_is_state_in_lower_case(state: Seq<char>)
    ensures
        search_sorting_key(state) is Some <==> (state == "Name"@ || state == "Language"@ || state
            == "Country"@ || state == "State"@ || state == "Votes"@ || state == "Bitrate"@),
        search_sorting_key(state) matches Some(k) ==> k == lower_text(state),
{
    reveal_strlit("Name");
    reveal_strlit("Language");
    reveal_strlit("Country");
    reveal_strlit("State");
    reveal_strlit("Votes");
    reveal_strlit("Bitrate");
    reveal_strlit("name");
    reveal_strlit("language");
    reveal_strlit("country");
    reveal_strlit("state");
    reveal_strlit("votes");
    reveal_strlit("bitrate");
    assert(lower_text("Name"@) =~= "name"@);
    assert(lower_text("Language"@) =~= "language"@);
    assert(lower_text("Country"@) =~= "country"@);
    assert(lower_text("State"@) =~= "state"@);
    assert(lower_text("Votes"@) =~= "votes"@);
    assert(lower_text("Bitrate"@) =~= "bitrate"@);
}

/// What the search page shows while or instead of searching.
#[derive(Clone, Copy, Debug, PartialEq, Eq, Structural)]
pub enum SearchPageView {
    Empty,
    Spinner,
    NoResults,
    Results,
}

/// The icon of the sorting button.
#[derive(Clone, Copy, Debug, PartialEq, Eq, Structural)]
pub enum SortIcon {
    Ascending,
    Descending,
}

/// The timer of the search page: a search waits a second after the last
/// change before it is sent. Each timer the page schedules gets the next
/// token; `pending` is the token of the one whose firing sends the search,
/// while it has neither fired nor been cancelled.
#[derive(Clone, Copy, Debug, PartialEq, Eq, Structural)]
pub struct SearchTimer {
    pub pending: Option<u64>,
    /// The token of the timer scheduled last.
    pub scheduled: u64,
}

/// What the application does when a search is asked for: what the page
/// shows, the timer to cancel, if one is pending, and the timer to
/// schedule, if a search is to be sent.
#[derive(Clone, Copy, Debug, PartialEq, Eq, Structural)]
pub struct SearchUpdate {
    pub view: SearchPageView,
    pub cancel: Option<u64>,
    pub schedule: Option<u64>,
}

/// The token after `n`, starting again at 0 after the last `u64`.
pub open spec fn next_token(n: u64) -> u64 {
    if n == u64::MAX {
        0
    } else {
        (n + 1) as u64
    }
}

/// The timer after a search is asked for: a pending timer is cancelled, and,
/// with a name entered, a new one is scheduled and pending.
pub open spec fn timer_after_update(t: SearchTimer, has_name: bool) -> SearchTimer {
    if has_name {
        SearchTimer { pending: Some(next_token(t.scheduled)), scheduled: next_token(t.scheduled) }
    } else {
        SearchTimer { pending: None, scheduled: t.scheduled }
    }
}

/// Whether the timer with this token sends the search when it fires.
pub open spec fn fires(t: SearchTimer, token: u64) -> bool {
    t.pending == Some(token)
}

/// The timer after the one with this token fired.
pub open spec fn timer_after_fire(t: SearchTimer, token: u64) -> SearchTimer {
    if fires(t, token) {
        SearchTimer { pending: None, scheduled: t.scheduled }
    } else {
        t
    }
}

/// The timer after `k` searches asked for in a row, a name being entered.
pub open spec fn timer_after_updates(t: SearchTimer, k: nat) -> SearchTimer
    decreases k,
{
    if k == 0 {
        t
    } else {
        timer_after_update(timer_after_updates(t, (k - 1) as nat), true)
    }
}

/// The search page: the request that its entry and menus build, and the
/// timer of the search to send.
pub struct SwSearchPage {
    station_request: StationRequest,
    timer: SearchTimer,
}

impl SwSearchPage {
    #[verifier::type_invariant]
    closed spec fn limited(self) -> bool {
        self.station_request.limit is Some
    }

    pub closed spec fn spec_request(&self) -> StationRequest {
        self.station_request
    }

    pub closed spec fn spec_timer(&self) -> SearchTimer {
        self.timer
    }

    /// A page that searches by name, most voted first, at most 250 results,
    /// with nothing entered yet.
    pub fn new() -> (r: Self)
        ensures
            r.spec_request().name is None,
            r.spec_request().order matches Some(o) && o@ == "votes"@,
            r.spec_request().reverse == Some(true),
            r.spec_request().limit == Some(250u32),
            r.spec_timer() == (SearchTimer { pending: None, scheduled: 0 }),
    {
        SwSearchPage {
            station_request: StationRequest::search_for_name(None, 250),
            timer: SearchTimer { pending: None, scheduled: 0 },
        }
    }

    /// The request that the next search sends.
    pub fn station_request(&self) -> (r: StationRequest)
        ensures
            r == self.spec_request(),
    {
        self.station_request.clone()
    }

    /// The most results a search gives.
    pub fn results_limit(&self) -> (r: u32)
        ensures
            self.spec_request().limit == Some(r),
    {
        proof {
            use_type_invariant(&*self);
        }
        self.station_request.limit.unwrap()
    }

    /// The search entry changed: an empty entry searches for nothing.
    pub fn search_changed(&mut self, text: &str)
        ensures
            text@.len() == 0 ==> final(self).spec_request().name is None,
            text@.len() != 0 ==> (final(self).spec_request().name matches Some(n) && n@ == text@),
            final(self).spec_request().order == old(self).spec_request().order,
            final(self).spec_request().reverse == old(self).spec_request().reverse,
            final(self).spec_request().limit == old(self).spec_request().limit,
            final(self).spec_timer() == old(self).spec_timer(),
    {
        proof {
            use_type_invariant(&*self);
        }
        let name = if text.is_empty() {
            None
        } else {
            Some(String::from_str(text))
        };
        let request = StationRequest { name, ..self.station_request.clone() };
        self.station_request = request;
    }

    /// The sorting menu changed: results are ordered by the chosen field,
    /// named in lower case.
    pub fn sorting_changed(&mut self, state: &str)
        requires
            search_sorting_key(state@) is Some,
        ensures
            final(self).spec_request().order matches Some(o) && o@ == search_sorting_key(
                state@,
            ).unwrap() && o@ == lower_text(state@),
            final(self).spec_request().name == old(self).spec_request().name,
            final(self).spec_request().reverse == old(self).spec_request().reverse,
            final(self).spec_request().limit == old(self).spec_request().limit,
            final(self).spec_timer() == old(self).spec_timer(),
    {
        proof {
            use_type_invariant(&*self);
        }
        let key = if text_eq(state, "Name") {
            "name"
        } else if text_eq(state, "Language") {
            "language"
        } else if text_eq(state, "Country") {
            "country"
        } else if text_eq(state, "State") {
            "state"
        } else if text_eq(state, "Votes") {
            "votes"
        } else {
            "bitrate"
        };
        proof {
            law_sorting_key_is_state_in_lower_case(state@);
        }
        let request = StationRequest { order: Some(String::from_str(key)), ..self.station_request.clone() };
        self.station_request = request;
    }

    /// The order menu changed: anything but "Ascending" puts the highest
    /// first.
    pub fn order_changed(&mut self, state: &str) -> (r: SortIcon)
        ensures
            final(self).spec_request().reverse == Some(state@ != "Ascending"@),
            r == (if state@ == "Ascending"@ {
                SortIcon::Ascending
            } else {
                SortIcon::Descending
            }),
            final(self).spec_request().name == old(self).spec_request().name,
            final(self).spec_request().order == old(self).spec_request().order,
            final(self).spec_request().limit == old(self).spec_request().limit,
            final(self).spec_timer() == old(self).spec_timer(),
    {
        proof {
            use_type_invariant(&*self);
        }
        let ascending = text_eq(state, "Ascending");
        let request = StationRequest { reverse: Some(!ascending), ..self.station_request.clone() };
        self.station_request = request;
        if ascending {
            SortIcon::Ascending
        } else {
            SortIcon::Descending
        }
    }

    /// A search is asked for: the pending timer, if any, is cancelled; with
    /// no name entered the page shows its empty state; otherwise it spins
    /// and a new timer is scheduled.
    pub fn update_search(&mut self) -> (r: SearchUpdate)
        ensures
            r.view == (if old(self).spec_request().name is None {
                SearchPageView::Empty
            } else {
                SearchPageView::Spinner
            }),
            r.cancel == old(self).spec_timer().pending,
            final(self).spec_timer() == timer_after_update(
                old(self).spec_timer(),
                old(self).spec_request().name is Some,
            ),
            r.schedule == final(self).spec_timer().pending,
            final(self).spec_request() == old(self).spec_request(),
    {
        proof {
            use_type_invariant(&*self);
        }
        let cancel = self.timer.pending;
        if self.station_request.name.is_none() {
            self.timer = SearchTimer { pending: None, scheduled: self.timer.scheduled };
            SearchUpdate { view: SearchPageView::Empty, cancel, schedule: None }
        } else {
            let token = if self.timer.scheduled == u64::MAX {
                0
            } else {
                self.timer.scheduled + 1
            };
            self.timer = SearchTimer { pending: Some(token), scheduled: token };
            SearchUpdate { view: SearchPageView::Spinner, cancel, schedule: Some(token) }
        }
    }

    /// The timer with this token fired: if it is the pending one, the search
    /// is sent with the request as it now stands, and no timer is pending;
    /// any other timer sends nothing.
    pub fn timeout_fired(&mut self, token: u64) -> (r: Option<StationRequest>)
        ensures
            final(self).spec_timer() == timer_after_fire(old(self).spec_timer(), token),
            final(self).spec_request() == old(self).spec_request(),
            fires(old(self).spec_timer(), token) ==> r == Some(old(self).spec_request()),
            !fires(old(self).spec_timer(), token) ==> r is None,
    {
        proof {
            use_type_invariant(&*self);
        }
        if self.timer.pending == Some(token) {
            self.timer = SearchTimer { pending: None, scheduled: self.timer.scheduled };
            Some(self.station_request.clone())
        } else {
            None
        }
    }

    /// What the page shows when a search brought `n_items` stations: the
    /// results, or that there are none, and a note when the results reach
    /// the limit.
    pub fn search_finished(&self, n_items: u32) -> (r: (SearchPageView, bool))
        ensures
            r.0 == (if n_items == 0 {
                SearchPageView::NoResults
            } else {
                SearchPageView::Results
            }),
            r.1 == (n_items >= self.spec_request().limit.unwrap()),
    {
        let limit = self.results_limit();
        let over = n_items >= limit;
        if n_items == 0 {
            (SearchPageView::NoResults, over)
        } else {
            (SearchPageView::Results, over)
        }
    }
}

// ---------------------------------------------------------------------------
// Laws

/// After `k` searches asked for in a row with a name entered, starting
/// from timer `t`, the token of the last timer scheduled is `k` past that of
/// `t`, and that last timer is the pending one.
proof fn lemma_updates(t: SearchTimer, k: nat)
    requires
        t.scheduled + k <= u64::MAX,
    ensures
        timer_after_updates(t, k).scheduled == t.scheduled + k,
        k >= 1 ==> timer_after_updates(t, k).pending == Some(timer_after_updates(t, k).scheduled),
    decreases k,
{
    if k > 0 {
        lemma_updates(t, (k - 1) as nat);
    }
}

/// A search asked for several times in a row, a name being entered, is sent
/// once: only the timer scheduled last sends it when it fires, no timer
/// scheduled before it does, and once it has fired no timer is pending.
pub proof fn law_search_debounce(t: SearchTimer, k: nat)
    requires
        k >= 1,
        t.scheduled + k <= u64::MAX,
    ensures
        timer_after_updates(t, k).scheduled == t.scheduled + k,
        forall|token: u64| #[trigger] fires(timer_after_updates(t, k), token) <==> token == t.scheduled + k,
        forall|j: nat|
            1 <= j < k ==> !fires(timer_after_updates(t, k), #[trigger] timer_after_updates(t, j).scheduled),
        forall|token: u64|
            !#[trigger] fires(timer_after_fire(timer_after_updates(t, k), (t.scheduled + k) as u64), token),
{
    lemma_updates(t, k);
    assert forall|j: nat| 1 <= j < k implies !fires(
        timer_after_updates(t, k),
        #[trigger] timer_after_updates(t, j).scheduled,
    ) by {
        lemma_updates(t, j);
    }
}

} // verus!
