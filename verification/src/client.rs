//! Talking to radio-browser.info: the requests the application sends, the
//! addresses they go to, what is made of the answers, and the search for a
//! server that answers.
use rand::seq::SliceRandom;
use vstd::prelude::*;
use vstd::string::*;

use crate::station::{StationMetadata, StationView, SwStation};
use crate::library::{add_all, law_added_stations_come_from, law_new_stations_added_unchanged};
use crate::station_model::{contains_uuid, uuids_distinct, SwStationModel};

verus! {

/// Why a request to radio-browser.info failed. Errors of other libraries
/// are kept as their messages.
#[derive(Debug)]
pub enum Error {
    Deserializer(String),
    GLib(String),
    Io(String),
    Network(String),
    InvalidStation(String),
    UnsupportedUrlScheme,
    NoServerAvailable,
}

// ---------------------------------------------------------------------------
// Addresses

/// The serialization of the URL that `url::Url::parse` makes of `input`,
/// or `None` where it refuses the input.
pub uninterp spec fn url_parse_result(input: Seq<char>) -> Option<Seq<char>>;

/// The serialization of the URL that `url::Url::join` makes of `input`
/// relative to the URL parsed from `base`, or `None` where it refuses.
pub uninterp spec fn url_join_result(base: Seq<char>, input: Seq<char>) -> Option<Seq<char>>;

/// The serialization of the URL that `url::Url::join` makes of `input`
/// relative to the URL parsed from `base`, after `url::Url::set_query` set
/// its query to `query`.
pub uninterp spec fn url_set_query_result(base: Seq<char>, input: Seq<char>, query: Option<Seq<char>>) -> Seq<char>;

/// The characters of an optional text.
pub open spec fn opt_view(s: Option<String>) -> Option<Seq<char>> {
    match s {
        Some(t) => Some(t@),
        None => None,
    }
}

/// The characters of an optional text slice.
pub open spec fn opt_str_view(s: Option<&str>) -> Option<Seq<char>> {
    match s {
        Some(t) => Some(t@),
        None => None,
    }
}

/// `url::Url::parse`, the URL handed back in its serialization.
#[verifier::external_body]
fn url_parse(input: &str) -> (r: Option<String>)
    ensures
        opt_view(r) == url_parse_result(input@),
{
    url::Url::parse(input).ok().map(String::from)
}

/// `url::Url::join` on the URL that `base` serializes, the result handed
/// back in its serialization.
#[verifier::external_body]
fn url_join(base: &str, input: &str) -> (r: Option<String>)
    requires
        url_parse_result(base@) is Some,
    ensures
        opt_view(r) == url_join_result(base@, input@),
{
    let base = url::Url::parse(base).expect("a parsed URL");
    base.join(input).ok().map(String::from)
}

/// `url::Url::set_query` on the URL that `url::Url::join` makes of `input`
/// relative to the URL that `base` serializes, the result handed back in
/// its serialization.
#[verifier::external_body]
fn url_set_query(base: &str, input: &str, query: Option<&str>) -> (r: String)
    requires
        url_parse_result(base@) is Some,
        url_join_result(base@, input@) is Some,
    ensures
        r@ == url_set_query_result(base@, input@, opt_str_view(query)),
{
    let base = url::Url::parse(base).expect("a parsed URL");
    let mut url = base.join(input).expect("a joined URL");
    url.set_query(query);
    url.into()
}

/// The address that `build_url` makes: the server joined with `param`,
/// with `options` as its query when there are options.
pub open spec fn built_url(server: Seq<char>, param: Seq<char>, options: Option<Seq<char>>) -> Seq<char> {
    match options {
        Some(o) => url_set_query_result(server, param, Some(o)),
        None => url_join_result(server, param).unwrap(),
    }
}

/// The inputs on which `build_url` can do its work: the server parses and
/// the path joins it.
pub open spec fn url_buildable(server: Seq<char>, param: Seq<char>) -> bool {
    &&& url_parse_result(server) is Some
    &&& url_join_result(server, param) is Some
}

/// The address of an API call: `param` relative to the server's address,
/// with `options` as query. Without a server there is no address.
pub fn build_url(server: Option<&str>, param: &str, options: Option<&str>) -> (r: Result<String, Error>)
    requires
        server matches Some(s) ==> url_buildable(s@, param@),
    ensures
        server is None ==> r matches Err(Error::NoServerAvailable),
        server matches Some(s) ==> r matches Ok(u) && u@ == built_url(s@, param@, opt_str_view(options)),
{
    match server {
        None => Err(Error::NoServerAvailable),
        Some(s) => {
            match options {
                Some(o) => Ok(url_set_query(s, param, Some(o))),
                None => Ok(url_join(s, param).unwrap()),
            }
        },
    }
}

/// `build_url` where its work can be done; `None` where the server's
/// address does not parse or the path does not join it.
pub fn try_build_url(server: Option<&str>, param: &str, options: Option<&str>) -> (r: Option<
    Result<String, Error>,
>)
    ensures
        server is None ==> r matches Some(Err(Error::NoServerAvailable)),
        server matches Some(s) ==> (r is Some <==> url_buildable(s@, param@)),
        server matches Some(s) ==> (r matches Some(x) ==> x matches Ok(u) && u@ == built_url(
            s@,
            param@,
            opt_str_view(options),
        )),
{
    match server {
        None => Some(Err(Error::NoServerAvailable)),
        Some(s) => {
            if url_parse(s).is_none() {
                return None;
            }
            if url_join(s, param).is_none() {
                return None;
            }
            Some(build_url(server, param, options))
        },
    }
}

// ---------------------------------------------------------------------------
// Requests

/// The path of the station search.
pub const STATION_SEARCH: &'static str = "json/stations/search";

/// The path under which a station is found by its identifier.
pub const STATION_BY_UUID: &'static str = "json/stations/byuuid/";

/// The path of the server statistics.
pub const STATS: &'static str = "json/stats";

/// The hexadecimal digit, in upper case, of a number below 16.
pub open spec fn hex_digit(d: int) -> char {
    if d < 10 {
        (d + 48) as char
    } else {
        (d + 55) as char
    }
}

/// Whether the form serialization leaves a byte as it is: `*`, `-`, `.`,
/// `_`, the ASCII digits and the ASCII letters.
pub open spec fn form_unchanged(b: u8) -> bool {
    ||| b == 0x2a
    ||| b == 0x2d
    ||| b == 0x2e
    ||| 0x30 <= b <= 0x39
    ||| 0x41 <= b <= 0x5a
    ||| b == 0x5f
    ||| 0x61 <= b <= 0x7a
}

/// The form serialization of one byte: the byte's character where it is
/// left as it is, `+` for a space, else `%` and its two hexadecimal digits.
pub open spec fn form_byte(b: u8) -> Seq<char> {
    if form_unchanged(b) {
        seq![b as char]
    } else if b == 0x20 {
        seq!['+']
    } else {
        seq!['%', hex_digit(b as int / 16), hex_digit(b as int % 16)]
    }
}

/// The form serialization of a sequence of bytes, byte by byte.
pub open spec fn form_serialized(bytes: Seq<u8>) -> Seq<char>
    decreases bytes.len(),
{
    if bytes.len() == 0 {
        Seq::empty()
    } else {
        form_serialized(bytes.drop_last()) + form_byte(bytes.last())
    }
}

/// The `application/x-www-form-urlencoded` serialization of a text: that of
/// its UTF-8 bytes.
pub open spec fn form_encoded(s: Seq<char>) -> Seq<char> {
    form_serialized(vstd::utf8::encode_utf8(s))
}

/// `url::form_urlencoded::byte_serialize` of the text's bytes, collected.
/// Its source leaves the bytes of `form_unchanged` as they are, writes `+`
/// for a space and `percent_encoding::percent_encode_byte` (`%` and two
/// upper-case hexadecimal digits) for any other byte, in order.
#[verifier::external_body]
fn form_encode(s: &str) -> (r: String)
    ensures
        r@ == form_encoded(s@),
{
    url::form_urlencoded::byte_serialize(s.as_bytes()).collect()
}

/// A search for stations: the fields that are set become the query.
pub struct StationRequest {
    pub name: Option<String>,
    pub order: Option<String>,
    pub reverse: Option<bool>,
    pub limit: Option<u32>,
}

impl Clone for StationRequest {
    fn clone(&self) -> (r: Self)
        ensures
            r == *self,
    {
        StationRequest {
            name: match &self.name {
                Some(n) => Some(n.clone()),
                None => None,
            },
            order: match &self.order {
                Some(o) => Some(o.clone()),
                None => None,
            },
            reverse: self.reverse,
            limit: self.limit,
        }
    }
}

impl Default for StationRequest {
    fn default() -> (r: Self)
        ensures
            r.name is None,
            r.order is None,
            r.reverse is None,
            r.limit is None,
    {
        StationRequest { name: None, order: None, reverse: None, limit: None }
    }
}

/// The character of a decimal digit.
pub open spec fn digit_char(d: nat) -> char {
    (d + 48) as char
}

/// The decimal notation of a number.
pub open spec fn decimal(n: nat) -> Seq<char>
    decreases n,
{
    if n < 10 {
        seq![digit_char(n)]
    } else {
        decimal(n / 10) + seq![digit_char(n % 10)]
    }
}

fn digit_str(d: u32) -> (r: &'static str)
    requires
        d < 10,
    ensures
        r@ == seq![digit_char(d as nat)],
{
    proof {
        reveal_strlit("0");
        reveal_strlit("1");
        reveal_strlit("2");
        reveal_strlit("3");
        reveal_strlit("4");
        reveal_strlit("5");
        reveal_strlit("6");
        reveal_strlit("7");
        reveal_strlit("8");
        reveal_strlit("9");
    }
    let r = if d == 0 {
        "0"
    } else if d == 1 {
        "1"
    } else if d == 2 {
        "2"
    } else if d == 3 {
        "3"
    } else if d == 4 {
        "4"
    } else if d == 5 {
        "5"
    } else if d == 6 {
        "6"
    } else if d == 7 {
        "7"
    } else if d == 8 {
        "8"
    } else {
        "9"
    };
    assert(r@ =~= seq![digit_char(d as nat)]);
    r
}

/// Appends the decimal notation of `n`.
fn append_decimal(acc: &mut String, n: u32)
    ensures
        final(acc)@ == old(acc)@ + decimal(n as nat),
    decreases n,
{
    if n >= 10 {
        append_decimal(acc, n / 10);
    }
    acc.append(digit_str(n % 10));
    proof {
        assert(final(acc)@ =~= old(acc)@ + decimal(n as nat));
    }
}

/// The query after one more `key=value` pair: pairs are separated by `&`.
pub open spec fn add_pair(acc: Seq<char>, pair: Option<Seq<char>>) -> Seq<char> {
    match pair {
        None => acc,
        Some(p) => if acc.len() == 0 {
            p
        } else {
            acc + "&"@ + p
        },
    }
}

/// The `key=value` text of a field that is set.
pub open spec fn field_pair(key: Seq<char>, value: Option<Seq<char>>) -> Option<Seq<char>> {
    match value {
        Some(v) => Some(key + v),
        None => None,
    }
}

/// The text of a flag.
pub open spec fn bool_text(b: bool) -> Seq<char> {
    if b {
        "true"@
    } else {
        "false"@
    }
}

/// The query of a request: `name`, `order`, `reverse` and `limit`, in this
/// order, for those that are set, texts form-encoded.
pub open spec fn request_query(r: StationRequest) -> Seq<char> {
    let name = match r.name {
        Some(n) => Some(form_encoded(n@)),
        None => None,
    };
    let order = match r.order {
        Some(o) => Some(form_encoded(o@)),
        None => None,
    };
    let reverse = match r.reverse {
        Some(b) => Some(bool_text(b)),
        None => None,
    };
    let limit = match r.limit {
        Some(l) => Some(decimal(l as nat)),
        None => None,
    };
    add_pair(
        add_pair(
            add_pair(add_pair(Seq::empty(), field_pair("name="@, name)), field_pair("order="@, order)),
            field_pair("reverse="@, reverse),
        ),
        field_pair("limit="@, limit),
    )
}

fn push_pair(acc: &mut String, key: &str, value: &str)
    ensures
        final(acc)@ == add_pair(old(acc)@, Some(key@ + value@)),
{
    if acc.as_str().is_empty() {
        acc.append(key);
        acc.append(value);
        assert(final(acc)@ =~= key@ + value@);
    } else {
        acc.append("&");
        acc.append(key);
        acc.append(value);
        assert(final(acc)@ =~= old(acc)@ + "&"@ + (key@ + value@));
    }
}

impl StationRequest {
    /// A search for stations by name, most voted first, at most `limit`.
    pub fn search_for_name(name: Option<String>, limit: u32) -> (r: Self)
        ensures
            r.name == name,
            r.order matches Some(o) && o@ == "votes"@,
            r.reverse == Some(true),
            r.limit == Some(limit),
    {
        StationRequest {
            name,
            order: Some(String::from_str("votes")),
            reverse: Some(true),
            limit: Some(limit),
        }
    }

    /// The request as a URL query.
    pub fn url_encode(&self) -> (r: String)
        ensures
            r@ == request_query(*self),
    {
        let mut acc = String::new();
        if let Some(n) = &self.name {
            let v = form_encode(n.as_str());
            push_pair(&mut acc, "name=", v.as_str());
        }
        if let Some(o) = &self.order {
            let v = form_encode(o.as_str());
            push_pair(&mut acc, "order=", v.as_str());
        }
        if let Some(b) = self.reverse {
            if b {
                push_pair(&mut acc, "reverse=", "true");
            } else {
                push_pair(&mut acc, "reverse=", "false");
            }
        }
        if let Some(l) = self.limit {
            let mut v = String::new();
            append_decimal(&mut v, l);
            assert(v@ =~= decimal(l as nat));
            push_pair(&mut acc, "limit=", v.as_str());
        }
        acc
    }
}

// ---------------------------------------------------------------------------
// Answers

/// The station that an answer's metadata makes: identified by the
/// metadata's identifier, neither local nor orphaned, without icon.
pub open spec fn answer_station(md: StationMetadata) -> StationView {
    StationView { uuid: md.stationuuid@, is_local: false, is_orphaned: false, metadata: md, favicon: None }
}

/// The stations of an answer, in the answer's order.
pub open spec fn answer_stations(mds: Seq<StationMetadata>) -> Seq<StationView> {
    mds.map_values(|md: StationMetadata| answer_station(md))
}

/// The address of the station statistics of a server.
pub open spec fn stats_address(host: Seq<char>) -> Seq<char> {
    "https://"@ + host + "/"@ + STATS@
}

/// A client of radio-browser.info: the stations of its last search.
pub struct SwClient {
    model: SwStationModel,
}

impl SwClient {
    /// A client with no stations.
    pub fn new() -> (r: Self)
        ensures
            r.spec_model()@ == Seq::<StationView>::empty(),
    {
        SwClient { model: SwStationModel::new() }
    }

    pub closed spec fn spec_model(&self) -> SwStationModel {
        self.model
    }

    /// The stations of the last search.
    pub fn model(&self) -> (r: &SwStationModel)
        ensures
            *r == self.spec_model(),
    {
        &self.model
    }

    /// The address of a search for stations on `server`; `None` where the
    /// server's address cannot serve as a base.
    pub fn station_request_url(server: Option<&str>, request: &StationRequest) -> (r: Option<
        Result<String, Error>,
    >)
        ensures
            server is None ==> r matches Some(Err(Error::NoServerAvailable)),
            server matches Some(s) ==> (r is Some <==> url_buildable(s@, STATION_SEARCH@)),
            server matches Some(s) ==> (r matches Some(x) ==> x matches Ok(u) && u@ == built_url(
                s@,
                STATION_SEARCH@,
                Some(request_query(*request)),
            )),
    {
        let query = request.url_encode();
        try_build_url(server, STATION_SEARCH, Some(query.as_str()))
    }

    /// Replaces the stations with those of a search's answer: the list is
    /// emptied, then each answer's station is added in turn (a repeated
    /// identifier is skipped).
    pub fn apply_station_response(&mut self, stations: Vec<StationMetadata>)
        ensures
            final(self).spec_model()@ == add_all(Seq::<StationView>::empty(), answer_stations(stations@)),
            uuids_distinct(final(self).spec_model()@),
    {
        let _ = self.model.clear();
        let mut i: usize = 0;
        assert(answer_stations(stations@.take(0)) =~= Seq::<StationView>::empty());
        while i < stations.len()
            invariant
                i <= stations.len(),
                self.model@ == add_all(Seq::<StationView>::empty(), answer_stations(stations@.take(i as int))),
                uuids_distinct(self.model@),
            decreases stations.len() - i,
        {
            let md = stations[i].clone();
            let station = SwStation::new(md.stationuuid.clone(), false, false, md, None);
            let _ = self.model.add_station(&station);
            assert(answer_stations(stations@.take(i + 1)).drop_last() =~= answer_stations(
                stations@.take(i as int),
            ));
            i = i + 1;
        }
        assert(stations@.take(stations.len() as int) =~= stations@);
    }

    /// The address under which radio-browser.info answers with the station
    /// `uuid`; `None` where the server's address cannot serve as a base.
    pub fn station_metadata_url(server: Option<&str>, uuid: &str) -> (r: Option<Result<String, Error>>)
        ensures
            server is None ==> r matches Some(Err(Error::NoServerAvailable)),
            server matches Some(s) ==> (r is Some <==> url_buildable(s@, STATION_BY_UUID@ + uuid@)),
            server matches Some(s) ==> (r matches Some(x) ==> x matches Ok(u) && u@ == built_url(
                s@,
                STATION_BY_UUID@ + uuid@,
                None,
            )),
    {
        let path = String::from_str(STATION_BY_UUID).concat(uuid);
        try_build_url(server, path.as_str(), None)
    }

    /// The station of an answer to a search by identifier: its last entry;
    /// an answer with no entry means that no station has the identifier.
    pub fn station_metadata_from_response(uuid: &str, response: Vec<StationMetadata>) -> (r: Result<
        StationMetadata,
        Error,
    >)
        ensures
            response@.len() > 0 ==> (r matches Ok(md) && md == response@.last()),
            response@.len() == 0 ==> (r matches Err(Error::InvalidStation(u)) && u@ == uuid@),
    {
        let mut response = response;
        match response.pop() {
            Some(md) => Ok(md),
            None => Err(Error::InvalidStation(String::from_str(uuid))),
        }
    }

    /// The address at which a server is asked for its statistics, to see
    /// whether it answers.
    pub fn stats_url(host: &str) -> (r: String)
        ensures
            r@ == stats_address(host@),
    {
        let r = String::from_str("https://").concat(host).concat("/").concat(STATS);
        r
    }
}

// ---------------------------------------------------------------------------
// Finding a server

/// `rand::seq::SliceRandom::shuffle` with the thread's random generator:
/// the same items, in an order that chance decides.
#[verifier::external_body]
fn shuffle<A>(v: &mut Vec<A>)
    ensures
        final(v)@.to_multiset() == old(v)@.to_multiset(),
{
    v.shuffle(&mut rand::thread_rng());
}

/// The address of the API of a server found under `hostname`.
pub open spec fn server_address(hostname: Seq<char>) -> Seq<char> {
    "https://"@ + hostname + "/"@
}

/// What happened since the last step of the search for a server.
pub enum LookupEvent {
    /// The search begins.
    Start,
    /// The reverse lookup of the current candidate gave this host name, or
    /// failed.
    ReverseLookupDone(Option<String>),
    /// The server under test answered the statistics request, or did not.
    TestDone(bool),
}

/// What the application does next in the search for a server.
pub enum LookupAction {
    /// Look up the host name of the candidate at this position.
    ReverseLookup(usize),
    /// Ask the server under this host name for its statistics.
    TestServer(String),
    /// The search is over: the address of a server that answered, or none.
    Finish(Option<String>),
}

/// The next step at `position`: the candidate there, or the end.
pub open spec fn next_lookup(position: nat, len: nat, r: LookupAction) -> bool {
    if position < len {
        r matches LookupAction::ReverseLookup(p) && p == position
    } else {
        r matches LookupAction::Finish(None)
    }
}

/// The search for a radio-browser.info server: the addresses found for the
/// lookup domain are tried one after the other, in random order, until one
/// answers.
pub struct ServerLookup<A> {
    candidates: Vec<A>,
    position: usize,
    /// The host name of the current candidate, once its reverse lookup gave
    /// one: the server under test.
    testing: Option<String>,
}

impl<A> ServerLookup<A> {
    #[verifier::type_invariant]
    closed spec fn position_in_range(self) -> bool {
        self.position <= self.candidates@.len()
    }

    pub closed spec fn spec_candidates(&self) -> Seq<A> {
        self.candidates@
    }

    /// The position of the candidate being tried.
    pub closed spec fn spec_position(&self) -> nat {
        self.position as nat
    }

    /// The host name of the server under test, if one is.
    pub closed spec fn spec_testing(&self) -> Option<Seq<char>> {
        opt_view(self.testing)
    }

    /// A search over the given addresses, shuffled.
    pub fn new(candidates: Vec<A>) -> (r: Self)
        ensures
            r.spec_candidates().to_multiset() == candidates@.to_multiset(),
            r.spec_candidates().len() == candidates@.len(),
            r.spec_position() == 0,
            r.spec_testing() is None,
    {
        let ghost before = candidates@;
        let mut candidates = candidates;
        shuffle(&mut candidates);
        proof {
            vstd::seq_lib::to_multiset_len(before);
            vstd::seq_lib::to_multiset_len(candidates@);
        }
        ServerLookup { candidates, position: 0, testing: None }
    }

    /// The number of candidates.
    pub fn len(&self) -> (r: usize)
        ensures
            r == self.spec_candidates().len(),
    {
        self.candidates.len()
    }

    /// The candidate at a position.
    pub fn candidate(&self, i: usize) -> (r: &A)
        requires
            i < self.spec_candidates().len(),
        ensures
            *r == self.spec_candidates()[i as int],
    {
        &self.candidates[i]
    }

    /// One step of the search. A candidate whose reverse lookup fails, or
    /// whose server does not answer, is passed over; the first server that
    /// answers ends the search with the address of the host name that its
    /// reverse lookup gave; when no candidate is left, the search ends
    /// without a server. An answer with no server under test repeats the
    /// current step.
    pub fn step(&mut self, event: LookupEvent) -> (r: LookupAction)
        ensures
            final(self).spec_candidates() == old(self).spec_candidates(),
            final(self).spec_position() <= final(self).spec_candidates().len(),
            match event {
                LookupEvent::Start => {
                    &&& final(self).spec_position() == 0
                    &&& final(self).spec_testing() is None
                    &&& next_lookup(0, final(self).spec_candidates().len(), r)
                },
                LookupEvent::ReverseLookupDone(None) | LookupEvent::TestDone(false) => {
                    let p = old(self).spec_position();
                    let len = old(self).spec_candidates().len();
                    let q = if p < len { p + 1 } else { p };
                    &&& final(self).spec_position() == q
                    &&& final(self).spec_testing() is None
                    &&& next_lookup(q, len, r)
                },
                LookupEvent::ReverseLookupDone(Some(h)) => {
                    &&& final(self).spec_position() == old(self).spec_position()
                    &&& final(self).spec_testing() == Some(h@)
                    &&& r matches LookupAction::TestServer(t) && t@ == h@
                },
                LookupEvent::TestDone(true) => {
                    &&& final(self).spec_position() == old(self).spec_position()
                    &&& final(self).spec_testing() == old(self).spec_testing()
                    &&& match old(self).spec_testing() {
                        Some(h) => r matches LookupAction::Finish(Some(a)) && a@ == server_address(h),
                        None => next_lookup(old(self).spec_position(), old(self).spec_candidates().len(), r),
                    }
                },
            },
    {
        proof {
            use_type_invariant(&*self);
        }
        match event {
            LookupEvent::Start => {
                self.position = 0;
                self.testing = None;
                self.next_action()
            },
            LookupEvent::ReverseLookupDone(None) => {
                self.testing = None;
                self.advance();
                self.next_action()
            },
            LookupEvent::ReverseLookupDone(Some(h)) => {
                self.testing = Some(h.clone());
                LookupAction::TestServer(h)
            },
            LookupEvent::TestDone(ok) => {
                if ok {
                    match &self.testing {
                        Some(h) => {
                            let address = String::from_str("https://").concat(h.as_str()).concat("/");
                            LookupAction::Finish(Some(address))
                        },
                        None => self.next_action(),
                    }
                } else {
                    self.testing = None;
                    self.advance();
                    self.next_action()
                }
            },
        }
    }

    fn advance(&mut self)
        ensures
            final(self).candidates == old(self).candidates,
            final(self).testing == old(self).testing,
            final(self).position == (if old(self).position < old(self).candidates.len() {
                old(self).position + 1
            } else {
                old(self).position as int
            }),
    {
        proof {
            use_type_invariant(&*self);
        }
        if self.position < self.candidates.len() {
            self.position = self.position + 1;
        }
    }

    fn next_action(&self) -> (r: LookupAction)
        ensures
            next_lookup(self.position as nat, self.candidates@.len(), r),
    {
        if self.position < self.candidates.len() {
            LookupAction::ReverseLookup(self.position)
        } else {
            LookupAction::Finish(None)
        }
    }
}

/// The list of stations that a search's answer gives the client.
pub open spec fn answer_list(answer: Seq<StationMetadata>) -> Seq<StationView> {
    add_all(Seq::<StationView>::empty(), answer_stations(answer))
}

/// Each station that a search's answer makes comes from an entry of the
/// answer and carries that entry's metadata and identifier unchanged; it is
/// neither local nor orphaned and has no icon of its own.
pub proof fn law_answer_stations_keep_metadata(answer: Seq<StationMetadata>)
    ensures
        forall|i: int|
            #![trigger answer_list(answer)[i]]
            0 <= i < answer_list(answer).len() ==> (exists|j: int|
                0 <= j < answer.len() && answer_list(answer)[i].metadata == answer[j]
                    && answer_list(answer)[i].uuid == answer[j].stationuuid@),
        forall|i: int|
            #![trigger answer_list(answer)[i]]
            0 <= i < answer_list(answer).len() ==> !answer_list(answer)[i].is_local
                && !answer_list(answer)[i].is_orphaned && answer_list(answer)[i].favicon is None,
{
    let e = Seq::<StationView>::empty();
    let new = answer_stations(answer);
    let r = answer_list(answer);
    law_added_stations_come_from(e, new);
    assert forall|i: int| 0 <= i < r.len() implies (exists|j: int|
        0 <= j < answer.len() && r[i].metadata == answer[j] && r[i].uuid == answer[j].stationuuid@)
        && !r[i].is_local && !r[i].is_orphaned && r[i].favicon is None by {
        assert(!e.contains(r[i]));
        assert(new.contains(r[i]));
        let j = choose|j: int| 0 <= j < new.len() && new[j] == r[i];
        assert(new[j] == answer_station(answer[j]));
    }
}

/// Each entry of a search's answer whose identifier comes first in the
/// answer is in the client's list with its metadata unchanged.
pub proof fn law_answer_entries_kept(answer: Seq<StationMetadata>)
    ensures
        forall|j: int|
            #![trigger answer[j]]
            0 <= j < answer.len() && (forall|k: int|
                0 <= k < j ==> answer[k].stationuuid@ != answer[j].stationuuid@) ==> exists|i: int|
                0 <= i < answer_list(answer).len() && #[trigger] answer_list(answer)[i].metadata == answer[j],
{
    let e = Seq::<StationView>::empty();
    let new = answer_stations(answer);
    let r = answer_list(answer);
    assert forall|j: int|
        #![trigger answer[j]]
        0 <= j < answer.len() && (forall|k: int| 0 <= k < j ==> answer[k].stationuuid@ != answer[j].stationuuid@)
            implies exists|i: int| 0 <= i < r.len() && #[trigger] r[i].metadata == answer[j] by {
        assert(new[j] == answer_station(answer[j]));
        assert forall|k: int| 0 <= k < j implies new[k].uuid != new[j].uuid by {
            assert(new[k] == answer_station(answer[k]));
        }
        assert(!contains_uuid(e, new[j].uuid));
        law_new_stations_added_unchanged(e, new);
        assert(r.contains(new[j]));
        let i = choose|i: int| 0 <= i < r.len() && r[i] == new[j];
        assert(r[i].metadata == answer[j]);
    }
}

} // verus!
