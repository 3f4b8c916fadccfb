//! BoardGameGeek's XML API: what the search, thumbnail and game-detail
//! responses mean. The network requests themselves are made by the caller;
//! these functions turn a response body into results, and never fail: an
//! unexpected or broken document yields fewer results (or none), never a
//! panic, so the rest of the app keeps working without BGG.

use vstd::prelude::*;

use crate::text::{
    chars_of, join_strings, opt_string_is, opt_view, parse_i32, parse_i64, spec_join,
    spec_parse_i32, spec_parse_i64, string_is, strings_view, push_str, push_all, string_of,
    decimal_i64, spec_decimal,
};
use crate::xml::{
    attr_is, event_is_terminal, events_view, fold_events, get_attr, lemma_fold_end,
    lemma_fold_step, read_document, spec_attr, document_events, SpecXmlEvent, SpecXmlTag,
    decode_text, spec_decode_text,
    XmlEvent, XmlTag,
};

verus! {

/// One row of a BGG search.
pub struct SearchResult {
    pub bgg_id: i64,
    pub name: String,
    pub year_published: Option<i32>,
    pub is_expansion: bool,
    pub thumbnail_url: Option<String>,
}

pub struct SpecSearchResult {
    pub bgg_id: i64,
    pub name: Seq<char>,
    pub year_published: Option<i32>,
    pub is_expansion: bool,
    pub thumbnail_url: Option<Seq<char>>,
}

impl View for SearchResult {
    type V = SpecSearchResult;

    open spec fn view(&self) -> SpecSearchResult {
        SpecSearchResult {
            bgg_id: self.bgg_id,
            name: self.name@,
            year_published: self.year_published,
            is_expansion: self.is_expansion,
            thumbnail_url: opt_view(self.thumbnail_url),
        }
    }
}

pub open spec fn results_view(v: Seq<SearchResult>) -> Seq<SpecSearchResult> {
    v.map_values(|r: SearchResult| r@)
}

/// The attribute `key` of `t`, parsed as an `i64`.
pub open spec fn attr_i64(t: SpecXmlTag, key: Seq<char>) -> Option<i64> {
    match spec_attr(t.attrs, key) {
        Some(v) => spec_parse_i64(v),
        None => None,
    }
}

/// The attribute `key` of `t`, parsed as an `i32`.
pub open spec fn attr_i32(t: SpecXmlTag, key: Seq<char>) -> Option<i32> {
    match spec_attr(t.attrs, key) {
        Some(v) => spec_parse_i32(v),
        None => None,
    }
}

pub fn get_attr_i64(t: &XmlTag, key: &str) -> (r: Option<i64>)
    ensures
        r == attr_i64(t@, key@),
{
    match get_attr(t, key) {
        Some(v) => {
            let cs = chars_of(v.as_str());
            parse_i64(&cs)
        },
        None => None,
    }
}

pub fn get_attr_i32(t: &XmlTag, key: &str) -> (r: Option<i32>)
    ensures
        r == attr_i32(t@, key@),
{
    match get_attr(t, key) {
        Some(v) => {
            let cs = chars_of(v.as_str());
            parse_i32(&cs)
        },
        None => None,
    }
}

// ---------------------------------------------------------------------------
// Search results
// ---------------------------------------------------------------------------
/// What the search parser remembers between events: the item being read and
/// the results finished so far.
pub struct SearchScan {
    pub id: Option<i64>,
    pub is_expansion: bool,
    pub name: Option<Seq<char>>,
    pub year: Option<i32>,
    pub results: Seq<SpecSearchResult>,
}

pub open spec fn search_open(st: SearchScan, t: SpecXmlTag) -> SearchScan {
    if t.name == "item"@ {
        SearchScan {
            id: attr_i64(t, "id"@),
            is_expansion: spec_attr(t.attrs, "type"@) == Some("boardgameexpansion"@),
            name: None,
            year: None,
            results: st.results,
        }
    } else if t.name == "name"@ {
        if spec_attr(t.attrs, "type"@) == Some("primary"@) {
            SearchScan { name: spec_attr(t.attrs, "value"@), ..st }
        } else {
            st
        }
    } else if t.name == "yearpublished"@ {
        SearchScan { year: attr_i32(t, "value"@), ..st }
    } else {
        st
    }
}

/// Closing an `item`: the name is always taken; a result is recorded (and the
/// year taken) only when both an id and a name were seen.
pub open spec fn search_close_item(st: SearchScan) -> SearchScan {
    match (st.id, st.name) {
        (Some(id), Some(name)) => SearchScan {
            name: None,
            year: None,
            results: st.results.push(
                SpecSearchResult {
                    bgg_id: id,
                    name,
                    year_published: st.year,
                    is_expansion: st.is_expansion,
                    thumbnail_url: None,
                },
            ),
            ..st
        },
        _ => SearchScan { name: None, ..st },
    }
}

pub open spec fn search_step(st: SearchScan, e: SpecXmlEvent) -> SearchScan {
    match e {
        SpecXmlEvent::Start(t) => search_open(st, t),
        SpecXmlEvent::Empty(t) => search_open(st, t),
        SpecXmlEvent::End(n) => if n == "item"@ {
            search_close_item(st)
        } else {
            st
        },
        _ => st,
    }
}

pub open spec fn search_start() -> SearchScan {
    SearchScan { id: None, is_expansion: false, name: None, year: None, results: seq![] }
}

/// The search results that a BGG `/search` response's events describe: one
/// per `item` that has both a numeric `id` and a primary name, in document
/// order.
pub open spec fn spec_search_results(evs: Seq<SpecXmlEvent>) -> Seq<SpecSearchResult> {
    fold_events(evs, search_start(), search_stepper()).results
}

pub open spec fn search_stepper() -> spec_fn(SearchScan, SpecXmlEvent) -> SearchScan {
    |st: SearchScan, e: SpecXmlEvent| search_step(st, e)
}

struct SearchScanExec {
    id: Option<i64>,
    is_expansion: bool,
    name: Option<String>,
    year: Option<i32>,
    results: Vec<SearchResult>,
}

impl SearchScanExec {
    closed spec fn view_scan(&self) -> SearchScan {
        SearchScan {
            id: self.id,
            is_expansion: self.is_expansion,
            name: opt_view(self.name),
            year: self.year,
            results: results_view(self.results@),
        }
    }

    fn open_tag(&mut self, t: &XmlTag)
        ensures
            final(self).view_scan() == search_open(old(self).view_scan(), t@),
    {
        if string_is(&t.name, "item") {
            self.id = get_attr_i64(t, "id");
            self.is_expansion = attr_is(t, "type", "boardgameexpansion");
            self.name = None;
            self.year = None;
        } else if string_is(&t.name, "name") {
            if attr_is(t, "type", "primary") {
                self.name = get_attr(t, "value");
            }
        } else if string_is(&t.name, "yearpublished") {
            self.year = get_attr_i32(t, "value");
        }
    }

    fn close_item(&mut self)
        ensures
            final(self).view_scan() == search_close_item(old(self).view_scan()),
    {
        let name = self.name.take();
        match (self.id, name) {
            (Some(id), Some(name)) => {
                let year = self.year.take();
                let ghost before = results_view(self.results@);
                let r = SearchResult {
                    bgg_id: id,
                    name,
                    year_published: year,
                    is_expansion: self.is_expansion,
                    thumbnail_url: None,
                };
                self.results.push(r);
                assert(results_view(self.results@) =~= before.push(r@));
            },
            _ => {},
        }
    }

    fn step(&mut self, e: &XmlEvent)
        ensures
            final(self).view_scan() == search_step(old(self).view_scan(), e@),
    {
        match e {
            XmlEvent::Start(t) => self.open_tag(t),
            XmlEvent::Empty(t) => self.open_tag(t),
            XmlEvent::End(n) => {
                if string_is(n, "item") {
                    self.close_item();
                }
            },
            _ => {},
        }
    }
}

/// The search results that the events of a BGG `/search` response describe.
pub fn parse_search_events(events: &Vec<XmlEvent>) -> (r: Vec<SearchResult>)
    ensures
        results_view(r@) == spec_search_results(events_view(events@)),
{
    let ghost evs = events_view(events@);
    let ghost step = search_stepper();
    let mut st = SearchScanExec {
        id: None,
        is_expansion: false,
        name: None,
        year: None,
        results: Vec::new(),
    };
    assert(results_view(st.results@) =~= seq![]);
    proof {
        lemma_fold_end(evs, search_start(), step);
    }
    let mut i: usize = 0;
    loop
        invariant
            i <= events.len(),
            evs == events_view(events@),
            step == search_stepper(),
            fold_events(evs, search_start(), step) == fold_events(evs.skip(i as int), st.view_scan(), step),
        ensures
            fold_events(evs, search_start(), step) == st.view_scan(),
        decreases events.len() - i,
    {
        if i == events.len() {
            proof {
                lemma_fold_end(evs, st.view_scan(), step);
            }
            break;
        }
        proof {
            lemma_fold_step(evs, i as int, st.view_scan(), step);
        }
        if event_is_terminal(&events[i]) {
            break;
        }
        let ghost prev = st.view_scan();
        assert(evs[i as int] == events@[i as int]@);
        st.step(&events[i]);
        assert(step(prev, evs[i as int]) == st.view_scan());
        i = i + 1;
    }
    st.results
}

/// Parses the body of a BGG `/search` response.
pub fn parse_search_xml(xml: &str) -> (r: Vec<SearchResult>)
    ensures
        results_view(r@) == spec_search_results(document_events(xml@)),
{
    let events = read_document(xml);
    parse_search_events(&events)
}

// ---------------------------------------------------------------------------
// Thumbnails of a batch of games
// ---------------------------------------------------------------------------
/// The thumbnails parser's memory between events.
pub struct ThumbScan {
    pub id: Option<i64>,
    pub thumbnail: Option<Seq<char>>,
    pub in_thumbnail: bool,
    pub results: Seq<(i64, Option<Seq<char>>)>,
}

pub open spec fn thumb_open(st: ThumbScan, t: SpecXmlTag) -> ThumbScan {
    if t.name == "item"@ {
        ThumbScan { id: attr_i64(t, "id"@), thumbnail: None, ..st }
    } else if t.name == "thumbnail"@ {
        ThumbScan { in_thumbnail: true, ..st }
    } else {
        st
    }
}

pub open spec fn thumb_step(st: ThumbScan, e: SpecXmlEvent) -> ThumbScan {
    match e {
        SpecXmlEvent::Start(t) => thumb_open(st, t),
        SpecXmlEvent::Empty(t) => thumb_open(st, t),
        SpecXmlEvent::Text(d) => if st.in_thumbnail {
            ThumbScan { thumbnail: spec_decode_text(d), ..st }
        } else {
            st
        },
        SpecXmlEvent::End(n) => if n == "thumbnail"@ {
            ThumbScan { in_thumbnail: false, ..st }
        } else if n == "item"@ {
            match st.id {
                Some(id) => ThumbScan {
                    id: None,
                    thumbnail: None,
                    results: st.results.push((id, st.thumbnail)),
                    ..st
                },
                None => st,
            }
        } else {
            st
        },
        _ => st,
    }
}

pub open spec fn thumb_stepper() -> spec_fn(ThumbScan, SpecXmlEvent) -> ThumbScan {
    |st: ThumbScan, e: SpecXmlEvent| thumb_step(st, e)
}

pub open spec fn thumb_start() -> ThumbScan {
    ThumbScan { id: None, thumbnail: None, in_thumbnail: false, results: seq![] }
}

/// The `(id, thumbnail)` pairs that a BGG `/thing` response's events
/// describe: one per `item` with a numeric `id`, in document order, paired
/// with the last text seen inside a `thumbnail` element of that item.
pub open spec fn spec_thumbnails(evs: Seq<SpecXmlEvent>) -> Seq<(i64, Option<Seq<char>>)> {
    fold_events(evs, thumb_start(), thumb_stepper()).results
}

pub open spec fn thumbs_view(v: Seq<(i64, Option<String>)>) -> Seq<(i64, Option<Seq<char>>)> {
    v.map_values(|p: (i64, Option<String>)| (p.0, opt_view(p.1)))
}

struct ThumbScanExec {
    id: Option<i64>,
    thumbnail: Option<String>,
    in_thumbnail: bool,
    results: Vec<(i64, Option<String>)>,
}

impl ThumbScanExec {
    closed spec fn view_scan(&self) -> ThumbScan {
        ThumbScan {
            id: self.id,
            thumbnail: opt_view(self.thumbnail),
            in_thumbnail: self.in_thumbnail,
            results: thumbs_view(self.results@),
        }
    }

    fn open_tag(&mut self, t: &XmlTag)
        ensures
            final(self).view_scan() == thumb_open(old(self).view_scan(), t@),
    {
        if string_is(&t.name, "item") {
            self.id = get_attr_i64(t, "id");
            self.thumbnail = None;
        } else if string_is(&t.name, "thumbnail") {
            self.in_thumbnail = true;
        }
    }

    fn step(&mut self, e: &XmlEvent)
        ensures
            final(self).view_scan() == thumb_step(old(self).view_scan(), e@),
    {
        match e {
            XmlEvent::Start(t) => self.open_tag(t),
            XmlEvent::Empty(t) => self.open_tag(t),
            XmlEvent::Text(d) => {
                if self.in_thumbnail {
                    self.thumbnail = decode_text(d);
                }
            },
            XmlEvent::End(n) => {
                if string_is(n, "thumbnail") {
                    self.in_thumbnail = false;
                } else if string_is(n, "item") {
                    if let Some(id) = self.id.take() {
                        let thumb = self.thumbnail.take();
                        let ghost before = thumbs_view(self.results@);
                        let ghost tv = opt_view(thumb);
                        self.results.push((id, thumb));
                        assert(thumbs_view(self.results@) =~= before.push((id, tv)));
                    }
                }
            },
            _ => {},
        }
    }
}

/// The `(id, thumbnail)` pairs that the events of a BGG `/thing` response
/// describe.
pub fn parse_thumbnails_events(events: &Vec<XmlEvent>) -> (r: Vec<(i64, Option<String>)>)
    ensures
        thumbs_view(r@) == spec_thumbnails(events_view(events@)),
{
    let ghost evs = events_view(events@);
    let ghost step = thumb_stepper();
    let mut st = ThumbScanExec { id: None, thumbnail: None, in_thumbnail: false, results: Vec::new() };
    assert(thumbs_view(st.results@) =~= seq![]);
    proof {
        lemma_fold_end(evs, thumb_start(), step);
    }
    let mut i: usize = 0;
    loop
        invariant
            i <= events.len(),
            evs == events_view(events@),
            step == thumb_stepper(),
            fold_events(evs, thumb_start(), step) == fold_events(evs.skip(i as int), st.view_scan(), step),
        ensures
            fold_events(evs, thumb_start(), step) == st.view_scan(),
        decreases events.len() - i,
    {
        if i == events.len() {
            proof {
                lemma_fold_end(evs, st.view_scan(), step);
            }
            break;
        }
        proof {
            lemma_fold_step(evs, i as int, st.view_scan(), step);
        }
        if event_is_terminal(&events[i]) {
            break;
        }
        let ghost prev = st.view_scan();
        assert(evs[i as int] == events@[i as int]@);
        st.step(&events[i]);
        assert(step(prev, evs[i as int]) == st.view_scan());
        i = i + 1;
    }
    st.results
}

/// Parses the body of a BGG `/thing` response into `(id, thumbnail)` pairs.
pub fn parse_thumbnails_xml(xml: &str) -> (r: Vec<(i64, Option<String>)>)
    ensures
        thumbs_view(r@) == spec_thumbnails(document_events(xml@)),
{
    let events = read_document(xml);
    parse_thumbnails_events(&events)
}

// ---------------------------------------------------------------------------
// One game's details
// ---------------------------------------------------------------------------
/// A game's details from BGG. The average rating and weight are kept as the
/// attribute text BGG sent (`None` when absent); turning them into numbers is
/// left to the caller.
pub struct GameDetails {
    pub bgg_id: i64,
    pub name: String,
    pub year_published: Option<i32>,
    pub min_players: Option<i32>,
    pub max_players: Option<i32>,
    pub min_playtime: Option<i32>,
    pub max_playtime: Option<i32>,
    pub min_age: Option<i32>,
    pub designers: Option<String>,
    pub artists: Option<String>,
    pub thumbnail_url: Option<String>,
    pub image_url: Option<String>,
    pub average_rating_text: Option<String>,
    pub weight_text: Option<String>,
    pub description: Option<String>,
    pub is_expansion: bool,
    /// BGG id of the base game, only set when this item is itself an
    /// expansion and BGG said which game it expands.
    pub base_game_bgg_id: Option<i64>,
}

pub struct SpecGameDetails {
    pub bgg_id: i64,
    pub name: Seq<char>,
    pub year_published: Option<i32>,
    pub min_players: Option<i32>,
    pub max_players: Option<i32>,
    pub min_playtime: Option<i32>,
    pub max_playtime: Option<i32>,
    pub min_age: Option<i32>,
    pub designers: Option<Seq<char>>,
    pub artists: Option<Seq<char>>,
    pub thumbnail_url: Option<Seq<char>>,
    pub image_url: Option<Seq<char>>,
    pub average_rating_text: Option<Seq<char>>,
    pub weight_text: Option<Seq<char>>,
    pub description: Option<Seq<char>>,
    pub is_expansion: bool,
    pub base_game_bgg_id: Option<i64>,
}

impl View for GameDetails {
    type V = SpecGameDetails;

    open spec fn view(&self) -> SpecGameDetails {
        SpecGameDetails {
            bgg_id: self.bgg_id,
            name: self.name@,
            year_published: self.year_published,
            min_players: self.min_players,
            max_players: self.max_players,
            min_playtime: self.min_playtime,
            max_playtime: self.max_playtime,
            min_age: self.min_age,
            designers: opt_view(self.designers),
            artists: opt_view(self.artists),
            thumbnail_url: opt_view(self.thumbnail_url),
            image_url: opt_view(self.image_url),
            average_rating_text: opt_view(self.average_rating_text),
            weight_text: opt_view(self.weight_text),
            description: opt_view(self.description),
            is_expansion: self.is_expansion,
            base_game_bgg_id: self.base_game_bgg_id,
        }
    }
}

pub open spec fn opt_details_view(o: Option<GameDetails>) -> Option<SpecGameDetails> {
    match o {
        Some(d) => Some(d@),
        None => None,
    }
}

/// The details before anything has been read.
pub open spec fn empty_details() -> SpecGameDetails {
    SpecGameDetails {
        bgg_id: 0,
        name: seq![],
        year_published: None,
        min_players: None,
        max_players: None,
        min_playtime: None,
        max_playtime: None,
        min_age: None,
        designers: None,
        artists: None,
        thumbnail_url: None,
        image_url: None,
        average_rating_text: None,
        weight_text: None,
        description: None,
        is_expansion: false,
        base_game_bgg_id: None,
    }
}

/// The game-details parser's memory between events.
pub struct ThingScan {
    pub details: SpecGameDetails,
    pub found_item: bool,
    pub designers: Seq<Seq<char>>,
    pub artists: Seq<Seq<char>>,
    pub in_description: bool,
    pub in_thumbnail: bool,
    pub in_image: bool,
}

/// What a `link` tag adds: a designer, an artist, or (for an inbound
/// expansion link) the base game's id.
pub open spec fn thing_link(st: ThingScan, t: SpecXmlTag) -> ThingScan {
    let ty = spec_attr(t.attrs, "type"@);
    let value = spec_attr(t.attrs, "value"@);
    if ty == Some("boardgamedesigner"@) {
        match value {
            Some(v) => ThingScan { designers: st.designers.push(v), ..st },
            None => st,
        }
    } else if ty == Some("boardgameartist"@) {
        match value {
            Some(v) => ThingScan { artists: st.artists.push(v), ..st },
            None => st,
        }
    } else if ty == Some("boardgameexpansion"@) && spec_attr(t.attrs, "inbound"@) == Some("true"@) {
        ThingScan { details: SpecGameDetails { base_game_bgg_id: attr_i64(t, "id"@), ..st.details }, ..st }
    } else {
        st
    }
}

pub open spec fn thing_open(st: ThingScan, t: SpecXmlTag) -> ThingScan {
    let d = st.details;
    let n = t.name;
    if n == "item"@ {
        ThingScan {
            found_item: true,
            details: SpecGameDetails {
                bgg_id: match attr_i64(t, "id"@) {
                    Some(v) => v,
                    None => 0,
                },
                is_expansion: spec_attr(t.attrs, "type"@) == Some("boardgameexpansion"@),
                ..d
            },
            ..st
        }
    } else if n == "name"@ {
        if spec_attr(t.attrs, "type"@) == Some("primary"@) {
            match spec_attr(t.attrs, "value"@) {
                Some(v) => ThingScan { details: SpecGameDetails { name: v, ..d }, ..st },
                None => st,
            }
        } else {
            st
        }
    } else if n == "yearpublished"@ {
        ThingScan { details: SpecGameDetails { year_published: attr_i32(t, "value"@), ..d }, ..st }
    } else if n == "minplayers"@ {
        ThingScan { details: SpecGameDetails { min_players: attr_i32(t, "value"@), ..d }, ..st }
    } else if n == "maxplayers"@ {
        ThingScan { details: SpecGameDetails { max_players: attr_i32(t, "value"@), ..d }, ..st }
    } else if n == "minplaytime"@ {
        ThingScan { details: SpecGameDetails { min_playtime: attr_i32(t, "value"@), ..d }, ..st }
    } else if n == "maxplaytime"@ {
        ThingScan { details: SpecGameDetails { max_playtime: attr_i32(t, "value"@), ..d }, ..st }
    } else if n == "minage"@ {
        ThingScan { details: SpecGameDetails { min_age: attr_i32(t, "value"@), ..d }, ..st }
    } else if n == "average"@ {
        ThingScan {
            details: SpecGameDetails { average_rating_text: spec_attr(t.attrs, "value"@), ..d },
            ..st
        }
    } else if n == "averageweight"@ {
        ThingScan { details: SpecGameDetails { weight_text: spec_attr(t.attrs, "value"@), ..d }, ..st }
    } else if n == "link"@ {
        thing_link(st, t)
    } else if n == "thumbnail"@ {
        ThingScan { in_thumbnail: true, ..st }
    } else if n == "image"@ {
        ThingScan { in_image: true, ..st }
    } else if n == "description"@ {
        ThingScan { in_description: true, ..st }
    } else {
        st
    }
}

/// Text goes to the description, else the thumbnail, else the image,
/// whichever element is open (in that order of preference).
pub open spec fn thing_text(st: ThingScan, decoded: Option<Seq<char>>) -> ThingScan {
    let d = st.details;
    if st.in_description {
        ThingScan { details: SpecGameDetails { description: spec_decode_text(decoded), ..d }, ..st }
    } else if st.in_thumbnail {
        ThingScan { details: SpecGameDetails { thumbnail_url: spec_decode_text(decoded), ..d }, ..st }
    } else if st.in_image {
        ThingScan { details: SpecGameDetails { image_url: spec_decode_text(decoded), ..d }, ..st }
    } else {
        st
    }
}

pub open spec fn thing_step(st: ThingScan, e: SpecXmlEvent) -> ThingScan {
    match e {
        SpecXmlEvent::Start(t) => thing_open(st, t),
        SpecXmlEvent::Empty(t) => thing_open(st, t),
        SpecXmlEvent::Text(d) => thing_text(st, d),
        SpecXmlEvent::End(n) => if n == "description"@ {
            ThingScan { in_description: false, ..st }
        } else if n == "thumbnail"@ {
            ThingScan { in_thumbnail: false, ..st }
        } else if n == "image"@ {
            ThingScan { in_image: false, ..st }
        } else {
            st
        },
        _ => st,
    }
}

pub open spec fn thing_stepper() -> spec_fn(ThingScan, SpecXmlEvent) -> ThingScan {
    |st: ThingScan, e: SpecXmlEvent| thing_step(st, e)
}

pub open spec fn thing_start() -> ThingScan {
    ThingScan {
        details: empty_details(),
        found_item: false,
        designers: seq![],
        artists: seq![],
        in_description: false,
        in_thumbnail: false,
        in_image: false,
    }
}

/// Names joined with ", ", or `None` when there are none.
pub open spec fn joined_names(names: Seq<Seq<char>>) -> Option<Seq<char>> {
    if names.len() == 0 {
        None
    } else {
        Some(spec_join(names, ", "@))
    }
}

/// The game that a BGG `/thing` response's events describe: `None` when the
/// response has no `item` at all; otherwise the values read from its tags,
/// with designers and artists (from `link` tags) joined with ", ".
pub open spec fn spec_game_details(evs: Seq<SpecXmlEvent>) -> Option<SpecGameDetails> {
    let st = fold_events(evs, thing_start(), thing_stepper());
    if !st.found_item {
        None
    } else {
        Some(
            SpecGameDetails {
                designers: joined_names(st.designers),
                artists: joined_names(st.artists),
                ..st.details
            },
        )
    }
}

/// A `link` tag saying that the item is an expansion of the linked game:
/// type `boardgameexpansion` with `inbound="true"`.
pub open spec fn is_inbound_expansion_link(t: SpecXmlTag) -> bool {
    &&& t.name == "link"@
    &&& spec_attr(t.attrs, "type"@) == Some("boardgameexpansion"@)
    &&& spec_attr(t.attrs, "inbound"@) == Some("true"@)
}

/// The event opens (or is) an inbound expansion link.
pub open spec fn names_base_game(e: SpecXmlEvent) -> bool {
    match e {
        SpecXmlEvent::Start(t) => is_inbound_expansion_link(t),
        SpecXmlEvent::Empty(t) => is_inbound_expansion_link(t),
        _ => false,
    }
}

/// Only an inbound expansion link touches the base game: every other event,
/// an outbound expansion link (the game's own expansions) included, leaves
/// it as it was; an inbound one sets it to the linked game's id.
pub proof fn law_base_game_only_from_inbound_link(st: ThingScan, e: SpecXmlEvent)
    ensures
        !names_base_game(e) ==> thing_step(st, e).details.base_game_bgg_id == st.details.base_game_bgg_id,
        match e {
            SpecXmlEvent::Empty(t) => is_inbound_expansion_link(t) ==> thing_step(st, e).details.base_game_bgg_id
                == attr_i64(t, "id"@),
            SpecXmlEvent::Start(t) => is_inbound_expansion_link(t) ==> thing_step(st, e).details.base_game_bgg_id
                == attr_i64(t, "id"@),
            _ => true,
        },
{
    reveal_strlit("link");
    reveal_strlit("item");
    reveal_strlit("name");
    reveal_strlit("yearpublished");
    reveal_strlit("minplayers");
    reveal_strlit("maxplayers");
    reveal_strlit("minplaytime");
    reveal_strlit("maxplaytime");
    reveal_strlit("minage");
    reveal_strlit("average");
    reveal_strlit("averageweight");
    reveal_strlit("boardgamedesigner");
    reveal_strlit("boardgameartist");
    reveal_strlit("boardgameexpansion");
    assert("link"@ != "item"@ && "link"@ != "name"@) by {
        assert("link"@[0] != "item"@[0]);
        assert("link"@[0] != "name"@[0]);
    }
    assert("link"@ != "yearpublished"@) by {
        assert("link"@.len() != "yearpublished"@.len());
    }
    assert("link"@ != "minplayers"@) by {
        assert("link"@.len() != "minplayers"@.len());
    }
    assert("link"@ != "maxplayers"@) by {
        assert("link"@.len() != "maxplayers"@.len());
    }
    assert("link"@ != "minplaytime"@) by {
        assert("link"@.len() != "minplaytime"@.len());
    }
    assert("link"@ != "maxplaytime"@) by {
        assert("link"@.len() != "maxplaytime"@.len());
    }
    assert("link"@ != "minage"@) by {
        assert("link"@.len() != "minage"@.len());
    }
    assert("link"@ != "average"@) by {
        assert("link"@.len() != "average"@.len());
    }
    assert("link"@ != "averageweight"@) by {
        assert("link"@.len() != "averageweight"@.len());
    }
    assert("boardgameexpansion"@ != "boardgamedesigner"@) by {
        assert("boardgameexpansion"@.len() != "boardgamedesigner"@.len());
    }
    assert("boardgameexpansion"@ != "boardgameartist"@) by {
        assert("boardgameexpansion"@.len() != "boardgameartist"@.len());
    }
    match e {
        SpecXmlEvent::Empty(t) => {
            if is_inbound_expansion_link(t) {
                assert(thing_open(st, t) == thing_link(st, t));
            }
        },
        SpecXmlEvent::Start(t) => {
            if is_inbound_expansion_link(t) {
                assert(thing_open(st, t) == thing_link(st, t));
            }
        },
        _ => {},
    }
}

/// Designers and artists come only from `link` tags of their type: a
/// designer link adds its name to the designers, an artist link to the
/// artists, in the order they appear; no other event touches either list.
pub proof fn law_credits_come_from_their_links(st: ThingScan, e: SpecXmlEvent)
    ensures
        ({
            let next = thing_step(st, e);
            match e {
                SpecXmlEvent::Start(t) | SpecXmlEvent::Empty(t) => {
                    let ty = spec_attr(t.attrs, "type"@);
                    let v = spec_attr(t.attrs, "value"@);
                    if t.name == "link"@ && ty == Some("boardgamedesigner"@) && v is Some {
                        next.designers == st.designers.push(v->0) && next.artists == st.artists
                    } else if t.name == "link"@ && ty == Some("boardgameartist"@) && v is Some {
                        next.artists == st.artists.push(v->0) && next.designers == st.designers
                    } else {
                        next.designers == st.designers && next.artists == st.artists
                    }
                },
                _ => next.designers == st.designers && next.artists == st.artists,
            }
        }),
{
    reveal_strlit("link");
    reveal_strlit("item");
    reveal_strlit("name");
    reveal_strlit("boardgamedesigner");
    reveal_strlit("boardgameartist");
    reveal_strlit("yearpublished");
    reveal_strlit("minplayers");
    reveal_strlit("maxplayers");
    reveal_strlit("minplaytime");
    reveal_strlit("maxplaytime");
    reveal_strlit("minage");
    reveal_strlit("average");
    reveal_strlit("averageweight");
    assert("link"@ != "yearpublished"@) by {
        assert("link"@.len() != "yearpublished"@.len());
    }
    assert("link"@ != "minplayers"@) by {
        assert("link"@.len() != "minplayers"@.len());
    }
    assert("link"@ != "maxplayers"@) by {
        assert("link"@.len() != "maxplayers"@.len());
    }
    assert("link"@ != "minplaytime"@) by {
        assert("link"@.len() != "minplaytime"@.len());
    }
    assert("link"@ != "maxplaytime"@) by {
        assert("link"@.len() != "maxplaytime"@.len());
    }
    assert("link"@ != "minage"@) by {
        assert("link"@.len() != "minage"@.len());
    }
    assert("link"@ != "average"@) by {
        assert("link"@.len() != "average"@.len());
    }
    assert("link"@ != "averageweight"@) by {
        assert("link"@.len() != "averageweight"@.len());
    }
    assert("link"@ != "item"@ && "link"@ != "name"@) by {
        assert("link"@[0] != "item"@[0]);
        assert("link"@[0] != "name"@[0]);
    }
    assert("boardgameartist"@ != "boardgamedesigner"@) by {
        assert("boardgameartist"@.len() != "boardgamedesigner"@.len());
    }
}

proof fn lemma_no_base_game(evs: Seq<SpecXmlEvent>, st: ThingScan)
    requires
        st.details.base_game_bgg_id is None,
        forall|i: int| 0 <= i < evs.len() ==> !names_base_game(#[trigger] evs[i]),
    ensures
        fold_events(evs, st, thing_stepper()).details.base_game_bgg_id is None,
    decreases evs.len(),
{
    if evs.len() > 0 && !crate::xml::is_terminal(evs[0]) {
        law_base_game_only_from_inbound_link(st, evs[0]);
        assert forall|i: int| 0 <= i < evs.drop_first().len() implies !names_base_game(
            #[trigger] evs.drop_first()[i],
        ) by {
            assert(evs.drop_first()[i] == evs[i + 1]);
        }
        lemma_no_base_game(evs.drop_first(), thing_step(st, evs[0]));
    }
}

/// A game is recorded as an expansion of another only when its response
/// says so with an inbound expansion link: without one, the base game is
/// none, however many of its own expansions the response lists.
pub proof fn law_no_inbound_link_no_base_game(evs: Seq<SpecXmlEvent>)
    requires
        forall|i: int| 0 <= i < evs.len() ==> !names_base_game(#[trigger] evs[i]),
    ensures
        spec_game_details(evs) matches Some(d) ==> d.base_game_bgg_id is None,
{
    lemma_no_base_game(evs, thing_start());
}

struct ThingScanExec {
    details: GameDetails,
    found_item: bool,
    designers: Vec<String>,
    artists: Vec<String>,
    in_description: bool,
    in_thumbnail: bool,
    in_image: bool,
}

impl ThingScanExec {
    closed spec fn view_scan(&self) -> ThingScan {
        ThingScan {
            details: self.details@,
            found_item: self.found_item,
            designers: strings_view(self.designers@),
            artists: strings_view(self.artists@),
            in_description: self.in_description,
            in_thumbnail: self.in_thumbnail,
            in_image: self.in_image,
        }
    }

    fn link(&mut self, t: &XmlTag)
        ensures
            final(self).view_scan() == thing_link(old(self).view_scan(), t@),
    {
        let ty = get_attr(t, "type");
        let value = get_attr(t, "value");
        if opt_string_is(&ty, "boardgamedesigner") {
            if let Some(v) = value {
                let ghost before = strings_view(self.designers@);
                let ghost vv = v@;
                self.designers.push(v);
                assert(strings_view(self.designers@) =~= before.push(vv));
            }
        } else if opt_string_is(&ty, "boardgameartist") {
            if let Some(v) = value {
                let ghost before = strings_view(self.artists@);
                let ghost vv = v@;
                self.artists.push(v);
                assert(strings_view(self.artists@) =~= before.push(vv));
            }
        } else if opt_string_is(&ty, "boardgameexpansion") && attr_is(t, "inbound", "true") {
            self.details.base_game_bgg_id = get_attr_i64(t, "id");
        }
    }

    fn open_tag(&mut self, t: &XmlTag)
        ensures
            final(self).view_scan() == thing_open(old(self).view_scan(), t@),
    {
        let n = &t.name;
        if string_is(n, "item") {
            self.found_item = true;
            self.details.bgg_id = match get_attr_i64(t, "id") {
                Some(v) => v,
                None => 0,
            };
            self.details.is_expansion = attr_is(t, "type", "boardgameexpansion");
        } else if string_is(n, "name") {
            if attr_is(t, "type", "primary") {
                if let Some(v) = get_attr(t, "value") {
                    self.details.name = v;
                }
            }
        } else if string_is(n, "yearpublished") {
            self.details.year_published = get_attr_i32(t, "value");
        } else if string_is(n, "minplayers") {
            self.details.min_players = get_attr_i32(t, "value");
        } else if string_is(n, "maxplayers") {
            self.details.max_players = get_attr_i32(t, "value");
        } else if string_is(n, "minplaytime") {
            self.details.min_playtime = get_attr_i32(t, "value");
        } else if string_is(n, "maxplaytime") {
            self.details.max_playtime = get_attr_i32(t, "value");
        } else if string_is(n, "minage") {
            self.details.min_age = get_attr_i32(t, "value");
        } else if string_is(n, "average") {
            self.details.average_rating_text = get_attr(t, "value");
        } else if string_is(n, "averageweight") {
            self.details.weight_text = get_attr(t, "value");
        } else if string_is(n, "link") {
            self.link(t);
        } else if string_is(n, "thumbnail") {
            self.in_thumbnail = true;
        } else if string_is(n, "image") {
            self.in_image = true;
        } else if string_is(n, "description") {
            self.in_description = true;
        }
    }

    fn step(&mut self, e: &XmlEvent)
        ensures
            final(self).view_scan() == thing_step(old(self).view_scan(), e@),
    {
        match e {
            XmlEvent::Start(t) => self.open_tag(t),
            XmlEvent::Empty(t) => self.open_tag(t),
            XmlEvent::Text(d) => {
                if self.in_description {
                    self.details.description = decode_text(d);
                } else if self.in_thumbnail {
                    self.details.thumbnail_url = decode_text(d);
                } else if self.in_image {
                    self.details.image_url = decode_text(d);
                }
            },
            XmlEvent::End(n) => {
                if string_is(n, "description") {
                    self.in_description = false;
                } else if string_is(n, "thumbnail") {
                    self.in_thumbnail = false;
                } else if string_is(n, "image") {
                    self.in_image = false;
                }
            },
            _ => {},
        }
    }
}

/// Joins names with ", ", or gives `None` when there are none.
fn join_names(names: &Vec<String>) -> (r: Option<String>)
    ensures
        opt_view(r) == joined_names(strings_view(names@)),
{
    if names.len() == 0 {
        None
    } else {
        Some(join_strings(names, ", "))
    }
}

/// The game that the events of a BGG `/thing` response describe.
pub fn parse_thing_events(events: &Vec<XmlEvent>) -> (r: Option<GameDetails>)
    ensures
        opt_details_view(r) == spec_game_details(events_view(events@)),
{
    let ghost evs = events_view(events@);
    let ghost step = thing_stepper();
    let mut st = ThingScanExec {
        details: GameDetails {
            bgg_id: 0,
            name: String::new(),
            year_published: None,
            min_players: None,
            max_players: None,
            min_playtime: None,
            max_playtime: None,
            min_age: None,
            designers: None,
            artists: None,
            thumbnail_url: None,
            image_url: None,
            average_rating_text: None,
            weight_text: None,
            description: None,
            is_expansion: false,
            base_game_bgg_id: None,
        },
        found_item: false,
        designers: Vec::new(),
        artists: Vec::new(),
        in_description: false,
        in_thumbnail: false,
        in_image: false,
    };
    assert(strings_view(st.designers@) =~= seq![]);
    assert(strings_view(st.artists@) =~= seq![]);
    assert(st.view_scan() == thing_start());
    proof {
        lemma_fold_end(evs, thing_start(), step);
    }
    let mut i: usize = 0;
    loop
        invariant
            i <= events.len(),
            evs == events_view(events@),
            step == thing_stepper(),
            fold_events(evs, thing_start(), step) == fold_events(evs.skip(i as int), st.view_scan(), step),
        ensures
            fold_events(evs, thing_start(), step) == st.view_scan(),
        decreases events.len() - i,
    {
        if i == events.len() {
            proof {
                lemma_fold_end(evs, st.view_scan(), step);
            }
            break;
        }
        proof {
            lemma_fold_step(evs, i as int, st.view_scan(), step);
        }
        if event_is_terminal(&events[i]) {
            break;
        }
        let ghost prev = st.view_scan();
        assert(evs[i as int] == events@[i as int]@);
        st.step(&events[i]);
        assert(step(prev, evs[i as int]) == st.view_scan());
        i = i + 1;
    }
    if !st.found_item {
        return None;
    }
    let mut details = st.details;
    details.designers = join_names(&st.designers);
    details.artists = join_names(&st.artists);
    Some(details)
}

/// Parses the body of a BGG `/thing` response for one game.
pub fn parse_thing_xml(xml: &str) -> (r: Option<GameDetails>)
    ensures
        opt_details_view(r) == spec_game_details(document_events(xml@)),
{
    let events = read_document(xml);
    parse_thing_events(&events)
}

// ---------------------------------------------------------------------------
// Requests
// ---------------------------------------------------------------------------
/// A byte that URL encoding leaves as it is: ASCII letters and digits and
/// `-`, `.`, `_`, `~`.
pub open spec fn is_url_unreserved(b: u8) -> bool {
    ||| 48 <= b <= 57
    ||| 65 <= b <= 90
    ||| 97 <= b <= 122
    ||| b == 45
    ||| b == 46
    ||| b == 95
    ||| b == 126
}

/// The upper-case hexadecimal digit for `d` (below sixteen).
pub open spec fn hex_digit(d: u8) -> char {
    if d < 10 {
        ((48 + d) as u8) as char
    } else {
        ((55 + d) as u8) as char
    }
}

/// Percent-encoding of a byte string: unreserved bytes as themselves, every
/// other byte as `%` and two upper-case hexadecimal digits.
pub open spec fn percent_encoded(bytes: Seq<u8>) -> Seq<char>
    decreases bytes.len(),
{
    if bytes.len() == 0 {
        seq![]
    } else {
        let b = bytes[0];
        (if is_url_unreserved(b) {
            seq![b as char]
        } else {
            seq!['%', hex_digit(b / 16), hex_digit(b % 16)]
        }) + percent_encoded(bytes.drop_first())
    }
}

/// Calls `urlencoding::encode`. Claims what its documentation and source
/// say: every byte of the UTF-8 encoding of `s` is percent-encoded except
/// ASCII alphanumerics and `-`, `_`, `.`, `~`, with upper-case hex digits.
#[verifier::external_body]
fn url_encode(s: &str) -> (r: String)
    ensures
        r@ == percent_encoded(vstd::utf8::encode_utf8(s@)),
{
    urlencoding::encode(s).into_owned()
}

/// The BGG search request for `query`, restricted to board games and
/// expansions.
pub fn search_url(query: &str) -> (r: String)
    ensures
        r@ == "https://boardgamegeek.com/xmlapi2/search?query="@ + percent_encoded(
            vstd::utf8::encode_utf8(query@),
        ) + "&type=boardgame,boardgameexpansion"@,
{
    let mut out: Vec<char> = Vec::new();
    push_str(&mut out, "https://boardgamegeek.com/xmlapi2/search?query=");
    let enc = url_encode(query);
    push_str(&mut out, enc.as_str());
    push_str(&mut out, "&type=boardgame,boardgameexpansion");
    string_of(&out)
}

/// BGG refuses a `/thing` request for more than twenty ids, so a batch of
/// thumbnails never asks for more.
pub const MAX_BATCH_THUMBNAILS: usize = 20;

/// The ids a thumbnail batch asks for: the first twenty at most.
pub open spec fn batch_ids(ids: Seq<i64>) -> Seq<i64> {
    if ids.len() <= 20 {
        ids
    } else {
        ids.take(20)
    }
}

/// The `/thing` request for the thumbnails of `ids`, or `None` when there are
/// no ids (and so nothing to ask for): the first twenty ids at most, in
/// decimal, separated by commas.
pub fn thumbnails_url(ids: &Vec<i64>) -> (r: Option<String>)
    ensures
        ids.len() == 0 ==> r is None,
        ids.len() > 0 ==> opt_view(r) == Some(
            "https://boardgamegeek.com/xmlapi2/thing?id="@ + spec_join(
                batch_ids(ids@).map_values(|id: i64| spec_decimal(id as int)),
                ","@,
            ) + "&stats=1"@,
        ),
{
    if ids.len() == 0 {
        return None;
    }
    let n = if ids.len() <= MAX_BATCH_THUMBNAILS {
        ids.len()
    } else {
        MAX_BATCH_THUMBNAILS
    };
    let ghost list = batch_ids(ids@).map_values(|id: i64| spec_decimal(id as int));
    assert(batch_ids(ids@) =~= ids@.take(n as int));
    let mut out: Vec<char> = Vec::new();
    push_str(&mut out, "https://boardgamegeek.com/xmlapi2/thing?id=");
    let ghost prefix = out@;
    let mut i: usize = 0;
    while i < n
        invariant
            i <= n <= ids.len(),
            n as int == batch_ids(ids@).len(),
            batch_ids(ids@) == ids@.take(n as int),
            list == batch_ids(ids@).map_values(|id: i64| spec_decimal(id as int)),
            out@ == prefix + spec_join(list.take(i as int), ","@),
        decreases n - i,
    {
        if i > 0 {
            push_str(&mut out, ",");
        }
        let d = decimal_i64(ids[i]);
        push_all(&mut out, &d);
        assert(list.take(i + 1).drop_last() =~= list.take(i as int));
        assert(list.take(i + 1).last() == spec_decimal(ids@[i as int] as int));
        if i == 0 {
            assert(list.take(1) =~= seq![list[0]]);
        }
        i = i + 1;
    }
    assert(list.take(n as int) =~= list);
    push_str(&mut out, "&stats=1");
    Some(string_of(&out))
}

/// The `/thing` request for one game's details (with statistics).
pub fn thing_url(bgg_id: i64) -> (r: String)
    ensures
        r@ == "https://boardgamegeek.com/xmlapi2/thing?id="@ + spec_decimal(bgg_id as int)
            + "&stats=1"@,
{
    let mut out: Vec<char> = Vec::new();
    push_str(&mut out, "https://boardgamegeek.com/xmlapi2/thing?id=");
    let d = decimal_i64(bgg_id);
    push_all(&mut out, &d);
    push_str(&mut out, "&stats=1");
    string_of(&out)
}

} // verus!
