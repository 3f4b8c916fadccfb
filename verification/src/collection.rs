//! Game collections: the statuses a game can have for a user, the entries a
//! collection page shows, and the forms that add games to it.

use vstd::prelude::*;

use crate::text::{
    chars_eq_str, chars_of, copy_range, find, first_occurrence, opt_view, parse_i32, push_all,
    push_str, spec_parse_i32, spec_split, spec_split_once, spec_starts_with, spec_trim, split,
    split_once, string_of, trim,
};

verus! {

/// The statuses a game can have in someone's collection, as stored.
pub open spec fn statuses() -> Seq<Seq<char>> {
    seq![
        "owned"@,
        "wishlist"@,
        "preordered"@,
        "for_sale"@,
        "played"@,
        "want_to_play"@,
        "want_to_trade"@,
    ]
}

/// How each status is shown, in the same order.
pub open spec fn status_labels() -> Seq<Seq<char>> {
    seq![
        "Owned"@,
        "Wishlist"@,
        "Pre-ordered"@,
        "For Sale"@,
        "Played"@,
        "Want to Play"@,
        "Want to Trade"@,
    ]
}

/// Whether `s` is one of the collection statuses.
pub fn is_valid_status(s: &str) -> (r: bool)
    ensures
        r == statuses().contains(s@),
{
    let c = chars_of(s);
    let r = chars_eq_str(&c, "owned") || chars_eq_str(&c, "wishlist") || chars_eq_str(
        &c,
        "preordered",
    ) || chars_eq_str(&c, "for_sale") || chars_eq_str(&c, "played") || chars_eq_str(
        &c,
        "want_to_play",
    ) || chars_eq_str(&c, "want_to_trade");
    proof {
        if statuses().contains(s@) {
            let j = choose|j: int| 0 <= j < statuses().len() && statuses()[j] == s@;
            assert(0 <= j < 7);
            assert(j == 0 || j == 1 || j == 2 || j == 3 || j == 4 || j == 5 || j == 6);
        }
        if r {
            if c@ == "owned"@ {
                assert(statuses()[0] == s@);
            } else if c@ == "wishlist"@ {
                assert(statuses()[1] == s@);
            } else if c@ == "preordered"@ {
                assert(statuses()[2] == s@);
            } else if c@ == "for_sale"@ {
                assert(statuses()[3] == s@);
            } else if c@ == "played"@ {
                assert(statuses()[4] == s@);
            } else if c@ == "want_to_play"@ {
                assert(statuses()[5] == s@);
            } else {
                assert(statuses()[6] == s@);
            }
        }
    }
    r
}

/// Every status with its label, in display order.
pub fn status_options() -> (r: [(&'static str, &'static str); 7])
    ensures
        forall|i: int|
            0 <= i < 7 ==> (#[trigger] r@[i]).0@ == statuses()[i] && r@[i].1@ == status_labels()[i],
{
    let r = [
        ("owned", "Owned"),
        ("wishlist", "Wishlist"),
        ("preordered", "Pre-ordered"),
        ("for_sale", "For Sale"),
        ("played", "Played"),
        ("want_to_play", "Want to Play"),
        ("want_to_trade", "Want to Trade"),
    ];
    assert(forall|i: int|
        0 <= i < 7 ==> (#[trigger] r@[i]).0@ == statuses()[i] && r@[i].1@ == status_labels()[i]);
    r
}

/// The query string of a collection page.
pub struct CollectionQuery {
    pub status: Option<String>,
}

/// The status a collection page is filtered by: the requested one if it is a
/// known status, none otherwise.
pub fn status_filter(q: &CollectionQuery) -> (r: Option<String>)
    ensures
        opt_view(r) == match q.status {
            Some(s) => if statuses().contains(s@) {
                Some(s@)
            } else {
                None
            },
            None => None,
        },
{
    match &q.status {
        Some(s) => if is_valid_status(s.as_str()) {
            Some(s.clone())
        } else {
            None
        },
        None => None,
    }
}

/// A game in a collection as read from the database; `weight` is already
/// written with one decimal, and `statuses` lists the user's statuses for
/// the game separated by commas.
pub struct CollectionRow {
    pub id: i64,
    pub name: String,
    pub year_published: Option<i32>,
    pub min_players: Option<i32>,
    pub max_players: Option<i32>,
    pub weight: Option<String>,
    pub thumbnail_url: Option<String>,
    pub statuses: String,
}

/// A game as a collection page shows it, with one flag per status.
pub struct CollectionEntry {
    pub id: i64,
    pub name: String,
    pub year_published: Option<i32>,
    pub min_players: Option<i32>,
    pub max_players: Option<i32>,
    pub weight: Option<String>,
    pub thumbnail_url: Option<String>,
    pub is_owned: bool,
    pub is_wishlist: bool,
    pub is_preordered: bool,
    pub is_for_sale: bool,
    pub is_played: bool,
    pub is_want_to_play: bool,
    pub is_want_to_trade: bool,
}

/// Whether the comma-separated list `list` names `status`.
pub open spec fn lists_status(list: Seq<char>, status: Seq<char>) -> bool {
    spec_split(list, ',').contains(status)
}

fn piece_is(pieces: &Vec<Vec<char>>, lit: &str) -> (r: bool)
    ensures
        r == pieces@.map_values(|l: Vec<char>| l@).contains(lit@),
{
    let ghost pv = pieces@.map_values(|l: Vec<char>| l@);
    let mut i: usize = 0;
    while i < pieces.len()
        invariant
            i <= pieces.len(),
            pv == pieces@.map_values(|l: Vec<char>| l@),
            forall|j: int| 0 <= j < i ==> pv[j] != lit@,
        decreases pieces.len() - i,
    {
        if chars_eq_str(&pieces[i], lit) {
            assert(pv[i as int] == lit@);
            return true;
        }
        i = i + 1;
    }
    false
}

impl CollectionEntry {
    /// The entry shown for a collection row: its fields as read, and a flag
    /// for each status that the row's list names exactly.
    pub fn from_row(row: CollectionRow) -> (r: CollectionEntry)
        ensures
            r.id == row.id,
            r.name@ == row.name@,
            r.year_published == row.year_published,
            r.min_players == row.min_players,
            r.max_players == row.max_players,
            opt_view(r.weight) == opt_view(row.weight),
            opt_view(r.thumbnail_url) == opt_view(row.thumbnail_url),
            r.is_owned == lists_status(row.statuses@, "owned"@),
            r.is_wishlist == lists_status(row.statuses@, "wishlist"@),
            r.is_preordered == lists_status(row.statuses@, "preordered"@),
            r.is_for_sale == lists_status(row.statuses@, "for_sale"@),
            r.is_played == lists_status(row.statuses@, "played"@),
            r.is_want_to_play == lists_status(row.statuses@, "want_to_play"@),
            r.is_want_to_trade == lists_status(row.statuses@, "want_to_trade"@),
    {
        let c = chars_of(row.statuses.as_str());
        let pieces = split(&c, ',');
        CollectionEntry {
            id: row.id,
            is_owned: piece_is(&pieces, "owned"),
            is_wishlist: piece_is(&pieces, "wishlist"),
            is_preordered: piece_is(&pieces, "preordered"),
            is_for_sale: piece_is(&pieces, "for_sale"),
            is_played: piece_is(&pieces, "played"),
            is_want_to_play: piece_is(&pieces, "want_to_play"),
            is_want_to_trade: piece_is(&pieces, "want_to_trade"),
            name: row.name,
            year_published: row.year_published,
            min_players: row.min_players,
            max_players: row.max_players,
            weight: row.weight,
            thumbnail_url: row.thumbnail_url,
        }
    }
}

// ---------------------------------------------------------------------------
// Adding games
// ---------------------------------------------------------------------------
/// The search box of the add-a-game page.
pub struct SearchQuery {
    pub q: Option<String>,
}

/// The query string of a BoardGameGeek preview.
pub struct PreviewQuery {
    pub q: Option<String>,
}

/// What the add-a-game page does with a search.
#[derive(PartialEq, Eq, Debug)]
pub enum SearchPlan {
    /// Nothing was asked: no results, no message.
    Idle,
    /// No API token is set up: this message instead of results.
    Unavailable(&'static str),
    /// Search BoardGameGeek for this (trimmed) text.
    Search(String),
}

pub const NO_TOKEN_MESSAGE: &'static str = "BoardGameGeek search isn't set up on this instance yet — an admin needs to add an API token under Admin console > BGG. You can add this game manually instead.";
pub const NO_RESULTS_MESSAGE: &'static str = "No games found on BoardGameGeek for that search.";
pub const SEARCH_FAILED_MESSAGE: &'static str = "Couldn't reach BoardGameGeek right now. You can add this game manually instead.";

/// What to do with the search box's text: nothing when it is blank, the
/// set-up message without a token, otherwise search for the trimmed text.
pub fn search_plan(query: &str, has_token: bool) -> (r: SearchPlan)
    ensures
        spec_trim(query@).len() == 0 ==> r == SearchPlan::Idle,
        spec_trim(query@).len() > 0 && !has_token ==> r == SearchPlan::Unavailable(NO_TOKEN_MESSAGE),
        spec_trim(query@).len() > 0 && has_token ==> (r matches SearchPlan::Search(t) && t@
            == spec_trim(query@)),
{
    let q = chars_of(query);
    let t = trim(&q);
    if t.len() == 0 {
        SearchPlan::Idle
    } else if !has_token {
        SearchPlan::Unavailable(NO_TOKEN_MESSAGE)
    } else {
        SearchPlan::Search(string_of(&t))
    }
}

/// The message shown after a search: none when results came back, a
/// no-results note for an empty list, and a could-not-reach note on error.
pub fn search_message(result_count: Option<usize>) -> (r: Option<&'static str>)
    ensures
        r == match result_count {
            Some(n) => if n == 0 {
                Some(NO_RESULTS_MESSAGE)
            } else {
                None
            },
            None => Some(SEARCH_FAILED_MESSAGE),
        },
{
    match result_count {
        Some(n) => if n == 0 {
            Some(NO_RESULTS_MESSAGE)
        } else {
            None
        },
        None => Some(SEARCH_FAILED_MESSAGE),
    }
}

/// The form that adds a game found on BoardGameGeek.
pub struct AddFromBggForm {
    pub bgg_id: i64,
    pub status: String,
}

/// The form that adds a game by hand. The numbers are text so that a blank
/// field means "not given" instead of refusing the form.
pub struct ManualAddForm {
    pub name: String,
    pub min_players: String,
    pub max_players: String,
    pub status: String,
}

/// A hand-entered game to store.
pub struct ManualGame {
    pub name: String,
    pub min_players: Option<i32>,
    pub max_players: Option<i32>,
}

/// Why a hand-entered game was refused.
#[derive(PartialEq, Eq, Structural, Clone, Copy, Debug)]
pub enum ManualAddError {
    EmptyName,
    InvalidStatus,
}

impl ManualAddError {
    pub fn message(&self) -> (r: &'static str)
        ensures
            r@ == match *self {
                ManualAddError::EmptyName => "Game name can't be empty."@,
                ManualAddError::InvalidStatus => "Invalid status."@,
            },
    {
        match self {
            ManualAddError::EmptyName => "Game name can't be empty.",
            ManualAddError::InvalidStatus => "Invalid status.",
        }
    }
}

pub const DUPLICATE_GAME_MESSAGE: &'static str = "A game with that name is already in the system.";

/// Checks a hand-entered game: the trimmed name must not be blank, then the
/// status must be known; player counts are kept when their trimmed text is
/// a whole number.
pub fn check_manual_add(form: &ManualAddForm) -> (r: Result<ManualGame, ManualAddError>)
    ensures
        spec_trim(form.name@).len() == 0 <==> r == Err::<ManualGame, ManualAddError>(ManualAddError::EmptyName),
        spec_trim(form.name@).len() > 0 && !statuses().contains(form.status@) <==> r == Err::<
            ManualGame,
            ManualAddError,
        >(ManualAddError::InvalidStatus),
        r matches Ok(g) ==> {
            &&& g.name@ == spec_trim(form.name@)
            &&& g.min_players == spec_parse_i32(spec_trim(form.min_players@))
            &&& g.max_players == spec_parse_i32(spec_trim(form.max_players@))
        },
{
    let n = chars_of(form.name.as_str());
    let name = trim(&n);
    if name.len() == 0 {
        return Err(ManualAddError::EmptyName);
    }
    if !is_valid_status(form.status.as_str()) {
        return Err(ManualAddError::InvalidStatus);
    }
    let minc = chars_of(form.min_players.as_str());
    let maxc = chars_of(form.max_players.as_str());
    Ok(ManualGame {
        name: string_of(&name),
        min_players: parse_i32(&trim(&minc)),
        max_players: parse_i32(&trim(&maxc)),
    })
}

/// What saving a BoardGameGeek game does, given what is already stored.
#[derive(PartialEq, Eq, Structural, Clone, Copy, Debug)]
pub enum GameUpsert {
    /// A game with this BoardGameGeek id exists: use it.
    Existing(i64),
    /// A game with the same name (in any case) exists: use it, first filling
    /// in the BoardGameGeek details when it was entered by hand.
    SameName { id: i64, fill_in_details: bool },
    /// Nothing matches: insert a new game.
    Insert,
}

/// The plan for saving a BoardGameGeek game, given the stored game with its
/// BoardGameGeek id (if any) and the stored game with its name in any case
/// (id and BoardGameGeek id, if any).
pub open spec fn spec_plan_game_upsert(by_bgg_id: Option<i64>, by_name: Option<(i64, Option<i64>)>) -> GameUpsert {
    match by_bgg_id {
        Some(id) => GameUpsert::Existing(id),
        None => match by_name {
            Some((id, bgg)) => GameUpsert::SameName { id, fill_in_details: bgg is None },
            None => GameUpsert::Insert,
        },
    }
}

/// The game a plan ends on, where `new_id` is the id an insert gets.
pub open spec fn upsert_target(p: GameUpsert, new_id: i64) -> i64 {
    match p {
        GameUpsert::Existing(id) => id,
        GameUpsert::SameName { id, .. } => id,
        GameUpsert::Insert => new_id,
    }
}

/// Whether carrying out the plan leaves the target game stored under the
/// BoardGameGeek id it was looked up by: every plan but reusing a same-named
/// game that already has another BoardGameGeek id.
pub open spec fn stores_bgg_id(p: GameUpsert) -> bool {
    !(p matches GameUpsert::SameName { fill_in_details: false, .. })
}

/// Decides how a BoardGameGeek game is saved: by its BoardGameGeek id first,
/// then by name, so that names stay unique and a hand-entered game is
/// upgraded in place rather than duplicated.
pub fn plan_game_upsert(by_bgg_id: Option<i64>, by_name: Option<(i64, Option<i64>)>) -> (r: GameUpsert)
    ensures
        r == spec_plan_game_upsert(by_bgg_id, by_name),
{
    match by_bgg_id {
        Some(id) => GameUpsert::Existing(id),
        None => match by_name {
            Some((id, bgg)) => GameUpsert::SameName { id, fill_in_details: bgg.is_none() },
            None => GameUpsert::Insert,
        },
    }
}

/// Saving the same BoardGameGeek game twice inserts at most once: the second
/// save lands on the game the first one ended on and inserts nothing. After
/// the first save, the lookup by BoardGameGeek id finds that game when the
/// first save stored the id on it (`again_by_name` is then whatever the name
/// lookup finds); otherwise nothing was written, so both lookups find what
/// they found the first time.
pub proof fn law_second_upsert_inserts_nothing(
    by_bgg_id: Option<i64>,
    by_name: Option<(i64, Option<i64>)>,
    new_id: i64,
    again_by_name: Option<(i64, Option<i64>)>,
    again_new_id: i64,
)
    ensures
        ({
            let first = spec_plan_game_upsert(by_bgg_id, by_name);
            let id = upsert_target(first, new_id);
            let second = if stores_bgg_id(first) {
                spec_plan_game_upsert(Some(id), again_by_name)
            } else {
                spec_plan_game_upsert(by_bgg_id, by_name)
            };
            &&& second != GameUpsert::Insert
            &&& upsert_target(second, again_new_id) == id
            &&& !(second matches GameUpsert::SameName { fill_in_details: true, .. })
        }),
{
}

// ---------------------------------------------------------------------------
// Going back after a status change
// ---------------------------------------------------------------------------
/// The path part of a `Referer` value: what follows the first `/` after its
/// first `://`, with that `/`. `None` when either is missing.
pub open spec fn referer_path(referer: Seq<char>) -> Option<Seq<char>> {
    match first_occurrence(referer, "://"@) {
        Some(i) => {
            let rest = referer.subrange(i + 3, referer.len() as int);
            match spec_split_once(rest, '/') {
                Some((_, after)) => Some(seq!['/'] + after),
                None => None,
            }
        },
        None => None,
    }
}

/// A path that stays on this site: it starts with `/`, and its second
/// character is not `/` or `\`, either of which a browser would read as the
/// start of another host's name.
pub open spec fn is_site_path(p: Seq<char>) -> bool {
    &&& p.len() > 0
    &&& p[0] == '/'
    &&& !(p.len() > 1 && (p[1] == '/' || p[1] == '\\'))
}

pub open spec fn spec_redirect_back(referer: Option<Seq<char>>, username: Seq<char>) -> Seq<char> {
    match referer {
        Some(r) => match referer_path(r) {
            Some(p) => if is_site_path(p) {
                p
            } else {
                "/collection/"@ + username
            },
            None => "/collection/"@ + username,
        },
        None => "/collection/"@ + username,
    }
}

/// Where a status change sends the user back to: the path of the page it
/// came from (never its scheme or host), or the user's collection when the
/// browser sent no usable `Referer` or its path would lead off this site.
pub fn redirect_back(referer: Option<&str>, fallback_username: &str) -> (r: String)
    ensures
        r@ == spec_redirect_back(
            match referer {
                Some(t) => Some(t@),
                None => None,
            },
            fallback_username@,
        ),
{
    let mut fallback: Vec<char> = Vec::new();
    push_str(&mut fallback, "/collection/");
    push_str(&mut fallback, fallback_username);
    let r = match referer {
        Some(t) => t,
        None => {
            return string_of(&fallback);
        },
    };
    let rc = chars_of(r);
    match find(&rc, "://") {
        Some(i) => {
            proof {
                reveal_strlit("://");
                assert("://"@.len() == 3);
                assert(crate::text::occurs_at(rc@, "://"@, i as int));
                assert(i + 3 <= rc@.len());
                assert(rc@.len() == rc.len());
            }
            let rest = copy_range(&rc, i + 3, rc.len());
            match split_once(&rest, '/') {
                Some((_, after)) => {
                    if after.len() > 0 && (after[0] == '/' || after[0] == '\\') {
                        return string_of(&fallback);
                    }
                    let mut out: Vec<char> = Vec::new();
                    out.push('/');
                    push_all(&mut out, &after);
                    assert(out@ =~= seq!['/'] + after@);
                    string_of(&out)
                },
                None => string_of(&fallback),
            }
        },
        None => string_of(&fallback),
    }
}

/// The page a status change goes back to is always a path on this site: it
/// starts with `/`, and never with `//` or `/\`, so no `Referer` can send
/// the user to another host.
pub proof fn law_redirect_stays_on_site(referer: Option<Seq<char>>, username: Seq<char>)
    ensures
        is_site_path(spec_redirect_back(referer, username)),
{
    reveal_strlit("/collection/");
    assert(("/collection/"@ + username)[1] == 'c');
}

// ---------------------------------------------------------------------------
// A game's statuses for one user
// ---------------------------------------------------------------------------
/// Which statuses a user has given one game.
#[derive(PartialEq, Eq, Structural, Clone, Copy, Debug)]
pub struct StatusFlags {
    pub is_owned: bool,
    pub is_wishlist: bool,
    pub is_preordered: bool,
    pub is_for_sale: bool,
    pub is_played: bool,
    pub is_want_to_play: bool,
    pub is_want_to_trade: bool,
}

fn listed(list: &Vec<String>, lit: &str) -> (r: bool)
    ensures
        r == crate::text::strings_view(list@).contains(lit@),
{
    let ghost lv = crate::text::strings_view(list@);
    let mut i: usize = 0;
    while i < list.len()
        invariant
            i <= list.len(),
            lv == crate::text::strings_view(list@),
            forall|j: int| 0 <= j < i ==> lv[j] != lit@,
        decreases list.len() - i,
    {
        let c = chars_of(list[i].as_str());
        if chars_eq_str(&c, lit) {
            assert(lv[i as int] == lit@);
            return true;
        }
        i = i + 1;
    }
    false
}

/// The flags for the statuses in `list` (each status as stored).
pub fn status_flags(list: &Vec<String>) -> (r: StatusFlags)
    ensures
        r.is_owned == crate::text::strings_view(list@).contains("owned"@),
        r.is_wishlist == crate::text::strings_view(list@).contains("wishlist"@),
        r.is_preordered == crate::text::strings_view(list@).contains("preordered"@),
        r.is_for_sale == crate::text::strings_view(list@).contains("for_sale"@),
        r.is_played == crate::text::strings_view(list@).contains("played"@),
        r.is_want_to_play == crate::text::strings_view(list@).contains("want_to_play"@),
        r.is_want_to_trade == crate::text::strings_view(list@).contains("want_to_trade"@),
{
    StatusFlags {
        is_owned: listed(list, "owned"),
        is_wishlist: listed(list, "wishlist"),
        is_preordered: listed(list, "preordered"),
        is_for_sale: listed(list, "for_sale"),
        is_played: listed(list, "played"),
        is_want_to_play: listed(list, "want_to_play"),
        is_want_to_trade: listed(list, "want_to_trade"),
    }
}

} // verus!
