//! Importing a BG Catalog export: cleaning its text fields, mapping its
//! players, and tallying what was brought in.
//!
//! Games are matched by their BoardGameGeek id, every player except the
//! export's own "me" becomes a guest, and imported plays are private.

use vstd::prelude::*;
use std::collections::{HashMap, HashSet};

use crate::photos::{photo_path, spec_photo_path};
use crate::plays::{LinkStatus, Visibility};
use crate::text::{
    after_last, chars_eq_str, chars_of, decimal_i64, ends_with, lines, lower_case_of, push_all,
    push_str, spec_after_last, spec_decimal, spec_ends_with, spec_join, spec_lines,
    spec_split_once, spec_trim, split_once, string_of, to_lower, trim,
};

verus! {

/// What an import brought in, and what it had to leave out.
pub struct ImportSummary {
    pub games_created: usize,
    pub games_matched: usize,
    pub games_added_to_collection: usize,
    pub locations_imported: usize,
    pub guest_players_created: usize,
    pub plays_imported: usize,
    pub player_play_records: usize,
    pub photos_copied: usize,
    pub skipped: Vec<String>,
}

impl ImportSummary {
    pub open spec fn is_empty(&self) -> bool {
        &&& self.games_created == 0
        &&& self.games_matched == 0
        &&& self.games_added_to_collection == 0
        &&& self.locations_imported == 0
        &&& self.guest_players_created == 0
        &&& self.plays_imported == 0
        &&& self.player_play_records == 0
        &&& self.photos_copied == 0
        &&& self.skipped@.len() == 0
    }
}

impl Default for ImportSummary {
    /// A summary of nothing imported yet.
    fn default() -> (r: Self)
        ensures
            r.is_empty(),
    {
        ImportSummary {
            games_created: 0,
            games_matched: 0,
            games_added_to_collection: 0,
            locations_imported: 0,
            guest_players_created: 0,
            plays_imported: 0,
            player_play_records: 0,
            photos_copied: 0,
            skipped: Vec::new(),
        }
    }
}

/// The two hashtags BG Catalog appends to notes.
pub open spec fn is_catalog_tag(line: Seq<char>) -> bool {
    spec_trim(line) == "#BGCatalog"@ || spec_trim(line) == "#BGGCatalog"@
}

/// A notes field with every line that is only one of BG Catalog's hashtags
/// left out, the rest joined by line breaks and trimmed; `None` when nothing
/// is left (or there were no notes).
pub open spec fn spec_clean_notes(raw: Option<Seq<char>>) -> Option<Seq<char>> {
    match raw {
        None => None,
        Some(r) => {
            let kept = spec_lines(r).filter(|l: Seq<char>| !is_catalog_tag(l));
            let joined = spec_trim(spec_join(kept, "\n"@));
            if joined.len() == 0 {
                None
            } else {
                Some(joined)
            }
        },
    }
}

/// Strips BG Catalog's "#BGCatalog" / "#BGGCatalog" hashtag lines out of a
/// notes field, wherever they appear.
pub fn clean_notes(raw: Option<&str>) -> (r: Option<String>)
    ensures
        match r {
            Some(s) => spec_clean_notes(match raw {
                Some(t) => Some(t@),
                None => None,
            }) == Some(s@),
            None => spec_clean_notes(match raw {
                Some(t) => Some(t@),
                None => None,
            }) is None,
        },
{
    let raw = match raw {
        Some(t) => t,
        None => {
            return None;
        },
    };
    let cs = chars_of(raw);
    let ls = lines(&cs);
    let ghost lv = ls@.map_values(|l: Vec<char>| l@);
    let ghost keep = |l: Seq<char>| !is_catalog_tag(l);
    let mut out: Vec<char> = Vec::new();
    let mut count: usize = 0;
    let mut i: usize = 0;
    while i < ls.len()
        invariant
            i <= ls.len(),
            lv == ls@.map_values(|l: Vec<char>| l@),
            keep == (|l: Seq<char>| !is_catalog_tag(l)),
            out@ == spec_join(lv.take(i as int).filter(keep), "\n"@),
            count == lv.take(i as int).filter(keep).len(),
            count <= i,
        decreases ls.len() - i,
    {
        let line = &ls[i];
        let t = trim(line);
        let tag = chars_eq_str(&t, "#BGCatalog") || chars_eq_str(&t, "#BGGCatalog");
        proof {
            assert(lv.take(i + 1) =~= lv.take(i as int).push(lv[i as int]));
            lv.take(i as int).lemma_filter_push(lv[i as int], keep);
            assert(lv[i as int] == line@);
        }
        if !tag {
            let ghost before = lv.take(i as int).filter(keep);
            if count > 0 {
                push_str(&mut out, "\n");
            }
            push_all(&mut out, line);
            proof {
                let after = before.push(line@);
                assert(after.drop_last() =~= before);
                if before.len() == 0 {
                    assert(out@ =~= line@);
                } else {
                    assert(out@ =~= spec_join(before, "\n"@) + "\n"@ + line@);
                }
            }
            count = count + 1;
        }
        i = i + 1;
    }
    assert(lv.take(ls.len() as int) =~= lv);
    let joined = trim(&out);
    if joined.len() == 0 {
        None
    } else {
        Some(string_of(&joined))
    }
}

/// The last component of `name`, or `photo.jpg` when that is empty, `.` or
/// `..` (names that would point at the directory itself or its parent).
pub open spec fn spec_safe_filename(name: Seq<char>) -> Seq<char> {
    let last = spec_after_last(name, '/', '\\');
    if last.len() == 0 || last == "."@ || last == ".."@ {
        "photo.jpg"@
    } else {
        last
    }
}

/// A zip entry's file name cut down to its last component; `photo.jpg` when
/// nothing is left or what is left is `.` or `..`. The result is a plain
/// file name, so a crafted path (with `../`, say) can never name a file
/// outside the photo directory.
pub fn safe_filename(name: &str) -> (r: String)
    ensures
        r@ == spec_safe_filename(name@),
{
    let n = chars_of(name);
    let last = after_last(&n, '/', '\\');
    if last.len() == 0 || chars_eq_str(&last, ".") || chars_eq_str(&last, "..") {
        "photo.jpg".to_string()
    } else {
        string_of(&last)
    }
}

proof fn lemma_after_last_has_no_sep(s: Seq<char>, a: char, b: char)
    ensures
        forall|i: int|
            0 <= i < spec_after_last(s, a, b).len() ==> spec_after_last(s, a, b)[i] != a
                && spec_after_last(s, a, b)[i] != b,
    decreases s.len(),
{
    if s.len() > 0 && s.last() != a && s.last() != b {
        lemma_after_last_has_no_sep(s.drop_last(), a, b);
        let prev = spec_after_last(s.drop_last(), a, b);
        let cur = spec_after_last(s, a, b);
        assert(cur == prev.push(s.last()));
        assert forall|i: int| 0 <= i < cur.len() implies cur[i] != a && cur[i] != b by {
            if i < prev.len() {
                assert(cur[i] == prev[i]);
            }
        }
    }
}

/// A photo name taken from an export is a plain file name: not empty, not
/// `.` or `..`, and without a path separator, so the photo is written
/// directly into its play's own directory.
pub proof fn law_safe_filename_stays_in_directory(name: Seq<char>)
    ensures
        spec_safe_filename(name).len() > 0,
        spec_safe_filename(name) != "."@,
        spec_safe_filename(name) != ".."@,
        forall|i: int|
            0 <= i < spec_safe_filename(name).len() ==> spec_safe_filename(name)[i] != '/'
                && spec_safe_filename(name)[i] != '\\',
{
    reveal_strlit("photo.jpg");
    reveal_strlit(".");
    reveal_strlit("..");
    assert("photo.jpg"@.len() == 9);
    lemma_after_last_has_no_sep(name, '/', '\\');
}

/// Where an imported photo of play `play_id` is written.
pub fn imported_photo_path(play_id: i64, image: &str) -> (r: String)
    ensures
        r@ == spec_photo_path(play_id as int, spec_safe_filename(image@)),
{
    let name = safe_filename(image);
    photo_path(play_id, name.as_str())
}

/// Whether a zip entry is the export's JSON file (`.json` in any case).
pub fn is_json_entry(name: &str) -> (r: bool)
    ensures
        r == spec_ends_with(lower_case_of(name@), ".json"@),
{
    let lower = to_lower(name);
    let l = chars_of(lower.as_str());
    ends_with(&l, ".json")
}

/// The name a guest player gets: the export's name trimmed, or "Imported
/// player {id}" when that is blank.
pub open spec fn spec_guest_name(id: i64, name: Seq<char>) -> Seq<char> {
    if spec_trim(name).len() == 0 {
        "Imported player "@ + spec_decimal(id as int)
    } else {
        spec_trim(name)
    }
}

/// What an exported player becomes.
#[derive(PartialEq, Eq, Debug)]
pub enum PlayerTarget {
    /// Not used in any play: left out.
    Skip,
    /// The export's own "me": the importing admin's player.
    Admin(i64),
    /// A guest player found or created under this name.
    Guest(String),
}

pub ghost enum SpecPlayerTarget {
    Skip,
    Admin(i64),
    Guest(Seq<char>),
}

impl PlayerTarget {
    pub open spec fn view(&self) -> SpecPlayerTarget {
        match self {
            PlayerTarget::Skip => SpecPlayerTarget::Skip,
            PlayerTarget::Admin(id) => SpecPlayerTarget::Admin(*id),
            PlayerTarget::Guest(n) => SpecPlayerTarget::Guest(n@),
        }
    }
}

/// Only players used in some play are imported; the "me" player maps to the
/// admin's own player when the admin has one, and every other player becomes
/// a guest, never a guess at someone's account.
pub open spec fn spec_player_target(
    id: i64,
    name: Seq<char>,
    me: i32,
    used: bool,
    admin_player_id: Option<i64>,
) -> SpecPlayerTarget {
    if !used {
        SpecPlayerTarget::Skip
    } else if me != 0 && admin_player_id is Some {
        SpecPlayerTarget::Admin(admin_player_id->0)
    } else {
        SpecPlayerTarget::Guest(spec_guest_name(id, name))
    }
}

/// What the exported player `id` becomes; `used` says whether any exported
/// play record names it.
pub fn player_target(
    id: i64,
    name: &str,
    me: i32,
    used: bool,
    admin_player_id: Option<i64>,
) -> (r: PlayerTarget)
    ensures
        r.view() == spec_player_target(id, name@, me, used, admin_player_id),
{
    if !used {
        return PlayerTarget::Skip;
    }
    if me != 0 {
        if let Some(aid) = admin_player_id {
            return PlayerTarget::Admin(aid);
        }
    }
    let n = chars_of(name);
    let t = trim(&n);
    if t.len() == 0 {
        let mut out: Vec<char> = Vec::new();
        push_str(&mut out, "Imported player ");
        let d = decimal_i64(id);
        push_all(&mut out, &d);
        PlayerTarget::Guest(string_of(&out))
    } else {
        PlayerTarget::Guest(string_of(&t))
    }
}

/// Whether some exported play record names player `id`.
pub fn is_used_player(record_player_ids: &Vec<i64>, id: i64) -> (r: bool)
    ensures
        r == record_player_ids@.contains(id),
{
    let mut i: usize = 0;
    while i < record_player_ids.len()
        invariant
            i <= record_player_ids.len(),
            forall|j: int| 0 <= j < i ==> record_player_ids@[j] != id,
        decreases record_player_ids.len() - i,
    {
        if record_player_ids[i] == id {
            return true;
        }
        i = i + 1;
    }
    false
}

/// The date part of an exported play date: what comes before its first
/// space.
pub open spec fn spec_play_date_part(date: Seq<char>) -> Seq<char> {
    match spec_split_once(date, ' ') {
        Some((d, _)) => d,
        None => date,
    }
}

pub fn play_date_part(date: &str) -> (r: String)
    ensures
        r@ == spec_play_date_part(date@),
{
    let d = chars_of(date);
    match split_once(&d, ' ') {
        Some((a, _)) => string_of(&a),
        None => date.to_string(),
    }
}

/// The visibility an imported play is stored with: private, seen only by
/// the admin who imported it until they share it.
pub fn imported_play_visibility() -> (r: Visibility)
    ensures
        r == Visibility::Private,
{
    Visibility::Private
}

/// The status of an imported player record: approved for the admin's own
/// player, no link for everyone else.
pub open spec fn spec_imported_link_status(player_id: i64, admin_player_id: Option<i64>) -> LinkStatus {
    if admin_player_id == Some(player_id) {
        LinkStatus::Approved
    } else {
        LinkStatus::Unlinked
    }
}

pub fn imported_link_status(player_id: i64, admin_player_id: Option<i64>) -> (r: LinkStatus)
    ensures
        r == spec_imported_link_status(player_id, admin_player_id),
{
    match admin_player_id {
        Some(a) => if a == player_id {
            LinkStatus::Approved
        } else {
            LinkStatus::Unlinked
        },
        None => LinkStatus::Unlinked,
    }
}

/// Whether an exported winner flag marks a winner (absent means no).
pub fn is_winner_flag(winner: Option<i32>) -> (r: bool)
    ensures
        r == match winner {
            Some(w) => w != 0,
            None => false,
        },
{
    match winner {
        Some(w) => w != 0,
        None => false,
    }
}

/// Whether an exported image is copied: it must be a play photo of an
/// imported play that has room for one more photo.
pub fn should_copy_photo(image_type: &str, play_imported: bool, existing_count: i64) -> (r: bool)
    ensures
        r == (image_type@ == "play"@ && play_imported && existing_count < 5),
{
    let t = chars_of(image_type);
    chars_eq_str(&t, "play") && play_imported && existing_count < 5
}

/// The note for a game that could not be saved.
pub fn game_skipped(name: &str) -> (r: String)
    ensures
        r@ == "Game \""@ + name@ + "\" couldn't be saved"@,
{
    let mut out: Vec<char> = Vec::new();
    push_str(&mut out, "Game \"");
    push_str(&mut out, name);
    push_str(&mut out, "\" couldn't be saved");
    string_of(&out)
}

/// The note for a play whose game was not imported.
pub fn play_unknown_game(play_id: i64) -> (r: String)
    ensures
        r@ == "Play "@ + spec_decimal(play_id as int) + " references an unknown game"@,
{
    let mut out: Vec<char> = Vec::new();
    push_str(&mut out, "Play ");
    let d = decimal_i64(play_id);
    push_all(&mut out, &d);
    push_str(&mut out, " references an unknown game");
    string_of(&out)
}

/// The note for a play that could not be stored.
pub fn play_failed(play_id: i64, error: &str) -> (r: String)
    ensures
        r@ == "Play "@ + spec_decimal(play_id as int) + " failed: "@ + error@,
{
    let mut out: Vec<char> = Vec::new();
    push_str(&mut out, "Play ");
    let d = decimal_i64(play_id);
    push_all(&mut out, &d);
    push_str(&mut out, " failed: ");
    push_str(&mut out, error);
    string_of(&out)
}

/// The note for a photo the export lists but the zip lacks.
pub fn photo_missing(image: &str) -> (r: String)
    ensures
        r@ == "Photo "@ + image@ + " not found in zip"@,
{
    let mut out: Vec<char> = Vec::new();
    push_str(&mut out, "Photo ");
    push_str(&mut out, image);
    push_str(&mut out, " not found in zip");
    string_of(&out)
}

// ---------------------------------------------------------------------------
// The bookkeeping of one import
// ---------------------------------------------------------------------------
/// What an import has mapped so far: the export's ids of games, locations,
/// players and plays to this app's ids, the games that imported plays use,
/// and the summary.
pub struct ImportSession {
    pub summary: ImportSummary,
    pub games: HashMap<i64, i64>,
    pub locations: HashMap<i64, i64>,
    pub players: HashMap<i64, i64>,
    pub plays: HashMap<i64, i64>,
    pub played_games: HashSet<i64>,
    pub admin_player_id: Option<i64>,
}

/// The counters of a summary, in field order.
pub open spec fn counts(s: ImportSummary) -> Seq<int> {
    seq![
        s.games_created as int,
        s.games_matched as int,
        s.games_added_to_collection as int,
        s.locations_imported as int,
        s.guest_players_created as int,
        s.plays_imported as int,
        s.player_play_records as int,
        s.photos_copied as int,
    ]
}

pub open spec fn skipped_view(s: ImportSummary) -> Seq<Seq<char>> {
    crate::text::strings_view(s.skipped@)
}

/// `b` is `a` with counter `k` one higher and nothing else changed.
pub open spec fn bumped(a: ImportSummary, b: ImportSummary, k: int) -> bool {
    counts(b) == counts(a).update(k, counts(a)[k] + 1) && skipped_view(b) == skipped_view(a)
}

/// `b` is `a` with the note `note` added and the counters unchanged.
pub open spec fn noted(a: ImportSummary, b: ImportSummary, note: Seq<char>) -> bool {
    counts(b) == counts(a) && skipped_view(b) == skipped_view(a).push(note)
}

impl ImportSession {
    /// The maps and tallies other than the summary are the same in both.
    pub open spec fn same_maps(&self, other: &ImportSession) -> bool {
        &&& self.games@ == other.games@
        &&& self.locations@ == other.locations@
        &&& self.players@ == other.players@
        &&& self.plays@ == other.plays@
        &&& self.played_games@ == other.played_games@
        &&& self.admin_player_id == other.admin_player_id
    }

    /// An import that has done nothing yet, for the admin whose own player is
    /// `admin_player_id` (if they have one).
    pub fn new(admin_player_id: Option<i64>) -> (r: Self)
        ensures
            r.summary.is_empty(),
            r.games@.is_empty() && r.locations@.is_empty() && r.players@.is_empty() && r.plays@.is_empty(),
            r.played_games@.is_empty(),
            r.admin_player_id == admin_player_id,
    {
        ImportSession {
            summary: ImportSummary::default(),
            games: HashMap::new(),
            locations: HashMap::new(),
            players: HashMap::new(),
            plays: HashMap::new(),
            played_games: HashSet::new(),
            admin_player_id,
        }
    }

    fn note(&mut self, note: String)
        ensures
            noted(old(self).summary, final(self).summary, note@),
            final(self).same_maps(old(self)),
    {
        self.summary.skipped.push(note);
        assert(skipped_view(self.summary) =~= skipped_view(old(self).summary).push(note@));
    }

    /// Export game `old_id` was stored as game `new_id`: newly created, or
    /// matched to an existing game by its BoardGameGeek id.
    pub fn game_saved(&mut self, old_id: i64, new_id: i64, created: bool)
        requires
            old(self).summary.games_created < usize::MAX,
            old(self).summary.games_matched < usize::MAX,
        ensures
            final(self).games@ == old(self).games@.insert(old_id, new_id),
            bumped(old(self).summary, final(self).summary, if created { 0 } else { 1 }),
            final(self).locations@ == old(self).locations@,
            final(self).players@ == old(self).players@,
            final(self).plays@ == old(self).plays@,
            final(self).played_games@ == old(self).played_games@,
            final(self).admin_player_id == old(self).admin_player_id,
    {
        broadcast use vstd::std_specs::hash::group_hash_axioms;
        self.games.insert(old_id, new_id);
        if created {
            self.summary.games_created = self.summary.games_created + 1;
        } else {
            self.summary.games_matched = self.summary.games_matched + 1;
        }
        assert(counts(self.summary) =~= counts(old(self).summary).update(
            if created { 0 } else { 1 },
            counts(old(self).summary)[if created { 0 } else { 1 }] + 1,
        ));
    }

    /// An export game could not be stored.
    pub fn game_failed(&mut self, name: &str)
        ensures
            noted(old(self).summary, final(self).summary, "Game \""@ + name@ + "\" couldn't be saved"@),
            final(self).same_maps(old(self)),
    {
        let n = game_skipped(name);
        self.note(n);
    }

    /// Export location `old_id` was found or created as location `new_id`.
    pub fn location_saved(&mut self, old_id: i64, new_id: i64)
        requires
            old(self).summary.locations_imported < usize::MAX,
        ensures
            final(self).locations@ == old(self).locations@.insert(old_id, new_id),
            bumped(old(self).summary, final(self).summary, 3),
            final(self).games@ == old(self).games@,
            final(self).players@ == old(self).players@,
            final(self).plays@ == old(self).plays@,
            final(self).played_games@ == old(self).played_games@,
            final(self).admin_player_id == old(self).admin_player_id,
    {
        broadcast use vstd::std_specs::hash::group_hash_axioms;
        self.locations.insert(old_id, new_id);
        self.summary.locations_imported = self.summary.locations_imported + 1;
        assert(counts(self.summary) =~= counts(old(self).summary).update(3, counts(old(self).summary)[3] + 1));
    }

    /// Export player `old_id` maps to player `new_id`; a guest found or
    /// created for the import counts as a guest player.
    pub fn player_mapped(&mut self, old_id: i64, new_id: i64, is_guest: bool)
        requires
            old(self).summary.guest_players_created < usize::MAX,
        ensures
            final(self).players@ == old(self).players@.insert(old_id, new_id),
            is_guest ==> bumped(old(self).summary, final(self).summary, 4),
            !is_guest ==> final(self).summary == old(self).summary,
            final(self).games@ == old(self).games@,
            final(self).locations@ == old(self).locations@,
            final(self).plays@ == old(self).plays@,
            final(self).played_games@ == old(self).played_games@,
            final(self).admin_player_id == old(self).admin_player_id,
    {
        broadcast use vstd::std_specs::hash::group_hash_axioms;
        self.players.insert(old_id, new_id);
        if is_guest {
            self.summary.guest_players_created = self.summary.guest_players_created + 1;
            assert(counts(self.summary) =~= counts(old(self).summary).update(4, counts(old(self).summary)[4] + 1));
        }
    }

    /// Where an export play goes: the imported game it is of and the imported
    /// location it took place at (none when the export names none, or one
    /// that was not imported); `None` when its game was not imported.
    pub fn play_target(&self, game_id: i64, location_id: Option<i64>) -> (r: Option<(i64, Option<i64>)>)
        ensures
            match r {
                Some((g, l)) => self.games@.contains_key(game_id) && g == self.games@[game_id]
                    && l == match location_id {
                        Some(old) => if self.locations@.contains_key(old) {
                            Some(self.locations@[old])
                        } else {
                            None
                        },
                        None => None,
                    },
                None => !self.games@.contains_key(game_id),
            },
    {
        broadcast use vstd::std_specs::hash::group_hash_axioms;
        let g = match self.games.get(&game_id) {
            Some(g) => *g,
            None => {
                return None;
            },
        };
        let l = match location_id {
            Some(old) => match self.locations.get(&old) {
                Some(n) => Some(*n),
                None => None,
            },
            None => None,
        };
        Some((g, l))
    }

    /// An export play names a game that was not imported.
    pub fn play_unknown_game(&mut self, play_id: i64)
        ensures
            noted(
                old(self).summary,
                final(self).summary,
                "Play "@ + crate::text::spec_decimal(play_id as int) + " references an unknown game"@,
            ),
            final(self).same_maps(old(self)),
    {
        let n = play_unknown_game(play_id);
        self.note(n);
    }

    /// Export play `old_id` was stored as play `new_id` of game `game_id`.
    pub fn play_saved(&mut self, old_id: i64, new_id: i64, game_id: i64)
        requires
            old(self).summary.plays_imported < usize::MAX,
        ensures
            final(self).plays@ == old(self).plays@.insert(old_id, new_id),
            final(self).played_games@ == old(self).played_games@.insert(game_id),
            bumped(old(self).summary, final(self).summary, 5),
            final(self).games@ == old(self).games@,
            final(self).locations@ == old(self).locations@,
            final(self).players@ == old(self).players@,
            final(self).admin_player_id == old(self).admin_player_id,
    {
        broadcast use vstd::std_specs::hash::group_hash_axioms;
        self.plays.insert(old_id, new_id);
        self.played_games.insert(game_id);
        self.summary.plays_imported = self.summary.plays_imported + 1;
        assert(counts(self.summary) =~= counts(old(self).summary).update(5, counts(old(self).summary)[5] + 1));
    }

    /// Export play `play_id` could not be stored.
    pub fn play_not_saved(&mut self, play_id: i64, error: &str)
        ensures
            noted(
                old(self).summary,
                final(self).summary,
                "Play "@ + crate::text::spec_decimal(play_id as int) + " failed: "@ + error@,
            ),
            final(self).same_maps(old(self)),
    {
        let n = play_failed(play_id, error);
        self.note(n);
    }

    /// A game used by an imported play was added to the admin's collection
    /// when `rows_added` is not zero (it may have been there already).
    pub fn collection_added(&mut self, rows_added: u64)
        requires
            old(self).summary.games_added_to_collection < usize::MAX,
        ensures
            rows_added > 0 ==> bumped(old(self).summary, final(self).summary, 2),
            rows_added == 0 ==> final(self).summary == old(self).summary,
            final(self).same_maps(old(self)),
    {
        if rows_added > 0 {
            self.summary.games_added_to_collection = self.summary.games_added_to_collection + 1;
            assert(counts(self.summary) =~= counts(old(self).summary).update(2, counts(old(self).summary)[2] + 1));
        }
    }

    /// Where an export score record goes: the imported play and player it
    /// names, and the status of the new record; `None` when either was not
    /// imported.
    pub fn record_target(&self, play_id: i64, player_id: i64) -> (r: Option<(i64, i64, LinkStatus)>)
        ensures
            match r {
                Some((p, q, s)) => self.plays@.contains_key(play_id) && self.players@.contains_key(player_id)
                    && p == self.plays@[play_id] && q == self.players@[player_id]
                    && s == spec_imported_link_status(q, self.admin_player_id),
                None => !self.plays@.contains_key(play_id) || !self.players@.contains_key(player_id),
            },
    {
        broadcast use vstd::std_specs::hash::group_hash_axioms;
        let p = match self.plays.get(&play_id) {
            Some(p) => *p,
            None => {
                return None;
            },
        };
        let q = match self.players.get(&player_id) {
            Some(q) => *q,
            None => {
                return None;
            },
        };
        Some((p, q, imported_link_status(q, self.admin_player_id)))
    }

    /// A score record was stored.
    pub fn record_saved(&mut self)
        requires
            old(self).summary.player_play_records < usize::MAX,
        ensures
            bumped(old(self).summary, final(self).summary, 6),
            final(self).same_maps(old(self)),
    {
        self.summary.player_play_records = self.summary.player_play_records + 1;
        assert(counts(self.summary) =~= counts(old(self).summary).update(6, counts(old(self).summary)[6] + 1));
    }

    /// The imported play an export image belongs to, if it was imported.
    pub fn photo_play(&self, object_id: i64) -> (r: Option<i64>)
        ensures
            match r {
                Some(p) => self.plays@.contains_key(object_id) && p == self.plays@[object_id],
                None => !self.plays@.contains_key(object_id),
            },
    {
        broadcast use vstd::std_specs::hash::group_hash_axioms;
        match self.plays.get(&object_id) {
            Some(p) => Some(*p),
            None => None,
        }
    }

    /// An image the export lists is missing from the archive.
    pub fn photo_missing(&mut self, image: &str)
        ensures
            noted(old(self).summary, final(self).summary, "Photo "@ + image@ + " not found in zip"@),
            final(self).same_maps(old(self)),
    {
        let n = photo_missing(image);
        self.note(n);
    }

    /// A photo was copied.
    pub fn photo_copied(&mut self)
        requires
            old(self).summary.photos_copied < usize::MAX,
        ensures
            bumped(old(self).summary, final(self).summary, 7),
            final(self).same_maps(old(self)),
    {
        self.summary.photos_copied = self.summary.photos_copied + 1;
        assert(counts(self.summary) =~= counts(old(self).summary).update(7, counts(old(self).summary)[7] + 1));
    }
}

} // verus!
