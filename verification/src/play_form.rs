//! The log-a-play and edit-a-play forms: what a submitted form asks to store,
//! who gets tagged, and what happens to each player already on a play.

use vstd::prelude::*;

use crate::form::{
    field, fields_view, form_get, has_field, id_key, key_for, nonblank, spec_nonblank,
};
use crate::plays::{spec_tag_status, tag_status, LinkStatus, Visibility};
use crate::text::{
    chars_of, opt_view, parse_i64, spec_parse_i64, spec_trim, string_of, trim,
};

verus! {

/// The guest rows the forms offer.
pub const GUEST_SLOTS: [i32; 4] = [1, 2, 3, 4];

/// What the form asks to store for the play itself.
pub struct PlayInput {
    pub game_id: i64,
    pub play_date: String,
    pub visibility: Visibility,
    pub location: Option<String>,
    pub duration_minutes: Option<i64>,
    pub notes: Option<String>,
}

pub type SpecPlayInput = (i64, Seq<char>, Visibility, Option<Seq<char>>, Option<i64>, Option<Seq<char>>);

impl PlayInput {
    pub open spec fn view(&self) -> SpecPlayInput {
        (
            self.game_id,
            self.play_date@,
            self.visibility,
            opt_view(self.location),
            self.duration_minutes,
            opt_view(self.notes),
        )
    }
}

/// Why a play form was refused.
#[derive(PartialEq, Eq, Structural, Clone, Copy, Debug)]
pub enum PlayFormError {
    /// No game, or a game id that is not a whole number.
    NoGame,
    /// The date is missing or blank.
    NoDate,
    /// The visibility is not one of the three known words.
    BadVisibility,
}

impl PlayFormError {
    /// The message the log-a-play page shows.
    pub fn create_message(&self) -> (r: &'static str)
        ensures
            r@ == match *self {
                PlayFormError::NoGame => "Please choose a game."@,
                PlayFormError::NoDate => "Please choose a date."@,
                PlayFormError::BadVisibility => "Invalid visibility."@,
            },
    {
        match self {
            PlayFormError::NoGame => "Please choose a game.",
            PlayFormError::NoDate => "Please choose a date.",
            PlayFormError::BadVisibility => "Invalid visibility.",
        }
    }

    /// The message an edit answers with (as a bad request).
    pub fn update_message(&self) -> (r: &'static str)
        ensures
            r@ == match *self {
                PlayFormError::NoGame => "Invalid game"@,
                _ => "Invalid date or visibility"@,
            },
    {
        match self {
            PlayFormError::NoGame => "Invalid game",
            _ => "Invalid date or visibility",
        }
    }
}

pub open spec fn opt_parse_i64(o: Option<Seq<char>>) -> Option<i64> {
    match o {
        Some(s) => spec_parse_i64(s),
        None => None,
    }
}

pub open spec fn visibility_named(s: Seq<char>) -> Option<Visibility> {
    if s == Visibility::Public.text() {
        Some(Visibility::Public)
    } else if s == Visibility::LinkedOnly.text() {
        Some(Visibility::LinkedOnly)
    } else if s == Visibility::Private.text() {
        Some(Visibility::Private)
    } else {
        None
    }
}

/// What a submitted play form asks for. The game id must parse as it is;
/// the date must not be blank (it is stored as sent); the visibility defaults
/// to public and must be one of the three words; location and notes are
/// trimmed and dropped when blank; the duration is kept only if its trimmed
/// text is a whole number. Errors are reported in that order.
pub open spec fn spec_play_form(f: Seq<(Seq<char>, Seq<char>)>) -> Result<SpecPlayInput, PlayFormError> {
    let game = opt_parse_i64(form_get(f, "game_id"@));
    let date = match form_get(f, "play_date"@) {
        Some(d) => d,
        None => seq![],
    };
    let vis = match form_get(f, "visibility"@) {
        Some(v) => v,
        None => "public"@,
    };
    if game is None {
        Err(PlayFormError::NoGame)
    } else if spec_trim(date).len() == 0 {
        Err(PlayFormError::NoDate)
    } else if visibility_named(vis) is None {
        Err(PlayFormError::BadVisibility)
    } else {
        Ok(
            (
                game->0,
                date,
                visibility_named(vis)->0,
                spec_nonblank(form_get(f, "location"@)),
                match form_get(f, "duration_minutes"@) {
                    Some(d) => spec_parse_i64(spec_trim(d)),
                    None => None,
                },
                spec_nonblank(form_get(f, "notes"@)),
            ),
        )
    }
}

fn parse_opt_i64(o: &Option<String>, trimmed: bool) -> (r: Option<i64>)
    ensures
        r == match opt_view(*o) {
            Some(s) => spec_parse_i64(if trimmed { spec_trim(s) } else { s }),
            None => None,
        },
{
    match o {
        Some(s) => {
            let c = chars_of(s.as_str());
            if trimmed {
                let t = trim(&c);
                parse_i64(&t)
            } else {
                parse_i64(&c)
            }
        },
        None => None,
    }
}

/// Reads the play fields of a log-a-play or edit-a-play form.
pub fn parse_play_form(fields: &Vec<(String, String)>) -> (r: Result<PlayInput, PlayFormError>)
    ensures
        match r {
            Ok(p) => spec_play_form(fields_view(fields@)) == Ok::<SpecPlayInput, PlayFormError>(p.view()),
            Err(e) => spec_play_form(fields_view(fields@)) == Err::<SpecPlayInput, PlayFormError>(e),
        },
{
    let game = parse_opt_i64(&field(fields, &chars_of("game_id")), false);
    let date = match field(fields, &chars_of("play_date")) {
        Some(d) => d,
        None => String::new(),
    };
    let vis_text = match field(fields, &chars_of("visibility")) {
        Some(v) => v,
        None => "public".to_string(),
    };
    let game_id = match game {
        Some(g) => g,
        None => {
            return Err(PlayFormError::NoGame);
        },
    };
    let dc = chars_of(date.as_str());
    if trim(&dc).len() == 0 {
        return Err(PlayFormError::NoDate);
    }
    let visibility = match Visibility::parse(vis_text.as_str()) {
        Some(v) => v,
        None => {
            return Err(PlayFormError::BadVisibility);
        },
    };
    proof {
        reveal_strlit("public");
        reveal_strlit("linked_only");
        reveal_strlit("private");
        assert("public"@.len() == 6);
        assert("linked_only"@.len() == 11);
        assert("private"@.len() == 7);
        assert(visibility_named(vis_text@) == Some(visibility)) by {
            match visibility {
                Visibility::Public => {},
                Visibility::LinkedOnly => {
                    assert(vis_text@.len() == 11);
                },
                Visibility::Private => {
                    assert(vis_text@.len() == 7);
                },
            }
        }
    }
    let location = nonblank(&field(fields, &chars_of("location")));
    let duration_minutes = parse_opt_i64(&field(fields, &chars_of("duration_minutes")), true);
    let notes = nonblank(&field(fields, &chars_of("notes")));
    Ok(PlayInput { game_id, play_date: date, visibility, location, duration_minutes, notes })
}

// ---------------------------------------------------------------------------
// Tagging registered users
// ---------------------------------------------------------------------------
/// A registered user to tag on a play: the score text as sent (read as a
/// number by the caller), whether they won, and the tag's status.
pub struct NewTag {
    pub user_id: i64,
    pub score: Option<String>,
    pub is_winner: bool,
    pub link_status: LinkStatus,
}

impl NewTag {
    pub open spec fn view(&self) -> (i64, Option<Seq<char>>, bool, LinkStatus) {
        (self.user_id, opt_view(self.score), self.is_winner, self.link_status)
    }

    /// Whether the tagged user must be sent a link request.
    pub fn needs_request(&self) -> (r: bool)
        ensures
            r == (self.link_status == LinkStatus::Pending),
    {
        self.link_status == LinkStatus::Pending
    }
}

pub open spec fn spec_new_tag(f: Seq<(Seq<char>, Seq<char>)>, id: i64, current: i64) -> (
    i64,
    Option<Seq<char>>,
    bool,
    LinkStatus,
) {
    (
        id,
        form_get(f, id_key("score_user_"@, id as int)),
        form_get(f, id_key("winner_user_"@, id as int)) is Some,
        spec_tag_status(id, current),
    )
}

/// The users of `candidates`, in order, whose include box is ticked and who
/// are not in `exclude`, each with its score, winner box and tag status.
pub open spec fn spec_user_tags(
    f: Seq<(Seq<char>, Seq<char>)>,
    candidates: Seq<i64>,
    exclude: Seq<i64>,
    current: i64,
) -> Seq<(i64, Option<Seq<char>>, bool, LinkStatus)>
    decreases candidates.len(),
{
    if candidates.len() == 0 {
        seq![]
    } else {
        let rest = spec_user_tags(f, candidates.drop_last(), exclude, current);
        let id = candidates.last();
        if !exclude.contains(id) && form_get(f, id_key("include_user_"@, id as int)) is Some {
            rest.push(spec_new_tag(f, id, current))
        } else {
            rest
        }
    }
}

pub open spec fn tags_view(v: Seq<NewTag>) -> Seq<(i64, Option<Seq<char>>, bool, LinkStatus)> {
    v.map_values(|t: NewTag| t.view())
}

fn contains_id(v: &Vec<i64>, id: i64) -> (r: bool)
    ensures
        r == v@.contains(id),
{
    let mut i: usize = 0;
    while i < v.len()
        invariant
            i <= v.len(),
            forall|j: int| 0 <= j < i ==> v@[j] != id,
        decreases v.len() - i,
    {
        if v[i] == id {
            return true;
        }
        i = i + 1;
    }
    false
}

/// The registered users a play form tags, out of the active users
/// `candidates` (for an edit: those not on the play yet), leaving out those
/// in `exclude` (already linked by this request).
pub fn user_tags(
    fields: &Vec<(String, String)>,
    candidates: &Vec<i64>,
    exclude: &Vec<i64>,
    current: i64,
) -> (r: Vec<NewTag>)
    ensures
        tags_view(r@) == spec_user_tags(fields_view(fields@), candidates@, exclude@, current),
{
    let ghost fv = fields_view(fields@);
    let mut out: Vec<NewTag> = Vec::new();
    let mut i: usize = 0;
    while i < candidates.len()
        invariant
            i <= candidates.len(),
            fv == fields_view(fields@),
            tags_view(out@) == spec_user_tags(fv, candidates@.take(i as int), exclude@, current),
        decreases candidates.len() - i,
    {
        let id = candidates[i];
        assert(candidates@.take(i + 1).drop_last() =~= candidates@.take(i as int));
        assert(candidates@.take(i + 1).last() == id);
        if !contains_id(exclude, id) && has_field(fields, &key_for("include_user_", id)) {
            let score = field(fields, &key_for("score_user_", id));
            let is_winner = has_field(fields, &key_for("winner_user_", id));
            let link_status = tag_status(id, current);
            out.push(NewTag { user_id: id, score, is_winner, link_status });
            assert(tags_view(out@) =~= spec_user_tags(
                fv,
                candidates@.take(i as int),
                exclude@,
                current,
            ).push(spec_new_tag(fv, id, current)));
        }
        i = i + 1;
    }
    assert(candidates@.take(candidates.len() as int) =~= candidates@);
    out
}

// ---------------------------------------------------------------------------
// Guests
// ---------------------------------------------------------------------------
/// A guest to add to a play: the slot it was entered in, the trimmed name,
/// the score text as sent and whether they won.
pub struct GuestEntry {
    pub slot: i32,
    pub name: String,
    pub score: Option<String>,
    pub is_winner: bool,
}

impl GuestEntry {
    pub open spec fn view(&self) -> (i32, Seq<char>, Option<Seq<char>>, bool) {
        (self.slot, self.name@, opt_view(self.score), self.is_winner)
    }
}

/// The guests of guest slots `1..=n`, in slot order: a slot counts when its
/// trimmed name is not blank.
pub open spec fn spec_guests(f: Seq<(Seq<char>, Seq<char>)>, n: int) -> Seq<(i32, Seq<char>, Option<Seq<char>>, bool)>
    decreases n,
{
    if n <= 0 {
        seq![]
    } else {
        let rest = spec_guests(f, n - 1);
        match spec_nonblank(form_get(f, id_key("guest_name_"@, n))) {
            Some(name) => rest.push(
                (
                    n as i32,
                    name,
                    form_get(f, id_key("guest_score_"@, n)),
                    form_get(f, id_key("guest_winner_"@, n)) is Some,
                ),
            ),
            None => rest,
        }
    }
}

pub open spec fn guests_view(v: Seq<GuestEntry>) -> Seq<(i32, Seq<char>, Option<Seq<char>>, bool)> {
    v.map_values(|g: GuestEntry| g.view())
}

/// The guests a play form adds, from its four guest slots.
pub fn guest_entries(fields: &Vec<(String, String)>) -> (r: Vec<GuestEntry>)
    ensures
        guests_view(r@) == spec_guests(fields_view(fields@), 4),
{
    let ghost fv = fields_view(fields@);
    let mut out: Vec<GuestEntry> = Vec::new();
    let mut i: i32 = 1;
    while i <= 4
        invariant
            1 <= i <= 5,
            fv == fields_view(fields@),
            guests_view(out@) == spec_guests(fv, i - 1),
        decreases 5 - i,
    {
        let name = nonblank(&field(fields, &key_for("guest_name_", i as i64)));
        match name {
            Some(n) => {
                let score = field(fields, &key_for("guest_score_", i as i64));
                let is_winner = has_field(fields, &key_for("guest_winner_", i as i64));
                out.push(GuestEntry { slot: i, name: n, score, is_winner });
                assert(guests_view(out@) =~= spec_guests(fv, i - 1).push(
                    (
                        i,
                        n@,
                        form_get(fv, id_key("guest_score_"@, i as int)),
                        form_get(fv, id_key("guest_winner_"@, i as int)) is Some,
                    ),
                ));
            },
            None => {},
        }
        i = i + 1;
    }
    out
}

// ---------------------------------------------------------------------------
// Players already on a play
// ---------------------------------------------------------------------------
/// The score and winner box of a player row.
pub struct ScoreEdit {
    pub score: Option<String>,
    pub is_winner: bool,
}

/// What an edit does to a player row already on the play.
pub enum RowEdit {
    /// The row's remove box is ticked.
    Remove,
    /// A guest row to be linked to a registered user; if that user has no
    /// active player, or already has a row on the play, the row keeps its
    /// guest and gets the score edit instead.
    Relink { target_user_id: i64, link_status: LinkStatus, otherwise: ScoreEdit },
    /// The row's score and winner box are updated.
    Update(ScoreEdit),
}

pub open spec fn spec_score_edit(f: Seq<(Seq<char>, Seq<char>)>, pp_id: i64) -> (Option<Seq<char>>, bool) {
    (
        form_get(f, id_key("score_pp_"@, pp_id as int)),
        form_get(f, id_key("winner_pp_"@, pp_id as int)) is Some,
    )
}

/// A row edit as plain values.
pub ghost enum SpecRowEdit {
    Remove,
    Relink(i64, LinkStatus, (Option<Seq<char>>, bool)),
    Update((Option<Seq<char>>, bool)),
}

/// What the edit form asks for one player row: removal when its remove box
/// is ticked; for a guest row whose link field names a user id, a link to
/// that user (approved when it is the editor, pending otherwise); otherwise
/// a new score and winner box.
pub open spec fn spec_row_edit(
    f: Seq<(Seq<char>, Seq<char>)>,
    pp_id: i64,
    player_user_id: Option<i64>,
    current: i64,
) -> SpecRowEdit {
    if form_get(f, id_key("remove_pp_"@, pp_id as int)) is Some {
        SpecRowEdit::Remove
    } else {
        let target = opt_parse_i64(form_get(f, id_key("link_pp_"@, pp_id as int)));
        if player_user_id is None && target is Some {
            SpecRowEdit::Relink(target->0, spec_tag_status(target->0, current), spec_score_edit(f, pp_id))
        } else {
            SpecRowEdit::Update(spec_score_edit(f, pp_id))
        }
    }
}

impl ScoreEdit {
    pub open spec fn view(&self) -> (Option<Seq<char>>, bool) {
        (opt_view(self.score), self.is_winner)
    }
}

impl RowEdit {
    pub open spec fn view(&self) -> SpecRowEdit {
        match self {
            RowEdit::Remove => SpecRowEdit::Remove,
            RowEdit::Relink { target_user_id, link_status, otherwise } => SpecRowEdit::Relink(
                *target_user_id,
                *link_status,
                otherwise.view(),
            ),
            RowEdit::Update(e) => SpecRowEdit::Update(e.view()),
        }
    }
}

fn score_edit(fields: &Vec<(String, String)>, pp_id: i64) -> (r: ScoreEdit)
    ensures
        r.view() == spec_score_edit(fields_view(fields@), pp_id),
{
    ScoreEdit {
        score: field(fields, &key_for("score_pp_", pp_id)),
        is_winner: has_field(fields, &key_for("winner_pp_", pp_id)),
    }
}

/// What an edit does to the player row `pp_id`, whose player belongs to
/// `player_user_id` (`None` for a guest).
pub fn plan_row_edit(
    fields: &Vec<(String, String)>,
    pp_id: i64,
    player_user_id: Option<i64>,
    current: i64,
) -> (r: RowEdit)
    ensures
        r.view() == spec_row_edit(
            fields_view(fields@),
            pp_id,
            player_user_id,
            current,
        ),
{
    if has_field(fields, &key_for("remove_pp_", pp_id)) {
        return RowEdit::Remove;
    }
    let target = parse_opt_i64(&field(fields, &key_for("link_pp_", pp_id)), false);
    match (player_user_id, target) {
        (None, Some(t)) => RowEdit::Relink {
            target_user_id: t,
            link_status: tag_status(t, current),
            otherwise: score_edit(fields, pp_id),
        },
        _ => RowEdit::Update(score_edit(fields, pp_id)),
    }
}

/// A tag made by the current user on themselves is approved at once and asks
/// nobody; a tag of anyone else waits for them and sends them a request.
pub proof fn law_self_tags_need_no_request(user_id: i64, current: i64)
    ensures
        (spec_tag_status(user_id, current) == LinkStatus::Approved) <==> user_id == current,
        (spec_tag_status(user_id, current) == LinkStatus::Pending) <==> user_id != current,
{
}

/// What the edit form does to one player row: a ticked remove box removes
/// it whatever else was filled in; a link to a user is only made from a
/// guest row (a row that already belongs to a user is never relinked), and
/// the link the editor makes to themselves is approved at once while a link
/// to anyone else waits for that user.
pub proof fn law_row_edit_links(
    f: Seq<(Seq<char>, Seq<char>)>,
    pp_id: i64,
    player_user_id: Option<i64>,
    current: i64,
)
    ensures
        (spec_row_edit(f, pp_id, player_user_id, current) == SpecRowEdit::Remove) <==> form_get(
            f,
            id_key("remove_pp_"@, pp_id as int),
        ) is Some,
        spec_row_edit(f, pp_id, player_user_id, current) is Relink ==> player_user_id is None,
        match spec_row_edit(f, pp_id, player_user_id, current) {
            SpecRowEdit::Relink(t, s, _) => {
                &&& (s == LinkStatus::Approved) <==> (t == current)
                &&& (s == LinkStatus::Pending) <==> (t != current)
                &&& opt_parse_i64(form_get(f, id_key("link_pp_"@, pp_id as int))) == Some(t)
            },
            _ => true,
        },
{
}

} // verus!
