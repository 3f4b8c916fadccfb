//! Who may see and edit a play.
//!
//! The SQL fragments below are the one place that decides whether a play is
//! visible to a viewer; every query that lists or fetches plays embeds them.
//! The functions and laws after them state the same rule over a play's
//! visibility, its logger and the tags on it, so that what the fragments
//! decide is written down once, as something that can be checked.

use vstd::prelude::*;

use crate::security::{present_name, spec_display_name};
use crate::text::chars_eq_str;
use crate::text::chars_of;
use crate::text::{
    is_white_space, lemma_trim_end_shape, lemma_trim_start_shape, spec_trim, spec_trim_end, spec_trim_start,
};

verus! {

/// Boolean SQL expression deciding whether a row in `plays` is visible to a
/// given viewer. Has two `?` placeholders; bind the viewer's user id to both,
/// in order. It is `spec_visible_to` written in SQL.
pub const VISIBLE_TO: &'static str = "(
    plays.visibility = 'public'
    OR plays.logged_by_user_id = ?
    OR (plays.visibility = 'linked_only' AND EXISTS (
        SELECT 1 FROM play_players pp
        JOIN players p ON p.id = pp.player_id
        WHERE pp.play_id = plays.id AND p.user_id = ? AND pp.link_status = 'approved'
    ))
)";

/// Like `VISIBLE_TO`, but also true if the viewer has a pending or approved
/// tag on the play, so that someone asked to approve a link can open the play
/// to review it. Takes three `?` placeholders; bind the viewer's user id to
/// all three, in order. It is `spec_visible_or_tagged` written in SQL.
pub const VISIBLE_OR_TAGGED: &'static str = "(
    (
        plays.visibility = 'public'
        OR plays.logged_by_user_id = ?
        OR (plays.visibility = 'linked_only' AND EXISTS (
            SELECT 1 FROM play_players pp
            JOIN players p ON p.id = pp.player_id
            WHERE pp.play_id = plays.id AND p.user_id = ? AND pp.link_status = 'approved'
        ))
    )
    OR EXISTS (
        SELECT 1 FROM play_players pp2
        JOIN players p2 ON p2.id = pp2.player_id
        WHERE pp2.play_id = plays.id AND p2.user_id = ? AND pp2.link_status IN ('pending', 'approved')
    )
)";

/// True if the subject (bind the same id to both `?` placeholders, in order)
/// is the play's logger or an approved linked player on it. It is
/// `spec_involves_user` written in SQL.
pub const INVOLVES_USER: &'static str = "(
    plays.logged_by_user_id = ?
    OR EXISTS (
        SELECT 1 FROM play_players pp3
        JOIN players p3 ON p3.id = pp3.player_id
        WHERE pp3.play_id = plays.id AND p3.user_id = ? AND pp3.link_status = 'approved'
    )
)";

/// SQL expression computing a person's display name from a `users` row joined
/// into the query as `users`: "First Last" if either is set, otherwise their
/// username. `sql_display_name` reads it; `law_sql_display_name_agrees`
/// shows it gives `security::spec_display_name` for names stored trimmed.
pub const DISPLAY_NAME_SQL: &'static str = "COALESCE(NULLIF(TRIM(COALESCE(users.first_name, '') || ' ' || COALESCE(users.last_name, '')), ''), users.username)";

/// SQLite's `TRIM(x)`: `x` without the spaces (only `' '`) at either end.
pub open spec fn sql_trim_start(s: Seq<char>) -> Seq<char>
    decreases s.len(),
{
    if s.len() > 0 && s[0] == ' ' {
        sql_trim_start(s.drop_first())
    } else {
        s
    }
}

pub open spec fn sql_trim_end(s: Seq<char>) -> Seq<char>
    decreases s.len(),
{
    if s.len() > 0 && s.last() == ' ' {
        sql_trim_end(s.drop_last())
    } else {
        s
    }
}

/// What `DISPLAY_NAME_SQL` evaluates to on a `users` row, read step by step:
/// missing names count as empty, the two are joined with a space and
/// trimmed, and an empty result falls back to the username.
pub open spec fn sql_display_name(username: Seq<char>, first: Option<Seq<char>>, last: Option<Seq<char>>) -> Seq<char> {
    let f = match first {
        Some(x) => x,
        None => seq![],
    };
    let l = match last {
        Some(x) => x,
        None => seq![],
    };
    let joined = sql_trim_end(sql_trim_start(f + seq![' '] + l));
    if joined.len() == 0 {
        username
    } else {
        joined
    }
}

/// A name part as stored: missing, or already trimmed (possibly empty).
pub open spec fn stored_trimmed(o: Option<Seq<char>>) -> bool {
    match o {
        Some(x) => spec_trim(x) == x,
        None => true,
    }
}

proof fn lemma_trimmed_ends(x: Seq<char>)
    requires
        spec_trim(x) == x,
        x.len() > 0,
    ensures
        x[0] != ' ',
        x.last() != ' ',
{
    lemma_trim_start_shape(x);
    lemma_trim_end_shape(spec_trim_start(x));
    assert(is_white_space(' '));
    assert(spec_trim_end(spec_trim_start(x))[0] == spec_trim_start(x)[0]);
}

proof fn lemma_name_part(x: Option<Seq<char>>)
    requires
        stored_trimmed(x),
    ensures
        match x {
            Some(v) => if v.len() > 0 {
                present_name(x) == Some(v) && v[0] != ' ' && v.last() != ' '
            } else {
                present_name(x) is None
            },
            None => present_name(x) is None,
        },
{
    if let Some(v) = x {
        if v.len() > 0 {
            lemma_trimmed_ends(v);
        }
    }
}

/// For names stored the way the name forms store them (trimmed), the SQL
/// display name the list pages compute is the display name the library
/// gives: "First Last" if either is set, otherwise the username.
pub proof fn law_sql_display_name_agrees(username: Seq<char>, first: Option<Seq<char>>, last: Option<Seq<char>>)
    requires
        stored_trimmed(first),
        stored_trimmed(last),
    ensures
        sql_display_name(username, first, last) == spec_display_name(username, first, last),
{
    lemma_name_part(first);
    lemma_name_part(last);
    let f = match first {
        Some(x) => x,
        None => seq![],
    };
    let l = match last {
        Some(x) => x,
        None => seq![],
    };
    let s = f + seq![' '] + l;
    if f.len() > 0 {
        assert(s[0] == f[0]);
        assert(sql_trim_start(s) == s);
        if l.len() > 0 {
            assert(s.last() == l.last());
            assert(sql_trim_end(s) == s);
            reveal_strlit(" ");
            assert(s =~= f + " "@ + l);
        } else {
            assert(s.drop_last() =~= f);
            assert(sql_trim_end(f) == f);
            assert(sql_trim_end(s) == f);
        }
    } else {
        assert(s.drop_first() =~= l);
        if l.len() > 0 {
            assert(sql_trim_start(l) == l);
            assert(sql_trim_start(s) == l);
            assert(sql_trim_end(l) == l);
        } else {
            assert(sql_trim_start(l) == l);
            assert(sql_trim_start(s) == l);
            assert(sql_trim_end(l) == l);
        }
    }
}

/// Who can see a play besides its logger.
#[derive(PartialEq, Eq, Structural, Clone, Copy, Debug)]
pub enum Visibility {
    /// Everyone.
    Public,
    /// Players with an approved link on it.
    LinkedOnly,
    /// Nobody else, tagged or not.
    Private,
}

/// The state of a tag of a registered user on a play.
#[derive(PartialEq, Eq, Structural, Clone, Copy, Debug)]
pub enum LinkStatus {
    /// A guest, or a tag that needs no confirmation.
    Unlinked,
    /// Waiting for the tagged user to confirm.
    Pending,
    /// Confirmed by the tagged user (or made by them).
    Approved,
    /// Refused by the tagged user.
    Declined,
}

impl Visibility {
    pub open spec fn text(self) -> Seq<char> {
        match self {
            Visibility::Public => "public"@,
            Visibility::LinkedOnly => "linked_only"@,
            Visibility::Private => "private"@,
        }
    }

    /// The word stored in the `visibility` column.
    pub fn as_str(&self) -> (r: &'static str)
        ensures
            r@ == self.text(),
    {
        match self {
            Visibility::Public => "public",
            Visibility::LinkedOnly => "linked_only",
            Visibility::Private => "private",
        }
    }

    /// The visibility a stored or submitted word names, if any.
    pub fn parse(s: &str) -> (r: Option<Visibility>)
        ensures
            match r {
                Some(v) => v.text() == s@,
                None => forall|v: Visibility| v.text() != s@,
            },
    {
        let c = chars_of(s);
        if chars_eq_str(&c, "public") {
            Some(Visibility::Public)
        } else if chars_eq_str(&c, "linked_only") {
            Some(Visibility::LinkedOnly)
        } else if chars_eq_str(&c, "private") {
            Some(Visibility::Private)
        } else {
            proof {
                assert forall|v: Visibility| v.text() != s@ by {
                    match v {
                        Visibility::Public => {},
                        Visibility::LinkedOnly => {},
                        Visibility::Private => {},
                    }
                }
            }
            None
        }
    }
}

impl LinkStatus {
    pub open spec fn text(self) -> Seq<char> {
        match self {
            LinkStatus::Unlinked => "none"@,
            LinkStatus::Pending => "pending"@,
            LinkStatus::Approved => "approved"@,
            LinkStatus::Declined => "declined"@,
        }
    }

    /// The word stored in the `link_status` column.
    pub fn as_str(&self) -> (r: &'static str)
        ensures
            r@ == self.text(),
    {
        match self {
            LinkStatus::Unlinked => "none",
            LinkStatus::Pending => "pending",
            LinkStatus::Approved => "approved",
            LinkStatus::Declined => "declined",
        }
    }

    /// The status a stored word names, if any.
    pub fn parse(s: &str) -> (r: Option<LinkStatus>)
        ensures
            match r {
                Some(v) => v.text() == s@,
                None => forall|v: LinkStatus| v.text() != s@,
            },
    {
        let c = chars_of(s);
        if chars_eq_str(&c, "none") {
            Some(LinkStatus::Unlinked)
        } else if chars_eq_str(&c, "pending") {
            Some(LinkStatus::Pending)
        } else if chars_eq_str(&c, "approved") {
            Some(LinkStatus::Approved)
        } else if chars_eq_str(&c, "declined") {
            Some(LinkStatus::Declined)
        } else {
            proof {
                assert forall|v: LinkStatus| v.text() != s@ by {
                    match v {
                        LinkStatus::Unlinked => {},
                        LinkStatus::Pending => {},
                        LinkStatus::Approved => {},
                        LinkStatus::Declined => {},
                    }
                }
            }
            None
        }
    }

    /// Whether a player with this status counts in statistics: approved
    /// links and guests do, pending and declined tags do not.
    pub open spec fn spec_counts_toward_stats(self) -> bool {
        self == LinkStatus::Approved || self == LinkStatus::Unlinked
    }

    pub fn counts_toward_stats(&self) -> (r: bool)
        ensures
            r == self.spec_counts_toward_stats(),
    {
        match self {
            LinkStatus::Approved | LinkStatus::Unlinked => true,
            _ => false,
        }
    }
}

/// The status a new tag of `user_id` gets when `current_user` makes it:
/// tagging yourself needs no confirmation, tagging anyone else does.
pub open spec fn spec_tag_status(user_id: i64, current_user: i64) -> LinkStatus {
    if user_id == current_user {
        LinkStatus::Approved
    } else {
        LinkStatus::Pending
    }
}

pub fn tag_status(user_id: i64, current_user: i64) -> (r: LinkStatus)
    ensures
        r == spec_tag_status(user_id, current_user),
{
    if user_id == current_user {
        LinkStatus::Approved
    } else {
        LinkStatus::Pending
    }
}

/// A player on a play: the registered user behind it (`None` for a guest)
/// and the state of its tag.
#[derive(PartialEq, Eq, Structural, Clone, Copy, Debug)]
pub struct PlayTag {
    pub user_id: Option<i64>,
    pub link_status: LinkStatus,
}

/// What the access rules of a play depend on.
pub struct PlayAccess {
    pub visibility: Visibility,
    pub logged_by: i64,
    pub tags: Vec<PlayTag>,
}

/// `user` has a tag on the play with one of the given statuses.
pub open spec fn has_tag(tags: Seq<PlayTag>, user: i64, status: LinkStatus) -> bool {
    exists|i: int| 0 <= i < tags.len() && tags[i].user_id == Some(user) && tags[i].link_status == status
}

/// Public plays are visible to everyone; a play is always visible to whoever
/// logged it; a linked-only play is also visible to anyone with an approved
/// link on it. A private play is visible only to its logger, even if other
/// people are tagged in it.
pub open spec fn spec_visible_to(p: (Visibility, i64, Seq<PlayTag>), viewer: i64) -> bool {
    ||| p.0 == Visibility::Public
    ||| p.1 == viewer
    ||| (p.0 == Visibility::LinkedOnly && has_tag(p.2, viewer, LinkStatus::Approved))
}

/// Visible, or the viewer has a pending or approved tag on the play.
pub open spec fn spec_visible_or_tagged(p: (Visibility, i64, Seq<PlayTag>), viewer: i64) -> bool {
    ||| spec_visible_to(p, viewer)
    ||| has_tag(p.2, viewer, LinkStatus::Pending)
    ||| has_tag(p.2, viewer, LinkStatus::Approved)
}

/// The subject logged the play or has an approved link on it.
pub open spec fn spec_involves_user(p: (Visibility, i64, Seq<PlayTag>), subject: i64) -> bool {
    p.1 == subject || has_tag(p.2, subject, LinkStatus::Approved)
}

/// Who may edit a play and add photos to it: its logger and approved linked
/// players.
pub open spec fn spec_can_edit(p: (Visibility, i64, Seq<PlayTag>), viewer: i64) -> bool {
    p.1 == viewer || has_tag(p.2, viewer, LinkStatus::Approved)
}

impl PlayAccess {
    pub open spec fn view(&self) -> (Visibility, i64, Seq<PlayTag>) {
        (self.visibility, self.logged_by, self.tags@)
    }
}

/// Whether `user` has a tag with `status` on the play.
pub fn tagged_with(tags: &Vec<PlayTag>, user: i64, status: LinkStatus) -> (r: bool)
    ensures
        r == has_tag(tags@, user, status),
{
    let mut i: usize = 0;
    while i < tags.len()
        invariant
            i <= tags.len(),
            forall|j: int|
                0 <= j < i ==> !(tags@[j].user_id == Some(user) && tags@[j].link_status == status),
        decreases tags.len() - i,
    {
        if tags[i].user_id == Some(user) && tags[i].link_status == status {
            return true;
        }
        i = i + 1;
    }
    false
}

/// Whether `viewer` may see the play.
pub fn visible_to(p: &PlayAccess, viewer: i64) -> (r: bool)
    ensures
        r == spec_visible_to(p.view(), viewer),
{
    p.visibility == Visibility::Public || p.logged_by == viewer || (p.visibility
        == Visibility::LinkedOnly && tagged_with(&p.tags, viewer, LinkStatus::Approved))
}

/// Whether `viewer` may open the play's page.
pub fn visible_or_tagged(p: &PlayAccess, viewer: i64) -> (r: bool)
    ensures
        r == spec_visible_or_tagged(p.view(), viewer),
{
    visible_to(p, viewer) || tagged_with(&p.tags, viewer, LinkStatus::Pending) || tagged_with(
        &p.tags,
        viewer,
        LinkStatus::Approved,
    )
}

/// Whether the play shows on `subject`'s profile.
pub fn involves_user(p: &PlayAccess, subject: i64) -> (r: bool)
    ensures
        r == spec_involves_user(p.view(), subject),
{
    p.logged_by == subject || tagged_with(&p.tags, subject, LinkStatus::Approved)
}

/// Whether `viewer` may edit the play.
pub fn can_edit(p: &PlayAccess, viewer: i64) -> (r: bool)
    ensures
        r == spec_can_edit(p.view(), viewer),
{
    p.logged_by == viewer || tagged_with(&p.tags, viewer, LinkStatus::Approved)
}

/// The user has an approved tag on the play, written out: one of its tags
/// names them and is approved.
pub open spec fn approved_on(tags: Seq<PlayTag>, user: i64) -> bool {
    exists|i: int|
        0 <= i < tags.len() && (#[trigger] tags[i]).user_id == Some(user) && tags[i].link_status
            == LinkStatus::Approved
}

/// A play shows on a person's profile exactly when they logged it or hold an
/// approved tag on it: the logger always, a pending or declined tag never.
pub proof fn law_profile_plays(p: (Visibility, i64, Seq<PlayTag>), subject: i64)
    ensures
        spec_involves_user(p, p.1),
        spec_involves_user(p, subject) <==> (p.1 == subject || approved_on(p.2, subject)),
        (p.1 != subject && !approved_on(p.2, subject)) ==> !spec_involves_user(p, subject),
{
}

/// The people who may edit a play are exactly its logger and the users it
/// tags with an approved link; the visibility setting plays no part.
pub proof fn law_who_may_edit(p: (Visibility, i64, Seq<PlayTag>), viewer: i64, v: Visibility)
    ensures
        spec_can_edit(p, p.1),
        spec_can_edit(p, viewer) <==> (p.1 == viewer || approved_on(p.2, viewer)),
        spec_can_edit(p, viewer) == spec_can_edit((v, p.1, p.2), viewer),
{
}

/// Who sees a play, written out per visibility: everyone for a public play;
/// the logger and approved tagged users for a linked-only play; the logger
/// alone for a private play.
pub proof fn law_who_sees(p: (Visibility, i64, Seq<PlayTag>), viewer: i64)
    ensures
        p.0 == Visibility::Public ==> spec_visible_to(p, viewer),
        p.0 == Visibility::LinkedOnly ==> (spec_visible_to(p, viewer) <==> (p.1 == viewer || approved_on(
            p.2,
            viewer,
        ))),
        p.0 == Visibility::Private ==> (spec_visible_to(p, viewer) <==> p.1 == viewer),
{
}

/// A private play is visible to its logger and to nobody else, whatever tags
/// it carries.
pub proof fn law_private_only_logger(p: (Visibility, i64, Seq<PlayTag>), viewer: i64)
    requires
        p.0 == Visibility::Private,
    ensures
        spec_visible_to(p, viewer) <==> viewer == p.1,
{
}

/// Whoever logged a play can always see it.
pub proof fn law_logger_sees_own_play(p: (Visibility, i64, Seq<PlayTag>))
    ensures
        spec_visible_to(p, p.1),
{
}

/// A public play is visible to every viewer.
pub proof fn law_public_visible_to_all(p: (Visibility, i64, Seq<PlayTag>), viewer: i64)
    requires
        p.0 == Visibility::Public,
    ensures
        spec_visible_to(p, viewer),
{
}

/// A pending tag alone never shows a linked-only or private play in lists:
/// a viewer who did not log it and holds no approved link cannot see it.
pub proof fn law_pending_tag_grants_no_visibility(p: (Visibility, i64, Seq<PlayTag>), viewer: i64)
    requires
        p.0 != Visibility::Public,
        p.1 != viewer,
        !has_tag(p.2, viewer, LinkStatus::Approved),
    ensures
        !spec_visible_to(p, viewer),
{
}

/// The detail page opens for every play that the lists show, and for plays
/// where the viewer has been asked to approve a tag.
pub proof fn law_visible_opens_detail(p: (Visibility, i64, Seq<PlayTag>), viewer: i64)
    ensures
        spec_visible_to(p, viewer) ==> spec_visible_or_tagged(p, viewer),
        has_tag(p.2, viewer, LinkStatus::Pending) ==> spec_visible_or_tagged(p, viewer),
{
}

/// Whoever may edit a play may open it.
pub proof fn law_editor_can_open(p: (Visibility, i64, Seq<PlayTag>), viewer: i64)
    ensures
        spec_can_edit(p, viewer) ==> spec_visible_or_tagged(p, viewer),
{
}

// ---------------------------------------------------------------------------
// Answering a tag request
// ---------------------------------------------------------------------------
/// The status a tag gets when the tagged user answers the request.
pub open spec fn spec_answer_status(accept: bool) -> LinkStatus {
    if accept {
        LinkStatus::Approved
    } else {
        LinkStatus::Declined
    }
}

/// The tags of a play after `user` answered: each of their tags takes the
/// answer's status, the others stay as they were.
pub open spec fn spec_answered(tags: Seq<PlayTag>, user: i64, accept: bool) -> Seq<PlayTag> {
    tags.map_values(
        |t: PlayTag|
            if t.user_id == Some(user) {
                PlayTag { user_id: t.user_id, link_status: spec_answer_status(accept) }
            } else {
                t
            },
    )
}

/// Records `user`'s answer to being tagged on a play.
pub fn answer_request(tags: &mut Vec<PlayTag>, user: i64, accept: bool)
    ensures
        final(tags)@ == spec_answered(old(tags)@, user, accept),
{
    let status = if accept {
        LinkStatus::Approved
    } else {
        LinkStatus::Declined
    };
    let ghost start = tags@;
    let mut i: usize = 0;
    while i < tags.len()
        invariant
            i <= tags.len() == start.len(),
            status == spec_answer_status(accept),
            forall|j: int|
                0 <= j < i ==> tags@[j] == spec_answered(start, user, accept)[j],
            forall|j: int| i <= j < tags.len() ==> tags@[j] == start[j],
        decreases tags.len() - i,
    {
        if tags[i].user_id == Some(user) {
            let t = PlayTag { user_id: tags[i].user_id, link_status: status };
            tags.set(i, t);
        }
        assert(tags@[i as int] == spec_answered(start, user, accept)[i as int]);
        i = i + 1;
    }
    assert(tags@ =~= spec_answered(start, user, accept));
}

/// Approving a tag lets the user edit the play and open it.
pub proof fn law_approving_lets_edit(p: (Visibility, i64, Seq<PlayTag>), user: i64, i: int)
    requires
        0 <= i < p.2.len(),
        p.2[i].user_id == Some(user),
    ensures
        spec_can_edit((p.0, p.1, spec_answered(p.2, user, true)), user),
        spec_visible_or_tagged((p.0, p.1, spec_answered(p.2, user, true)), user),
{
    let t = spec_answered(p.2, user, true);
    assert(t[i].user_id == Some(user) && t[i].link_status == LinkStatus::Approved);
}

/// After declining, the user no longer sees a linked-only or private play
/// that they did not log: no pending or approved tag of theirs is left.
pub proof fn law_declining_hides_play(p: (Visibility, i64, Seq<PlayTag>), user: i64)
    requires
        p.0 != Visibility::Public,
        p.1 != user,
    ensures
        !spec_visible_or_tagged((p.0, p.1, spec_answered(p.2, user, false)), user),
{
    let t = spec_answered(p.2, user, false);
    assert forall|i: int| 0 <= i < t.len() && t[i].user_id == Some(user) implies t[i].link_status
        == LinkStatus::Declined by {
    }
}

} // verus!
