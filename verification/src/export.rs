//! A user's own data export: which plays go in, how players and photos are
//! written, and the file it is downloaded as.

use vstd::prelude::*;

use crate::plays::{has_tag, LinkStatus, PlayTag};
use crate::text::{
    after_last, chars_of, decimal_i64, opt_view, push_all, push_str, spec_after_last,
    spec_decimal, string_of,
};

verus! {

/// A play goes into a user's export when they logged it or hold an approved
/// link on it.
pub open spec fn spec_in_export(logged_by: i64, user: i64, tags: Seq<PlayTag>) -> bool {
    logged_by == user || has_tag(tags, user, LinkStatus::Approved)
}

/// A player as exported: registered players by username only, guests by
/// name only.
pub open spec fn spec_export_player_name(player_user_id: Option<i64>, player_name: Seq<char>) -> Option<Seq<char>> {
    if player_user_id is None {
        Some(player_name)
    } else {
        None
    }
}

/// The name written for an exported player: a guest's name, nothing for a
/// registered user (their username identifies them).
pub fn export_player_name(player_user_id: Option<i64>, player_name: String) -> (r: Option<String>)
    ensures
        opt_view(r) == spec_export_player_name(player_user_id, player_name@),
{
    if player_user_id.is_none() {
        Some(player_name)
    } else {
        None
    }
}

pub open spec fn spec_export_photo_path(play_id: int, file_path: Seq<char>) -> Seq<char> {
    "photos/"@ + spec_decimal(play_id) + "/"@ + spec_after_last(file_path, '/', '/')
}

/// Where a play photo goes in the export archive: its file name below
/// `photos/{play_id}/`.
pub fn export_photo_path(play_id: i64, file_path: &str) -> (r: String)
    ensures
        r@ == spec_export_photo_path(play_id as int, file_path@),
{
    let mut out: Vec<char> = Vec::new();
    push_str(&mut out, "photos/");
    let d = decimal_i64(play_id);
    push_all(&mut out, &d);
    push_str(&mut out, "/");
    let p = chars_of(file_path);
    let name = after_last(&p, '/', '/');
    push_all(&mut out, &name);
    string_of(&out)
}

/// The file name an export is downloaded as.
pub fn export_file_name(username: &str) -> (r: String)
    ensures
        r@ == username@ + "-export.zip"@,
{
    let mut out: Vec<char> = Vec::new();
    push_str(&mut out, username);
    push_str(&mut out, "-export.zip");
    string_of(&out)
}

/// The `Content-Disposition` value that downloads a file as `filename`.
pub fn attachment_disposition(filename: &str) -> (r: String)
    ensures
        r@ == "attachment; filename=\""@ + filename@ + "\""@,
{
    let mut out: Vec<char> = Vec::new();
    push_str(&mut out, "attachment; filename=\"");
    push_str(&mut out, filename);
    push_str(&mut out, "\"");
    string_of(&out)
}

/// The message when an export could not be built.
pub fn export_failed_message(error: &str) -> (r: String)
    ensures
        r@ == "Export failed: "@ + error@,
{
    let mut out: Vec<char> = Vec::new();
    push_str(&mut out, "Export failed: ");
    push_str(&mut out, error);
    string_of(&out)
}

/// Every play a user may edit is in their export, and every exported play is
/// one they may edit: both are their own plays and plays they are an
/// approved player on.
pub proof fn law_export_is_editable_plays(
    p: (crate::plays::Visibility, i64, Seq<PlayTag>),
    user: i64,
)
    ensures
        spec_in_export(p.1, user, p.2) == crate::plays::spec_can_edit(p, user),
{
}

} // verus!
