//! Administration: the user list and what may be done to an account, the
//! security log, the BoardGameGeek token and merging duplicate games.

use vstd::prelude::*;

use crate::text::{
    chars_eq_str, chars_of, decimal_u128, push_all, push_str, spec_digits, spec_trim, string_of,
    trim,
};

verus! {

/// A user as the admin list shows them.
pub struct UserRow {
    pub id: i64,
    pub username: String,
    pub display_name: String,
    pub is_admin: bool,
    pub is_active: bool,
    pub totp_enabled: bool,
    pub is_locked: bool,
}

/// An entry of the security log.
pub struct SecurityEventRow {
    pub event_type: String,
    pub username: Option<String>,
    pub ip_address: Option<String>,
    pub detail: Option<String>,
    pub created_at: String,
}

/// An address that is banned at the moment.
pub struct BannedIpRow {
    pub ip_address: String,
    pub banned_until: String,
    pub reason: Option<String>,
}

pub const USER_NOT_FOUND: &'static str = "User not found.";

/// Why an account was not removed.
#[derive(PartialEq, Eq, Structural, Clone, Copy, Debug)]
pub enum DeactivateRefusal {
    OwnAccount,
    NotFound,
    LastAdmin,
}

impl DeactivateRefusal {
    pub fn message(&self) -> (r: &'static str)
        ensures
            r@ == match *self {
                DeactivateRefusal::OwnAccount => "You can't remove your own account."@,
                DeactivateRefusal::NotFound => USER_NOT_FOUND@,
                DeactivateRefusal::LastAdmin => "Can't remove the last remaining admin."@,
            },
    {
        match self {
            DeactivateRefusal::OwnAccount => "You can't remove your own account.",
            DeactivateRefusal::NotFound => USER_NOT_FOUND,
            DeactivateRefusal::LastAdmin => "Can't remove the last remaining admin.",
        }
    }
}

/// Whether removing account `target_id` goes ahead: never for the admin's own
/// account, not for an account that does not exist, and not for an admin when
/// at most one active admin is left. `target_is_admin` is `None` when the
/// account was not found; `active_admins` is only read for an admin target.
pub open spec fn spec_deactivate(
    target_id: i64,
    current_id: i64,
    target_is_admin: Option<bool>,
    active_admins: i64,
) -> Result<(), DeactivateRefusal> {
    if target_id == current_id {
        Err(DeactivateRefusal::OwnAccount)
    } else {
        match target_is_admin {
            None => Err(DeactivateRefusal::NotFound),
            Some(true) => if active_admins <= 1 {
                Err(DeactivateRefusal::LastAdmin)
            } else {
                Ok(())
            },
            Some(false) => Ok(()),
        }
    }
}

pub fn check_deactivate(
    target_id: i64,
    current_id: i64,
    target_is_admin: Option<bool>,
    active_admins: i64,
) -> (r: Result<(), DeactivateRefusal>)
    ensures
        r == spec_deactivate(target_id, current_id, target_is_admin, active_admins),
{
    if target_id == current_id {
        return Err(DeactivateRefusal::OwnAccount);
    }
    match target_is_admin {
        None => Err(DeactivateRefusal::NotFound),
        Some(true) => if active_admins <= 1 {
            Err(DeactivateRefusal::LastAdmin)
        } else {
            Ok(())
        },
        Some(false) => Ok(()),
    }
}

/// Removing accounts never leaves the instance without an active admin: an
/// admin account is removed only while another active admin remains, so at
/// least one is left afterwards.
pub proof fn law_an_admin_always_remains(
    target_id: i64,
    current_id: i64,
    active_admins: i64,
)
    requires
        spec_deactivate(target_id, current_id, Some(true), active_admins) is Ok,
    ensures
        active_admins - 1 >= 1,
{
}

/// Nobody can remove their own account.
pub proof fn law_no_self_removal(user: i64, is_admin: Option<bool>, active_admins: i64)
    ensures
        spec_deactivate(user, user, is_admin, active_admins) == Err::<(), DeactivateRefusal>(
            DeactivateRefusal::OwnAccount,
        ),
{
}

fn name_then(username: &str, tail: &str) -> (r: String)
    ensures
        r@ == username@ + tail@,
{
    let mut out: Vec<char> = Vec::new();
    push_str(&mut out, username);
    push_str(&mut out, tail);
    string_of(&out)
}

/// The note after an account was removed.
pub fn removed_message(username: &str) -> (r: String)
    ensures
        r@ == username@ + " was removed."@,
{
    name_then(username, " was removed.")
}

/// The note after an account was restored.
pub fn restored_message(username: &str) -> (r: String)
    ensures
        r@ == username@ + " was restored."@,
{
    name_then(username, " was restored.")
}

/// The note after an account was unlocked.
pub fn unlocked_message(username: &str) -> (r: String)
    ensures
        r@ == username@ + " was unlocked."@,
{
    name_then(username, " was unlocked.")
}

/// The note after an address was unbanned.
pub fn unbanned_message(ip: &str) -> (r: String)
    ensures
        r@ == ip@ + " was unbanned."@,
{
    name_then(ip, " was unbanned.")
}

/// The note shown once after an account was reset, with its new temporary
/// password.
pub fn reset_message(username: &str, new_password: &str) -> (r: String)
    ensures
        r@ == username@ + "'s password and two-factor login were reset. New temporary password: "@
            + new_password@
            + " \u{2014} write this down now, it won't be shown again. They'll be asked to change it and set up two-factor login again the next time they sign in."@,
{
    let mut out: Vec<char> = Vec::new();
    push_str(&mut out, username);
    push_str(&mut out, "'s password and two-factor login were reset. New temporary password: ");
    push_str(&mut out, new_password);
    push_str(
        &mut out,
        " \u{2014} write this down now, it won't be shown again. They'll be asked to change it and set up two-factor login again the next time they sign in.",
    );
    string_of(&out)
}

// ---------------------------------------------------------------------------
// The BoardGameGeek token
// ---------------------------------------------------------------------------
/// The form that saves the BoardGameGeek API token.
pub struct SaveTokenForm {
    pub token: String,
}

pub const TOKEN_EMPTY_MESSAGE: &'static str = "Token can't be empty.";
pub const TOKEN_SAVED_MESSAGE: &'static str = "BGG API token saved.";
pub const TOKEN_REMOVED_MESSAGE: &'static str = "BGG API token removed. Search/lookup won't work until a new one is set.";

/// The token to store: the submitted text trimmed, refused when blank.
pub fn token_to_save(form: &SaveTokenForm) -> (r: Result<String, &'static str>)
    ensures
        match r {
            Ok(t) => t@ == spec_trim(form.token@) && t@.len() > 0,
            Err(m) => m == TOKEN_EMPTY_MESSAGE && spec_trim(form.token@).len() == 0,
        },
{
    let c = chars_of(form.token.as_str());
    let t = trim(&c);
    if t.len() == 0 {
        Err(TOKEN_EMPTY_MESSAGE)
    } else {
        Ok(string_of(&t))
    }
}

// ---------------------------------------------------------------------------
// Merging games
// ---------------------------------------------------------------------------
/// The form that merges a duplicate game into the one to keep.
pub struct MergeGamesForm {
    pub canonical_id: i64,
    pub duplicate_id: i64,
}

pub const MERGE_SAME_GAME_MESSAGE: &'static str = "Choose two different games to merge.";
pub const MERGE_NOT_FOUND_MESSAGE: &'static str = "Game not found.";

/// The names of the game to keep and of the duplicate, looked up in `names`
/// (id, name); the merge goes ahead only for two different games that both
/// exist.
pub fn merge_names(form: &MergeGamesForm, names: &Vec<(i64, String)>) -> (r: Result<
    (String, String),
    &'static str,
>)
    ensures
        form.canonical_id == form.duplicate_id ==> r == Err::<(String, String), &'static str>(
            MERGE_SAME_GAME_MESSAGE,
        ),
        form.canonical_id != form.duplicate_id ==> match r {
            Ok((c, d)) => {
                &&& exists|i: int|
                    0 <= i < names.len() && names@[i].0 == form.canonical_id && names@[i].1@ == c@
                        && forall|j: int| 0 <= j < i ==> names@[j].0 != form.canonical_id
                &&& exists|i: int|
                    0 <= i < names.len() && names@[i].0 == form.duplicate_id && names@[i].1@ == d@
                        && forall|j: int| 0 <= j < i ==> names@[j].0 != form.duplicate_id
            },
            Err(m) => m == MERGE_NOT_FOUND_MESSAGE && ((forall|i: int|
                0 <= i < names.len() ==> names@[i].0 != form.canonical_id) || (forall|i: int|
                0 <= i < names.len() ==> names@[i].0 != form.duplicate_id)),
        },
{
    if form.canonical_id == form.duplicate_id {
        return Err(MERGE_SAME_GAME_MESSAGE);
    }
    let c = find_name(names, form.canonical_id);
    let d = find_name(names, form.duplicate_id);
    match (c, d) {
        (Some(c), Some(d)) => Ok((c, d)),
        _ => Err(MERGE_NOT_FOUND_MESSAGE),
    }
}

fn find_name(names: &Vec<(i64, String)>, id: i64) -> (r: Option<String>)
    ensures
        match r {
            Some(n) => exists|i: int|
                0 <= i < names.len() && names@[i].0 == id && names@[i].1@ == n@ && forall|j: int|
                    0 <= j < i ==> names@[j].0 != id,
            None => forall|i: int| 0 <= i < names.len() ==> names@[i].0 != id,
        },
{
    let mut i: usize = 0;
    while i < names.len()
        invariant
            i <= names.len(),
            forall|j: int| 0 <= j < i ==> names@[j].0 != id,
        decreases names.len() - i,
    {
        if names[i].0 == id {
            let n = names[i].1.clone();
            assert(names@[i as int].1@ == n@);
            return Some(n);
        }
        i = i + 1;
    }
    None
}

/// The note after a merge.
pub fn merged_message(duplicate_name: &str, canonical_name: &str, plays_moved: u64) -> (r: String)
    ensures
        r@ == "Merged \""@ + duplicate_name@ + "\" into \""@ + canonical_name@ + "\" ("@
            + spec_digits(plays_moved as nat) + " plays moved). \""@ + duplicate_name@
            + "\" no longer exists."@,
{
    let mut out: Vec<char> = Vec::new();
    push_str(&mut out, "Merged \"");
    push_str(&mut out, duplicate_name);
    push_str(&mut out, "\" into \"");
    push_str(&mut out, canonical_name);
    push_str(&mut out, "\" (");
    let d = decimal_u128(plays_moved as u128);
    push_all(&mut out, &d);
    push_str(&mut out, " plays moved). \"");
    push_str(&mut out, duplicate_name);
    push_str(&mut out, "\" no longer exists.");
    string_of(&out)
}

} // verus!
