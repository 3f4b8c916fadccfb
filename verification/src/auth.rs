//! Signing in, changing a password, two-factor set-up and profile names.

use vstd::prelude::*;
use totp_rs::{Algorithm, Secret, TOTP};

use crate::security::{
    law_lock_after_five_failures, opt_str_view, password_matches, throttle_after, verify_password,
};
use crate::text::{chars_of, opt_view, spec_has_char, spec_trim, string_of, trim};

verus! {

/// The sign-in form.
pub struct LoginForm {
    pub username: String,
    pub password: String,
}

/// The change-password form.
pub struct ChangePasswordForm {
    pub current_password: String,
    pub new_password: String,
    pub confirm_password: String,
}

/// The form that confirms two-factor set-up with a code.
pub struct Setup2faForm {
    pub code: String,
}

/// The form that changes a user's first and last name.
pub struct UpdateNameForm {
    pub first_name: String,
    pub last_name: String,
}

pub const LOGIN_FAILED_MESSAGE: &'static str = "Incorrect username or password.";

pub const IP_BANNED_MESSAGE: &'static str = "Too many failed sign-in attempts from your network. Try again later.";

pub const ACCOUNT_LOCKED_MESSAGE: &'static str =
    "Too many failed sign-in attempts. This account is locked for a while; try again later.";

/// What happens to a sign-in attempt.
#[derive(PartialEq, Eq, Structural, Clone, Copy, Debug)]
pub enum LoginOutcome {
    /// The address the attempt comes from is banned: nothing is checked.
    IpBanned,
    /// The named account is locked: the password is not even checked.
    AccountLocked,
    /// No active account has that name, or the password does not match.
    WrongCredentials,
    /// The user is signed in.
    Accepted,
}

impl LoginOutcome {
    /// The message the sign-in page shows (empty for a successful sign-in).
    pub fn message(&self) -> (r: &'static str)
        ensures
            *self == LoginOutcome::IpBanned ==> r@ == IP_BANNED_MESSAGE@,
            *self == LoginOutcome::AccountLocked ==> r@ == ACCOUNT_LOCKED_MESSAGE@,
            *self == LoginOutcome::WrongCredentials ==> r@ == LOGIN_FAILED_MESSAGE@,
            *self == LoginOutcome::Accepted ==> r@ == ""@,
    {
        match self {
            LoginOutcome::IpBanned => IP_BANNED_MESSAGE,
            LoginOutcome::AccountLocked => ACCOUNT_LOCKED_MESSAGE,
            LoginOutcome::WrongCredentials => LOGIN_FAILED_MESSAGE,
            LoginOutcome::Accepted => "",
        }
    }
}

/// The outcome of a sign-in with `password`, where `stored_hash` is the hash
/// of the active account named in the form (if there is one), `account_locked`
/// says that account is locked, and `ip_banned` that the client's address is
/// banned. A ban is checked first, then the lock, then the password.
pub open spec fn spec_login_outcome(
    password: Seq<char>,
    stored_hash: Option<Seq<char>>,
    account_locked: bool,
    ip_banned: bool,
) -> LoginOutcome {
    if ip_banned {
        LoginOutcome::IpBanned
    } else if account_locked {
        LoginOutcome::AccountLocked
    } else {
        match stored_hash {
            Some(h) => if password_matches(password, h) {
                LoginOutcome::Accepted
            } else {
                LoginOutcome::WrongCredentials
            },
            None => LoginOutcome::WrongCredentials,
        }
    }
}

/// Decides a sign-in attempt. An unknown username and a wrong password get
/// the same answer, so that the page does not tell which usernames exist.
pub fn login_outcome(form: &LoginForm, stored_hash: Option<&str>, account_locked: bool, ip_banned: bool) -> (r:
    LoginOutcome)
    ensures
        r == spec_login_outcome(form.password@, opt_str_view(stored_hash), account_locked, ip_banned),
{
    if ip_banned {
        LoginOutcome::IpBanned
    } else if account_locked {
        LoginOutcome::AccountLocked
    } else {
        match stored_hash {
            Some(h) => if verify_password(form.password.as_str(), h) {
                LoginOutcome::Accepted
            } else {
                LoginOutcome::WrongCredentials
            },
            None => LoginOutcome::WrongCredentials,
        }
    }
}

/// Whether a sign-in succeeds: the client's address is not banned, the
/// named active account exists and is not locked, and the password verifies
/// against its stored hash.
pub fn login_accepted(form: &LoginForm, stored_hash: Option<&str>, account_locked: bool, ip_banned: bool) -> (r: bool)
    ensures
        r == (!ip_banned && !account_locked && match stored_hash {
            Some(h) => password_matches(form.password@, h@),
            None => false,
        }),
{
    let o = login_outcome(form, stored_hash, account_locked, ip_banned);
    match o {
        LoginOutcome::Accepted => true,
        _ => false,
    }
}

/// A locked account, or a banned address, cannot sign in, whatever the
/// password: the attempt is refused before the password is looked at.
pub proof fn law_locked_or_banned_is_refused(
    password: Seq<char>,
    stored_hash: Option<Seq<char>>,
    account_locked: bool,
    ip_banned: bool,
)
    requires
        account_locked || ip_banned,
    ensures
        spec_login_outcome(password, stored_hash, account_locked, ip_banned) != LoginOutcome::Accepted,
        ip_banned ==> spec_login_outcome(password, stored_hash, account_locked, ip_banned)
            == LoginOutcome::IpBanned,
        !ip_banned ==> spec_login_outcome(password, stored_hash, account_locked, ip_banned)
            == LoginOutcome::AccountLocked,
{
}

/// The account's lock, as `LoginThrottle` keeps it, is the lock a sign-in
/// is checked against: after five failed attempts on a fresh account, even
/// the right password is refused.
pub proof fn law_five_failures_refuse_sign_in(
    password: Seq<char>,
    stored_hash: Option<Seq<char>>,
    n: nat,
    ip_banned: bool,
)
    requires
        n >= 5,
    ensures
        spec_login_outcome(password, stored_hash, throttle_after(n).locked, ip_banned)
            != LoginOutcome::Accepted,
{
    law_lock_after_five_failures(n);
}

/// A name field as stored: trimmed, and absent when blank.
pub open spec fn spec_name_field(s: Seq<char>) -> Option<Seq<char>> {
    if spec_trim(s).len() > 0 {
        Some(spec_trim(s))
    } else {
        None
    }
}

fn name_field(s: &str) -> (r: Option<String>)
    ensures
        opt_view(r) == spec_name_field(s@),
{
    let c = chars_of(s);
    let t = trim(&c);
    if t.len() > 0 {
        Some(string_of(&t))
    } else {
        None
    }
}

/// The first and last name a name form stores.
pub fn names_to_store(form: &UpdateNameForm) -> (r: (Option<String>, Option<String>))
    ensures
        opt_view(r.0) == spec_name_field(form.first_name@),
        opt_view(r.1) == spec_name_field(form.last_name@),
{
    (name_field(form.first_name.as_str()), name_field(form.last_name.as_str()))
}

// ---------------------------------------------------------------------------
// Two-factor login
// ---------------------------------------------------------------------------
/// The answer of `totp-rs` for a code: `Some(ok)` where `ok` says whether
/// `code` is a valid six-digit SHA-1 code (30-second steps, one step of skew)
/// at `time` for the base32 secret, issued by "Board Game Tracker" to
/// `account`; `None` where no such generator can be built.
pub uninterp spec fn totp_verdict(secret: Seq<char>, account: Seq<char>, code: Seq<char>, time: u64) -> Option<bool>;

/// Builds `totp_rs::TOTP` (SHA-1, 6 digits, skew 1, step 30, issuer "Board
/// Game Tracker") from the base32 `secret` and calls `check(code, time)`.
/// Claims: the answer is `totp_verdict` of the arguments, and there is none
/// for an account name holding `:`, which `TOTP::new` refuses. Times below
/// one step are left out, since `check` subtracts the skew from the step
/// number, and so are the last minute of `u64` seconds, where it multiplies
/// the step numbers back out past `u64::MAX`.
#[verifier::external_body]
fn totp_check(secret: &str, account: &str, code: &str, time: u64) -> (r: Option<bool>)
    requires
        30 <= time <= u64::MAX - 60,
    ensures
        r == totp_verdict(secret@, account@, code@, time),
        spec_has_char(account@, ':') ==> r is None,
{
    let bytes = Secret::Encoded(secret.to_string()).to_bytes().ok()?;
    let totp = TOTP::new(
        Algorithm::SHA1,
        6,
        1,
        30,
        bytes,
        Some("Board Game Tracker".to_string()),
        account.to_string(),
    ).ok()?;
    Some(totp.check(code, time))
}

/// The QR code `totp-rs` draws for the same generator as `totp_verdict`
/// (base32 `secret`, SHA-1, 6 digits, skew 1, 30-second steps, issuer
/// "Board Game Tracker", `account`): a PNG in base64, for an authenticator
/// app to scan. `None` where no such generator can be built or the code
/// cannot be drawn.
pub uninterp spec fn totp_qr_of(secret: Seq<char>, account: Seq<char>) -> Option<Seq<char>>;

/// Builds `totp_rs::TOTP` as `totp_check` does and calls `get_qr_base64`.
/// Claims: the answer is `totp_qr_of(secret, account)`, and there is none for
/// an account name holding `:`, which `TOTP::new` refuses.
#[verifier::external_body]
fn totp_qr_base64(secret: &str, account: &str) -> (r: Option<String>)
    ensures
        opt_view(r) == totp_qr_of(secret@, account@),
        spec_has_char(account@, ':') ==> r is None,
{
    let bytes = Secret::Encoded(secret.to_string()).to_bytes().ok()?;
    let totp = TOTP::new(
        Algorithm::SHA1,
        6,
        1,
        30,
        bytes,
        Some("Board Game Tracker".to_string()),
        account.to_string(),
    ).ok()?;
    totp.get_qr_base64().ok()
}

/// The QR code the two-factor set-up page shows for `secret`, issued to
/// `username`; `None` when the secret cannot drive a generator or the code
/// cannot be drawn.
pub fn setup_qr_code(secret: &str, username: &str) -> (r: Option<String>)
    ensures
        opt_view(r) == totp_qr_of(secret@, username@),
        spec_has_char(username@, ':') ==> r is None,
{
    totp_qr_base64(secret, username)
}

/// Calls `totp_rs::Secret::generate_secret` and encodes it in base32: a fresh
/// random secret, of which nothing is claimed.
#[verifier::external_body]
pub fn generate_totp_secret_base32() -> (r: String) {
    Secret::generate_secret().to_encoded().to_string()
}

/// What confirming two-factor set-up with a code leads to.
#[derive(PartialEq, Eq, Structural, Clone, Copy, Debug)]
pub enum SetupOutcome {
    /// No secret was issued yet: start set-up again.
    NoSecret,
    /// The code matches: two-factor login is now on.
    Enabled,
    /// The code does not match: ask again.
    WrongCode,
    /// The stored secret cannot drive a code generator.
    BadSecret,
}

pub const WRONG_CODE_MESSAGE: &'static str = "That code didn't match. Try again.";

/// Checks the code typed to finish two-factor set-up, at `time` (seconds
/// since the Unix epoch).
pub fn confirm_setup(secret: Option<&str>, username: &str, form: &Setup2faForm, time: u64) -> (r:
    SetupOutcome)
    requires
        30 <= time <= u64::MAX - 60,
    ensures
        r == match secret {
            None => SetupOutcome::NoSecret,
            Some(s) => match totp_verdict(s@, username@, form.code@, time) {
                Some(true) => SetupOutcome::Enabled,
                Some(false) => SetupOutcome::WrongCode,
                None => SetupOutcome::BadSecret,
            },
        },
{
    match secret {
        None => SetupOutcome::NoSecret,
        Some(s) => match totp_check(s, username, form.code.as_str(), time) {
            Some(true) => SetupOutcome::Enabled,
            Some(false) => SetupOutcome::WrongCode,
            None => SetupOutcome::BadSecret,
        },
    }
}

/// What the two-factor set-up page does.
#[derive(PartialEq, Eq, Debug)]
pub enum SetupPage {
    /// Two-factor login is already on: go home.
    AlreadyEnabled,
    /// Show the set-up page for this stored secret.
    Show(String),
    /// Generate a secret, store it, then show the page for it.
    NewSecret,
}

/// The set-up page keeps showing the secret issued first, so that a reload
/// does not invalidate a half-finished set-up.
pub fn setup_page(totp_enabled: bool, stored_secret: Option<String>) -> (r: SetupPage)
    ensures
        totp_enabled ==> r == SetupPage::AlreadyEnabled,
        !totp_enabled && stored_secret is None ==> r == SetupPage::NewSecret,
        !totp_enabled && stored_secret is Some ==> (r matches SetupPage::Show(s) && s@
            == stored_secret->0@),
{
    if totp_enabled {
        SetupPage::AlreadyEnabled
    } else {
        match stored_secret {
            Some(s) => SetupPage::Show(s),
            None => SetupPage::NewSecret,
        }
    }
}

/// The change-password page is only shown to users who must change their
/// password; everyone else goes home.
pub fn shows_change_password(must_change_password: bool) -> (r: bool)
    ensures
        r == must_change_password,
{
    must_change_password
}

} // verus!
