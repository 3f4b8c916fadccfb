//! Sign-in rules: account lockout, IP bans, password policy, the onboarding
//! gates every request passes, and how a person's name is shown.

use vstd::prelude::*;
use argon2::password_hash::rand_core::{OsRng, RngCore};
use argon2::password_hash::SaltString;
use argon2::{Argon2, PasswordHash, PasswordHasher, PasswordVerifier};

use crate::models::User;
use crate::text::{
    chars_of, decimal_i64, push_all, push_str, spec_decimal, spec_trim, string_of, trim,
};

verus! {

broadcast use vstd::string::group_string_axioms;

pub const MIN_PASSWORD_LEN: usize = 15;

/// Failed password or TOTP attempts against one account before it locks.
pub const MAX_FAILED_ATTEMPTS: i64 = 5;

/// How long a locked account stays locked before unlocking by itself.
pub const LOCKOUT_MINUTES: i64 = 15;

/// Failed attempts from one IP (across any account) within the window below
/// before that IP is banned from reaching the login page at all.
pub const MAX_FAILED_PER_IP: i64 = 15;

pub const IP_FAILURE_WINDOW_MINUTES: i64 = 15;

/// How long an IP ban lasts before it expires.
pub const IP_BAN_HOURS: i64 = 1;

/// One shared wrapper so request handlers can carry the signed-in user.
pub struct CurrentUser(pub User);

// ---------------------------------------------------------------------------
// Client address
// ---------------------------------------------------------------------------
/// The text before the first comma (all of `s` when it has none).
pub open spec fn first_field(s: Seq<char>) -> Seq<char>
    decreases s.len(),
{
    if s.len() == 0 {
        s
    } else if s[0] == ',' {
        seq![]
    } else {
        seq![s[0]] + first_field(s.drop_first())
    }
}

/// The address a request is attributed to: the first entry of an
/// `X-Forwarded-For` header (trimmed) when there is one and it is not blank,
/// otherwise the TCP peer's address.
pub open spec fn spec_client_ip(forwarded_for: Option<Seq<char>>, peer: Seq<char>) -> Seq<char> {
    match forwarded_for {
        Some(h) => if spec_trim(first_field(h)).len() > 0 {
            spec_trim(first_field(h))
        } else {
            peer
        },
        None => peer,
    }
}

pub open spec fn opt_str_view(o: Option<&str>) -> Option<Seq<char>> {
    match o {
        Some(s) => Some(s@),
        None => None,
    }
}

/// Best-effort client IP. `forwarded_for` is the `X-Forwarded-For` header's
/// value when the request has one that is plain visible text, and `peer` is
/// the TCP peer's address written out.
pub fn client_ip(forwarded_for: Option<&str>, peer: &str) -> (r: String)
    ensures
        r@ == spec_client_ip(opt_str_view(forwarded_for), peer@),
{
    match forwarded_for {
        Some(h) => {
            let cs = chars_of(h);
            let mut end: usize = 0;
            assert(cs@.take(0) =~= seq![]);
            assert(cs@.skip(0) =~= cs@);
            while end < cs.len() && cs[end] != ','
                invariant
                    end <= cs.len(),
                    first_field(cs@) == cs@.take(end as int) + first_field(cs@.skip(end as int)),
                decreases cs.len() - end,
            {
                assert(cs@.skip(end as int).drop_first() =~= cs@.skip(end + 1));
                assert(cs@.take(end + 1) =~= cs@.take(end as int) + seq![cs@[end as int]]);
                end = end + 1;
            }
            assert(first_field(cs@.skip(end as int)) =~= seq![]);
            assert(first_field(cs@) =~= cs@.take(end as int));
            let head = crate::text::copy_range(&cs, 0, end);
            let t = trim(&head);
            if t.len() > 0 {
                string_of(&t)
            } else {
                peer.to_owned()
            }
        },
        None => peer.to_owned(),
    }
}

// ---------------------------------------------------------------------------
// Names
// ---------------------------------------------------------------------------
/// A name part as it is shown: trimmed, and `None` when blank or missing.
pub open spec fn present_name(o: Option<Seq<char>>) -> Option<Seq<char>> {
    match o {
        Some(s) => if spec_trim(s).len() > 0 {
            Some(spec_trim(s))
        } else {
            None
        },
        None => None,
    }
}

/// The name shown for a person everywhere except sign-in and URLs: "First
/// Last" when either is set, otherwise the username.
pub open spec fn spec_display_name(
    username: Seq<char>,
    first: Option<Seq<char>>,
    last: Option<Seq<char>>,
) -> Seq<char> {
    match (present_name(first), present_name(last)) {
        (Some(f), Some(l)) => f + " "@ + l,
        (Some(f), None) => f,
        (None, Some(l)) => l,
        (None, None) => username,
    }
}

fn present(o: Option<&str>) -> (r: Option<Vec<char>>)
    ensures
        match r {
            Some(v) => present_name(opt_str_view(o)) == Some(v@),
            None => present_name(opt_str_view(o)) is None,
        },
{
    match o {
        Some(s) => {
            let cs = chars_of(s);
            let t = trim(&cs);
            if t.len() > 0 {
                Some(t)
            } else {
                None
            }
        },
        None => None,
    }
}

/// The name shown for a person: "First Last" if either is set (each
/// trimmed), otherwise their username.
pub fn display_name(username: &str, first_name: Option<&str>, last_name: Option<&str>) -> (r: String)
    ensures
        r@ == spec_display_name(username@, opt_str_view(first_name), opt_str_view(last_name)),
{
    let f = present(first_name);
    let l = present(last_name);
    match (f, l) {
        (Some(f), Some(l)) => {
            let mut out = f;
            push_str(&mut out, " ");
            push_all(&mut out, &l);
            string_of(&out)
        },
        (Some(f), None) => string_of(&f),
        (None, Some(l)) => string_of(&l),
        (None, None) => username.to_owned(),
    }
}

/// What `char::to_uppercase` makes of `c` (one or more characters).
pub uninterp spec fn upper_case_of(c: char) -> Seq<char>;

/// Calls `char::to_uppercase` and collects the result. Claims: the result is
/// `upper_case_of(c)`.
#[verifier::external_body]
fn char_to_upper(c: char) -> (r: String)
    ensures
        r@ == upper_case_of(c),
{
    c.to_uppercase().to_string()
}

/// The initial shown in place of a missing profile photo: the first
/// character of the display name in upper case, or "?" for an empty name.
pub open spec fn spec_display_initial(name: Seq<char>) -> Seq<char> {
    if name.len() > 0 {
        upper_case_of(name[0])
    } else {
        "?"@
    }
}

pub fn display_initial(name: &str) -> (r: String)
    ensures
        r@ == spec_display_initial(name@),
{
    let cs = chars_of(name);
    if cs.len() > 0 {
        char_to_upper(cs[0])
    } else {
        "?".to_owned()
    }
}

// ---------------------------------------------------------------------------
// Account lockout
// ---------------------------------------------------------------------------
/// An account's failed-login state.
pub struct LoginThrottle {
    pub failed_attempts: i64,
    /// The account is locked and the lock has not expired yet.
    pub locked: bool,
}

/// The state after one more failed attempt: nothing changes while the
/// account is locked; otherwise the count goes up by one (it cannot pass
/// `i64::MAX`) and the account locks once the count reaches
/// `MAX_FAILED_ATTEMPTS`.
pub open spec fn after_failure(t: LoginThrottle) -> LoginThrottle {
    if t.locked {
        t
    } else {
        let n = if t.failed_attempts < i64::MAX {
            (t.failed_attempts + 1) as i64
        } else {
            t.failed_attempts
        };
        LoginThrottle { failed_attempts: n, locked: n >= MAX_FAILED_ATTEMPTS }
    }
}

impl LoginThrottle {
    /// Records one failed password or TOTP attempt against the account.
    /// Deliberately does nothing while the account is already locked, so
    /// repeated hammering can't extend the lockout and lock a legitimate user
    /// out indefinitely.
    pub fn record_failure(&mut self)
        ensures
            *final(self) == after_failure(*old(self)),
    {
        if self.locked {
            return;
        }
        if self.failed_attempts < i64::MAX {
            self.failed_attempts = self.failed_attempts + 1;
        }
        if self.failed_attempts >= MAX_FAILED_ATTEMPTS {
            self.locked = true;
        }
    }

    /// A successful sign-in, or an admin's unlock: the count starts over and
    /// any lock is lifted.
    pub fn reset(&mut self)
        ensures
            final(self).failed_attempts == 0,
            !final(self).locked,
    {
        self.failed_attempts = 0;
        self.locked = false;
    }
}

/// A lock never lengthens: a failure recorded against a locked account leaves
/// its state exactly as it was.
pub proof fn law_locked_account_unchanged(t: LoginThrottle)
    requires
        t.locked,
    ensures
        after_failure(t) == t,
{
}

/// The state after `n` failed attempts against a fresh account.
pub open spec fn throttle_after(n: nat) -> LoginThrottle
    decreases n,
{
    if n == 0 {
        LoginThrottle { failed_attempts: 0, locked: false }
    } else {
        after_failure(throttle_after((n - 1) as nat))
    }
}

/// Starting from a fresh account, the first four failures leave it
/// unlocked and the fifth locks it; after that the count stays at five.
pub proof fn law_lock_after_five_failures(n: nat)
    ensures
        throttle_after(n).locked <==> n >= 5,
        throttle_after(n).failed_attempts == if n <= 5 {
            n as int
        } else {
            5
        },
    decreases n,
{
    if n > 0 {
        law_lock_after_five_failures((n - 1) as nat);
    }
}

// ---------------------------------------------------------------------------
// IP bans
// ---------------------------------------------------------------------------
/// An IP is banned once its recent failures reach `MAX_FAILED_PER_IP`.
pub fn should_ban_ip(recent_failures: i64) -> (r: bool)
    ensures
        r == (recent_failures >= MAX_FAILED_PER_IP),
{
    recent_failures >= MAX_FAILED_PER_IP
}

/// The reason stored with a ban: "N failed login attempts within 15 minutes".
pub fn ban_reason(recent_failures: i64) -> (r: String)
    ensures
        r@ == spec_decimal(recent_failures as int) + " failed login attempts within 15 minutes"@,
{
    let mut out = decimal_i64(recent_failures);
    push_str(&mut out, " failed login attempts within 15 minutes");
    string_of(&out)
}

/// The detail of the `ip_banned` security event: "N failed attempts".
pub fn ban_event_detail(recent_failures: i64) -> (r: String)
    ensures
        r@ == spec_decimal(recent_failures as int) + " failed attempts"@,
{
    let mut out = decimal_i64(recent_failures);
    push_str(&mut out, " failed attempts");
    string_of(&out)
}

// ---------------------------------------------------------------------------
// Passwords
// ---------------------------------------------------------------------------
/// Whether `password` is what the Argon2 PHC string `hash` was made from:
/// what argon2's `PasswordVerifier::verify_password` answers for it (false
/// when `hash` is not a PHC string).
pub uninterp spec fn password_matches(password: Seq<char>, hash: Seq<char>) -> bool;

/// A text that cannot be a PHC string: it is empty or does not start with
/// `$` (`PasswordHash::new` refuses both before reading any field).
pub open spec fn not_phc(hash: Seq<char>) -> bool {
    hash.len() == 0 || hash[0] != '$'
}

/// Calls argon2's `PasswordHash::new` and `Argon2::default().verify_password`.
/// Claims: the answer is `password_matches(password, hash)`, and it is false
/// for a text that cannot be a PHC string. That a different password fails
/// against a good hash is Argon2's collision resistance, which no source
/// states as a fact, so it is not claimed.
#[verifier::external_body]
pub fn verify_password(password: &str, hash: &str) -> (r: bool)
    ensures
        r == password_matches(password@, hash@),
        not_phc(hash@) ==> !r,
{
    let Ok(parsed) = PasswordHash::new(hash) else {
        return false;
    };
    Argon2::default().verify_password(password.as_bytes(), &parsed).is_ok()
}

/// Calls argon2's `Argon2::default().hash_password` with a fresh random salt
/// from `OsRng`. Claims: the resulting PHC string verifies `password` (the
/// PHC format records the salt and parameters, which is what verification
/// reads back). The salt is random, so nothing more is said of the string.
/// Argon2 accepts passwords up to `u32::MAX` bytes; longer ones are left out.
#[verifier::external_body]
pub fn hash_password(password: &str) -> (r: String)
    requires
        vstd::utf8::encode_utf8(password@).len() <= u32::MAX,
    ensures
        password_matches(password@, r@),
{
    let salt = SaltString::generate(&mut OsRng);
    Argon2::default().hash_password(password.as_bytes(), &salt).expect(
        "hashing a password of an accepted length does not fail",
    ).to_string()
}

/// Calls `OsRng::next_u32`: a random number, of which nothing is claimed.
#[verifier::external_body]
fn random_u32() -> (r: u32) {
    OsRng.next_u32()
}

/// The characters temporary passwords are drawn from: letters and digits
/// without the easily confused `I`, `O`, `l`, `0` and `1`.
pub open spec fn temp_password_alphabet() -> Seq<char> {
    "ABCDEFGHJKLMNPQRSTUVWXYZabcdefghijkmnopqrstuvwxyz23456789"@
}

/// The temporary password that a run of random numbers picks: each number
/// chooses a character of the alphabet by its remainder.
pub open spec fn spec_temp_password(draws: Seq<u32>) -> Seq<char> {
    draws.map_values(|d: u32| temp_password_alphabet()[(d as int) % 57])
}

/// Builds a temporary password from random draws.
pub fn temp_password_from(draws: &Vec<u32>) -> (r: String)
    ensures
        r@ == spec_temp_password(draws@),
{
    let alphabet = chars_of("ABCDEFGHJKLMNPQRSTUVWXYZabcdefghijkmnopqrstuvwxyz23456789");
    proof {
        reveal_strlit("ABCDEFGHJKLMNPQRSTUVWXYZabcdefghijkmnopqrstuvwxyz23456789");
    }
    assert(alphabet@.len() == 57);
    let mut out: Vec<char> = Vec::new();
    let mut i: usize = 0;
    while i < draws.len()
        invariant
            i <= draws.len(),
            alphabet@ == temp_password_alphabet(),
            alphabet@.len() == 57,
            out@ == spec_temp_password(draws@).take(i as int),
        decreases draws.len() - i,
    {
        let k = (draws[i] % 57) as usize;
        out.push(alphabet[k]);
        i = i + 1;
        assert(out@ =~= spec_temp_password(draws@).take(i as int));
    }
    assert(spec_temp_password(draws@).take(draws.len() as int) =~= spec_temp_password(draws@));
    string_of(&out)
}

/// A random temporary password for an admin-initiated reset: twenty
/// characters of the alphabet, well above `MIN_PASSWORD_LEN`.
pub fn generate_temp_password() -> (r: String)
    ensures
        r@.len() == 20,
        forall|i: int| 0 <= i < 20 ==> temp_password_alphabet().contains(#[trigger] r@[i]),
{
    let mut draws: Vec<u32> = Vec::new();
    let mut i: usize = 0;
    while i < 20
        invariant
            i <= 20,
            draws@.len() == i,
        decreases 20 - i,
    {
        draws.push(random_u32());
        i = i + 1;
    }
    let r = temp_password_from(&draws);
    proof {
        reveal_strlit("ABCDEFGHJKLMNPQRSTUVWXYZabcdefghijkmnopqrstuvwxyz23456789");
        assert forall|i: int| 0 <= i < 20 implies temp_password_alphabet().contains(#[trigger] r@[i]) by {
            let k = (draws@[i] as int) % 57;
            assert(temp_password_alphabet()[k] == r@[i]);
        }
    }
    r
}

/// Every temporary password is long enough to be accepted as a password and
/// avoids the characters that are easy to misread.
pub proof fn law_temp_password_policy(draws: Seq<u32>)
    requires
        draws.len() == 20,
    ensures
        spec_temp_password(draws).len() >= MIN_PASSWORD_LEN,
        forall|i: int|
            0 <= i < 20 ==> {
                let c = #[trigger] spec_temp_password(draws)[i];
                c != 'I' && c != 'O' && c != 'l' && c != '0' && c != '1'
            },
{
    reveal_strlit("ABCDEFGHJKLMNPQRSTUVWXYZabcdefghijkmnopqrstuvwxyz23456789");
    assert forall|i: int| 0 <= i < 20 implies {
        let c = #[trigger] spec_temp_password(draws)[i];
        c != 'I' && c != 'O' && c != 'l' && c != '0' && c != '1'
    } by {
        let k = (draws[i] as int) % 57;
        assert(0 <= k < 57);
        assert(spec_temp_password(draws)[i] == temp_password_alphabet()[k]);
    }
}

// ---------------------------------------------------------------------------
// Access gates
// ---------------------------------------------------------------------------
/// Where a request goes after the sign-in checks.
pub enum Gate {
    /// Not signed in (or the account is gone or deactivated): the session is
    /// cleared and the request goes to the sign-in page.
    Login,
    /// Signed in but still has to change the initial password.
    ChangePassword,
    /// Signed in but still has to set up two-factor sign-in.
    SetupTwoFactor,
    /// The request goes ahead.
    Allow,
}

/// The onboarding gate: any signed-in, active user passes.
pub open spec fn session_outcome(user: Option<User>) -> Gate {
    match user {
        Some(u) => if u.is_active {
            Gate::Allow
        } else {
            Gate::Login
        },
        None => Gate::Login,
    }
}

/// The app gate: an active user who has changed the initial password and set
/// up two-factor sign-in passes; the first missing step is where they go.
pub open spec fn full_auth_outcome(user: Option<User>) -> Gate {
    match user {
        Some(u) => if !u.is_active {
            Gate::Login
        } else if u.must_change_password {
            Gate::ChangePassword
        } else if !u.totp_enabled {
            Gate::SetupTwoFactor
        } else {
            Gate::Allow
        },
        None => Gate::Login,
    }
}

/// Access to the password-change and two-factor set-up pages and to
/// signing out: any active signed-in user may reach them, whether or not
/// the account still has steps to finish. `user` is the session's user.
pub fn session_gate(user: &Option<User>) -> (g: Gate)
    ensures
        g == session_outcome(*user),
{
    match user {
        Some(u) => if u.is_active {
            Gate::Allow
        } else {
            Gate::Login
        },
        None => Gate::Login,
    }
}

/// Access to all other pages: an active user who has changed the first
/// password and turned on two-factor sign-in.
pub fn full_auth_gate(user: &Option<User>) -> (g: Gate)
    ensures
        g == full_auth_outcome(*user),
{
    match user {
        Some(u) => if !u.is_active {
            Gate::Login
        } else if u.must_change_password {
            Gate::ChangePassword
        } else if !u.totp_enabled {
            Gate::SetupTwoFactor
        } else {
            Gate::Allow
        },
        None => Gate::Login,
    }
}

/// Admin-only pages: only admins get through.
pub fn admin_gate(user: &User) -> (r: bool)
    ensures
        r == user.is_admin,
{
    user.is_admin
}

/// Nobody reaches a page of the app proper before finishing onboarding, and
/// whoever does also passes the onboarding gate.
pub proof fn law_full_auth_requires_onboarding(user: Option<User>)
    requires
        full_auth_outcome(user) is Allow,
    ensures
        user is Some,
        user->0.is_active,
        !user->0.must_change_password,
        user->0.totp_enabled,
        session_outcome(user) is Allow,
{
}

// ---------------------------------------------------------------------------
// First admin account
// ---------------------------------------------------------------------------
/// What start-up does about the first admin account.
pub enum BootstrapPlan {
    /// Accounts exist already: nothing to do.
    Skip,
    /// Create the first admin, who must change the password at first sign-in.
    Create { username: String, password: String },
    /// There are no accounts and no `ADMIN_PASSWORD` to create one with;
    /// start-up cannot go on.
    MissingPassword,
}

/// Decides what start-up does about the first admin account, given how many
/// accounts exist and the `ADMIN_USERNAME` / `ADMIN_PASSWORD` settings.
pub fn bootstrap_plan(user_count: i64, username: Option<String>, password: Option<String>) -> (r:
    BootstrapPlan)
    ensures
        user_count > 0 ==> r is Skip,
        user_count <= 0 && password is None ==> r is MissingPassword,
        user_count <= 0 && password is Some ==> (r matches BootstrapPlan::Create { username: u, password: p } && p@
            == password->0@ && u@ == match username {
            Some(n) => n@,
            None => "admin"@,
        }),
{
    if user_count > 0 {
        return BootstrapPlan::Skip;
    }
    match password {
        Some(p) => BootstrapPlan::Create {
            username: match username {
                Some(n) => n,
                None => "admin".to_owned(),
            },
            password: p,
        },
        None => BootstrapPlan::MissingPassword,
    }
}

// ---------------------------------------------------------------------------
// Password changes and new accounts
// ---------------------------------------------------------------------------
/// Why a password change was refused.
pub enum PasswordChangeError {
    WrongCurrentPassword,
    TooShort,
    Mismatch,
}

impl PasswordChangeError {
    pub fn message(&self) -> (r: &'static str)
        ensures
            r@ == match self {
                PasswordChangeError::WrongCurrentPassword => "Current password is incorrect."@,
                PasswordChangeError::TooShort => "New password must be at least 15 characters."@,
                PasswordChangeError::Mismatch => "New passwords don't match."@,
            },
    {
        match self {
            PasswordChangeError::WrongCurrentPassword => "Current password is incorrect.",
            PasswordChangeError::TooShort => "New password must be at least 15 characters.",
            PasswordChangeError::Mismatch => "New passwords don't match.",
        }
    }
}

/// Checks a password change: the current password must verify against the
/// stored hash, the new one must be at least `MIN_PASSWORD_LEN` bytes, and
/// the confirmation must repeat it, checked in that order.
pub fn check_password_change(
    current_password: &str,
    stored_hash: &str,
    new_password: &str,
    confirm_password: &str,
) -> (r: Result<(), PasswordChangeError>)
    ensures
        !password_matches(current_password@, stored_hash@) ==> r matches Err(
            PasswordChangeError::WrongCurrentPassword,
        ),
        password_matches(current_password@, stored_hash@) && vstd::utf8::encode_utf8(new_password@).len()
            < MIN_PASSWORD_LEN ==> r matches Err(PasswordChangeError::TooShort),
        password_matches(current_password@, stored_hash@) && vstd::utf8::encode_utf8(new_password@).len()
            >= MIN_PASSWORD_LEN && new_password@ != confirm_password@ ==> r matches Err(
            PasswordChangeError::Mismatch,
        ),
        r is Ok <==> (password_matches(current_password@, stored_hash@)
            && vstd::utf8::encode_utf8(new_password@).len() >= MIN_PASSWORD_LEN && new_password@
            == confirm_password@),
{
    if !verify_password(current_password, stored_hash) {
        return Err(PasswordChangeError::WrongCurrentPassword);
    }
    if new_password.as_bytes().len() < MIN_PASSWORD_LEN {
        return Err(PasswordChangeError::TooShort);
    }
    let a = chars_of(new_password);
    if !crate::text::chars_eq_str(&a, confirm_password) {
        return Err(PasswordChangeError::Mismatch);
    }
    Ok(())
}

/// The admin's "new user" form.
pub struct NewUserForm {
    pub username: String,
    pub temp_password: String,
    pub is_admin: Option<String>,
    pub first_name: String,
    pub last_name: String,
}

/// A new account, checked and ready to be stored.
pub struct NewUser {
    pub username: String,
    pub is_admin: bool,
    pub first_name: Option<String>,
    pub last_name: Option<String>,
}

/// Why a new account was refused.
pub enum NewUserError {
    EmptyUsername,
    ShortPassword,
}

impl NewUserError {
    pub fn message(&self) -> (r: &'static str)
        ensures
            r@ == match self {
                NewUserError::EmptyUsername => "Username can't be empty."@,
                NewUserError::ShortPassword => "Temporary password must be at least 15 characters."@,
            },
    {
        match self {
            NewUserError::EmptyUsername => "Username can't be empty.",
            NewUserError::ShortPassword => "Temporary password must be at least 15 characters.",
        }
    }
}

pub open spec fn opt_string_view(o: Option<String>) -> Option<Seq<char>> {
    match o {
        Some(s) => Some(s@),
        None => None,
    }
}

/// Checks the "new user" form: the username (trimmed) must not be empty and
/// the temporary password must be at least `MIN_PASSWORD_LEN` bytes. The
/// account is an admin when the checkbox was sent at all; blank name parts
/// are stored as missing, others trimmed.
pub fn check_new_user(form: &NewUserForm) -> (r: Result<NewUser, NewUserError>)
    ensures
        spec_trim(form.username@).len() == 0 ==> r matches Err(NewUserError::EmptyUsername),
        spec_trim(form.username@).len() > 0 && vstd::utf8::encode_utf8(form.temp_password@).len() < MIN_PASSWORD_LEN ==> r matches Err(
            NewUserError::ShortPassword,
        ),
        r is Ok <==> (spec_trim(form.username@).len() > 0 && vstd::utf8::encode_utf8(
            form.temp_password@,
        ).len() >= MIN_PASSWORD_LEN),
        r matches Ok(u) ==> {
            &&& u.username@ == spec_trim(form.username@)
            &&& u.is_admin == form.is_admin is Some
            &&& opt_string_view(u.first_name) == present_name(Some(form.first_name@))
            &&& opt_string_view(u.last_name) == present_name(Some(form.last_name@))
        },
{
    let uc = chars_of(form.username.as_str());
    let username = trim(&uc);
    if username.len() == 0 {
        return Err(NewUserError::EmptyUsername);
    }
    if form.temp_password.as_str().as_bytes().len() < MIN_PASSWORD_LEN {
        return Err(NewUserError::ShortPassword);
    }
    let first = present(Some(form.first_name.as_str()));
    let last = present(Some(form.last_name.as_str()));
    Ok(
        NewUser {
            username: string_of(&username),
            is_admin: form.is_admin.is_some(),
            first_name: match first {
                Some(f) => Some(string_of(&f)),
                None => None,
            },
            last_name: match last {
                Some(l) => Some(string_of(&l)),
                None => None,
            },
        },
    )
}

} // verus!
