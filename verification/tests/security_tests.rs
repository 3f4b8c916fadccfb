use boardgame_tracker::models::User;
use boardgame_tracker::security::{
    admin_gate, ban_event_detail, ban_reason, bootstrap_plan, check_new_user,
    check_password_change, client_ip, display_initial, display_name, full_auth_gate,
    generate_temp_password, hash_password, session_gate, should_ban_ip, temp_password_from,
    verify_password, BootstrapPlan, Gate, LoginThrottle, NewUserError, NewUserForm,
    PasswordChangeError, MAX_FAILED_ATTEMPTS,
};

fn user(admin: bool, active: bool, must_change: bool, totp: bool) -> User {
    User {
        id: 7,
        username: "sam".to_string(),
        password_hash: String::new(),
        is_admin: admin,
        is_active: active,
        must_change_password: must_change,
        totp_secret: None,
        totp_enabled: totp,
        first_name: None,
        last_name: None,
    }
}

#[test]
fn client_ip_prefers_the_first_forwarded_address() {
    assert_eq!(client_ip(Some(" 203.0.113.9 , 10.0.0.1"), "127.0.0.1"), "203.0.113.9");
    assert_eq!(client_ip(None, "192.168.1.4"), "192.168.1.4");
}

#[test]
fn display_names_fall_back_to_the_username() {
    assert_eq!(display_name("sam", Some("Sam"), Some("Smith")), "Sam Smith");
    assert_eq!(display_name("sam", Some("Sam"), None), "Sam");
    assert_eq!(display_name("sam", None, Some(" Smith ")), "Smith");
    assert_eq!(display_name("sam", Some("  "), Some("")), "sam");
    assert_eq!(display_initial("sam"), "S");
    assert_eq!(display_initial(""), "?");
}

#[test]
fn fifth_failure_locks_and_a_locked_account_stays_put() {
    let mut t = LoginThrottle { failed_attempts: 0, locked: false };
    for _ in 0..4 {
        t.record_failure();
        assert!(!t.locked);
    }
    t.record_failure();
    assert!(t.locked);
    assert_eq!(t.failed_attempts, MAX_FAILED_ATTEMPTS);
    t.record_failure();
    assert_eq!(t.failed_attempts, MAX_FAILED_ATTEMPTS);
    assert!(t.locked);
    t.reset();
    assert_eq!(t.failed_attempts, 0);
    assert!(!t.locked);
}

#[test]
fn addresses_are_banned_at_fifteen_failures() {
    assert!(!should_ban_ip(14));
    assert!(should_ban_ip(15));
    assert_eq!(ban_reason(15), "15 failed login attempts within 15 minutes");
    assert_eq!(ban_event_detail(16), "16 failed attempts");
}

#[test]
fn passwords_hash_and_verify() {
    let h = hash_password("correct horse battery staple");
    assert!(h.starts_with("$argon2"));
    assert!(verify_password("correct horse battery staple", &h));
    assert!(!verify_password("wrong password here!!", &h));
    assert!(!verify_password("anything", "not a phc string"));
    assert!(!verify_password("anything", ""));
}

#[test]
fn temporary_passwords_use_the_unambiguous_alphabet() {
    let p = generate_temp_password();
    assert_eq!(p.chars().count(), 20);
    assert!(p.chars().all(|c| c.is_ascii_alphanumeric() && !"IOl01".contains(c)));
    let fixed = temp_password_from(&(0..20u32).collect());
    assert_eq!(fixed, "ABCDEFGHJKLMNPQRSTUV");
}

#[test]
fn gates_send_users_through_onboarding() {
    assert!(matches!(session_gate(&None), Gate::Login));
    assert!(matches!(session_gate(&Some(user(false, true, true, false))), Gate::Allow));
    assert!(matches!(session_gate(&Some(user(false, false, false, true))), Gate::Login));
    assert!(matches!(full_auth_gate(&Some(user(false, true, true, false))), Gate::ChangePassword));
    assert!(matches!(full_auth_gate(&Some(user(false, true, false, false))), Gate::SetupTwoFactor));
    assert!(matches!(full_auth_gate(&Some(user(false, true, false, true))), Gate::Allow));
    assert!(admin_gate(&user(true, true, false, true)));
    assert!(!admin_gate(&user(false, true, false, true)));
}

#[test]
fn the_first_admin_is_created_only_on_an_empty_instance() {
    assert!(matches!(bootstrap_plan(3, None, Some("pw".into())), BootstrapPlan::Skip));
    assert!(matches!(bootstrap_plan(0, None, None), BootstrapPlan::MissingPassword));
    match bootstrap_plan(0, None, Some("secret".into())) {
        BootstrapPlan::Create { username, password } => {
            assert_eq!(username, "admin");
            assert_eq!(password, "secret");
        }
        _ => panic!("expected a create plan"),
    }
}

#[test]
fn password_changes_are_checked_in_order() {
    let h = hash_password("old password value");
    assert!(matches!(
        check_password_change("nope", &h, "x", "x"),
        Err(PasswordChangeError::WrongCurrentPassword)
    ));
    assert!(matches!(
        check_password_change("old password value", &h, "short", "short"),
        Err(PasswordChangeError::TooShort)
    ));
    assert!(matches!(
        check_password_change("old password value", &h, "a brand new passphrase", "different one"),
        Err(PasswordChangeError::Mismatch)
    ));
    assert!(check_password_change("old password value", &h, "a brand new passphrase", "a brand new passphrase").is_ok());
    assert_eq!(PasswordChangeError::TooShort.message(), "New password must be at least 15 characters.");
}

#[test]
fn new_users_need_a_name_and_a_long_password() {
    let form = |u: &str, p: &str| NewUserForm {
        username: u.to_string(),
        temp_password: p.to_string(),
        is_admin: Some("on".into()),
        first_name: " Ann ".into(),
        last_name: "  ".into(),
    };
    assert!(matches!(check_new_user(&form("  ", "a long enough password")), Err(NewUserError::EmptyUsername)));
    assert!(matches!(check_new_user(&form("ann", "short")), Err(NewUserError::ShortPassword)));
    let u = check_new_user(&form(" ann ", "a long enough password")).ok().unwrap();
    assert_eq!(u.username, "ann");
    assert!(u.is_admin);
    assert_eq!(u.first_name.as_deref(), Some("Ann"));
    assert_eq!(u.last_name, None);
    assert_eq!(NewUserError::EmptyUsername.message(), "Username can't be empty.");
}
