use boardgame_tracker::admin::{
    check_deactivate, merge_names, merged_message, removed_message, reset_message,
    restored_message, token_to_save, unbanned_message, unlocked_message, DeactivateRefusal,
    MergeGamesForm, SaveTokenForm, MERGE_NOT_FOUND_MESSAGE, MERGE_SAME_GAME_MESSAGE,
    TOKEN_EMPTY_MESSAGE,
};
use boardgame_tracker::auth::{
    confirm_setup, login_accepted, login_outcome, setup_qr_code, names_to_store, LoginForm, LoginOutcome,
    ACCOUNT_LOCKED_MESSAGE, IP_BANNED_MESSAGE, Setup2faForm, SetupOutcome,
    UpdateNameForm,
};
use boardgame_tracker::export::{
    attachment_disposition, export_failed_message, export_file_name, export_photo_path,
    export_player_name,
};
use boardgame_tracker::security::hash_password;

#[test]
fn removing_accounts() {
    assert_eq!(check_deactivate(1, 1, Some(false), 3), Err(DeactivateRefusal::OwnAccount));
    assert_eq!(check_deactivate(2, 1, None, 3), Err(DeactivateRefusal::NotFound));
    assert_eq!(check_deactivate(2, 1, Some(true), 1), Err(DeactivateRefusal::LastAdmin));
    assert_eq!(check_deactivate(2, 1, Some(true), 2), Ok(()));
    assert_eq!(check_deactivate(2, 1, Some(false), 0), Ok(()));
    assert_eq!(DeactivateRefusal::LastAdmin.message(), "Can't remove the last remaining admin.");
}

#[test]
fn admin_notes() {
    assert_eq!(removed_message("kim"), "kim was removed.");
    assert_eq!(restored_message("kim"), "kim was restored.");
    assert_eq!(unlocked_message("kim"), "kim was unlocked.");
    assert_eq!(unbanned_message("10.0.0.2"), "10.0.0.2 was unbanned.");
    assert!(reset_message("kim", "ABC").starts_with("kim's password and two-factor login were reset. New temporary password: ABC \u{2014} "));
}

#[test]
fn the_token_is_trimmed_and_required() {
    assert_eq!(token_to_save(&SaveTokenForm { token: "  abc ".into() }), Ok("abc".to_string()));
    assert_eq!(token_to_save(&SaveTokenForm { token: "   ".into() }), Err(TOKEN_EMPTY_MESSAGE));
}

#[test]
fn merging_needs_two_existing_games() {
    let names = vec![(1, "Catan".to_string()), (2, "Settlers of Catan".to_string())];
    let same = MergeGamesForm { canonical_id: 1, duplicate_id: 1 };
    assert_eq!(merge_names(&same, &names), Err(MERGE_SAME_GAME_MESSAGE));
    let missing = MergeGamesForm { canonical_id: 1, duplicate_id: 3 };
    assert_eq!(merge_names(&missing, &names), Err(MERGE_NOT_FOUND_MESSAGE));
    let ok = MergeGamesForm { canonical_id: 1, duplicate_id: 2 };
    assert_eq!(merge_names(&ok, &names), Ok(("Catan".to_string(), "Settlers of Catan".to_string())));
    assert_eq!(
        merged_message("Settlers of Catan", "Catan", 4),
        "Merged \"Settlers of Catan\" into \"Catan\" (4 plays moved). \"Settlers of Catan\" no longer exists."
    );
}

#[test]
fn signing_in() {
    let h = hash_password("a sufficiently long password");
    let form = LoginForm { username: "kim".into(), password: "a sufficiently long password".into() };
    assert!(login_accepted(&form, Some(&h), false, false));
    assert!(!login_accepted(&form, None, false, false));
    let bad = LoginForm { username: "kim".into(), password: "wrong".into() };
    assert!(!login_accepted(&bad, Some(&h), false, false));
    assert_eq!(login_outcome(&bad, Some(&h), false, false), LoginOutcome::WrongCredentials);
    assert_eq!(login_outcome(&form, None, false, false).message(), "Incorrect username or password.");
    assert_eq!(login_outcome(&form, Some(&h), false, false), LoginOutcome::Accepted);
}

#[test]
fn locked_accounts_and_banned_addresses_cannot_sign_in() {
    let h = hash_password("a sufficiently long password");
    let form = LoginForm { username: "kim".into(), password: "a sufficiently long password".into() };
    assert!(!login_accepted(&form, Some(&h), true, false));
    assert!(!login_accepted(&form, Some(&h), false, true));
    assert_eq!(login_outcome(&form, Some(&h), true, false), LoginOutcome::AccountLocked);
    assert_eq!(login_outcome(&form, Some(&h), true, true), LoginOutcome::IpBanned);
    assert_eq!(login_outcome(&form, None, false, true), LoginOutcome::IpBanned);
    assert_eq!(login_outcome(&form, Some(&h), true, false).message(), ACCOUNT_LOCKED_MESSAGE);
    assert_eq!(login_outcome(&form, Some(&h), false, true).message(), IP_BANNED_MESSAGE);
}

#[test]
fn names_are_trimmed_or_dropped() {
    let (f, l) = names_to_store(&UpdateNameForm { first_name: " Kim ".into(), last_name: "  ".into() });
    assert_eq!(f.as_deref(), Some("Kim"));
    assert_eq!(l, None);
}

#[test]
fn two_factor_setup() {
    let secret = "JBSWY3DPEHPK3PXPJBSWY3DPEHPK3PXP";
    let totp = totp_rs::TOTP::new(
        totp_rs::Algorithm::SHA1,
        6,
        1,
        30,
        totp_rs::Secret::Encoded(secret.to_string()).to_bytes().unwrap(),
        Some("Board Game Tracker".to_string()),
        "kim".to_string(),
    )
    .unwrap();
    let t = 1_704_067_200;
    let code = totp.generate(t);
    assert_eq!(confirm_setup(None, "kim", &Setup2faForm { code: code.clone() }, t), SetupOutcome::NoSecret);
    assert_eq!(confirm_setup(Some(secret), "kim", &Setup2faForm { code: code.clone() }, t), SetupOutcome::Enabled);
    assert_eq!(confirm_setup(Some(secret), "kim", &Setup2faForm { code: code.clone() }, t + 30), SetupOutcome::Enabled);
    assert_eq!(confirm_setup(Some(secret), "kim", &Setup2faForm { code: code.clone() }, t + 300), SetupOutcome::WrongCode);
    assert_eq!(confirm_setup(Some(secret), "k:m", &Setup2faForm { code: code.clone() }, t), SetupOutcome::BadSecret);
    assert_eq!(confirm_setup(Some("not base32!"), "kim", &Setup2faForm { code }, t), SetupOutcome::BadSecret);
}

#[test]
fn export_details() {
    assert_eq!(export_player_name(None, "Guest".into()).as_deref(), Some("Guest"));
    assert_eq!(export_player_name(Some(3), "kim".into()), None);
    assert_eq!(export_photo_path(4, "data/photos/4/1_0.jpg"), "photos/4/1_0.jpg");
    assert_eq!(export_file_name("kim"), "kim-export.zip");
    assert_eq!(attachment_disposition("kim-export.zip"), "attachment; filename=\"kim-export.zip\"");
    assert_eq!(export_failed_message("disk full"), "Export failed: disk full");
}

#[test]
fn the_setup_page_shows_a_qr_code() {
    let qr = setup_qr_code("JBSWY3DPEHPK3PXPJBSWY3DPEHPK3PXP", "kim").unwrap();
    assert!(qr.starts_with("iVBORw0KGgo"));
    assert_eq!(setup_qr_code("JBSWY3DPEHPK3PXPJBSWY3DPEHPK3PXP", "k:im"), None);
    assert_eq!(setup_qr_code("not base32!", "kim"), None);
}
