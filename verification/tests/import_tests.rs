use boardgame_tracker::archive::{find_export_json, first_json_entry, pack_export, read_entry};
use boardgame_tracker::import::{
    clean_notes, game_skipped, imported_link_status, imported_photo_path, is_json_entry,
    is_used_player, is_winner_flag, photo_missing, play_date_part, play_failed,
    play_unknown_game, player_target, safe_filename, should_copy_photo, imported_play_visibility,
    ImportSession,
    ImportSummary, PlayerTarget,
};
use boardgame_tracker::plays::{LinkStatus, Visibility};

#[test]
fn catalog_hashtag_lines_are_dropped() {
    assert_eq!(clean_notes(None), None);
    assert_eq!(clean_notes(Some("#BGCatalog")), None);
    assert_eq!(clean_notes(Some("  \n #BGGCatalog \n")), None);
    assert_eq!(
        clean_notes(Some("Great game\r\n#BGCatalog\nclose finish ")).as_deref(),
        Some("Great game\nclose finish")
    );
    assert_eq!(clean_notes(Some("#BGCatalog is fun")).as_deref(), Some("#BGCatalog is fun"));
    assert_eq!(clean_notes(Some("\n\nmiddle\n\n")).as_deref(), Some("middle"));
}

#[test]
fn zip_entry_names_are_cut_to_their_last_part() {
    assert_eq!(safe_filename("images/2024/a.jpg"), "a.jpg");
    assert_eq!(safe_filename("..\\..\\evil.jpg"), "evil.jpg");
    assert_eq!(safe_filename("dir/"), "photo.jpg");
    assert_eq!(safe_filename(""), "photo.jpg");
    assert_eq!(safe_filename("a/.."), "photo.jpg");
    assert_eq!(safe_filename("x/."), "photo.jpg");
    assert_eq!(safe_filename(".."), "photo.jpg");
    assert_eq!(safe_filename("a/..b"), "..b");
    assert_eq!(imported_photo_path(9, "x/../y.png"), "data/photos/9/y.png");
}

#[test]
fn players_map_to_the_admin_or_to_guests() {
    assert_eq!(player_target(4, "Me", 1, true, Some(77)), PlayerTarget::Admin(77));
    assert_eq!(player_target(4, " Me ", 1, true, None), PlayerTarget::Guest("Me".to_string()));
    assert_eq!(player_target(5, "  ", 0, true, Some(77)), PlayerTarget::Guest("Imported player 5".to_string()));
    assert_eq!(player_target(6, "Kim", 0, false, Some(77)), PlayerTarget::Skip);
    assert!(is_used_player(&vec![1, 6, 9], 6));
    assert!(!is_used_player(&vec![1, 9], 6));
}

#[test]
fn imported_play_fields() {
    assert_eq!(play_date_part("2023-04-05 18:30:00"), "2023-04-05");
    assert_eq!(play_date_part("2023-04-05"), "2023-04-05");
    assert_eq!(imported_link_status(77, Some(77)), LinkStatus::Approved);
    assert_eq!(imported_link_status(78, Some(77)), LinkStatus::Unlinked);
    assert_eq!(imported_link_status(78, None), LinkStatus::Unlinked);
    assert!(is_winner_flag(Some(1)));
    assert!(!is_winner_flag(Some(0)));
    assert!(!is_winner_flag(None));
    assert!(should_copy_photo("play", true, 4));
    assert!(!should_copy_photo("play", true, 5));
    assert!(!should_copy_photo("game", true, 0));
    assert!(!should_copy_photo("play", false, 0));
}

#[test]
fn import_notes() {
    assert_eq!(game_skipped("Azul"), "Game \"Azul\" couldn't be saved");
    assert_eq!(play_unknown_game(12), "Play 12 references an unknown game");
    assert_eq!(play_failed(-3, "boom"), "Play -3 failed: boom");
    assert_eq!(photo_missing("img/1.jpg"), "Photo img/1.jpg not found in zip");
    let s = ImportSummary::default();
    assert_eq!(s.games_created + s.plays_imported + s.photos_copied, 0);
    assert!(s.skipped.is_empty());
}

#[test]
fn the_export_json_is_found_in_an_archive() {
    assert!(is_json_entry("BGCatalog.JSON"));
    assert!(!is_json_entry("photo.jpg"));
    let zip = pack_export(b"{}".to_vec(), vec![("photos/1/a.jpg".to_string(), vec![1, 2, 3])]).unwrap();
    assert_eq!(find_export_json(&zip).unwrap(), "export.json");
    assert_eq!(read_entry(&zip, "export.json").unwrap(), b"{}".to_vec());
    assert_eq!(read_entry(&zip, "photos/1/a.jpg").unwrap(), vec![1, 2, 3]);
    let missing = read_entry(&zip, "nope.jpg").unwrap_err();
    assert!(missing.starts_with("Failed to read nope.jpg: "));
}

#[test]
fn archives_without_json_or_not_zip_are_refused() {
    let zip = pack_export(b"x".to_vec(), vec![]).unwrap();
    assert_eq!(find_export_json(&zip).unwrap(), "export.json");
    let not_zip = find_export_json(&b"plain text".to_vec()).unwrap_err();
    assert!(not_zip.starts_with("Not a valid zip file: "));
}

#[test]
fn import_session_maps_and_tallies() {
    let mut s = ImportSession::new(Some(7));
    assert_eq!(s.summary.games_created, 0);
    assert!(s.summary.skipped.is_empty());

    s.game_saved(1, 101, true);
    s.game_saved(2, 102, false);
    s.game_failed("Lost Cities");
    assert_eq!(s.summary.games_created, 1);
    assert_eq!(s.summary.games_matched, 1);
    assert_eq!(s.summary.skipped, vec!["Game \"Lost Cities\" couldn't be saved".to_string()]);

    s.location_saved(5, 55);
    assert_eq!(s.summary.locations_imported, 1);
    assert_eq!(s.play_target(1, Some(5)), Some((101, Some(55))));
    assert_eq!(s.play_target(2, Some(6)), Some((102, None)));
    assert_eq!(s.play_target(2, None), Some((102, None)));
    assert_eq!(s.play_target(3, Some(5)), None);

    s.player_mapped(10, 7, false);
    s.player_mapped(11, 70, true);
    assert_eq!(s.summary.guest_players_created, 1);

    s.play_unknown_game(40);
    s.play_saved(41, 401, 101);
    s.play_saved(42, 402, 101);
    s.play_not_saved(43, "disk full");
    assert_eq!(s.summary.plays_imported, 2);
    assert_eq!(s.played_games.len(), 1);
    assert_eq!(s.summary.skipped[1], "Play 40 references an unknown game");
    assert_eq!(s.summary.skipped[2], "Play 43 failed: disk full");

    s.collection_added(0);
    assert_eq!(s.summary.games_added_to_collection, 0);
    s.collection_added(1);
    assert_eq!(s.summary.games_added_to_collection, 1);

    assert_eq!(s.record_target(41, 10), Some((401, 7, LinkStatus::Approved)));
    assert_eq!(s.record_target(42, 11), Some((402, 70, LinkStatus::Unlinked)));
    assert_eq!(s.record_target(43, 10), None);
    assert_eq!(s.record_target(41, 12), None);
    s.record_saved();
    assert_eq!(s.summary.player_play_records, 1);

    assert_eq!(s.photo_play(42), Some(402));
    assert_eq!(s.photo_play(40), None);
    s.photo_missing("a.jpg");
    s.photo_copied();
    assert_eq!(s.summary.photos_copied, 1);
    assert_eq!(s.summary.skipped.len(), 4);
    assert_eq!(s.summary.skipped[3], "Photo a.jpg not found in zip");
}

#[test]
fn the_first_json_entry_is_the_export() {
    let names = vec!["photos/a.jpg".to_string(), "Data.JSON".to_string(), "b.json".to_string()];
    assert_eq!(first_json_entry(&names).as_deref(), Some("Data.JSON"));
    assert_eq!(first_json_entry(&vec!["a.jpg".to_string()]), None);
    assert_eq!(first_json_entry(&vec![]), None);
}

#[test]
fn imported_plays_are_private() {
    assert_eq!(imported_play_visibility(), Visibility::Private);
    assert_eq!(imported_play_visibility().as_str(), "private");
}
