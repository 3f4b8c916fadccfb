use boardgame_tracker::play_form::{
    guest_entries, parse_play_form, plan_row_edit, user_tags, PlayFormError, RowEdit,
};
use boardgame_tracker::plays::{
    answer_request, can_edit, involves_user, tag_status, visible_or_tagged, visible_to,
    LinkStatus, PlayAccess, PlayTag, Visibility,
};

fn fields(pairs: &[(&str, &str)]) -> Vec<(String, String)> {
    pairs.iter().map(|(k, v)| (k.to_string(), v.to_string())).collect()
}

fn play(v: Visibility, tags: Vec<(Option<i64>, LinkStatus)>) -> PlayAccess {
    PlayAccess {
        visibility: v,
        logged_by: 1,
        tags: tags.into_iter().map(|(u, s)| PlayTag { user_id: u, link_status: s }).collect(),
    }
}

#[test]
fn visibility_words_round_trip() {
    for v in [Visibility::Public, Visibility::LinkedOnly, Visibility::Private] {
        assert_eq!(Visibility::parse(v.as_str()), Some(v));
    }
    assert_eq!(Visibility::parse("friends"), None);
    for s in [LinkStatus::Unlinked, LinkStatus::Pending, LinkStatus::Approved, LinkStatus::Declined] {
        assert_eq!(LinkStatus::parse(s.as_str()), Some(s));
    }
    assert_eq!(LinkStatus::Unlinked.as_str(), "none");
    assert!(LinkStatus::Unlinked.counts_toward_stats());
    assert!(!LinkStatus::Pending.counts_toward_stats());
}

#[test]
fn who_sees_a_play() {
    let private = play(Visibility::Private, vec![(Some(2), LinkStatus::Approved)]);
    assert!(visible_to(&private, 1));
    assert!(!visible_to(&private, 2));
    assert!(visible_or_tagged(&private, 2));
    assert!(can_edit(&private, 2));
    let linked = play(Visibility::LinkedOnly, vec![(Some(2), LinkStatus::Approved), (Some(3), LinkStatus::Pending)]);
    assert!(visible_to(&linked, 2));
    assert!(!visible_to(&linked, 3));
    assert!(visible_or_tagged(&linked, 3));
    assert!(!can_edit(&linked, 3));
    assert!(!visible_or_tagged(&linked, 4));
    let public = play(Visibility::Public, vec![(None, LinkStatus::Unlinked)]);
    assert!(visible_to(&public, 99));
    assert!(!can_edit(&public, 99));
    assert!(involves_user(&linked, 2));
    assert!(!involves_user(&linked, 3));
}

#[test]
fn answering_a_request_updates_only_that_user() {
    let mut tags = vec![
        PlayTag { user_id: Some(3), link_status: LinkStatus::Pending },
        PlayTag { user_id: None, link_status: LinkStatus::Unlinked },
    ];
    answer_request(&mut tags, 3, true);
    assert_eq!(tags[0].link_status, LinkStatus::Approved);
    assert_eq!(tags[1].link_status, LinkStatus::Unlinked);
    answer_request(&mut tags, 3, false);
    assert_eq!(tags[0].link_status, LinkStatus::Declined);
    let p = PlayAccess { visibility: Visibility::LinkedOnly, logged_by: 1, tags };
    assert!(!visible_or_tagged(&p, 3));
}

#[test]
fn tagging_yourself_is_approved_at_once() {
    assert_eq!(tag_status(5, 5), LinkStatus::Approved);
    assert_eq!(tag_status(6, 5), LinkStatus::Pending);
}

#[test]
fn play_forms_are_checked_in_order() {
    let f = fields(&[("play_date", "2024-05-01")]);
    assert_eq!(parse_play_form(&f).err(), Some(PlayFormError::NoGame));
    let f = fields(&[("game_id", " 3"), ("play_date", "2024-05-01")]);
    assert_eq!(parse_play_form(&f).err(), Some(PlayFormError::NoGame));
    let f = fields(&[("game_id", "3"), ("play_date", "   ")]);
    assert_eq!(parse_play_form(&f).err(), Some(PlayFormError::NoDate));
    let f = fields(&[("game_id", "3"), ("play_date", "2024-05-01"), ("visibility", "friends")]);
    assert_eq!(parse_play_form(&f).err(), Some(PlayFormError::BadVisibility));
    assert_eq!(PlayFormError::NoDate.create_message(), "Please choose a date.");
    assert_eq!(PlayFormError::BadVisibility.update_message(), "Invalid date or visibility");
    assert_eq!(PlayFormError::NoGame.update_message(), "Invalid game");
}

#[test]
fn a_full_play_form() {
    let f = fields(&[
        ("game_id", "3"),
        ("play_date", "2024-05-01"),
        ("location", "  Kitchen table "),
        ("duration_minutes", " 45 "),
        ("notes", "   "),
    ]);
    let p = parse_play_form(&f).ok().unwrap();
    assert_eq!(p.game_id, 3);
    assert_eq!(p.play_date, "2024-05-01");
    assert_eq!(p.visibility, Visibility::Public);
    assert_eq!(p.location.as_deref(), Some("Kitchen table"));
    assert_eq!(p.duration_minutes, Some(45));
    assert_eq!(p.notes, None);
}

#[test]
fn ticked_users_are_tagged() {
    let f = fields(&[
        ("include_user_1", "on"),
        ("score_user_1", "12.5"),
        ("winner_user_1", "on"),
        ("include_user_2", "on"),
        ("include_user_3", "on"),
    ]);
    let tags = user_tags(&f, &vec![1, 2, 3, 4], &vec![3], 1);
    assert_eq!(tags.len(), 2);
    assert_eq!(tags[0].user_id, 1);
    assert_eq!(tags[0].score.as_deref(), Some("12.5"));
    assert!(tags[0].is_winner);
    assert_eq!(tags[0].link_status, LinkStatus::Approved);
    assert!(!tags[0].needs_request());
    assert_eq!(tags[1].user_id, 2);
    assert_eq!(tags[1].link_status, LinkStatus::Pending);
    assert!(tags[1].needs_request());
}

#[test]
fn guests_come_from_the_four_slots() {
    let f = fields(&[
        ("guest_name_1", " Alex "),
        ("guest_score_1", "7"),
        ("guest_name_2", "  "),
        ("guest_name_4", "Jo"),
        ("guest_winner_4", "on"),
        ("guest_name_5", "Nobody"),
    ]);
    let g = guest_entries(&f);
    assert_eq!(g.len(), 2);
    assert_eq!((g[0].slot, g[0].name.as_str(), g[0].score.as_deref(), g[0].is_winner), (1, "Alex", Some("7"), false));
    assert_eq!((g[1].slot, g[1].name.as_str(), g[1].score.as_deref(), g[1].is_winner), (4, "Jo", None, true));
}

#[test]
fn existing_rows_are_removed_relinked_or_updated() {
    let f = fields(&[
        ("remove_pp_10", "on"),
        ("link_pp_11", "5"),
        ("score_pp_11", "3"),
        ("link_pp_12", "5"),
        ("winner_pp_12", "on"),
    ]);
    assert!(matches!(plan_row_edit(&f, 10, None, 1), RowEdit::Remove));
    match plan_row_edit(&f, 11, None, 1) {
        RowEdit::Relink { target_user_id, link_status, otherwise } => {
            assert_eq!(target_user_id, 5);
            assert_eq!(link_status, LinkStatus::Pending);
            assert_eq!(otherwise.score.as_deref(), Some("3"));
        }
        _ => panic!("expected a relink"),
    }
    match plan_row_edit(&f, 12, Some(9), 1) {
        RowEdit::Update(e) => {
            assert!(e.is_winner);
            assert_eq!(e.score, None);
        }
        _ => panic!("registered players are not relinked"),
    }
}
