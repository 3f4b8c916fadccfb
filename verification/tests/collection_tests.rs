use boardgame_tracker::collection::{
    check_manual_add, is_valid_status, plan_game_upsert, redirect_back, search_message,
    search_plan, status_filter, status_options, CollectionEntry, CollectionQuery, CollectionRow,
    GameUpsert, ManualAddError, ManualAddForm, SearchPlan, NO_RESULTS_MESSAGE, NO_TOKEN_MESSAGE,
    SEARCH_FAILED_MESSAGE,
};

#[test]
fn the_seven_statuses() {
    let opts = status_options();
    assert_eq!(opts[0], ("owned", "Owned"));
    assert_eq!(opts[2], ("preordered", "Pre-ordered"));
    assert_eq!(opts[6], ("want_to_trade", "Want to Trade"));
    for (s, _) in opts {
        assert!(is_valid_status(s));
    }
    assert!(!is_valid_status("Owned"));
    assert_eq!(status_filter(&CollectionQuery { status: Some("wishlist".into()) }).as_deref(), Some("wishlist"));
    assert_eq!(status_filter(&CollectionQuery { status: Some("bogus".into()) }), None);
}

#[test]
fn entries_flag_each_listed_status() {
    let e = CollectionEntry::from_row(CollectionRow {
        id: 3,
        name: "Azul".into(),
        year_published: Some(2017),
        min_players: Some(2),
        max_players: Some(4),
        weight: Some("1.8".into()),
        thumbnail_url: None,
        statuses: "owned,played,want_to_play".into(),
    });
    assert!(e.is_owned && e.is_played && e.is_want_to_play);
    assert!(!e.is_wishlist && !e.is_for_sale && !e.is_preordered && !e.is_want_to_trade);
    assert_eq!(e.weight.as_deref(), Some("1.8"));
    assert_eq!(e.name, "Azul");
}

#[test]
fn searching_needs_text_and_a_token() {
    assert_eq!(search_plan("   ", true), SearchPlan::Idle);
    assert_eq!(search_plan("azul", false), SearchPlan::Unavailable(NO_TOKEN_MESSAGE));
    assert_eq!(search_plan("  azul ", true), SearchPlan::Search("azul".into()));
    assert_eq!(search_message(Some(0)), Some(NO_RESULTS_MESSAGE));
    assert_eq!(search_message(Some(3)), None);
    assert_eq!(search_message(None), Some(SEARCH_FAILED_MESSAGE));
}

#[test]
fn manual_games_are_checked() {
    let form = |n: &str, s: &str, min: &str| ManualAddForm {
        name: n.into(),
        min_players: min.into(),
        max_players: "".into(),
        status: s.into(),
    };
    assert_eq!(check_manual_add(&form("  ", "owned", "")).err(), Some(ManualAddError::EmptyName));
    assert_eq!(check_manual_add(&form("Azul", "stolen", "")).err(), Some(ManualAddError::InvalidStatus));
    let g = check_manual_add(&form(" Azul ", "owned", " 2 ")).ok().unwrap();
    assert_eq!(g.name, "Azul");
    assert_eq!(g.min_players, Some(2));
    assert_eq!(g.max_players, None);
    assert_eq!(ManualAddError::EmptyName.message(), "Game name can't be empty.");
}

#[test]
fn saving_a_bgg_game_prefers_id_then_name() {
    assert_eq!(plan_game_upsert(Some(4), Some((5, None))), GameUpsert::Existing(4));
    assert_eq!(plan_game_upsert(None, Some((5, None))), GameUpsert::SameName { id: 5, fill_in_details: true });
    assert_eq!(plan_game_upsert(None, Some((5, Some(9)))), GameUpsert::SameName { id: 5, fill_in_details: false });
    assert_eq!(plan_game_upsert(None, None), GameUpsert::Insert);
}

#[test]
fn going_back_keeps_only_the_path() {
    assert_eq!(redirect_back(Some("https://games.example/games/4?x=1"), "sam"), "/games/4?x=1");
    assert_eq!(redirect_back(Some("https://games.example"), "sam"), "/collection/sam");
    assert_eq!(redirect_back(Some("/relative"), "sam"), "/collection/sam");
    assert_eq!(redirect_back(None, "sam"), "/collection/sam");
    assert_eq!(redirect_back(Some("https://a.example//evil.example/x"), "sam"), "/collection/sam");
    assert_eq!(redirect_back(Some("https://a.example/\\evil.example/x"), "sam"), "/collection/sam");
    assert_eq!(redirect_back(Some("https://a.example/"), "sam"), "/");
}
