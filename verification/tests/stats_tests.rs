use boardgame_tracker::stats::{
    compares_two_players, head_to_head_summary, month_entries, month_label, player_name, tally,
    win_rate_pct, HeadToHeadQuery, MonthRow,
};

#[test]
fn win_rates_round_down() {
    assert_eq!(win_rate_pct(1, 3), 33);
    assert_eq!(win_rate_pct(2, 3), 66);
    assert_eq!(win_rate_pct(5, 5), 100);
    assert_eq!(win_rate_pct(0, 0), 0);
}

#[test]
fn head_to_head_counts_wins_and_ties() {
    let m = vec![(true, false), (false, true), (true, true), (false, false), (true, false)];
    assert_eq!(tally(&m), (2, 1, 2));
    let swapped: Vec<(bool, bool)> = m.iter().map(|(a, b)| (*b, *a)).collect();
    assert_eq!(tally(&swapped), (1, 2, 2));
    assert_eq!(tally(&vec![]), (0, 0, 0));
}

#[test]
fn head_to_head_needs_two_different_players() {
    assert_eq!(compares_two_players(&HeadToHeadQuery { player_a: Some(1), player_b: Some(2) }), Some((1, 2)));
    assert_eq!(compares_two_players(&HeadToHeadQuery { player_a: Some(1), player_b: Some(1) }), None);
    assert_eq!(compares_two_players(&HeadToHeadQuery { player_a: None, player_b: Some(1) }), None);
    let players = vec![(1, "Ann".to_string()), (2, "Bo".to_string())];
    assert_eq!(player_name(&players, 2), "Bo");
    assert_eq!(player_name(&players, 3), "");
}

#[test]
fn month_labels() {
    assert_eq!(month_label("2024-03"), "Mar 2024");
    assert_eq!(month_label("0999-12"), "Dec 0999");
    assert_eq!(month_label("garbage"), "garbage");
}

#[test]
fn month_bars_are_relative_to_the_busiest_month() {
    let rows = vec![
        MonthRow { month: "2024-03".into(), play_count: 4, win_count: 1 },
        MonthRow { month: "2024-02".into(), play_count: 8, win_count: 3 },
        MonthRow { month: "2024-01".into(), play_count: 3, win_count: 0 },
    ];
    let e = month_entries(rows);
    assert_eq!(e.len(), 3);
    assert_eq!(e[0].label, "Jan 2024");
    assert_eq!(e[0].bar_pct, 37);
    assert_eq!(e[1].label, "Feb 2024");
    assert_eq!(e[1].bar_pct, 100);
    assert_eq!(e[1].win_count, 3);
    assert_eq!(e[2].bar_pct, 50);
    let empty = month_entries(vec![MonthRow { month: "2024-05".into(), play_count: 0, win_count: 0 }]);
    assert_eq!(empty[0].bar_pct, 0);
}

#[test]
fn head_to_head_the_other_way_round() {
    let players = vec![(1, "Ann".to_string()), (2, "Bo".to_string())];
    let m = vec![(true, false), (true, false), (false, true), (true, true)];
    let swapped: Vec<(bool, bool)> = m.iter().map(|p| (p.1, p.0)).collect();
    let ab = head_to_head_summary(&HeadToHeadQuery { player_a: Some(1), player_b: Some(2) }, &players, &m).unwrap();
    let ba = head_to_head_summary(&HeadToHeadQuery { player_a: Some(2), player_b: Some(1) }, &players, &swapped)
        .unwrap();
    assert_eq!((ab.name_a.as_str(), ab.name_b.as_str(), ab.wins_a, ab.wins_b, ab.ties), ("Ann", "Bo", 2, 1, 1));
    assert_eq!((ba.name_a.as_str(), ba.name_b.as_str(), ba.wins_a, ba.wins_b, ba.ties), ("Bo", "Ann", 1, 2, 1));
    assert!(head_to_head_summary(&HeadToHeadQuery { player_a: Some(1), player_b: Some(1) }, &players, &m).is_none());
}
