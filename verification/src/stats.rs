//! Play statistics: win rates, the monthly activity chart and head-to-head
//! tallies between two players.

use vstd::prelude::*;
use chrono::{Datelike, NaiveDate};

use crate::text::{
    chars_of, push_all, push_str, spec_digits, string_of, decimal_u128,
};

verus! {

/// SQL condition on a `play_players` row aliased `pp`: the row counts in
/// statistics (an approved link or a guest). It is
/// `LinkStatus::spec_counts_toward_stats` written in SQL.
pub const COUNTS_TOWARD_STATS: &'static str = "(pp.link_status = 'approved' OR pp.link_status = 'none')";

/// The two players picked on the head-to-head page.
pub struct HeadToHeadQuery {
    pub player_a: Option<i64>,
    pub player_b: Option<i64>,
}

/// Wins as a whole percentage of plays, rounded down; 0 without plays.
pub open spec fn spec_win_rate_pct(wins: int, plays: int) -> int {
    if plays > 0 {
        (wins * 100) / plays
    } else {
        0
    }
}

/// The win rate of a player with `wins` wins in `plays` plays.
pub fn win_rate_pct(wins: i64, plays: i64) -> (r: i64)
    requires
        0 <= wins,
        0 <= plays,
        wins * 100 <= i64::MAX,
    ensures
        r == spec_win_rate_pct(wins as int, plays as int),
{
    if plays > 0 {
        (wins * 100) / plays
    } else {
        0
    }
}

/// A win rate never goes above 100% while wins do not outnumber plays.
pub proof fn law_win_rate_at_most_100(wins: int, plays: int)
    requires
        0 <= wins <= plays,
    ensures
        0 <= spec_win_rate_pct(wins, plays) <= 100,
{
    if plays > 0 {
        assert(wins * 100 <= plays * 100) by (nonlinear_arith)
            requires
                wins <= plays,
        ;
        assert((wins * 100) / plays <= 100) by (nonlinear_arith)
            requires
                wins * 100 <= plays * 100,
                plays > 0,
        ;
        assert((wins * 100) / plays >= 0) by (nonlinear_arith)
            requires
                wins >= 0,
                plays > 0,
        ;
    }
}

// ---------------------------------------------------------------------------
// Head to head
// ---------------------------------------------------------------------------
/// Wins of the first player, wins of the second, and ties, over the shared
/// plays `m` (each the two winner flags): both or neither winning is a tie.
pub open spec fn spec_tally(m: Seq<(bool, bool)>) -> (int, int, int)
    decreases m.len(),
{
    if m.len() == 0 {
        (0, 0, 0)
    } else {
        let (a, b, t) = spec_tally(m.drop_last());
        match m.last() {
            (true, false) => (a + 1, b, t),
            (false, true) => (a, b + 1, t),
            _ => (a, b, t + 1),
        }
    }
}

/// Counts wins and ties between two players over their shared plays.
pub fn tally(matchups: &Vec<(bool, bool)>) -> (r: (i64, i64, i64))
    requires
        matchups.len() <= i64::MAX,
    ensures
        (r.0 as int, r.1 as int, r.2 as int) == spec_tally(matchups@),
{
    let mut a: i64 = 0;
    let mut b: i64 = 0;
    let mut t: i64 = 0;
    let mut i: usize = 0;
    while i < matchups.len()
        invariant
            i <= matchups.len() <= i64::MAX,
            (a as int, b as int, t as int) == spec_tally(matchups@.take(i as int)),
            a + b + t == i,
            0 <= a && 0 <= b && 0 <= t,
        decreases matchups.len() - i,
    {
        assert(matchups@.take(i + 1).drop_last() =~= matchups@.take(i as int));
        match matchups[i] {
            (true, false) => a = a + 1,
            (false, true) => b = b + 1,
            _ => t = t + 1,
        }
        i = i + 1;
    }
    assert(matchups@.take(matchups.len() as int) =~= matchups@);
    (a, b, t)
}

/// Every shared play is exactly one of: a win for the first, a win for the
/// second, a tie.
pub proof fn law_tally_counts_every_play(m: Seq<(bool, bool)>)
    ensures
        spec_tally(m).0 + spec_tally(m).1 + spec_tally(m).2 == m.len(),
        spec_tally(m).0 >= 0 && spec_tally(m).1 >= 0 && spec_tally(m).2 >= 0,
    decreases m.len(),
{
    if m.len() > 0 {
        law_tally_counts_every_play(m.drop_last());
    }
}

pub open spec fn swap_sides(m: Seq<(bool, bool)>) -> Seq<(bool, bool)> {
    m.map_values(|p: (bool, bool)| (p.1, p.0))
}

/// Picking the two players the other way round swaps their wins and keeps
/// the ties.
pub proof fn law_tally_symmetric(m: Seq<(bool, bool)>)
    ensures
        spec_tally(swap_sides(m)) == (spec_tally(m).1, spec_tally(m).0, spec_tally(m).2),
    decreases m.len(),
{
    if m.len() > 0 {
        assert(swap_sides(m).drop_last() =~= swap_sides(m.drop_last()));
        law_tally_symmetric(m.drop_last());
    }
}

/// Whether the head-to-head page compares anyone: two players, and not the
/// same one twice.
pub fn compares_two_players(q: &HeadToHeadQuery) -> (r: Option<(i64, i64)>)
    ensures
        r == match (q.player_a, q.player_b) {
            (Some(a), Some(b)) => if a != b {
                Some((a, b))
            } else {
                None
            },
            _ => None,
        },
{
    match (q.player_a, q.player_b) {
        (Some(a), Some(b)) => if a != b {
            Some((a, b))
        } else {
            None
        },
        _ => None,
    }
}

pub open spec fn spec_player_name(players: Seq<(i64, Seq<char>)>, id: i64) -> Seq<char>
    decreases players.len(),
{
    if players.len() == 0 {
        seq![]
    } else if players[0].0 == id {
        players[0].1
    } else {
        spec_player_name(players.drop_first(), id)
    }
}

/// The name of the first player listed with `id`, empty if there is none.
pub fn player_name(players: &Vec<(i64, String)>, id: i64) -> (r: String)
    ensures
        r@ == spec_player_name(players@.map_values(|p: (i64, String)| (p.0, p.1@)), id),
{
    let ghost pv = players@.map_values(|p: (i64, String)| (p.0, p.1@));
    let mut i: usize = 0;
    assert(pv.subrange(0, pv.len() as int) =~= pv);
    while i < players.len()
        invariant
            i <= players.len(),
            pv == players@.map_values(|p: (i64, String)| (p.0, p.1@)),
            spec_player_name(pv, id) == spec_player_name(pv.subrange(i as int, pv.len() as int), id),
        decreases players.len() - i,
    {
        assert(pv.subrange(i as int, pv.len() as int)[0] == pv[i as int]);
        if players[i].0 == id {
            return players[i].1.clone();
        }
        assert(pv.subrange(i as int, pv.len() as int).drop_first() =~= pv.subrange(
            i + 1,
            pv.len() as int,
        ));
        i = i + 1;
    }
    String::new()
}

pub open spec fn players_view(players: Seq<(i64, String)>) -> Seq<(i64, Seq<char>)> {
    players.map_values(|p: (i64, String)| (p.0, p.1@))
}

/// The head-to-head comparison as the page shows it.
pub struct HeadToHead {
    pub name_a: String,
    pub name_b: String,
    pub wins_a: i64,
    pub wins_b: i64,
    pub ties: i64,
}

/// The comparison of players `a` and `b` (both chosen and different) over
/// their shared plays `m`: the two names, the wins of each and the ties.
pub open spec fn spec_head_to_head(
    a: Option<i64>,
    b: Option<i64>,
    players: Seq<(i64, Seq<char>)>,
    m: Seq<(bool, bool)>,
) -> Option<(Seq<char>, Seq<char>, int, int, int)> {
    match (a, b) {
        (Some(x), Some(y)) => if x != y {
            let t = spec_tally(m);
            Some((spec_player_name(players, x), spec_player_name(players, y), t.0, t.1, t.2))
        } else {
            None
        },
        _ => None,
    }
}

/// The head-to-head comparison for the query `q`, given the players list and
/// the winner flags of the two players' shared plays (first player's flag
/// first); `None` when the query does not name two different players.
pub fn head_to_head_summary(q: &HeadToHeadQuery, players: &Vec<(i64, String)>, matchups: &Vec<(bool, bool)>) -> (r:
    Option<HeadToHead>)
    requires
        matchups.len() <= i64::MAX,
    ensures
        match r {
            Some(h) => spec_head_to_head(q.player_a, q.player_b, players_view(players@), matchups@) == Some(
                (h.name_a@, h.name_b@, h.wins_a as int, h.wins_b as int, h.ties as int),
            ),
            None => spec_head_to_head(q.player_a, q.player_b, players_view(players@), matchups@) is None,
        },
{
    match compares_two_players(q) {
        Some((a, b)) => {
            let name_a = player_name(players, a);
            let name_b = player_name(players, b);
            let (wins_a, wins_b, ties) = tally(matchups);
            Some(HeadToHead { name_a, name_b, wins_a, wins_b, ties })
        },
        None => None,
    }
}

/// Asking for the two players the other way round, over the same shared
/// plays (so each play's two winner flags come swapped), swaps the names and
/// the wins and keeps the ties.
pub proof fn law_head_to_head_swap(
    a: Option<i64>,
    b: Option<i64>,
    players: Seq<(i64, Seq<char>)>,
    m: Seq<(bool, bool)>,
)
    ensures
        spec_head_to_head(b, a, players, swap_sides(m)) == match spec_head_to_head(a, b, players, m) {
            Some((na, nb, wa, wb, t)) => Some((nb, na, wb, wa, t)),
            None => None,
        },
{
    law_tally_symmetric(m);
}

// ---------------------------------------------------------------------------
// Months
// ---------------------------------------------------------------------------
/// A month of the activity chart as counted: its `YYYY-MM` text, plays and
/// wins.
pub struct MonthRow {
    pub month: String,
    pub play_count: i64,
    pub win_count: i64,
}

/// A month as the chart shows it.
pub struct MonthEntry {
    pub label: String,
    pub play_count: i64,
    pub win_count: i64,
    pub bar_pct: i64,
}

/// The most plays in any month, and at least 1.
pub open spec fn spec_max_plays(counts: Seq<i64>) -> int
    decreases counts.len(),
{
    if counts.len() == 0 {
        1
    } else {
        let m = spec_max_plays(counts.drop_last());
        if counts.last() > m {
            counts.last() as int
        } else {
            m
        }
    }
}

proof fn lemma_max_plays(counts: Seq<i64>)
    ensures
        spec_max_plays(counts) >= 1,
        forall|i: int| 0 <= i < counts.len() ==> counts[i] <= spec_max_plays(counts),
        spec_max_plays(counts) == 1 || exists|i: int|
            0 <= i < counts.len() && counts[i] == spec_max_plays(counts),
    decreases counts.len(),
{
    if counts.len() > 0 {
        let d = counts.drop_last();
        lemma_max_plays(d);
        assert forall|i: int| 0 <= i < counts.len() implies counts[i] <= spec_max_plays(counts) by {
            if i < d.len() {
                assert(counts[i] == d[i]);
            }
        }
        if spec_max_plays(d) != 1 && spec_max_plays(counts) == spec_max_plays(d) {
            let j = choose|j: int| 0 <= j < d.len() && d[j] == spec_max_plays(d);
            assert(counts[j] == d[j]);
        }
        if counts.last() > spec_max_plays(d) {
            assert(counts[counts.len() - 1] == spec_max_plays(counts));
        }
    }
}

/// The length of a month's bar, in percent of the busiest month.
pub open spec fn spec_bar_pct(plays: int, max_plays: int) -> int {
    (plays * 100) / max_plays
}

/// Bars never run past the chart: no month's bar is longer than 100%, and
/// the busiest month's bar is exactly 100% (when it has plays).
pub proof fn law_bars_fit_chart(counts: Seq<i64>, i: int)
    requires
        0 <= i < counts.len(),
        forall|j: int| 0 <= j < counts.len() ==> counts[j] >= 0,
    ensures
        0 <= spec_bar_pct(counts[i] as int, spec_max_plays(counts)) <= 100,
        counts[i] == spec_max_plays(counts) ==> spec_bar_pct(counts[i] as int, spec_max_plays(counts))
            == 100,
{
    lemma_max_plays(counts);
    let m = spec_max_plays(counts);
    let c = counts[i] as int;
    assert(c * 100 <= m * 100) by (nonlinear_arith)
        requires
            c <= m,
    ;
    assert((c * 100) / m <= 100) by (nonlinear_arith)
        requires
            c * 100 <= m * 100,
            m > 0,
    ;
    assert((c * 100) / m >= 0) by (nonlinear_arith)
        requires
            c >= 0,
            m > 0,
    ;
    if c == m {
        assert((m * 100) / m == 100) by (nonlinear_arith)
            requires
                m > 0,
        ;
    }
}

/// The year and month of the date `text`, if `chrono` reads it with the
/// format `%Y-%m-%d`.
pub uninterp spec fn ymd_date_of(text: Seq<char>) -> Option<(i32, u32)>;

/// `chrono::NaiveDate::parse_from_str(text, "%Y-%m-%d")`, read back as
/// `year()` and `month()`. Claims: the answer is `ymd_date_of(text)`; what
/// the parser accepts is named, not spelled out. The month it gives is 1 to
/// 12, as `NaiveDate::month` documents.
#[verifier::external_body]
fn parse_ymd_date(text: &str) -> (r: Option<(i32, u32)>)
    ensures
        r == ymd_date_of(text@),
        r matches Some((_, m)) ==> 1 <= m <= 12,
{
    match NaiveDate::parse_from_str(text, "%Y-%m-%d") {
        Ok(d) => Some((d.year(), d.month())),
        Err(_) => None,
    }
}

/// The first day of a `YYYY-MM` month, written as a date: `"{month}-01"`.
pub open spec fn month_start_text(month_text: Seq<char>) -> Seq<char> {
    month_text + "-01"@
}

/// The year and month of a `YYYY-MM` month's first day, if `chrono` reads it.
pub open spec fn month_start_of(month_text: Seq<char>) -> Option<(i32, u32)> {
    ymd_date_of(month_start_text(month_text))
}

fn parse_month_start(month_text: &str) -> (r: Option<(i32, u32)>)
    ensures
        r == month_start_of(month_text@),
        r matches Some((_, m)) ==> 1 <= m <= 12,
{
    let mut t: Vec<char> = Vec::new();
    push_str(&mut t, month_text);
    push_str(&mut t, "-01");
    let day = string_of(&t);
    parse_ymd_date(day.as_str())
}

/// The English three-letter name of month `m` (1 to 12), as `%b` writes it.
pub open spec fn short_month(m: u32) -> Seq<char> {
    if m == 1 {
        "Jan"@
    } else if m == 2 {
        "Feb"@
    } else if m == 3 {
        "Mar"@
    } else if m == 4 {
        "Apr"@
    } else if m == 5 {
        "May"@
    } else if m == 6 {
        "Jun"@
    } else if m == 7 {
        "Jul"@
    } else if m == 8 {
        "Aug"@
    } else if m == 9 {
        "Sep"@
    } else if m == 10 {
        "Oct"@
    } else if m == 11 {
        "Nov"@
    } else {
        "Dec"@
    }
}

/// `s` with zeros in front up to `width` characters.
pub open spec fn zero_pad(s: Seq<char>, width: nat) -> Seq<char>
    decreases width - s.len(),
{
    if s.len() >= width {
        s
    } else {
        zero_pad(seq!['0'] + s, width)
    }
}

/// A year as `%Y` writes it: four digits with leading zeros for years 0 to
/// 9999, and otherwise a sign and at least four digits.
pub open spec fn year_text(y: int) -> Seq<char> {
    if 0 <= y <= 9999 {
        zero_pad(spec_digits(y as nat), 4)
    } else if y > 9999 {
        seq!['+'] + zero_pad(spec_digits(y as nat), 4)
    } else {
        seq!['-'] + zero_pad(spec_digits((-y) as nat), 4)
    }
}

/// The chart label of a month: `%b %Y` of its first day if `chrono` reads
/// it, and the month text itself otherwise.
pub open spec fn spec_month_label(month_text: Seq<char>) -> Seq<char> {
    match month_start_of(month_text) {
        Some((y, m)) => short_month(m) + " "@ + year_text(y as int),
        None => month_text,
    }
}

/// The English three-letter month abbreviations, January first.
pub open spec fn month_abbreviations() -> Seq<Seq<char>> {
    seq![
        seq!['J', 'a', 'n'], seq!['F', 'e', 'b'], seq!['M', 'a', 'r'], seq!['A', 'p', 'r'],
        seq!['M', 'a', 'y'], seq!['J', 'u', 'n'], seq!['J', 'u', 'l'], seq!['A', 'u', 'g'],
        seq!['S', 'e', 'p'], seq!['O', 'c', 't'], seq!['N', 'o', 'v'], seq!['D', 'e', 'c'],
    ]
}

proof fn lemma_short_month(m: u32)
    requires
        1 <= m <= 12,
    ensures
        short_month(m) == month_abbreviations()[m - 1],
{
    reveal_strlit("Jan");
    reveal_strlit("Feb");
    reveal_strlit("Mar");
    reveal_strlit("Apr");
    reveal_strlit("May");
    reveal_strlit("Jun");
    reveal_strlit("Jul");
    reveal_strlit("Aug");
    reveal_strlit("Sep");
    reveal_strlit("Oct");
    reveal_strlit("Nov");
    reveal_strlit("Dec");
    assert(short_month(m) =~= month_abbreviations()[m - 1]);
}

/// A chart label names its own month: for a month `chrono` reads, the label
/// is the English abbreviation of that month, a space, then the year.
pub proof fn law_month_label_names_its_month(month_text: Seq<char>, y: i32, m: u32)
    requires
        month_start_of(month_text) == Some((y, m)),
        1 <= m <= 12,
    ensures
        spec_month_label(month_text).len() > 4,
        spec_month_label(month_text).take(3) == month_abbreviations()[m - 1],
        spec_month_label(month_text)[3] == ' ',
        1000 <= y <= 9999 ==> spec_month_label(month_text) == month_abbreviations()[m - 1] + " "@
            + crate::text::spec_digits(y as nat),
{
    lemma_short_month(m);
    if 1000 <= y <= 9999 {
        let n = y as nat;
        assert(crate::text::spec_digits(n).len() == 4) by {
            assert(n / 10 >= 100 && n / 100 >= 10 && n / 1000 >= 1 && n / 1000 < 10);
            assert((n / 10) / 10 == n / 100);
            assert((n / 100) / 10 == n / 1000);
            assert(crate::text::spec_digits(n / 1000).len() == 1);
            assert(crate::text::spec_digits(n / 100).len() == 2);
            assert(crate::text::spec_digits(n / 10).len() == 3);
        }
        assert(zero_pad(crate::text::spec_digits(n), 4) == crate::text::spec_digits(n));
    }
    reveal_strlit(" ");
    let l = spec_month_label(month_text);
    assert(l == month_abbreviations()[m - 1] + " "@ + year_text(y as int));
    assert(year_text(y as int).len() > 0) by {
        lemma_year_text_nonempty(y as int);
    }
    assert(l.take(3) =~= month_abbreviations()[m - 1]);
}

proof fn lemma_zero_pad_len(s: Seq<char>, width: nat)
    ensures
        zero_pad(s, width).len() >= s.len(),
        zero_pad(s, width).len() >= width,
    decreases width - s.len(),
{
    if s.len() < width {
        lemma_zero_pad_len(seq!['0'] + s, width);
    }
}

proof fn lemma_year_text_nonempty(y: int)
    ensures
        year_text(y).len() > 0,
{
    if 0 <= y <= 9999 {
        lemma_zero_pad_len(spec_digits(y as nat), 4);
    } else if y > 9999 {
    } else {
    }
}

/// Months of the chart never share a label: two different months (both
/// read by `chrono`) are labelled differently, in the same year or not.
pub proof fn law_month_labels_differ(a: Seq<char>, b: Seq<char>, ya: i32, ma: u32, yb: i32, mb: u32)
    requires
        month_start_of(a) == Some((ya, ma)),
        month_start_of(b) == Some((yb, mb)),
        1 <= ma <= 12,
        1 <= mb <= 12,
        ma != mb,
    ensures
        spec_month_label(a) != spec_month_label(b),
{
    law_month_label_names_its_month(a, ya, ma);
    law_month_label_names_its_month(b, yb, mb);
    let na = month_abbreviations()[ma - 1];
    let nb = month_abbreviations()[mb - 1];
    assert(na != nb) by {
        assert(na.len() == 3 && nb.len() == 3);
        assert(na[0] != nb[0] || na[1] != nb[1] || na[2] != nb[2]);
    }
}

fn pad_zeros(s: Vec<char>, width: usize) -> (r: Vec<char>)
    ensures
        r@ == zero_pad(s@, width as nat),
    decreases width - s.len(),
{
    if s.len() >= width {
        s
    } else {
        let mut t: Vec<char> = Vec::new();
        t.push('0');
        push_all(&mut t, &s);
        assert(t@ =~= seq!['0'] + s@);
        pad_zeros(t, width)
    }
}

fn short_month_exec(m: u32) -> (r: &'static str)
    ensures
        r@ == short_month(m),
{
    if m == 1 {
        "Jan"
    } else if m == 2 {
        "Feb"
    } else if m == 3 {
        "Mar"
    } else if m == 4 {
        "Apr"
    } else if m == 5 {
        "May"
    } else if m == 6 {
        "Jun"
    } else if m == 7 {
        "Jul"
    } else if m == 8 {
        "Aug"
    } else if m == 9 {
        "Sep"
    } else if m == 10 {
        "Oct"
    } else if m == 11 {
        "Nov"
    } else {
        "Dec"
    }
}

/// The label the chart shows for a `YYYY-MM` month, such as `Mar 2024`.
pub fn month_label(month_text: &str) -> (r: String)
    ensures
        r@ == spec_month_label(month_text@),
{
    match parse_month_start(month_text) {
        Some((y, m)) => {
            let mut out: Vec<char> = Vec::new();
            push_str(&mut out, short_month_exec(m));
            push_str(&mut out, " ");
            if 0 <= y && y <= 9999 {
                let d = pad_zeros(decimal_u128(y as u128), 4);
                push_all(&mut out, &d);
            } else if y > 9999 {
                out.push('+');
                let d = pad_zeros(decimal_u128(y as u128), 4);
                push_all(&mut out, &d);
            } else {
                out.push('-');
                let d = pad_zeros(decimal_u128((-(y as i64)) as u128), 4);
                push_all(&mut out, &d);
            }
            string_of(&out)
        },
        None => month_text.to_string(),
    }
}

pub open spec fn month_counts(rows: Seq<MonthRow>) -> Seq<i64> {
    rows.map_values(|r: MonthRow| r.play_count)
}

/// The chart for the months `rows_newest_first` (newest first, as counted):
/// oldest first, each with its label and its bar in percent of the busiest
/// month.
pub fn month_entries(rows_newest_first: Vec<MonthRow>) -> (r: Vec<MonthEntry>)
    requires
        forall|i: int|
            0 <= i < rows_newest_first.len() ==> 0 <= #[trigger] rows_newest_first@[i].play_count
                <= i64::MAX / 100,
    ensures
        r.len() == rows_newest_first.len(),
        forall|i: int|
            0 <= i < r.len() ==> {
                let row = rows_newest_first@[rows_newest_first.len() - 1 - i];
                &&& #[trigger] r@[i].label@ == spec_month_label(row.month@)
                &&& r@[i].play_count == row.play_count
                &&& r@[i].win_count == row.win_count
                &&& r@[i].bar_pct == spec_bar_pct(
                    row.play_count as int,
                    spec_max_plays(month_counts(rows_newest_first@)),
                )
            },
{
    let n = rows_newest_first.len();
    let ghost counts = month_counts(rows_newest_first@);
    let mut max_plays: i64 = 1;
    let mut i: usize = 0;
    while i < n
        invariant
            i <= n == rows_newest_first.len(),
            counts == month_counts(rows_newest_first@),
            max_plays == spec_max_plays(counts.take(i as int)),
        decreases n - i,
    {
        assert(counts.take(i + 1).drop_last() =~= counts.take(i as int));
        if rows_newest_first[i].play_count > max_plays {
            max_plays = rows_newest_first[i].play_count;
        }
        i = i + 1;
    }
    assert(counts.take(n as int) =~= counts);
    proof {
        lemma_max_plays(counts);
    }
    let mut out: Vec<MonthEntry> = Vec::new();
    let mut k: usize = 0;
    while k < n
        invariant
            k <= n == rows_newest_first.len(),
            counts == month_counts(rows_newest_first@),
            max_plays == spec_max_plays(counts),
            max_plays >= 1,
            forall|j: int|
                0 <= j < n ==> 0 <= #[trigger] rows_newest_first@[j].play_count <= i64::MAX / 100,
            out.len() == k,
            forall|i: int|
                0 <= i < k ==> {
                    let row = rows_newest_first@[n - 1 - i];
                    &&& #[trigger] out@[i].label@ == spec_month_label(row.month@)
                    &&& out@[i].play_count == row.play_count
                    &&& out@[i].win_count == row.win_count
                    &&& out@[i].bar_pct == spec_bar_pct(row.play_count as int, max_plays as int)
                },
        decreases n - k,
    {
        let row = &rows_newest_first[n - 1 - k];
        let label = month_label(row.month.as_str());
        let bar_pct = (row.play_count * 100) / max_plays;
        out.push(MonthEntry { label, play_count: row.play_count, win_count: row.win_count, bar_pct });
        k = k + 1;
    }
    out
}

// ---------------------------------------------------------------------------
// Leaderboard
// ---------------------------------------------------------------------------
/// A player on the leaderboard, with their win rate.
pub struct LeaderboardEntry {
    pub player_name: String,
    pub play_count: i64,
    pub win_count: i64,
    pub win_rate_pct: i64,
}

/// A leaderboard row: the counts as given and the win rate computed from
/// them.
pub fn leaderboard_entry(player_name: String, play_count: i64, win_count: i64) -> (r: LeaderboardEntry)
    requires
        0 <= play_count,
        0 <= win_count,
        win_count * 100 <= i64::MAX,
    ensures
        r.player_name@ == player_name@,
        r.play_count == play_count,
        r.win_count == win_count,
        r.win_rate_pct == spec_win_rate_pct(win_count as int, play_count as int),
{
    let win_rate_pct = win_rate_pct(win_count, play_count);
    LeaderboardEntry { player_name, play_count, win_count, win_rate_pct }
}

} // verus!
