//! The automatic update-check schedule: the settings file it is stored in,
//! the form that changes it, and when a check is due.

use vstd::prelude::*;
use chrono::DateTime;

use crate::text::{
    chars_of, lines, lines_scan, push_str, spec_lines, spec_parse_i64, spec_split_once, spec_trim,
    split_once, string_of, strip_cr, trim, chars_eq_str, parse_i64, lemma_split_once_at,
};

verus! {

/// The check intervals, in hours, that the schedule form offers.
pub open spec fn valid_intervals() -> Seq<Seq<char>> {
    seq!["1"@, "6"@, "12"@, "24"@]
}

/// How often to look for a new release and whether to install it on its own.
pub struct AppUpdateScheduleConfig {
    pub check_interval_hours: String,
    pub auto_install_enabled: bool,
}

/// The form that saves the schedule.
pub struct AppUpdateScheduleForm {
    pub check_interval_hours: String,
    pub auto_install_enabled: Option<String>,
}

pub open spec fn bool_text(b: bool) -> Seq<char> {
    if b {
        "true"@
    } else {
        "false"@
    }
}

/// A schedule as plain values: the interval text and the auto-install flag.
pub open spec fn schedule_view(c: AppUpdateScheduleConfig) -> (Seq<char>, bool) {
    (c.check_interval_hours@, c.auto_install_enabled)
}

pub open spec fn default_schedule() -> (Seq<char>, bool) {
    ("24"@, false)
}

/// The settings file written for a schedule.
pub open spec fn spec_file_contents(s: (Seq<char>, bool)) -> Seq<char> {
    "CHECK_INTERVAL_HOURS="@ + s.0 + "\nAUTO_INSTALL_ENABLED="@ + bool_text(s.1) + "\n"@
}

/// What one line of the settings file does to the schedule read so far: a
/// `KEY=value` line with a known key (both trimmed) sets that setting, any
/// other line is ignored. Auto-install is on only for the value `true`.
pub open spec fn apply_line(s: (Seq<char>, bool), line: Seq<char>) -> (Seq<char>, bool) {
    match spec_split_once(line, '=') {
        Some((key, value)) => {
            let k = spec_trim(key);
            let v = spec_trim(value);
            if k == "CHECK_INTERVAL_HOURS"@ {
                (v, s.1)
            } else if k == "AUTO_INSTALL_ENABLED"@ {
                (s.0, v == "true"@)
            } else {
                s
            }
        },
        None => s,
    }
}

/// The schedule that a sequence of settings lines gives, starting from the
/// defaults; a later line wins over an earlier one.
pub open spec fn schedule_from_lines(ls: Seq<Seq<char>>) -> (Seq<char>, bool)
    decreases ls.len(),
{
    if ls.len() == 0 {
        default_schedule()
    } else {
        apply_line(schedule_from_lines(ls.drop_last()), ls.last())
    }
}

/// The schedule read from the text of a settings file.
pub open spec fn spec_parse_schedule(contents: Seq<char>) -> (Seq<char>, bool) {
    schedule_from_lines(spec_lines(contents))
}

impl AppUpdateScheduleConfig {
    /// The schedule used when none has been saved: every 24 hours, without
    /// installing anything on its own.
    pub fn defaults() -> (r: Self)
        ensures
            schedule_view(r) == default_schedule(),
    {
        AppUpdateScheduleConfig { check_interval_hours: "24".to_string(), auto_install_enabled: false }
    }

    /// The text of the settings file for this schedule.
    pub fn to_file_contents(&self) -> (r: String)
        ensures
            r@ == spec_file_contents(schedule_view(*self)),
    {
        let mut out: Vec<char> = Vec::new();
        push_str(&mut out, "CHECK_INTERVAL_HOURS=");
        push_str(&mut out, self.check_interval_hours.as_str());
        push_str(&mut out, "\nAUTO_INSTALL_ENABLED=");
        if self.auto_install_enabled {
            push_str(&mut out, "true");
        } else {
            push_str(&mut out, "false");
        }
        push_str(&mut out, "\n");
        string_of(&out)
    }

    /// The schedule stored in the text of a settings file.
    pub fn from_file_contents(contents: &str) -> (r: Self)
        ensures
            schedule_view(r) == spec_parse_schedule(contents@),
    {
        let cs = chars_of(contents);
        let ls = lines(&cs);
        let ghost lv = ls@.map_values(|l: Vec<char>| l@);
        let mut config = Self::defaults();
        let mut i: usize = 0;
        while i < ls.len()
            invariant
                i <= ls.len(),
                lv == ls@.map_values(|l: Vec<char>| l@),
                schedule_view(config) == schedule_from_lines(lv.take(i as int)),
            decreases ls.len() - i,
        {
            assert(lv.take(i + 1).drop_last() =~= lv.take(i as int));
            assert(lv.take(i + 1).last() == ls@[i as int]@);
            match split_once(&ls[i], '=') {
                Some((key, value)) => {
                    let k = trim(&key);
                    let v = trim(&value);
                    if chars_eq_str(&k, "CHECK_INTERVAL_HOURS") {
                        config.check_interval_hours = string_of(&v);
                    } else if chars_eq_str(&k, "AUTO_INSTALL_ENABLED") {
                        config.auto_install_enabled = chars_eq_str(&v, "true");
                    }
                },
                None => {},
            }
            i = i + 1;
        }
        assert(lv.take(ls.len() as int) =~= lv);
        config
    }
}

/// Whether `text` is one of the offered intervals.
pub fn is_valid_interval(text: &str) -> (r: bool)
    ensures
        r == valid_intervals().contains(text@),
{
    let t = chars_of(text);
    let r = chars_eq_str(&t, "1") || chars_eq_str(&t, "6") || chars_eq_str(&t, "12")
        || chars_eq_str(&t, "24");
    proof {
        if valid_intervals().contains(text@) {
            let j = choose|j: int| 0 <= j < 4 && valid_intervals()[j] == text@;
            assert(j == 0 || j == 1 || j == 2 || j == 3);
        }
        if r {
            if t@ == "1"@ {
                assert(valid_intervals()[0] == text@);
            } else if t@ == "6"@ {
                assert(valid_intervals()[1] == text@);
            } else if t@ == "12"@ {
                assert(valid_intervals()[2] == text@);
            } else {
                assert(valid_intervals()[3] == text@);
            }
        }
    }
    r
}

pub open spec fn spec_schedule_from_form(interval: Seq<char>, auto: Option<Seq<char>>) -> (
    Seq<char>,
    bool,
) {
    (if valid_intervals().contains(interval) {
        interval
    } else {
        "24"@
    }, auto is Some)
}

/// The form offers checks every 1, 6, 12 or 24 hours: each of those is kept
/// exactly as submitted, anything else is saved as 24, and auto-install is
/// on exactly when its box was ticked.
pub proof fn law_offered_intervals_are_kept(interval: Seq<char>, auto: Option<Seq<char>>)
    ensures
        valid_intervals().contains(interval) <==> (interval == "1"@ || interval == "6"@ || interval == "12"@
            || interval == "24"@),
        spec_schedule_from_form(interval, auto).0 == (if interval == "1"@ || interval == "6"@ || interval
            == "12"@ || interval == "24"@ {
            interval
        } else {
            "24"@
        }),
        spec_schedule_from_form(interval, auto).1 == (auto is Some),
{
    if valid_intervals().contains(interval) {
        let j = choose|j: int| 0 <= j < valid_intervals().len() && valid_intervals()[j] == interval;
        assert(j == 0 || j == 1 || j == 2 || j == 3);
    }
    if interval == "1"@ {
        assert(valid_intervals()[0] == interval);
    } else if interval == "6"@ {
        assert(valid_intervals()[1] == interval);
    } else if interval == "12"@ {
        assert(valid_intervals()[2] == interval);
    } else if interval == "24"@ {
        assert(valid_intervals()[3] == interval);
    }
}

/// The schedule a submitted form asks for: its interval if it is one of the
/// offered ones and 24 hours otherwise, and auto-install on exactly when the
/// box was ticked.
pub fn schedule_from_form(form: &AppUpdateScheduleForm) -> (r: AppUpdateScheduleConfig)
    ensures
        schedule_view(r) == spec_schedule_from_form(
            form.check_interval_hours@,
            match form.auto_install_enabled {
                Some(s) => Some(s@),
                None => None,
            },
        ),
{
    let interval = if is_valid_interval(form.check_interval_hours.as_str()) {
        form.check_interval_hours.clone()
    } else {
        "24".to_string()
    };
    AppUpdateScheduleConfig {
        check_interval_hours: interval,
        auto_install_enabled: form.auto_install_enabled.is_some(),
    }
}

// ---------------------------------------------------------------------------
// The round trip through the settings file
// ---------------------------------------------------------------------------
pub open spec fn no_newline(s: Seq<char>) -> bool {
    forall|i: int| 0 <= i < s.len() ==> s[i] != '\n'
}

proof fn lemma_scan_append_plain(p: Seq<char>, a: Seq<char>)
    requires
        no_newline(a),
    ensures
        lines_scan(p + a) == (lines_scan(p).0, lines_scan(p).1 + a),
    decreases a.len(),
{
    if a.len() == 0 {
        assert(p + a =~= p);
        assert(lines_scan(p).1 + a =~= lines_scan(p).1);
    } else {
        assert((p + a).drop_last() =~= p + a.drop_last());
        assert((p + a).last() == a.last());
        assert(a.last() == a[a.len() - 1]);
        lemma_scan_append_plain(p, a.drop_last());
        assert((lines_scan(p).1 + a.drop_last()).push(a.last()) =~= lines_scan(p).1 + a);
    }
}

proof fn lemma_scan_newline(p: Seq<char>)
    ensures
        lines_scan(p + "\n"@) == (lines_scan(p).0.push(strip_cr(lines_scan(p).1)), Seq::<
            char,
        >::empty()),
{
    reveal_strlit("\n");
    assert((p + "\n"@).drop_last() =~= p);
}

/// The lines of `a + "\n" + b + "\n"`, where neither line holds a line break
/// or ends in a carriage return, are `a` and `b`.
proof fn lemma_two_lines(a: Seq<char>, b: Seq<char>)
    requires
        no_newline(a),
        no_newline(b),
        a.len() > 0 && a.last() != '\r',
        b.len() > 0 && b.last() != '\r',
    ensures
        spec_lines(a + "\n"@ + b + "\n"@) == seq![a, b],
{
    let e = Seq::<char>::empty();
    lemma_scan_append_plain(e, a);
    assert(e + a =~= a);
    lemma_scan_newline(a);
    assert(lines_scan(a + "\n"@).0 =~= seq![a]);
    lemma_scan_append_plain(a + "\n"@, b);
    lemma_scan_newline(a + "\n"@ + b);
    assert(lines_scan(a + "\n"@ + b + "\n"@).0 =~= seq![a, b]);
}

/// A settings line `KEY=value`, with `KEY` holding no `=`, splits into `KEY`
/// and `value`.
proof fn lemma_split_key(key: Seq<char>, value: Seq<char>)
    requires
        forall|j: int| 0 <= j < key.len() ==> key[j] != '=',
    ensures
        spec_split_once(key + "="@ + value, '=') == Some((key, value)),
{
    reveal_strlit("=");
    let s = key + "="@ + value;
    assert forall|j: int| 0 <= j < key.len() implies s[j] != '=' by {
        assert(s[j] == key[j]);
    }
    lemma_split_once_at(s, '=', key.len() as int);
    assert(s.subrange(0, key.len() as int) =~= key);
    assert(s.subrange(key.len() as int + 1, s.len() as int) =~= value);
}

/// Saving a schedule and reading the file back gives the same schedule, for
/// every interval text that is a single trimmed line (which every interval
/// the form accepts is).
pub proof fn law_schedule_file_round_trip(interval: Seq<char>, auto: bool)
    requires
        no_newline(interval),
        spec_trim(interval) == interval,
    ensures
        spec_parse_schedule(spec_file_contents((interval, auto))) == (interval, auto),
{
    reveal_strlit("CHECK_INTERVAL_HOURS=");
    reveal_strlit("CHECK_INTERVAL_HOURS");
    reveal_strlit("\nAUTO_INSTALL_ENABLED=");
    reveal_strlit("AUTO_INSTALL_ENABLED");
    reveal_strlit("=");
    reveal_strlit("\n");
    reveal_strlit("true");
    reveal_strlit("false");
    let k1 = "CHECK_INTERVAL_HOURS"@;
    let k2 = "AUTO_INSTALL_ENABLED"@;
    let v2 = bool_text(auto);
    let l1 = k1 + "="@ + interval;
    let l2 = k2 + "="@ + v2;
    assert(spec_file_contents((interval, auto)) =~= l1 + "\n"@ + l2 + "\n"@);
    assert(no_newline(l1)) by {
        assert forall|i: int| 0 <= i < l1.len() implies l1[i] != '\n' by {
            if i >= k1.len() + 1 {
                assert(l1[i] == interval[i - k1.len() - 1]);
            }
        }
    }
    assert(no_newline(l2));
    assert(l1.last() != '\r') by {
        if interval.len() > 0 {
            assert(l1.last() == interval.last());
            crate::text::lemma_trim_end_shape(crate::text::spec_trim_start(interval));
            assert(crate::text::is_white_space('\r'));
        } else {
            assert(l1.last() == '=');
        }
    }
    lemma_two_lines(l1, l2);
    lemma_split_key(k1, interval);
    lemma_split_key(k2, v2);
    assert(spec_trim(k1) == k1);
    assert(spec_trim(k2) == k2);
    assert(spec_trim(v2) == v2);
    assert(seq![l1, l2].drop_last() =~= seq![l1]);
    assert(seq![l1].drop_last() =~= Seq::<Seq<char>>::empty());
    assert(k2 != k1) by {
        assert(k2[0] != k1[0]);
    }
    if !auto {
        assert(v2 != "true"@) by {
            assert(v2.len() != "true"@.len());
        }
    }
    let s1 = apply_line(default_schedule(), l1);
    assert(s1 == (interval, false));
    assert(apply_line(s1, l2) == (interval, auto));
    assert(seq![l1].last() == l1);
    assert(seq![l1, l2].last() == l2);
    assert(schedule_from_lines(seq![l1].drop_last()) == default_schedule());
    assert(schedule_from_lines(seq![l1]) == s1);
    assert(schedule_from_lines(seq![l1, l2]) == apply_line(s1, l2));
}

/// A schedule saved from the form reads back from its file unchanged.
pub proof fn law_saved_schedule_reads_back(interval: Seq<char>, auto: Option<Seq<char>>)
    ensures
        spec_parse_schedule(spec_file_contents(spec_schedule_from_form(interval, auto)))
            == spec_schedule_from_form(interval, auto),
{
    let s = spec_schedule_from_form(interval, auto);
    reveal_strlit("1");
    reveal_strlit("6");
    reveal_strlit("12");
    reveal_strlit("24");
    assert(valid_intervals().contains(s.0) || s.0 == "24"@);
    if valid_intervals().contains(s.0) {
        let j = choose|j: int| 0 <= j < 4 && valid_intervals()[j] == s.0;
        assert(j == 0 || j == 1 || j == 2 || j == 3);
    }
    assert(no_newline(s.0));
    assert(spec_trim(s.0) == s.0);
    law_schedule_file_round_trip(s.0, s.1);
}

// ---------------------------------------------------------------------------
// When a check is due
// ---------------------------------------------------------------------------
/// What `chrono` gives for the time from the instant written in `text` to
/// `now` (seconds and nanoseconds since the Unix epoch): the
/// `signed_duration_since` of the two, as its `num_seconds` and
/// `subsec_nanos`. `None` when `text` is not RFC 3339, or `now` is outside
/// the dates `chrono` can hold.
pub uninterp spec fn elapsed_since_of(text: Seq<char>, now: (i64, u32)) -> Option<(i64, i32)>;

/// `DateTime::parse_from_rfc3339(text)`, `DateTime::from_timestamp(now)` and
/// `signed_duration_since`, read back as `num_seconds()` and `subsec_nanos()`.
/// Claims: the answer is `elapsed_since_of(text, now)`. How `chrono` parses
/// and counts (leap seconds included) is named, not spelled out here.
#[verifier::external_body]
fn elapsed_since(text: &str, now: (i64, u32)) -> (r: Option<(i64, i32)>)
    ensures
        r == elapsed_since_of(text@, now),
{
    let last = DateTime::parse_from_rfc3339(text).ok()?;
    let elapsed = DateTime::from_timestamp(now.0, now.1)?.signed_duration_since(last);
    Some((elapsed.num_seconds(), elapsed.subsec_nanos()))
}

/// The interval lengths, in hours, that a `chrono` duration can hold:
/// `TimeDelta::hours` panics outside them.
pub open spec fn hours_in_range(h: int) -> bool {
    -2562047788015 <= h <= 2562047788015
}

/// A duration given as whole seconds and the nanoseconds beyond them, in
/// nanoseconds.
pub open spec fn total_nanos(elapsed: (i64, i32)) -> int {
    elapsed.0 * 1_000_000_000 + elapsed.1
}

/// Whether a check is due, given the parsed interval and the time elapsed
/// since the last check: never without a whole-number interval, always
/// without a readable last check, and otherwise once at least the interval
/// has passed.
pub open spec fn spec_is_due(hours: Option<i64>, elapsed: Option<(i64, i32)>) -> bool {
    match hours {
        None => false,
        Some(h) => match elapsed {
            None => true,
            Some(e) => total_nanos(e) >= h * 3600 * 1_000_000_000,
        },
    }
}

/// The interval of a schedule in whole hours, if its text is one.
pub fn interval_hours(config: &AppUpdateScheduleConfig) -> (r: Option<i64>)
    ensures
        r == spec_parse_i64(spec_trim(config.check_interval_hours@)),
{
    let t = chars_of(config.check_interval_hours.as_str());
    let t = trim(&t);
    parse_i64(&t)
}

/// Whether an update check is due, `elapsed` being the time since the last
/// check (if one is on record and readable), as seconds and nanoseconds.
pub fn is_due_at(hours: Option<i64>, elapsed: Option<(i64, i32)>) -> (r: bool)
    requires
        match (hours, elapsed) {
            (Some(h), Some(_)) => hours_in_range(h as int),
            _ => true,
        },
    ensures
        r == spec_is_due(hours, elapsed),
{
    match hours {
        None => false,
        Some(h) => match elapsed {
            None => true,
            Some(e) => {
                let total: i128 = e.0 as i128 * 1_000_000_000 + e.1 as i128;
                let needed: i128 = h as i128 * 3600 * 1_000_000_000;
                total >= needed
            },
        },
    }
}

pub open spec fn spec_due_from_text(
    hours: Option<i64>,
    last_check_text: Option<Seq<char>>,
    now: (i64, u32),
) -> Option<bool> {
    let elapsed = match last_check_text {
        Some(t) => elapsed_since_of(spec_trim(t), now),
        None => None,
    };
    match (hours, elapsed) {
        (Some(h), Some(_)) => if hours_in_range(h as int) {
            Some(spec_is_due(hours, elapsed))
        } else {
            None
        },
        _ => Some(spec_is_due(hours, elapsed)),
    }
}

/// Whether the scheduled check is due at `now` (seconds and nanoseconds since
/// the Unix epoch), given the text of the last-check file if it could be
/// read. A last check that cannot be read as a time counts as none. `None`
/// for an interval too long for a `chrono` duration when a last check is on
/// record, where no answer can be given.
pub fn is_due(config: &AppUpdateScheduleConfig, last_check_text: Option<&str>, now: (i64, u32)) -> (r: Option<bool>)
    ensures
        r == spec_due_from_text(
            spec_parse_i64(spec_trim(config.check_interval_hours@)),
            match last_check_text {
                Some(t) => Some(t@),
                None => None,
            },
            now,
        ),
{
    let hours = interval_hours(config);
    let elapsed = match last_check_text {
        Some(t) => {
            let tc = chars_of(t);
            let tt = string_of(&trim(&tc));
            elapsed_since(tt.as_str(), now)
        },
        None => None,
    };
    match (hours, elapsed) {
        (Some(h), Some(_)) => {
            if -2562047788015 <= h && h <= 2562047788015 {
                Some(is_due_at(hours, elapsed))
            } else {
                None
            }
        },
        _ => Some(is_due_at(hours, elapsed)),
    }
}

/// Whether the release found is a different version from the running one.
pub fn update_available(latest: Option<&str>, current: &str) -> (r: bool)
    ensures
        r == match latest {
            Some(l) => l@ != current@,
            None => false,
        },
{
    match latest {
        Some(l) => {
            let lc = chars_of(l);
            !chars_eq_str(&lc, current)
        },
        None => false,
    }
}

// ---------------------------------------------------------------------------
// Requests to the privileged watcher
// ---------------------------------------------------------------------------
/// The only two requests this process can make of the update watcher, each
/// with the security event it records and the message it shows.
#[derive(PartialEq, Eq, Structural, Clone, Copy, Debug)]
pub enum WatcherRequest {
    Update,
    Restart,
}

impl WatcherRequest {
    /// The one word written to the request file.
    pub fn word(&self) -> (r: &'static str)
        ensures
            r@ == match *self {
                WatcherRequest::Update => "update"@,
                WatcherRequest::Restart => "restart"@,
            },
    {
        match self {
            WatcherRequest::Update => "update",
            WatcherRequest::Restart => "restart",
        }
    }

    pub fn event_type(&self) -> (r: &'static str)
        ensures
            r@ == match *self {
                WatcherRequest::Update => "system_update_triggered"@,
                WatcherRequest::Restart => "system_restart_triggered"@,
            },
    {
        match self {
            WatcherRequest::Update => "system_update_triggered",
            WatcherRequest::Restart => "system_restart_triggered",
        }
    }

    pub fn started_message(&self) -> (r: &'static str)
        ensures
            r@ == match *self {
                WatcherRequest::Update => "Update started. The app will download the new version and restart automatically — this can take about a minute. Refresh this page shortly."@,
                WatcherRequest::Restart => "Restarting now. Refresh this page in a few seconds."@,
            },
    {
        match self {
            WatcherRequest::Update => "Update started. The app will download the new version and restart automatically — this can take about a minute. Refresh this page shortly.",
            WatcherRequest::Restart => "Restarting now. Refresh this page in a few seconds.",
        }
    }
}

pub const REQUEST_FAILED_MESSAGE: &'static str = "Couldn't write the request file — the update watcher may not be set up on this install.";
pub const SCHEDULE_SAVED_MESSAGE: &'static str = "Update-check schedule saved.";
pub const SCHEDULE_NOT_SAVED_MESSAGE: &'static str = "Couldn't save the schedule.";

/// What one tick of the background check does next.
#[derive(PartialEq, Eq, Structural, Clone, Copy, Debug)]
pub enum TickStep {
    /// Nothing to do this time.
    Idle,
    /// Record the check time, then ask for the latest release.
    Check,
}

/// A tick checks only when auto-install is on and a check is due.
pub fn tick_step(config: &AppUpdateScheduleConfig, due: bool) -> (r: TickStep)
    ensures
        r == (if config.auto_install_enabled && due {
            TickStep::Check
        } else {
            TickStep::Idle
        }),
{
    if config.auto_install_enabled && due {
        TickStep::Check
    } else {
        TickStep::Idle
    }
}

/// After a check, an update is requested exactly when a release was found
/// and differs from the running version.
pub fn after_check(latest: Option<&str>, current: &str) -> (r: Option<WatcherRequest>)
    ensures
        r == (if (match latest {
            Some(l) => l@ != current@,
            None => false,
        }) {
            Some(WatcherRequest::Update)
        } else {
            None::<WatcherRequest>
        }),
{
    if update_available(latest, current) {
        Some(WatcherRequest::Update)
    } else {
        None
    }
}

} // verus!
