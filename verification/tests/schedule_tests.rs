use boardgame_tracker::schedule::{
    interval_hours, is_due, is_due_at, is_valid_interval, schedule_from_form, update_available,
    AppUpdateScheduleConfig, AppUpdateScheduleForm,
};

fn config(hours: &str, auto: bool) -> AppUpdateScheduleConfig {
    AppUpdateScheduleConfig { check_interval_hours: hours.to_string(), auto_install_enabled: auto }
}

const JAN_1_2024: i64 = 1_704_067_200;

#[test]
fn defaults_check_daily_without_installing() {
    let d = AppUpdateScheduleConfig::defaults();
    assert_eq!(d.check_interval_hours, "24");
    assert!(!d.auto_install_enabled);
}

#[test]
fn the_settings_file_format() {
    assert_eq!(
        config("6", true).to_file_contents(),
        "CHECK_INTERVAL_HOURS=6\nAUTO_INSTALL_ENABLED=true\n"
    );
    assert_eq!(
        config("24", false).to_file_contents(),
        "CHECK_INTERVAL_HOURS=24\nAUTO_INSTALL_ENABLED=false\n"
    );
}

#[test]
fn the_settings_file_is_read_line_by_line() {
    let c = AppUpdateScheduleConfig::from_file_contents(
        "# comment\n  CHECK_INTERVAL_HOURS = 12 \r\nAUTO_INSTALL_ENABLED=true\nOTHER=1\n",
    );
    assert_eq!(c.check_interval_hours, "12");
    assert!(c.auto_install_enabled);
    let c = AppUpdateScheduleConfig::from_file_contents("AUTO_INSTALL_ENABLED=yes");
    assert_eq!(c.check_interval_hours, "24");
    assert!(!c.auto_install_enabled);
    let c = AppUpdateScheduleConfig::from_file_contents("");
    assert_eq!(c.check_interval_hours, "24");
}

#[test]
fn a_saved_schedule_reads_back() {
    for (h, auto) in [("1", true), ("6", false), ("12", true), ("24", false)] {
        let c = config(h, auto);
        let back = AppUpdateScheduleConfig::from_file_contents(&c.to_file_contents());
        assert_eq!(back.check_interval_hours, h);
        assert_eq!(back.auto_install_enabled, auto);
    }
}

#[test]
fn the_form_only_accepts_offered_intervals() {
    assert!(is_valid_interval("6"));
    assert!(!is_valid_interval("7"));
    let c = schedule_from_form(&AppUpdateScheduleForm {
        check_interval_hours: "48".into(),
        auto_install_enabled: Some("on".into()),
    });
    assert_eq!(c.check_interval_hours, "24");
    assert!(c.auto_install_enabled);
    let c = schedule_from_form(&AppUpdateScheduleForm {
        check_interval_hours: "12".into(),
        auto_install_enabled: None,
    });
    assert_eq!(c.check_interval_hours, "12");
    assert!(!c.auto_install_enabled);
}

#[test]
fn checks_fall_due_once_the_interval_has_passed() {
    let c = config("24", true);
    assert_eq!(interval_hours(&c), Some(24));
    assert_eq!(is_due(&c, None, (JAN_1_2024, 0)), Some(true));
    assert_eq!(is_due(&c, Some("not a date"), (JAN_1_2024, 0)), Some(true));
    let last = Some(" 2024-01-01T00:00:00+00:00\n");
    assert_eq!(is_due(&c, last, (JAN_1_2024 + 86_400, 0)), Some(true));
    assert_eq!(is_due(&c, last, (JAN_1_2024 + 86_399, 999_999_999)), Some(false));
    assert_eq!(is_due(&c, Some("2024-01-01T01:00:00+01:00"), (JAN_1_2024 + 86_400, 0)), Some(true));
    assert_eq!(is_due(&config("soon", true), None, (JAN_1_2024, 0)), Some(false));
}

#[test]
fn an_interval_beyond_any_duration_has_no_answer() {
    let c = config("9999999999999", true);
    assert_eq!(is_due(&c, Some("2024-01-01T00:00:00Z"), (JAN_1_2024, 0)), None);
    assert_eq!(is_due(&c, None, (JAN_1_2024, 0)), Some(true));
    assert!(is_due_at(Some(1), Some((3600, 0))));
    assert!(!is_due_at(Some(1), Some((3599, 999_999_999))));
    assert!(!is_due_at(Some(0), Some((-1, 0))));
    assert!(is_due_at(Some(0), Some((0, 0))));
    assert!(is_due_at(Some(5), None));
    assert!(!is_due_at(None, Some((9_999, 0))));
}

#[test]
fn a_different_release_is_an_update() {
    assert!(update_available(Some("v1.2.0"), "v1.1.0"));
    assert!(!update_available(Some("v1.1.0"), "v1.1.0"));
    assert!(!update_available(None, "v1.1.0"));
}
