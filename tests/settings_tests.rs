use focus_timer::settings::{
    timer_config_from_settings, validate_settings, Settings, SettingsError, SettingsField,
};
use focus_timer::storage::{settings_for_storage, settings_from_row, settings_to_row};

fn valid() -> Settings {
    Settings {
        work_minutes: 30,
        short_break_minutes: 7,
        long_break_minutes: 20,
        long_break_after: 3,
        daily_goal: 10,
    }
}

#[test]
fn default_settings_values() {
    let s = Settings::default();
    assert_eq!(s.work_minutes, 25);
    assert_eq!(s.short_break_minutes, 5);
    assert_eq!(s.long_break_minutes, 15);
    assert_eq!(s.long_break_after, 4);
    assert_eq!(s.daily_goal, 8);
    assert_eq!(validate_settings(&s), Ok(()));
}

#[test]
fn zero_work_minutes_rejected() {
    let s = Settings { work_minutes: 0, ..Settings::default() };
    let e = validate_settings(&s).unwrap_err();
    assert_eq!(e, SettingsError { field: SettingsField::WorkMinutes, min: 1, max: 60 });
    assert_eq!(e.field.name(), "work_minutes");
    assert!(settings_for_storage(&s).is_err());
}

#[test]
fn each_field_range_is_checked() {
    let cases = [
        (Settings { work_minutes: 61, ..valid() }, SettingsField::WorkMinutes, 1, 60),
        (Settings { short_break_minutes: 0, ..valid() }, SettingsField::ShortBreakMinutes, 1, 30),
        (Settings { short_break_minutes: 31, ..valid() }, SettingsField::ShortBreakMinutes, 1, 30),
        (Settings { long_break_minutes: 31, ..valid() }, SettingsField::LongBreakMinutes, 1, 30),
        (Settings { long_break_after: 1, ..valid() }, SettingsField::LongBreakAfter, 2, 10),
        (Settings { long_break_after: 11, ..valid() }, SettingsField::LongBreakAfter, 2, 10),
        (Settings { daily_goal: 0, ..valid() }, SettingsField::DailyGoal, 1, 20),
        (Settings { daily_goal: 21, ..valid() }, SettingsField::DailyGoal, 1, 20),
    ];
    for (s, field, min, max) in cases {
        assert_eq!(validate_settings(&s), Err(SettingsError { field, min, max }));
    }
}

#[test]
fn first_offending_field_is_named() {
    let s = Settings { work_minutes: 0, daily_goal: 0, ..valid() };
    assert_eq!(validate_settings(&s).unwrap_err().field, SettingsField::WorkMinutes);
}

#[test]
fn range_bounds_are_inclusive() {
    let low = Settings {
        work_minutes: 1,
        short_break_minutes: 1,
        long_break_minutes: 1,
        long_break_after: 2,
        daily_goal: 1,
    };
    let high = Settings {
        work_minutes: 60,
        short_break_minutes: 30,
        long_break_minutes: 30,
        long_break_after: 10,
        daily_goal: 20,
    };
    assert_eq!(validate_settings(&low), Ok(()));
    assert_eq!(validate_settings(&high), Ok(()));
}

#[test]
fn config_in_seconds() {
    let c = timer_config_from_settings(&valid());
    assert_eq!(c.work_seconds, 1800);
    assert_eq!(c.short_break_seconds, 420);
    assert_eq!(c.long_break_seconds, 1200);
    assert_eq!(c.long_break_after, 3);
    assert_eq!(c.daily_goal, 10);
}

#[test]
fn config_seconds_saturate() {
    let s = Settings { work_minutes: u32::MAX, ..valid() };
    assert_eq!(timer_config_from_settings(&s).work_seconds, u32::MAX);
}

#[test]
fn settings_row_round_trip() {
    let s = valid();
    let row = settings_for_storage(&s).unwrap();
    assert_eq!(row, (30, 7, 20, 3, 10));
    assert_eq!(row, settings_to_row(&s));
    assert_eq!(settings_from_row(row), Some(s));
}

#[test]
fn out_of_range_row_is_refused() {
    assert_eq!(settings_from_row((25, 5, -1, 4, 8)), None);
    assert_eq!(settings_from_row((25, 5, 15, 4, 1 << 40)), None);
}
