use vstd::prelude::*;
use crate::timer::TimerConfig;

verus! {

/// The user's configuration: phase lengths in minutes and goals.
#[derive(Debug, Clone, Copy, PartialEq, Eq, Structural)]
pub struct Settings {
    pub work_minutes: u32,
    pub short_break_minutes: u32,
    pub long_break_minutes: u32,
    pub long_break_after: u32,
    pub daily_goal: u32,
}

/// The aggregate figures for one calendar day.
#[derive(Debug, Clone)]
pub struct TodayStatistics {
    pub date: String,
    pub total_focus_minutes: u32,
    pub work_sessions_completed: u32,
    pub breaks_taken: u32,
    pub current_streak: u32,
    pub longest_streak: u32,
    pub daily_goal: u32,
}

impl Default for Settings {
    fn default() -> (r: Self)
        ensures
            r == (Settings {
                work_minutes: 25,
                short_break_minutes: 5,
                long_break_minutes: 15,
                long_break_after: 4,
                daily_goal: 8,
            }),
    {
        Settings {
            work_minutes: 25,
            short_break_minutes: 5,
            long_break_minutes: 15,
            long_break_after: 4,
            daily_goal: 8,
        }
    }
}

/// A settings field that validation can reject.
#[derive(Debug, Clone, Copy, PartialEq, Eq, Structural)]
pub enum SettingsField {
    WorkMinutes,
    ShortBreakMinutes,
    LongBreakMinutes,
    LongBreakAfter,
    DailyGoal,
}

/// A rejected field together with the inclusive range it must lie in.
#[derive(Debug, Clone, Copy, PartialEq, Eq, Structural)]
pub struct SettingsError {
    pub field: SettingsField,
    pub min: u32,
    pub max: u32,
}

/// The error naming `field` and its allowed range.
pub open spec fn range_error(field: SettingsField, min: u32, max: u32) -> SettingsError {
    SettingsError { field, min, max }
}

/// The first field of `s`, in declaration order, that lies outside its range.
pub open spec fn first_violation(s: Settings) -> Option<SettingsError> {
    if !(1 <= s.work_minutes <= 60) {
        Some(range_error(SettingsField::WorkMinutes, 1, 60))
    } else if !(1 <= s.short_break_minutes <= 30) {
        Some(range_error(SettingsField::ShortBreakMinutes, 1, 30))
    } else if !(1 <= s.long_break_minutes <= 30) {
        Some(range_error(SettingsField::LongBreakMinutes, 1, 30))
    } else if !(2 <= s.long_break_after <= 10) {
        Some(range_error(SettingsField::LongBreakAfter, 2, 10))
    } else if !(1 <= s.daily_goal <= 20) {
        Some(range_error(SettingsField::DailyGoal, 1, 20))
    } else {
        None
    }
}

/// Every field lies within its allowed range.
pub open spec fn settings_valid(s: Settings) -> bool {
    first_violation(s) is None
}

/// `minutes * 60`, capped at the largest `u32`.
pub open spec fn minutes_to_seconds(minutes: u32) -> u32 {
    if minutes * 60 <= u32::MAX {
        (minutes * 60) as u32
    } else {
        u32::MAX
    }
}

/// The timer configuration derived from `s`.
pub open spec fn config_of(s: Settings) -> TimerConfig {
    TimerConfig {
        work_seconds: minutes_to_seconds(s.work_minutes),
        short_break_seconds: minutes_to_seconds(s.short_break_minutes),
        long_break_seconds: minutes_to_seconds(s.long_break_minutes),
        long_break_after: s.long_break_after,
        daily_goal: s.daily_goal,
    }
}

impl SettingsField {
    /// The field's name as stored.
    pub fn name(&self) -> (r: &'static str)
        ensures
            r@ == match *self {
                SettingsField::WorkMinutes => "work_minutes"@,
                SettingsField::ShortBreakMinutes => "short_break_minutes"@,
                SettingsField::LongBreakMinutes => "long_break_minutes"@,
                SettingsField::LongBreakAfter => "long_break_after"@,
                SettingsField::DailyGoal => "daily_goal"@,
            },
    {
        match self {
            SettingsField::WorkMinutes => "work_minutes",
            SettingsField::ShortBreakMinutes => "short_break_minutes",
            SettingsField::LongBreakMinutes => "long_break_minutes",
            SettingsField::LongBreakAfter => "long_break_after",
            SettingsField::DailyGoal => "daily_goal",
        }
    }
}

fn check_range(v: u32, min: u32, max: u32, field: SettingsField) -> (r: Result<(), SettingsError>)
    ensures
        r == if min <= v <= max {
            Ok(())
        } else {
            Err(range_error(field, min, max))
        },
{
    if min <= v && v <= max {
        Ok(())
    } else {
        Err(SettingsError { field, min, max })
    }
}

/// Accepts `s` when every field is in range; otherwise names the first
/// offending field and its range.
pub fn validate_settings(s: &Settings) -> (r: Result<(), SettingsError>)
    ensures
        r is Ok <==> settings_valid(*s),
        r is Err ==> Some(r->Err_0) == first_violation(*s),
{
    check_range(s.work_minutes, 1, 60, SettingsField::WorkMinutes)?;
    check_range(s.short_break_minutes, 1, 30, SettingsField::ShortBreakMinutes)?;
    check_range(s.long_break_minutes, 1, 30, SettingsField::LongBreakMinutes)?;
    check_range(s.long_break_after, 2, 10, SettingsField::LongBreakAfter)?;
    check_range(s.daily_goal, 1, 20, SettingsField::DailyGoal)?;
    Ok(())
}

fn to_seconds(minutes: u32) -> (r: u32)
    ensures
        r == minutes_to_seconds(minutes),
{
    if minutes <= u32::MAX / 60 {
        minutes * 60
    } else {
        u32::MAX
    }
}

/// Projects settings into seconds for the timer.
pub fn timer_config_from_settings(s: &Settings) -> (r: TimerConfig)
    ensures
        r == config_of(*s),
{
    TimerConfig {
        work_seconds: to_seconds(s.work_minutes),
        short_break_seconds: to_seconds(s.short_break_minutes),
        long_break_seconds: to_seconds(s.long_break_minutes),
        long_break_after: s.long_break_after,
        daily_goal: s.daily_goal,
    }
}

} // verus!
