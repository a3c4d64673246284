use focus_timer::settings::Settings;
use focus_timer::storage::{
    phase_type_from_tag, phase_type_of, phase_type_tag, session_at, statistics_at, today_statistics,
    PhaseType, SessionRecord,
};
use focus_timer::timer::Phase;

fn row(date: &str, t: PhaseType, minutes: u32, completed: bool) -> SessionRecord {
    SessionRecord {
        date: date.to_string(),
        start_time: String::new(),
        end_time: String::new(),
        duration_minutes: minutes,
        phase_type: t,
        completed,
        notes: None,
    }
}

#[test]
fn completed_work_phase_record() {
    // 2024-03-10T12:00:00Z
    let now = 1_710_072_000;
    let r = session_at(Phase::Work, 1500, now).unwrap();
    assert_eq!(r.duration_minutes, 25);
    assert_eq!(r.phase_type, PhaseType::Work);
    assert!(r.completed);
    assert_eq!(r.notes, None);
    assert_eq!(r.date, "2024-03-10");
    assert_eq!(r.end_time, "2024-03-10T12:00:00+00:00");
    assert_eq!(r.start_time, "2024-03-10T11:35:00+00:00");
}

#[test]
fn break_record_truncates_minutes() {
    let r = session_at(Phase::LongBreak, 119, 1_710_072_000).unwrap();
    assert_eq!(r.duration_minutes, 1);
    assert_eq!(r.phase_type, PhaseType::Break);
    assert_eq!(phase_type_of(Phase::ShortBreak), PhaseType::Break);
}

#[test]
fn unrepresentable_instant_gives_no_record() {
    assert!(session_at(Phase::Work, 60, i64::MIN).is_none());
    assert!(session_at(Phase::Work, 60, i64::MAX).is_none());
}

#[test]
fn recording_work_phase_adds_focus_minutes() {
    let now = 1_710_072_000;
    let mut rows = vec![
        row("2024-03-10", PhaseType::Work, 25, true),
        row("2024-03-10", PhaseType::Break, 5, true),
    ];
    let before = today_statistics(&rows, "2024-03-10".to_string(), 8);
    rows.push(session_at(Phase::Work, 1500, now).unwrap());
    let after = today_statistics(&rows, "2024-03-10".to_string(), 8);
    assert_eq!(after.total_focus_minutes, before.total_focus_minutes + 25);
    assert_eq!(after.work_sessions_completed, before.work_sessions_completed + 1);
    assert_eq!(after.breaks_taken, before.breaks_taken);
}

#[test]
fn statistics_of_a_day() {
    let rows = vec![
        row("2024-03-09", PhaseType::Work, 25, true),
        row("2024-03-09", PhaseType::Work, 25, true),
        row("2024-03-09", PhaseType::Work, 25, true),
        row("2024-03-10", PhaseType::Work, 30, true),
        row("2024-03-10", PhaseType::Break, 5, true),
        row("2024-03-10", PhaseType::Work, 20, false),
        row("2024-03-10", PhaseType::Work, 25, true),
        row("2024-03-10", PhaseType::Break, 15, true),
    ];
    let s = today_statistics(&rows, "2024-03-10".to_string(), 8);
    assert_eq!(s.date, "2024-03-10");
    assert_eq!(s.total_focus_minutes, 55);
    assert_eq!(s.work_sessions_completed, 2);
    assert_eq!(s.breaks_taken, 2);
    assert_eq!(s.current_streak, 2);
    assert_eq!(s.longest_streak, 3);
    assert_eq!(s.daily_goal, 8);
}

#[test]
fn statistics_of_empty_log() {
    let s = today_statistics(&Vec::new(), "2024-01-01".to_string(), 4);
    assert_eq!(s.total_focus_minutes, 0);
    assert_eq!(s.work_sessions_completed, 0);
    assert_eq!(s.breaks_taken, 0);
    assert_eq!(s.current_streak, 0);
    assert_eq!(s.longest_streak, 0);
    assert_eq!(s.daily_goal, 4);
}

#[test]
fn focus_minutes_saturate() {
    let rows = vec![
        row("d", PhaseType::Work, u32::MAX, true),
        row("d", PhaseType::Work, 7, true),
    ];
    assert_eq!(today_statistics(&rows, "d".to_string(), 1).total_focus_minutes, u32::MAX);
}

#[test]
fn statistics_for_an_instant() {
    let rows = vec![row("2024-03-10", PhaseType::Work, 25, true)];
    let s = statistics_at(&rows, 1_710_072_000, &Settings::default()).unwrap();
    assert_eq!(s.date, "2024-03-10");
    assert_eq!(s.total_focus_minutes, 25);
    assert_eq!(s.daily_goal, 8);
    assert!(statistics_at(&rows, i64::MAX, &Settings::default()).is_none());
}

#[test]
fn phase_type_tags_round_trip() {
    assert_eq!(phase_type_tag(PhaseType::Work), "work");
    assert_eq!(phase_type_tag(PhaseType::Break), "break");
    assert_eq!(phase_type_from_tag("work"), Some(PhaseType::Work));
    assert_eq!(phase_type_from_tag("break"), Some(PhaseType::Break));
    assert_eq!(phase_type_from_tag("nap"), None);
}
