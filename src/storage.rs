use vstd::prelude::*;
use crate::settings::{first_violation, settings_valid, validate_settings, Settings, SettingsError, TodayStatistics};
use crate::timer::Phase;

verus! {

/// How a stored session is tagged.
#[derive(Debug, Clone, Copy, PartialEq, Eq, Structural)]
pub enum PhaseType {
    Work,
    Break,
}

/// One row of the session log.
#[derive(Debug, Clone)]
pub struct SessionRecord {
    pub date: String,
    pub start_time: String,
    pub end_time: String,
    pub duration_minutes: u32,
    pub phase_type: PhaseType,
    pub completed: bool,
    pub notes: Option<String>,
}

/// The stored form of the settings row: one integer per field.
pub type SettingsRow = (i64, i64, i64, i64, i64);

/// `DateTime::<Utc>::from_timestamp(ts, 0)` yields a date and time.
pub uninterp spec fn chrono_representable(ts: int) -> bool;

/// The RFC 3339 text of the UTC instant `ts` seconds after the epoch.
pub uninterp spec fn rfc3339_text(ts: int) -> Seq<char>;

/// The `%Y-%m-%d` text of the UTC calendar date holding that instant.
pub uninterp spec fn utc_date_text(ts: int) -> Seq<char>;

/// Relies on chrono's DateTime::from_timestamp (None when out of range) and
/// DateTime::to_rfc3339.
#[verifier::external_body]
fn rfc3339_at(ts: i64) -> (r: Option<String>)
    ensures
        r is Some <==> chrono_representable(ts as int),
        r is Some ==> r->Some_0@ == rfc3339_text(ts as int),
{
    match chrono::DateTime::from_timestamp(ts, 0) {
        Some(d) => Some(d.to_rfc3339()),
        None => None,
    }
}

/// Relies on chrono's DateTime::from_timestamp (None when out of range),
/// DateTime::date_naive and NaiveDate's `%Y-%m-%d` display.
#[verifier::external_body]
fn utc_date_at(ts: i64) -> (r: Option<String>)
    ensures
        r is Some <==> chrono_representable(ts as int),
        r is Some ==> r->Some_0@ == utc_date_text(ts as int),
{
    match chrono::DateTime::from_timestamp(ts, 0) {
        Some(d) => Some(d.date_naive().to_string()),
        None => None,
    }
}

/// Work phases are tagged as work, both kinds of break as breaks.
pub open spec fn type_of(phase: Phase) -> PhaseType {
    if phase == Phase::Work {
        PhaseType::Work
    } else {
        PhaseType::Break
    }
}

pub fn phase_type_of(phase: Phase) -> (r: PhaseType)
    ensures
        r == type_of(phase),
{
    match phase {
        Phase::Work => PhaseType::Work,
        Phase::ShortBreak | Phase::LongBreak => PhaseType::Break,
    }
}

/// The tag a session type is stored under.
pub open spec fn tag_text(t: PhaseType) -> Seq<char> {
    match t {
        PhaseType::Work => "work"@,
        PhaseType::Break => "break"@,
    }
}

pub fn phase_type_tag(t: PhaseType) -> (r: &'static str)
    ensures
        r@ == tag_text(t),
{
    match t {
        PhaseType::Work => "work",
        PhaseType::Break => "break",
    }
}

/// Reads a stored tag back; `None` for a tag this log never writes.
pub fn phase_type_from_tag(tag: &str) -> (r: Option<PhaseType>)
    ensures
        r == if tag@ == tag_text(PhaseType::Work) {
            Some(PhaseType::Work)
        } else if tag@ == tag_text(PhaseType::Break) {
            Some(PhaseType::Break)
        } else {
            None
        },
{
    let given = String::from_str(tag);
    if given == String::from_str("work") {
        Some(PhaseType::Work)
    } else if given == String::from_str("break") {
        Some(PhaseType::Break)
    } else {
        None
    }
}

/// The record of a phase of `duration_seconds` that finished at `now`
/// (seconds since the epoch, UTC): it started `duration_seconds` earlier,
/// is dated by its end, and counts whole minutes.
pub open spec fn session_fits(
    r: SessionRecord,
    phase: Phase,
    duration_seconds: u32,
    now: int,
) -> bool {
    &&& r.date@ == utc_date_text(now)
    &&& r.start_time@ == rfc3339_text(now - duration_seconds)
    &&& r.end_time@ == rfc3339_text(now)
    &&& r.duration_minutes == duration_seconds / 60
    &&& r.phase_type == type_of(phase)
    &&& r.completed
    &&& r.notes is None
}

/// Builds the log entry for a completed phase that ended at `now`; `None`
/// when its start or end lies outside the calendar range of the date library.
pub fn session_at(phase: Phase, duration_seconds: u32, now: i64) -> (r: Option<SessionRecord>)
    ensures
        r is Some <==> (now - duration_seconds >= i64::MIN && chrono_representable(now as int)
            && chrono_representable(now - duration_seconds)),
        r is Some ==> session_fits(r->Some_0, phase, duration_seconds, now as int),
{
    let start = match now.checked_sub(duration_seconds as i64) {
        Some(s) => s,
        None => return None,
    };
    let date = match utc_date_at(now) {
        Some(d) => d,
        None => return None,
    };
    let start_time = match rfc3339_at(start) {
        Some(t) => t,
        None => return None,
    };
    let end_time = match rfc3339_at(now) {
        Some(t) => t,
        None => return None,
    };
    Some(
        SessionRecord {
            date,
            start_time,
            end_time,
            duration_minutes: duration_seconds / 60,
            phase_type: phase_type_of(phase),
            completed: true,
            notes: None,
        },
    )
}

/// `x`, capped at the largest `u32`.
pub open spec fn cap(x: int) -> u32 {
    if x <= u32::MAX {
        x as u32
    } else {
        u32::MAX
    }
}

/// A completed session of type `t` on the date `d`.
pub open spec fn counts(r: SessionRecord, d: Seq<char>, t: PhaseType) -> bool {
    r.completed && r.phase_type == t && r.date@ == d
}

/// How many completed sessions of type `t` the log holds for date `d`.
pub open spec fn count_on(rows: Seq<SessionRecord>, d: Seq<char>, t: PhaseType) -> int
    decreases rows.len(),
{
    if rows.len() == 0 {
        0
    } else {
        count_on(rows.drop_last(), d, t) + if counts(rows.last(), d, t) {
            1int
        } else {
            0int
        }
    }
}

/// The minutes of completed work sessions on date `d`.
pub open spec fn focus_minutes_on(rows: Seq<SessionRecord>, d: Seq<char>) -> int
    decreases rows.len(),
{
    if rows.len() == 0 {
        0
    } else {
        focus_minutes_on(rows.drop_last(), d) + if counts(rows.last(), d, PhaseType::Work) {
            rows.last().duration_minutes as int
        } else {
            0int
        }
    }
}

/// The most completed work sessions on any one date, among the dates of the
/// first `k` rows (0 when there are none).
pub open spec fn best_day_upto(rows: Seq<SessionRecord>, k: int) -> int
    decreases k,
{
    if k <= 0 {
        0
    } else {
        let prev = best_day_upto(rows, k - 1);
        let r = rows[k - 1];
        let here = if r.completed && r.phase_type == PhaseType::Work {
            count_on(rows, r.date@, PhaseType::Work)
        } else {
            0
        };
        if here > prev {
            here
        } else {
            prev
        }
    }
}

/// The most completed work sessions on any one date.
pub open spec fn best_day(rows: Seq<SessionRecord>) -> int {
    best_day_upto(rows, rows.len() as int)
}

proof fn lemma_count_nonneg(rows: Seq<SessionRecord>, d: Seq<char>, t: PhaseType)
    ensures
        0 <= count_on(rows, d, t) <= rows.len(),
    decreases rows.len(),
{
    if rows.len() > 0 {
        lemma_count_nonneg(rows.drop_last(), d, t);
    }
}

proof fn lemma_focus_nonneg(rows: Seq<SessionRecord>, d: Seq<char>)
    ensures
        0 <= focus_minutes_on(rows, d),
    decreases rows.len(),
{
    if rows.len() > 0 {
        lemma_focus_nonneg(rows.drop_last(), d);
    }
}

/// Counts the completed sessions of type `t` on date `d`, capped.
fn count_sessions(rows: &Vec<SessionRecord>, d: &String, t: PhaseType) -> (r: u32)
    ensures
        r == cap(count_on(rows@, d@, t)),
{
    let mut n: u32 = 0;
    let mut i: usize = 0;
    while i < rows.len()
        invariant
            i <= rows@.len(),
            n == cap(count_on(rows@.subrange(0, i as int), d@, t)),
        decreases rows.len() - i,
    {
        proof {
            assert(rows@.subrange(0, i + 1).drop_last() =~= rows@.subrange(0, i as int));
            lemma_count_nonneg(rows@.subrange(0, i as int), d@, t);
        }
        let row = &rows[i];
        if row.completed && row.phase_type == t && row.date == *d {
            n = n.saturating_add(1);
        }
        i = i + 1;
    }
    assert(rows@.subrange(0, i as int) =~= rows@);
    n
}

/// Sums the minutes of completed work sessions on date `d`, capped.
fn sum_focus_minutes(rows: &Vec<SessionRecord>, d: &String) -> (r: u32)
    ensures
        r == cap(focus_minutes_on(rows@, d@)),
{
    let mut total: u32 = 0;
    let mut i: usize = 0;
    while i < rows.len()
        invariant
            i <= rows@.len(),
            total == cap(focus_minutes_on(rows@.subrange(0, i as int), d@)),
        decreases rows.len() - i,
    {
        proof {
            assert(rows@.subrange(0, i + 1).drop_last() =~= rows@.subrange(0, i as int));
            lemma_focus_nonneg(rows@.subrange(0, i as int), d@);
        }
        let row = &rows[i];
        if row.completed && row.phase_type == PhaseType::Work && row.date == *d {
            total = total.saturating_add(row.duration_minutes);
        }
        i = i + 1;
    }
    assert(rows@.subrange(0, i as int) =~= rows@);
    total
}

/// The most completed work sessions on any one date, capped.
fn longest_day(rows: &Vec<SessionRecord>) -> (r: u32)
    ensures
        r == cap(best_day(rows@)),
{
    let mut best: u32 = 0;
    let mut i: usize = 0;
    while i < rows.len()
        invariant
            i <= rows@.len(),
            best == cap(best_day_upto(rows@, i as int)),
            best_day_upto(rows@, i as int) >= 0,
        decreases rows.len() - i,
    {
        proof {
            lemma_count_nonneg(rows@, rows@[i as int].date@, PhaseType::Work);
        }
        let row = &rows[i];
        if row.completed && row.phase_type == PhaseType::Work {
            let here = count_sessions(rows, &row.date, PhaseType::Work);
            if here > best {
                best = here;
            }
        }
        i = i + 1;
    }
    best
}

/// The figures of `rows` for the date `today`: `current_streak` equals the
/// day's completed work sessions, `longest_streak` is the most completed
/// work sessions on any one date; counts and sums are capped at the largest
/// `u32`.
pub open spec fn statistics_fit(
    s: TodayStatistics,
    rows: Seq<SessionRecord>,
    today: Seq<char>,
    daily_goal: u32,
) -> bool {
    &&& s.date@ == today
    &&& s.total_focus_minutes == cap(focus_minutes_on(rows, today))
    &&& s.work_sessions_completed == cap(count_on(rows, today, PhaseType::Work))
    &&& s.breaks_taken == cap(count_on(rows, today, PhaseType::Break))
    &&& s.current_streak == s.work_sessions_completed
    &&& s.longest_streak == cap(best_day(rows))
    &&& s.daily_goal == daily_goal
}

/// Aggregates the session log for the date `today`.
pub fn today_statistics(rows: &Vec<SessionRecord>, today: String, daily_goal: u32) -> (r:
    TodayStatistics)
    ensures
        statistics_fit(r, rows@, today@, daily_goal),
{
    let total_focus_minutes = sum_focus_minutes(rows, &today);
    let work_sessions_completed = count_sessions(rows, &today, PhaseType::Work);
    let breaks_taken = count_sessions(rows, &today, PhaseType::Break);
    let longest_streak = longest_day(rows);
    TodayStatistics {
        date: today,
        total_focus_minutes,
        work_sessions_completed,
        breaks_taken,
        current_streak: work_sessions_completed,
        longest_streak,
        daily_goal,
    }
}

/// Aggregates the session log for the UTC date holding the instant `now`;
/// `None` when that instant lies outside the date library's range.
pub fn statistics_at(rows: &Vec<SessionRecord>, now: i64, settings: &Settings) -> (r: Option<
    TodayStatistics,
>)
    ensures
        r is Some <==> chrono_representable(now as int),
        r is Some ==> statistics_fit(r->Some_0, rows@, utc_date_text(now as int), settings.daily_goal),
{
    match utc_date_at(now) {
        Some(today) => Some(today_statistics(rows, today, settings.daily_goal)),
        None => None,
    }
}

/// The settings as they are stored.
pub open spec fn row_of(s: Settings) -> SettingsRow {
    (
        s.work_minutes as i64,
        s.short_break_minutes as i64,
        s.long_break_minutes as i64,
        s.long_break_after as i64,
        s.daily_goal as i64,
    )
}

pub fn settings_to_row(s: &Settings) -> (r: SettingsRow)
    ensures
        r == row_of(*s),
{
    (
        s.work_minutes as i64,
        s.short_break_minutes as i64,
        s.long_break_minutes as i64,
        s.long_break_after as i64,
        s.daily_goal as i64,
    )
}

/// A stored integer as a `u32`, when it fits.
pub open spec fn field_of(v: i64) -> Option<u32> {
    if 0 <= v <= u32::MAX {
        Some(v as u32)
    } else {
        None
    }
}

fn field_from(v: i64) -> (r: Option<u32>)
    ensures
        r == field_of(v),
{
    if 0 <= v && v <= u32::MAX as i64 {
        Some(v as u32)
    } else {
        None
    }
}

/// The settings a stored row holds, when every value fits.
pub open spec fn settings_of_row(row: SettingsRow) -> Option<Settings> {
    if field_of(row.0) is Some && field_of(row.1) is Some && field_of(row.2) is Some && field_of(
        row.3,
    ) is Some && field_of(row.4) is Some {
        Some(
            Settings {
                work_minutes: field_of(row.0)->Some_0,
                short_break_minutes: field_of(row.1)->Some_0,
                long_break_minutes: field_of(row.2)->Some_0,
                long_break_after: field_of(row.3)->Some_0,
                daily_goal: field_of(row.4)->Some_0,
            },
        )
    } else {
        None
    }
}

/// Reads a stored settings row back; `None` when a value does not fit.
pub fn settings_from_row(row: SettingsRow) -> (r: Option<Settings>)
    ensures
        r == settings_of_row(row),
{
    let work_minutes = field_from(row.0)?;
    let short_break_minutes = field_from(row.1)?;
    let long_break_minutes = field_from(row.2)?;
    let long_break_after = field_from(row.3)?;
    let daily_goal = field_from(row.4)?;
    Some(
        Settings {
            work_minutes,
            short_break_minutes,
            long_break_minutes,
            long_break_after,
            daily_goal,
        },
    )
}

/// Checks settings about to be saved and gives the row to store; an
/// invalid field is reported and nothing is to be stored.
pub fn settings_for_storage(s: &Settings) -> (r: Result<SettingsRow, SettingsError>)
    ensures
        r is Ok <==> settings_valid(*s),
        r is Ok ==> r->Ok_0 == row_of(*s),
        r is Err ==> Some(r->Err_0) == first_violation(*s),
{
    match validate_settings(s) {
        Ok(()) => Ok(settings_to_row(s)),
        Err(e) => Err(e),
    }
}

/// Saved settings read back unchanged: the row written for `s` reads back
/// as exactly `s`.
pub proof fn lemma_settings_round_trip(s: Settings)
    ensures
        settings_of_row(row_of(s)) == Some(s),
{
}

/// Recording a completed work phase of the day adds its whole minutes to the
/// day's focus time and one to its work sessions, and leaves its breaks as
/// they were.
pub proof fn lemma_recorded_work_counts(
    rows: Seq<SessionRecord>,
    rec: SessionRecord,
    duration_seconds: u32,
    now: int,
)
    requires
        session_fits(rec, Phase::Work, duration_seconds, now),
    ensures
        ({
            let today = utc_date_text(now);
            let after = rows.push(rec);
            &&& rec.duration_minutes == duration_seconds / 60
            &&& focus_minutes_on(after, today) == focus_minutes_on(rows, today) + duration_seconds
                / 60
            &&& count_on(after, today, PhaseType::Work) == count_on(rows, today, PhaseType::Work)
                + 1
            &&& count_on(after, today, PhaseType::Break) == count_on(rows, today, PhaseType::Break)
        }),
{
    assert(rows.push(rec).drop_last() =~= rows);
}

} // verus!
