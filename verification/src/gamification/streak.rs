//! Daily streaks, the midnight rollover and weekly summaries. Days are
//! counted as whole days since 1970-01-01 in local time.
use vstd::prelude::*;
use super::types::WeeklySummary;

verus! {

/// The streak columns of the pet's state.
#[derive(Debug, Clone, Copy, PartialEq, Eq, Structural)]
pub struct StreakState {
    pub streak: i64,
    /// Last day on which the user did something that keeps the streak going.
    pub last_streak_day: Option<i64>,
    /// Last day on which the midnight rollover ran.
    pub last_daily_reset: Option<i64>,
}

/// What the midnight rollover does on a given day.
#[derive(Debug, Clone, Copy, PartialEq, Eq, Structural)]
pub enum Rollover {
    /// The rollover already ran today: nothing to do.
    AlreadyDone,
    Run {
        /// The streak to store.
        streak: i64,
        /// Whether the daily streak XP is awarded.
        award_daily_xp: bool,
        /// The milestone reached, if the new streak is one.
        milestone: Option<i64>,
        /// First day of the week whose summary is finalised, on Mondays.
        finalize_week: Option<i64>,
    },
}

/// Streak lengths that are celebrated.
pub open spec fn is_milestone(streak: int) -> bool {
    streak == 3 || streak == 7 || streak == 14 || streak == 30
}

pub fn is_streak_milestone(streak: i64) -> (b: bool)
    ensures
        b == is_milestone(streak as int),
{
    streak == 3 || streak == 7 || streak == 14 || streak == 30
}

/// A day had activity when a reminder was acknowledged, code was written or a
/// coding session started on it.
pub fn had_activity(reminders_acknowledged: i64, coding_secs: i64, sessions: i64) -> (b: bool)
    ensures
        b == (reminders_acknowledged > 0 || coding_secs > 0 || sessions > 0),
{
    reminders_acknowledged > 0 || coding_secs > 0 || sessions > 0
}

/// Day of the week, Monday being 0 (1970-01-01 was a Thursday).
pub open spec fn weekday(day: int) -> int {
    (day + 3) % 7
}

pub fn days_from_monday(day: i64) -> (d: i64)
    ensures
        d == weekday(day as int),
        0 <= d < 7,
{
    let r = day % 7;
    let r = if r < 0 {
        r + 7
    } else {
        r
    };
    (r + 3) % 7
}

/// First day (Monday) of the week holding `day`.
pub fn week_start_day(day: i64) -> (start: i64)
    requires
        day >= i64::MIN + 7,
    ensures
        start == day - weekday(day as int),
        weekday(start as int) == 0,
{
    day - days_from_monday(day)
}

/// The rollover rule: once per day, the streak grows when yesterday had
/// activity or yesterday was the last streak day, and is reset to 0 when it
/// lapsed after having started; each growth earns the daily streak XP. On
/// Mondays the previous week is finalised.
pub open spec fn rollover(state: StreakState, today: int, active_yesterday: bool) -> Rollover {
    if state.last_daily_reset == Some(today as i64) {
        Rollover::AlreadyDone
    } else {
        let grows = active_yesterday || state.last_streak_day == Some((today - 1) as i64);
        let streak = if grows {
            state.streak + 1
        } else if state.last_streak_day.is_some() {
            0
        } else {
            state.streak as int
        };
        Rollover::Run {
            streak: streak as i64,
            award_daily_xp: grows,
            milestone: if grows && is_milestone(streak) {
                Some(streak as i64)
            } else {
                None
            },
            finalize_week: if weekday(today) == 0 {
                Some((today - 7) as i64)
            } else {
                None
            },
        }
    }
}

pub fn midnight_rollover(state: &StreakState, today: i64, active_yesterday: bool) -> (r: Rollover)
    requires
        today >= i64::MIN + 7,
        state.streak < i64::MAX,
    ensures
        r == rollover(*state, today as int, active_yesterday),
{
    if state.last_daily_reset == Some(today) {
        return Rollover::AlreadyDone;
    }
    let yesterday = today - 1;
    let grows = active_yesterday || state.last_streak_day == Some(yesterday);
    let streak = if grows {
        state.streak + 1
    } else if state.last_streak_day.is_some() {
        0
    } else {
        state.streak
    };
    let milestone = if grows && is_streak_milestone(streak) {
        Some(streak)
    } else {
        None
    };
    let finalize_week = if days_from_monday(today) == 0 {
        Some(today - 7)
    } else {
        None
    };
    Rollover::Run { streak, award_daily_xp: grows, milestone, finalize_week }
}

/// The state stored after the rollover ran on `today`.
pub fn after_rollover(state: &StreakState, today: i64, streak: i64) -> (s: StreakState)
    ensures
        s == (StreakState { streak, last_daily_reset: Some(today), ..*state }),
{
    StreakState { streak, last_daily_reset: Some(today), ..*state }
}

/// Activity today keeps the streak alive: today becomes the last streak day.
pub fn mark_daily_activity(state: &StreakState, today: i64) -> (s: StreakState)
    ensures
        s == (StreakState { last_streak_day: Some(today), ..*state }),
{
    StreakState { last_streak_day: Some(today), ..*state }
}

/// The summary row of a week from its totals: coding time is reported in whole
/// minutes (Rust division).
pub fn weekly_summary(
    week_start: String,
    coding_secs: i64,
    score: i64,
    objectives_completed: i64,
    achievements_unlocked: i64,
) -> (s: WeeklySummary)
    ensures
        s.week_start == week_start,
        s.coding_minutes == (if coding_secs >= 0 {
            coding_secs / 60
        } else {
            -((-coding_secs) / 60)
        }),
        s.score == score,
        s.objectives_completed == objectives_completed,
        s.achievements_unlocked == achievements_unlocked,
{
    WeeklySummary {
        week_start,
        coding_minutes: coding_secs / 60,
        score,
        objectives_completed,
        achievements_unlocked,
    }
}

} // verus!
