//! Records exchanged by the progression features, and the XP each event is
//! worth.
use vstd::prelude::*;

verus! {

pub const XP_CODING_PER_30_MIN: i64 = 50;

pub const XP_OBJECTIVE_COMPLETE: i64 = 100;

pub const XP_HYDRATION_ACK: i64 = 10;

pub const XP_BREAK_ON_TIME: i64 = 20;

pub const XP_STREAK_DAILY: i64 = 25;

pub const XP_ACHIEVEMENT: i64 = 200;

#[derive(Debug, Clone)]
pub struct PetStats {
    pub xp: i64,
    pub level: i64,
    pub streak: i64,
    pub productivity_score: i64,
    pub xp_into_level: i64,
    pub xp_for_next_level: i64,
    pub level_name: String,
}

#[derive(Debug, Clone)]
pub struct DailyObjective {
    pub id: i64,
    pub date: String,
    pub title: String,
    pub category: String,
    pub target: i64,
    pub progress: i64,
    pub completed: bool,
}

#[derive(Debug, Clone)]
pub struct AchievementStatus {
    pub id: String,
    pub name: String,
    pub description: String,
    pub icon: String,
    pub unlocked: bool,
    pub unlocked_at: Option<i64>,
}

#[derive(Debug, Clone)]
pub struct WeeklySummary {
    pub week_start: String,
    pub coding_minutes: i64,
    pub score: i64,
    pub objectives_completed: i64,
    pub achievements_unlocked: i64,
}

#[derive(Debug, Clone, Copy, PartialEq, Eq, Structural)]
pub struct ProductivityBreakdown {
    pub coding: i64,
    pub breaks: i64,
    pub hydration: i64,
    pub goals: i64,
}

#[derive(Debug, Clone)]
pub struct AwardXpResult {
    pub stats: PetStats,
    pub leveled_up: bool,
    pub new_level: Option<i64>,
    pub achievements_unlocked: Vec<AchievementStatus>,
}

#[derive(Debug, Clone)]
pub struct AwardXpInput {
    pub amount: i64,
    pub reason: String,
}

#[derive(Debug, Clone)]
pub struct AcknowledgeReminderInput {
    pub reminder_id: i64,
    pub category: String,
}

/// One day's activity counters (a row of the daily activity table).
#[derive(Debug, Clone, Copy, PartialEq, Eq, Structural)]
pub struct DailyActivity {
    pub coding_secs: i64,
    pub breaks_taken: i64,
    pub hydration_acknowledged: i64,
    pub reminders_acknowledged: i64,
    pub productivity_score: i64,
}

} // verus!
