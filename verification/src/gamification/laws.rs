//! Properties that hold across the progression operations.
use vstd::prelude::*;
use super::level::{
    is_level_of, lemma_level_monotone, lemma_level_of, lemma_total_xp_strictly_increasing, level_of, total_xp,
    xp_in_range, MAX_LEVEL,
};
use super::achievements::{
    condition_holds, is_newly_unlocked, AchievementFacts, ACHIEVEMENT_COUNT,
};
use super::objectives::{advanced, raised};
use super::streak::{rollover, Rollover, StreakState};
use super::types::DailyObjective;

verus! {

/// An award of XP never lowers the level.
pub proof fn lemma_award_never_lowers_level(previous_xp: int, amount: int)
    requires
        amount > 0,
        xp_in_range(previous_xp + amount),
    ensures
        level_of(previous_xp) <= level_of(previous_xp + amount),
{
    lemma_level_monotone(previous_xp, previous_xp + amount);
}

/// Reaching a level's threshold exactly puts the pet at that level, and one
/// XP less leaves it on the level below.
pub proof fn lemma_threshold_reaches_level(level: int)
    requires
        2 <= level < MAX_LEVEL,
    ensures
        level_of(total_xp(level)) == level,
        level_of(total_xp(level) - 1) == level - 1,
{
    lemma_total_xp_strictly_increasing(level, MAX_LEVEL as int);
    lemma_total_xp_strictly_increasing(level, level + 1);
    lemma_total_xp_strictly_increasing(level - 1, level);
    lemma_level_of(total_xp(level));
    lemma_level_of(total_xp(level) - 1);
    assert(is_level_of(total_xp(level), level));
    assert(is_level_of(total_xp(level) - 1, level - 1));
}

/// Two awards in a row leave the pet where a single award of their sum does.
pub proof fn lemma_awards_compose(previous_xp: int, a: int, b: int)
    ensures
        level_of((previous_xp + a) + b) == level_of(previous_xp + (a + b)),
{
    assert((previous_xp + a) + b == previous_xp + (a + b));
}

/// The midnight rollover runs at most once a day: right after it ran, running
/// it again the same day does nothing.
pub proof fn lemma_rollover_once_per_day(
    state: StreakState,
    today: i64,
    active_yesterday: bool,
    active_again: bool,
)
    requires
        rollover(state, today as int, active_yesterday) is Run,
    ensures
        rollover(
            StreakState {
                streak: rollover(state, today as int, active_yesterday)->streak,
                last_daily_reset: Some(today),
                ..state
            },
            today as int,
            active_again,
        ) == Rollover::AlreadyDone,
{
}

/// The rollover either extends the streak by one day, resets it, or keeps it.
pub proof fn lemma_rollover_streak_change(state: StreakState, today: int, active_yesterday: bool)
    requires
        state.streak < i64::MAX,
        rollover(state, today, active_yesterday) is Run,
    ensures
        ({
            let s = rollover(state, today, active_yesterday)->streak;
            s == state.streak + 1 || s == 0 || s == state.streak
        }),
        rollover(state, today, active_yesterday)->award_daily_xp <==> rollover(
            state,
            today,
            active_yesterday,
        )->streak == state.streak + 1 && (active_yesterday || state.last_streak_day == Some(
            (today - 1) as i64,
        )),
{
}

/// Raising progress is idempotent, never lowers progress and never un-completes
/// an objective.
pub proof fn lemma_raise_progress_monotone(o: DailyObjective, category: Seq<char>, p: i64)
    ensures
        raised(raised(o, category, p), category, p) == raised(o, category, p),
        raised(o, category, p).progress >= o.progress,
        o.completed ==> raised(o, category, p).completed,
        raised(o, category, p).target == o.target && raised(o, category, p).id == o.id,
{
}

/// A completed objective no longer advances.
pub proof fn lemma_completed_objective_frozen(o: DailyObjective, category: Seq<char>, amount: i64)
    requires
        o.completed,
    ensures
        advanced(o, category, amount) == o,
        raised(o, category, amount) == o,
{
}

/// Every counter of `later` is at least the one of `earlier`.
pub open spec fn facts_grew(earlier: AchievementFacts, later: AchievementFacts) -> bool {
    &&& earlier.finished_sessions <= later.finished_sessions
    &&& earlier.hydration_total <= later.hydration_total
    &&& earlier.streak <= later.streak
    &&& earlier.level <= later.level
    &&& earlier.night_sessions <= later.night_sessions
    &&& earlier.marathon_sessions <= later.marathon_sessions
    &&& earlier.completed_objectives <= later.completed_objectives
    &&& earlier.breaks_total <= later.breaks_total
    &&& earlier.coding_secs_total <= later.coding_secs_total
}

/// An achievement's rule, once met, stays met as the counters grow.
pub proof fn lemma_condition_stays_met(id: Seq<char>, earlier: AchievementFacts, later: AchievementFacts)
    requires
        facts_grew(earlier, later),
        condition_holds(id, earlier),
    ensures
        condition_holds(id, later),
{
}

/// Each achievement unlocks once: after the newly unlocked ones are recorded,
/// evaluating again with the same counters unlocks nothing more.
pub proof fn lemma_achievements_unlock_once(unlocked: Seq<bool>, facts: AchievementFacts)
    requires
        unlocked.len() == ACHIEVEMENT_COUNT,
    ensures
        ({
            let after = Seq::new(
                ACHIEVEMENT_COUNT as nat,
                |i: int| unlocked[i] || is_newly_unlocked(unlocked, facts, i),
            );
            forall|i: int| 0 <= i < ACHIEVEMENT_COUNT ==> !#[trigger] is_newly_unlocked(after, facts, i)
        }),
{
}

/// The midnight rollover in full: on a day it already ran it does nothing;
/// otherwise the stored streak grows by one when yesterday had activity or
/// was the last streak day, drops to 0 when an earlier streak lapsed, and
/// stays otherwise, and once that is stored with today as the reset day a
/// second run the same day does nothing.
pub proof fn lemma_rollover_outcome(state: StreakState, today: i64, active_yesterday: bool, again: bool)
    requires
        state.streak < i64::MAX,
        today > i64::MIN,
    ensures
        state.last_daily_reset == Some(today) ==> rollover(state, today as int, active_yesterday)
            == Rollover::AlreadyDone,
        state.last_daily_reset != Some(today) ==> {
            let expected = if active_yesterday || state.last_streak_day == Some((today - 1) as i64) {
                state.streak + 1
            } else if state.last_streak_day is Some {
                0
            } else {
                state.streak as int
            };
            &&& rollover(state, today as int, active_yesterday) matches Rollover::Run { streak, .. }
                && streak == expected
            &&& rollover(
                StreakState { streak: expected as i64, last_daily_reset: Some(today), ..state },
                today as int,
                again,
            ) == Rollover::AlreadyDone
        },
{
}

} // verus!
