//! The achievement catalogue and the rules that unlock each achievement.
use vstd::prelude::*;
use crate::text::str_eq;
use super::types::AchievementStatus;

verus! {

#[derive(Debug, Clone)]
pub struct AchievementDefinition {
    pub id: &'static str,
    pub name: &'static str,
    pub description: &'static str,
    pub icon: &'static str,
}

pub const ACHIEVEMENT_COUNT: usize = 12;

/// Identifier, name, description and icon of the achievement at position
/// `index` of the catalogue.
pub open spec fn catalogue_entry(index: int) -> (Seq<char>, Seq<char>, Seq<char>, Seq<char>) {
    if index == 0 {
        ("first_session"@, "First Steps"@, "Complete your first coding session"@, "🚀"@)
    } else if index == 1 {
        ("hydration_hero"@, "Hydration Hero"@, "Acknowledge 10 hydration reminders"@, "💧"@)
    } else if index == 2 {
        ("streak_3"@, "Getting Started"@, "Maintain a 3-day streak"@, "🔥"@)
    } else if index == 3 {
        ("streak_7"@, "Week Warrior"@, "Maintain a 7-day streak"@, "⭐"@)
    } else if index == 4 {
        ("streak_30"@, "Monthly Master"@, "Maintain a 30-day streak"@, "💎"@)
    } else if index == 5 {
        ("level_5"@, "Rising Star"@, "Reach level 5"@, "🌟"@)
    } else if index == 6 {
        ("level_10"@, "Companion Veteran"@, "Reach level 10"@, "🏆"@)
    } else if index == 7 {
        ("night_owl"@, "Night Owl"@, "Code past midnight"@, "🌙"@)
    } else if index == 8 {
        ("marathon"@, "Marathon Coder"@, "Complete a 4+ hour coding session"@, "🏃"@)
    } else if index == 9 {
        ("goal_getter"@, "Goal Getter"@, "Complete your first daily objective"@, "🎯"@)
    } else if index == 10 {
        ("break_master"@, "Break Master"@, "Take 10 breaks on schedule"@, "☕"@)
    } else {
        ("century_coder"@, "Century Coder"@, "Log 100 hours of coding"@, "💻"@)
    }
}

/// Identifier of the achievement at position `index` of the catalogue.
pub open spec fn catalogue_id(index: int) -> Seq<char> {
    catalogue_entry(index).0
}

/// The catalogue entry at `index`, in catalogue order.
pub fn achievement_definition(index: usize) -> (def: AchievementDefinition)
    requires
        index < ACHIEVEMENT_COUNT,
    ensures
        (def.id@, def.name@, def.description@, def.icon@) == catalogue_entry(index as int),
{
    if index == 0 {
        AchievementDefinition {
            id: "first_session",
            name: "First Steps",
            description: "Complete your first coding session",
            icon: "🚀",
        }
    } else if index == 1 {
        AchievementDefinition {
            id: "hydration_hero",
            name: "Hydration Hero",
            description: "Acknowledge 10 hydration reminders",
            icon: "💧",
        }
    } else if index == 2 {
        AchievementDefinition {
            id: "streak_3",
            name: "Getting Started",
            description: "Maintain a 3-day streak",
            icon: "🔥",
        }
    } else if index == 3 {
        AchievementDefinition {
            id: "streak_7",
            name: "Week Warrior",
            description: "Maintain a 7-day streak",
            icon: "⭐",
        }
    } else if index == 4 {
        AchievementDefinition {
            id: "streak_30",
            name: "Monthly Master",
            description: "Maintain a 30-day streak",
            icon: "💎",
        }
    } else if index == 5 {
        AchievementDefinition {
            id: "level_5",
            name: "Rising Star",
            description: "Reach level 5",
            icon: "🌟",
        }
    } else if index == 6 {
        AchievementDefinition {
            id: "level_10",
            name: "Companion Veteran",
            description: "Reach level 10",
            icon: "🏆",
        }
    } else if index == 7 {
        AchievementDefinition {
            id: "night_owl",
            name: "Night Owl",
            description: "Code past midnight",
            icon: "🌙",
        }
    } else if index == 8 {
        AchievementDefinition {
            id: "marathon",
            name: "Marathon Coder",
            description: "Complete a 4+ hour coding session",
            icon: "🏃",
        }
    } else if index == 9 {
        AchievementDefinition {
            id: "goal_getter",
            name: "Goal Getter",
            description: "Complete your first daily objective",
            icon: "🎯",
        }
    } else if index == 10 {
        AchievementDefinition {
            id: "break_master",
            name: "Break Master",
            description: "Take 10 breaks on schedule",
            icon: "☕",
        }
    } else {
        AchievementDefinition {
            id: "century_coder",
            name: "Century Coder",
            description: "Log 100 hours of coding",
            icon: "💻",
        }
    }
}

/// The whole catalogue, in order.
pub fn achievements() -> (defs: Vec<AchievementDefinition>)
    ensures
        defs@.len() == ACHIEVEMENT_COUNT,
        forall|i: int|
            0 <= i < ACHIEVEMENT_COUNT ==> (
            #[trigger] defs@[i].id@,
            defs@[i].name@,
            defs@[i].description@,
            defs@[i].icon@,
        ) == catalogue_entry(i),
{
    let mut defs: Vec<AchievementDefinition> = Vec::new();
    let mut i: usize = 0;
    while i < ACHIEVEMENT_COUNT
        invariant
            i <= ACHIEVEMENT_COUNT,
            defs@.len() == i,
            forall|k: int|
                0 <= k < i ==> (
                #[trigger] defs@[k].id@,
                defs@[k].name@,
                defs@[k].description@,
                defs@[k].icon@,
            ) == catalogue_entry(k),
        decreases ACHIEVEMENT_COUNT - i,
    {
        defs.push(achievement_definition(i));
        i = i + 1;
    }
    defs
}

/// What the unlock rules look at, gathered from the activity history.
#[derive(Debug, Clone, Copy, PartialEq, Eq, Structural)]
pub struct AchievementFacts {
    /// Coding sessions that have ended.
    pub finished_sessions: i64,
    /// Hydration reminders acknowledged, all days together.
    pub hydration_total: i64,
    pub streak: i64,
    pub level: i64,
    /// Sessions started between midnight and 5 am local time.
    pub night_sessions: i64,
    /// Sessions that lasted at least four hours.
    pub marathon_sessions: i64,
    /// Daily objectives ever completed.
    pub completed_objectives: i64,
    /// Breaks taken, all days together.
    pub breaks_total: i64,
    /// Seconds of coding over all sessions.
    pub coding_secs_total: i64,
}

/// The unlock rule of the achievement called `id`; unknown identifiers never
/// unlock.
pub open spec fn condition_holds(id: Seq<char>, facts: AchievementFacts) -> bool {
    if id == "first_session"@ {
        facts.finished_sessions >= 1
    } else if id == "hydration_hero"@ {
        facts.hydration_total >= 10
    } else if id == "streak_3"@ {
        facts.streak >= 3
    } else if id == "streak_7"@ {
        facts.streak >= 7
    } else if id == "streak_30"@ {
        facts.streak >= 30
    } else if id == "level_5"@ {
        facts.level >= 5
    } else if id == "level_10"@ {
        facts.level >= 10
    } else if id == "night_owl"@ {
        facts.night_sessions >= 1
    } else if id == "marathon"@ {
        facts.marathon_sessions >= 1
    } else if id == "goal_getter"@ {
        facts.completed_objectives >= 1
    } else if id == "break_master"@ {
        facts.breaks_total >= 10
    } else if id == "century_coder"@ {
        facts.coding_secs_total >= 360_000
    } else {
        false
    }
}

/// Each achievement unlocks exactly when the count its catalogue description
/// speaks of reaches the number the description names: one finished
/// session, 10 acknowledged hydration reminders, a 3-, 7- or 30-day streak,
/// level 5 or 10, one session past midnight, one session of four hours or
/// more, one completed daily objective, 10 breaks, and 100 hours
/// (360000 seconds) of coding.
#[verifier::spinoff_prover]
pub proof fn lemma_rules_match_descriptions(facts: AchievementFacts)
    ensures
        catalogue_entry(0).2 == "Complete your first coding session"@
            && (condition_holds(catalogue_id(0), facts) <==> facts.finished_sessions >= 1),
        catalogue_entry(1).2 == "Acknowledge 10 hydration reminders"@
            && (condition_holds(catalogue_id(1), facts) <==> facts.hydration_total >= 10),
        catalogue_entry(2).2 == "Maintain a 3-day streak"@
            && (condition_holds(catalogue_id(2), facts) <==> facts.streak >= 3),
        catalogue_entry(3).2 == "Maintain a 7-day streak"@
            && (condition_holds(catalogue_id(3), facts) <==> facts.streak >= 7),
        catalogue_entry(4).2 == "Maintain a 30-day streak"@
            && (condition_holds(catalogue_id(4), facts) <==> facts.streak >= 30),
        catalogue_entry(5).2 == "Reach level 5"@
            && (condition_holds(catalogue_id(5), facts) <==> facts.level >= 5),
        catalogue_entry(6).2 == "Reach level 10"@
            && (condition_holds(catalogue_id(6), facts) <==> facts.level >= 10),
        catalogue_entry(7).2 == "Code past midnight"@
            && (condition_holds(catalogue_id(7), facts) <==> facts.night_sessions >= 1),
        catalogue_entry(8).2 == "Complete a 4+ hour coding session"@
            && (condition_holds(catalogue_id(8), facts) <==> facts.marathon_sessions >= 1),
        catalogue_entry(9).2 == "Complete your first daily objective"@
            && (condition_holds(catalogue_id(9), facts) <==> facts.completed_objectives >= 1),
        catalogue_entry(10).2 == "Take 10 breaks on schedule"@
            && (condition_holds(catalogue_id(10), facts) <==> facts.breaks_total >= 10),
        catalogue_entry(11).2 == "Log 100 hours of coding"@
            && (condition_holds(catalogue_id(11), facts) <==> facts.coding_secs_total >= 360_000),
{
    reveal_strlit("first_session");
    reveal_strlit("hydration_hero");
    reveal_strlit("streak_3");
    reveal_strlit("streak_7");
    reveal_strlit("streak_30");
    reveal_strlit("level_5");
    reveal_strlit("level_10");
    reveal_strlit("night_owl");
    reveal_strlit("marathon");
    reveal_strlit("goal_getter");
    reveal_strlit("break_master");
    reveal_strlit("century_coder");
    assert("first_session"@.len() == 13 && "first_session"@[0] == 'f');
    assert("hydration_hero"@.len() == 14);
    assert("streak_3"@.len() == 8 && "streak_3"@[0] == 's' && "streak_3"@[7] == '3');
    assert("streak_7"@.len() == 8 && "streak_7"@[0] == 's' && "streak_7"@[7] == '7');
    assert("streak_30"@.len() == 9 && "streak_30"@[0] == 's');
    assert("level_5"@.len() == 7);
    assert("level_10"@.len() == 8 && "level_10"@[0] == 'l');
    assert("night_owl"@.len() == 9 && "night_owl"@[0] == 'n');
    assert("marathon"@.len() == 8 && "marathon"@[0] == 'm');
    assert("goal_getter"@.len() == 11);
    assert("break_master"@.len() == 12);
    assert("century_coder"@.len() == 13 && "century_coder"@[0] == 'c');
}

pub fn condition_met(id: &str, facts: &AchievementFacts) -> (met: bool)
    ensures
        met == condition_holds(id@, *facts),
{
    if str_eq(id, "first_session") {
        facts.finished_sessions >= 1
    } else if str_eq(id, "hydration_hero") {
        facts.hydration_total >= 10
    } else if str_eq(id, "streak_3") {
        facts.streak >= 3
    } else if str_eq(id, "streak_7") {
        facts.streak >= 7
    } else if str_eq(id, "streak_30") {
        facts.streak >= 30
    } else if str_eq(id, "level_5") {
        facts.level >= 5
    } else if str_eq(id, "level_10") {
        facts.level >= 10
    } else if str_eq(id, "night_owl") {
        facts.night_sessions >= 1
    } else if str_eq(id, "marathon") {
        facts.marathon_sessions >= 1
    } else if str_eq(id, "goal_getter") {
        facts.completed_objectives >= 1
    } else if str_eq(id, "break_master") {
        facts.breaks_total >= 10
    } else if str_eq(id, "century_coder") {
        facts.coding_secs_total >= 360_000
    } else {
        false
    }
}

/// Positions in the catalogue, in order, of the achievements that are still
/// locked and whose rule now holds.
pub open spec fn is_newly_unlocked(unlocked: Seq<bool>, facts: AchievementFacts, i: int) -> bool {
    !unlocked[i] && condition_holds(catalogue_id(i), facts)
}

pub fn evaluate_achievements(unlocked: &Vec<bool>, facts: &AchievementFacts) -> (fresh: Vec<usize>)
    requires
        unlocked@.len() == ACHIEVEMENT_COUNT,
    ensures
        forall|k: int| 0 <= k < fresh@.len() ==> #[trigger] fresh@[k] < ACHIEVEMENT_COUNT
            && is_newly_unlocked(unlocked@, *facts, fresh@[k] as int),
        forall|j: int, k: int| 0 <= j < k < fresh@.len() ==> fresh@[j] < fresh@[k],
        forall|i: int|
            0 <= i < ACHIEVEMENT_COUNT && is_newly_unlocked(unlocked@, *facts, i) ==> fresh@.contains(
                i as usize,
            ),
{
    let mut fresh: Vec<usize> = Vec::new();
    let mut i: usize = 0;
    while i < ACHIEVEMENT_COUNT
        invariant
            unlocked@.len() == ACHIEVEMENT_COUNT,
            i <= ACHIEVEMENT_COUNT,
            forall|k: int| 0 <= k < fresh@.len() ==> #[trigger] fresh@[k] < i
                && is_newly_unlocked(unlocked@, *facts, fresh@[k] as int),
            forall|j: int, k: int| 0 <= j < k < fresh@.len() ==> fresh@[j] < fresh@[k],
            forall|q: int|
                0 <= q < i && is_newly_unlocked(unlocked@, *facts, q) ==> fresh@.contains(
                    q as usize,
                ),
        decreases ACHIEVEMENT_COUNT - i,
    {
        let def = achievement_definition(i);
        if !unlocked[i] && condition_met(def.id, facts) {
            let ghost before = fresh@;
            fresh.push(i);
            assert forall|q: int|
                0 <= q < i + 1 && is_newly_unlocked(unlocked@, *facts, q) implies fresh@.contains(
                q as usize,
            ) by {
                if q < i {
                    let w = choose|w: int| 0 <= w < before.len() && before[w] == q as usize;
                    assert(fresh@[w] == q as usize);
                } else {
                    assert(fresh@[fresh@.len() - 1] == q as usize);
                }
            }
        }
        i = i + 1;
    }
    fresh
}

/// The status of catalogue entry `index`, unlocked at `unlocked_at` if at all.
pub fn achievement_status(index: usize, unlocked_at: Option<i64>) -> (status: AchievementStatus)
    requires
        index < ACHIEVEMENT_COUNT,
    ensures
        (status.id@, status.name@, status.description@, status.icon@) == catalogue_entry(index as int),
        status.unlocked == unlocked_at.is_some(),
        status.unlocked_at == unlocked_at,
{
    let def = achievement_definition(index);
    AchievementStatus {
        id: def.id.to_string(),
        name: def.name.to_string(),
        description: def.description.to_string(),
        icon: def.icon.to_string(),
        unlocked: unlocked_at.is_some(),
        unlocked_at,
    }
}

/// The status of every achievement, given when each was unlocked.
pub fn achievement_statuses(unlocked_at: &Vec<Option<i64>>) -> (all: Vec<AchievementStatus>)
    requires
        unlocked_at@.len() == ACHIEVEMENT_COUNT,
    ensures
        all@.len() == ACHIEVEMENT_COUNT,
        forall|i: int|
            0 <= i < ACHIEVEMENT_COUNT ==> (
            #[trigger] all@[i].id@,
            all@[i].name@,
            all@[i].description@,
            all@[i].icon@,
        ) == catalogue_entry(i) && all@[i].unlocked == unlocked_at@[i].is_some() && all@[i].unlocked_at
                == unlocked_at@[i],
{
    let mut all: Vec<AchievementStatus> = Vec::new();
    let mut i: usize = 0;
    while i < ACHIEVEMENT_COUNT
        invariant
            unlocked_at@.len() == ACHIEVEMENT_COUNT,
            i <= ACHIEVEMENT_COUNT,
            all@.len() == i,
            forall|k: int|
                0 <= k < i ==> (
                #[trigger] all@[k].id@,
                all@[k].name@,
                all@[k].description@,
                all@[k].icon@,
            ) == catalogue_entry(k) && all@[k].unlocked == unlocked_at@[k].is_some()
                    && all@[k].unlocked_at == unlocked_at@[k],
        decreases ACHIEVEMENT_COUNT - i,
    {
        let status = achievement_status(i, unlocked_at[i]);
        let ghost prev = all@;
        all.push(status);
        assert(all@[i as int] == status);
        assert forall|k: int| 0 <= k < i + 1 implies (
            #[trigger] all@[k].id@,
            all@[k].name@,
            all@[k].description@,
            all@[k].icon@,
        ) == catalogue_entry(k) && all@[k].unlocked == unlocked_at@[k].is_some()
            && all@[k].unlocked_at == unlocked_at@[k] by {
            if k < i {
                assert(all@[k] == prev[k]);
            }
        }
        i = i + 1;
    }
    all
}

} // verus!
