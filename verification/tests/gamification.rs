use uwu_companion::gamification::achievements::{
    achievement_definition, achievement_statuses, achievements, condition_met,
    evaluate_achievements, AchievementFacts, ACHIEVEMENT_COUNT,
};
use uwu_companion::gamification::level::{
    level_from_xp, level_name, level_progress, total_xp_for_level, xp_required_for_level_up,
    MAX_LEVEL,
};
use uwu_companion::gamification::objectives::{
    acknowledged_objective, acknowledgement_for, acknowledgement_xp, add_coding_secs,
    advance_progress, award_marker_key, daily_objective_templates, objectives_to_award,
    productivity_breakdown, productivity_score, raise_progress, record_acknowledgement,
    refresh_objectives, Acknowledgement,
};
use uwu_companion::gamification::streak::{
    after_rollover, days_from_monday, had_activity, is_streak_milestone, mark_daily_activity,
    midnight_rollover, week_start_day, weekly_summary, Rollover, StreakState,
};
use uwu_companion::gamification::types::{DailyActivity, DailyObjective};
use uwu_companion::gamification::xp::{
    add_achievement_bonus, compose_pet_stats, plan_xp_award, xp_for_coding_session,
};

#[test]
fn level_curve_matches_spec() {
    assert_eq!(xp_required_for_level_up(7), 4900);
    assert_eq!(total_xp_for_level(8), 14000);
    assert_eq!(level_from_xp(3100 + total_xp_for_level(7)), 7);
}

#[test]
fn level_thresholds_and_names() {
    assert_eq!(total_xp_for_level(1), 0);
    assert_eq!(total_xp_for_level(0), 0);
    assert_eq!(total_xp_for_level(2), 100);
    assert_eq!(total_xp_for_level(3), 500);
    assert_eq!(level_from_xp(-50), 1);
    assert_eq!(level_from_xp(0), 1);
    assert_eq!(level_from_xp(99), 1);
    assert_eq!(level_from_xp(100), 2);
    assert_eq!(level_from_xp(499), 2);
    assert_eq!(level_from_xp(500), 3);
    assert_eq!(level_progress(150, 2), (50, 400));
    assert_eq!(level_name(1), "Companion Newcomer");
    assert_eq!(level_name(5), "Companion Apprentice");
    assert_eq!(level_name(9), "Companion Partner");
    assert_eq!(level_name(19), "Companion Veteran");
    assert_eq!(level_name(20), "Companion Legend");
    assert_eq!(level_name(0), "Companion Legend");
}

#[test]
fn highest_level_threshold_fits() {
    assert_eq!(total_xp_for_level(MAX_LEVEL), 9223355627897632900);
}

#[test]
fn level_never_drops_with_more_xp() {
    let mut previous = level_from_xp(0);
    for xp in (0..20_000).step_by(37) {
        let level = level_from_xp(xp);
        assert!(level >= previous);
        let (into, span) = level_progress(xp, level);
        assert!(0 <= into && into < span);
        assert_eq!(span, xp_required_for_level_up(level));
        previous = level;
    }
}

#[test]
fn coding_session_xp_counts_half_hours() {
    assert_eq!(xp_for_coding_session(0), 0);
    assert_eq!(xp_for_coding_session(1799), 0);
    assert_eq!(xp_for_coding_session(1800), 50);
    assert_eq!(xp_for_coding_session(7300), 200);
    assert_eq!(xp_for_coding_session(-1800), -50);
}

#[test]
fn pet_stats_take_the_higher_level() {
    let stats = compose_pet_stats(150, 4, 3, 42);
    assert_eq!(stats.xp, 150);
    assert_eq!(stats.level, 4);
    assert_eq!(stats.streak, 3);
    assert_eq!(stats.productivity_score, 42);
    assert_eq!(stats.xp_into_level, 50);
    assert_eq!(stats.xp_for_next_level, 400);
    assert_eq!(stats.level_name, "Companion Apprentice");
    let stats = compose_pet_stats(600, 1, 0, 0);
    assert_eq!(stats.level, 3);
    assert_eq!(stats.level_name, "Companion Apprentice");
}

#[test]
fn award_plans() {
    let a = plan_xp_award(90, 20);
    assert!(a.applied && a.leveled_up);
    assert_eq!((a.new_xp, a.new_level), (110, 2));
    let b = plan_xp_award(110, 20);
    assert!(b.applied && !b.leveled_up);
    assert_eq!(b.new_level, 2);
    let c = plan_xp_award(110, 0);
    assert!(!c.applied && !c.leveled_up);
    assert_eq!(c.new_xp, 110);
    let d = plan_xp_award(110, -5);
    assert!(!d.applied);
    assert_eq!(add_achievement_bonus(100, 2), (500, 3));
    assert_eq!(add_achievement_bonus(100, 0).0, 100);
}

#[test]
fn two_awards_equal_one() {
    let first = plan_xp_award(40, 30);
    let second = plan_xp_award(first.new_xp, 450);
    let once = plan_xp_award(40, 480);
    assert_eq!(second.new_xp, once.new_xp);
    assert_eq!(second.new_level, once.new_level);
}

fn facts() -> AchievementFacts {
    AchievementFacts {
        finished_sessions: 0,
        hydration_total: 0,
        streak: 0,
        level: 1,
        night_sessions: 0,
        marathon_sessions: 0,
        completed_objectives: 0,
        breaks_total: 0,
        coding_secs_total: 0,
    }
}

#[test]
fn achievement_rules() {
    let mut f = facts();
    assert!(!condition_met("first_session", &f));
    f.finished_sessions = 1;
    assert!(condition_met("first_session", &f));
    f.streak = 7;
    assert!(condition_met("streak_3", &f));
    assert!(condition_met("streak_7", &f));
    assert!(!condition_met("streak_30", &f));
    f.level = 5;
    assert!(condition_met("level_5", &f));
    assert!(!condition_met("level_10", &f));
    f.coding_secs_total = 360_000;
    assert!(condition_met("century_coder", &f));
    f.hydration_total = 9;
    assert!(!condition_met("hydration_hero", &f));
    assert!(!condition_met("unknown", &f));
}

#[test]
fn evaluation_skips_unlocked_and_keeps_order() {
    let mut f = facts();
    f.finished_sessions = 2;
    f.streak = 3;
    f.breaks_total = 10;
    let mut unlocked = vec![false; ACHIEVEMENT_COUNT];
    assert_eq!(evaluate_achievements(&unlocked, &f), vec![0, 2, 10]);
    unlocked[0] = true;
    assert_eq!(evaluate_achievements(&unlocked, &f), vec![2, 10]);
    let all = achievements();
    assert_eq!(all.len(), 12);
    assert_eq!(all[9].id, "goal_getter");
    assert_eq!(achievement_definition(11).name, "Century Coder");
    let mut at = vec![None; ACHIEVEMENT_COUNT];
    at[3] = Some(1700000000);
    let statuses = achievement_statuses(&at);
    assert!(statuses[3].unlocked);
    assert_eq!(statuses[3].unlocked_at, Some(1700000000));
    assert_eq!(statuses[3].id, "streak_7");
    assert!(!statuses[4].unlocked);
}

fn objective(id: i64, category: &str, target: i64, progress: i64, completed: bool) -> DailyObjective {
    DailyObjective {
        id,
        date: "2024-05-06".to_string(),
        title: format!("objective {id}"),
        category: category.to_string(),
        target,
        progress,
        completed,
    }
}

#[test]
fn objective_templates_follow_the_seed() {
    let a = daily_objective_templates(4, 0);
    let cats: Vec<&str> = a.iter().map(|t| t.category.as_str()).collect();
    assert_eq!(cats, vec!["take_breaks", "reach_level", "code_2h"]);
    assert_eq!(a[1].title, "Reach level 5");
    assert_eq!(a[1].target, 5);
    let b = daily_objective_templates(0, 20);
    let cats: Vec<&str> = b.iter().map(|t| t.category.as_str()).collect();
    assert_eq!(cats, vec!["code_2h", "hydrate", "take_breaks"]);
    assert_eq!(b[0].target, 7200);
    assert_eq!(b[1].title, "Drink water 5 times");
    let c = daily_objective_templates(0, 0);
    assert_eq!(c[1].title, "Reach level 2");
}

#[test]
fn progress_updates() {
    let objs = vec![
        objective(1, "code_2h", 7200, 100, false),
        objective(2, "hydrate", 5, 4, false),
        objective(3, "code_2h", 10, 50, true),
    ];
    let raised = raise_progress(&objs, "code_2h", 7300);
    assert_eq!(raised[0].progress, 7300);
    assert!(raised[0].completed);
    assert_eq!(raised[2].progress, 50);
    let lower = raise_progress(&objs, "code_2h", 10);
    assert_eq!(lower[0].progress, 100);
    assert!(!lower[0].completed);
    let again = raise_progress(&raised, "code_2h", 7300);
    assert_eq!(again[0].progress, raised[0].progress);
    let adv = advance_progress(&objs, "hydrate", 1);
    assert_eq!(adv[1].progress, 5);
    assert!(adv[1].completed);
    let activity = DailyActivity {
        coding_secs: 60,
        breaks_taken: 0,
        hydration_acknowledged: 5,
        reminders_acknowledged: 5,
        productivity_score: 0,
    };
    let refreshed = refresh_objectives(&objs, &activity, 3);
    assert_eq!(refreshed[0].progress, 100);
    assert!(refreshed[1].completed);
    assert_eq!(objectives_to_award(&refreshed, &vec![false, false, true]), vec![1]);
    assert_eq!(award_marker_key(42), "objective_awarded_42");
}

#[test]
fn productivity_breakdown_rounds_like_the_float_formula() {
    let b = productivity_breakdown(3600, 1, 2, 2);
    assert_eq!((b.coding, b.breaks, b.hydration, b.goals), (20, 10, 8, 7));
    assert_eq!(productivity_score(&b), 45);
    let full = productivity_breakdown(99999, 9, 9, 9);
    assert_eq!(productivity_score(&full), 100);
    let half = productivity_breakdown(90, 0, 0, 0);
    assert_eq!(half.coding, ((90f64 / 7200.0) * 40.0).round() as i64);
    for c in 0..=7200i64 {
        let x = productivity_breakdown(c, 0, 0, 0).coding;
        assert_eq!(x, ((c as f64 / 7200.0) * 40.0).round() as i64);
    }
}

#[test]
fn acknowledgements() {
    assert_eq!(acknowledgement_for("hydration"), Acknowledgement::Hydration);
    assert_eq!(acknowledgement_for("break"), Acknowledgement::Break);
    assert_eq!(acknowledgement_for("stretch"), Acknowledgement::Other);
    assert_eq!(acknowledgement_xp(Acknowledgement::Hydration), 10);
    assert_eq!(acknowledgement_xp(Acknowledgement::Break), 20);
    assert_eq!(acknowledgement_xp(Acknowledgement::Other), 0);
    assert_eq!(acknowledged_objective(Acknowledgement::Break), Some("take_breaks"));
    let a = DailyActivity {
        coding_secs: 0,
        breaks_taken: 1,
        hydration_acknowledged: 2,
        reminders_acknowledged: 3,
        productivity_score: 0,
    };
    let b = record_acknowledgement(&a, Acknowledgement::Hydration);
    assert_eq!((b.hydration_acknowledged, b.reminders_acknowledged, b.breaks_taken), (3, 4, 1));
    let c = record_acknowledgement(&a, Acknowledgement::Other);
    assert_eq!((c.hydration_acknowledged, c.reminders_acknowledged), (2, 4));
    assert_eq!(add_coding_secs(&a, 120).coding_secs, 120);
}

#[test]
fn streak_rollover() {
    let monday = 19849; // 2024-05-06
    assert_eq!(days_from_monday(monday), 0);
    assert_eq!(days_from_monday(0), 3);
    assert_eq!(days_from_monday(-1), 2);
    assert_eq!(week_start_day(monday + 3), monday);
    let s = StreakState { streak: 2, last_streak_day: Some(monday - 1), last_daily_reset: Some(monday - 1) };
    match midnight_rollover(&s, monday, false) {
        Rollover::Run { streak, award_daily_xp, milestone, finalize_week } => {
            assert_eq!(streak, 3);
            assert!(award_daily_xp);
            assert_eq!(milestone, Some(3));
            assert_eq!(finalize_week, Some(monday - 7));
            let after = after_rollover(&s, monday, streak);
            assert_eq!(midnight_rollover(&after, monday, true), Rollover::AlreadyDone);
        }
        Rollover::AlreadyDone => panic!("rollover expected"),
    }
    let lapsed = StreakState { streak: 5, last_streak_day: Some(monday - 4), last_daily_reset: None };
    assert_eq!(
        midnight_rollover(&lapsed, monday + 1, false),
        Rollover::Run { streak: 0, award_daily_xp: false, milestone: None, finalize_week: None }
    );
    let fresh = StreakState { streak: 0, last_streak_day: None, last_daily_reset: None };
    assert_eq!(
        midnight_rollover(&fresh, monday + 1, false),
        Rollover::Run { streak: 0, award_daily_xp: false, milestone: None, finalize_week: None }
    );
    assert_eq!(mark_daily_activity(&fresh, monday).last_streak_day, Some(monday));
    assert!(is_streak_milestone(14) && !is_streak_milestone(15));
    assert!(had_activity(0, 0, 1) && !had_activity(0, 0, 0));
    let w = weekly_summary("2024-05-06".to_string(), 3599, 55, 4, 1);
    assert_eq!(w.coding_minutes, 59);
    assert_eq!(w.score, 55);
}

#[test]
fn objectives_are_created_once_a_day() {
    let created = uwu_companion::gamification::objectives::objectives_to_create(0, 4, 20);
    let cats: Vec<&str> = created.iter().map(|t| t.category.as_str()).collect();
    assert_eq!(cats, vec!["code_2h", "hydrate", "take_breaks"]);
    assert!(uwu_companion::gamification::objectives::objectives_to_create(3, 4, 20).is_empty());
}
