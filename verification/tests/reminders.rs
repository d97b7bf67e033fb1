use uwu_companion::reminders::{
    cron_reminder_due, due_reminders, excitement_after_reminder, mark_fired,
    random_message_minutes, reconcile_mood, reminder_is_due, saturating_sub, CronLookup, is_pollable,
    InteractionState, MoodState, PetMood, Reminder,
};

fn reminder(expr: &str, enabled: bool, last_fired: Option<i64>) -> Reminder {
    Reminder {
        id: 1,
        title: "Stretch".to_string(),
        message: "Time to stretch".to_string(),
        cron_expr: expr.to_string(),
        enabled,
        category: "health".to_string(),
        last_fired,
    }
}

#[test]
fn mood_names_round_trip() {
    for mood in [PetMood::Happy, PetMood::Neutral, PetMood::Sad, PetMood::Excited, PetMood::Sleepy] {
        assert_eq!(PetMood::from_str(mood.as_str()), mood);
    }
    assert_eq!(PetMood::from_str("grumpy"), PetMood::Happy);
    assert_eq!(PetMood::Sleepy.as_str(), "sleepy");
}

#[test]
fn saturating_subtraction() {
    assert_eq!(saturating_sub(10, 3), 7);
    assert_eq!(saturating_sub(i64::MIN, 1), i64::MIN);
    assert_eq!(saturating_sub(i64::MAX, -1), i64::MAX);
}

#[test]
fn every_reminders_follow_their_interval() {
    assert!(reminder_is_due(&reminder("@every:5", true, None), 1000));
    assert!(!reminder_is_due(&reminder("@every:5", true, Some(1000)), 1299));
    assert!(reminder_is_due(&reminder("@every:5", true, Some(1000)), 1300));
    // An unparsable interval means 30 minutes.
    assert!(!reminder_is_due(&reminder("@every:abc", true, Some(0)), 1799));
    assert!(reminder_is_due(&reminder("@every:abc", true, Some(0)), 1800));
    assert!(!reminder_is_due(&reminder("@every:5", false, None), 1000));
}

#[test]
fn cron_reminders_use_the_schedule() {
    // Fires at second 0 of every minute.
    let every_minute = "0 * * * * *";
    assert!(reminder_is_due(&reminder(every_minute, true, None), 1_700_000_000));
    assert!(reminder_is_due(&reminder(every_minute, true, Some(1_700_000_000)), 1_700_000_120));
    assert!(!reminder_is_due(&reminder(every_minute, true, Some(1_700_000_000)), 1_700_000_001));
    assert!(!reminder_is_due(&reminder("not a schedule", true, None), 1_700_000_000));
    assert!(!reminder_is_due(&reminder(every_minute, false, None), 1_700_000_000));
}

#[test]
fn cron_decision_from_a_lookup() {
    assert!(!cron_reminder_due(None, CronLookup::Invalid, 10));
    assert!(cron_reminder_due(None, CronLookup::Next { from: 0, next: Some(99) }, 10));
    assert!(!cron_reminder_due(None, CronLookup::Next { from: 0, next: None }, 10));
    assert!(cron_reminder_due(Some(0), CronLookup::Next { from: 0, next: Some(10) }, 10));
    assert!(!cron_reminder_due(Some(0), CronLookup::Next { from: 0, next: Some(11) }, 10));
    assert!(!cron_reminder_due(Some(0), CronLookup::Next { from: 0, next: None }, 10));
}

#[test]
fn due_reminders_lists_positions_in_order() {
    let list = vec![
        reminder("@every:5", true, None),
        reminder("@every:5", false, None),
        reminder("@every:5", true, Some(900)),
        reminder("@every:1", true, Some(900)),
    ];
    assert_eq!(due_reminders(&list, 1000), vec![0, 3]);
    assert!(due_reminders(&Vec::new(), 1000).is_empty());
}

#[test]
fn firing_records_the_time_and_excites_the_pet() {
    let fired = mark_fired(&reminder("@every:5", true, None), 77);
    assert_eq!(fired.last_fired, Some(77));
    assert_eq!(fired.title, "Stretch");
    assert!(!reminder_is_due(&fired, 77));
    assert_eq!(excitement_after_reminder(100), (PetMood::Excited, Some(400)));
}

#[test]
fn mood_drifts_with_inactivity() {
    let state = MoodState { mood: PetMood::Happy, last_interaction: 0, excitement_until: None };
    let r = reconcile_mood(state, 601, 12);
    assert_eq!(r.state.mood, PetMood::Neutral);
    assert_eq!(r.store_mood, Some(PetMood::Neutral));
    assert_eq!(reconcile_mood(state, 1801, 12).state.mood, PetMood::Sad);
    assert_eq!(reconcile_mood(state, 901, 23).state.mood, PetMood::Sleepy);
    assert_eq!(reconcile_mood(state, 901, 5).state.mood, PetMood::Sleepy);
    assert_eq!(reconcile_mood(state, 901, 6).state.mood, PetMood::Neutral);
    let calm = reconcile_mood(state, 600, 12);
    assert_eq!(calm.state.mood, PetMood::Happy);
    assert_eq!(calm.store_mood, None);
}

#[test]
fn excitement_lasts_until_its_deadline() {
    let excited =
        MoodState { mood: PetMood::Excited, last_interaction: 0, excitement_until: Some(300) };
    let held = reconcile_mood(excited, 299, 3);
    assert_eq!(held.state.mood, PetMood::Excited);
    assert!(!held.excitement_expired);
    assert_eq!(held.store_mood, None);
    let over = reconcile_mood(excited, 300, 12);
    assert!(over.excitement_expired);
    assert_eq!(over.state.mood, PetMood::Happy);
    // A second reconciliation at the same moment writes nothing new.
    assert_eq!(reconcile_mood(over.state, 300, 12).store_mood, None);
}

#[test]
fn idle_event_goes_out_once_per_absence() {
    let mut s = InteractionState::new(0);
    assert!(!s.check_idle(299, 5));
    assert!(s.check_idle(300, 5));
    assert!(!s.check_idle(400, 5));
    s.touch(500);
    assert!(!s.check_idle(700, 5));
    assert!(s.check_idle(800, 5));
}

#[test]
fn random_message_delay_stays_in_range() {
    assert_eq!(random_message_minutes(10, 20, 25), 15);
    assert_eq!(random_message_minutes(10, 10, 12345), 10);
    for now in 0..50 {
        let m = random_message_minutes(5, 8, now);
        assert!((5..8).contains(&m));
    }
}

#[test]
fn pollable_reminders() {
    assert!(is_pollable(&reminder("@every:5", true, None), 1000));
    assert!(!is_pollable(&reminder("@every:153722867280912931", true, None), 1000));
    assert!(is_pollable(&reminder("0 * * * * *", true, Some(5)), 1000));
    assert!(!is_pollable(&reminder("0 * * * * *", true, Some(8210266876799)), 1000));
    assert!(!is_pollable(&reminder("@every:5", true, None), 8210266876799));
}

#[test]
fn due_listing_includes_due_cron_reminders() {
    let every_minute = "0 * * * * *";
    let list = vec![
        reminder(every_minute, true, Some(1_700_000_000)),
        reminder(every_minute, true, Some(1_700_000_100)),
        reminder("nonsense", true, None),
        reminder(every_minute, false, None),
        reminder(every_minute, true, None),
    ];
    assert_eq!(due_reminders(&list, 1_700_000_120), vec![0, 4]);
}
