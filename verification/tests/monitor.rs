use uwu_companion::monitor::{memory_megabytes, total_bytes};
use uwu_companion::monitor::{
    coding_activity, detect_app_name, extract_app_name, is_coding_window, match_process_name,
    match_window_title, poll_due, AlertKind, AlertState, BatteryReading, CodingTracker, Reading,
    SessionStep,
};

#[test]
fn detects_antigravity_window_and_process() {
    assert_eq!(
        match_window_title("main.rs - project - Antigravity IDE"),
        Some("Antigravity IDE")
    );
    assert_eq!(match_process_name("Antigravity IDE.exe"), Some("Antigravity IDE"));
    assert_eq!(match_process_name("Antigravity.exe"), Some("Antigravity IDE"));
}

#[test]
fn cursor_window_still_matches() {
    assert!(is_coding_window("index.ts - uwu-companion - Cursor"));
}

#[test]
fn window_titles_are_matched_case_insensitively_after_trimming() {
    assert_eq!(match_window_title("  lib.rs - VISUAL STUDIO CODE  "), Some("Visual Studio Code"));
    assert_eq!(match_window_title("main.py - Code - OSS"), Some("Visual Studio Code"));
    assert_eq!(match_window_title("Inbox - Mail"), None);
    assert_eq!(match_window_title(""), None);
    // The first tool in table order wins.
    assert_eq!(match_window_title("vim and neovim"), Some("Neovim"));
}

#[test]
fn process_names_must_match_exactly() {
    assert_eq!(match_process_name("Code.exe"), Some("Visual Studio Code"));
    assert_eq!(match_process_name(" idea64.exe "), Some("IntelliJ IDEA"));
    assert_eq!(match_process_name("gvim.exe"), Some("Vim"));
    assert_eq!(match_process_name("code"), None);
    assert_eq!(match_process_name("mycode.exe"), None);
}

#[test]
fn app_names_of_windows() {
    assert_eq!(detect_app_name("a.rs - Zed"), "Zed");
    assert_eq!(detect_app_name("Notepad"), "Unknown IDE");
    assert_eq!(extract_app_name(" Slack - general "), "Slack");
    assert_eq!(extract_app_name("  Finder  "), "Finder");
}

#[test]
fn coding_activity_prefers_the_foreground_window() {
    let a = coding_activity(Some("x.ts - Cursor"), Some("Zed".to_string()));
    assert!(a.is_active);
    assert_eq!(a.app_name.as_deref(), Some("Cursor"));
    assert_eq!(a.session_context.as_deref(), Some("x.ts - Cursor"));

    let b = coding_activity(Some("Browser"), Some("Zed".to_string()));
    assert!(b.is_active);
    assert_eq!(b.app_name.as_deref(), Some("Zed"));
    assert_eq!(b.session_context.as_deref(), Some("Browser"));

    let c = coding_activity(None, Some("Zed".to_string()));
    assert_eq!(c.session_context.as_deref(), Some("Zed (running in background)"));

    let d = coding_activity(Some("Browser"), None);
    assert!(!d.is_active);
    assert_eq!(d.app_name, None);
}

#[test]
fn polls_are_spaced_by_the_interval() {
    let mut last = None;
    assert!(poll_due(&mut last, 1000, 50));
    assert_eq!(last, Some(50));
    assert!(!poll_due(&mut last, 1000, 1049));
    assert_eq!(last, Some(50));
    assert!(poll_due(&mut last, 1000, 1050));
    assert_eq!(last, Some(1050));
    // A clock that went backwards counts as no time elapsed.
    assert!(!poll_due(&mut last, 1000, 10));
}

#[test]
fn session_lifecycle() {
    let mut t = CodingTracker::new();
    assert!(matches!(t.plan_session_step(), SessionStep::Idle));

    t.apply_window_title(Some("main.rs - Zed"));
    assert!(t.cached_active);
    match t.plan_session_step() {
        SessionStep::Start { title, app_name } => {
            assert_eq!(title, "main.rs - Zed");
            assert_eq!(app_name, "Zed");
        }
        other => panic!("unexpected step {:?}", other),
    }
    assert_eq!(t.session_started(7, "Zed".to_string(), 1000), "Zed");
    assert!(matches!(t.plan_session_step(), SessionStep::Continue));
    t.continue_session(1090);
    assert!(t.session_active);
    assert_eq!(t.session_duration_secs, 90);

    // A non-coding window keeps an open session alive.
    t.cached_active = false;
    t.apply_window_title(Some("Browser"));
    assert!(t.cached_active);

    t.cached_active = false;
    match t.plan_session_step() {
        SessionStep::End { session_id } => assert_eq!(session_id, 7),
        other => panic!("unexpected step {:?}", other),
    }
    assert_eq!(t.take_session_id(), Some(7));
    assert_eq!(t.session_ended(), Some("Zed".to_string()));
    assert!(!t.session_active);
    assert_eq!(t.session_duration_secs, 0);
    assert!(matches!(t.plan_session_step(), SessionStep::Idle));
}

#[test]
fn high_cpu_alert_waits_ten_seconds_and_fires_once() {
    let mut s = AlertState::new();
    assert!(s.evaluate(true, Reading::AtOrBelow, None, 100).is_empty());
    assert!(s.evaluate(true, Reading::AtOrBelow, None, 109).is_empty());
    assert_eq!(s.evaluate(true, Reading::AtOrBelow, None, 110), vec![AlertKind::HighCpu]);
    assert!(s.evaluate(true, Reading::AtOrBelow, None, 200).is_empty());
    assert!(s.evaluate(false, Reading::AtOrBelow, None, 201).is_empty());
    assert_eq!(s.high_cpu_since, None);
}

#[test]
fn ram_and_battery_alerts_rearm() {
    let mut s = AlertState::new();
    assert_eq!(s.evaluate(false, Reading::Above, None, 0), vec![AlertKind::HighRam]);
    assert!(s.evaluate(false, Reading::Above, None, 1).is_empty());
    assert!(s.evaluate(false, Reading::Unordered, None, 2).is_empty());
    assert!(s.evaluate(false, Reading::AtOrBelow, None, 3).is_empty());
    assert_eq!(s.evaluate(false, Reading::Above, None, 4), vec![AlertKind::HighRam]);

    let mut b = AlertState::new();
    assert_eq!(
        b.evaluate(false, Reading::AtOrBelow, Some(BatteryReading::Low), 0),
        vec![AlertKind::LowBattery]
    );
    assert_eq!(
        b.evaluate(false, Reading::AtOrBelow, Some(BatteryReading::Critical), 1),
        vec![AlertKind::CriticalBattery]
    );
    assert!(b.evaluate(false, Reading::AtOrBelow, Some(BatteryReading::Low), 2).is_empty());
    assert!(b.evaluate(false, Reading::AtOrBelow, Some(BatteryReading::Normal), 3).is_empty());
    assert_eq!(
        b.evaluate(false, Reading::AtOrBelow, Some(BatteryReading::Critical), 4),
        vec![AlertKind::CriticalBattery]
    );
    assert!(b.evaluate(false, Reading::AtOrBelow, Some(BatteryReading::Low), 5).is_empty());
}

#[test]
fn repeated_tick_reports_nothing_new() {
    let mut s = AlertState::new();
    let first = s.evaluate(true, Reading::Above, Some(BatteryReading::Critical), 5);
    assert_eq!(first, vec![AlertKind::HighRam, AlertKind::CriticalBattery]);
    let again = s.evaluate(true, Reading::Above, Some(BatteryReading::Critical), 5);
    assert!(again.is_empty());
}

#[test]
fn closing_a_session_records_its_length() {
    let s = uwu_companion::monitor::CodingSession {
        id: 3,
        app_name: "Zed".to_string(),
        window_title: None,
        started_at: 1000,
        ended_at: None,
        duration_secs: None,
    };
    let closed = uwu_companion::monitor::close_session(s, 1600);
    assert_eq!(closed.ended_at, Some(1600));
    assert_eq!(closed.duration_secs, Some(600));
    assert_eq!(closed.id, 3);
}

#[test]
fn byte_totals_saturate() {
    assert_eq!(total_bytes(&vec![(10, 20), (5, 7)]), (15, 27));
    assert_eq!(total_bytes(&vec![(u64::MAX - 1, 1), (5, 2)]), (u64::MAX, 3));
    assert_eq!(total_bytes(&Vec::new()), (0, 0));
    assert_eq!(memory_megabytes(3 * 1048576 + 5, 0), (3, 0));
    assert_eq!(memory_megabytes(0, 16 * 1048576), (0, 16));
}

#[test]
fn a_poll_rests_for_its_interval() {
    let mut last = Some(0);
    assert!(poll_due(&mut last, 100, 500));
    assert!(!poll_due(&mut last, 100, 599));
    assert!(poll_due(&mut last, 100, 600));
}
