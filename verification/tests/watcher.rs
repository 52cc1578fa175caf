use game_time_manager::ignore::IgnoreError;
use game_time_manager::watcher::{
    after_send, looks_like_game, quiet_period, should_track, track_decision, Game, ProcessSnapshot,
    ScreenRect, Watcher,
};

fn snapshot(pid: u32, name: &str, run_time: u64) -> ProcessSnapshot {
    ProcessSnapshot { pid, name: name.to_string(), run_time }
}

#[test]
fn game_new_starts_empty() {
    let g = Game::new("game.exe".to_string(), "Some Game".to_string());
    assert_eq!(g.name, "game.exe");
    assert_eq!(g.friendly_name, "Some Game");
    assert_eq!(g.focus_time_total, 0);
    assert_eq!(g.focus_time_7_days, 0);
    assert_eq!(g.run_time_total, 0);
    assert_eq!(g.run_time_7_days, 0);
    assert!(g.sessions.is_empty());
}

#[test]
fn watcher_new_is_empty() {
    let w = Watcher::new();
    assert!(w.games().is_empty());
    assert!(!w.contains_game(&"game.exe".to_string()));
}

#[test]
fn watch() {
    // A new process is recorded, stays quiet for the first period, and is
    // reported once the period has passed.
    let mut w = Watcher::new();
    let mut last_shown = None;
    let p = snapshot(4242, "powershell.exe", 0);
    let first = w.record(&mut last_shown, &p, "PowerShell".to_string(), 1_000, 1);
    assert_eq!(first, None);
    assert_eq!(last_shown, Some(1_000));
    let second = w.record(&mut last_shown, &p, "ignored".to_string(), 2_000, 1);
    assert_eq!(second.as_deref(), Some("0h 0m"));
    assert_eq!(w.games().last().unwrap().name, "powershell.exe");
    assert_eq!(w.games().last().unwrap().friendly_name, "PowerShell");
}

#[test]
fn new_session_waits_a_period() {
    let mut w = Watcher::new();
    let mut last_shown = None;
    let msg = w.record(&mut last_shown, &snapshot(10, "game.exe", 5), "Game".to_string(), 50_000, 60);
    assert_eq!(msg, None);
    assert_eq!(last_shown, Some(50_000));
    let g = &w.games()[0];
    assert_eq!(g.sessions.len(), 1);
    assert_eq!(g.sessions[0].pid, 10);
    assert_eq!(g.sessions[0].run_time, 0);
    assert_eq!(g.sessions[0].focus_spans.len(), 1);
    assert_eq!(g.sessions[0].focus_spans[0].start, Some(50_000));
    assert_eq!(g.sessions[0].focus_spans[0].end, None);
}

#[test]
fn zero_period_notifies_at_once() {
    let mut w = Watcher::new();
    let mut last_shown = None;
    let msg = w.record(&mut last_shown, &snapshot(10, "game.exe", 3_725), "Game".to_string(), 7, 0);
    assert_eq!(msg.as_deref(), Some("1h 2m"));
    assert_eq!(w.games()[0].sessions[0].run_time, 3_725);
}

#[test]
fn notifies_after_the_period() {
    let mut w = Watcher::new();
    let mut last_shown = None;
    let p = snapshot(10, "game.exe", 100);
    assert_eq!(w.record(&mut last_shown, &p, String::new(), 0, 60), None);
    let p = snapshot(10, "game.exe", 159);
    assert_eq!(w.record(&mut last_shown, &p, String::new(), 59_999, 60), None);
    assert_eq!(w.games()[0].sessions[0].run_time, 0);
    let p = snapshot(10, "game.exe", 7_260);
    assert_eq!(w.record(&mut last_shown, &p, String::new(), 60_000, 60).as_deref(), Some("2h 1m"));
    assert_eq!(w.games()[0].sessions[0].run_time, 7_260);
    // the period restarts only once the message was delivered
    assert_eq!(last_shown, Some(0));
    after_send(&mut last_shown, true, 60_001);
    assert_eq!(last_shown, Some(60_001));
    assert_eq!(w.record(&mut last_shown, &p, String::new(), 61_000, 60), None);
}

#[test]
fn failed_send_keeps_last_shown() {
    let mut last_shown = Some(5);
    after_send(&mut last_shown, false, 100);
    assert_eq!(last_shown, Some(5));
    let mut never = None;
    after_send(&mut never, false, 100);
    assert_eq!(never, None);
}

#[test]
fn new_process_opens_new_session() {
    let mut w = Watcher::new();
    let mut last_shown = None;
    w.record(&mut last_shown, &snapshot(1, "game.exe", 0), "Game".to_string(), 0, 0);
    w.record(&mut last_shown, &snapshot(1, "game.exe", 30), "Other".to_string(), 10, 0);
    w.record(&mut last_shown, &snapshot(2, "game.exe", 40), "Other".to_string(), 20, 0);
    assert_eq!(w.games().len(), 1);
    let g = &w.games()[0];
    assert_eq!(g.friendly_name, "Game");
    assert_eq!(g.sessions.len(), 2);
    assert_eq!(g.sessions[0].pid, 1);
    assert_eq!(g.sessions[0].run_time, 30);
    assert_eq!(g.sessions[1].pid, 2);
    assert_eq!(g.sessions[1].run_time, 40);
}

#[test]
fn games_are_kept_apart() {
    let mut w = Watcher::new();
    let mut last_shown = None;
    w.record(&mut last_shown, &snapshot(1, "a.exe", 0), "A".to_string(), 0, 0);
    w.record(&mut last_shown, &snapshot(2, "b.exe", 0), "B".to_string(), 0, 0);
    w.record(&mut last_shown, &snapshot(3, "a.exe", 0), "A2".to_string(), 0, 0);
    assert_eq!(w.games().len(), 2);
    assert_eq!(w.games()[0].name, "a.exe");
    assert_eq!(w.games()[0].friendly_name, "A");
    assert_eq!(w.games()[0].sessions.len(), 2);
    assert_eq!(w.games()[1].name, "b.exe");
    assert_eq!(w.games()[1].sessions.len(), 1);
    assert!(w.contains_game(&"b.exe".to_string()));
    assert!(!w.contains_game(&"c.exe".to_string()));
}

#[test]
fn quiet_period_boundaries() {
    assert!(!quiet_period(None, 10, 5));
    assert!(quiet_period(Some(0), 4_999, 5));
    assert!(!quiet_period(Some(0), 5_000, 5));
    // a clock that reads earlier counts as no time passed
    assert!(quiet_period(Some(10_000), 0, 1));
    assert!(!quiet_period(Some(10_000), 0, 0));
    assert!(quiet_period(Some(0), u64::MAX, u64::MAX));
}

#[test]
fn tracking_decisions() {
    let ignore = vec!["^explorer\\.exe$".to_string(), "chrome".to_string()];
    assert_eq!(should_track(&None, 1, &ignore), Ok(false));
    assert_eq!(should_track(&Some(snapshot(7, "game.exe", 0)), 7, &ignore), Ok(false));
    assert_eq!(should_track(&Some(snapshot(7, "game.exe", 0)), 8, &ignore), Ok(true));
    assert_eq!(should_track(&Some(snapshot(7, "explorer.exe", 0)), 8, &ignore), Ok(false));
    assert_eq!(should_track(&Some(snapshot(7, "googlechrome.exe", 0)), 8, &ignore), Ok(false));
    assert_eq!(should_track(&Some(snapshot(7, "my_explorer.exe", 0)), 8, &ignore), Ok(true));
    assert_eq!(should_track(&Some(snapshot(7, "game.exe", 0)), 8, &Vec::new()), Ok(true));
}

#[test]
fn invalid_ignore_pattern_is_an_error() {
    let ignore = vec!["(unclosed".to_string()];
    assert_eq!(should_track(&Some(snapshot(7, "game.exe", 0)), 8, &ignore), Err(IgnoreError::InvalidPattern));
    // the list is not looked at for the watcher's own process or no process
    assert_eq!(should_track(&Some(snapshot(7, "game.exe", 0)), 7, &ignore), Ok(false));
    assert_eq!(should_track(&None, 7, &ignore), Ok(false));
}

#[test]
fn fullscreen_without_notifications_is_a_game() {
    let monitor = ScreenRect { left: 0, top: 0, right: 1920, bottom: 1080 };
    let full = ScreenRect { left: 0, top: 0, right: 1920, bottom: 1080 };
    let bigger = ScreenRect { left: -8, top: -8, right: 1928, bottom: 1088 };
    let window = ScreenRect { left: 100, top: 100, right: 800, bottom: 600 };
    assert!(looks_like_game(false, full, monitor));
    assert!(looks_like_game(false, bigger, monitor));
    assert!(!looks_like_game(true, full, monitor));
    assert!(!looks_like_game(false, window, monitor));
}

#[test]
fn decision_after_ignore_check() {
    let p = Some(snapshot(7, "game.exe", 0));
    assert!(track_decision(&p, 8, false));
    assert!(!track_decision(&p, 8, true));
    assert!(!track_decision(&p, 7, false));
    assert!(!track_decision(&None, 7, false));
}

#[test]
fn showings_over_a_run_are_a_period_apart() {
    // period of 2 s; polls every 500 ms
    let mut w = Watcher::new();
    let mut last_shown = None;
    let p = snapshot(3, "game.exe", 600);
    let mut delivered_at = Vec::new();
    let mut now = 0u64;
    while now <= 10_000 {
        if let Some(text) = w.record(&mut last_shown, &p, "Game".to_string(), now, 2) {
            assert_eq!(text, "0h 10m");
            after_send(&mut last_shown, true, now);
            delivered_at.push(now);
        }
        now += 500;
    }
    // the first poll starts the session and holds the overlay back 2 s
    assert_eq!(delivered_at, vec![2_000, 4_000, 6_000, 8_000, 10_000]);
}
