use game_time_manager::overlay::{overlay_visible, show_schedule};

#[test]
fn schedule_follows_pattern() {
    let steps = show_schedule(&vec![5, -2, 0, 3], &"1h 5m".to_string());
    let got: Vec<(String, u64)> = steps.into_iter().map(|s| (s.text, s.sleep_secs)).collect();
    assert_eq!(
        got,
        vec![
            ("1h 5m".to_string(), 5),
            (String::new(), 2),
            (String::new(), 0),
            ("1h 5m".to_string(), 3),
            (String::new(), 0),
        ]
    );
}

#[test]
fn empty_pattern_only_hides() {
    let steps = show_schedule(&Vec::new(), &"0h 0m".to_string());
    assert_eq!(steps.len(), 1);
    assert_eq!(steps[0].text, "");
    assert_eq!(steps[0].sleep_secs, 0);
    let steps = show_schedule(&vec![i32::MAX, i32::MIN + 1], &"x".to_string());
    assert_eq!(steps[0].sleep_secs, 2_147_483_647);
    assert_eq!(steps[1].sleep_secs, 2_147_483_647);
}

#[test]
fn visibility_follows_text() {
    assert!(!overlay_visible(&String::new()));
    assert!(overlay_visible(&"0h 0m".to_string()));
}
