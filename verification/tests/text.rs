use game_time_manager::text::{clean_exe_path, format_run_time, push_decimal, remove_all_occurrences};

#[test]
fn run_time_formats() {
    assert_eq!(format_run_time(0), "0h 0m");
    assert_eq!(format_run_time(59), "0h 0m");
    assert_eq!(format_run_time(60), "0h 1m");
    assert_eq!(format_run_time(3_599), "0h 59m");
    assert_eq!(format_run_time(3_600), "1h 0m");
    assert_eq!(format_run_time(45_296), "12h 34m");
    assert_eq!(format_run_time(u64::MAX), "5124095576030431h 0m");
}

#[test]
fn decimal_digits() {
    let mut s = String::from("n=");
    push_decimal(&mut s, 1_234_567_890);
    assert_eq!(s, "n=1234567890");
    let mut z = String::new();
    push_decimal(&mut z, 0);
    assert_eq!(z, "0");
}

#[test]
fn verbatim_prefix_is_removed() {
    assert_eq!(clean_exe_path(r"\\?\C:\Games\GameTimeManager.exe"), r"C:\Games\GameTimeManager.exe");
    assert_eq!(clean_exe_path(r"C:\Games\x.exe"), r"C:\Games\x.exe");
    assert_eq!(clean_exe_path(r"\\?\\\?\a"), "a");
    assert_eq!(clean_exe_path(""), "");
}

#[test]
fn removal_matches_std_replace() {
    for (s, p) in [("aaaa", "aa"), ("abcabc", "bc"), ("ééaé", "é"), ("xyz", ""), ("", "a"), ("aaa", "aa")] {
        assert_eq!(remove_all_occurrences(s, p), s.replace(p, ""), "{} {}", s, p);
    }
}
