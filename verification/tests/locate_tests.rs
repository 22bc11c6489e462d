use vr_session_recovery::locate::{find_latest_log, matches_log_name, LogEntry};

fn entry(name: &str, created: u64) -> LogEntry {
    LogEntry { name: name.to_string(), created }
}

#[test]
fn latest_matching_entry_wins() {
    let entries = vec![
        entry("output_log_2024-01-01.txt", 10),
        entry("output_log_2024-03-01.txt", 30),
        entry("output_log_2024-02-01.txt", 20),
    ];
    assert_eq!(find_latest_log(&entries), Some(1));
}

#[test]
fn non_matching_names_are_never_candidates() {
    let entries = vec![
        entry("output_log_2024-01-01.txt", 10),
        entry("Player.log", 999),
        entry("output_log_2024-01-02.log", 998),
        entry("notes_output_log_x.txt.bak", 997),
    ];
    assert_eq!(find_latest_log(&entries), Some(0));
}

#[test]
fn later_timestamp_of_a_non_matching_name_does_not_win() {
    let entries = vec![entry("crash.dmp", 100), entry("output_log_a.txt", 1)];
    assert_eq!(find_latest_log(&entries), Some(1));
}

#[test]
fn empty_directory_yields_none() {
    assert_eq!(find_latest_log(&Vec::new()), None);
}

#[test]
fn no_matching_entry_yields_none() {
    let entries = vec![entry("readme.md", 5), entry("Player.log", 7)];
    assert_eq!(find_latest_log(&entries), None);
}

#[test]
fn equal_timestamps_keep_the_first_match() {
    let entries = vec![
        entry("output_log_a.txt", 10),
        entry("output_log_b.txt", 10),
    ];
    assert_eq!(find_latest_log(&entries), Some(0));
}

#[test]
fn name_pattern_is_prefix_and_suffix() {
    assert!(matches_log_name("output_log_2024.txt"));
    assert!(matches_log_name("output_log_.txt"));
    assert!(!matches_log_name("output_log_2024.log"));
    assert!(!matches_log_name("xoutput_log_2024.txt"));
    assert!(!matches_log_name("output_log"));
    assert!(!matches_log_name(""));
}
