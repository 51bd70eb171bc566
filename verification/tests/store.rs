use devinsight::level::{LogEntry, LogLevel};
use devinsight::state::{level_enabled, matches_filter, AppState};

fn entry(level: LogLevel, tag: &str, message: &str) -> LogEntry {
    LogEntry {
        level,
        timestamp: String::from("03-21 10:23:45"),
        tag: String::from(tag),
        message: String::from(message),
    }
}

#[test]
fn new_state_is_empty_and_tails() {
    let state = AppState::new();
    assert_eq!(state.logs.len(), 0);
    assert!(state.filtered_logs.is_empty());
    assert_eq!(state.scroll, 0);
    assert!(state.tail_mode);
    assert!(!state.paused);
    assert_eq!(state.level_filters.len(), 5);
    assert!(!state.level_filters.contains(&LogLevel::Unknown));
}

#[test]
fn store_never_exceeds_capacity() {
    let mut state = AppState::new();
    for i in 0..10000 {
        state.add_log(entry(LogLevel::Info, "T", &format!("m{}", i)));
    }
    assert_eq!(state.logs.len(), 10000);
    state.add_log(entry(LogLevel::Info, "T", "m10000"));
    assert_eq!(state.logs.len(), 9001);
    assert_eq!(state.logs[0].message, "m1000");
    assert_eq!(state.logs[9000].message, "m10000");
    assert_eq!(state.stats.info_count, 10001);
}

#[test]
fn paused_state_drops_entries() {
    let mut state = AppState::new();
    state.add_log(entry(LogLevel::Error, "T", "first"));
    state.paused = true;
    state.add_log(entry(LogLevel::Error, "T", "second"));
    assert_eq!(state.logs.len(), 1);
    assert_eq!(state.stats.error_count, 1);
    assert_eq!(state.filtered_logs, vec![0]);
}

#[test]
fn only_errors_remain_after_other_levels_are_switched_off() {
    let mut state = AppState::new();
    let levels = [
        LogLevel::Error,
        LogLevel::Warning,
        LogLevel::Info,
        LogLevel::Error,
        LogLevel::Debug,
        LogLevel::Verbose,
        LogLevel::Error,
        LogLevel::Info,
    ];
    for (i, level) in levels.iter().enumerate() {
        state.add_log(entry(*level, "T", &format!("m{}", i)));
    }
    state.toggle_level(LogLevel::Warning);
    state.toggle_level(LogLevel::Info);
    state.toggle_level(LogLevel::Debug);
    state.toggle_level(LogLevel::Verbose);
    assert_eq!(state.filtered_logs.len(), 3);
    assert_eq!(state.filtered_logs, vec![0, 3, 6]);
    assert_eq!(state.scroll, 2);
}

#[test]
fn search_finds_two_of_a_hundred() {
    let mut state = AppState::new();
    for i in 0..100 {
        let message = if i == 17 || i == 64 {
            format!("line {} has a Needle in it", i)
        } else {
            format!("line {}", i)
        };
        state.add_log(entry(LogLevel::Info, "T", &message));
    }
    state.search_query = String::from("needle");
    state.update_filtered_logs();
    assert_eq!(state.filtered_logs.len(), 2);
    assert_eq!(state.filtered_logs, vec![17, 64]);
    assert_eq!(state.scroll, 1);
}

#[test]
fn store_hands_out_entries_by_position() {
    let mut state = AppState::new();
    assert_eq!(state.len(), 0);
    assert!(state.get(0).is_none());
    state.add_log(entry(LogLevel::Info, "T", "first"));
    state.add_log(entry(LogLevel::Debug, "T", "second"));
    assert_eq!(state.len(), 2);
    assert_eq!(state.get(0).expect("an entry").message, "first");
    assert_eq!(state.get(1).expect("an entry").level, LogLevel::Debug);
    assert!(state.get(2).is_none());
}

#[test]
fn retained_count_climbs_from_9001_to_10000() {
    let mut state = AppState::new();
    let mut lengths = Vec::new();
    for i in 0..12005 {
        state.add_log(entry(LogLevel::Verbose, "T", &format!("m{}", i)));
        if i + 1 >= 9999 && (i + 1) % 1000 <= 1 {
            lengths.push((i + 1, state.logs.len()));
        }
        assert!(state.logs.len() <= 10000);
    }
    assert_eq!(
        lengths,
        vec![(10000, 10000), (10001, 9001), (11000, 10000), (11001, 9001), (12000, 10000), (12001, 9001)]
    );
    assert_eq!(state.logs.len(), 9005);
    assert_eq!(state.logs[0].message, "m3000");
    assert_eq!(state.logs[9004].message, "m12004");
    assert_eq!(state.filtered_logs.len(), 9005);
    assert_eq!(state.scroll, 9004);
}

#[test]
fn full_counter_is_reported() {
    let mut state = AppState::new();
    assert!(state.can_take(LogLevel::Error));
    state.stats.error_count = usize::MAX;
    assert!(!state.can_take(LogLevel::Error));
    assert!(state.can_take(LogLevel::Warning));
    assert!(state.can_take(LogLevel::Unknown));
    state.paused = true;
    assert!(state.can_take(LogLevel::Error));
}

#[test]
fn toggling_twice_moves_the_level_to_the_end() {
    let mut state = AppState::new();
    state.toggle_level(LogLevel::Warning);
    assert_eq!(
        state.level_filters,
        vec![LogLevel::Error, LogLevel::Info, LogLevel::Debug, LogLevel::Verbose]
    );
    state.toggle_level(LogLevel::Warning);
    assert_eq!(
        state.level_filters,
        vec![LogLevel::Error, LogLevel::Info, LogLevel::Debug, LogLevel::Verbose, LogLevel::Warning]
    );
    state.toggle_level(LogLevel::Unknown);
    assert_eq!(state.level_filters.len(), 6);
}

#[test]
fn filtering_twice_gives_the_same_rows() {
    let mut state = AppState::new();
    for i in 0..20 {
        let level = if i % 3 == 0 { LogLevel::Error } else { LogLevel::Info };
        state.add_log(entry(level, "T", &format!("m{}", i)));
    }
    state.toggle_level(LogLevel::Info);
    state.search_query = String::from("M1");
    state.update_filtered_logs();
    let once = state.filtered_logs.clone();
    let scroll = state.scroll;
    state.update_filtered_logs();
    assert_eq!(state.filtered_logs, once);
    assert_eq!(state.scroll, scroll);
    assert_eq!(once, vec![12, 15, 18]);
}

#[test]
fn matching_is_decided_entry_by_entry() {
    let levels = vec![LogLevel::Error, LogLevel::Debug];
    assert!(level_enabled(&levels, LogLevel::Debug));
    assert!(!level_enabled(&levels, LogLevel::Info));
    assert!(!level_enabled(&Vec::new(), LogLevel::Error));
    let e = entry(LogLevel::Error, "Radio", "Signal LOST");
    assert!(matches_filter(&e, &levels, ""));
    assert!(matches_filter(&e, &levels, "lost"));
    assert!(matches_filter(&e, &levels, "RADIO"));
    assert!(matches_filter(&e, &levels, "err"));
    assert!(!matches_filter(&e, &levels, "found"));
    assert!(!matches_filter(&e, &vec![LogLevel::Info], ""));
}

#[test]
fn switching_off_the_only_level_empties_the_view() {
    let mut state = AppState::new();
    state.add_log(entry(LogLevel::Error, "T", "boom"));
    state.add_log(entry(LogLevel::Info, "T", "fine"));
    state.level_filters = vec![LogLevel::Error];
    state.update_filtered_logs();
    assert_eq!(state.filtered_logs, vec![0]);
    state.toggle_level(LogLevel::Error);
    assert!(state.level_filters.is_empty());
    assert!(state.filtered_logs.is_empty());
    assert_eq!(state.scroll, 0);
    assert_eq!(state.logs.len(), 2);
}

#[test]
fn unknown_entries_are_stored_but_not_counted_or_shown() {
    let mut state = AppState::new();
    state.add_log(entry(LogLevel::Unknown, "T", "?"));
    assert_eq!(state.logs.len(), 1);
    assert!(state.filtered_logs.is_empty());
    assert_eq!(state.stats.error_count, 0);
    assert_eq!(state.stats.warning_count, 0);
    assert_eq!(state.stats.info_count, 0);
    assert_eq!(state.stats.debug_count, 0);
    assert_eq!(state.stats.verbose_count, 0);
    state.toggle_level(LogLevel::Unknown);
    assert_eq!(state.filtered_logs, vec![0]);
}
