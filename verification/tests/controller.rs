use devinsight::controller::{clipboard_line, Action, Key, MouseKind, ProbeOutcome};
use devinsight::level::{LogEntry, LogLevel};
use devinsight::pane::{ConnectionStatus, View};
use devinsight::state::AppState;
use devinsight::storage::StorageUpdate;

fn entry(level: LogLevel, tag: &str, message: &str) -> LogEntry {
    LogEntry {
        level,
        timestamp: String::from("03-21 10:23:45"),
        tag: String::from(tag),
        message: String::from(message),
    }
}

fn state_with(n: usize) -> AppState {
    let mut state = AppState::new();
    for i in 0..n {
        state.add_log(entry(LogLevel::Info, "Tag", &format!("message {}", i)));
    }
    state
}

fn is_nothing(action: &Action) -> bool {
    matches!(action, Action::Nothing)
}

#[test]
fn digits_switch_the_pane() {
    let mut state = AppState::new();
    assert!(is_nothing(&state.handle_key(Key::Char('2'), 0)));
    assert_eq!(state.current_view, View::Stats);
    state.handle_key(Key::Char('3'), 0);
    assert_eq!(state.current_view, View::Storage);
    state.handle_key(Key::Char('1'), 0);
    assert_eq!(state.current_view, View::Logs);
}

#[test]
fn q_quits_only_outside_a_search() {
    let mut state = AppState::new();
    assert!(matches!(state.handle_key(Key::Char('q'), 0), Action::Quit));
    state.handle_key(Key::Char('/'), 0);
    assert!(state.search_mode);
    assert!(is_nothing(&state.handle_key(Key::Char('q'), 0)));
    assert_eq!(state.search_query, "q");
}

#[test]
fn space_pauses_and_resumes() {
    let mut state = state_with(2);
    state.handle_key(Key::Char(' '), 0);
    assert!(state.paused);
    state.receive_log(entry(LogLevel::Error, "Tag", "dropped"));
    assert_eq!(state.logs.len(), 2);
    assert_eq!(state.stats.error_count, 0);
    assert_eq!(state.stats.info_count, 2);
    assert_eq!(state.filtered_logs, vec![0, 1]);
    state.handle_key(Key::Char(' '), 0);
    assert!(!state.paused);
    state.receive_log(entry(LogLevel::Error, "Tag", "kept"));
    assert_eq!(state.logs.len(), 3);
    assert_eq!(state.stats.error_count, 1);
}

#[test]
fn tail_mode_follows_new_entries() {
    let mut state = state_with(5);
    assert!(state.tail_mode);
    assert_eq!(state.scroll, 4);
    state.receive_log(entry(LogLevel::Info, "Tag", "next"));
    assert_eq!(state.scroll, 5);
    state.handle_key(Key::Char('t'), 0);
    assert!(!state.tail_mode);
    state.receive_log(entry(LogLevel::Info, "Tag", "more"));
    assert_eq!(state.scroll, 5);
    assert_eq!(state.filtered_logs.len(), 7);
}

#[test]
fn tail_mode_survives_a_filter_change() {
    let mut state = state_with(5);
    state.add_log(entry(LogLevel::Error, "Tag", "boom"));
    state.handle_key(Key::Char('i'), 0);
    assert!(state.tail_mode);
    assert_eq!(state.filtered_logs, vec![5]);
    assert_eq!(state.scroll, 0);
    state.handle_key(Key::Char('e'), 0);
    assert!(state.filtered_logs.is_empty());
    assert_eq!(state.scroll, 0);
    assert!(state.level_filters.iter().all(|l| *l != LogLevel::Error && *l != LogLevel::Info));
    state.handle_key(Key::Char('i'), 0);
    assert_eq!(state.level_filters.last(), Some(&LogLevel::Info));
    assert_eq!(state.filtered_logs, vec![0, 1, 2, 3, 4]);
    assert_eq!(state.scroll, 4);
}

#[test]
fn up_leaves_tail_mode_and_down_at_the_end_returns_to_it() {
    let mut state = state_with(5);
    state.handle_key(Key::Up, 0);
    assert_eq!(state.scroll, 3);
    assert!(!state.tail_mode);
    state.handle_key(Key::Up, 0);
    assert_eq!(state.scroll, 2);
    state.handle_key(Key::Down, 0);
    assert_eq!(state.scroll, 3);
    assert!(!state.tail_mode);
    state.handle_key(Key::Down, 0);
    assert_eq!(state.scroll, 4);
    assert!(state.tail_mode);
    state.handle_key(Key::Down, 0);
    assert_eq!(state.scroll, 4);
    assert!(state.tail_mode);
}

#[test]
fn up_at_the_top_changes_nothing() {
    let mut state = state_with(3);
    state.handle_key(Key::Home, 0);
    assert_eq!(state.scroll, 0);
    assert!(state.tail_mode);
    state.handle_key(Key::Up, 0);
    assert_eq!(state.scroll, 0);
    assert!(state.tail_mode);
}

#[test]
fn page_keys_move_by_ten() {
    let mut state = state_with(35);
    state.handle_key(Key::PageUp, 0);
    assert_eq!(state.scroll, 24);
    assert!(!state.tail_mode);
    state.handle_key(Key::PageUp, 0);
    state.handle_key(Key::PageUp, 0);
    assert_eq!(state.scroll, 4);
    state.handle_key(Key::PageUp, 0);
    assert_eq!(state.scroll, 0);
    state.handle_key(Key::PageDown, 0);
    assert_eq!(state.scroll, 10);
    assert!(!state.tail_mode);
    state.handle_key(Key::PageDown, 0);
    state.handle_key(Key::PageDown, 0);
    assert_eq!(state.scroll, 30);
    state.handle_key(Key::PageDown, 0);
    assert_eq!(state.scroll, 34);
    assert!(state.tail_mode);
}

#[test]
fn home_and_end_jump_without_touching_tail_mode() {
    let mut state = state_with(8);
    state.handle_key(Key::Up, 0);
    assert!(!state.tail_mode);
    state.handle_key(Key::End, 0);
    assert_eq!(state.scroll, 7);
    assert!(!state.tail_mode);
    state.handle_key(Key::Char('g'), 0);
    assert_eq!(state.scroll, 0);
    state.handle_key(Key::Char('G'), 0);
    assert_eq!(state.scroll, 7);
    state.handle_key(Key::Home, 0);
    assert_eq!(state.scroll, 0);
    assert!(!state.tail_mode);
}

#[test]
fn wheel_moves_by_three() {
    let mut state = state_with(10);
    state.handle_mouse(MouseKind::ScrollUp);
    assert_eq!(state.scroll, 6);
    assert!(!state.tail_mode);
    state.handle_mouse(MouseKind::ScrollUp);
    state.handle_mouse(MouseKind::ScrollUp);
    assert_eq!(state.scroll, 0);
    state.handle_mouse(MouseKind::ScrollUp);
    assert_eq!(state.scroll, 0);
    state.handle_mouse(MouseKind::Other);
    assert_eq!(state.scroll, 0);
    state.handle_mouse(MouseKind::ScrollDown);
    assert_eq!(state.scroll, 3);
    assert!(!state.tail_mode);
    state.handle_mouse(MouseKind::ScrollDown);
    state.handle_mouse(MouseKind::ScrollDown);
    assert_eq!(state.scroll, 9);
    assert!(state.tail_mode);
}

#[test]
fn every_search_key_filters_anew() {
    let mut state = AppState::new();
    state.add_log(entry(LogLevel::Info, "Net", "socket opened"));
    state.add_log(entry(LogLevel::Info, "Disk", "sector read"));
    state.add_log(entry(LogLevel::Error, "Net", "SOCKET closed"));
    state.handle_key(Key::Char('/'), 0);
    state.handle_key(Key::Char('s'), 0);
    assert_eq!(state.filtered_logs, vec![0, 1, 2]);
    state.handle_key(Key::Char('o'), 0);
    assert_eq!(state.filtered_logs, vec![0, 2]);
    assert_eq!(state.scroll, 1);
    state.handle_key(Key::Char('x'), 0);
    assert!(state.filtered_logs.is_empty());
    assert_eq!(state.scroll, 0);
    state.handle_key(Key::Backspace, 0);
    assert_eq!(state.search_query, "so");
    assert_eq!(state.filtered_logs, vec![0, 2]);
    state.handle_key(Key::Up, 0);
    assert_eq!(state.search_query, "so");
    assert!(state.tail_mode);
}

#[test]
fn search_matches_tag_and_level_name() {
    let mut state = AppState::new();
    state.add_log(entry(LogLevel::Warning, "Camera", "shutter"));
    state.add_log(entry(LogLevel::Info, "Audio", "warn me"));
    state.add_log(entry(LogLevel::Debug, "Audio", "plain"));
    state.search_query = String::from("CAMERA");
    state.update_filtered_logs();
    assert_eq!(state.filtered_logs, vec![0]);
    state.search_query = String::from("warn");
    state.update_filtered_logs();
    assert_eq!(state.filtered_logs, vec![0, 1]);
    state.search_query = String::from("debug");
    state.update_filtered_logs();
    assert_eq!(state.filtered_logs, vec![2]);
}

#[test]
fn backspace_on_an_empty_query_changes_nothing() {
    let mut state = state_with(2);
    state.handle_key(Key::Char('/'), 0);
    state.handle_key(Key::Backspace, 0);
    assert_eq!(state.search_query, "");
    assert!(state.search_mode);
    assert_eq!(state.filtered_logs, vec![0, 1]);
}

#[test]
fn escape_clears_the_query_and_enter_keeps_it() {
    let mut state = state_with(12);
    state.status_message = Some((String::from("old"), 0));
    state.handle_key(Key::Char('/'), 0);
    state.handle_key(Key::Char('1'), 0);
    assert_eq!(state.filtered_logs, vec![1, 10, 11]);
    match state.handle_key(Key::Enter, 0) {
        Action::Announce(line) => assert_eq!(line, "Confirmed search: 1"),
        _ => panic!("no announcement"),
    }
    assert!(!state.search_mode);
    assert_eq!(state.search_query, "1");
    assert_eq!(state.filtered_logs, vec![1, 10, 11]);
    assert!(state.status_message.is_none());

    state.handle_key(Key::Char('/'), 0);
    match state.handle_key(Key::Esc, 0) {
        Action::Announce(line) => assert_eq!(line, "Exited search mode"),
        _ => panic!("no announcement"),
    }
    assert!(!state.search_mode);
    assert_eq!(state.search_query, "");
    assert_eq!(state.filtered_logs.len(), 12);
    assert_eq!(state.scroll, 11);
}

#[test]
fn y_and_c_hand_out_the_selected_line() {
    let mut state = AppState::new();
    assert!(is_nothing(&state.handle_key(Key::Char('y'), 0)));
    state.add_log(entry(LogLevel::Warning, "Net", "slow"));
    state.add_log(entry(LogLevel::Error, "Disk", "gone"));
    match state.handle_key(Key::Char('y'), 0) {
        Action::Copy(text) => assert_eq!(text, "03-21 10:23:45 [Disk] ERROR: gone"),
        _ => panic!("nothing to copy"),
    }
    state.handle_key(Key::Up, 0);
    match state.handle_key(Key::Char('c'), 0) {
        Action::Copy(text) => assert_eq!(text, "03-21 10:23:45 [Net] WARN: slow"),
        _ => panic!("nothing to copy"),
    }
    assert!(state.status_message.is_none());
    state.copy_confirmed(7);
    assert_eq!(state.status_message, Some((String::from("Log copied to clipboard"), 7)));
    state.scroll = 5;
    assert!(is_nothing(&state.handle_key(Key::Char('y'), 0)));
    assert_eq!(
        clipboard_line(&entry(LogLevel::Unknown, "", "")),
        "03-21 10:23:45 [] UNKNOWN: "
    );
}

#[test]
fn n_switches_announcements() {
    let mut state = AppState::new();
    state.handle_key(Key::Char('n'), 11);
    assert!(!state.notify_on_error);
    assert_eq!(state.status_message, Some((String::from("Notifications disabled"), 11)));
    state.handle_key(Key::Char('n'), 12);
    assert!(state.notify_on_error);
    assert_eq!(state.status_message, Some((String::from("Notifications enabled"), 12)));
}

#[test]
fn keys_without_meaning_change_nothing() {
    let mut state = state_with(3);
    assert!(is_nothing(&state.handle_key(Key::Other, 0)));
    assert!(is_nothing(&state.handle_key(Key::Char('z'), 0)));
    assert!(is_nothing(&state.handle_key(Key::Esc, 0)));
    assert!(is_nothing(&state.handle_key(Key::Enter, 0)));
    assert!(is_nothing(&state.handle_key(Key::Backspace, 0)));
    assert_eq!(state.scroll, 2);
    assert!(state.tail_mode);
    assert!(!state.search_mode);
    assert_eq!(state.level_filters.len(), 5);
}

#[test]
fn probe_outcome_sets_the_link_state() {
    let mut state = AppState::new();
    state.record_probe(ProbeOutcome::Unreachable);
    assert_eq!(state.connection_status, ConnectionStatus::Disconnected);
    state.record_probe(ProbeOutcome::Failed);
    assert_eq!(state.connection_status, ConnectionStatus::Error);
    state.record_probe(ProbeOutcome::Reachable);
    assert_eq!(state.connection_status, ConnectionStatus::Connected);
}

#[test]
fn storage_report_is_taken_over() {
    let mut state = AppState::new();
    state.apply_storage_update(StorageUpdate {
        current_file: String::from("logs/logcat_20240321_102345.jsonl"),
        total_size: 4096,
        file_count: 2,
    });
    let info = state.storage_info.expect("a report");
    assert_eq!(info.current_file, "logs/logcat_20240321_102345.jsonl");
    assert_eq!(info.total_size, 4096);
    assert_eq!(info.file_count, 2);
}

#[test]
fn warm_up_ends_on_the_last_row() {
    let mut state = state_with(4);
    state.tail_mode = false;
    state.scroll = 0;
    state.filtered_logs.clear();
    state.finish_warm_up();
    assert_eq!(state.filtered_logs, vec![0, 1, 2, 3]);
    assert_eq!(state.scroll, 3);
    assert!(!state.tail_mode);
}

#[test]
fn selection_names_the_entry_behind_the_row() {
    let mut state = state_with(6);
    state.toggle_level(LogLevel::Info);
    assert_eq!(state.max_scroll(), 0);
    assert!(state.selected().is_none());
    state.toggle_level(LogLevel::Info);
    assert_eq!(state.max_scroll(), 5);
    assert_eq!(state.selected().expect("an entry").message, "message 5");
    state.handle_key(Key::Home, 0);
    assert_eq!(state.selected().expect("an entry").message, "message 0");
    state.filtered_logs = vec![9];
    assert!(state.selected().is_none());
}
