use devinsight::processor::{join_painted, LogProcessor};

#[test]
fn unfiltered_processor_takes_every_line() {
    let p = LogProcessor::new(None, None);
    assert!(p.should_process_log(""));
    assert!(p.should_process_log("anything"));
}

#[test]
fn level_filter_wants_one_of_its_markers() {
    let p = LogProcessor::new(Some(String::from("E")), None);
    assert!(p.should_process_log("01-01 E/Tag( 12): boom"));
    assert!(p.should_process_log("Tag/E boom"));
    assert!(!p.should_process_log("01-01 W/Tag( 12): boom"));
    assert!(!p.should_process_log("E"));
}

#[test]
fn tag_filter_wants_the_tag() {
    let p = LogProcessor::new(Some(String::from("W")), Some(String::from("Net")));
    assert!(p.should_process_log(" W/NetStack: slow"));
    assert!(!p.should_process_log(" W/Disk: slow"));
    assert!(!p.should_process_log(" I/NetStack: slow"));
}

#[test]
fn line_of_unknown_level_is_printed_unpainted() {
    let p = LogProcessor::new(None, None);
    assert_eq!(p.format_log("nothing special"), "❓  nothing special");
}

#[test]
fn painted_line_holds_the_line() {
    let p = LogProcessor::new(None, None);
    let out = p.format_log("01-01 E/Tag: boom");
    assert!(out.contains("01-01 E/Tag: boom"));
    assert!(out.contains("🔴"));
    // From the first painted line on the process colors its output.
    let again = p.format_log("01-01 E/Tag: boom");
    assert!(again.contains("\u{1b}["));
    assert!(again.ends_with("\u{1b}[0m"));
}

#[test]
fn join_puts_two_spaces_between() {
    assert_eq!(join_painted("i", "line"), "i  line");
}

#[test]
fn painted_lines_carry_the_numbers_of_their_colors() {
    colored::control::set_override(true);
    let p = LogProcessor::new(None, None);
    assert_eq!(
        p.format_log("01-01 E/Tag: boom"),
        "\u{1b}[1;31m🔴\u{1b}[0m  \u{1b}[1;91m01-01 E/Tag: boom\u{1b}[0m"
    );
    assert_eq!(
        p.format_log("01-01 W/Tag: hm"),
        "\u{1b}[1;33m⚠️\u{1b}[0m  \u{1b}[1;93m01-01 W/Tag: hm\u{1b}[0m"
    );
    assert_eq!(
        p.format_log("01-01 I/Tag: ok"),
        "\u{1b}[32mℹ️\u{1b}[0m  \u{1b}[92m01-01 I/Tag: ok\u{1b}[0m"
    );
    assert_eq!(
        p.format_log("01-01 D/Tag: dbg"),
        "\u{1b}[34m🔧\u{1b}[0m  \u{1b}[94m01-01 D/Tag: dbg\u{1b}[0m"
    );
    assert_eq!(
        p.format_log("01-01 V/Tag: all"),
        "\u{1b}[37m📝\u{1b}[0m  \u{1b}[97m01-01 V/Tag: all\u{1b}[0m"
    );
    assert_eq!(p.format_log("plain"), "❓  plain");
}

#[test]
fn line_is_left_alone_where_the_process_does_not_color() {
    colored::control::set_override(false);
    let p = LogProcessor::new(None, None);
    assert_eq!(p.format_log("01-01 E/Tag: boom"), "🔴  01-01 E/Tag: boom");
    // Printing a line switches the colors on for the lines after it.
    assert_eq!(
        p.format_log("01-01 I/Tag: ok"),
        "\u{1b}[32mℹ️\u{1b}[0m  \u{1b}[92m01-01 I/Tag: ok\u{1b}[0m"
    );
}
