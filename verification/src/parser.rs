//! Turns one raw line of the device log into a `LogEntry`.
//!
//! A line is a header, a colon and a message. The header is cut into words
//! at whitespace: its first two words are the time stamp, its last word but
//! one is the tag. The level is read off marker texts anywhere in the line.
//! The markers are plain substrings, so a message that happens to hold one
//! of them decides the level too.

use crate::clock::{entry_stamp_now, is_entry_stamp};
use crate::level::{EntryModel, LogEntry, LogLevel};
use crate::text::{
    chars_of, contains, contains_chars, cut, find_char, first_index_of, lemma_first_index_of,
    push_chars, string_of, trim_range, trimmed, word_ranges, words,
};
use vstd::prelude::*;

verus! {

/// The level of a line: that of the first pair of markers, from `Error` down
/// to `Verbose`, of which one occurs in the line.
pub open spec fn classify(line: Seq<char>) -> LogLevel {
    if contains(line, " E "@) || contains(line, "Error"@) {
        LogLevel::Error
    } else if contains(line, " W "@) || contains(line, "Warning"@) {
        LogLevel::Warning
    } else if contains(line, " I "@) || contains(line, "Info"@) {
        LogLevel::Info
    } else if contains(line, " D "@) || contains(line, "Debug"@) {
        LogLevel::Debug
    } else if contains(line, " V "@) || contains(line, "Verbose"@) {
        LogLevel::Verbose
    } else {
        LogLevel::Unknown
    }
}

/// The part of the line before its first colon; the whole line where it has
/// none.
pub open spec fn header_of(line: Seq<char>) -> Seq<char> {
    line.subrange(0, first_index_of(line, ':'))
}

/// The part of the line after its first colon, trimmed; the whole line,
/// untrimmed, where it has no colon.
pub open spec fn message_of(line: Seq<char>) -> Seq<char> {
    let colon = first_index_of(line, ':');
    if colon < line.len() {
        trimmed(line.subrange(colon + 1, line.len() as int))
    } else {
        line
    }
}

/// The first two words of the header with a space between them, if the
/// header has two words.
pub open spec fn stamp_of(line: Seq<char>) -> Option<Seq<char>> {
    let w = words(header_of(line));
    if w.len() >= 2 {
        Some(w[0].push(' ') + w[1])
    } else {
        None
    }
}

/// The last word but one of the header; `UNKNOWN` where the header has no
/// two words.
pub open spec fn tag_of(line: Seq<char>) -> Seq<char> {
    let w = words(header_of(line));
    if w.len() >= 2 {
        w[w.len() - 2]
    } else {
        "UNKNOWN"@
    }
}

/// The entry that `line` stands for. `fallback` is the time stamp of an
/// entry whose line has none.
pub open spec fn parsed(line: Seq<char>, fallback: Seq<char>) -> EntryModel {
    EntryModel {
        level: classify(line),
        timestamp: match stamp_of(line) {
            Some(stamp) => stamp,
            None => fallback,
        },
        tag: tag_of(line),
        message: message_of(line),
    }
}

/// Whether one of the two markers occurs in the line.
fn has_marker(line: &Vec<char>, letter: &str, word: &str) -> (b: bool)
    ensures
        b == (contains(line@, letter@) || contains(line@, word@)),
{
    let l = chars_of(letter);
    if contains_chars(line, &l) {
        return true;
    }
    let w = chars_of(word);
    contains_chars(line, &w)
}

/// The level of a line.
pub fn classify_line(line: &Vec<char>) -> (level: LogLevel)
    ensures
        level == classify(line@),
{
    if has_marker(line, " E ", "Error") {
        LogLevel::Error
    } else if has_marker(line, " W ", "Warning") {
        LogLevel::Warning
    } else if has_marker(line, " I ", "Info") {
        LogLevel::Info
    } else if has_marker(line, " D ", "Debug") {
        LogLevel::Debug
    } else if has_marker(line, " V ", "Verbose") {
        LogLevel::Verbose
    } else {
        LogLevel::Unknown
    }
}

/// What a line yields without looking at the clock.
struct Parts {
    level: LogLevel,
    stamp: Option<String>,
    tag: String,
    message: String,
}

fn parse_parts(log: &str) -> (parts: Parts)
    ensures
        parts.level == classify(log@),
        parts.tag@ == tag_of(log@),
        parts.message@ == message_of(log@),
        match parts.stamp {
            Some(stamp) => stamp_of(log@) == Some(stamp@),
            None => stamp_of(log@).is_none(),
        },
{
    let chars = chars_of(log);
    let colon = find_char(&chars, ':');
    proof {
        lemma_first_index_of(chars@, ':');
    }
    let message = if colon < chars.len() {
        let (from, to) = trim_range(&chars, colon + 1, chars.len());
        string_of(&chars, from, to)
    } else {
        log.to_owned()
    };
    let ranges = word_ranges(&chars, 0, colon);
    let n = ranges.len();
    let ghost w = words(header_of(log@));
    proof {
        assert(w == cut(chars@, ranges@));
        assert(forall|k: int|
            0 <= k < n ==> w[k] == chars@.subrange(ranges[k].0 as int, ranges[k].1 as int));
    }
    let stamp = if n >= 2 {
        let mut text = string_of(&chars, ranges[0].0, ranges[0].1);
        text.push(' ');
        push_chars(&mut text, &chars, ranges[1].0, ranges[1].1);
        Some(text)
    } else {
        None
    };
    let tag = if n >= 2 {
        string_of(&chars, ranges[n - 2].0, ranges[n - 2].1)
    } else {
        "UNKNOWN".to_owned()
    };
    Parts { level: classify_line(&chars), stamp, tag, message }
}

/// Parses `log`. Where its header has no two words, `fallback` becomes the
/// time stamp.
pub fn parse_log_entry_with(log: &str, fallback: String) -> (entry: LogEntry)
    ensures
        entry@ == parsed(log@, fallback@),
{
    let parts = parse_parts(log);
    LogEntry {
        level: parts.level,
        timestamp: match parts.stamp {
            Some(stamp) => stamp,
            None => fallback,
        },
        tag: parts.tag,
        message: parts.message,
    }
}

/// Parses `log`. Where its header has no two words, the local time becomes
/// the time stamp, as month, day, hour, minute and second; everything else
/// is fixed by the line.
pub fn parse_log_entry(log: &str) -> (entry: LogEntry)
    ensures
        entry@ == parsed(log@, entry@.timestamp),
        stamp_of(log@).is_none() ==> is_entry_stamp(entry@.timestamp),
{
    let parts = parse_parts(log);
    LogEntry {
        level: parts.level,
        timestamp: match parts.stamp {
            Some(stamp) => stamp,
            None => entry_stamp_now(),
        },
        tag: parts.tag,
        message: parts.message,
    }
}

} // verus!
