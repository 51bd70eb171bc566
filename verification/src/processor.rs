//! The plain, line-by-line mode: which lines of the device log are printed,
//! and how a printed line is dressed.

use crate::level::LogLevel;
use crate::style::{bold, force_colors, paint_plain, painted, tinted, tinted_bold, Ink};
use crate::text::{chars_of, contains, contains_chars};
use vstd::prelude::*;
use vstd::string::StringExecFns;

verus! {

/// Which lines are printed.
#[derive(Debug)]
pub struct LogProcessor {
    /// The letter of the only level to print, if the levels are restricted.
    pub filter_level: Option<String>,
    /// A text that printed lines must hold, if they are restricted by tag.
    pub filter_tag: Option<String>,
}

/// How a printed line is dressed: the colors of its pictogram and of its
/// text, and whether both are bold. A line of unknown level is not colored.
#[derive(Clone, Copy, PartialEq, Eq, Structural, Debug)]
pub struct Dress {
    pub icon: Ink,
    pub line: Ink,
    pub bold: bool,
}

impl Dress {
    /// The numbers of the style of the pictogram.
    pub open spec fn icon_code(self) -> Seq<char> {
        if self.bold {
            bold(self.icon.code())
        } else {
            self.icon.code()
        }
    }

    /// The numbers of the style of the text.
    pub open spec fn line_code(self) -> Seq<char> {
        if self.bold {
            bold(self.line.code())
        } else {
            self.line.code()
        }
    }
}

/// Whether `out` is `line` as it is printed: the pictogram of its level, two
/// spaces, and the line, each painted in the dress of the level; a line of
/// unknown level with its pictogram and unpainted.
pub open spec fn printed(out: Seq<char>, line: Seq<char>) -> bool {
    let level = display_level(line);
    match dress_of(level) {
        Some(dress) => exists|icon: Seq<char>, text: Seq<char>|
            painted(icon, level.icon_text(), dress.icon_code()) && painted(
                text,
                line,
                dress.line_code(),
            ) && out == #[trigger] joined(icon, text),
        None => out == joined(level.icon_text(), line),
    }
}

/// The level under which a line is printed: that of the first group of
/// markers, from `Error` down to `Verbose`, of which one occurs in the line.
pub open spec fn display_level(line: Seq<char>) -> LogLevel {
    if contains(line, "E/"@) || contains(line, " E "@) || contains(line, "Error:"@) {
        LogLevel::Error
    } else if contains(line, "W/"@) || contains(line, " W "@) || contains(line, "Warning:"@) {
        LogLevel::Warning
    } else if contains(line, "I/"@) || contains(line, " I "@) {
        LogLevel::Info
    } else if contains(line, "D/"@) || contains(line, " D "@) {
        LogLevel::Debug
    } else if contains(line, "V/"@) || contains(line, " V "@) {
        LogLevel::Verbose
    } else {
        LogLevel::Unknown
    }
}

/// The dress of the lines of `level`; none for the unknown level.
pub open spec fn dress_of(level: LogLevel) -> Option<Dress> {
    match level {
        LogLevel::Error => Some(Dress { icon: Ink::Red, line: Ink::BrightRed, bold: true }),
        LogLevel::Warning => Some(
            Dress { icon: Ink::Yellow, line: Ink::BrightYellow, bold: true },
        ),
        LogLevel::Info => Some(Dress { icon: Ink::Green, line: Ink::BrightGreen, bold: false }),
        LogLevel::Debug => Some(Dress { icon: Ink::Blue, line: Ink::BrightBlue, bold: false }),
        LogLevel::Verbose => Some(Dress { icon: Ink::White, line: Ink::BrightWhite, bold: false }),
        LogLevel::Unknown => None,
    }
}

/// A pictogram, two spaces and a line.
pub open spec fn joined(icon: Seq<char>, line: Seq<char>) -> Seq<char> {
    icon + "  "@ + line
}

/// The text ` L/`, which marks the level `L` in the brief format.
pub open spec fn brief_marker(level: Seq<char>) -> Seq<char> {
    seq![' '] + level + seq!['/']
}

/// The text `/L `, which marks the level `L` in the tag format.
pub open spec fn tag_marker(level: Seq<char>) -> Seq<char> {
    seq!['/'] + level + seq![' ']
}

impl LogProcessor {
    /// Whether `log` is printed: it holds one of the two markers of the
    /// wanted level, if one is wanted, and the wanted tag, if one is wanted.
    pub open spec fn accepts(self, log: Seq<char>) -> bool {
        &&& match self.filter_level {
            Some(level) => contains(log, brief_marker(level@)) || contains(log, tag_marker(level@)),
            None => true,
        }
        &&& match self.filter_tag {
            Some(tag) => contains(log, tag@),
            None => true,
        }
    }

    pub fn new(filter_level: Option<String>, filter_tag: Option<String>) -> (p: LogProcessor)
        ensures
            p.filter_level == filter_level,
            p.filter_tag == filter_tag,
    {
        LogProcessor { filter_level, filter_tag }
    }

    /// Whether `log` is printed.
    pub fn should_process_log(&self, log: &str) -> (b: bool)
        ensures
            b == self.accepts(log@),
    {
        let line = chars_of(log);
        match &self.filter_level {
            Some(level) => {
                let letters = chars_of(level.as_str());
                let mut brief: Vec<char> = Vec::new();
                brief.push(' ');
                let mut tagged: Vec<char> = Vec::new();
                tagged.push('/');
                let mut i: usize = 0;
                while i < letters.len()
                    invariant
                        i <= letters.len(),
                        brief@ == seq![' '] + letters@.take(i as int),
                        tagged@ == seq!['/'] + letters@.take(i as int),
                    decreases letters.len() - i,
                {
                    brief.push(letters[i]);
                    tagged.push(letters[i]);
                    i += 1;
                    proof {
                        assert(letters@.take(i as int) =~= letters@.take(i - 1).push(
                            letters@[i - 1],
                        ));
                        assert(brief@ =~= seq![' '] + letters@.take(i as int));
                        assert(tagged@ =~= seq!['/'] + letters@.take(i as int));
                    }
                }
                brief.push('/');
                tagged.push(' ');
                proof {
                    assert(letters@.take(i as int) =~= letters@);
                    assert(brief@ =~= brief_marker(level@));
                    assert(tagged@ =~= tag_marker(level@));
                }
                if !contains_chars(&line, &brief) && !contains_chars(&line, &tagged) {
                    return false;
                }
            },
            None => {},
        }
        match &self.filter_tag {
            Some(tag) => {
                let wanted = chars_of(tag.as_str());
                if !contains_chars(&line, &wanted) {
                    return false;
                }
            },
            None => {},
        }
        true
    }

    /// The line as it is printed: its pictogram, two spaces, and the line,
    /// each painted as its level asks. A line of unknown level comes out
    /// unpainted. Afterwards the process colors its output whatever its
    /// environment says.
    pub fn format_log(&self, log: &str) -> (out: String)
        ensures
            printed(out@, log@),
    {
        let line = chars_of(log);
        let level = level_for_display(&line);
        let out = match dress_for(level) {
            Some(dress) => {
                let (icon, text) = if dress.bold {
                    (tinted_bold(level.icon(), dress.icon), tinted_bold(log, dress.line))
                } else {
                    (tinted(level.icon(), dress.icon), tinted(log, dress.line))
                };
                let out = join_painted(icon.as_str(), text.as_str());
                proof {
                    assert(painted(icon@, level.icon_text(), dress.icon_code()) && painted(
                        text@,
                        log@,
                        dress.line_code(),
                    ) && out@ == joined(icon@, text@));
                }
                out
            },
            None => {
                let icon = paint_plain(level.icon());
                join_painted(icon.as_str(), log)
            },
        };
        force_colors();
        out
    }
}

/// Whether one of up to three markers occurs in the line.
fn has_any(line: &Vec<char>, a: &str, b: &str, c: Option<&str>) -> (found: bool)
    ensures
        found == (contains(line@, a@) || contains(line@, b@) || match c {
            Some(c) => contains(line@, c@),
            None => false,
        }),
{
    let first = chars_of(a);
    if contains_chars(line, &first) {
        return true;
    }
    let second = chars_of(b);
    if contains_chars(line, &second) {
        return true;
    }
    match c {
        Some(c) => {
            let third = chars_of(c);
            contains_chars(line, &third)
        },
        None => false,
    }
}

/// The level under which a line is printed.
pub fn level_for_display(line: &Vec<char>) -> (level: LogLevel)
    ensures
        level == display_level(line@),
{
    if has_any(line, "E/", " E ", Some("Error:")) {
        LogLevel::Error
    } else if has_any(line, "W/", " W ", Some("Warning:")) {
        LogLevel::Warning
    } else if has_any(line, "I/", " I ", None) {
        LogLevel::Info
    } else if has_any(line, "D/", " D ", None) {
        LogLevel::Debug
    } else if has_any(line, "V/", " V ", None) {
        LogLevel::Verbose
    } else {
        LogLevel::Unknown
    }
}

/// The dress of the lines of `level`.
pub fn dress_for(level: LogLevel) -> (dress: Option<Dress>)
    ensures
        dress == dress_of(level),
{
    match level {
        LogLevel::Error => Some(Dress { icon: Ink::Red, line: Ink::BrightRed, bold: true }),
        LogLevel::Warning => Some(
            Dress { icon: Ink::Yellow, line: Ink::BrightYellow, bold: true },
        ),
        LogLevel::Info => Some(Dress { icon: Ink::Green, line: Ink::BrightGreen, bold: false }),
        LogLevel::Debug => Some(Dress { icon: Ink::Blue, line: Ink::BrightBlue, bold: false }),
        LogLevel::Verbose => Some(Dress { icon: Ink::White, line: Ink::BrightWhite, bold: false }),
        LogLevel::Unknown => None,
    }
}

/// A painted pictogram, two spaces and a painted line.
pub fn join_painted(icon: &str, line: &str) -> (out: String)
    ensures
        out@ == joined(icon@, line@),
{
    let mut out = icon.to_owned();
    out.append("  ");
    out.append(line);
    out
}

} // verus!
