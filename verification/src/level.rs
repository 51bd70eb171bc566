//! Severity levels and the log entry they classify.

use vstd::prelude::*;

verus! {

/// Severity of a log record.
#[derive(Clone, Copy, PartialEq, Eq, Structural, Debug)]
pub enum LogLevel {
    Error,
    Warning,
    Info,
    Debug,
    Verbose,
    Unknown,
}

/// The colors in which the entries of a level are listed.
#[derive(Clone, Copy, PartialEq, Eq, Structural, Debug)]
pub enum Tint {
    Red,
    Yellow,
    Green,
    Blue,
    White,
    Gray,
}

impl LogLevel {
    /// The name under which the level is shown and searched.
    pub open spec fn name(self) -> Seq<char> {
        match self {
            LogLevel::Error => "ERROR"@,
            LogLevel::Warning => "WARN"@,
            LogLevel::Info => "INFO"@,
            LogLevel::Debug => "DEBUG"@,
            LogLevel::Verbose => "VERBOSE"@,
            LogLevel::Unknown => "UNKNOWN"@,
        }
    }

    /// The color in which entries of the level are listed.
    pub open spec fn tint(self) -> Tint {
        match self {
            LogLevel::Error => Tint::Red,
            LogLevel::Warning => Tint::Yellow,
            LogLevel::Info => Tint::Green,
            LogLevel::Debug => Tint::Blue,
            LogLevel::Verbose => Tint::White,
            LogLevel::Unknown => Tint::Gray,
        }
    }

    /// The pictogram that precedes entries of the level.
    pub open spec fn icon_text(self) -> Seq<char> {
        match self {
            LogLevel::Error => "🔴"@,
            LogLevel::Warning => "⚠️"@,
            LogLevel::Info => "ℹ️"@,
            LogLevel::Debug => "🔧"@,
            LogLevel::Verbose => "📝"@,
            LogLevel::Unknown => "❓"@,
        }
    }

    pub fn as_str(&self) -> (s: &'static str)
        ensures
            s@ == self.name(),
    {
        match self {
            LogLevel::Error => "ERROR",
            LogLevel::Warning => "WARN",
            LogLevel::Info => "INFO",
            LogLevel::Debug => "DEBUG",
            LogLevel::Verbose => "VERBOSE",
            LogLevel::Unknown => "UNKNOWN",
        }
    }

    pub fn color(&self) -> (c: Tint)
        ensures
            c == self.tint(),
    {
        match self {
            LogLevel::Error => Tint::Red,
            LogLevel::Warning => Tint::Yellow,
            LogLevel::Info => Tint::Green,
            LogLevel::Debug => Tint::Blue,
            LogLevel::Verbose => Tint::White,
            LogLevel::Unknown => Tint::Gray,
        }
    }

    pub fn icon(&self) -> (s: &'static str)
        ensures
            s@ == self.icon_text(),
    {
        match self {
            LogLevel::Error => "🔴",
            LogLevel::Warning => "⚠️",
            LogLevel::Info => "ℹ️",
            LogLevel::Debug => "🔧",
            LogLevel::Verbose => "📝",
            LogLevel::Unknown => "❓",
        }
    }
}

/// One parsed log record.
#[derive(Debug)]
pub struct LogEntry {
    pub level: LogLevel,
    pub timestamp: String,
    pub tag: String,
    pub message: String,
}

/// What a `LogEntry` holds, as plain values.
pub struct EntryModel {
    pub level: LogLevel,
    pub timestamp: Seq<char>,
    pub tag: Seq<char>,
    pub message: Seq<char>,
}

impl View for LogEntry {
    type V = EntryModel;

    open spec fn view(&self) -> EntryModel {
        EntryModel {
            level: self.level,
            timestamp: self.timestamp@,
            tag: self.tag@,
            message: self.message@,
        }
    }
}

} // verus!
