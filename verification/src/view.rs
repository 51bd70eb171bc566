//! What the panes of the viewer show, as text and colors. The renderer
//! lays these out and draws them; nothing here touches the terminal.

use crate::level::{EntryModel, LogEntry, LogLevel, Tint};
use crate::pane;
use crate::state::{level_enabled, AppModel, AppState, LogStats, StorageInfoModel};
use crate::storage::MEGABYTE;
use crate::style::{dim, paint_dimmed, painted, tinted, Ink};
use crate::text::{
    decimal, pad_left, pad_right, prefix, push_decimal, push_padded_left, push_padded_right,
    push_prefix, push_spaces, spaces,
};
use crate::timing::{is_status_expired, status_expired};
use std::collections::VecDeque;
use vstd::prelude::*;
use vstd::string::StringExecFns;

verus! {

/// The columns that the time stamp of a row takes.
pub const TIMESTAMP_WIDTH: usize = 19;

/// The columns that the tag of a row takes.
pub const TAG_WIDTH: usize = 8;

/// The columns that the level of a row takes.
pub const LEVEL_WIDTH: usize = 5;

/// The columns that brackets, spaces and the colon of a row take.
pub const PADDING: usize = 7;

/// The columns that the pictogram of a row and the space after it take.
pub const ICON_WIDTH: usize = 2;

/// The columns and rows that the border of a pane takes, both sides
/// together.
pub const BORDER: u16 = 2;

/// The columns around the title of the tab bar that are not for text.
pub const TAB_MARGIN: usize = 4;

/// The columns that a tab takes besides its title.
pub const TAB_EXTRA: usize = 3;

/// The width of the box shown during start-up.
pub const LOADING_WIDTH: u16 = 40;

/// The height of the box shown during start-up.
pub const LOADING_HEIGHT: u16 = 3;

/// One row of the log pane.
#[derive(Debug)]
pub struct LogLine {
    pub text: String,
    pub tint: Tint,
}

/// What a `LogLine` holds, as plain values.
pub struct LineModel {
    pub text: Seq<char>,
    pub tint: Tint,
}

impl View for LogLine {
    type V = LineModel;

    open spec fn view(&self) -> LineModel {
        LineModel { text: self.text@, tint: self.tint }
    }
}

/// The log pane: its title and its rows, top row first.
#[derive(Debug)]
pub struct LogPane {
    pub title: String,
    pub lines: Vec<LogLine>,
}

/// What a `LogPane` holds, as plain values.
pub struct PaneModel {
    pub title: Seq<char>,
    pub lines: Seq<LineModel>,
}

impl View for LogPane {
    type V = PaneModel;

    open spec fn view(&self) -> PaneModel {
        PaneModel { title: self.title@, lines: self.lines@.map_values(|l: LogLine| l@) }
    }
}

/// `a - b`, or 0 where `b` is larger.
pub open spec fn minus(a: int, b: int) -> nat {
    if a >= b {
        (a - b) as nat
    } else {
        0
    }
}

/// The columns left for the message in a pane that is `inner_width` wide
/// inside its border.
pub open spec fn message_width(inner_width: nat) -> nat {
    minus(
        inner_width as int,
        TIMESTAMP_WIDTH + TAG_WIDTH + LEVEL_WIDTH + PADDING + ICON_WIDTH,
    )
}

/// The text of the row for `e`: pictogram, time stamp, tag in brackets,
/// level, and as much of the message as fits in `width` columns.
pub open spec fn row_text(e: EntryModel, width: nat) -> Seq<char> {
    e.level.icon_text() + " "@ + pad_right(e.timestamp, TIMESTAMP_WIDTH as nat) + " ["@
        + pad_right(prefix(e.tag, TAG_WIDTH as nat), TAG_WIDTH as nat) + "] "@ + pad_right(
        e.level.name(),
        LEVEL_WIDTH as nat,
    ) + ": "@ + prefix(e.message, width)
}

/// The rows for the store positions `positions`, in their order. A position
/// that the store no longer has gets no row.
pub open spec fn rows(positions: Seq<usize>, logs: Seq<EntryModel>, width: nat) -> Seq<LineModel>
    decreases positions.len(),
{
    if positions.len() == 0 {
        Seq::empty()
    } else {
        let before = rows(positions.drop_last(), logs, width);
        let p = positions.last();
        if p < logs.len() {
            before.push(LineModel { text: row_text(logs[p as int], width), tint: logs[p as int].level.tint() })
        } else {
            before
        }
    }
}

/// The title of the log pane.
pub open spec fn pane_title(m: AppModel) -> Seq<char> {
    if m.search_mode {
        " Log Output (Searching: '"@ + m.search_query + "', "@ + decimal(m.filtered_logs.len())
            + " matches) "@
    } else {
        " Log Output ("@ + decimal(m.filtered_logs.len()) + " logs) "@
    }
}

impl AppModel {
    /// The first shown row that a pane of `height` rows displays: in tail
    /// mode the pane ends with the last shown row, else it starts at the
    /// selection.
    pub open spec fn window_start(self, height: nat) -> nat {
        let start = if self.tail_mode {
            minus(self.filtered_logs.len() as int, height as int)
        } else {
            self.scroll as nat
        };
        if start <= self.filtered_logs.len() {
            start
        } else {
            self.filtered_logs.len()
        }
    }

    /// The end of the displayed rows.
    pub open spec fn window_end(self, height: nat) -> nat {
        if self.window_start(height) + height <= self.filtered_logs.len() {
            self.window_start(height) + height
        } else {
            self.filtered_logs.len()
        }
    }

    /// The store positions that a pane of `height` rows displays.
    pub open spec fn window(self, height: nat) -> Seq<usize> {
        self.filtered_logs.subrange(self.window_start(height) as int, self.window_end(height) as int)
    }

    /// The log pane for an area of `width` columns and `height` rows, border
    /// included.
    pub open spec fn log_pane(self, width: u16, height: u16) -> PaneModel {
        PaneModel {
            title: pane_title(self),
            lines: rows(
                self.window(minus(height as int, BORDER as int)),
                self.logs,
                message_width(minus(width as int, BORDER as int)),
            ),
        }
    }
}

/// There are no more rows than positions, so a pane never gets more rows
/// than it has room for inside its border.
pub proof fn lemma_rows_fit(m: AppModel, width: u16, height: u16)
    ensures
        m.log_pane(width, height).lines.len() <= minus(height as int, BORDER as int),
{
    let room = minus(height as int, BORDER as int);
    lemma_rows_len(m.window(room), m.logs, message_width(minus(width as int, BORDER as int)));
}

/// There are no more rows than positions.
pub proof fn lemma_rows_len(positions: Seq<usize>, logs: Seq<EntryModel>, width: nat)
    ensures
        rows(positions, logs, width).len() <= positions.len(),
    decreases positions.len(),
{
    if positions.len() > 0 {
        lemma_rows_len(positions.drop_last(), logs, width);
    }
}

/// The row for `entry`.
pub fn log_line(entry: &LogEntry, width: usize) -> (line: LogLine)
    ensures
        line@ == (LineModel { text: row_text(entry@, width as nat), tint: entry.level.tint() }),
{
    let mut text = entry.level.icon().to_owned();
    text.append(" ");
    push_padded_right(&mut text, entry.timestamp.as_str(), TIMESTAMP_WIDTH);
    text.append(" [");
    let mut tag = String::new();
    push_prefix(&mut tag, entry.tag.as_str(), TAG_WIDTH);
    push_padded_right(&mut text, tag.as_str(), TAG_WIDTH);
    text.append("] ");
    push_padded_right(&mut text, entry.level.as_str(), LEVEL_WIDTH);
    text.append(": ");
    push_prefix(&mut text, entry.message.as_str(), width);
    proof {
        assert(tag@ =~= prefix(entry@.tag, TAG_WIDTH as nat));
        assert(text@ =~= row_text(entry@, width as nat));
    }
    LogLine { text, tint: entry.level.color() }
}

impl AppState {
    /// The title of the log pane.
    pub fn log_title(&self) -> (title: String)
        ensures
            title@ == pane_title(self@),
    {
        let mut title = String::new();
        if self.search_mode {
            title.append(" Log Output (Searching: '");
            title.append(self.search_query.as_str());
            title.append("', ");
            push_decimal(&mut title, self.filtered_logs.len() as u128);
            title.append(" matches) ");
        } else {
            title.append(" Log Output (");
            push_decimal(&mut title, self.filtered_logs.len() as u128);
            title.append(" logs) ");
        }
        proof {
            assert(title@ =~= pane_title(self@));
        }
        title
    }

    /// The log pane for an area of `width` columns and `height` rows, border
    /// included.
    pub fn log_pane(&self, width: u16, height: u16) -> (pane: LogPane)
        ensures
            pane@ == self@.log_pane(width, height),
            pane.lines.len() <= minus(height as int, BORDER as int),
    {
        proof {
            lemma_rows_fit(self@, width, height);
        }
        let inner_width: usize = if width >= BORDER {
            (width - BORDER) as usize
        } else {
            0
        };
        let max_display: usize = if height >= BORDER {
            (height - BORDER) as usize
        } else {
            0
        };
        let fixed: usize = TIMESTAMP_WIDTH + TAG_WIDTH + LEVEL_WIDTH + PADDING + ICON_WIDTH;
        let room: usize = if inner_width >= fixed {
            inner_width - fixed
        } else {
            0
        };
        let total = self.filtered_logs.len();
        let start = if self.tail_mode {
            if total >= max_display {
                total - max_display
            } else {
                0
            }
        } else {
            self.scroll
        };
        let lo = if start <= total {
            start
        } else {
            total
        };
        let hi = if total - lo >= max_display {
            lo + max_display
        } else {
            total
        };
        let ghost shown = self@.window(max_display as nat);
        let ghost all = self@.logs;
        proof {
            assert(lo == self@.window_start(max_display as nat));
            assert(hi == self@.window_end(max_display as nat));
            assert(shown == self.filtered_logs@.subrange(lo as int, hi as int));
        }
        let mut lines: Vec<LogLine> = Vec::new();
        let mut k: usize = lo;
        proof {
            assert(shown.take(0) =~= Seq::empty());
            assert(lines@.map_values(|l: LogLine| l@) =~= rows(shown.take(0), all, room as nat));
        }
        while k < hi
            invariant
                lo <= k <= hi <= self.filtered_logs.len(),
                shown == self.filtered_logs@.subrange(lo as int, hi as int),
                all == self@.logs,
                lines@.map_values(|l: LogLine| l@) == rows(shown.take(k - lo), all, room as nat),
            decreases hi - k,
        {
            let index = self.filtered_logs[k];
            let ghost before = lines@;
            proof {
                assert(shown.take(k - lo + 1).drop_last() =~= shown.take(k - lo));
                assert(shown.take(k - lo + 1).last() == index);
            }
            if index < self.logs.len() {
                let line = log_line(&self.logs[index], room);
                lines.push(line);
                proof {
                    assert(self.logs@[index as int]@ == all[index as int]);
                    assert(lines@.map_values(|l: LogLine| l@) =~= before.map_values(
                        |l: LogLine| l@,
                    ).push(line@));
                }
            }
            k += 1;
        }
        proof {
            assert(shown.take(hi - lo) =~= shown);
        }
        LogPane { title: self.log_title(), lines }
    }
}

/// The text of the statistics pane for the counters `stats`, a store of
/// `total` entries and room for `capacity`.
pub open spec fn stats_report(stats: LogStats, total: nat, capacity: nat) -> Seq<char> {
    "\nLog Statistics:\n\n🔴 Errors:   "@ + decimal(stats.error_count as nat) + "\n⚠️  Warnings: "@
        + decimal(stats.warning_count as nat) + "\nℹ️  Info:     "@ + decimal(
        stats.info_count as nat,
    ) + "\n🔧 Debug:    "@ + decimal(stats.debug_count as nat) + "\n📝 Verbose:  "@ + decimal(
        stats.verbose_count as nat,
    ) + "\n\nTotal Logs: "@ + decimal(total) + "\nMemory Usage: "@ + decimal(capacity)
        + " entries"@
}

/// The text of the storage pane. Sizes are shown in whole megabytes.
pub open spec fn storage_report(info: Option<StorageInfoModel>) -> Seq<char> {
    match info {
        Some(info) => "\nStorage Information:\n\nCurrent File: "@ + info.current_file
            + "\nTotal Size: "@ + decimal((info.total_size / MEGABYTE) as nat) + " MB\nFile Count: "@
            + decimal(info.file_count as nat) + "\n"@,
        None => "\nStorage not enabled\n\nUse --save to enable log storage"@,
    }
}

/// The status line while the search text is edited.
pub open spec fn search_status(query: Seq<char>) -> Seq<char> {
    "Search: "@ + query + " | Press Enter to confirm or Esc to cancel"@
}

/// The switches of the levels in a row, in brackets.
pub open spec fn switches(pieces: Seq<Seq<char>>) -> Seq<char> {
    "["@ + spaced(pieces) + "]"@
}

/// The texts `pieces` in a row. A space stands before each of them that
/// does not begin the row.
pub open spec fn spaced(pieces: Seq<Seq<char>>) -> Seq<char>
    decreases pieces.len(),
{
    if pieces.len() == 0 {
        Seq::empty()
    } else {
        let before = spaced(pieces.drop_last());
        if before.len() == 0 {
            pieces.last()
        } else {
            before.push(' ') + pieces.last()
        }
    }
}

/// The status line outside of a search, made of the painted switches, the
/// painted run state and the painted scroll mode, the count of shown rows
/// and the selected row, counted from one.
pub open spec fn composed_status(
    pieces: Seq<Seq<char>>,
    run: Seq<char>,
    mode: Seq<char>,
    shown: nat,
    scroll: nat,
) -> Seq<char> {
    switches(pieces) + " "@ + run + " "@ + mode + " | "@ + pad_left(decimal(shown), 4) + " logs"@
        + " | Position: "@ + pad_left(decimal(scroll + 1), 4) + "/"@ + pad_right(decimal(shown), 4)
}

/// The levels that have a switch on the status line, in the order of their
/// switches.
pub open spec fn switch_levels() -> Seq<LogLevel> {
    seq![LogLevel::Error, LogLevel::Warning, LogLevel::Info, LogLevel::Debug, LogLevel::Verbose]
}

/// The color of the letter that stands for a level on the status line.
pub open spec fn switch_ink(level: LogLevel) -> Ink {
    match level {
        LogLevel::Error => Ink::Red,
        LogLevel::Warning => Ink::Yellow,
        LogLevel::Info => Ink::Green,
        LogLevel::Debug => Ink::Blue,
        _ => Ink::White,
    }
}

/// Whether `piece` is the painted switch of `level`: its letter in its
/// color where the level is enabled, a dimmed hyphen where it is not.
pub open spec fn switch_painted(piece: Seq<char>, level: LogLevel, enabled: bool) -> bool {
    if enabled {
        painted(piece, switch_letter(level), switch_ink(level).code())
    } else {
        painted(piece, "-"@, dim())
    }
}

/// The word for the run state and its color.
pub open spec fn run_word(paused: bool) -> (Seq<char>, Ink) {
    if paused {
        ("PAUSED"@, Ink::Red)
    } else {
        ("RUNNING"@, Ink::Green)
    }
}

/// The word for the scroll mode and its color.
pub open spec fn mode_word(tail_mode: bool) -> (Seq<char>, Ink) {
    if tail_mode {
        ("TAIL"@, Ink::Cyan)
    } else {
        ("SCROLL"@, Ink::Yellow)
    }
}

/// Whether `text` is the status line of `m` outside of a search: composed
/// of the painted switches of the five levels, the painted run state, the
/// painted scroll mode, the count of shown rows and the selection.
pub open spec fn status_shape(text: Seq<char>, m: AppModel) -> bool {
    exists|pieces: Seq<Seq<char>>, run: Seq<char>, mode: Seq<char>|
        {
            &&& pieces.len() == 5
            &&& forall|i: int|
                0 <= i < 5 ==> switch_painted(
                    #[trigger] pieces[i],
                    switch_levels()[i],
                    m.level_filters.contains(switch_levels()[i]),
                )
            &&& painted(run, run_word(m.paused).0, run_word(m.paused).1.code())
            &&& painted(mode, mode_word(m.tail_mode).0, mode_word(m.tail_mode).1.code())
            &&& text == #[trigger] composed_status(
                pieces,
                run,
                mode,
                m.filtered_logs.len(),
                m.scroll as nat,
            )
        }
}

/// The color of the word that the tab bar shows for the state of the link.
pub open spec fn connection_ink(status: pane::ConnectionStatus) -> Ink {
    match status {
        pane::ConnectionStatus::Connected => Ink::Green,
        pane::ConnectionStatus::Disconnected => Ink::Red,
        pane::ConnectionStatus::Error => Ink::Yellow,
    }
}

/// The letter that stands for a level on the status line.
pub open spec fn switch_letter(level: LogLevel) -> Seq<char> {
    match level {
        LogLevel::Error => "E"@,
        LogLevel::Warning => "W"@,
        LogLevel::Info => "I"@,
        LogLevel::Debug => "D"@,
        LogLevel::Verbose => "V"@,
        LogLevel::Unknown => "-"@,
    }
}

/// The mark and the word that the tab bar shows for the state of the link.
pub open spec fn connection_word(status: pane::ConnectionStatus) -> (Seq<char>, Seq<char>) {
    match status {
        pane::ConnectionStatus::Connected => ("🟢 "@, "Connected"@),
        pane::ConnectionStatus::Disconnected => ("🔴 "@, "Disconnected"@),
        pane::ConnectionStatus::Error => ("⚠️  "@, "Error"@),
    }
}

/// The columns that the three tabs take.
pub open spec fn tabs_width() -> nat {
    pane::View::Logs.title().len() + TAB_EXTRA as nat + pane::View::Stats.title().len()
        + TAB_EXTRA as nat + pane::View::Storage.title().len() + TAB_EXTRA as nat
}

/// The spaces between the title of the tab bar and the indicator of the
/// link, which push the indicator to the right edge of a bar `width` wide.
pub open spec fn tab_padding(width: nat, indicator: nat) -> nat {
    minus(minus(minus(minus(width as int, "Views"@.len() as int) as int, indicator as int) as int, tabs_width() as int) as int, TAB_MARGIN as int)
}

/// The title of the tab bar: its name, the padding, and the indicator.
pub open spec fn tabs_title_text(width: u16, indicator: Seq<char>) -> Seq<char> {
    "Views"@ + spaces(tab_padding(width as nat, indicator.len())) + indicator
}

/// The keys, as the help line lists them.
pub open spec fn help() -> Seq<char> {
    "1-3: Views | Space: Pause | t: Tail | /: Search | y: Copy | n: Notifications | e/w/i/d/v: Filters | ↑/↓: Scroll | End/G: Latest | Home/g: First | q: Quit"@
}

/// The box shown during start-up, centered in an area of `width` columns and
/// `height` rows: its left column, its top row, its width and its height.
pub open spec fn loading_box(width: u16, height: u16) -> (u16, u16, u16, u16) {
    (
        (minus(width as int, LOADING_WIDTH as int) / 2) as u16,
        (minus(height as int, LOADING_HEIGHT as int) / 2) as u16,
        if width < LOADING_WIDTH {
            width
        } else {
            LOADING_WIDTH
        },
        if height < LOADING_HEIGHT {
            height
        } else {
            LOADING_HEIGHT
        },
    )
}

/// `VecDeque::capacity`: how many entries the store has room for without
/// asking for memory. The allocator decides, so nothing is claimed.
#[verifier::external_body]
fn store_capacity(logs: &VecDeque<LogEntry>) -> (capacity: usize) {
    logs.capacity()
}

/// The text of the statistics pane.
pub fn stats_text(stats: &LogStats, total: usize, capacity: usize) -> (text: String)
    ensures
        text@ == stats_report(*stats, total as nat, capacity as nat),
{
    let mut text = "\nLog Statistics:\n\n🔴 Errors:   ".to_owned();
    push_decimal(&mut text, stats.error_count as u128);
    text.append("\n⚠️  Warnings: ");
    push_decimal(&mut text, stats.warning_count as u128);
    text.append("\nℹ️  Info:     ");
    push_decimal(&mut text, stats.info_count as u128);
    text.append("\n🔧 Debug:    ");
    push_decimal(&mut text, stats.debug_count as u128);
    text.append("\n📝 Verbose:  ");
    push_decimal(&mut text, stats.verbose_count as u128);
    text.append("\n\nTotal Logs: ");
    push_decimal(&mut text, total as u128);
    text.append("\nMemory Usage: ");
    push_decimal(&mut text, capacity as u128);
    text.append(" entries");
    proof {
        assert(text@ =~= stats_report(*stats, total as nat, capacity as nat));
    }
    text
}

/// The status line while the search text is edited.
pub fn search_status_line(query: &str) -> (text: String)
    ensures
        text@ == search_status(query@),
{
    let mut text = "Search: ".to_owned();
    text.append(query);
    text.append(" | Press Enter to confirm or Esc to cancel");
    text
}

/// The texts `pieces` in a row, with spaces between.
pub fn join_spaced(pieces: &Vec<String>) -> (text: String)
    ensures
        text@ == spaced(pieces@.map_values(|p: String| p@)),
{
    let ghost all = pieces@.map_values(|p: String| p@);
    let mut text = String::new();
    let mut i: usize = 0;
    proof {
        assert(all.take(0) =~= Seq::empty());
    }
    while i < pieces.len()
        invariant
            i <= pieces.len(),
            all == pieces@.map_values(|p: String| p@),
            text@ == spaced(all.take(i as int)),
        decreases pieces.len() - i,
    {
        proof {
            assert(all.take(i + 1).drop_last() =~= all.take(i as int));
            assert(all.take(i + 1).last() == pieces@[i as int]@);
        }
        if !text.as_str().is_empty() {
            text.push(' ');
        }
        text.append(pieces[i].as_str());
        proof {
            assert(text@ =~= spaced(all.take(i + 1)));
        }
        i += 1;
    }
    proof {
        assert(all.take(pieces.len() as int) =~= all);
    }
    text
}

/// The status line outside of a search, from its painted parts.
pub fn compose_status(
    pieces: &Vec<String>,
    run: &str,
    mode: &str,
    shown: usize,
    scroll: usize,
) -> (text: String)
    ensures
        text@ == composed_status(
            pieces@.map_values(|p: String| p@),
            run@,
            mode@,
            shown as nat,
            scroll as nat,
        ),
{
    let mut text = "[".to_owned();
    let row = join_spaced(pieces);
    text.append(row.as_str());
    text.append("]");
    text.append(" ");
    text.append(run);
    text.append(" ");
    text.append(mode);
    text.append(" | ");
    let count = crate::text::decimal_string(shown as u128);
    push_padded_left(&mut text, count.as_str(), 4);
    text.append(" logs");
    text.append(" | Position: ");
    let position = crate::text::decimal_string(scroll as u128 + 1);
    push_padded_left(&mut text, position.as_str(), 4);
    text.append("/");
    push_padded_right(&mut text, count.as_str(), 4);
    proof {
        assert(text@ =~= composed_status(
            pieces@.map_values(|p: String| p@),
            run@,
            mode@,
            shown as nat,
            scroll as nat,
        ));
    }
    text
}

/// The letter that stands for `level` on the status line.
pub fn level_letter(level: LogLevel) -> (s: &'static str)
    ensures
        s@ == switch_letter(level),
{
    match level {
        LogLevel::Error => "E",
        LogLevel::Warning => "W",
        LogLevel::Info => "I",
        LogLevel::Debug => "D",
        LogLevel::Verbose => "V",
        LogLevel::Unknown => "-",
    }
}

/// The color of the letter that stands for `level` on the status line.
pub fn level_ink(level: LogLevel) -> (ink: Ink)
    ensures
        ink == switch_ink(level),
{
    match level {
        LogLevel::Error => Ink::Red,
        LogLevel::Warning => Ink::Yellow,
        LogLevel::Info => Ink::Green,
        LogLevel::Debug => Ink::Blue,
        _ => Ink::White,
    }
}

/// The title of the tab bar for a bar of `width` columns and the painted
/// indicator of the link.
pub fn tabs_title(width: u16, indicator: &str) -> (title: String)
    ensures
        title@ == tabs_title_text(width, indicator@),
{
    let base = "Views";
    proof {
        reveal_strlit("Logs");
        reveal_strlit("Stats");
        reveal_strlit("Storage");
    }
    let tabs: usize = pane::View::Logs.label().unicode_len() + TAB_EXTRA
        + pane::View::Stats.label().unicode_len() + TAB_EXTRA
        + pane::View::Storage.label().unicode_len() + TAB_EXTRA;
    let mut room: usize = width as usize;
    room = sub_or_zero(room, base.unicode_len());
    room = sub_or_zero(room, indicator.unicode_len());
    room = sub_or_zero(room, tabs);
    room = sub_or_zero(room, TAB_MARGIN);
    let mut title = base.to_owned();
    push_spaces(&mut title, room);
    title.append(indicator);
    title
}

/// `a - b`, or 0 where `b` is larger.
pub fn sub_or_zero(a: usize, b: usize) -> (r: usize)
    ensures
        r == minus(a as int, b as int),
{
    if a >= b {
        a - b
    } else {
        0
    }
}

/// The indicator of the link on the tab bar: a mark and a painted word.
pub fn connection_label(status: pane::ConnectionStatus) -> (text: String)
    ensures
        exists|word: Seq<char>|
            painted(word, connection_word(status).1, connection_ink(status).code()) && text@
                == connection_word(status).0 + word,
{
    let (mark, word) = match status {
        pane::ConnectionStatus::Connected => ("🟢 ", tinted("Connected", Ink::Green)),
        pane::ConnectionStatus::Disconnected => ("🔴 ", tinted("Disconnected", Ink::Red)),
        pane::ConnectionStatus::Error => ("⚠️  ", tinted("Error", Ink::Yellow)),
    };
    let mut text = mark.to_owned();
    text.append(word.as_str());
    proof {
        assert(painted(word@, connection_word(status).1, connection_ink(status).code()) && text@
            == connection_word(status).0 + word@);
    }
    text
}

/// The keys, as the help line lists them.
pub fn help_text() -> (s: &'static str)
    ensures
        s@ == help(),
{
    "1-3: Views | Space: Pause | t: Tail | /: Search | y: Copy | n: Notifications | e/w/i/d/v: Filters | ↑/↓: Scroll | End/G: Latest | Home/g: First | q: Quit"
}

/// The box shown during start-up.
pub fn loading_area(width: u16, height: u16) -> (area: (u16, u16, u16, u16))
    ensures
        area == loading_box(width, height),
{
    let x = if width >= LOADING_WIDTH {
        (width - LOADING_WIDTH) / 2
    } else {
        0
    };
    let y = if height >= LOADING_HEIGHT {
        (height - LOADING_HEIGHT) / 2
    } else {
        0
    };
    let w = if width < LOADING_WIDTH {
        width
    } else {
        LOADING_WIDTH
    };
    let h = if height < LOADING_HEIGHT {
        height
    } else {
        LOADING_HEIGHT
    };
    (x, y, w, h)
}

impl AppState {
    /// The text of the statistics pane.
    pub fn stats_pane(&self) -> (text: String)
        ensures
            exists|capacity: nat|
                text@ == stats_report(self.stats, self.logs@.len(), capacity),
    {
        let capacity = store_capacity(&self.logs);
        let text = stats_text(&self.stats, self.logs.len(), capacity);
        proof {
            assert(text@ == stats_report(self.stats, self.logs@.len(), capacity as nat));
        }
        text
    }

    /// The text of the storage pane.
    pub fn storage_pane(&self) -> (text: String)
        ensures
            text@ == storage_report(self@.storage_info),
    {
        match &self.storage_info {
            Some(info) => {
                let mut text = "\nStorage Information:\n\nCurrent File: ".to_owned();
                text.append(info.current_file.as_str());
                text.append("\nTotal Size: ");
                push_decimal(&mut text, (info.total_size / MEGABYTE) as u128);
                text.append(" MB\nFile Count: ");
                push_decimal(&mut text, info.file_count as u128);
                text.append("\n");
                proof {
                    assert(text@ =~= storage_report(self@.storage_info));
                }
                text
            },
            None => "\nStorage not enabled\n\nUse --save to enable log storage".to_owned(),
        }
    }

    /// The status line outside of a search: the switches of the levels, the
    /// run state, the scroll mode, the count of shown rows and the
    /// selection. Switches, run state and mode are painted.
    pub fn normal_status(&self) -> (text: String)
        ensures
            status_shape(text@, self@),
    {
        let levels = [
            LogLevel::Error,
            LogLevel::Warning,
            LogLevel::Info,
            LogLevel::Debug,
            LogLevel::Verbose,
        ];
        proof {
            assert(levels@ =~= switch_levels());
        }
        let mut pieces: Vec<String> = Vec::new();
        let mut i: usize = 0;
        while i < 5
            invariant
                i <= 5,
                levels@ == switch_levels(),
                pieces.len() == i,
                forall|j: int|
                    0 <= j < i ==> switch_painted(
                        (#[trigger] pieces@[j])@,
                        switch_levels()[j],
                        self.level_filters@.contains(switch_levels()[j]),
                    ),
            decreases 5 - i,
        {
            let level = levels[i];
            let piece = if level_enabled(&self.level_filters, level) {
                tinted(level_letter(level), level_ink(level))
            } else {
                paint_dimmed("-")
            };
            pieces.push(piece);
            i += 1;
        }
        let run = if self.paused {
            tinted("PAUSED", Ink::Red)
        } else {
            tinted("RUNNING", Ink::Green)
        };
        let mode = if self.tail_mode {
            tinted("TAIL", Ink::Cyan)
        } else {
            tinted("SCROLL", Ink::Yellow)
        };
        let text = compose_status(
            &pieces,
            run.as_str(),
            mode.as_str(),
            self.filtered_logs.len(),
            self.scroll,
        );
        proof {
            let row = pieces@.map_values(|p: String| p@);
            assert forall|j: int| 0 <= j < 5 implies switch_painted(
                #[trigger] row[j],
                switch_levels()[j],
                self@.level_filters.contains(switch_levels()[j]),
            ) by {
                assert(row[j] == pieces@[j]@);
            }
            assert(text@ == composed_status(
                row,
                run@,
                mode@,
                self@.filtered_logs.len(),
                self@.scroll as nat,
            ));
        }
        text
    }

    /// The status line at time `now`: the search prompt while the search
    /// text is edited; else the status message, for as long as it stays;
    /// else the line of `normal_status`.
    pub fn get_status(&self, now: u64) -> (text: String)
        ensures
            self.search_mode ==> text@ == search_status(self.search_query@),
            !self.search_mode ==> match self@.status_message {
                Some((message, at)) => if status_expired(at, now) {
                    status_shape(text@, self@)
                } else {
                    text@ == message
                },
                None => status_shape(text@, self@),
            },
    {
        if self.search_mode {
            return search_status_line(self.search_query.as_str());
        }
        match &self.status_message {
            Some((message, at)) => {
                if is_status_expired(*at, now) {
                    self.normal_status()
                } else {
                    message.clone()
                }
            },
            None => self.normal_status(),
        }
    }
}

} // verus!
