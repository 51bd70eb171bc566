//! How the viewer reacts to keys, to the mouse wheel, to arriving entries and
//! to reports from outside. Each reaction is a function from the state and
//! an event to the next state and, where the outside has to do something, an
//! action for it.

use crate::level::{EntryModel, LogEntry, LogLevel};
use crate::pane;
use crate::state::{
    last_index, AppModel, AppState, StorageInfo, StorageInfoModel, CAPACITY,
};
use crate::storage::StorageUpdate;
use vstd::prelude::*;
use vstd::string::StringExecFns;

verus! {

/// A key as the controller tells keys apart.
#[derive(Clone, Copy, PartialEq, Eq, Structural, Debug)]
pub enum Key {
    Char(char),
    Esc,
    Enter,
    Backspace,
    Up,
    Down,
    PageUp,
    PageDown,
    Home,
    End,
    Other,
}

/// What the mouse did.
#[derive(Clone, Copy, PartialEq, Eq, Structural, Debug)]
pub enum MouseKind {
    ScrollUp,
    ScrollDown,
    Other,
}

/// How a probe of the link to the device ended.
#[derive(Clone, Copy, PartialEq, Eq, Structural, Debug)]
pub enum ProbeOutcome {
    /// The probe ran and reported a device.
    Reachable,
    /// The probe ran and reported none.
    Unreachable,
    /// The probe could not be run.
    Failed,
}

/// What is left for the caller to do after a key.
#[derive(Debug)]
pub enum Action {
    /// Nothing but the next redraw.
    Nothing,
    /// Leave the event loop.
    Quit,
    /// Redraw at once and print the line.
    Announce(String),
    /// Put the text on the clipboard, and call `copy_confirmed` if that
    /// worked.
    Copy(String),
}

/// What an `Action` holds, as plain values.
pub enum ActionModel {
    Nothing,
    Quit,
    Announce(Seq<char>),
    Copy(Seq<char>),
}

impl View for Action {
    type V = ActionModel;

    open spec fn view(&self) -> ActionModel {
        match self {
            Action::Nothing => ActionModel::Nothing,
            Action::Quit => ActionModel::Quit,
            Action::Announce(text) => ActionModel::Announce(text@),
            Action::Copy(text) => ActionModel::Copy(text@),
        }
    }
}

/// How many rows a page key moves the selection.
pub const PAGE_STEP: usize = 10;

/// How many rows a notch of the mouse wheel moves the selection.
pub const WHEEL_STEP: usize = 3;

/// The level that a key switches in normal mode, if it switches one.
pub open spec fn level_of_key(c: char) -> Option<LogLevel> {
    if c == 'e' {
        Some(LogLevel::Error)
    } else if c == 'w' {
        Some(LogLevel::Warning)
    } else if c == 'i' {
        Some(LogLevel::Info)
    } else if c == 'd' {
        Some(LogLevel::Debug)
    } else if c == 'v' {
        Some(LogLevel::Verbose)
    } else {
        None
    }
}

/// The line that goes to the clipboard for `e`.
pub open spec fn copy_text(e: EntryModel) -> Seq<char> {
    e.timestamp + " ["@ + e.tag + "] "@ + e.level.name() + ": "@ + e.message
}

/// The smaller of `a + step` and `max`.
pub open spec fn stepped_down(a: usize, step: usize, max: usize) -> usize {
    if a + step <= max {
        (a + step) as usize
    } else {
        max
    }
}

/// `a - step`, or 0 where `step` is larger.
pub open spec fn stepped_up(a: usize, step: usize) -> usize {
    if a >= step {
        (a - step) as usize
    } else {
        0
    }
}

impl AppModel {
    /// The position of the last shown row, or 0 where none is shown.
    pub open spec fn max_scroll(self) -> usize {
        last_index(self.filtered_logs.len())
    }

    /// The state after the selection moved to `target`: tail mode is on
    /// exactly if that is the last shown row.
    pub open spec fn moved_to(self, target: usize) -> AppModel {
        AppModel { scroll: target, tail_mode: target == self.max_scroll(), ..self }
    }

    /// The selected entry, if the selection is on a shown row whose entry is
    /// still in the store.
    pub open spec fn selected(self) -> Option<EntryModel> {
        if self.scroll < self.filtered_logs.len() && self.filtered_logs[self.scroll as int]
            < self.logs.len() {
            Some(self.logs[self.filtered_logs[self.scroll as int] as int])
        } else {
            None
        }
    }

    /// The state after `key` was pressed while the search text was being
    /// edited: a character joins the text, `Backspace` takes its last
    /// character away, `Esc` empties it and ends the search, `Enter` ends the
    /// search and keeps the text. After each of these the shown positions
    /// are computed anew. Other keys change nothing.
    pub open spec fn after_search_key(self, key: Key) -> AppModel {
        match key {
            Key::Esc => AppModel {
                search_mode: false,
                search_query: Seq::empty(),
                status_message: None,
                ..self
            }.refiltered(),
            Key::Enter => AppModel { search_mode: false, status_message: None, ..self }.refiltered(),
            Key::Char(c) => AppModel { search_query: self.search_query.push(c), ..self }.refiltered(),
            Key::Backspace => if self.search_query.len() > 0 {
                AppModel { search_query: self.search_query.drop_last(), ..self }.refiltered()
            } else {
                self
            },
            _ => self,
        }
    }

    /// The state after the character key `c` was pressed at time `now` in
    /// normal mode: `1`, `2` and `3` choose the pane, `/` begins a search,
    /// the space bar pauses and resumes, `t` switches tail mode, `g` and `G`
    /// select the first and the last shown row, `n` switches the
    /// announcements and says so in the status message, and `e`, `w`, `i`,
    /// `d` and `v` each switch a level. Other characters change nothing.
    pub open spec fn after_command(self, c: char, now: u64) -> AppModel {
        if c == '1' {
            AppModel { current_view: pane::View::Logs, ..self }
        } else if c == '2' {
            AppModel { current_view: pane::View::Stats, ..self }
        } else if c == '3' {
            AppModel { current_view: pane::View::Storage, ..self }
        } else if c == '/' {
            AppModel { search_mode: true, ..self }
        } else if c == ' ' {
            AppModel { paused: !self.paused, ..self }
        } else if c == 't' {
            AppModel { tail_mode: !self.tail_mode, ..self }
        } else if c == 'G' {
            AppModel { scroll: self.max_scroll(), ..self }
        } else if c == 'g' {
            AppModel { scroll: 0, ..self }
        } else if c == 'n' {
            AppModel {
                notify_on_error: !self.notify_on_error,
                status_message: Some(
                    (
                        if self.notify_on_error {
                            "Notifications disabled"@
                        } else {
                            "Notifications enabled"@
                        },
                        now,
                    ),
                ),
                ..self
            }
        } else {
            match level_of_key(c) {
                Some(level) => self.toggled(level),
                None => self,
            }
        }
    }

    /// The state after `key` was pressed at time `now` in normal mode. The
    /// arrows move the selection by one row and the page keys by `PAGE_STEP`
    /// rows, as far as there are rows; `Home` and `End` select the first and
    /// the last shown row and leave tail mode as it is.
    pub open spec fn after_normal_key(self, key: Key, now: u64) -> AppModel {
        match key {
            Key::Char(c) => self.after_command(c, now),
            Key::Up => if self.scroll > 0 {
                self.moved_to((self.scroll - 1) as usize)
            } else {
                self
            },
            Key::Down => if self.scroll < self.max_scroll() {
                self.moved_to((self.scroll + 1) as usize)
            } else {
                self
            },
            Key::PageUp => self.moved_to(stepped_up(self.scroll, PAGE_STEP)),
            Key::PageDown => self.moved_to(stepped_down(self.scroll, PAGE_STEP, self.max_scroll())),
            Key::Home => AppModel { scroll: 0, ..self },
            Key::End => AppModel { scroll: self.max_scroll(), ..self },
            _ => self,
        }
    }

    /// The state after `key` was pressed at time `now`.
    pub open spec fn after_key(self, key: Key, now: u64) -> AppModel {
        if self.search_mode {
            self.after_search_key(key)
        } else {
            self.after_normal_key(key, now)
        }
    }

    /// What is left for the caller to do after `key` was pressed: to leave
    /// after `q`, to copy the selected line after `y` or `c`, and to announce
    /// the end of a search.
    pub open spec fn key_action(self, key: Key) -> ActionModel {
        if self.search_mode {
            match key {
                Key::Esc => ActionModel::Announce("Exited search mode"@),
                Key::Enter => ActionModel::Announce("Confirmed search: "@ + self.search_query),
                _ => ActionModel::Nothing,
            }
        } else {
            match key {
                Key::Char(c) => if c == 'q' {
                    ActionModel::Quit
                } else if c == 'y' || c == 'c' {
                    match self.selected() {
                        Some(e) => ActionModel::Copy(copy_text(e)),
                        None => ActionModel::Nothing,
                    }
                } else {
                    ActionModel::Nothing
                },
                _ => ActionModel::Nothing,
            }
        }
    }

    /// The state after the mouse did `kind`: the wheel moves the selection by
    /// `WHEEL_STEP` rows, as far as there are rows.
    pub open spec fn after_mouse(self, kind: MouseKind) -> AppModel {
        match kind {
            MouseKind::ScrollUp => if self.scroll > 0 {
                self.moved_to(stepped_up(self.scroll, WHEEL_STEP))
            } else {
                self
            },
            MouseKind::ScrollDown => if self.scroll < self.max_scroll() {
                self.moved_to(stepped_down(self.scroll, WHEEL_STEP, self.max_scroll()))
            } else {
                self
            },
            MouseKind::Other => self,
        }
    }

    /// The state after `e` came out of the channel: it is handed to the
    /// store, and in tail mode the selection goes to the last shown row.
    pub open spec fn received(self, e: EntryModel) -> AppModel {
        let m = self.appended(e);
        AppModel {
            scroll: if m.tail_mode {
                m.max_scroll()
            } else {
                m.scroll
            },
            ..m
        }
    }

    /// The state once the first entries are in: the shown positions are
    /// computed and the selection is on the last of them.
    pub open spec fn warmed_up(self) -> AppModel {
        let m = self.refiltered();
        AppModel { scroll: m.max_scroll(), ..m }
    }
}

/// The smaller of `a + step` and `max`.
pub fn step_down(a: usize, step: usize, max: usize) -> (r: usize)
    ensures
        r == stepped_down(a, step, max),
{
    if a <= max && max - a >= step {
        a + step
    } else {
        max
    }
}

/// `a - step`, or 0 where `step` is larger.
pub fn step_up(a: usize, step: usize) -> (r: usize)
    ensures
        r == stepped_up(a, step),
{
    if a >= step {
        a - step
    } else {
        0
    }
}

/// The level that the key `c` switches in normal mode, if it switches one.
pub fn key_level(c: char) -> (level: Option<LogLevel>)
    ensures
        level == level_of_key(c),
{
    if c == 'e' {
        Some(LogLevel::Error)
    } else if c == 'w' {
        Some(LogLevel::Warning)
    } else if c == 'i' {
        Some(LogLevel::Info)
    } else if c == 'd' {
        Some(LogLevel::Debug)
    } else if c == 'v' {
        Some(LogLevel::Verbose)
    } else {
        None
    }
}

/// The line that goes to the clipboard for `entry`.
pub fn clipboard_line(entry: &LogEntry) -> (text: String)
    ensures
        text@ == copy_text(entry@),
{
    let mut text = String::new();
    text.append(entry.timestamp.as_str());
    text.append(" [");
    text.append(entry.tag.as_str());
    text.append("] ");
    text.append(entry.level.as_str());
    text.append(": ");
    text.append(entry.message.as_str());
    proof {
        assert(text@ =~= copy_text(entry@));
    }
    text
}

impl AppState {
    /// The position of the last shown row, or 0 where none is shown.
    pub fn max_scroll(&self) -> (max: usize)
        ensures
            max == self@.max_scroll(),
    {
        if self.filtered_logs.len() == 0 {
            0
        } else {
            self.filtered_logs.len() - 1
        }
    }

    /// Moves the selection to `target` and sets tail mode by where it landed.
    fn move_to(&mut self, target: usize)
        ensures
            final(self)@ == old(self)@.moved_to(target),
    {
        let max = self.max_scroll();
        self.scroll = target;
        self.tail_mode = target == max;
    }

    /// The selected entry, if there is one.
    pub fn selected(&self) -> (entry: Option<&LogEntry>)
        ensures
            match entry {
                Some(e) => self@.selected() == Some(e@),
                None => self@.selected().is_none(),
            },
    {
        if self.scroll < self.filtered_logs.len() {
            let index = self.filtered_logs[self.scroll];
            if index < self.logs.len() {
                return Some(&self.logs[index]);
            }
        }
        None
    }

    /// Reacts to `key`, pressed at time `now`.
    pub fn handle_key(&mut self, key: Key, now: u64) -> (action: Action)
        ensures
            final(self)@ == old(self)@.after_key(key, now),
            action@ == old(self)@.key_action(key),
            old(self)@.wf() ==> final(self)@.wf(),
    {
        if self.search_mode {
            self.handle_search_key(key)
        } else {
            self.handle_normal_key(key, now)
        }
    }

    fn handle_search_key(&mut self, key: Key) -> (action: Action)
        requires
            old(self).search_mode,
        ensures
            final(self)@ == old(self)@.after_search_key(key),
            action@ == old(self)@.key_action(key),
    {
        match key {
            Key::Esc => {
                self.search_mode = false;
                self.search_query.clear();
                self.status_message = None;
                self.update_filtered_logs();
                Action::Announce("Exited search mode".to_owned())
            },
            Key::Enter => {
                self.search_mode = false;
                self.status_message = None;
                self.update_filtered_logs();
                let mut line = "Confirmed search: ".to_owned();
                line.append(self.search_query.as_str());
                Action::Announce(line)
            },
            Key::Char(c) => {
                self.search_query.push(c);
                self.update_filtered_logs();
                Action::Nothing
            },
            Key::Backspace => {
                if !self.search_query.as_str().is_empty() {
                    let _ = self.search_query.pop();
                    self.update_filtered_logs();
                }
                Action::Nothing
            },
            _ => Action::Nothing,
        }
    }

    fn handle_normal_key(&mut self, key: Key, now: u64) -> (action: Action)
        requires
            !old(self).search_mode,
        ensures
            final(self)@ == old(self)@.after_normal_key(key, now),
            action@ == old(self)@.key_action(key),
    {
        match key {
            Key::Char(c) => self.handle_command(c, now),
            Key::Up => {
                if self.scroll > 0 {
                    self.move_to(self.scroll - 1);
                }
                Action::Nothing
            },
            Key::Down => {
                if self.scroll < self.max_scroll() {
                    self.move_to(self.scroll + 1);
                }
                Action::Nothing
            },
            Key::PageUp => {
                self.move_to(step_up(self.scroll, PAGE_STEP));
                Action::Nothing
            },
            Key::PageDown => {
                let max = self.max_scroll();
                self.move_to(step_down(self.scroll, PAGE_STEP, max));
                Action::Nothing
            },
            Key::Home => {
                self.scroll = 0;
                Action::Nothing
            },
            Key::End => {
                self.scroll = self.max_scroll();
                Action::Nothing
            },
            _ => Action::Nothing,
        }
    }

    fn handle_command(&mut self, c: char, now: u64) -> (action: Action)
        requires
            !old(self).search_mode,
        ensures
            final(self)@ == old(self)@.after_command(c, now),
            action@ == old(self)@.key_action(Key::Char(c)),
    {
        if c == 'q' {
            return Action::Quit;
        }
        if c == 'y' || c == 'c' {
            return match self.selected() {
                Some(entry) => Action::Copy(clipboard_line(entry)),
                None => Action::Nothing,
            };
        }
        if c == '1' {
            self.current_view = pane::View::Logs;
        } else if c == '2' {
            self.current_view = pane::View::Stats;
        } else if c == '3' {
            self.current_view = pane::View::Storage;
        } else if c == '/' {
            self.search_mode = true;
        } else if c == ' ' {
            self.paused = !self.paused;
        } else if c == 't' {
            self.tail_mode = !self.tail_mode;
        } else if c == 'G' {
            self.scroll = self.max_scroll();
        } else if c == 'g' {
            self.scroll = 0;
        } else if c == 'n' {
            self.notify_on_error = !self.notify_on_error;
            let text = if self.notify_on_error {
                "Notifications enabled".to_owned()
            } else {
                "Notifications disabled".to_owned()
            };
            self.status_message = Some((text, now));
        } else {
            match key_level(c) {
                Some(level) => self.toggle_level(level),
                None => {},
            }
        }
        Action::Nothing
    }

    /// Reacts to the mouse.
    pub fn handle_mouse(&mut self, kind: MouseKind)
        ensures
            final(self)@ == old(self)@.after_mouse(kind),
            old(self)@.wf() ==> final(self)@.wf(),
    {
        match kind {
            MouseKind::ScrollUp => {
                if self.scroll > 0 {
                    self.move_to(step_up(self.scroll, WHEEL_STEP));
                }
            },
            MouseKind::ScrollDown => {
                let max = self.max_scroll();
                if self.scroll < max {
                    self.move_to(step_down(self.scroll, WHEEL_STEP, max));
                }
            },
            MouseKind::Other => {},
        }
    }

    /// Takes an entry that came out of the channel.
    pub fn receive_log(&mut self, entry: LogEntry)
        requires
            old(self).has_room(entry.level),
        ensures
            final(self)@ == old(self)@.received(entry@),
            old(self)@.wf() ==> final(self)@.wf(),
    {
        self.add_log(entry);
        if self.tail_mode {
            self.scroll = self.max_scroll();
        }
    }

    /// Ends the start-up phase: computes the shown positions and selects the
    /// last of them.
    pub fn finish_warm_up(&mut self)
        ensures
            final(self)@ == old(self)@.warmed_up(),
            old(self)@.logs.len() <= CAPACITY ==> final(self)@.wf(),
    {
        self.update_filtered_logs();
        self.scroll = self.max_scroll();
    }

    /// Notes that the line handed out for copying reached the clipboard.
    pub fn copy_confirmed(&mut self, now: u64)
        ensures
            final(self)@ == (AppModel {
                status_message: Some(("Log copied to clipboard"@, now)),
                ..old(self)@
            }),
    {
        self.status_message = Some(("Log copied to clipboard".to_owned(), now));
    }

    /// Takes over what the storage reported.
    pub fn apply_storage_update(&mut self, update: StorageUpdate)
        ensures
            final(self)@ == (AppModel {
                storage_info: Some(
                    StorageInfoModel {
                        current_file: update.current_file@,
                        total_size: update.total_size,
                        file_count: update.file_count,
                    },
                ),
                ..old(self)@
            }),
    {
        self.storage_info = Some(
            StorageInfo {
                current_file: update.current_file,
                total_size: update.total_size,
                file_count: update.file_count,
            },
        );
    }

    /// Takes over the outcome of a probe of the link to the device.
    pub fn record_probe(&mut self, outcome: ProbeOutcome)
        ensures
            final(self)@ == (AppModel {
                connection_status: match outcome {
                    ProbeOutcome::Reachable => pane::ConnectionStatus::Connected,
                    ProbeOutcome::Unreachable => pane::ConnectionStatus::Disconnected,
                    ProbeOutcome::Failed => pane::ConnectionStatus::Error,
                },
                ..old(self)@
            }),
    {
        self.connection_status = match outcome {
            ProbeOutcome::Reachable => pane::ConnectionStatus::Connected,
            ProbeOutcome::Unreachable => pane::ConnectionStatus::Disconnected,
            ProbeOutcome::Failed => pane::ConnectionStatus::Error,
        };
    }
}

/// In tail mode the selection is on the last shown row, or on 0 where none
/// is shown, after every key that edits the search text or ends the search,
/// after every key that switches a level, and after every entry that came
/// out of the channel while the viewer runs.
pub proof fn lemma_tail_pin_events(m: AppModel, key: Key, now: u64, e: EntryModel)
    requires
        m.tail_mode,
    ensures
        m.search_mode && (key is Esc || key is Enter || key is Char || (key is Backspace
            && m.search_query.len() > 0)) ==> m.after_key(key, now).scroll == m.after_key(
            key,
            now,
        ).max_scroll(),
        !m.search_mode && key is Char && level_of_key(key->Char_0) is Some ==> m.after_key(
            key,
            now,
        ).scroll == m.after_key(key, now).max_scroll(),
        !m.paused ==> m.received(e).scroll == m.received(e).max_scroll(),
{
}

/// While the viewer is paused, an entry that comes out of the channel leaves
/// the store and the counters as they were.
pub proof fn lemma_pause_receive(m: AppModel, e: EntryModel)
    requires
        m.paused,
    ensures
        m.received(e).logs == m.logs,
        m.received(e).stats == m.stats,
        m.received(e).filtered_logs == m.filtered_logs,
{
}

/// After a movement of the selection tail mode is on exactly if the
/// selection is on the last shown row.
pub proof fn lemma_movement_sets_tail(m: AppModel, key: Key, kind: MouseKind, now: u64)
    requires
        !m.search_mode,
    ensures
        (key is Up && m.scroll > 0) || (key is Down && m.scroll < m.max_scroll()) || key is PageUp
            || key is PageDown ==> (m.after_key(key, now).tail_mode <==> m.after_key(
            key,
            now,
        ).scroll == m.after_key(key, now).max_scroll()),
        (kind is ScrollUp && m.scroll > 0) || (kind is ScrollDown && m.scroll < m.max_scroll())
            ==> (m.after_mouse(kind).tail_mode <==> m.after_mouse(kind).scroll == m.after_mouse(
            kind,
        ).max_scroll()),
{
}

/// Keys, the mouse, arriving entries and the end of the start-up phase leave
/// the store within its bound and the shown positions in step with the
/// filter.
pub proof fn lemma_events_preserve_wf(
    m: AppModel,
    key: Key,
    kind: MouseKind,
    now: u64,
    e: EntryModel,
)
    requires
        m.wf(),
    ensures
        m.after_key(key, now).wf(),
        m.after_mouse(kind).wf(),
        m.received(e).wf(),
        m.warmed_up().wf(),
{
}

} // verus!
