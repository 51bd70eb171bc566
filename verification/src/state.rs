//! The state of the interactive viewer: a bounded store of log entries, the
//! active filter, and the list of store positions that pass it.

use crate::level::{EntryModel, LogEntry, LogLevel};
use crate::pane;
use crate::text::{
    chars_of, contains, contains_chars, contains_ignoring_case, first_index_of,
    lemma_first_index_of_unique, lowercase, to_lower,
};
use std::collections::VecDeque;
use vstd::prelude::*;

verus! {

/// The most entries that the store holds.
pub const CAPACITY: usize = 10000;

/// How many of the oldest entries leave a full store before the next one
/// enters.
pub const EVICT_BATCH: usize = 1000;

/// What is known of the files that the log is saved to.
#[derive(Debug)]
pub struct StorageInfo {
    pub current_file: String,
    pub total_size: u64,
    pub file_count: usize,
}

/// What a `StorageInfo` holds, as plain values.
pub struct StorageInfoModel {
    pub current_file: Seq<char>,
    pub total_size: u64,
    pub file_count: usize,
}

impl View for StorageInfo {
    type V = StorageInfoModel;

    open spec fn view(&self) -> StorageInfoModel {
        StorageInfoModel {
            current_file: self.current_file@,
            total_size: self.total_size,
            file_count: self.file_count,
        }
    }
}

/// How many entries of each level were accepted.
#[derive(Clone, Copy, PartialEq, Eq, Structural, Debug)]
pub struct LogStats {
    pub error_count: usize,
    pub warning_count: usize,
    pub info_count: usize,
    pub debug_count: usize,
    pub verbose_count: usize,
}

impl LogStats {
    /// The counter of `level`. Entries of unknown level are not counted.
    pub open spec fn count(self, level: LogLevel) -> int {
        match level {
            LogLevel::Error => self.error_count as int,
            LogLevel::Warning => self.warning_count as int,
            LogLevel::Info => self.info_count as int,
            LogLevel::Debug => self.debug_count as int,
            LogLevel::Verbose => self.verbose_count as int,
            LogLevel::Unknown => 0,
        }
    }

    /// The counters after one more entry of `level`.
    pub open spec fn counted(self, level: LogLevel) -> LogStats {
        match level {
            LogLevel::Error => LogStats { error_count: (self.error_count + 1) as usize, ..self },
            LogLevel::Warning => LogStats {
                warning_count: (self.warning_count + 1) as usize,
                ..self
            },
            LogLevel::Info => LogStats { info_count: (self.info_count + 1) as usize, ..self },
            LogLevel::Debug => LogStats { debug_count: (self.debug_count + 1) as usize, ..self },
            LogLevel::Verbose => LogStats {
                verbose_count: (self.verbose_count + 1) as usize,
                ..self
            },
            LogLevel::Unknown => self,
        }
    }
}

/// Everything the viewer shows and the controller changes. Times are
/// nanoseconds on a clock that never runs backwards.
pub struct AppState {
    pub current_view: pane::View,
    pub logs: VecDeque<LogEntry>,
    pub filtered_logs: Vec<usize>,
    pub scroll: usize,
    pub paused: bool,
    pub search_query: String,
    pub search_mode: bool,
    pub storage_info: Option<StorageInfo>,
    pub stats: LogStats,
    pub level_filters: Vec<LogLevel>,
    pub tail_mode: bool,
    pub status_message: Option<(String, u64)>,
    pub connection_status: pane::ConnectionStatus,
    pub notify_on_error: bool,
    pub last_notification: Option<u64>,
}

/// What an `AppState` holds, as plain values.
pub struct AppModel {
    pub current_view: pane::View,
    pub logs: Seq<EntryModel>,
    pub filtered_logs: Seq<usize>,
    pub scroll: usize,
    pub paused: bool,
    pub search_query: Seq<char>,
    pub search_mode: bool,
    pub storage_info: Option<StorageInfoModel>,
    pub stats: LogStats,
    pub level_filters: Seq<LogLevel>,
    pub tail_mode: bool,
    pub status_message: Option<(Seq<char>, u64)>,
    pub connection_status: pane::ConnectionStatus,
    pub notify_on_error: bool,
    pub last_notification: Option<u64>,
}

/// The entries of a store as plain values.
pub open spec fn entries_view(logs: Seq<LogEntry>) -> Seq<EntryModel> {
    logs.map_values(|e: LogEntry| e@)
}

impl View for AppState {
    type V = AppModel;

    open spec fn view(&self) -> AppModel {
        AppModel {
            current_view: self.current_view,
            logs: entries_view(self.logs@),
            filtered_logs: self.filtered_logs@,
            scroll: self.scroll,
            paused: self.paused,
            search_query: self.search_query@,
            search_mode: self.search_mode,
            storage_info: match self.storage_info {
                Some(info) => Some(info@),
                None => None,
            },
            stats: self.stats,
            level_filters: self.level_filters@,
            tail_mode: self.tail_mode,
            status_message: match self.status_message {
                Some((text, at)) => Some((text@, at)),
                None => None,
            },
            connection_status: self.connection_status,
            notify_on_error: self.notify_on_error,
            last_notification: self.last_notification,
        }
    }
}

/// Whether an entry passes the filter: its level is enabled, and the search
/// text is empty or occurs, letter case aside, in its message, its tag or the
/// name of its level.
pub open spec fn entry_matches(e: EntryModel, levels: Seq<LogLevel>, query: Seq<char>) -> bool {
    &&& levels.contains(e.level)
    &&& (query.len() == 0 || contains_ignoring_case(e.message, query) || contains_ignoring_case(
        e.tag,
        query,
    ) || contains_ignoring_case(e.level.name(), query))
}

/// The positions of the entries that pass the filter, oldest first.
pub open spec fn filter_indices(
    logs: Seq<EntryModel>,
    levels: Seq<LogLevel>,
    query: Seq<char>,
) -> Seq<usize>
    decreases logs.len(),
{
    if logs.len() == 0 {
        Seq::empty()
    } else {
        let before = filter_indices(logs.drop_last(), levels, query);
        if entry_matches(logs.last(), levels, query) {
            before.push((logs.len() - 1) as usize)
        } else {
            before
        }
    }
}

/// The position of the last of `n` rows, or 0 where there is none.
pub open spec fn last_index(n: nat) -> usize {
    if n == 0 {
        0
    } else {
        (n - 1) as usize
    }
}

/// The store after `e` has entered: a full store first loses its oldest
/// `EVICT_BATCH` entries.
pub open spec fn store_appended(logs: Seq<EntryModel>, e: EntryModel) -> Seq<EntryModel> {
    if logs.len() >= CAPACITY {
        logs.skip(EVICT_BATCH as int).push(e)
    } else {
        logs.push(e)
    }
}

/// The enabled levels after `level` is switched: an enabled level leaves the
/// list, a disabled one joins it at the end.
pub open spec fn toggled_levels(levels: Seq<LogLevel>, level: LogLevel) -> Seq<LogLevel> {
    if levels.contains(level) {
        levels.remove(first_index_of(levels, level))
    } else {
        levels.push(level)
    }
}

impl AppModel {
    /// The state of a viewer that has just started.
    pub open spec fn initial() -> AppModel {
        AppModel {
            current_view: pane::View::Logs,
            logs: Seq::empty(),
            filtered_logs: Seq::empty(),
            scroll: 0,
            paused: false,
            search_query: Seq::empty(),
            search_mode: false,
            storage_info: None,
            stats: LogStats {
                error_count: 0,
                warning_count: 0,
                info_count: 0,
                debug_count: 0,
                verbose_count: 0,
            },
            level_filters: seq![
                LogLevel::Error,
                LogLevel::Warning,
                LogLevel::Info,
                LogLevel::Debug,
                LogLevel::Verbose,
            ],
            tail_mode: true,
            status_message: None,
            connection_status: pane::ConnectionStatus::Connected,
            notify_on_error: true,
            last_notification: None,
        }
    }

    /// The state with the list of shown positions computed anew. In tail mode
    /// the selection moves to the last of them.
    pub open spec fn refiltered(self) -> AppModel {
        let shown = filter_indices(self.logs, self.level_filters, self.search_query);
        AppModel {
            filtered_logs: shown,
            scroll: if self.tail_mode {
                last_index(shown.len())
            } else {
                self.scroll
            },
            ..self
        }
    }

    /// The state after `e` has arrived. A paused viewer drops it.
    pub open spec fn appended(self, e: EntryModel) -> AppModel {
        if self.paused {
            self
        } else {
            AppModel {
                logs: store_appended(self.logs, e),
                stats: self.stats.counted(e.level),
                ..self
            }.refiltered()
        }
    }

    /// The state after `level` has been switched on or off.
    pub open spec fn toggled(self, level: LogLevel) -> AppModel {
        AppModel { level_filters: toggled_levels(self.level_filters, level), ..self }.refiltered()
    }

    /// Whether the store is within its bound and the shown positions are
    /// those of the entries that pass the filter.
    pub open spec fn wf(self) -> bool {
        &&& self.logs.len() <= CAPACITY
        &&& self.filtered_logs == filter_indices(self.logs, self.level_filters, self.search_query)
    }
}

/// Whether `level` is among `levels`.
pub fn level_enabled(levels: &Vec<LogLevel>, level: LogLevel) -> (b: bool)
    ensures
        b == levels@.contains(level),
{
    let mut i: usize = 0;
    while i < levels.len()
        invariant
            i <= levels.len(),
            forall|j: int| 0 <= j < i ==> levels@[j] != level,
        decreases levels.len() - i,
    {
        if levels[i] == level {
            return true;
        }
        i += 1;
    }
    false
}

/// Whether the lowercase form of `hay` contains `term`.
fn lowered_contains(hay: &str, term: &Vec<char>) -> (b: bool)
    ensures
        b == contains(lowercase(hay@), term@),
{
    let low = to_lower(hay);
    let h = chars_of(low.as_str());
    contains_chars(&h, term)
}

/// Whether `entry` passes the filter, given the search text and its
/// lowercase form.
fn passes(entry: &LogEntry, levels: &Vec<LogLevel>, query: &str, term: &Vec<char>) -> (b: bool)
    requires
        term@ == lowercase(query@),
    ensures
        b == entry_matches(entry@, levels@, query@),
{
    let level_match = level_enabled(levels, entry.level);
    let search_match = if query.is_empty() {
        true
    } else {
        lowered_contains(entry.message.as_str(), term) || lowered_contains(
            entry.tag.as_str(),
            term,
        ) || lowered_contains(entry.level.as_str(), term)
    };
    level_match && search_match
}

/// Whether `entry` passes the filter made of the enabled `levels` and the
/// search text `query`.
pub fn matches_filter(entry: &LogEntry, levels: &Vec<LogLevel>, query: &str) -> (b: bool)
    ensures
        b == entry_matches(entry@, levels@, query@),
{
    let low = to_lower(query);
    let term = chars_of(low.as_str());
    passes(entry, levels, query, &term)
}

/// Removes the `n` oldest entries.
fn evict_oldest(logs: &mut VecDeque<LogEntry>, n: usize)
    requires
        n <= old(logs)@.len(),
    ensures
        final(logs)@ == old(logs)@.skip(n as int),
{
    let mut k: usize = 0;
    while k < n
        invariant
            k <= n <= old(logs)@.len(),
            logs@ == old(logs)@.skip(k as int),
        decreases n - k,
    {
        let _ = logs.pop_front();
        k += 1;
        assert(logs@ =~= old(logs)@.skip(k as int));
    }
}

impl AppState {
    /// The state of a viewer that has just started: an empty store, every
    /// level but the unknown one enabled, no search, and tail mode on.
    pub fn new() -> (state: AppState)
        ensures
            state@ == AppModel::initial(),
            state@.wf(),
    {
        let state = AppState {
            current_view: pane::View::Logs,
            logs: VecDeque::with_capacity(CAPACITY),
            filtered_logs: Vec::new(),
            scroll: 0,
            paused: false,
            search_query: String::new(),
            search_mode: false,
            storage_info: None,
            stats: LogStats {
                error_count: 0,
                warning_count: 0,
                info_count: 0,
                debug_count: 0,
                verbose_count: 0,
            },
            level_filters: vec![
                LogLevel::Error,
                LogLevel::Warning,
                LogLevel::Info,
                LogLevel::Debug,
                LogLevel::Verbose,
            ],
            tail_mode: true,
            status_message: None,
            connection_status: pane::ConnectionStatus::Connected,
            notify_on_error: true,
            last_notification: None,
        };
        proof {
            assert(entries_view(state.logs@) =~= Seq::empty());
            assert(state.level_filters@ =~= AppModel::initial().level_filters);
        }
        state
    }

    /// How many entries the store holds.
    pub fn len(&self) -> (n: usize)
        ensures
            n == self@.logs.len(),
    {
        self.logs.len()
    }

    /// The entry at the store position `index`, the oldest being at 0.
    pub fn get(&self, index: usize) -> (entry: Option<&LogEntry>)
        ensures
            match entry {
                Some(e) => index < self@.logs.len() && e@ == self@.logs[index as int],
                None => index >= self@.logs.len(),
            },
    {
        if index < self.logs.len() {
            Some(&self.logs[index])
        } else {
            None
        }
    }

    /// Whether the state can take an entry of `level`: it is paused, or the
    /// counter of the level can still grow.
    pub open spec fn has_room(self, level: LogLevel) -> bool {
        self.paused || self.stats.count(level) < usize::MAX
    }

    /// Whether the state can take an entry of `level`.
    pub fn can_take(&self, level: LogLevel) -> (b: bool)
        ensures
            b == self.has_room(level),
    {
        self.paused || match level {
            LogLevel::Error => self.stats.error_count < usize::MAX,
            LogLevel::Warning => self.stats.warning_count < usize::MAX,
            LogLevel::Info => self.stats.info_count < usize::MAX,
            LogLevel::Debug => self.stats.debug_count < usize::MAX,
            LogLevel::Verbose => self.stats.verbose_count < usize::MAX,
            LogLevel::Unknown => true,
        }
    }

    /// Appends `entry` to the store, unless the viewer is paused.
    pub fn add_log(&mut self, entry: LogEntry)
        requires
            old(self).has_room(entry.level),
        ensures
            final(self)@ == old(self)@.appended(entry@),
            old(self)@.wf() ==> final(self)@.wf(),
    {
        if !self.paused {
            if self.logs.len() >= CAPACITY {
                evict_oldest(&mut self.logs, EVICT_BATCH);
            }
            match entry.level {
                LogLevel::Error => self.stats.error_count += 1,
                LogLevel::Warning => self.stats.warning_count += 1,
                LogLevel::Info => self.stats.info_count += 1,
                LogLevel::Debug => self.stats.debug_count += 1,
                LogLevel::Verbose => self.stats.verbose_count += 1,
                LogLevel::Unknown => (),
            }
            let ghost e = entry@;
            self.logs.push_back(entry);
            proof {
                assert(entries_view(self.logs@) =~= store_appended(entries_view(old(self).logs@), e));
            }
            self.update_filtered_logs();
        }
    }

    /// Enables `level` if it is disabled and disables it if it is enabled.
    pub fn toggle_level(&mut self, level: LogLevel)
        ensures
            final(self)@ == old(self)@.toggled(level),
            old(self)@.wf() ==> final(self)@.wf(),
    {
        let mut pos: usize = 0;
        while pos < self.level_filters.len() && self.level_filters[pos] != level
            invariant
                pos <= self.level_filters.len(),
                forall|j: int| 0 <= j < pos ==> self.level_filters@[j] != level,
                *self == *old(self),
            decreases self.level_filters.len() - pos,
        {
            pos += 1;
        }
        proof {
            lemma_first_index_of_unique(self.level_filters@, level, pos as int);
        }
        if pos < self.level_filters.len() {
            let _ = self.level_filters.remove(pos);
        } else {
            self.level_filters.push(level);
        }
        self.update_filtered_logs();
    }

    /// Computes the list of shown positions anew from the store and the
    /// filter.
    pub fn update_filtered_logs(&mut self)
        ensures
            final(self)@ == old(self)@.refiltered(),
            old(self)@.logs.len() <= CAPACITY ==> final(self)@.wf(),
    {
        let low = to_lower(self.search_query.as_str());
        let term = chars_of(low.as_str());
        let mut shown: Vec<usize> = Vec::new();
        let n = self.logs.len();
        let ghost all = entries_view(self.logs@);
        let mut i: usize = 0;
        while i < n
            invariant
                i <= n,
                n == self.logs@.len(),
                all == entries_view(self.logs@),
                term@ == lowercase(self.search_query@),
                *self == *old(self),
                shown@ == filter_indices(
                    all.take(i as int),
                    self.level_filters@,
                    self.search_query@,
                ),
            decreases n - i,
        {
            proof {
                assert(all.take(i + 1).drop_last() =~= all.take(i as int));
                assert(all.take(i + 1).last() == self.logs@[i as int]@);
            }
            if passes(&self.logs[i], &self.level_filters, self.search_query.as_str(), &term) {
                shown.push(i);
            }
            i += 1;
        }
        proof {
            assert(all.take(n as int) =~= all);
        }
        self.filtered_logs = shown;
        if self.tail_mode {
            self.scroll = if self.filtered_logs.len() == 0 {
                0
            } else {
                self.filtered_logs.len() - 1
            };
        }
    }
}

/// The store after the entries `es` have entered one by one, the first of
/// them first.
pub open spec fn store_appended_all(logs: Seq<EntryModel>, es: Seq<EntryModel>) -> Seq<EntryModel>
    decreases es.len(),
{
    if es.len() == 0 {
        logs
    } else {
        store_appended(store_appended_all(logs, es.drop_last()), es.last())
    }
}

/// A store within its bound stays within it however many entries arrive. It
/// always holds the most recent arrivals in the order of arrival: as long as
/// no more than `CAPACITY` have come it holds them all, and after that it
/// holds the last `len` of them, where `len` lies between
/// `CAPACITY - EVICT_BATCH + 1` and `CAPACITY`.
pub proof fn lemma_store_bound(logs: Seq<EntryModel>, es: Seq<EntryModel>)
    requires
        logs.len() <= CAPACITY,
    ensures
        store_appended_all(logs, es).len() <= CAPACITY,
        store_appended_all(logs, es) == (logs + es).skip(
            (logs + es).len() - store_appended_all(logs, es).len(),
        ),
        logs.len() + es.len() <= CAPACITY ==> store_appended_all(logs, es) == logs + es,
        logs.len() + es.len() > CAPACITY ==> store_appended_all(logs, es).len() >= CAPACITY
            - EVICT_BATCH + 1,
    decreases es.len(),
{
    let all = logs + es;
    let kept = store_appended_all(logs, es);
    if es.len() == 0 {
        assert(all =~= logs);
        assert(all.skip(0) =~= all);
    } else {
        let earlier = es.drop_last();
        let before = store_appended_all(logs, earlier);
        let all_before = logs + earlier;
        lemma_store_bound(logs, earlier);
        assert(all =~= all_before.push(es.last()));
        if before.len() >= CAPACITY {
            assert(kept =~= all.skip(all.len() - kept.len()));
        } else {
            assert(kept =~= all.skip(all.len() - kept.len()));
        }
        if logs.len() + es.len() <= CAPACITY {
            assert(kept =~= all);
        }
    }
}

/// After `n` arrivals an empty store holds `n` entries while `n` is at most
/// `CAPACITY`; from then on the count climbs from `CAPACITY - EVICT_BATCH + 1`
/// to `CAPACITY` and starts over.
pub proof fn lemma_store_len(es: Seq<EntryModel>)
    ensures
        store_appended_all(Seq::empty(), es).len() == if es.len() <= CAPACITY {
            es.len() as int
        } else {
            CAPACITY - EVICT_BATCH + 1 + (es.len() - CAPACITY - 1) % (EVICT_BATCH as int)
        },
    decreases es.len(),
{
    if es.len() > 0 {
        lemma_store_len(es.drop_last());
    }
}

/// The shown positions are valid, strictly increasing, and exactly those of
/// the entries that pass the filter.
pub proof fn lemma_filter_indices(logs: Seq<EntryModel>, levels: Seq<LogLevel>, query: Seq<char>)
    requires
        logs.len() <= usize::MAX,
    ensures
        filter_indices(logs, levels, query).len() <= logs.len(),
        forall|k: int|
            0 <= k < filter_indices(logs, levels, query).len() ==> (#[trigger] filter_indices(
                logs,
                levels,
                query,
            )[k]) < logs.len(),
        forall|j: int, k: int|
            0 <= j < k < filter_indices(logs, levels, query).len() ==> filter_indices(
                logs,
                levels,
                query,
            )[j] < filter_indices(logs, levels, query)[k],
        forall|i: int|
            0 <= i < logs.len() ==> (entry_matches(#[trigger] logs[i], levels, query)
                <==> filter_indices(logs, levels, query).contains(i as usize)),
    decreases logs.len(),
{
    let shown = filter_indices(logs, levels, query);
    if logs.len() > 0 {
        let earlier = logs.drop_last();
        let before = filter_indices(earlier, levels, query);
        let last = (logs.len() - 1) as usize;
        lemma_filter_indices(earlier, levels, query);
        assert forall|i: int| 0 <= i < logs.len() implies (entry_matches(
            #[trigger] logs[i],
            levels,
            query,
        ) <==> shown.contains(i as usize)) by {
            if i < logs.len() - 1 {
                assert(logs[i] == earlier[i]);
                if before.contains(i as usize) {
                    let k = choose|k: int| 0 <= k < before.len() && before[k] == i as usize;
                    assert(shown[k] == i as usize);
                }
                if shown.contains(i as usize) {
                    let k = choose|k: int| 0 <= k < shown.len() && shown[k] == i as usize;
                    if k < before.len() {
                        assert(before[k] == i as usize);
                    }
                }
            } else {
                if entry_matches(logs[i], levels, query) {
                    assert(shown[shown.len() - 1] == last);
                }
                if shown.contains(i as usize) {
                    let k = choose|k: int| 0 <= k < shown.len() && shown[k] == i as usize;
                    if k < before.len() {
                        assert(before[k] < earlier.len());
                    }
                }
            }
        }
    }
}

/// Computing the shown positions a second time changes nothing.
pub proof fn lemma_refilter_idempotent(m: AppModel)
    ensures
        m.refiltered().refiltered() == m.refiltered(),
{
}

/// In tail mode the selection is on the last shown row, or on 0 where none
/// is shown, after the shown positions were computed anew, after an entry
/// was accepted, and after a level was switched.
pub proof fn lemma_tail_pin(m: AppModel, e: EntryModel, level: LogLevel)
    requires
        m.tail_mode,
    ensures
        m.refiltered().scroll == last_index(m.refiltered().filtered_logs.len()),
        !m.paused ==> m.appended(e).scroll == last_index(m.appended(e).filtered_logs.len()),
        m.toggled(level).scroll == last_index(m.toggled(level).filtered_logs.len()),
{
}

/// A paused viewer takes an arriving entry and leaves everything as it was:
/// the store, the counters and the shown positions.
pub proof fn lemma_pause_drops(m: AppModel, e: EntryModel)
    requires
        m.paused,
    ensures
        m.appended(e) == m,
        m.appended(e).logs.len() == m.logs.len(),
        m.appended(e).stats == m.stats,
{
}

/// Accepting an entry, switching a level and computing the shown positions
/// anew each leave the store within its bound and the shown positions in
/// step with the filter.
pub proof fn lemma_wf_preserved(m: AppModel, e: EntryModel, level: LogLevel)
    requires
        m.logs.len() <= CAPACITY,
    ensures
        m.refiltered().wf(),
        m.toggled(level).wf(),
        m.wf() ==> m.appended(e).wf(),
        !m.paused ==> m.appended(e).wf(),
{
}

} // verus!
