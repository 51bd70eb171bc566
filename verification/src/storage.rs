//! Bookkeeping for the files that the log is saved to: how full the current
//! file is, when the next one is due, what is reported after each write, and
//! which saved records a query returns. Opening, writing and listing files
//! is left to the caller.

use crate::clock::{file_stamp_now, is_file_stamp};
use crate::level::LogEntry;
use crate::text::{chars_of, matches_at};
use vstd::prelude::*;
use vstd::string::StringExecFns;

verus! {

/// Bytes in a megabyte.
pub const MEGABYTE: u64 = 1048576;

/// What the storage reports after each write: the file it writes to, the size
/// of all files in its directory, and how many log files there are.
#[derive(Debug)]
pub struct StorageUpdate {
    pub current_file: String,
    pub total_size: u64,
    pub file_count: usize,
}

/// A point in time: whole seconds since the start of 1970 in universal time,
/// and the nanoseconds past them.
#[derive(Clone, Copy, PartialEq, Eq, Structural, Debug)]
pub struct Timestamp {
    pub secs: i64,
    pub nanos: u32,
}

/// One saved record.
#[derive(Debug)]
pub struct StoredLog {
    pub timestamp: Timestamp,
    pub level: String,
    pub tag: String,
    pub message: String,
    pub device_id: Option<String>,
}

/// The state of the storage: where it writes, how much the current file
/// holds, and at how many megabytes a file is full.
#[derive(Debug)]
pub struct LogStorage {
    pub base_path: String,
    pub current_file: String,
    pub max_size: u64,
    pub current_size: u64,
}

impl StoredLog {
    /// The record for `entry`, saved at `timestamp`: the level by its name,
    /// tag and message as they are, and no device.
    pub fn of_entry(entry: &LogEntry, timestamp: Timestamp) -> (record: StoredLog)
        ensures
            record.timestamp == timestamp,
            record.level@ == entry.level.name(),
            record.tag@ == entry.tag@,
            record.message@ == entry.message@,
            record.device_id.is_none(),
    {
        StoredLog {
            timestamp,
            level: entry.level.as_str().to_owned(),
            tag: entry.tag.clone(),
            message: entry.message.clone(),
            device_id: None,
        }
    }
}

impl Timestamp {
    /// Whether `self` is `other` or earlier.
    pub open spec fn not_after(self, other: Timestamp) -> bool {
        self.secs < other.secs || (self.secs == other.secs && self.nanos <= other.nanos)
    }

    /// Whether `self` lies between `start` and `end`, both included.
    pub open spec fn within(self, start: Timestamp, end: Timestamp) -> bool {
        start.not_after(self) && self.not_after(end)
    }

    /// Whether `self` is `other` or earlier.
    pub fn is_not_after(&self, other: &Timestamp) -> (b: bool)
        ensures
            b == self.not_after(*other),
    {
        self.secs < other.secs || (self.secs == other.secs && self.nanos <= other.nanos)
    }
}

/// The records of `records` whose time lies between `start` and `end`, both
/// included, in their order.
pub open spec fn selected(records: Seq<StoredLog>, start: Timestamp, end: Timestamp) -> Seq<
    StoredLog,
>
    decreases records.len(),
{
    if records.len() == 0 {
        Seq::empty()
    } else {
        let before = selected(records.drop_last(), start, end);
        if records.last().timestamp.within(start, end) {
            before.push(records.last())
        } else {
            before
        }
    }
}

/// The sum of `sizes`.
pub open spec fn total(sizes: Seq<u64>) -> nat
    decreases sizes.len(),
{
    if sizes.len() == 0 {
        0
    } else {
        total(sizes.drop_last()) + sizes.last() as nat
    }
}

/// Whether a record of `len` bytes fills a file that holds `size`: with the
/// record the file reaches the threshold.
pub open spec fn fills(size: nat, len: nat, threshold: nat) -> bool {
    size + len >= threshold
}

/// The size of the current file once a record of `len` bytes was written to
/// one that held `size`, and the next file was begun if that filled it.
pub open spec fn size_after(size: nat, len: nat, threshold: nat) -> nat {
    if fills(size, len, threshold) {
        0
    } else {
        size + len
    }
}

/// The size of the current file once the records of the lengths `lens` were
/// written, the first of them to a file that held `size`.
pub open spec fn size_after_all(size: nat, lens: Seq<u64>, threshold: nat) -> nat
    decreases lens.len(),
{
    if lens.len() == 0 {
        size
    } else {
        size_after(size_after_all(size, lens.drop_last(), threshold), lens.last() as nat, threshold)
    }
}

/// How many files were filled while the records of the lengths `lens` were
/// written, the first of them to a file that held `size`.
pub open spec fn rotations(size: nat, lens: Seq<u64>, threshold: nat) -> nat
    decreases lens.len(),
{
    if lens.len() == 0 {
        0
    } else {
        let earlier = rotations(size, lens.drop_last(), threshold);
        if fills(size_after_all(size, lens.drop_last(), threshold), lens.last() as nat, threshold) {
            earlier + 1
        } else {
            earlier
        }
    }
}

/// Whether a file of the name `name` counts as a log file: the name ends in
/// `.jsonl` and has something before that.
pub open spec fn is_log_name(name: Seq<char>) -> bool {
    name.len() > ".jsonl"@.len() && name.subrange(name.len() - ".jsonl"@.len(), name.len() as int)
        == ".jsonl"@
}

/// How many of `names` are names of log files.
pub open spec fn log_names(names: Seq<String>) -> nat
    decreases names.len(),
{
    if names.len() == 0 {
        0
    } else {
        log_names(names.drop_last()) + if is_log_name(names.last()@) {
            1nat
        } else {
            0nat
        }
    }
}

/// The name of the log file begun at the time that `stamp` names.
pub open spec fn file_name(stamp: Seq<char>) -> Seq<char> {
    "logcat_"@ + stamp + ".jsonl"@
}

impl LogStorage {
    /// The size in bytes at which the current file is full.
    pub open spec fn threshold(self) -> nat {
        (self.max_size * MEGABYTE) as nat
    }

    /// The storage for the directory `base_path`, writing to the new, empty
    /// file `current_file`, with files of at most `max_size` megabytes.
    pub fn new(base_path: String, max_size: u64, current_file: String) -> (storage: LogStorage)
        ensures
            storage.base_path == base_path,
            storage.current_file == current_file,
            storage.max_size == max_size,
            storage.current_size == 0,
    {
        LogStorage { base_path, current_file, max_size, current_size: 0 }
    }

    /// Whether the size of the current file can grow by `len`.
    pub open spec fn has_room(self, len: usize) -> bool {
        self.current_size + len <= u64::MAX
    }

    /// Whether the size of the current file can grow by `len`.
    pub fn can_store(&self, len: usize) -> (b: bool)
        ensures
            b == self.has_room(len),
    {
        len as u128 <= (u64::MAX - self.current_size) as u128
    }

    /// Notes that a record of `len` bytes was written to the current file.
    /// Returns whether that filled the file, so that the next file is due;
    /// `rotate_log` notes that it was begun.
    pub fn store_log(&mut self, len: usize) -> (rotate: bool)
        requires
            old(self).has_room(len),
        ensures
            final(self).current_size == old(self).current_size + len,
            final(self).max_size == old(self).max_size,
            final(self).base_path == old(self).base_path,
            final(self).current_file == old(self).current_file,
            rotate == fills(old(self).current_size as nat, len as nat, old(self).threshold()),
            !rotate ==> final(self).current_size == size_after(
                old(self).current_size as nat,
                len as nat,
                old(self).threshold(),
            ),
    {
        self.current_size += len as u64;
        self.current_size as u128 >= self.max_size as u128 * MEGABYTE as u128
    }

    /// Notes that the next file, `new_file`, was begun: after a record that
    /// filled the file, the size is that of `size_after`.
    pub fn rotate_log(&mut self, new_file: String)
        ensures
            final(self).current_size == 0,
            final(self).current_file == new_file,
            final(self).max_size == old(self).max_size,
            final(self).base_path == old(self).base_path,
    {
        self.current_file = new_file;
        self.current_size = 0;
    }

    /// The report on the storage, given the size of its directory and the
    /// number of log files in it.
    pub fn send_storage_update(&self, total_size: u64, file_count: usize) -> (update: StorageUpdate)
        ensures
            update.current_file@ == self.current_file@,
            update.total_size == total_size,
            update.file_count == file_count,
    {
        StorageUpdate { current_file: self.current_file.clone(), total_size, file_count }
    }

    /// The records of `records` whose time lies between `start_time` and
    /// `end_time`, both included, in their order.
    pub fn query_logs(&self, records: Vec<StoredLog>, start_time: Timestamp, end_time: Timestamp) -> (found:
        Vec<StoredLog>)
        ensures
            found@ == selected(records@, start_time, end_time),
    {
        let mut found: Vec<StoredLog> = Vec::new();
        let ghost all = records@;
        proof {
            assert(all.take(0) =~= Seq::empty());
        }
        for record in it: records
            invariant
                it.seq() == all,
                found@ == selected(all.take(it.index() as int), start_time, end_time),
        {
            proof {
                let i = it.index() as int;
                assert(all.take(i + 1).drop_last() =~= all.take(i));
                assert(all.take(i + 1).last() == record);
            }
            if start_time.is_not_after(&record.timestamp) && record.timestamp.is_not_after(
                &end_time,
            ) {
                found.push(record);
            }
        }
        proof {
            assert(all.take(all.len() as int) =~= all);
        }
        found
    }
}

/// The name of the log file begun at the time that `stamp` names.
pub fn log_file_name(stamp: &str) -> (name: String)
    ensures
        name@ == file_name(stamp@),
{
    let mut name = "logcat_".to_owned();
    name.append(stamp);
    name.append(".jsonl");
    name
}

/// The name of a log file begun now: `logcat_`, the local date and time, and
/// `.jsonl`.
pub fn generate_filename() -> (name: String)
    ensures
        exists|stamp: Seq<char>| is_file_stamp(stamp) && name@ == #[trigger] file_name(stamp),
{
    let stamp = file_stamp_now();
    let name = log_file_name(stamp.as_str());
    proof {
        assert(is_file_stamp(stamp@) && name@ == file_name(stamp@));
    }
    name
}

/// Whether a file of the name `name` counts as a log file.
pub fn is_log_file(name: &str) -> (b: bool)
    ensures
        b == is_log_name(name@),
{
    let chars = chars_of(name);
    let ending = chars_of(".jsonl");
    if chars.len() > ending.len() {
        matches_at(&chars, &ending, chars.len() - ending.len())
    } else {
        false
    }
}

/// How many of `names` are names of log files.
pub fn count_log_files(names: &Vec<String>) -> (count: usize)
    ensures
        count == log_names(names@),
{
    let mut count: usize = 0;
    let mut i: usize = 0;
    proof {
        assert(names@.take(0) =~= Seq::empty());
    }
    while i < names.len()
        invariant
            i <= names.len(),
            count <= i,
            count == log_names(names@.take(i as int)),
        decreases names.len() - i,
    {
        proof {
            assert(names@.take(i + 1).drop_last() =~= names@.take(i as int));
            assert(names@.take(i + 1).last() == names@[i as int]);
        }
        if is_log_file(names[i].as_str()) {
            count += 1;
        }
        i += 1;
    }
    proof {
        assert(names@.take(names.len() as int) =~= names@);
    }
    count
}

/// The sum of the file sizes `sizes`, or `None` where it is too large for
/// its type.
pub fn get_directory_size(sizes: &Vec<u64>) -> (size: Option<u64>)
    ensures
        match size {
            Some(sum) => sum == total(sizes@),
            None => total(sizes@) > u64::MAX,
        },
{
    let mut sum: u64 = 0;
    let mut i: usize = 0;
    proof {
        assert(sizes@.take(0) =~= Seq::empty());
    }
    while i < sizes.len()
        invariant
            i <= sizes.len(),
            sum == total(sizes@.take(i as int)),
        decreases sizes.len() - i,
    {
        proof {
            assert(sizes@.take(i + 1).drop_last() =~= sizes@.take(i as int));
            assert(sizes@.take(i + 1).last() == sizes@[i as int]);
        }
        if sizes[i] > u64::MAX - sum {
            proof {
                lemma_total_grows(sizes@, i + 1);
            }
            return None;
        }
        sum += sizes[i];
        i += 1;
    }
    proof {
        assert(sizes@.take(sizes.len() as int) =~= sizes@);
    }
    Some(sum)
}

/// The sum of a part of the sizes is at most the sum of them all.
pub proof fn lemma_total_grows(sizes: Seq<u64>, n: int)
    requires
        0 <= n <= sizes.len(),
    ensures
        total(sizes.take(n)) <= total(sizes),
    decreases sizes.len() - n,
{
    if n < sizes.len() {
        lemma_total_grows(sizes, n + 1);
        assert(sizes.take(n + 1).drop_last() =~= sizes.take(n));
    } else {
        assert(sizes.take(n) =~= sizes);
    }
}

/// As long as the records written to a new file stay below the threshold
/// together, no file is filled and the current file holds them all.
pub proof fn lemma_no_rotation_below_threshold(lens: Seq<u64>, threshold: nat)
    requires
        total(lens) < threshold,
    ensures
        rotations(0, lens, threshold) == 0,
        size_after_all(0, lens, threshold) == total(lens),
    decreases lens.len(),
{
    if lens.len() > 0 {
        lemma_no_rotation_below_threshold(lens.drop_last(), threshold);
    }
}

/// Where the records written to a new file reach the threshold with the
/// last of them and not before, exactly one file is filled, and it is
/// filled by that last record. The filled file holds all the records, which
/// is less than the threshold and the last record together, and the next
/// file starts empty.
pub proof fn lemma_rotation_at_crossing(lens: Seq<u64>, threshold: nat)
    requires
        lens.len() > 0,
        total(lens.drop_last()) < threshold <= total(lens),
    ensures
        rotations(0, lens.drop_last(), threshold) == 0,
        rotations(0, lens, threshold) == 1,
        size_after_all(0, lens.drop_last(), threshold) + lens.last() == total(lens),
        total(lens) < threshold + lens.last(),
        size_after_all(0, lens, threshold) == 0,
{
    lemma_no_rotation_below_threshold(lens.drop_last(), threshold);
}

} // verus!
