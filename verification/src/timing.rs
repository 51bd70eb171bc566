//! Time as the viewer counts it: nanoseconds on a clock that never runs
//! backwards, handed in by the caller with each event. From it follow how
//! long a status message stays, when the link to the device is probed again,
//! and when an error is announced on the desktop.

use crate::level::LogLevel;
use crate::state::{AppModel, AppState};
use vstd::prelude::*;

verus! {

/// How long a status message stays, in whole seconds.
pub const STATUS_SECONDS: u64 = 2;

/// Nanoseconds in a second.
pub const NANOS_PER_SECOND: u64 = 1000000000;

/// How long the viewer waits between two notifications, in whole seconds.
pub const NOTIFY_PAUSE_SECONDS: u64 = 5;

/// How long the viewer waits between two probes of the link, in whole
/// seconds.
pub const PROBE_SECONDS: u64 = 5;

/// The time from `then` to `now`, or 0 where `then` is not in the past.
pub open spec fn elapsed(then: u64, now: u64) -> int {
    if now >= then {
        now - then
    } else {
        0
    }
}

/// Whether a status message set at `at` is no longer shown at `now`: more
/// than `STATUS_SECONDS` whole seconds have passed.
pub open spec fn status_expired(at: u64, now: u64) -> bool {
    elapsed(at, now) / (NANOS_PER_SECOND as int) > STATUS_SECONDS
}

/// Whether the link is to be probed at `now`, given the time of the last
/// probe.
pub open spec fn probe_due(last: u64, now: u64) -> bool {
    elapsed(last, now) >= PROBE_SECONDS * NANOS_PER_SECOND
}

impl AppModel {
    /// Whether an entry of `level` that arrives at `now` is announced on the
    /// desktop: the viewer runs, announcements are on, the entry is an error,
    /// and the last announcement is more than `NOTIFY_PAUSE_SECONDS` old.
    pub open spec fn notification_due(self, level: LogLevel, now: u64) -> bool {
        &&& !self.paused
        &&& self.notify_on_error
        &&& level == LogLevel::Error
        &&& match self.last_notification {
            Some(at) => elapsed(at, now) > NOTIFY_PAUSE_SECONDS * NANOS_PER_SECOND,
            None => true,
        }
    }
}

/// The time from `then` to `now`, or 0 where `then` is not in the past.
pub fn elapsed_nanos(then: u64, now: u64) -> (d: u64)
    ensures
        d == elapsed(then, now),
{
    if now >= then {
        now - then
    } else {
        0
    }
}

/// Whether a status message set at `at` is no longer shown at `now`.
pub fn is_status_expired(at: u64, now: u64) -> (b: bool)
    ensures
        b == status_expired(at, now),
{
    elapsed_nanos(at, now) / NANOS_PER_SECOND > STATUS_SECONDS
}

/// Whether the link is to be probed at `now`.
pub fn is_probe_due(last: u64, now: u64) -> (b: bool)
    ensures
        b == probe_due(last, now),
{
    elapsed_nanos(last, now) >= PROBE_SECONDS * NANOS_PER_SECOND
}

impl AppState {
    /// Whether an entry of `level` that arrives at `now` is announced on the
    /// desktop.
    pub fn notification_due(&self, level: LogLevel, now: u64) -> (b: bool)
        ensures
            b == self@.notification_due(level, now),
    {
        !self.paused && self.notify_on_error && level == LogLevel::Error && match self.last_notification {
            Some(at) => elapsed_nanos(at, now) > NOTIFY_PAUSE_SECONDS * NANOS_PER_SECOND,
            None => true,
        }
    }

    /// Notes that an announcement went out at `now`.
    pub fn mark_notified(&mut self, now: u64)
        ensures
            final(self)@ == (AppModel { last_notification: Some(now), ..old(self)@ }),
    {
        self.last_notification = Some(now);
    }
}

} // verus!
