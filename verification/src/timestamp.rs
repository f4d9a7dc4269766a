//! Time stamps of events: milliseconds since the start of 1970.
//!
//! A snapshot for a late joiner is stamped one tick after the clock, so
//! that an event that was made before the snapshot is seen to be older.

use vstd::prelude::*;

verus! {

/// The time stamp of a snapshot that is taken at the given time: the next
/// tick, as far as there is one.
pub open spec fn snapshot_tick(now: i64) -> i64 {
    if now < i64::MAX {
        (now + 1) as i64
    } else {
        now
    }
}

/// Something that carries a time stamp.
pub trait Timestamped {
    /// The time stamp.
    spec fn stamp(&self) -> i64;

    /// The time stamp.
    fn timestamp(&self) -> (t: i64)
        ensures
            t == self.stamp(),
    ;

    /// Sets the time stamp.
    fn set_timestamp(&mut self, timestamp: i64)
        ensures
            final(self).stamp() == timestamp,
    ;
}

/// Whether the first was stamped later than the second.
pub fn is_newer_than<A: Timestamped, B: Timestamped>(first: &A, second: &B) -> (newer: bool)
    ensures
        newer == (first.stamp() > second.stamp()),
{
    first.timestamp() > second.timestamp()
}

/// The clock of the server.
pub struct TimestampManager;

impl TimestampManager {
    /// The time now, in milliseconds since the start of 1970.
    ///
    /// Calls `chrono::Utc::now().timestamp_millis()`. The clock decides
    /// the value, so nothing is said of it.
    #[verifier::external_body]
    pub fn now() -> i64 {
        chrono::Utc::now().timestamp_millis()
    }

    /// The time stamp of a snapshot that is taken at the given time.
    pub fn snapshot_after(now: i64) -> (stamp: i64)
        ensures
            stamp == snapshot_tick(now),
            now < i64::MAX ==> TimestampManager::spec_is_newer(stamp, now),
    {
        if now < i64::MAX {
            now + 1
        } else {
            now
        }
    }

    /// The time stamp of a snapshot that is taken now: one tick after the
    /// clock.
    pub fn snapshot_timestamp() -> (stamp: i64)
        ensures
            exists|now: i64| stamp == #[trigger] snapshot_tick(now),
    {
        let now = TimestampManager::now();
        let stamp = TimestampManager::snapshot_after(now);
        assert(stamp == snapshot_tick(now));
        stamp
    }

    /// A time stamp is newer than a reference when it is greater.
    pub open spec fn spec_is_newer(timestamp: i64, reference: i64) -> bool {
        timestamp > reference
    }

    /// Whether a time stamp is newer than a reference.
    pub fn is_newer(timestamp: i64, reference: i64) -> (newer: bool)
        ensures
            newer == TimestampManager::spec_is_newer(timestamp, reference),
    {
        timestamp > reference
    }

    /// Whether an event may be dropped because a snapshot has been taken
    /// since: its time stamp is older than that of the snapshot.
    pub fn is_superseded(event_timestamp: i64, snapshot_timestamp: i64) -> (stale: bool)
        ensures
            stale == (event_timestamp < snapshot_timestamp),
    {
        event_timestamp < snapshot_timestamp
    }
}

/// An event made before a snapshot is older than the snapshot: whatever
/// was stamped at or before the time at which the snapshot was taken is
/// superseded by it.
pub proof fn lemma_snapshot_supersedes(event_timestamp: i64, now: i64)
    requires
        event_timestamp <= now,
        now < i64::MAX,
    ensures
        event_timestamp < snapshot_tick(now),
        TimestampManager::spec_is_newer(snapshot_tick(now), event_timestamp),
{
}

} // verus!
