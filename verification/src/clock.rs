use vstd::prelude::*;

verus! {

/// A point in time: nanoseconds since the Unix epoch.
pub type Timestamp = u64;

/// Nanoseconds in one second.
pub const NANOS_PER_SEC: u64 = 1_000_000_000;

/// Reads the system clock (`std::time::SystemTime::now`) as nanoseconds
/// since the Unix epoch; a clock set before the epoch reads as 0. The value
/// depends on the time: nothing is claimed of it.
#[verifier::external_body]
pub(crate) fn now() -> (t: Timestamp) {
    std::time::SystemTime::now()
        .duration_since(std::time::UNIX_EPOCH)
        .map(|d| d.as_nanos() as u64)
        .unwrap_or(0)
}

/// Whether a record last touched at `since` is younger than `max_age` at
/// `now`: the clock has not gone back past it and less than `max_age` has
/// passed. A record from the future counts as stale.
pub open spec fn younger_than(since: Timestamp, now: Timestamp, max_age: u64) -> bool {
    since <= now && now - since < max_age
}

/// Executable form of [`younger_than`].
pub fn is_younger_than(since: Timestamp, now: Timestamp, max_age: u64) -> (b: bool)
    ensures
        b == younger_than(since, now, max_age),
{
    since <= now && now - since < max_age
}

/// Whether a record last touched at `since` is older than `max_age` at
/// `now`: more than `max_age` has passed. A record from the future is not
/// (the time since it saturates at zero).
pub open spec fn older_than(since: Timestamp, now: Timestamp, max_age: u64) -> bool {
    since <= now && now - since > max_age
}

/// Executable form of [`older_than`].
pub fn is_older_than(since: Timestamp, now: Timestamp, max_age: u64) -> (b: bool)
    ensures
        b == older_than(since, now, max_age),
{
    since <= now && now - since > max_age
}

} // verus!
