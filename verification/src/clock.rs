//! Time in whole seconds.

use crate::boundary::since_unix_epoch;
use std::time::SystemTime;
use vstd::prelude::*;

verus! {

/// Seconds as the store keeps them: 0 where the clock stands before the Unix epoch.
pub fn epoch_seconds(since_epoch: Option<u64>) -> (seconds: i64)
    ensures
        seconds == match since_epoch {
            Some(s) => s as i64,
            None => 0i64,
        },
{
    match since_epoch {
        Some(s) => s as i64,
        None => 0,
    }
}

/// The seconds since the Unix epoch. What they are rests on the clock.
pub fn epoch() -> (seconds: i64) {
    match since_unix_epoch(SystemTime::now()) {
        Ok(elapsed) => epoch_seconds(Some(elapsed.as_secs())),
        Err(_) => epoch_seconds(None),
    }
}

/// The seconds since the epoch are kept as they are, and count as none before it.
pub proof fn law_seconds(since_epoch: Option<u64>, seconds: i64)
    requires
        call_ensures(epoch_seconds, (since_epoch,), seconds),
    ensures
        since_epoch is None ==> seconds == 0,
        since_epoch matches Some(s) ==> (s <= i64::MAX ==> seconds == s),
{
}

} // verus!
