//! Wall-clock sampling for the timing loop.
//!
//! A sample is a second/nanosecond pair held in a reusable `Timespec`
//! buffer; turning a sample into a single nanosecond count is verified
//! saturating arithmetic.  Only the sampling itself is trusted.

use vstd::prelude::*;

verus! {

/// One clock sample: seconds and sub-second nanoseconds since the epoch.
pub struct Timespec {
    pub tv_sec: i64,
    pub tv_nsec: i64,
}

/// Relies on std::time::SystemTime::now, std::time::SystemTime::duration_since,
/// std::time::Duration::as_secs and std::time::Duration::subsec_nanos: the
/// current wall-clock time as a duration since the Unix epoch, whose
/// sub-second part is under one billion nanoseconds.  Nothing relates one
/// sample to another: the clock may step.
#[verifier::external_body]
fn sample_clock(ts: &mut Timespec)
    ensures
        0 <= final(ts).tv_sec,
        0 <= final(ts).tv_nsec < 1_000_000_000,
{
    let since_epoch = std::time::SystemTime::now()
        .duration_since(std::time::SystemTime::UNIX_EPOCH)
        .unwrap_or(std::time::Duration::ZERO);
    ts.tv_sec = i64::try_from(since_epoch.as_secs()).unwrap_or(0);
    ts.tv_nsec = i64::from(since_epoch.subsec_nanos());
}

/// The nanosecond count of a sample, saturating at the top of `u64`.
pub open spec fn nanos_of(sec: int, nsec: int) -> int {
    if sec * 1_000_000_000 + nsec <= u64::MAX {
        sec * 1_000_000_000 + nsec
    } else {
        u64::MAX as int
    }
}

/// Take one clock sample into the reusable buffer and return it as a single
/// nanosecond count since the epoch.
pub fn get_epoch_nanos(ts: &mut Timespec) -> (r: u64)
    ensures
        0 <= final(ts).tv_sec,
        0 <= final(ts).tv_nsec < 1_000_000_000,
        r == nanos_of(final(ts).tv_sec as int, final(ts).tv_nsec as int),
{
    sample_clock(ts);
    let sec: u64 = ts.tv_sec as u64;
    let nsec: u64 = ts.tv_nsec as u64;
    if sec <= u64::MAX / 1_000_000_000 {
        (sec * 1_000_000_000).saturating_add(nsec)
    } else {
        u64::MAX
    }
}

} // verus!
