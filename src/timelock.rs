use crate::escrow::Error;
use vstd::prelude::*;

verus! {

/// The absolute time of a stage that starts `offset` seconds after
/// `deployed_at`.
pub open spec fn stage_at(deployed_at: u64, offset: u64) -> int {
    deployed_at + offset
}

/// The number of seconds from `now` until `t`, zero once `t` has passed, and
/// at most `i64::MAX`.
pub open spec fn seconds_until(now: int, t: int) -> int {
    if t <= now {
        0
    } else if t - now > i64::MAX {
        i64::MAX as int
    } else {
        t - now
    }
}

/// The absolute time of a stage that starts `offset` seconds after
/// `deployed_at`. Computed in 128 bits, so that no schedule overflows.
pub fn stage_time(deployed_at: u64, offset: u64) -> (r: u128)
    ensures
        r == stage_at(deployed_at, offset),
{
    deployed_at as u128 + offset as u128
}

/// Fails with `InvalidTime` while `now` is before `t`.
pub fn require_after(now: u64, t: u128) -> (r: Result<(), Error>)
    ensures
        r == (if now < t { Err::<(), Error>(Error::InvalidTime) } else { Ok(()) }),
{
    if (now as u128) < t {
        return Err(Error::InvalidTime);
    }
    Ok(())
}

/// Fails with `InvalidTime` once `now` has reached `t`.
pub fn require_before(now: u64, t: u128) -> (r: Result<(), Error>)
    ensures
        r == (if now >= t { Err::<(), Error>(Error::InvalidTime) } else { Ok(()) }),
{
    if now as u128 >= t {
        return Err(Error::InvalidTime);
    }
    Ok(())
}

/// The number of seconds from `now` until `t`, zero once `t` has passed,
/// saturating at `i64::MAX`.
pub fn time_until(now: u64, t: u128) -> (r: i64)
    ensures
        r == seconds_until(now as int, t as int),
{
    if t <= now as u128 {
        0
    } else if t - (now as u128) > i64::MAX as u128 {
        i64::MAX
    } else {
        (t - now as u128) as i64
    }
}

} // verus!
