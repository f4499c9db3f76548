//! Reading the clocks of the machine.

use vstd::prelude::*;

use crate::time::TimeSpec;

verus! {

/// `nix::errno::Errno`: why a system call failed.
#[verifier::external_type_specification]
#[verifier::external_body]
pub struct ExErrno(nix::errno::Errno);

/// A clock of the machine.
#[derive(Debug, Clone, Copy, PartialEq, Eq, Structural)]
pub enum Clock {
    /// The time since some fixed point, often the start of the machine.
    /// Changes of the system time do not touch it.
    Monotonic,
    /// The wall clock; follows changes of the system time.
    Realtime,
}

/// Why a time could not be given.
#[derive(Debug, Clone, Copy, PartialEq, Eq, Structural)]
pub enum ClockError {
    /// The clock could not be read.
    Unavailable,
    /// The time is before the beginning of the clock.
    Negative,
    /// The time does not fit the numbers it is kept in.
    OutOfRange,
}

/// `nix::time::clock_gettime`: the seconds and nanoseconds that the clock
/// shows now. Nothing is known of them beforehand.
#[verifier::external_body]
fn clock_gettime(clock: Clock) -> (r: Result<(i64, i64), nix::errno::Errno>) {
    let id = match clock {
        Clock::Monotonic => nix::time::ClockId::CLOCK_MONOTONIC,
        Clock::Realtime => nix::time::ClockId::CLOCK_REALTIME,
    };
    let time = nix::time::clock_gettime(id)?;
    Ok((time.tv_sec() as i64, time.tv_nsec() as i64))
}

/// A time of `sec` seconds and `nsec` nanoseconds, in nanoseconds.
pub open spec fn nanos_of(sec: int, nsec: int) -> int {
    sec * 1_000_000_000 + nsec
}

/// The timestamp of a time: its nanoseconds, where they are not negative
/// and fit `i64`.
pub fn timestamp_of(sec: i64, nsec: i64) -> (r: Result<u64, ClockError>)
    ensures
        match r {
            Ok(ts) => ts == nanos_of(sec as int, nsec as int) && ts <= i64::MAX,
            Err(e) => e == if nanos_of(sec as int, nsec as int) < 0 {
                ClockError::Negative
            } else {
                ClockError::OutOfRange
            } && !(0 <= nanos_of(sec as int, nsec as int) <= i64::MAX),
        },
{
    let ts: i128 = (sec as i128) * 1_000_000_000 + (nsec as i128);
    if ts < 0 {
        Err(ClockError::Negative)
    } else if ts > i64::MAX as i128 {
        Err(ClockError::OutOfRange)
    } else {
        Ok(ts as u64)
    }
}

/// Returns the monotonic timestamp in nanoseconds.
pub fn monotonic_timestamp() -> (r: Result<u64, ClockError>)
    ensures
        r == Err::<u64, ClockError>(ClockError::Unavailable) || exists|sec: i64, nsec: i64|
            r == timestamp_from(#[trigger] nanos_of(sec as int, nsec as int)),
        r matches Ok(ts) ==> ts <= i64::MAX,
{
    match clock_gettime(Clock::Monotonic) {
        Ok((sec, nsec)) => timestamp_of(sec, nsec),
        Err(_) => Err(ClockError::Unavailable),
    }
}

/// How far the wall clock is ahead of the monotonic clock, in nanoseconds.
pub open spec fn offset_nanos(realtime: (i64, i64), monotonic: (i64, i64)) -> int {
    nanos_of(realtime.0 as int, realtime.1 as int)
        - nanos_of(monotonic.0 as int, monotonic.1 as int)
}

/// The offset of the monotonic clock to the wall clock, from what the two
/// clocks show: the normalized value of their difference, where its seconds
/// fit `i64`.
pub fn clock_offset(realtime: (i64, i64), monotonic: (i64, i64)) -> (r: Result<
    TimeSpec,
    ClockError,
>)
    ensures
        match r {
            Ok(offset) => offset.is_normalized() && offset.total_nanos() == offset_nanos(
                realtime,
                monotonic,
            ),
            Err(e) => e == ClockError::OutOfRange && !(i64::MIN <= offset_nanos(realtime, monotonic)
                / 1_000_000_000 <= i64::MAX),
        },
{
    let wall: i128 = (realtime.0 as i128) * 1_000_000_000 + (realtime.1 as i128);
    let mono: i128 = (monotonic.0 as i128) * 1_000_000_000 + (monotonic.1 as i128);
    let diff: i128 = wall - mono;
    // Seconds round down, so that the nanoseconds are never negative.
    let (sec, nsec): (i128, i128) = if diff >= 0 {
        (diff / 1_000_000_000, diff % 1_000_000_000)
    } else {
        let back: i128 = -diff;
        let whole: i128 = back / 1_000_000_000;
        let part: i128 = back % 1_000_000_000;
        if part == 0 {
            (-whole, 0)
        } else {
            (-whole - 1, 1_000_000_000 - part)
        }
    };
    assert(sec * 1_000_000_000 + nsec == diff && 0 <= nsec < 1_000_000_000);
    assert(sec == diff / 1_000_000_000);
    if sec < i64::MIN as i128 || sec > i64::MAX as i128 {
        return Err(ClockError::OutOfRange);
    }
    Ok(TimeSpec::new(sec as i64, nsec as i64))
}

/// Computes and returns the offset of CLOCK_MONOTONIC to the wall-clock time.
pub fn monotonic_clock_offset() -> (r: Result<TimeSpec, ClockError>)
    ensures
        r == Err::<TimeSpec, ClockError>(ClockError::Unavailable) || exists|
            realtime: (i64, i64),
            monotonic: (i64, i64),
        | is_offset_of(#[trigger] offset_nanos(realtime, monotonic), r),
        r matches Ok(offset) ==> offset.is_normalized(),
{
    let realtime = match clock_gettime(Clock::Realtime) {
        Ok(time) => time,
        Err(_) => {
            return Err(ClockError::Unavailable);
        },
    };
    let monotonic = match clock_gettime(Clock::Monotonic) {
        Ok(time) => time,
        Err(_) => {
            return Err(ClockError::Unavailable);
        },
    };
    clock_offset(realtime, monotonic)
}

/// The timestamp of a time of `nanos` nanoseconds: that number, where it is
/// not negative and fits `i64`, and the error that tells which it is not.
pub open spec fn timestamp_from(nanos: int) -> Result<u64, ClockError> {
    if nanos < 0 {
        Err(ClockError::Negative)
    } else if nanos > i64::MAX {
        Err(ClockError::OutOfRange)
    } else {
        Ok(nanos as u64)
    }
}

/// `r` is the offset between two clocks that are `nanos` nanoseconds apart:
/// the normalized value of that many nanoseconds, or the error that its
/// seconds do not fit `i64`.
pub open spec fn is_offset_of(nanos: int, r: Result<TimeSpec, ClockError>) -> bool {
    match r {
        Ok(offset) => offset.is_normalized() && offset.total_nanos() == nanos,
        Err(e) => e == ClockError::OutOfRange && !(i64::MIN <= nanos / 1_000_000_000
            <= i64::MAX),
    }
}

} // verus!
