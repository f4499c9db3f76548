//! A `struct timespec` look-alike: whole seconds and nanoseconds.

use std::fmt::Write;
use vstd::prelude::*;

verus! {

/// The text that a wall-clock instant has under a `strftime`-like pattern:
/// what `chrono` prints for the instant `secs` seconds and `nsecs`
/// nanoseconds after the beginning of 1970 in UTC. `None` where `chrono`
/// has no such instant or cannot print it under the pattern.
pub uninterp spec fn utc_date_text(secs: int, nsecs: int, pattern: Seq<char>) -> Option<Seq<char>>;

/// `chrono::DateTime::from_timestamp`, then `chrono::DateTime::format` of the
/// instant under `pattern`, written to a string. The first returns `None`
/// for seconds out of range and for nanoseconds that are no part of a
/// second; an invalid pattern fails the write. In both cases nothing is
/// returned. The result depends on the three arguments alone: the instant is
/// in UTC and the pattern is applied without a locale.
#[verifier::external_body]
fn utc_date(secs: i64, nsecs: u32, pattern: &str) -> (r: Option<String>)
    ensures
        match r {
            Some(text) => utc_date_text(secs as int, nsecs as int, pattern@) == Some(text@),
            None => utc_date_text(secs as int, nsecs as int, pattern@) is None,
        },
{
    let date = chrono::DateTime::from_timestamp(secs, nsecs)?;
    let mut text = String::new();
    write!(text, "{}", date.format(pattern)).ok()?;
    Some(text)
}

/// Nanoseconds in one second.
pub const NSECS_IN_SEC: i64 = 1_000_000_000;

/// A time value split in seconds and nanoseconds.
///
/// A value is *normalized* when its nanoseconds lie in `[0, 10^9)`. All
/// values produced from non-negative nanoseconds by [`TimeSpec::new`] are
/// normalized, and addition and subtraction keep normalized values
/// normalized.
#[derive(Clone, Copy, Debug, PartialEq, Eq, Structural)]
pub struct TimeSpec {
    sec: i64,
    nsec: i64,
}

impl Default for TimeSpec {
    fn default() -> (r: Self)
        ensures
            r.secs() == 0,
            r.nanos() == 0,
    {
        TimeSpec { sec: 0, nsec: 0 }
    }
}

impl TimeSpec {
    /// The seconds of this value.
    pub closed spec fn secs(self) -> int {
        self.sec as int
    }

    /// The nanoseconds of this value.
    pub closed spec fn nanos(self) -> int {
        self.nsec as int
    }

    /// The whole value counted in nanoseconds.
    pub open spec fn total_nanos(self) -> int {
        self.secs() * 1_000_000_000 + self.nanos()
    }

    /// Nanoseconds are within one second.
    pub open spec fn is_normalized(self) -> bool {
        0 <= self.nanos() < 1_000_000_000
    }

    /// The value `new` builds: whole seconds held in `nsec` move to `sec`.
    /// Negative nanoseconds are left alone.
    pub open spec fn spec_new(sec: int, nsec: int) -> (int, int) {
        if nsec >= 1_000_000_000 {
            (sec + nsec / 1_000_000_000, nsec % 1_000_000_000)
        } else {
            (sec, nsec)
        }
    }

    /// Field-wise sum with one carry.
    pub open spec fn spec_plus(self, rhs: TimeSpec) -> (int, int) {
        let nsec = self.nanos() + rhs.nanos();
        if nsec >= 1_000_000_000 {
            (self.secs() + rhs.secs() + 1, nsec - 1_000_000_000)
        } else {
            (self.secs() + rhs.secs(), nsec)
        }
    }

    /// Field-wise difference with one borrow.
    pub open spec fn spec_minus(self, rhs: TimeSpec) -> (int, int) {
        let nsec = self.nanos() - rhs.nanos();
        if nsec < 0 {
            (self.secs() - rhs.secs() - 1, nsec + 1_000_000_000)
        } else {
            (self.secs() - rhs.secs(), nsec)
        }
    }

    /// The sum can be formed: no intermediate or final component leaves
    /// `i64`.
    pub open spec fn can_add(self, rhs: TimeSpec) -> bool {
        &&& i64::MIN <= self.secs() + rhs.secs() <= i64::MAX
        &&& i64::MIN <= self.nanos() + rhs.nanos() <= i64::MAX
        &&& Self::fits(self.spec_plus(rhs))
    }

    /// The difference can be formed: no intermediate or final component
    /// leaves `i64`.
    pub open spec fn can_sub(self, rhs: TimeSpec) -> bool {
        &&& i64::MIN <= self.secs() - rhs.secs() <= i64::MAX
        &&& i64::MIN <= self.nanos() - rhs.nanos() <= i64::MAX
        &&& Self::fits(self.spec_minus(rhs))
    }

    /// The value `self + rhs`.
    pub closed spec fn plus(self, rhs: TimeSpec) -> TimeSpec {
        let v = self.spec_plus(rhs);
        TimeSpec { sec: v.0 as i64, nsec: v.1 as i64 }
    }

    /// The value `self - rhs`.
    pub closed spec fn minus(self, rhs: TimeSpec) -> TimeSpec {
        let v = self.spec_minus(rhs);
        TimeSpec { sec: v.0 as i64, nsec: v.1 as i64 }
    }

    /// Both components fit the machine representation.
    pub open spec fn fits(v: (int, int)) -> bool {
        &&& i64::MIN <= v.0 <= i64::MAX
        &&& i64::MIN <= v.1 <= i64::MAX
    }

    /// The value with the given components.
    pub open spec fn is(self, v: (int, int)) -> bool {
        self.secs() == v.0 && self.nanos() == v.1
    }

    /// Builds a value, moving whole seconds out of `nsec`.
    pub fn new(sec: i64, nsec: i64) -> (r: TimeSpec)
        requires
            Self::fits(Self::spec_new(sec as int, nsec as int)),
        ensures
            r.is(Self::spec_new(sec as int, nsec as int)),
            nsec >= 0 ==> r.is_normalized(),
            r.total_nanos() == sec * 1_000_000_000 + nsec,
    {
        if nsec >= NSECS_IN_SEC {
            let diff: i64 = nsec / NSECS_IN_SEC;
            TimeSpec { sec: sec + diff, nsec: nsec - diff * NSECS_IN_SEC }
        } else {
            TimeSpec { sec, nsec }
        }
    }

    /// The sum of two values, where it can be formed within `i64`.
    pub fn checked_add(self, rhs: TimeSpec) -> (r: Option<TimeSpec>)
        ensures
            r is Some <==> self.can_add(rhs),
            r matches Some(sum) ==> sum == self.plus(rhs),
    {
        let sec = match self.sec.checked_add(rhs.sec) {
            Some(sec) => sec,
            None => {
                return None;
            },
        };
        let nsec = match self.nsec.checked_add(rhs.nsec) {
            Some(nsec) => nsec,
            None => {
                return None;
            },
        };
        if nsec >= NSECS_IN_SEC && sec == i64::MAX {
            return None;
        }
        Some(self + rhs)
    }

    /// The difference of two values, where it can be formed within `i64`.
    pub fn checked_sub(self, rhs: TimeSpec) -> (r: Option<TimeSpec>)
        ensures
            r is Some <==> self.can_sub(rhs),
            r matches Some(difference) ==> difference == self.minus(rhs),
    {
        let sec = match self.sec.checked_sub(rhs.sec) {
            Some(sec) => sec,
            None => {
                return None;
            },
        };
        let nsec = match self.nsec.checked_sub(rhs.nsec) {
            Some(nsec) => nsec,
            None => {
                return None;
            },
        };
        if nsec < 0 && sec == i64::MIN {
            return None;
        }
        Some(self - rhs)
    }

    /// The normalized value of `nanos` nanoseconds, which are not negative.
    pub closed spec fn monotonic_nanos(nanos: int) -> TimeSpec {
        TimeSpec {
            sec: (nanos / 1_000_000_000) as i64,
            nsec: (nanos % 1_000_000_000) as i64,
        }
    }

    /// `new(0, nanos)` is the normalized value of `nanos` nanoseconds.
    pub proof fn lemma_monotonic_nanos(t: TimeSpec, nanos: int)
        requires
            0 <= nanos <= i64::MAX,
            t.is(Self::spec_new(0, nanos)),
        ensures
            t == Self::monotonic_nanos(nanos),
            t.is_normalized(),
            t.total_nanos() == nanos,
    {
    }

    /// How wall-clock dates are written: date, time of day and microseconds.
    pub const UTC_PATTERN: &'static str = "%F %T.%6f";

    /// The wall-clock date of this value, taken as the time since the
    /// beginning of 1970 in UTC. There is none for nanoseconds below zero or
    /// beyond what 32 bits hold, nor where `chrono` has none.
    pub open spec fn utc_text(self) -> Option<Seq<char>> {
        if 0 <= self.nanos() <= u32::MAX {
            utc_date_text(self.secs(), self.nanos(), Self::UTC_PATTERN@)
        } else {
            None
        }
    }

    /// The wall-clock date of this value.
    pub fn utc_date(&self) -> (r: Option<String>)
        ensures
            match r {
                Some(text) => self.utc_text() == Some(text@),
                None => self.utc_text() is None,
            },
    {
        if self.nsec < 0 || self.nsec > u32::MAX as i64 {
            return None;
        }
        utc_date(self.sec, self.nsec as u32, Self::UTC_PATTERN)
    }

    /// Seconds.
    pub fn sec(&self) -> (r: i64)
        ensures
            r == self.secs(),
    {
        self.sec
    }

    /// Nanoseconds.
    pub fn nsec(&self) -> (r: i64)
        ensures
            r == self.nanos(),
    {
        self.nsec
    }

}

impl core::ops::Add for TimeSpec {
    type Output = TimeSpec;

    /// Sum of two values; a nanosecond sum of one second or more carries.
    fn add(self, rhs: TimeSpec) -> (r: TimeSpec)
        ensures
            r.is(self.spec_plus(rhs)),
            self.is_normalized() && rhs.is_normalized() ==> r.is_normalized(),
            r.total_nanos() == self.total_nanos() + rhs.total_nanos(),
    {
        let sec: i64 = self.sec + rhs.sec;
        let nsec: i64 = self.nsec + rhs.nsec;
        if nsec >= NSECS_IN_SEC {
            TimeSpec { sec: sec + 1, nsec: nsec - NSECS_IN_SEC }
        } else {
            TimeSpec { sec, nsec }
        }
    }
}

impl vstd::std_specs::ops::AddSpecImpl for TimeSpec {
    open spec fn obeys_add_spec() -> bool {
        true
    }

    open spec fn add_req(self, rhs: TimeSpec) -> bool {
        &&& i64::MIN <= self.secs() + rhs.secs() <= i64::MAX
        &&& i64::MIN <= self.nanos() + rhs.nanos() <= i64::MAX
        &&& TimeSpec::fits(self.spec_plus(rhs))
    }

    closed spec fn add_spec(self, rhs: TimeSpec) -> TimeSpec {
        let v = self.spec_plus(rhs);
        TimeSpec { sec: v.0 as i64, nsec: v.1 as i64 }
    }
}

impl core::ops::Sub for TimeSpec {
    type Output = TimeSpec;

    /// Difference of two values; a negative nanosecond difference borrows.
    fn sub(self, rhs: TimeSpec) -> (r: TimeSpec)
        ensures
            r.is(self.spec_minus(rhs)),
            self.is_normalized() && rhs.is_normalized() ==> r.is_normalized(),
            r.total_nanos() == self.total_nanos() - rhs.total_nanos(),
    {
        let sec: i64 = self.sec - rhs.sec;
        let nsec: i64 = self.nsec - rhs.nsec;
        if nsec < 0 {
            TimeSpec { sec: sec - 1, nsec: nsec + NSECS_IN_SEC }
        } else {
            TimeSpec { sec, nsec }
        }
    }
}

impl vstd::std_specs::ops::SubSpecImpl for TimeSpec {
    open spec fn obeys_sub_spec() -> bool {
        true
    }

    open spec fn sub_req(self, rhs: TimeSpec) -> bool {
        &&& i64::MIN <= self.secs() - rhs.secs() <= i64::MAX
        &&& i64::MIN <= self.nanos() - rhs.nanos() <= i64::MAX
        &&& TimeSpec::fits(self.spec_minus(rhs))
    }

    closed spec fn sub_spec(self, rhs: TimeSpec) -> TimeSpec {
        let v = self.spec_minus(rhs);
        TimeSpec { sec: v.0 as i64, nsec: v.1 as i64 }
    }
}

/// Adding a value and taking it away again gives back the start value:
/// `(a + b) - b == a` for every normalized `a` and every `b` such that the
/// sum and the difference can be formed within `i64`.
pub proof fn lemma_add_then_sub(a: TimeSpec, b: TimeSpec)
    requires
        a.is_normalized(),
        a.can_add(b),
        a.plus(b).can_sub(b),
    ensures
        a.plus(b).minus(b) == a,
{
}

} // verus!
