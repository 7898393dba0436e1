//! Instants as plain values: seconds and nanoseconds since the Unix epoch,
//! together with the local UTC offset that was in force at that instant.

use vstd::prelude::*;

verus! {

pub const SECS_PER_HOUR: i64 = 3600;

pub const SECS_PER_DAY: i64 = 86400;

pub const NANOS_PER_SEC: u32 = 1000000000;

pub const NANOS_PER_HOUR: i128 = 3600000000000;

/// Bound on the magnitude of `secs`; every instant chrono can represent lies within it.
pub const MAX_ABS_SECS: i64 = 35184372088832;

/// Bound (exclusive) on the magnitude of a UTC offset in seconds.
pub const OFFSET_LIMIT: i32 = 86400;

/// An instant with the local offset of the place where it was taken.
#[derive(Clone, Copy, Debug, PartialEq, Eq, Structural)]
pub struct Stamp {
    /// Whole seconds since 1970-01-01T00:00:00Z.
    pub secs: i64,
    /// Nanoseconds past `secs`.
    pub nanos: u32,
    /// Seconds to add to UTC to obtain local wall-clock time.
    pub offset: i32,
}

/// Division rounding toward zero, as integer division does on machine integers.
pub open spec fn trunc_div(a: int, d: int) -> int {
    if a >= 0 {
        a / d
    } else {
        -((-a) / d)
    }
}

/// Whole hours from `earlier` to `later`, rounded toward zero.
pub open spec fn whole_hours_between(later: Stamp, earlier: Stamp) -> int {
    trunc_div(later.nanos_since(earlier), NANOS_PER_HOUR as int)
}

impl Stamp {
    pub open spec fn wf(self) -> bool {
        &&& -MAX_ABS_SECS <= self.secs <= MAX_ABS_SECS
        &&& self.nanos < NANOS_PER_SEC
        &&& -OFFSET_LIMIT < self.offset < OFFSET_LIMIT
    }

    /// Seconds since the epoch on the local wall clock.
    pub open spec fn local_secs(self) -> int {
        self.secs + self.offset
    }

    /// The local calendar date, as a day number (floor division).
    pub open spec fn local_day(self) -> int {
        self.local_secs() / (SECS_PER_DAY as int)
    }

    /// The local wall-clock hour, 0 to 23.
    pub open spec fn local_hour(self) -> int {
        (self.local_secs() % (SECS_PER_DAY as int)) / (SECS_PER_HOUR as int)
    }

    /// The local wall-clock minute within the hour, 0 to 59.
    pub open spec fn local_minute(self) -> int {
        (self.local_secs() % (SECS_PER_HOUR as int)) / 60
    }

    /// Signed nanoseconds from `earlier` to `self`.
    pub open spec fn nanos_since(self, earlier: Stamp) -> int {
        (self.secs - earlier.secs) * (NANOS_PER_SEC as int) + (self.nanos - earlier.nanos)
    }

    /// Builds an instant, or `None` when a component is out of range.
    pub fn new(secs: i64, nanos: u32, offset: i32) -> (r: Option<Stamp>)
        ensures
            r == (if (Stamp { secs, nanos, offset }).wf() {
                Some(Stamp { secs, nanos, offset })
            } else {
                None::<Stamp>
            }),
    {
        if -MAX_ABS_SECS <= secs && secs <= MAX_ABS_SECS && nanos < NANOS_PER_SEC && -OFFSET_LIMIT
            < offset && offset < OFFSET_LIMIT {
            Some(Stamp { secs, nanos, offset })
        } else {
            None
        }
    }

    /// The local wall-clock hour.
    pub fn local_hour_of_day(&self) -> (h: u32)
        requires
            self.wf(),
        ensures
            h as int == self.local_hour(),
            h < 24,
    {
        let local: i64 = self.secs + self.offset as i64;
        let r: i64 = local % SECS_PER_DAY;
        let day_secs: i64 = if r < 0 { r + SECS_PER_DAY } else { r };
        proof {
            let l = local as int;
            assert(day_secs as int == l % 86400) by {
                vstd::arithmetic::div_mod::lemma_fundamental_div_mod(l, 86400);
            }
        }
        (day_secs / SECS_PER_HOUR) as u32
    }

    /// The local wall-clock minute within the hour.
    pub fn local_minute_of_hour(&self) -> (m: u32)
        requires
            self.wf(),
        ensures
            m as int == self.local_minute(),
            m < 60,
    {
        let local: i64 = self.secs + self.offset as i64;
        let r: i64 = local % SECS_PER_HOUR;
        let hour_secs: i64 = if r < 0 { r + SECS_PER_HOUR } else { r };
        proof {
            vstd::arithmetic::div_mod::lemma_fundamental_div_mod(local as int, 3600);
        }
        (hour_secs / 60) as u32
    }

    /// Whether both instants fall on the same local calendar date.
    pub fn same_local_date(&self, other: &Stamp) -> (b: bool)
        requires
            self.wf(),
            other.wf(),
        ensures
            b == (self.local_day() == other.local_day()),
    {
        let a: i64 = self.secs + self.offset as i64;
        let c: i64 = other.secs + other.offset as i64;
        floor_div_day(a) == floor_div_day(c)
    }

    /// Signed nanoseconds elapsed from `earlier` to `self`.
    pub fn elapsed_nanos(&self, earlier: &Stamp) -> (d: i128)
        requires
            self.wf(),
            earlier.wf(),
        ensures
            d as int == self.nanos_since(*earlier),
            -70368744177665000000000 <= d <= 70368744177665000000000,
    {
        let ds: i128 = self.secs as i128 - earlier.secs as i128;
        let dn: i128 = self.nanos as i128 - earlier.nanos as i128;
        assert(-70368744177664 <= ds <= 70368744177664);
        assert(-70368744177664000000000 <= ds * 1000000000 <= 70368744177664000000000)
            by (nonlinear_arith)
            requires
                -70368744177664 <= ds <= 70368744177664,
        ;
        ds * 1000000000 + dn
    }

    /// Whole hours elapsed from `earlier` to `self`, rounded toward zero.
    pub fn hours_since(&self, earlier: &Stamp) -> (h: i64)
        requires
            self.wf(),
            earlier.wf(),
        ensures
            h as int == whole_hours_between(*self, *earlier),
    {
        let d: i128 = self.elapsed_nanos(earlier);
        let q: i128 = if d >= 0 {
            d / NANOS_PER_HOUR
        } else {
            -((-d) / NANOS_PER_HOUR)
        };
        proof {
            let m = if d >= 0 { d as int } else { -(d as int) };
            assert(0 <= m / 3600000000000 <= m) by {
                vstd::arithmetic::div_mod::lemma_div_pos_is_pos(m, 3600000000000);
                vstd::arithmetic::div_mod::lemma_div_is_ordered_by_denominator(m, 1, 3600000000000);
            }
            assert(m <= 70368744177665000000000);
            assert(m / 3600000000000 <= 70368744177665000000000int / 3600000000000) by {
                vstd::arithmetic::div_mod::lemma_div_is_ordered(m, 70368744177665000000000int, 3600000000000);
            }
        }
        q as i64
    }
}

/// Relies on chrono::Local::now for the current instant and the local offset
/// in force. chrono takes it from the system clock as a duration since the
/// epoch (sub-second part below one second) and builds a value in its own
/// representable range, with a `FixedOffset` strictly within one day; it
/// panics instead when the clock reads before 1970 or the local time-zone
/// data cannot be used.
#[verifier::external_body]
pub(crate) fn local_now() -> (r: Stamp)
    ensures
        r.wf(),
{
    let now = chrono::Local::now();
    Stamp {
        secs: now.timestamp(),
        nanos: now.timestamp_subsec_nanos(),
        offset: now.offset().local_minus_utc(),
    }
}

/// Floor division of a local second count by the length of a day.
fn floor_div_day(x: i64) -> (r: i64)
    requires
        -MAX_ABS_SECS - OFFSET_LIMIT <= x <= MAX_ABS_SECS + OFFSET_LIMIT,
    ensures
        r as int == (x as int) / (SECS_PER_DAY as int),
{
    let q: i64 = x / SECS_PER_DAY;
    let r: i64 = x % SECS_PER_DAY;
    proof {
        vstd::arithmetic::div_mod::lemma_fundamental_div_mod(x as int, 86400);
    }
    if r < 0 {
        q - 1
    } else {
        q
    }
}

} // verus!
