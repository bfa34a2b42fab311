use vstd::prelude::*;

verus! {

/// Seconds in a civil day.
pub const SECONDS_PER_DAY: i64 = 86400;

/// Largest day number (counted from 1970-01-01) that a `LocalDateTime` holds;
/// the smallest is its negation.
pub const MAX_DAY: i64 = 1_000_000_000;

/// Nanoseconds in a second.
pub const NANOS_PER_SECOND: u32 = 1_000_000_000;

/// Nanoseconds in a minute.
pub const NANOS_PER_MINUTE: i128 = 60_000_000_000;

/// A point in time as seen on the local wall clock: the local calendar day, the
/// time of day, and the offset from UTC that was in force.
#[derive(Clone, Copy, Debug, PartialEq, Eq, Structural)]
pub struct LocalDateTime {
    /// Local calendar date, as the number of days since 1970-01-01.
    pub day: i64,
    /// Seconds since local midnight.
    pub second_of_day: u32,
    /// Nanoseconds within the second.
    pub nanosecond: u32,
    /// Offset of local time east of UTC, in seconds.
    pub offset_seconds: i32,
}

/// Whether `s` seconds after local midnight of 1970-01-01 falls on a day that a
/// `LocalDateTime` can hold.
pub open spec fn local_seconds_in_range(s: int) -> bool {
    -MAX_DAY * SECONDS_PER_DAY <= s < (MAX_DAY + 1) * SECONDS_PER_DAY
}

impl LocalDateTime {
    /// The fields hold a valid time of day, offset and day number.
    pub open spec fn wf(self) -> bool {
        &&& -MAX_DAY <= self.day <= MAX_DAY
        &&& self.second_of_day < SECONDS_PER_DAY
        &&& self.nanosecond < NANOS_PER_SECOND
        &&& -SECONDS_PER_DAY < self.offset_seconds < SECONDS_PER_DAY
    }

    /// Whole seconds of local wall-clock time since local midnight of 1970-01-01.
    pub open spec fn local_seconds(self) -> int {
        self.day * SECONDS_PER_DAY + self.second_of_day
    }

    /// Whole minutes of local wall-clock time since local midnight of 1970-01-01.
    pub open spec fn local_minutes(self) -> int {
        self.local_seconds() / 60
    }

    /// The instant, in nanoseconds since the UTC epoch.
    pub open spec fn instant_nanos(self) -> int {
        (self.local_seconds() - self.offset_seconds) * NANOS_PER_SECOND + self.nanosecond
    }

    /// Hour of the local day, 0 to 23.
    pub open spec fn hour(self) -> int {
        self.second_of_day as int / 3600
    }

    /// Minute of the local hour, 0 to 59.
    pub open spec fn minute(self) -> int {
        (self.second_of_day as int / 60) % 60
    }

    /// Second of the local minute, 0 to 59.
    pub open spec fn second(self) -> int {
        self.second_of_day as int % 60
    }

    /// Whether the fields hold a valid time of day, offset and day number.
    pub fn is_valid(&self) -> (r: bool)
        ensures
            r == self.wf(),
    {
        -MAX_DAY <= self.day && self.day <= MAX_DAY && (self.second_of_day as i64) < SECONDS_PER_DAY
            && self.nanosecond < NANOS_PER_SECOND && -SECONDS_PER_DAY < self.offset_seconds as i64
            && (self.offset_seconds as i64) < SECONDS_PER_DAY
    }

    /// The time `minutes` later (earlier, when negative) with the same offset,
    /// or `None` when its day falls outside what the type holds.
    pub fn add_minutes(&self, minutes: i64) -> (r: Option<LocalDateTime>)
        requires
            self.wf(),
        ensures
            r.is_some() == local_seconds_in_range(self.local_seconds() + 60 * minutes),
            r matches Some(t) ==> {
                &&& t.wf()
                &&& t.local_seconds() == self.local_seconds() + 60 * minutes
                &&& t.nanosecond == self.nanosecond
                &&& t.offset_seconds == self.offset_seconds
            },
    {
        let shift: i128 = MAX_DAY as i128 * SECONDS_PER_DAY as i128;
        let limit: i128 = (2 * MAX_DAY as i128 + 1) * SECONDS_PER_DAY as i128;
        proof {
            lemma_day_seconds_bounded(self.day as int);
            let m = minutes as int;
            assert(-0x8000_0000_0000_0000 * 60 <= m * 60 <= 0x8000_0000_0000_0000 * 60) by (nonlinear_arith)
                requires
                    -0x8000_0000_0000_0000 <= m < 0x8000_0000_0000_0000,
            ;
        }
        let day_seconds: i128 = self.day as i128 * SECONDS_PER_DAY as i128;
        let moved: i128 = minutes as i128 * 60;
        assert(-MAX_DAY * SECONDS_PER_DAY <= day_seconds <= MAX_DAY * SECONDS_PER_DAY);
        assert(-0x8000_0000_0000_0000 * 60 <= moved <= 0x8000_0000_0000_0000 * 60);
        assert(shift == MAX_DAY * SECONDS_PER_DAY);
        let shifted: i128 = day_seconds + self.second_of_day as i128 + moved + shift;
        if shifted < 0 || shifted >= limit {
            return None;
        }
        let s: u64 = shifted as u64;
        let day: u64 = s / SECONDS_PER_DAY as u64;
        let second_of_day: u64 = s % SECONDS_PER_DAY as u64;
        proof {
            assert(s == day * 86400 + second_of_day) by (nonlinear_arith)
                requires
                    day == s / 86400,
                    second_of_day == s % 86400,
            ;
            assert(day < 2 * MAX_DAY + 1) by (nonlinear_arith)
                requires
                    day == s / 86400,
                    s < (2 * MAX_DAY + 1) * 86400,
            ;
        }
        Some(
            LocalDateTime {
                day: day as i64 - MAX_DAY,
                second_of_day: second_of_day as u32,
                nanosecond: self.nanosecond,
                offset_seconds: self.offset_seconds,
            },
        )
    }

    /// The same local day and offset with seconds and nanoseconds set to zero.
    pub fn truncate_to_minute(&self) -> (r: LocalDateTime)
        requires
            self.wf(),
        ensures
            r.wf(),
            r.day == self.day,
            r.offset_seconds == self.offset_seconds,
            r.second_of_day == self.second_of_day / 60 * 60,
            r.nanosecond == 0,
            r.local_seconds() == self.local_minutes() * 60,
    {
        let second_of_day: u32 = self.second_of_day / 60 * 60;
        proof {
            let s = self.second_of_day as int;
            assert(s / 60 * 60 <= s) by (nonlinear_arith)
                requires
                    0 <= s,
            ;
            assert((self.day * 86400 + s) / 60 == self.day * 1440 + s / 60) by (nonlinear_arith)
                requires
                    0 <= s,
            ;
        }
        LocalDateTime {
            day: self.day,
            second_of_day,
            nanosecond: 0,
            offset_seconds: self.offset_seconds,
        }
    }

    /// Whether both times fall on the same local calendar date.
    pub fn same_date(&self, other: &LocalDateTime) -> (r: bool)
        ensures
            r == (self.day == other.day),
    {
        self.day == other.day
    }

    /// Whether `self` is a strictly earlier instant than `other`.
    pub fn is_before(&self, other: &LocalDateTime) -> (r: bool)
        requires
            self.wf(),
            other.wf(),
        ensures
            r == (self.instant_nanos() < other.instant_nanos()),
    {
        let a: i128 = self.utc_seconds();
        let b: i128 = other.utc_seconds();
        a < b || (a == b && self.nanosecond < other.nanosecond)
    }

    fn utc_seconds(&self) -> (r: i128)
        requires
            self.wf(),
        ensures
            r == self.local_seconds() - self.offset_seconds,
            -(MAX_DAY + 2) * SECONDS_PER_DAY <= r <= (MAX_DAY + 2) * SECONDS_PER_DAY,
    {
        proof {
            lemma_day_seconds_bounded(self.day as int);
        }
        self.day as i128 * SECONDS_PER_DAY as i128 + self.second_of_day as i128
            - self.offset_seconds as i128
    }
}

proof fn lemma_day_seconds_bounded(day: int)
    requires
        -MAX_DAY <= day <= MAX_DAY,
    ensures
        -MAX_DAY * SECONDS_PER_DAY <= day * SECONDS_PER_DAY <= MAX_DAY * SECONDS_PER_DAY,
{
    assert(-1_000_000_000 * 86400 <= day * 86400 <= 1_000_000_000 * 86400) by (nonlinear_arith)
        requires
            -1_000_000_000 <= day <= 1_000_000_000,
    ;
}

/// Whole minutes from `from` to `to`, rounded toward zero.
pub open spec fn minutes_between_spec(from: LocalDateTime, to: LocalDateTime) -> int {
    let d = to.instant_nanos() - from.instant_nanos();
    if d >= 0 {
        d / (NANOS_PER_MINUTE as int)
    } else {
        -((-d) / (NANOS_PER_MINUTE as int))
    }
}

/// Whole minutes from `from` to `to`, rounded toward zero; negative when `to`
/// is the earlier instant.
pub fn minutes_between(from: &LocalDateTime, to: &LocalDateTime) -> (r: i64)
    requires
        from.wf(),
        to.wf(),
    ensures
        r == minutes_between_spec(*from, *to),
{
    let ua: i128 = from.utc_seconds();
    let ub: i128 = to.utc_seconds();
    proof {
        assert(-(MAX_DAY + 2) * SECONDS_PER_DAY * 1_000_000_000 <= ua * 1_000_000_000 <= (MAX_DAY + 2)
            * SECONDS_PER_DAY * 1_000_000_000) by (nonlinear_arith)
            requires
                -(MAX_DAY + 2) * SECONDS_PER_DAY <= ua <= (MAX_DAY + 2) * SECONDS_PER_DAY,
        ;
        assert(-(MAX_DAY + 2) * SECONDS_PER_DAY * 1_000_000_000 <= ub * 1_000_000_000 <= (MAX_DAY + 2)
            * SECONDS_PER_DAY * 1_000_000_000) by (nonlinear_arith)
            requires
                -(MAX_DAY + 2) * SECONDS_PER_DAY <= ub <= (MAX_DAY + 2) * SECONDS_PER_DAY,
        ;
    }
    let a: i128 = ua * NANOS_PER_SECOND as i128 + from.nanosecond as i128;
    let b: i128 = ub * NANOS_PER_SECOND as i128 + to.nanosecond as i128;
    let d: i128 = b - a;
    if d >= 0 {
        let q: i128 = d / NANOS_PER_MINUTE;
        proof {
            assert(q * 60_000_000_000 <= d) by (nonlinear_arith)
                requires
                    q == d / 60_000_000_000,
                    d >= 0,
            ;
        }
        q as i64
    } else {
        let q: i128 = (-d) / NANOS_PER_MINUTE;
        proof {
            assert(q * 60_000_000_000 <= -d) by (nonlinear_arith)
                requires
                    q == (-d) / 60_000_000_000,
                    -d >= 0,
            ;
        }
        -(q as i64)
    }
}

} // verus!
