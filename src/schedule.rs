use vstd::prelude::*;
use vstd::arithmetic::div_mod::{lemma_fundamental_div_mod, lemma_mod_mod, lemma_mod_multiples_basic};

use crate::local_time::{local_seconds_in_range, MAX_DAY, minutes_between, minutes_between_spec, LocalDateTime};

verus! {

/// Minutes that rounding adds to a time whose minute of the hour is `minute`:
/// with `r` the minute modulo 15, `-r` when `r < 8`, else `15 - r`.
pub open spec fn round_shift(minute: int) -> int {
    let r = minute % 15;
    if r < 8 {
        -r
    } else {
        15 - r
    }
}

/// Local seconds of `time` rounded to its quarter hour, seconds dropped.
pub open spec fn rounded_local_seconds(time: LocalDateTime) -> int {
    (time.local_minutes() + round_shift(time.minute())) * 60
}

proof fn lemma_rounded_is_quarter(time: LocalDateTime)
    requires
        time.wf(),
    ensures
        (time.local_minutes() + round_shift(time.minute())) % 15 == 0,
        local_seconds_in_range(time.local_seconds() + 60 * round_shift(time.minute()))
            == local_seconds_in_range(rounded_local_seconds(time)),
        rounded_local_seconds(time) == (time.local_seconds() + 60 * round_shift(time.minute()))
            - time.second(),
        time.day * 1440 <= time.local_minutes() + round_shift(time.minute()) <= time.day * 1440
            + 1440,
{
    let s = time.second_of_day as int;
    let m = s / 60;
    let mh = m % 60;
    let q = mh % 15;
    assert(0 <= m < 1440) by (nonlinear_arith)
        requires
            0 <= s < 86400,
            m == s / 60,
    ;
    lemma_fundamental_div_mod(s, 60);
    lemma_fundamental_div_mod(m, 60);
    lemma_fundamental_div_mod(mh, 15);
    assert((time.day * 86400 + s) / 60 == time.day * 1440 + m) by (nonlinear_arith)
        requires
            0 <= s < 86400,
            m == s / 60,
    ;
    let k: int = if q < 8 {
        0
    } else {
        1
    };
    let total = time.day * 1440 + m + round_shift(mh);
    assert(total == 15 * (96 * time.day + 4 * (m / 60) + mh / 15 + k));
    lemma_mod_multiples_basic(96 * time.day + 4 * (m / 60) + mh / 15 + k, 15);
    assert(total == (96 * time.day + 4 * (m / 60) + mh / 15 + k) * 15);
}

/// `time` moved to the nearest quarter hour (minute modulo 15 below 8: down,
/// else up), with seconds and nanoseconds set to zero; `None` when the result
/// falls outside the days a `LocalDateTime` holds.
pub fn round_to_nearest_15(time: LocalDateTime) -> (r: Option<LocalDateTime>)
    requires
        time.wf(),
    ensures
        r.is_some() == local_seconds_in_range(rounded_local_seconds(time)),
        time.day < MAX_DAY ==> r.is_some(),
        r matches Some(t) ==> {
            &&& t.wf()
            &&& t.local_seconds() == rounded_local_seconds(time)
            &&& t.nanosecond == 0
            &&& t.offset_seconds == time.offset_seconds
            &&& t.minute() % 15 == 0
            &&& t.second() == 0
        },
{
    let minute: u32 = (time.second_of_day / 60) % 60;
    let remainder: u32 = minute % 15;
    let shift: i64 = if remainder < 8 {
        -(remainder as i64)
    } else {
        (15 - remainder) as i64
    };
    proof {
        lemma_rounded_is_quarter(time);
        let k = time.local_minutes() + round_shift(time.minute()) - time.day * 1440;
        assert(rounded_local_seconds(time) == time.day * 86400 + 60 * k);
    }
    match time.add_minutes(shift) {
        Some(moved) => {
            let t = moved.truncate_to_minute();
            proof {
                let x = time.local_minutes() + round_shift(time.minute());
                let ts = t.second_of_day as int;
                lemma_fundamental_div_mod(moved.second_of_day as int, 60);
                lemma_fundamental_div_mod(time.second_of_day as int, 60);
                assert(moved.local_minutes() == x) by (nonlinear_arith)
                    requires
                        moved.local_seconds() == time.local_seconds() + 60 * round_shift(
                            time.minute(),
                        ),
                        time.local_minutes() == time.local_seconds() / 60,
                        moved.local_minutes() == moved.local_seconds() / 60,
                        x == time.local_minutes() + round_shift(time.minute()),
                ;
                assert(ts == 60 * (ts / 60)) by (nonlinear_arith)
                    requires
                        ts == moved.second_of_day / 60 * 60,
                ;
                lemma_mod_mod(ts / 60, 15, 4);
                assert(ts / 60 == x - 1440 * t.day) by (nonlinear_arith)
                    requires
                        t.local_seconds() == x * 60,
                        t.local_seconds() == t.day * 86400 + ts,
                        ts == 60 * (ts / 60),
                ;
                lemma_fundamental_div_mod(x, 15);
                assert((ts / 60) % 15 == 0) by (nonlinear_arith)
                    requires
                        ts / 60 == x - 1440 * t.day,
                        x % 15 == 0,
                        x == 15 * (x / 15) + x % 15,
                {
                    lemma_mod_multiples_basic(x / 15 - 96 * t.day, 15);
                    assert(ts / 60 == (x / 15 - 96 * t.day) * 15);
                }
                assert(ts % 60 == 0) by (nonlinear_arith)
                    requires
                        ts == 60 * (ts / 60),
                {
                    lemma_mod_multiples_basic(ts / 60, 60);
                    assert(ts == (ts / 60) * 60);
                }
            }
            Some(t)
        },
        None => None,
    }
}

/// Where the workday stands.
#[derive(Clone, Copy, Debug, PartialEq, Eq, Structural)]
pub enum DayStatus {
    /// Whole minutes still to go, at least one.
    InProgress { remaining_minutes: u64 },
    /// The end of the workday has been reached.
    Completed,
}

/// The status for `remaining_minutes` whole minutes left until the end of day.
pub open spec fn status_of(remaining_minutes: int) -> DayStatus {
    if remaining_minutes > 0 {
        DayStatus::InProgress { remaining_minutes: remaining_minutes as u64 }
    } else {
        DayStatus::Completed
    }
}

/// In progress with the remaining minutes while at least one whole minute is
/// left, otherwise completed.
pub fn day_status(remaining_minutes: i64) -> (r: DayStatus)
    ensures
        r == status_of(remaining_minutes as int),
{
    if remaining_minutes > 0 {
        DayStatus::InProgress { remaining_minutes: remaining_minutes as u64 }
    } else {
        DayStatus::Completed
    }
}

/// The day's plan, derived from its start time, the configured durations and
/// the current time.
#[derive(Clone, Copy, Debug, PartialEq, Eq, Structural)]
pub struct Schedule {
    /// The start time rounded to its quarter hour.
    pub rounded_start: LocalDateTime,
    /// The rounded start plus work and break time.
    pub end_of_day: LocalDateTime,
    /// Whole minutes from now to the end of day, rounded toward zero.
    pub remaining_minutes: i64,
    /// Whether time is left.
    pub status: DayStatus,
}

/// Whether the rounded start and the end of day both fall on days that a
/// `LocalDateTime` holds.
pub open spec fn schedule_fits(start: LocalDateTime, work_minutes: u32, break_minutes: u32) -> bool {
    &&& local_seconds_in_range(rounded_local_seconds(start))
    &&& local_seconds_in_range(rounded_local_seconds(start) + 60 * (work_minutes + break_minutes))
}

/// `s` is the schedule for a day that started at `start`, with the given work
/// and break minutes, as seen at `now`.
pub open spec fn is_schedule_for(
    s: Schedule,
    start: LocalDateTime,
    work_minutes: u32,
    break_minutes: u32,
    now: LocalDateTime,
) -> bool {
    &&& s.rounded_start.wf()
    &&& s.rounded_start.local_seconds() == rounded_local_seconds(start)
    &&& s.rounded_start.nanosecond == 0
    &&& s.rounded_start.offset_seconds == start.offset_seconds
    &&& s.end_of_day.wf()
    &&& s.end_of_day.local_seconds() == s.rounded_start.local_seconds() + 60 * (work_minutes
        + break_minutes)
    &&& s.end_of_day.nanosecond == 0
    &&& s.end_of_day.offset_seconds == start.offset_seconds
    &&& s.remaining_minutes == minutes_between_spec(now, s.end_of_day)
    &&& s.status == status_of(s.remaining_minutes as int)
}

/// Rounds `start`, adds `work_minutes + break_minutes` to get the end of day,
/// and measures what is left of it at `now`. `None` when the rounded start or
/// the end of day falls outside the days a `LocalDateTime` holds.
pub fn compute_schedule(
    start: LocalDateTime,
    work_minutes: u32,
    break_minutes: u32,
    now: LocalDateTime,
) -> (r: Option<Schedule>)
    requires
        start.wf(),
        now.wf(),
    ensures
        r.is_some() == schedule_fits(start, work_minutes, break_minutes),
        r matches Some(s) ==> is_schedule_for(s, start, work_minutes, break_minutes, now),
        r matches Some(s) ==> (now.instant_nanos() >= s.end_of_day.instant_nanos() ==> s.status
            == DayStatus::Completed),
{
    let rounded = match round_to_nearest_15(start) {
        Some(t) => t,
        None => {
            return None;
        },
    };
    let total_required: i64 = work_minutes as i64 + break_minutes as i64;
    let end_of_day = match rounded.add_minutes(total_required) {
        Some(t) => t,
        None => {
            return None;
        },
    };
    let remaining_minutes = minutes_between(&now, &end_of_day);
    let status = day_status(remaining_minutes);
    Some(Schedule { rounded_start: rounded, end_of_day, remaining_minutes, status })
}

} // verus!

verus! {

/// Once the current time has reached the end of day, the schedule reports the
/// goal as reached, never a negative remaining time.
pub proof fn lemma_completed_once_end_reached(
    s: Schedule,
    start: LocalDateTime,
    work_minutes: u32,
    break_minutes: u32,
    now: LocalDateTime,
)
    requires
        is_schedule_for(s, start, work_minutes, break_minutes, now),
        now.instant_nanos() >= s.end_of_day.instant_nanos(),
    ensures
        s.status == DayStatus::Completed,
{
    let d = s.end_of_day.instant_nanos() - now.instant_nanos();
    if d == 0 {
        assert(0int / 60_000_000_000int == 0) by (nonlinear_arith);
    } else {
        assert((-d) / 60_000_000_000int >= 0) by (nonlinear_arith)
            requires
                -d > 0,
        ;
    }
}

} // verus!
