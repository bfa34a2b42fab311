use workfetch::layout::side_by_side;
use workfetch::local_time::{minutes_between, LocalDateTime};
use workfetch::schedule::{compute_schedule, day_status, round_to_nearest_15, DayStatus};
use workfetch::text::{create_duration_string, format_hm, format_hms};

const DAY: i64 = 20_000;

fn at(day: i64, hour: u32, minute: u32, second: u32) -> LocalDateTime {
    LocalDateTime {
        day,
        second_of_day: hour * 3600 + minute * 60 + second,
        nanosecond: 0,
        offset_seconds: 3600,
    }
}

fn hm(t: &LocalDateTime) -> (u32, u32) {
    (t.second_of_day / 3600, (t.second_of_day / 60) % 60)
}

#[test]
fn rounding_lands_on_quarter_hours_for_every_minute() {
    for m in 0..60u32 {
        let mut t = at(DAY, 10, m, 37);
        t.nanosecond = 123_456_789;
        let r = round_to_nearest_15(t).unwrap();
        let (_, minute) = hm(&r);
        assert!([0, 15, 30, 45].contains(&minute), "minute {} gave {}", m, minute);
        assert_eq!(r.second_of_day % 60, 0);
        assert_eq!(r.nanosecond, 0);
        let expected_total = if m % 15 < 8 { 10 * 60 + m - m % 15 } else { 10 * 60 + m + 15 - m % 15 };
        assert_eq!(r.day * 1440 + (r.second_of_day / 60) as i64, DAY * 1440 + expected_total as i64);
    }
}

#[test]
fn minute_seven_rounds_down_and_eight_rounds_up() {
    let down = round_to_nearest_15(at(DAY, 9, 7, 59)).unwrap();
    assert_eq!(hm(&down), (9, 0));
    assert_eq!(down.second_of_day, 9 * 3600);
    let up = round_to_nearest_15(at(DAY, 9, 8, 0)).unwrap();
    assert_eq!(hm(&up), (9, 15));
    let down_at_22 = round_to_nearest_15(at(DAY, 9, 22, 30)).unwrap();
    assert_eq!(hm(&down_at_22), (9, 15));
    let up3 = round_to_nearest_15(at(DAY, 9, 23, 0)).unwrap();
    assert_eq!(hm(&up3), (9, 30));
}

#[test]
fn rounding_up_can_cross_midnight() {
    let r = round_to_nearest_15(at(DAY, 23, 53, 10)).unwrap();
    assert_eq!(r.day, DAY + 1);
    assert_eq!(r.second_of_day, 0);
    assert_eq!(r.offset_seconds, 3600);
}

#[test]
fn rounding_past_the_last_day_is_refused() {
    let t = at(1_000_000_000, 23, 59, 0);
    assert_eq!(round_to_nearest_15(t), None);
    let first = at(-1_000_000_000, 0, 5, 0);
    assert_eq!(round_to_nearest_15(first).unwrap().second_of_day, 0);
}

#[test]
fn add_minutes_moves_across_days() {
    let t = at(DAY, 1, 0, 0);
    let back = t.add_minutes(-61).unwrap();
    assert_eq!(back.day, DAY - 1);
    assert_eq!(hm(&back), (23, 59));
    let fwd = t.add_minutes(1440 * 3).unwrap();
    assert_eq!(fwd.day, DAY + 3);
    assert_eq!(fwd.second_of_day, 3600);
    assert_eq!(t.add_minutes(i64::MAX), None);
}

#[test]
fn schedule_start_nine_ends_at_quarter_to_six() {
    let now = at(DAY, 12, 0, 0);
    let s = compute_schedule(at(DAY, 9, 0, 0), 480, 45, now).unwrap();
    assert_eq!(hm(&s.rounded_start), (9, 0));
    assert_eq!(s.end_of_day.day, DAY);
    assert_eq!(hm(&s.end_of_day), (17, 45));
    assert_eq!(s.remaining_minutes, 5 * 60 + 45);
    assert_eq!(s.status, DayStatus::InProgress { remaining_minutes: 345 });
}

#[test]
fn schedule_rounds_the_start_first() {
    let now = at(DAY, 8, 0, 0);
    let s = compute_schedule(at(DAY, 8, 52, 41), 480, 45, now).unwrap();
    assert_eq!(hm(&s.rounded_start), (8, 45));
    assert_eq!(hm(&s.end_of_day), (17, 30));
    assert_eq!(s.remaining_minutes, 9 * 60 + 30);
}

#[test]
fn schedule_is_completed_at_and_after_end_of_day() {
    let start = at(DAY, 9, 0, 0);
    let at_end = compute_schedule(start, 480, 45, at(DAY, 17, 45, 0)).unwrap();
    assert_eq!(at_end.remaining_minutes, 0);
    assert_eq!(at_end.status, DayStatus::Completed);
    let later = compute_schedule(start, 480, 45, at(DAY, 19, 0, 0)).unwrap();
    assert_eq!(later.remaining_minutes, -75);
    assert_eq!(later.status, DayStatus::Completed);
    let under_a_minute = compute_schedule(start, 480, 45, at(DAY, 17, 44, 1)).unwrap();
    assert_eq!(under_a_minute.remaining_minutes, 0);
    assert_eq!(under_a_minute.status, DayStatus::Completed);
    let two_left = compute_schedule(start, 480, 45, at(DAY, 17, 43, 0)).unwrap();
    assert_eq!(two_left.status, DayStatus::InProgress { remaining_minutes: 2 });
}

#[test]
fn schedule_compares_instants_across_offsets() {
    let start = at(DAY, 9, 0, 0);
    let mut now = at(DAY, 16, 45, 0);
    now.offset_seconds = 0;
    let s = compute_schedule(start, 480, 45, now).unwrap();
    assert_eq!(s.remaining_minutes, 0);
    assert_eq!(s.status, DayStatus::Completed);
}

#[test]
fn schedule_with_largest_durations() {
    let s = compute_schedule(at(DAY, 9, 0, 0), u32::MAX, u32::MAX, at(DAY, 9, 0, 0)).unwrap();
    assert_eq!(s.remaining_minutes, 2 * u32::MAX as i64);
    assert_eq!(compute_schedule(at(999_999_000, 9, 0, 0), u32::MAX, 0, at(DAY, 9, 0, 0)), None);
}

#[test]
fn minutes_between_rounds_toward_zero() {
    let a = at(DAY, 10, 0, 0);
    assert_eq!(minutes_between(&a, &at(DAY, 10, 1, 59)), 1);
    assert_eq!(minutes_between(&a, &at(DAY, 9, 58, 30)), -1);
    let mut b = at(DAY, 9, 59, 0);
    b.nanosecond = 1;
    assert_eq!(minutes_between(&a, &b), 0);
}

#[test]
fn day_status_needs_a_whole_minute() {
    assert_eq!(day_status(1), DayStatus::InProgress { remaining_minutes: 1 });
    assert_eq!(day_status(0), DayStatus::Completed);
    assert_eq!(day_status(-30), DayStatus::Completed);
}

#[test]
fn duration_strings() {
    assert_eq!(create_duration_string(480), "8 Std 0 Min");
    assert_eq!(create_duration_string(45), "45 Min");
    assert_eq!(create_duration_string(525), "8 Std 45 Min");
    assert_eq!(create_duration_string(60), "1 Std 0 Min");
    assert_eq!(create_duration_string(0), "0 Min");
    assert_eq!(create_duration_string(59), "59 Min");
    assert_eq!(create_duration_string(6001), "100 Std 1 Min");
}

#[test]
fn clock_formats() {
    let t = at(DAY, 7, 5, 9);
    assert_eq!(format_hm(&t), "07:05");
    assert_eq!(format_hms(&t), "07:05:09");
    assert_eq!(format_hms(&at(DAY, 23, 59, 59)), "23:59:59");
    assert_eq!(format_hm(&at(DAY, 0, 0, 0)), "00:00");
}

#[test]
fn validity_of_fields() {
    assert!(at(DAY, 23, 59, 59).is_valid());
    let mut t = at(DAY, 0, 0, 0);
    t.second_of_day = 86400;
    assert!(!t.is_valid());
    let mut u = at(DAY, 0, 0, 0);
    u.nanosecond = 1_000_000_000;
    assert!(!u.is_valid());
    let mut v = at(DAY, 0, 0, 0);
    v.offset_seconds = -86400;
    assert!(!v.is_valid());
    assert!(!at(1_000_000_001, 0, 0, 0).is_valid());
}

#[test]
fn columns_are_padded_to_the_widest_left_line() {
    let left: Vec<String> = vec!["###".to_string(), "#".to_string(), "##".to_string()];
    let right: Vec<String> = vec!["a : 1".to_string()];
    assert_eq!(side_by_side(&left, &right), vec!["###    a : 1", "#      ", "##     "]);
    let right_longer: Vec<String> = vec!["x".to_string(), "y".to_string()];
    let one: Vec<String> = vec!["é".to_string()];
    assert_eq!(side_by_side(&one, &right_longer), vec!["é    x", "     y"]);
    assert!(side_by_side(&Vec::new(), &Vec::new()).is_empty());
}
