use vstd::prelude::*;

use crate::local_time::LocalDateTime;

verus! {

/// The decimal digit character for `d`, 0 to 9.
pub open spec fn digit_char(d: int) -> char {
    if d == 0 {
        '0'
    } else if d == 1 {
        '1'
    } else if d == 2 {
        '2'
    } else if d == 3 {
        '3'
    } else if d == 4 {
        '4'
    } else if d == 5 {
        '5'
    } else if d == 6 {
        '6'
    } else if d == 7 {
        '7'
    } else if d == 8 {
        '8'
    } else {
        '9'
    }
}

/// `n` in decimal, without leading zeros.
pub open spec fn decimal(n: nat) -> Seq<char>
    decreases n,
{
    if n < 10 {
        seq![digit_char(n as int)]
    } else {
        decimal(n / 10) + seq![digit_char((n % 10) as int)]
    }
}

/// `n`, below 100, as exactly two decimal digits.
pub open spec fn two_digits(n: int) -> Seq<char> {
    seq![digit_char(n / 10), digit_char(n % 10)]
}

/// A time of day as `HH:MM`.
pub open spec fn hm_text(t: LocalDateTime) -> Seq<char> {
    two_digits(t.hour()) + seq![':'] + two_digits(t.minute())
}

/// A time of day as `HH:MM:SS`.
pub open spec fn hms_text(t: LocalDateTime) -> Seq<char> {
    hm_text(t) + seq![':'] + two_digits(t.second())
}

/// A number of minutes as hours and minutes (`"8 Std 0 Min"`), or as minutes
/// alone when under an hour (`"45 Min"`).
pub open spec fn duration_text(total_minutes: nat) -> Seq<char> {
    let hours = total_minutes / 60;
    let minutes = total_minutes % 60;
    if hours > 0 {
        decimal(hours) + " Std "@ + decimal(minutes) + " Min"@
    } else {
        decimal(minutes) + " Min"@
    }
}

fn digit_str(d: u64) -> (r: &'static str)
    requires
        d < 10,
    ensures
        r@ == seq![digit_char(d as int)],
{
    proof {
        reveal_strlit("0");
        reveal_strlit("1");
        reveal_strlit("2");
        reveal_strlit("3");
        reveal_strlit("4");
        reveal_strlit("5");
        reveal_strlit("6");
        reveal_strlit("7");
        reveal_strlit("8");
        reveal_strlit("9");
    }
    if d == 0 {
        "0"
    } else if d == 1 {
        "1"
    } else if d == 2 {
        "2"
    } else if d == 3 {
        "3"
    } else if d == 4 {
        "4"
    } else if d == 5 {
        "5"
    } else if d == 6 {
        "6"
    } else if d == 7 {
        "7"
    } else if d == 8 {
        "8"
    } else {
        "9"
    }
}

/// Appends `n` in decimal to `s`.
pub fn push_decimal(s: &mut String, n: u64)
    ensures
        final(s)@ == old(s)@ + decimal(n as nat),
    decreases n,
{
    if n >= 10 {
        push_decimal(s, n / 10);
    }
    s.append(digit_str(n % 10));
    proof {
        assert(final(s)@ =~= old(s)@ + decimal(n as nat));
    }
}

/// Appends `n`, below 100, as two decimal digits to `s`.
fn push_two_digits(s: &mut String, n: u32)
    requires
        n < 100,
    ensures
        final(s)@ == old(s)@ + two_digits(n as int),
{
    s.append(digit_str((n / 10) as u64));
    s.append(digit_str((n % 10) as u64));
    proof {
        assert(final(s)@ =~= old(s)@ + two_digits(n as int));
    }
}

/// The local time of day of `t` as `HH:MM`.
pub fn format_hm(t: &LocalDateTime) -> (r: String)
    requires
        t.wf(),
    ensures
        r@ == hm_text(*t),
{
    let mut s = String::new();
    push_two_digits(&mut s, t.second_of_day / 3600);
    s.append(":");
    push_two_digits(&mut s, (t.second_of_day / 60) % 60);
    proof {
        reveal_strlit(":");
        assert(s@ =~= hm_text(*t));
    }
    s
}

/// The local time of day of `t` as `HH:MM:SS`.
pub fn format_hms(t: &LocalDateTime) -> (r: String)
    requires
        t.wf(),
    ensures
        r@ == hms_text(*t),
{
    let mut s = format_hm(t);
    s.append(":");
    push_two_digits(&mut s, t.second_of_day % 60);
    proof {
        reveal_strlit(":");
        assert(s@ =~= hms_text(*t));
    }
    s
}

/// `total_minutes` as hours and minutes, e.g. `"8 Std 0 Min"`, or as minutes
/// alone when under an hour, e.g. `"45 Min"`.
pub fn create_duration_string(total_minutes: u64) -> (r: String)
    ensures
        r@ == duration_text(total_minutes as nat),
{
    let hours: u64 = total_minutes / 60;
    let minutes: u64 = total_minutes % 60;
    let mut s = String::new();
    if hours > 0 {
        push_decimal(&mut s, hours);
        s.append(" Std ");
    }
    push_decimal(&mut s, minutes);
    s.append(" Min");
    proof {
        assert(s@ =~= duration_text(total_minutes as nat));
    }
    s
}

} // verus!
