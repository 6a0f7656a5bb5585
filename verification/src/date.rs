use vstd::prelude::*;
use crate::text::{push_char, push_str, push_decimal, decimal};

verus! {

/// Whether `y` is a Gregorian leap year.
pub open spec fn is_leap(y: int) -> bool {
    y % 4 == 0 && (y % 100 != 0 || y % 400 == 0)
}

/// Days in year `y`.
pub open spec fn year_len(y: int) -> int {
    if is_leap(y) { 366 } else { 365 }
}

/// Days in month `m` (0 = January) of year `y`.
pub open spec fn month_len(y: int, m: int) -> int {
    if m == 1 { if is_leap(y) { 29 } else { 28 } }
    else if m == 3 || m == 5 || m == 8 || m == 10 { 30 }
    else { 31 }
}

/// Counting `days` days on from 1 January of year `y`: the year reached and
/// the day within it (0-based).
pub open spec fn split_year(days: nat, y: int) -> (int, nat)
    decreases days,
{
    if days < year_len(y) { (y, days) } else { split_year((days - year_len(y)) as nat, y + 1) }
}

/// Counting `rem` days on from the first of month `m` of year `y`: the month
/// reached (0-based; 12 when the days run past December) and the day within it.
pub open spec fn split_month(rem: nat, y: int, m: int) -> (int, nat)
    decreases 12 - m,
{
    if m >= 12 || rem < month_len(y, m) { (m, rem) } else { split_month((rem - month_len(y, m)) as nat, y, m + 1) }
}

/// The date of Unix time `ts`: year, month (1-12) and day (1-31).
pub open spec fn date_of(ts: u64) -> (int, int, int) {
    let (y, rem) = split_year((ts / 86400) as nat, 1970);
    let (m, d) = split_month(rem, y, 0);
    (y, m + 1, d + 1int)
}

/// A number written with at least two digits.
pub open spec fn two_digits(v: nat) -> Seq<char> {
    if v < 10 { seq!['0'] + decimal(v) } else { decimal(v) }
}

/// How a time is shown: "Never" for 0, else the date as YYYY-MM-DD.
pub open spec fn timestamp_text(ts: u64) -> Seq<char> {
    if ts == 0 {
        "Never"@
    } else {
        let (y, m, d) = date_of(ts);
        decimal(y as nat) + seq!['-'] + two_digits(m as nat) + seq!['-'] + two_digits(d as nat)
    }
}

/// A year's days count down the whole day count, and the year moves at most
/// one per 365 days.
proof fn lemma_split_year_bound(days: nat, y: int)
    requires y >= 1970,
    ensures
        split_year(days, y).0 >= y,
        split_year(days, y).0 - y <= days / 365,
        split_year(days, y).1 < year_len(split_year(days, y).0),
    decreases days,
{
    if days >= year_len(y) {
        lemma_split_year_bound((days - year_len(y)) as nat, y + 1);
    }
}

/// Format a Unix timestamp as a date: "Never" for 0, else YYYY-MM-DD.
pub fn format_timestamp(ts: u64) -> (r: String)
    ensures r@ == timestamp_text(ts),
{
    if ts == 0 {
        let mut s = String::new();
        push_str(&mut s, "Never");
        return s;
    }
    let days = ts / 86400;
    let mut y: u64 = 1970;
    let mut remaining: u64 = days;
    proof { lemma_split_year_bound(days as nat, 1970); }
    loop
        invariant
            1970 <= y,
            y - 1970 <= (days - remaining) / 365,
            remaining <= days,
            days == ts / 86400,
            split_year(remaining as nat, y as int) == split_year(days as nat, 1970),
        ensures
            split_year(days as nat, 1970) == (y as int, remaining as nat),
            remaining < 366,
            1970 <= y,
        decreases remaining,
    {
        let leap = y % 4 == 0 && (y % 100 != 0 || y % 400 == 0);
        let days_in_year: u64 = if leap { 366 } else { 365 };
        if remaining < days_in_year {
            break;
        }
        remaining = remaining - days_in_year;
        y = y + 1;
    }
    let leap = y % 4 == 0 && (y % 100 != 0 || y % 400 == 0);
    let mut m: u64 = 0;
    loop
        invariant
            m <= 12,
            split_month(remaining as nat, y as int, m as int) == split_month(split_year(days as nat, 1970).1, split_year(days as nat, 1970).0, 0),
            leap == is_leap(y as int),
            remaining < 366,
        ensures
            split_month(split_year(days as nat, 1970).1, split_year(days as nat, 1970).0, 0) == (m as int, remaining as nat),
            remaining < 366,
            m <= 12,
        decreases 12 - m,
    {
        if m >= 12 {
            break;
        }
        let len: u64 = if m == 1 { if leap { 29 } else { 28 } } else if m == 3 || m == 5 || m == 8 || m == 10 { 30 } else { 31 };
        if remaining < len {
            break;
        }
        remaining = remaining - len;
        m = m + 1;
    }
    let mut s = String::new();
    push_decimal(&mut s, y);
    push_char(&mut s, '-');
    let month = m + 1;
    if month < 10 {
        push_char(&mut s, '0');
    }
    push_decimal(&mut s, month);
    push_char(&mut s, '-');
    let day = remaining + 1;
    if day < 10 {
        push_char(&mut s, '0');
    }
    push_decimal(&mut s, day);
    assert(s@ =~= timestamp_text(ts));
    s
}

/// A play time in seconds as whole hours and the minutes left over.
pub fn play_time_hm(secs: u64) -> (r: (u64, u64))
    ensures r == (secs / 3600, (secs % 3600) / 60),
{
    (secs / 3600, (secs % 3600) / 60)
}

} // verus!
