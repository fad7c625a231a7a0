//! Rendering a file's last-modified time, given as seconds since the Unix
//! epoch, as a UTC timestamp "YYYY-MM-DDTHH:MM:SSZ" for the date-attach
//! request. The civil date is characterized by its inverse: the computed
//! fields are in range and map back to exactly the given second count.

use vstd::prelude::*;
use vstd::string::*;
use crate::hashing::{hex_char, hex_char_str};

verus! {

/// Whether `y` is a leap year in the proleptic Gregorian calendar.
pub open spec fn is_leap_year(y: int) -> bool {
    y % 4 == 0 && (y % 100 != 0 || y % 400 == 0)
}

/// The number of days of year `y`.
pub open spec fn days_in_year(y: int) -> int {
    if is_leap_year(y) {
        366
    } else {
        365
    }
}

/// The number of days of month `m` of year `y`.
pub open spec fn days_in_month(y: int, m: int) -> int {
    if m == 1 {
        31
    } else if m == 2 {
        if is_leap_year(y) {
            29
        } else {
            28
        }
    } else if m == 3 {
        31
    } else if m == 4 {
        30
    } else if m == 5 {
        31
    } else if m == 6 {
        30
    } else if m == 7 {
        31
    } else if m == 8 {
        31
    } else if m == 9 {
        30
    } else if m == 10 {
        31
    } else if m == 11 {
        30
    } else {
        31
    }
}

/// The number of days from 1970-01-01 to the first day of year `y`.
pub open spec fn days_before_year(y: int) -> int
    decreases y - 1970,
{
    if y <= 1970 {
        0
    } else {
        days_before_year(y - 1) + days_in_year(y - 1)
    }
}

/// The number of days from the first day of year `y` to the first day of
/// its month `m`.
pub open spec fn days_before_month(y: int, m: int) -> int
    decreases m,
{
    if m <= 1 {
        0
    } else {
        days_before_month(y, m - 1) + days_in_month(y, m - 1)
    }
}

/// A UTC civil time.
pub struct UtcDate {
    pub year: u64,
    pub month: u64,
    pub day: u64,
    pub hour: u64,
    pub minute: u64,
    pub second: u64,
}

impl UtcDate {
    /// Every field in range; the year capped so that four digits render it.
    pub open spec fn wf(self) -> bool {
        &&& 1970 <= self.year <= 9999
        &&& 1 <= self.month <= 12
        &&& 1 <= self.day <= days_in_month(self.year as int, self.month as int)
        &&& self.hour < 24
        &&& self.minute < 60
        &&& self.second < 60
    }
}

/// The seconds since the Unix epoch at which the civil time `dt` falls.
pub open spec fn to_epoch(dt: UtcDate) -> int {
    86400 * (days_before_year(dt.year as int) + days_before_month(dt.year as int, dt.month as int)
        + dt.day - 1) + 3600 * dt.hour + 60 * dt.minute + dt.second
}

/// The first second of the year 10000, the first timestamp this rendering
/// cannot carry (253402300800).
pub open spec fn epoch_render_limit() -> int {
    86400 * days_before_year(10000)
}

fn days_in_year_exec(y: u64) -> (r: u64)
    ensures
        r == days_in_year(y as int),
{
    if y % 4 == 0 && (y % 100 != 0 || y % 400 == 0) {
        366
    } else {
        365
    }
}

fn days_in_month_exec(y: u64, m: u64) -> (r: u64)
    ensures
        r == days_in_month(y as int, m as int),
{
    if m == 1 {
        31
    } else if m == 2 {
        if y % 4 == 0 && (y % 100 != 0 || y % 400 == 0) {
            29
        } else {
            28
        }
    } else if m == 3 {
        31
    } else if m == 4 {
        30
    } else if m == 5 {
        31
    } else if m == 6 {
        30
    } else if m == 7 {
        31
    } else if m == 8 {
        31
    } else if m == 9 {
        30
    } else if m == 10 {
        31
    } else if m == 11 {
        30
    } else {
        31
    }
}

/// Decompose seconds since the Unix epoch into the UTC civil time they
/// fall at: the unique well-formed date that maps back to `secs`.
pub fn epoch_to_utc(secs: u64) -> (r: UtcDate)
    requires
        secs < epoch_render_limit(),
    ensures
        r.wf(),
        to_epoch(r) == secs,
{
    let days_total: u64 = secs / 86400;
    let rem: u64 = secs % 86400;
    let hour: u64 = rem / 3600;
    let minute: u64 = (rem % 3600) / 60;
    let second: u64 = rem % 60;
    proof {
        assert(secs == 86400 * days_total + rem);
        assert(rem == 3600 * hour + (rem % 3600));
        assert((rem % 3600) == 60 * minute + second);
        assert(days_total < days_before_year(10000));
    }
    let mut year: u64 = 1970;
    let mut days: u64 = days_total;
    while days >= days_in_year_exec(year)
        invariant
            1970 <= year <= 9999,
            days_before_year(year as int) + days == days_total,
            days_total < days_before_year(10000),
        decreases days,
    {
        let len = days_in_year_exec(year);
        days = days - len;
        year = year + 1;
        proof {
            assert(days_before_year(year as int) == days_before_year(year as int - 1)
                + days_in_year(year as int - 1));
            if year == 10000 {
                assert(days_before_year(10000) <= days_total);
                assert(false);
            }
        }
    }
    let ghost yd = days as int;
    let mut month: u64 = 1;
    while days >= days_in_month_exec(year, month)
        invariant
            1 <= month <= 12,
            1970 <= year <= 9999,
            days_before_month(year as int, month as int) + days == yd,
            yd < days_in_year(year as int),
            days_before_year(year as int) + yd == days_total,
        decreases days,
    {
        let len = days_in_month_exec(year, month);
        days = days - len;
        month = month + 1;
        proof {
            assert(days_before_month(year as int, month as int) == days_before_month(
                year as int,
                month as int - 1,
            ) + days_in_month(year as int, month as int - 1));
            if month == 13 {
                reveal_with_fuel(days_before_month, 13);
                assert(days_before_month(year as int, 13) == days_in_year(year as int));
                assert(false);
            }
        }
    }
    let day: u64 = days + 1;
    let r = UtcDate { year, month, day, hour, minute, second };
    proof {
        assert(days_before_year(r.year as int) + days_before_month(r.year as int, r.month as int)
            + r.day - 1 == days_total);
        assert(to_epoch(r) == secs);
    }
    r
}

/// The decimal digit `d` (a value below ten) as a character.
pub open spec fn dec_digit(d: int) -> char {
    hex_char(d as u128)
}

/// `n` as two decimal digits, zero-padded.
pub open spec fn dec2(n: int) -> Seq<char> {
    seq![dec_digit(n / 10), dec_digit(n % 10)]
}

/// `n` as four decimal digits, zero-padded.
pub open spec fn dec4(n: int) -> Seq<char> {
    seq![dec_digit(n / 1000), dec_digit((n / 100) % 10), dec_digit((n / 10) % 10), dec_digit(
        n % 10,
    )]
}

/// `dt` rendered "YYYY-MM-DDTHH:MM:SSZ".
pub open spec fn utc_render(dt: UtcDate) -> Seq<char> {
    dec4(dt.year as int) + seq!['-'] + dec2(dt.month as int) + seq!['-'] + dec2(dt.day as int)
        + seq!['T'] + dec2(dt.hour as int) + seq![':'] + dec2(dt.minute as int) + seq![':'] + dec2(
        dt.second as int,
    ) + seq!['Z']
}

fn push_dec2(s: &mut String, n: u64)
    requires
        n < 100,
    ensures
        final(s)@ == old(s)@ + dec2(n as int),
{
    s.append(hex_char_str((n / 10) as u128));
    s.append(hex_char_str((n % 10) as u128));
    proof {
        assert(final(s)@ =~= old(s)@ + dec2(n as int));
    }
}

/// Render a well-formed UTC civil time as "YYYY-MM-DDTHH:MM:SSZ".
pub fn render_utc(dt: &UtcDate) -> (r: String)
    requires
        dt.wf(),
    ensures
        r@ == utc_render(*dt),
{
    proof {
        reveal_strlit("-");
        reveal_strlit("T");
        reveal_strlit(":");
        reveal_strlit("Z");
    }
    let mut s = String::new();
    s.append(hex_char_str((dt.year / 1000) as u128));
    s.append(hex_char_str(((dt.year / 100) % 10) as u128));
    s.append(hex_char_str(((dt.year / 10) % 10) as u128));
    s.append(hex_char_str((dt.year % 10) as u128));
    proof {
        assert(s@ =~= dec4(dt.year as int));
    }
    s.append("-");
    push_dec2(&mut s, dt.month);
    s.append("-");
    push_dec2(&mut s, dt.day);
    s.append("T");
    push_dec2(&mut s, dt.hour);
    s.append(":");
    push_dec2(&mut s, dt.minute);
    s.append(":");
    push_dec2(&mut s, dt.second);
    s.append("Z");
    proof {
        assert(s@ =~= utc_render(*dt));
    }
    s
}

/// Render seconds since the Unix epoch as the UTC timestamp they fall at.
pub fn format_utc_timestamp(secs: u64) -> (r: String)
    requires
        secs < epoch_render_limit(),
    ensures
        exists|dt: UtcDate| dt.wf() && to_epoch(dt) == secs && r@ == utc_render(dt),
{
    let dt = epoch_to_utc(secs);
    let r = render_utc(&dt);
    proof {
        assert(dt.wf() && to_epoch(dt) == secs && r@ == utc_render(dt));
    }
    r
}

} // verus!
