//! Timestamped error logs: the UTC date and time of a Unix timestamp, and the
//! log's file name `<tool>-YYYYMMDD-HHMMSS.log`.

use vstd::prelude::*;
use vstd::arithmetic::div_mod::lemma_fundamental_div_mod_converse;
use crate::format::{
    lemma_before_after, lemma_before_then, lemma_padded_is_fixed, lemma_padded_order, padded_decimal,
    padded_decimal_of, pow10, text_before,
};
use crate::text::string_of;

verus! {

broadcast use vstd::string::group_string_axioms;

// ── The proleptic Gregorian calendar ──────────────────────────────────────────

pub open spec fn leap(y: int) -> bool {
    (y % 4 == 0 && y % 100 != 0) || y % 400 == 0
}

pub open spec fn year_days(y: int) -> int {
    if leap(y) {
        366
    } else {
        365
    }
}

/// Days from 1970-01-01 to January 1st of `y`.
pub open spec fn days_before_year(y: int) -> int
    decreases y - 1970,
{
    if y <= 1970 {
        0
    } else {
        days_before_year(y - 1) + year_days(y - 1)
    }
}

pub open spec fn month_days(leap_year: bool, m: int) -> int {
    if m == 2 {
        if leap_year {
            29
        } else {
            28
        }
    } else if m == 4 || m == 6 || m == 9 || m == 11 {
        30
    } else if 1 <= m <= 12 {
        31
    } else {
        0
    }
}

/// Days from January 1st to the first day of month `m`.
pub open spec fn days_before_month(leap_year: bool, m: int) -> int
    decreases m,
{
    if m <= 1 {
        0
    } else {
        days_before_month(leap_year, m - 1) + month_days(leap_year, m - 1)
    }
}

/// A UTC date and time of day.
pub ghost struct Civil {
    pub year: int,
    pub month: int,
    pub day: int,
    pub hour: int,
    pub minute: int,
    pub second: int,
}

/// `c` is the UTC date and time of the Unix timestamp `secs`.
pub open spec fn is_civil_of(secs: int, c: Civil) -> bool {
    &&& c.year >= 1970
    &&& 1 <= c.month <= 12
    &&& 1 <= c.day <= month_days(leap(c.year), c.month)
    &&& 0 <= c.hour < 24
    &&& 0 <= c.minute < 60
    &&& 0 <= c.second < 60
    &&& secs == (days_before_year(c.year) + days_before_month(leap(c.year), c.month) + c.day - 1)
        * 86400 + c.hour * 3600 + c.minute * 60 + c.second
}

/// The UTC date and time of `secs` (the only one, see `lemma_civil_unique`).
pub open spec fn civil_of(secs: int) -> Civil {
    choose|c: Civil| is_civil_of(secs, c)
}

/// `(YYYYMMDD, HHMMSS)`, each number zero-padded (a year past 9999 keeps all its digits).
pub open spec fn datetime_text(c: Civil) -> (Seq<char>, Seq<char>) {
    (
        padded_decimal(c.year as nat, 4) + padded_decimal(c.month as nat, 2) + padded_decimal(
            c.day as nat,
            2,
        ),
        padded_decimal(c.hour as nat, 2) + padded_decimal(c.minute as nat, 2) + padded_decimal(
            c.second as nat,
            2,
        ),
    )
}

proof fn lemma_year_days_grow(a: int, b: int)
    requires
        1970 <= a < b,
    ensures
        days_before_year(a) + year_days(a) <= days_before_year(b),
    decreases b - a,
{
    if b > a + 1 {
        lemma_year_days_grow(a, b - 1);
    }
}

proof fn lemma_month_table(leap_year: bool)
    ensures
        days_before_month(leap_year, 12) + month_days(leap_year, 12) == (if leap_year {
            366int
        } else {
            365int
        }),
{
    reveal_with_fuel(days_before_month, 13);
}

proof fn lemma_month_days_grow(leap_year: bool, a: int, b: int)
    requires
        1 <= a < b <= 12,
    ensures
        days_before_month(leap_year, a) + month_days(leap_year, a) <= days_before_month(
            leap_year,
            b,
        ),
    decreases b - a,
{
    if b > a + 1 {
        lemma_month_days_grow(leap_year, a, b - 1);
    }
}

proof fn lemma_day_of_year_bound(leap_year: bool, m: int, day: int)
    requires
        1 <= m <= 12,
        1 <= day <= month_days(leap_year, m),
    ensures
        0 <= days_before_month(leap_year, m) + day - 1 < (if leap_year {
            366int
        } else {
            365int
        }),
{
    lemma_month_table(leap_year);
    if m < 12 {
        lemma_month_days_grow(leap_year, m, 12);
    }
    lemma_days_before_month_nonneg(leap_year, m);
}

proof fn lemma_days_before_month_nonneg(leap_year: bool, m: int)
    ensures
        days_before_month(leap_year, m) >= 0,
    decreases m,
{
    if m > 1 {
        lemma_days_before_month_nonneg(leap_year, m - 1);
    }
}

/// A timestamp has exactly one UTC date and time.
pub proof fn lemma_civil_unique(secs: int, c1: Civil, c2: Civil)
    requires
        is_civil_of(secs, c1),
        is_civil_of(secs, c2),
    ensures
        c1 == c2,
{
    let d1 = days_before_year(c1.year) + days_before_month(leap(c1.year), c1.month) + c1.day - 1;
    let d2 = days_before_year(c2.year) + days_before_month(leap(c2.year), c2.month) + c2.day - 1;
    let r1 = c1.hour * 3600 + c1.minute * 60 + c1.second;
    let r2 = c2.hour * 3600 + c2.minute * 60 + c2.second;
    lemma_fundamental_div_mod_converse(secs, 86400, d1, r1);
    lemma_fundamental_div_mod_converse(secs, 86400, d2, r2);
    assert(d1 == d2 && r1 == r2);
    lemma_fundamental_div_mod_converse(r1, 3600, c1.hour, c1.minute * 60 + c1.second);
    lemma_fundamental_div_mod_converse(r2, 3600, c2.hour, c2.minute * 60 + c2.second);
    lemma_fundamental_div_mod_converse(c1.minute * 60 + c1.second, 60, c1.minute, c1.second);
    lemma_fundamental_div_mod_converse(c2.minute * 60 + c2.second, 60, c2.minute, c2.second);
    lemma_day_of_year_bound(leap(c1.year), c1.month, c1.day);
    lemma_day_of_year_bound(leap(c2.year), c2.month, c2.day);
    if c1.year < c2.year {
        lemma_year_days_grow(c1.year, c2.year);
    } else if c2.year < c1.year {
        lemma_year_days_grow(c2.year, c1.year);
    }
    assert(c1.year == c2.year);
    let lp = leap(c1.year);
    lemma_days_before_month_nonneg(lp, c1.month);
    lemma_days_before_month_nonneg(lp, c2.month);
    if c1.month < c2.month {
        lemma_month_days_grow(lp, c1.month, c2.month);
    } else if c2.month < c1.month {
        lemma_month_days_grow(lp, c2.month, c1.month);
    }
    assert(c1.month == c2.month);
}

// ── Order of time stamps ──────────────────────────────────────────────────────

proof fn lemma_find_year(days: int, y: int) -> (r: int)
    requires
        y >= 1970,
        days_before_year(y) <= days,
    ensures
        r >= 1970,
        days_before_year(r) <= days < days_before_year(r) + year_days(r),
    decreases days - days_before_year(y),
{
    if days < days_before_year(y) + year_days(y) {
        y
    } else {
        assert(days_before_year(y + 1) == days_before_year(y) + year_days(y));
        lemma_find_year(days, y + 1)
    }
}

proof fn lemma_find_month(lp: bool, doy: int, m: int) -> (r: int)
    requires
        1 <= m <= 12,
        days_before_month(lp, m) <= doy,
        doy < days_before_month(lp, 12) + month_days(lp, 12),
    ensures
        1 <= r <= 12,
        days_before_month(lp, r) <= doy < days_before_month(lp, r) + month_days(lp, r),
    decreases 12 - m,
{
    if doy < days_before_month(lp, m) + month_days(lp, m) {
        m
    } else {
        assert(days_before_month(lp, m + 1) == days_before_month(lp, m) + month_days(lp, m));
        lemma_find_month(lp, doy, m + 1)
    }
}

/// Every timestamp has a UTC date and time.
pub proof fn lemma_civil_exists(secs: int)
    requires
        secs >= 0,
    ensures
        is_civil_of(secs, civil_of(secs)),
{
    let days = secs / 86400;
    let rem = secs % 86400;
    let y = lemma_find_year(days, 1970);
    let lp = leap(y);
    let doy = days - days_before_year(y);
    lemma_month_table(lp);
    let m = lemma_find_month(lp, doy, 1);
    let c = Civil {
        year: y,
        month: m,
        day: doy - days_before_month(lp, m) + 1,
        hour: rem / 3600,
        minute: (rem % 3600) / 60,
        second: rem % 60,
    };
    assert(secs == days * 86400 + rem) by (nonlinear_arith)
        requires
            days == secs / 86400,
            rem == secs % 86400,
    ;
    assert(rem == c.hour * 3600 + c.minute * 60 + c.second && 0 <= c.hour < 24 && 0 <= c.minute < 60
        && 0 <= c.second < 60) by (nonlinear_arith)
        requires
            0 <= rem < 86400,
            c.hour == rem / 3600,
            c.minute == (rem % 3600) / 60,
            c.second == rem % 60,
    ;
    assert(is_civil_of(secs, c));
}

/// `a` comes strictly before `b`, field by field from the year down.
pub open spec fn civil_before(a: Civil, b: Civil) -> bool {
    ||| a.year < b.year
    ||| a.year == b.year && a.month < b.month
    ||| a.year == b.year && a.month == b.month && a.day < b.day
    ||| a.year == b.year && a.month == b.month && a.day == b.day && a.hour < b.hour
    ||| a.year == b.year && a.month == b.month && a.day == b.day && a.hour == b.hour && a.minute
        < b.minute
    ||| a.year == b.year && a.month == b.month && a.day == b.day && a.hour == b.hour && a.minute
        == b.minute && a.second < b.second
}

proof fn lemma_earlier_civil_earlier_secs(s1: int, c1: Civil, s2: int, c2: Civil)
    requires
        is_civil_of(s1, c1),
        is_civil_of(s2, c2),
        civil_before(c1, c2),
    ensures
        s1 < s2,
{
    let d1 = days_before_year(c1.year) + days_before_month(leap(c1.year), c1.month) + c1.day - 1;
    let d2 = days_before_year(c2.year) + days_before_month(leap(c2.year), c2.month) + c2.day - 1;
    let r1 = c1.hour * 3600 + c1.minute * 60 + c1.second;
    let r2 = c2.hour * 3600 + c2.minute * 60 + c2.second;
    lemma_day_of_year_bound(leap(c1.year), c1.month, c1.day);
    lemma_day_of_year_bound(leap(c2.year), c2.month, c2.day);
    assert(0 <= r1 < 86400 && 0 <= r2 < 86400);
    if c1.year < c2.year {
        lemma_year_days_grow(c1.year, c2.year);
        assert(d1 < d2);
    } else if c1.month < c2.month {
        lemma_month_days_grow(leap(c1.year), c1.month, c2.month);
        lemma_days_before_month_nonneg(leap(c1.year), c1.month);
        assert(d1 < d2);
    } else if c1.day < c2.day {
        assert(d1 < d2);
    } else {
        assert(d1 == d2);
        assert(r1 < r2);
    }
    assert(s1 == d1 * 86400 + r1 && s2 == d2 * 86400 + r2);
    assert(s1 < s2) by (nonlinear_arith)
        requires
            s1 == d1 * 86400 + r1,
            s2 == d2 * 86400 + r2,
            0 <= r1 < 86400,
            0 <= r2 < 86400,
            d1 < d2 || (d1 == d2 && r1 < r2),
    ;
}

/// The time stamp `YYYYMMDDHHMMSS` of a date and time.
pub open spec fn stamp(c: Civil) -> Seq<char> {
    datetime_text(c).0 + datetime_text(c).1
}

/// Log stamps sort as the times they stand for: of two timestamps, the
/// earlier has the stamp that comes first in string order, whenever the two
/// stamps are equally long (their years have equally many digits; every year
/// up to 9999 has four).
pub proof fn lemma_stamp_increases(s1: int, s2: int)
    requires
        0 <= s1 < s2,
        stamp(civil_of(s1)).len() == stamp(civil_of(s2)).len(),
    ensures
        text_before(stamp(civil_of(s1)), stamp(civil_of(s2))),
{
    lemma_civil_exists(s1);
    lemma_civil_exists(s2);
    let a = civil_of(s1);
    let b = civil_of(s2);
    if !civil_before(a, b) {
        if a == b {
        } else {
            assert(civil_before(b, a));
            lemma_earlier_civil_earlier_secs(s2, b, s1, a);
        }
        assert(false);
    }
    let ya = padded_decimal(a.year as nat, 4);
    let yb = padded_decimal(b.year as nat, 4);
    // Every two-digit field is exactly two characters long.
    assert(pow10(2) == 100) by {
        reveal_with_fuel(pow10, 3);
    }
    lemma_padded_is_fixed(a.month as nat, 2);
    lemma_padded_is_fixed(b.month as nat, 2);
    lemma_padded_is_fixed(a.day as nat, 2);
    lemma_padded_is_fixed(b.day as nat, 2);
    lemma_padded_is_fixed(a.hour as nat, 2);
    lemma_padded_is_fixed(b.hour as nat, 2);
    lemma_padded_is_fixed(a.minute as nat, 2);
    lemma_padded_is_fixed(b.minute as nat, 2);
    lemma_padded_is_fixed(a.second as nat, 2);
    lemma_padded_is_fixed(b.second as nat, 2);
    let ma = padded_decimal(a.month as nat, 2);
    let mb = padded_decimal(b.month as nat, 2);
    let da = padded_decimal(a.day as nat, 2);
    let db = padded_decimal(b.day as nat, 2);
    let ha = padded_decimal(a.hour as nat, 2);
    let hb = padded_decimal(b.hour as nat, 2);
    let ia = padded_decimal(a.minute as nat, 2);
    let ib = padded_decimal(b.minute as nat, 2);
    let sa = padded_decimal(a.second as nat, 2);
    let sb = padded_decimal(b.second as nat, 2);
    assert(stamp(a) == ya + ma + da + (ha + ia + sa));
    assert(stamp(b) == yb + mb + db + (hb + ib + sb));
    assert(ya.len() == yb.len());
    if a.year < b.year {
        lemma_padded_order(a.year as nat, b.year as nat, 4);
        lemma_before_then(ya, yb, ma, mb);
        lemma_before_then(ya + ma, yb + mb, da, db);
        lemma_before_then(ya + ma + da, yb + mb + db, ha + ia + sa, hb + ib + sb);
    } else if a.month < b.month {
        lemma_padded_order(a.month as nat, b.month as nat, 2);
        lemma_before_after(ya, ma, mb);
        lemma_before_then(ya + ma, yb + mb, da, db);
        lemma_before_then(ya + ma + da, yb + mb + db, ha + ia + sa, hb + ib + sb);
    } else if a.day < b.day {
        lemma_padded_order(a.day as nat, b.day as nat, 2);
        lemma_before_after(ya + ma, da, db);
        lemma_before_then(ya + ma + da, yb + mb + db, ha + ia + sa, hb + ib + sb);
    } else {
        let p = ya + ma + da;
        if a.hour < b.hour {
            lemma_padded_order(a.hour as nat, b.hour as nat, 2);
            lemma_before_then(ha, hb, ia, ib);
            lemma_before_then(ha + ia, hb + ib, sa, sb);
        } else if a.minute < b.minute {
            lemma_padded_order(a.minute as nat, b.minute as nat, 2);
            lemma_before_after(ha, ia, ib);
            lemma_before_then(ha + ia, hb + ib, sa, sb);
        } else {
            lemma_padded_order(a.second as nat, b.second as nat, 2);
            lemma_before_after(ha + ia, sa, sb);
        }
        lemma_before_after(p, ha + ia + sa, hb + ib + sb);
    }
}

/// Leap years among `1..=n`.
spec fn leaps_through(n: int) -> int {
    n / 4 - n / 100 + n / 400
}

proof fn lemma_days_before_year_closed(y: int)
    requires
        y >= 1970,
    ensures
        days_before_year(y) == 365 * (y - 1970) + leaps_through(y - 1) - leaps_through(1969),
    decreases y - 1970,
{
    if y > 1970 {
        lemma_days_before_year_closed(y - 1);
        let n = y - 1;
        assert(leaps_through(n) - leaps_through(n - 1) == if leap(n) { 1int } else { 0int });
    }
}

proof fn lemma_days_before_year_grows(y: int)
    requires
        y >= 10000,
    ensures
        days_before_year(y) >= days_before_year(10000),
    decreases y - 10000,
{
    if y > 10000 {
        lemma_days_before_year_grows(y - 1);
    }
}

/// Before timestamp 253402300800 (10000-01-01 00:00:00 UTC) every date has
/// a four-digit year, so its stamp `YYYYMMDDHHMMSS` is 14 characters long.
pub proof fn lemma_stamp_width(s: int)
    requires
        0 <= s < 253402300800,
    ensures
        civil_of(s).year < 10000,
        stamp(civil_of(s)).len() == 14,
{
    lemma_civil_exists(s);
    let c = civil_of(s);
    lemma_days_before_month_nonneg(leap(c.year), c.month);
    let d = days_before_year(c.year) + days_before_month(leap(c.year), c.month) + c.day - 1;
    let r = c.hour * 3600 + c.minute * 60 + c.second;
    if c.year >= 10000 {
        lemma_days_before_year_closed(10000);
        lemma_days_before_year_grows(c.year);
        assert(d >= 2932897);
        assert(s >= 253402300800) by (nonlinear_arith)
            requires
                s == d * 86400 + r,
                d >= 2932897,
                r >= 0,
        ;
    }
    assert(pow10(4) == 10000) by {
        reveal_with_fuel(pow10, 5);
    }
    assert(pow10(2) == 100) by {
        reveal_with_fuel(pow10, 3);
    }
    lemma_padded_is_fixed(c.year as nat, 4);
    lemma_padded_is_fixed(c.month as nat, 2);
    lemma_padded_is_fixed(c.day as nat, 2);
    lemma_padded_is_fixed(c.hour as nat, 2);
    lemma_padded_is_fixed(c.minute as nat, 2);
    lemma_padded_is_fixed(c.second as nat, 2);
}

/// The stamps of timestamps before 253402300800 (every date before the year
/// 10000) strictly increase with the time: the later timestamp has the stamp
/// that comes later in string order.
pub proof fn lemma_stamp_strictly_increases(s1: int, s2: int)
    requires
        0 <= s1 < s2 < 253402300800,
    ensures
        text_before(stamp(civil_of(s1)), stamp(civil_of(s2))),
        stamp(civil_of(s1)) != stamp(civil_of(s2)),
{
    lemma_stamp_width(s1);
    lemma_stamp_width(s2);
    lemma_stamp_increases(s1, s2);
    let a = stamp(civil_of(s1));
    let b = stamp(civil_of(s2));
    let k = choose|k: int| 0 <= k < a.len() && a.take(k) == b.take(k) && (a[k] as u32) < (b[k] as u32);
    assert(a[k] != b[k]);
}

// ── Executable ────────────────────────────────────────────────────────────────

/// Is `year` a leap year (proleptic Gregorian)?
pub fn is_leap(year: u64) -> (b: bool)
    ensures
        b == leap(year as int),
{
    (year % 4 == 0 && year % 100 != 0) || year % 400 == 0
}

/// Unix timestamp → `(YYYYMMDD, HHMMSS)` in UTC, without outside crates.
/// Valid for every `u64` timestamp: the result is the calendar date and time
/// of `secs` seconds after 1970-01-01 00:00:00 UTC.
pub fn unix_to_datetime(secs: u64) -> (r: (String, String))
    ensures
        is_civil_of(secs as int, civil_of(secs as int)),
        (r.0@, r.1@) == datetime_text(civil_of(secs as int)),
{
    let days = secs / 86400;
    let rem = secs % 86400;
    let hh = rem / 3600;
    let mm = (rem % 3600) / 60;
    let ss = rem % 60;

    // Year: walk from 1970, subtracting whole years.
    let mut y: u64 = 1970;
    let mut d = days;
    loop
        invariant
            1970 <= y,
            d <= days,
            y - 1970 <= days - d,
            days <= u64::MAX / 86400,
            days as int == days_before_year(y as int) + d,
        ensures
            1970 <= y,
            (d as int) < year_days(y as int),
            days as int == days_before_year(y as int) + d,
        decreases d,
    {
        let dy: u64 = if is_leap(y) {
            366
        } else {
            365
        };
        if d < dy {
            break;
        }
        d -= dy;
        y += 1;
    }
    let ghost day_of_year = d;

    // Month: walk the months of year `y`.
    let lp = is_leap(y);
    let months: [u64; 12] = if lp {
        [31, 29, 31, 30, 31, 30, 31, 31, 30, 31, 30, 31]
    } else {
        [31, 28, 31, 30, 31, 30, 31, 31, 30, 31, 30, 31]
    };
    assert forall|k: int| 0 <= k < 12 implies months@[k] == month_days(lp, k + 1) by {}
    proof {
        lemma_month_table(lp);
        reveal_with_fuel(days_before_month, 2);
        assert(days_before_month(lp, 13) == year_days(y as int));
    }
    let mut mo: u64 = 1;
    let mut k: usize = 0;
    while k < 12
        invariant_except_break
            k <= 12,
            mo == k + 1,
            day_of_year as int == days_before_month(lp, mo as int) + d,
            (day_of_year as int) < year_days(y as int),
            lp == leap(y as int),
            days_before_month(lp, 13) == year_days(y as int),
            forall|j: int| 0 <= j < 12 ==> months@[j] == month_days(lp, j + 1),
        ensures
            1 <= mo <= 12,
            d < month_days(lp, mo as int),
            day_of_year as int == days_before_month(lp, mo as int) + d,
        decreases 12 - k,
    {
        let mdays = months[k];
        if d < mdays {
            break;
        }
        d -= mdays;
        mo += 1;
        k += 1;
    }
    let day = d + 1;

    let ghost c = Civil {
        year: y as int,
        month: mo as int,
        day: day as int,
        hour: hh as int,
        minute: mm as int,
        second: ss as int,
    };
    proof {
        assert(secs == days * 86400 + rem) by (nonlinear_arith)
            requires
                days == secs / 86400,
                rem == secs % 86400,
        ;
        assert(rem == hh * 3600 + mm * 60 + ss) by (nonlinear_arith)
            requires
                hh == rem / 3600,
                mm == (rem % 3600) / 60,
                ss == rem % 60,
                rem < 86400,
        ;
        assert(hh < 24) by (nonlinear_arith)
            requires
                hh == rem / 3600,
                rem < 86400,
        ;
        assert(is_civil_of(secs as int, c));
        lemma_civil_unique(secs as int, c, civil_of(secs as int));
    }
    let mut date = string_of(&padded_decimal_of(y, 4));
    date.append(string_of(&padded_decimal_of(mo, 2)).as_str());
    date.append(string_of(&padded_decimal_of(day, 2)).as_str());
    let mut time = string_of(&padded_decimal_of(hh, 2));
    time.append(string_of(&padded_decimal_of(mm, 2)).as_str());
    time.append(string_of(&padded_decimal_of(ss, 2)).as_str());
    (date, time)
}

/// The file name of a log written by `tool` at `secs`: `<tool>-YYYYMMDD-HHMMSS.log`.
pub fn error_log_file_name(tool: &str, secs: u64) -> (r: String)
    ensures
        r@ == tool@ + "-"@ + datetime_text(civil_of(secs as int)).0 + "-"@ + datetime_text(
            civil_of(secs as int),
        ).1 + ".log"@,
{
    let (date, time) = unix_to_datetime(secs);
    let mut r = tool.to_string();
    r.append("-");
    r.append(date.as_str());
    r.append("-");
    r.append(time.as_str());
    r.append(".log");
    r
}

} // verus!
