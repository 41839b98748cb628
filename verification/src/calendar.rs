//! Proleptic Gregorian calendar arithmetic: days since 1970-01-01 to a
//! civil date and back.

use vstd::prelude::*;

verus! {

/// Whether `y` is a leap year.
pub open spec fn is_leap(y: int) -> bool {
    (y % 4 == 0 && y % 100 != 0) || y % 400 == 0
}

/// Number of leap years among the years up to `n` (offset so that the
/// difference of two values counts the leap years in between).
pub open spec fn leaps_upto(n: int) -> int {
    n / 4 - n / 100 + n / 400
}

/// Days in month `m` (1..=12) of year `y`.
pub open spec fn days_in_month(y: int, m: int) -> int {
    if m == 2 {
        if is_leap(y) { 29 } else { 28 }
    } else if m == 4 || m == 6 || m == 9 || m == 11 {
        30
    } else {
        31
    }
}

/// Days of year `y` before the first of month `m`.
pub open spec fn days_before_month(y: int, m: int) -> int {
    let base: int = if m == 1 { 0 }
        else if m == 2 { 31 }
        else if m == 3 { 59 }
        else if m == 4 { 90 }
        else if m == 5 { 120 }
        else if m == 6 { 151 }
        else if m == 7 { 181 }
        else if m == 8 { 212 }
        else if m == 9 { 243 }
        else if m == 10 { 273 }
        else if m == 11 { 304 }
        else { 334 };
    base + if m > 2 && is_leap(y) { 1int } else { 0int }
}

/// Whether `(y, m, d)` is a date of the calendar.
pub open spec fn valid_date(y: int, m: int, d: int) -> bool {
    1 <= m <= 12 && 1 <= d <= days_in_month(y, m)
}

/// Days from 1970-01-01 to the date `(y, m, d)` (negative before it).
pub open spec fn days_from_civil(y: int, m: int, d: int) -> int {
    365 * (y - 1970) + leaps_upto(y - 1) - leaps_upto(1969) + days_before_month(y, m) + d - 1
}

/// Days from 0000-03-01 to day `doy` (0-based, counted from March 1) of
/// the year that starts in March of year `yy`.
spec fn days_from_march_epoch(yy: int, doy: int) -> int {
    365 * yy + yy / 4 - yy / 100 + yy / 400 + doy
}

proof fn lemma_leaps_step(y: int)
    ensures
        leaps_upto(y) == leaps_upto(y - 1) + if is_leap(y) { 1int } else { 0int },
{
    let a = y / 4;
    let b = y / 100;
    let c = y / 400;
    let a1 = (y - 1) / 4;
    let b1 = (y - 1) / 100;
    let c1 = (y - 1) / 400;
    assert(a - a1 == if y % 4 == 0 { 1int } else { 0int });
    assert(b - b1 == if y % 100 == 0 { 1int } else { 0int });
    assert(c - c1 == if y % 400 == 0 { 1int } else { 0int });
    assert(y % 400 == 0 ==> y % 100 == 0 && y % 4 == 0);
    assert(y % 100 == 0 ==> y % 4 == 0);
}

proof fn lemma_era_days(era: int, yoe: int)
    requires
        0 <= yoe < 400,
    ensures
        365 * (era * 400 + yoe) + (era * 400 + yoe) / 4 - (era * 400 + yoe) / 100 + (era * 400 + yoe) / 400
            == era * 146097 + 365 * yoe + yoe / 4 - yoe / 100,
{
    let yy = era * 400 + yoe;
    assert(yy / 4 == era * 100 + yoe / 4);
    assert(yy / 100 == era * 4 + yoe / 100);
    assert(yy / 400 == era);
}

/// The start of March-year `k` of an era, in days of the era.
spec fn era_year_start(k: int) -> int {
    365 * k + k / 4 - k / 100 + k / 400
}

proof fn lemma_year_of_era(doe: int)
    requires
        0 <= doe < 146097,
    ensures
        ({
            let yoe = (doe - doe / 1460 + doe / 36524 - doe / 146096) / 365;
            &&& 0 <= yoe < 400
            &&& era_year_start(yoe) <= doe < era_year_start(yoe + 1)
        }),
{
    let q1 = doe / 1460;
    let q2 = doe / 36524;
    let q3 = doe / 146096;
    let t = doe - q1 + q2 - q3;
    let yoe = t / 365;
    assert(0 <= yoe < 400);
    assert(era_year_start(yoe) <= doe < era_year_start(yoe + 1));
}

proof fn lemma_month_of_year(doy: int)
    requires
        0 <= doy < 366,
    ensures
        ({
            let mp = (5 * doy + 2) / 153;
            let start = (153 * mp + 2) / 5;
            let next = (153 * (mp + 1) + 2) / 5;
            &&& 0 <= mp < 12
            &&& start <= doy
            &&& (mp < 11 ==> doy < next)
        }),
{
    let mp = (5 * doy + 2) / 153;
    assert(0 <= mp < 12);
}


proof fn lemma_march_to_civil(yy: int, mp: int, d: int)
    requires
        0 <= mp < 12,
    ensures
        ({
            let m = if mp < 10 { mp + 3 } else { mp - 9 };
            let year = if m <= 2 { yy + 1 } else { yy };
            days_from_march_epoch(yy, (153 * mp + 2) / 5 + d - 1) - 719468 == days_from_civil(year, m, d)
        }),
{
    if mp < 10 {
        lemma_leaps_step(yy);
    }
    assert(leaps_upto(1969) == 477);
}

proof fn lemma_leap_in_era(era: int, k: int)
    requires
        1 <= k <= 400,
    ensures
        is_leap(era * 400 + k) == ((k % 4 == 0 && k % 100 != 0) || k == 400),
        era_year_start(k) - era_year_start(k - 1) == 365 + if (k % 4 == 0 && k % 100 != 0) || k == 400 { 1int } else { 0int },
{
    let y = era * 400 + k;
    assert(y == 4 * (era * 100) + k);
    vstd::arithmetic::div_mod::lemma_mod_multiples_vanish(era * 100, k, 4);
    assert(y == 100 * (era * 4) + k);
    vstd::arithmetic::div_mod::lemma_mod_multiples_vanish(era * 4, k, 100);
    assert(y == 400 * era + k);
    vstd::arithmetic::div_mod::lemma_mod_multiples_vanish(era, k, 400);
}

proof fn lemma_neg_div(zz: int)
    requires
        zz < 0,
    ensures
        zz / 146097 == -((-(zz + 1)) / 146097) - 1,
        zz % 146097 == 146096 - (-(zz + 1)) % 146097,
{
    let a = -(zz + 1);
    let q = a / 146097;
    let r = a % 146097;
    assert(a == q * 146097 + r && 0 <= r < 146097);
    assert(zz == (-q - 1) * 146097 + (146096 - r));
}

fn split_era(zz: i64) -> (r: (i64, u64))
    ensures
        r.0 as int * 146097 + r.1 as int == zz as int,
        r.1 < 146097,
        r.0 as int == zz as int / 146097,
{
    if zz >= 0 {
        (zz / 146097, (zz % 146097) as u64)
    } else {
        let a: i64 = -(zz + 1);
        proof {
            lemma_neg_div(zz as int);
        }
        (-(a / 146097) - 1, (146096 - a % 146097) as u64)
    }
}

fn year_of_era(doe: u64) -> (r: (u64, u64))
    requires
        doe < 146097,
    ensures
        r.0 < 400,
        doe == era_year_start(r.0 as int) + r.1,
        r.1 < era_year_start(r.0 + 1) - era_year_start(r.0 as int),
{
    proof {
        lemma_year_of_era(doe as int);
    }
    let yoe: u64 = (doe - doe / 1460 + doe / 36524 - doe / 146096) / 365;
    let doy: u64 = doe - (365 * yoe + yoe / 4 - yoe / 100);
    (yoe, doy)
}

fn month_of_year(doy: u64) -> (r: (u64, u64))
    requires
        doy < 366,
    ensures
        r.0 < 12,
        r.1 >= 1,
        doy == (153 * r.0 + 2) / 5 + r.1 - 1,
        r.0 < 11 ==> doy < (153 * (r.0 + 1) + 2) / 5,
{
    proof {
        lemma_month_of_year(doy as int);
    }
    let mp: u64 = (5 * doy + 2) / 153;
    let d: u64 = doy - (153 * mp + 2) / 5 + 1;
    (mp, d)
}

proof fn lemma_civil_result(zz: int, era: int, yoe: int, doy: int, mp: int, d: int)
    requires
        0 <= yoe < 400,
        0 <= doy < era_year_start(yoe + 1) - era_year_start(yoe),
        era * 146097 + era_year_start(yoe) + doy == zz,
        0 <= mp < 12,
        d >= 1,
        doy == (153 * mp + 2) / 5 + d - 1,
        mp < 11 ==> doy < (153 * (mp + 1) + 2) / 5,
    ensures
        ({
            let y = yoe + era * 400;
            let m = if mp < 10 { mp + 3 } else { mp - 9 };
            let year = if m <= 2 { y + 1 } else { y };
            &&& valid_date(year, m, d)
            &&& days_from_civil(year, m, d) == zz - 719468
        }),
{
    let y = yoe + era * 400;
    lemma_leap_in_era(era, yoe + 1);
    lemma_era_days(era, yoe);
    lemma_march_to_civil(y, mp, d);
    assert(days_from_march_epoch(y, doy) == zz);
    if mp < 10 {
        let m = mp + 3;
        assert(d <= days_in_month(y, m));
    } else if mp == 10 {
        assert(d <= 31);
    } else {
        assert(d <= days_in_month(y + 1, 2));
    }
}

/// The civil date `(year, month, day)` of day `z` counted from
/// 1970-01-01 (proleptic Gregorian calendar).
pub fn civil_from_days(z: i64) -> (r: (i64, u32, u32))
    requires
        z <= i64::MAX - 719468,
    ensures
        valid_date(r.0 as int, r.1 as int, r.2 as int),
        days_from_civil(r.0 as int, r.1 as int, r.2 as int) == z,
        forall|y: int, m: int, d: int|
            valid_date(y, m, d) && days_from_civil(y, m, d) == z ==> r.0 == y && r.1 == m && r.2 == d,
{
    let zz: i64 = z + 719468;
    let (era, doe) = split_era(zz);
    let (yoe, doy) = year_of_era(doe);
    proof {
        lemma_leap_in_era(era as int, yoe as int + 1);
    }
    let (mp, d) = month_of_year(doy);
    let y: i64 = yoe as i64 + era * 400;
    let m: u64 = if mp < 10 { mp + 3 } else { mp - 9 };
    let year: i64 = if m <= 2 { y + 1 } else { y };
    proof {
        lemma_civil_result(zz as int, era as int, yoe as int, doy as int, mp as int, d as int);
        assert forall|y2: int, m2: int, d2: int|
            valid_date(y2, m2, d2) && days_from_civil(y2, m2, d2) == z implies year == y2 && m == m2 && d == d2 by {
            lemma_date_unique(year as int, m as int, d as int, y2, m2, d2);
        }
    }
    (year, m as u32, d as u32)
}

/// Days from 1970-01-01 to January 1 of year `y`.
pub open spec fn year_start(y: int) -> int {
    days_from_civil(y, 1, 1)
}

proof fn lemma_year_length(y: int)
    ensures
        year_start(y + 1) == year_start(y) + 365 + if is_leap(y) { 1int } else { 0int },
{
    lemma_leaps_step(y);
}

proof fn lemma_year_start_mono(a: int, b: int)
    requires
        a <= b,
    ensures
        year_start(a) + 365 * (b - a) <= year_start(b),
    decreases b - a,
{
    if a < b {
        lemma_year_start_mono(a, b - 1);
        lemma_year_length(b - 1);
    }
}

proof fn lemma_month_step(y: int, m: int)
    requires
        1 <= m < 12,
    ensures
        days_before_month(y, m + 1) == days_before_month(y, m) + days_in_month(y, m),
{
}

proof fn lemma_month_mono(y: int, a: int, b: int)
    requires
        1 <= a < b <= 12,
    ensures
        days_before_month(y, a) + days_in_month(y, a) <= days_before_month(y, b),
    decreases b - a,
{
    lemma_month_step(y, a);
    if a + 1 < b {
        lemma_month_mono(y, a + 1, b);
    }
}

proof fn lemma_day_of_year(y: int, m: int, d: int)
    requires
        valid_date(y, m, d),
    ensures
        year_start(y) <= days_from_civil(y, m, d) < year_start(y + 1),
{
    lemma_year_length(y);
    if m < 12 {
        lemma_month_mono(y, m, 12);
    }
}

/// A day number names at most one date: two valid dates on the same day
/// are the same date.
pub proof fn lemma_date_unique(y1: int, m1: int, d1: int, y2: int, m2: int, d2: int)
    requires
        valid_date(y1, m1, d1),
        valid_date(y2, m2, d2),
        days_from_civil(y1, m1, d1) == days_from_civil(y2, m2, d2),
    ensures
        y1 == y2,
        m1 == m2,
        d1 == d2,
{
    lemma_day_of_year(y1, m1, d1);
    lemma_day_of_year(y2, m2, d2);
    if y1 < y2 {
        lemma_year_start_mono(y1 + 1, y2);
    } else if y2 < y1 {
        lemma_year_start_mono(y2 + 1, y1);
    }
    assert(y1 == y2);
    if m1 < m2 {
        lemma_month_mono(y1, m1, m2);
    } else if m2 < m1 {
        lemma_month_mono(y1, m2, m1);
    }
}

} // verus!
