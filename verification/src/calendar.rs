//! Proleptic Gregorian calendar arithmetic: leap years, month lengths, ISO weeks and
//! conversions to ordinal dates (year plus day of the year, counted from 1).
use vstd::prelude::*;

verus! {

/// Whether `year` is a leap year of the Gregorian calendar.
pub open spec fn spec_is_leap_year(year: int) -> bool {
    year % 4 == 0 && (year % 100 != 0 || year % 400 == 0)
}

/// The number of days of `year`.
pub open spec fn spec_days_in_year(year: int) -> int {
    if spec_is_leap_year(year) {
        366
    } else {
        365
    }
}

/// The number of days of month `month` (1 to 12) in a common year.
pub open spec fn common_month_days(month: int) -> int {
    if month == 2 {
        28
    } else if month == 4 || month == 6 || month == 9 || month == 11 {
        30
    } else {
        31
    }
}

/// The number of days of month `month` (1 to 12) of `year`.
pub open spec fn spec_days_in_year_month(year: int, month: int) -> int {
    common_month_days(month) + if month == 2 && spec_is_leap_year(year) {
        1int
    } else {
        0int
    }
}

/// The number of days before month `month` (1 to 12) in a common year.
pub open spec fn common_days_before_month(month: int) -> int
    decreases month,
{
    if month <= 1 {
        0
    } else {
        common_days_before_month(month - 1) + common_month_days(month - 1)
    }
}

/// The sum whose remainder modulo 7 gives the weekday in `jan_weekday`: the day count from a
/// Monday, with the leap days of the years before `year` counted by divisions that round
/// down, so that it holds for years before 1 as well.
pub open spec fn weekday_sum(year: int, ordinal: int) -> int {
    let adj = year - 1;
    ordinal + adj + adj / 4 - adj / 100 + adj / 400 + 6
}

/// Every partial sum in `jan_weekday` fits in `i32`.
pub open spec fn weekday_sum_fits(year: int, ordinal: int) -> bool {
    let adj = year - 1;
    let s1 = ordinal + adj;
    let s2 = s1 + adj / 4;
    let s3 = s2 - adj / 100;
    let s4 = s3 + adj / 400;
    &&& i32::MIN <= adj
    &&& i32::MIN <= s1 <= i32::MAX
    &&& i32::MIN <= s2 <= i32::MAX
    &&& i32::MIN <= s3 <= i32::MAX
    &&& i32::MIN <= s4 <= i32::MAX
    &&& s4 + 6 <= i32::MAX
}

/// The weekday (0 for Monday to 6 for Sunday) of day `ordinal` of `year` in the proleptic
/// Gregorian calendar.
pub open spec fn spec_jan_weekday(year: int, ordinal: int) -> int {
    weekday_sum(year, ordinal) % 7
}

/// The ordinal date of the ISO week date (`year`, `week`, `weekday`), as `ywd_to_yo`
/// computes it.
pub open spec fn spec_ywd_to_yo(year: int, week: int, weekday: int) -> (int, int) {
    let t = week * 7 + weekday - (spec_jan_weekday(year, 4) + 4);
    if t <= 0 {
        (year - 1, t + spec_days_in_year(year - 1))
    } else if t > spec_days_in_year(year) {
        (year + 1, t - spec_days_in_year(year))
    } else {
        (year, t)
    }
}

/// Whether `year` is a leap year of the Gregorian calendar.
pub fn is_leap_year(year: i32) -> (r: bool)
    ensures
        r == spec_is_leap_year(year as int),
{
    (year % 4 == 0) && ((year % 100 != 0) || (year % 400 == 0))
}

/// `a / b` rounded down, for a positive `b`.
fn floor_div(a: i32, b: i32) -> (r: i32)
    requires
        b > 0,
    ensures
        r == a as int / b as int,
{
    if a >= 0 {
        a / b
    } else {
        let c = -(a + 1);
        let q = c / b;
        proof {
            let (ci, bi) = (c as int, b as int);
            vstd::arithmetic::div_mod::lemma_fundamental_div_mod(ci, bi);
            vstd::arithmetic::div_mod::lemma_mod_pos_bound(ci, bi);
            assert(q as int == ci / bi);
            assert(a as int == (-(q as int) - 1) * bi + (bi - ci % bi - 1)) by (nonlinear_arith)
                requires
                    ci == bi * (ci / bi) + ci % bi,
                    q as int == ci / bi,
                    ci == -(a + 1),
            ;
            vstd::arithmetic::div_mod::lemma_fundamental_div_mod_converse(
                a as int,
                b as int,
                -(q as int) - 1,
                b - (c as int % b as int) - 1,
            );
        }
        -q - 1
    }
}

/// The weekday, numbered 0 (Monday) to 6 (Sunday), of day `ordinal` of `year`, as used to place the first ISO
/// week.  The intermediate sums must fit in `i32`.
pub fn jan_weekday(year: i32, ordinal: i32) -> (r: u8)
    requires
        weekday_sum_fits(year as int, ordinal as int),
    ensures
        r == spec_jan_weekday(year as int, ordinal as int),
        r < 7,
{
    let adj_year = year - 1;
    let sum = ordinal + adj_year + floor_div(adj_year, 4) - floor_div(adj_year, 100) + floor_div(
        adj_year,
        400,
    ) + 6;
    let rem = sum % 7;
    let r = if rem < 0 {
        rem + 7
    } else {
        rem
    };
    proof {
        let s = sum as int;
        if s >= 0 {
            assert(rem == s % 7);
        } else {
            vstd::arithmetic::div_mod::lemma_fundamental_div_mod(s, 7);
            vstd::arithmetic::div_mod::lemma_fundamental_div_mod(-s, 7);
            let q = -((-s) / 7);
            if rem < 0 {
                vstd::arithmetic::div_mod::lemma_fundamental_div_mod_converse(s, 7, q - 1, rem + 7);
            } else {
                vstd::arithmetic::div_mod::lemma_fundamental_div_mod_converse(s, 7, q, 0);
            }
        }
    }
    r as u8
}

/// The number of days of `year`.
pub fn days_in_year(year: i32) -> (r: u16)
    ensures
        r == spec_days_in_year(year as int),
{
    365 + if is_leap_year(year) {
        1
    } else {
        0
    }
}

/// The number of days of month `month` of `year`; `month` runs from 1 to 12.
pub fn days_in_year_month(year: i32, month: u8) -> (r: u8)
    requires
        1 <= month <= 12,
    ensures
        r == spec_days_in_year_month(year as int, month as int),
{
    let table: [u8; 12] = [31, 28, 31, 30, 31, 30, 31, 31, 30, 31, 30, 31];
    assert(table@ =~= seq![31u8, 28, 31, 30, 31, 30, 31, 31, 30, 31, 30, 31]);
    let extra: u8 = if month == 2 && is_leap_year(year) {
        1
    } else {
        0
    };
    table[(month - 1) as usize] + extra
}

/// The number of ISO weeks of `year`: 53 when the year begins on a Thursday, or on a
/// Wednesday in a leap year, and 52 otherwise.
pub fn weeks_in_year(year: i32) -> (r: u8)
    requires
        weekday_sum_fits(year as int, 1),
    ensures
        r == if spec_jan_weekday(year as int, 1) == 3 || (spec_jan_weekday(year as int, 1) == 2
            && spec_is_leap_year(year as int)) {
            53int
        } else {
            52int
        },
{
    let weekday = jan_weekday(year, 1);
    if weekday == 3 || (weekday == 2 && is_leap_year(year)) {
        53
    } else {
        52
    }
}

/// Converts the ISO week date (`year`, `week`, `iso_weekday_number`) to an ordinal date,
/// which may fall in the year before or after `year`.
pub fn ywd_to_yo(year: i32, week: u8, iso_weekday_number: u8) -> (r: (i32, u16))
    requires
        weekday_sum_fits(year as int, 4),
        i32::MIN < year < i32::MAX,
    ensures
        (r.0 as int, r.1 as int) == spec_ywd_to_yo(year as int, week as int, iso_weekday_number as int),
{
    let total: u16 = (week as u16) * 7 + (iso_weekday_number as u16);
    let offset: u16 = (jan_weekday(year, 4) as u16) + 4;
    if total <= offset {
        // The date falls in the last week(s) of the previous year.
        let before = offset - total;
        return (year - 1, days_in_year(year - 1) - before);
    }
    let ordinal = total - offset;
    let days_in_cur_year = days_in_year(year);
    if ordinal > days_in_cur_year {
        (year + 1, ordinal - days_in_cur_year)
    } else {
        (year, ordinal)
    }
}

/// Converts the calendar date (`year`, `month`, `day`) to an ordinal date; `month` runs from
/// 1 to 12.
pub fn ymd_to_yo(year: i32, month: u8, day: u8) -> (r: (i32, u16))
    requires
        1 <= month <= 12,
    ensures
        r.0 == year,
        r.1 == common_days_before_month(month as int) + (if month > 2 && spec_is_leap_year(
            year as int,
        ) {
            1int
        } else {
            0int
        }) + day,
{
    let table: [u16; 12] = [0, 31, 59, 90, 120, 151, 181, 212, 243, 273, 304, 334];
    assert(table@ =~= seq![0u16, 31, 59, 90, 120, 151, 181, 212, 243, 273, 304, 334]);
    assert(common_days_before_month(month as int) == table@[month - 1]) by {
        reveal_with_fuel(common_days_before_month, 12);
    }
    let extra: u16 = if month > 2 && is_leap_year(year) {
        1
    } else {
        0
    };
    let ordinal = table[(month - 1) as usize] + extra;
    (year, ordinal + day as u16)
}

/// A valid day of a month gives a day of the year between 1 and the length of the year.
pub proof fn lemma_ymd_to_yo_in_year(year: int, month: int, day: int)
    requires
        1 <= month <= 12,
        1 <= day <= spec_days_in_year_month(year, month),
    ensures
        1 <= common_days_before_month(month) + (if month > 2 && spec_is_leap_year(year) {
            1int
        } else {
            0int
        }) + day <= spec_days_in_year(year),
{
    reveal_with_fuel(common_days_before_month, 13);
}

/// The months of a year add up to the year.
pub proof fn lemma_months_fill_year(year: int)
    ensures
        spec_days_in_year_month(year, 1) + spec_days_in_year_month(year, 2)
            + spec_days_in_year_month(year, 3) + spec_days_in_year_month(year, 4)
            + spec_days_in_year_month(year, 5) + spec_days_in_year_month(year, 6)
            + spec_days_in_year_month(year, 7) + spec_days_in_year_month(year, 8)
            + spec_days_in_year_month(year, 9) + spec_days_in_year_month(year, 10)
            + spec_days_in_year_month(year, 11) + spec_days_in_year_month(year, 12)
            == spec_days_in_year(year),
        common_days_before_month(12) + common_month_days(12) == 365,
{
    reveal_with_fuel(common_days_before_month, 13);
}

/// Any week from 1 to 53 and ISO weekday from 1 to 7 gives a day that exists in the year
/// `ywd_to_yo` places it in.
pub proof fn lemma_ywd_to_yo_in_year(year: int, week: int, weekday: int)
    requires
        1 <= week <= 53,
        1 <= weekday <= 7,
    ensures
        1 <= spec_ywd_to_yo(year, week, weekday).1 <= spec_days_in_year(
            spec_ywd_to_yo(year, week, weekday).0,
        ),
        year - 1 <= spec_ywd_to_yo(year, week, weekday).0 <= year + 1,
{
    let j = spec_jan_weekday(year, 4);
    assert(0 <= j < 7);
}

/// From `y - 1` to `y`, the quotient by `d` rounded down grows by one exactly when `d`
/// divides `y`.
proof fn lemma_floor_step(y: int, d: int)
    requires
        d > 0,
    ensures
        y / d - (y - 1) / d == (if y % d == 0 {
            1int
        } else {
            0int
        }),
{
    vstd::arithmetic::div_mod::lemma_fundamental_div_mod(y, d);
    vstd::arithmetic::div_mod::lemma_mod_bound(y, d);
    let q = y / d;
    let r = y % d;
    if r == 0 {
        assert(y - 1 == (q - 1) * d + (d - 1)) by (nonlinear_arith)
            requires
                y == d * q + r,
                r == 0,
        ;
        vstd::arithmetic::div_mod::lemma_fundamental_div_mod_converse(y - 1, d, q - 1, d - 1);
    } else {
        assert(y - 1 == q * d + (r - 1)) by (nonlinear_arith)
            requires
                y == d * q + r,
        ;
        vstd::arithmetic::div_mod::lemma_fundamental_div_mod_converse(y - 1, d, q, r - 1);
    }
}

/// A multiple of 400 is a multiple of 100, and a multiple of 100 is a multiple of 4.
proof fn lemma_divisors(y: int)
    ensures
        y % 400 == 0 ==> y % 100 == 0,
        y % 100 == 0 ==> y % 4 == 0,
{
    vstd::arithmetic::div_mod::lemma_fundamental_div_mod(y, 400);
    vstd::arithmetic::div_mod::lemma_fundamental_div_mod(y, 100);
    if y % 400 == 0 {
        let k = y / 400;
        assert(y == (4 * k) * 100) by (nonlinear_arith)
            requires
                y == 400 * k + 0,
        ;
        vstd::arithmetic::div_mod::lemma_mod_multiples_basic(4 * k, 100);
    }
    if y % 100 == 0 {
        let k = y / 100;
        assert(y == (25 * k) * 4) by (nonlinear_arith)
            requires
                y == 100 * k + 0,
        ;
        vstd::arithmetic::div_mod::lemma_mod_multiples_basic(25 * k, 4);
    }
}

/// The day count behind the weekdays of `year + 1` runs on from that of `year` by the length
/// of `year`, less 364 (a whole number of weeks).
proof fn lemma_year_shift(year: int)
    ensures
        weekday_sum(year + 1, 0) == weekday_sum(year, 0) + spec_days_in_year(year) - 364,
{
    lemma_floor_step(year, 4);
    lemma_floor_step(year, 100);
    lemma_floor_step(year, 400);
    lemma_divisors(year);
}

/// `(a + 7 * k) % 7` is `a % 7`, and adding to `a` or to its remainder gives the same
/// remainder.
proof fn lemma_mod7(a: int, b: int, k: int)
    ensures
        (a + b + 7 * k) % 7 == (a % 7 + b) % 7,
{
    vstd::arithmetic::div_mod::lemma_fundamental_div_mod(a, 7);
    let q = a / 7;
    assert(a + b + 7 * k == 7 * (q + k) + (a % 7 + b)) by (nonlinear_arith)
        requires
            a == 7 * q + a % 7,
    ;
    vstd::arithmetic::div_mod::lemma_mod_multiples_vanish(q + k, a % 7 + b, 7);
}

/// The weekday of a day of `year + 1` follows that of the same day of `year` by the length of
/// `year`: each year's weekdays run on from the year before, for every year.
pub proof fn lemma_weekday_next_year(year: int, ordinal: int)
    ensures
        spec_jan_weekday(year + 1, ordinal) == (spec_jan_weekday(year, ordinal) + spec_days_in_year(
            year,
        )) % 7,
{
    lemma_year_shift(year);
    lemma_mod7(weekday_sum(year, ordinal), spec_days_in_year(year), -52);
}

/// The day after day `d.1` of year `d.0`, as an ordinal date.
pub open spec fn next_day(d: (int, int)) -> (int, int) {
    if d.1 == spec_days_in_year(d.0) {
        (d.0 + 1, 1)
    } else {
        (d.0, d.1 + 1)
    }
}

/// The ordinal date `ywd_to_yo` gives for week `week` and ISO weekday `weekday` (1 for Monday
/// to 7 for Sunday) falls on that weekday.
pub proof fn lemma_ywd_to_yo_weekday(year: int, week: int, weekday: int)
    requires
        1 <= week <= 53,
        1 <= weekday <= 7,
    ensures
        spec_jan_weekday(spec_ywd_to_yo(year, week, weekday).0, spec_ywd_to_yo(year, week, weekday).1)
            == weekday - 1,
{
    let c = weekday_sum(year, 0);
    let j = spec_jan_weekday(year, 4);
    vstd::arithmetic::div_mod::lemma_fundamental_div_mod(4 + c, 7);
    let q = (4 + c) / 7;
    let t = week * 7 + weekday - (j + 4);
    // The day count of ordinal `t` of `year` is a whole number of weeks plus `weekday - 1`.
    assert(weekday_sum(year, t) == 7 * (week + q - 1) + (weekday - 1)) by (nonlinear_arith)
        requires
            weekday_sum(year, t) == t + c,
            4 + c == 7 * q + j,
            t == week * 7 + weekday - (j + 4),
    ;
    vstd::arithmetic::div_mod::lemma_fundamental_div_mod_converse(
        weekday_sum(year, t),
        7,
        week + q - 1,
        weekday - 1,
    );
    let r = spec_ywd_to_yo(year, week, weekday);
    if t <= 0 {
        lemma_year_shift(year - 1);
        assert(weekday_sum(r.0, r.1) == 7 * (week + q - 1 + 52) + (weekday - 1));
        vstd::arithmetic::div_mod::lemma_fundamental_div_mod_converse(
            weekday_sum(r.0, r.1),
            7,
            week + q - 1 + 52,
            weekday - 1,
        );
    } else if t > spec_days_in_year(year) {
        lemma_year_shift(year);
        assert(weekday_sum(r.0, r.1) == 7 * (week + q - 1 - 52) + (weekday - 1));
        vstd::arithmetic::div_mod::lemma_fundamental_div_mod_converse(
            weekday_sum(r.0, r.1),
            7,
            week + q - 1 - 52,
            weekday - 1,
        );
    }
}

/// The next ISO weekday of the same week is the next day.
pub proof fn lemma_ywd_to_yo_next_day(year: int, week: int, weekday: int)
    requires
        1 <= week <= 53,
        1 <= weekday < 7,
    ensures
        spec_ywd_to_yo(year, week, weekday + 1) == next_day(spec_ywd_to_yo(year, week, weekday)),
{
    let j = spec_jan_weekday(year, 4);
    assert(0 <= j < 7);
}

} // verus!
