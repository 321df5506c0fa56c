//! Calendar arithmetic on day numbers counted from 1970-01-01, and textual
//! rendering of timestamps. This is the model behind the event date rule:
//! the start date of an event is the first Sunday on or after the day of
//! construction.

use vstd::prelude::*;

verus! {

/// Latest construction instant accepted by the date logic, as seconds since
/// 1970-01-01T00:00:00Z: 9999-12-25T23:59:59Z, the last instant whose next
/// Sunday still falls in a four-digit year.
pub const TS_MAX: i64 = 253_401_782_399;

/// Day number of 9999-12-31, the latest day the formatting logic handles.
pub const DAY_MAX: u32 = 2_932_896;

/// A year has 366 days exactly when February has 29.
pub open spec fn is_leap_year(y: int) -> bool {
    (y % 4 == 0 && y % 100 != 0) || y % 400 == 0
}

pub open spec fn days_in_year(y: int) -> int {
    if is_leap_year(y) {
        366
    } else {
        365
    }
}

pub open spec fn days_in_month(y: int, m: int) -> int {
    if m == 2 {
        if is_leap_year(y) {
            29
        } else {
            28
        }
    } else if m == 4 || m == 6 || m == 9 || m == 11 {
        30
    } else {
        31
    }
}

/// Leap years strictly before year `y` (from year 1).
pub open spec fn leap_years_before(y: int) -> int {
    (y - 1) / 4 - (y - 1) / 100 + (y - 1) / 400
}

/// Days from 1970-01-01 to `y`-01-01.
pub open spec fn days_before_year(y: int) -> int {
    365 * (y - 1970) + leap_years_before(y) - leap_years_before(1970)
}

/// Days from `y`-01-01 to `y`-`m`-01.
pub open spec fn days_before_month(y: int, m: int) -> int
    decreases m,
{
    if m <= 1 {
        0
    } else {
        days_before_month(y, m - 1) + days_in_month(y, m - 1)
    }
}

/// Day number (days since 1970-01-01) of the civil date `y`-`m`-`d`.
pub open spec fn day_number(y: int, m: int, d: int) -> int {
    days_before_year(y) + days_before_month(y, m) + (d - 1)
}

/// A civil date the formatting logic accepts.
pub open spec fn valid_civil(y: int, m: int, d: int) -> bool {
    &&& 1970 <= y <= 9999
    &&& 1 <= m <= 12
    &&& 1 <= d <= days_in_month(y, m)
}

/// Weekday of a day number, with 0 standing for Sunday; 1970-01-01 was a
/// Thursday.
pub open spec fn weekday_of_day(day: int) -> int {
    (day + 4) % 7
}

/// Days from `day` to the first Sunday on or after it.
pub open spec fn sunday_offset(day: int) -> int {
    (7 - weekday_of_day(day)) % 7
}

/// The date rule: from any day, the first Sunday on or after it is at most
/// six days away, falls on a Sunday, and no earlier day on or after `day`
/// does.
pub proof fn lemma_next_sunday(day: int)
    requires
        day >= 0,
    ensures
        0 <= sunday_offset(day) <= 6,
        weekday_of_day(day + sunday_offset(day)) == 0,
        forall|j: int| 0 <= j < sunday_offset(day) ==> #[trigger] weekday_of_day(day + j) != 0,
{
    let w = (day + 4) % 7;
    assert(0 <= w < 7);
    let q = (day + 4) / 7;
    assert(day + 4 == 7 * q + w);
    if w == 0 {
        assert(sunday_offset(day) == 0);
    } else {
        assert(sunday_offset(day) == 7 - w);
        assert(day + (7 - w) + 4 == 7 * (q + 1));
        assert((7 * (q + 1)) % 7 == 0) by {
            vstd::arithmetic::div_mod::lemma_mod_multiples_basic(q + 1, 7);
        }
        assert(weekday_of_day(day + (7 - w)) == 0);
        assert forall|j: int| 0 <= j < sunday_offset(day) implies #[trigger] weekday_of_day(day + j)
            != 0 by {
            assert(day + j + 4 == 7 * q + (w + j));
            assert(0 < w + j < 7);
            assert((7 * q + (w + j)) % 7 == w + j) by {
                vstd::arithmetic::div_mod::lemma_mod_multiples_vanish(q, w + j, 7);
            }
        }
    }
}

/// Stepping the start of a year forward by one year adds that year's length.
proof fn lemma_days_before_year_next(y: int)
    requires
        y >= 1,
    ensures
        days_before_year(y + 1) == days_before_year(y) + days_in_year(y),
{
    let a = y / 4;
    vstd::arithmetic::div_mod::lemma_fundamental_div_mod(y, 4);
    vstd::arithmetic::div_mod::lemma_fundamental_div_mod(y, 100);
    vstd::arithmetic::div_mod::lemma_fundamental_div_mod(y, 400);
    assert(y % 4 == 0 ==> (y - 1) / 4 == a - 1 && y / 4 == a);
    assert(leap_years_before(y + 1) - leap_years_before(y) == if is_leap_year(y) {
        1int
    } else {
        0int
    });
}

/// The months of a year add up to its length.
proof fn lemma_months_sum(y: int)
    ensures
        days_before_month(y, 13) == days_in_year(y),
{
    reveal_with_fuel(days_before_month, 13);
}

/// Later years start later, by at least 365 days a year.
proof fn lemma_days_before_year_monotone(y1: int, y2: int)
    requires
        1970 <= y1 <= y2,
    ensures
        days_before_year(y1) + 365 * (y2 - y1) <= days_before_year(y2),
    decreases y2 - y1,
{
    if y1 < y2 {
        lemma_days_before_year_next(y2 - 1);
        lemma_days_before_year_monotone(y1, y2 - 1);
    }
}

/// Later months start later within a year.
proof fn lemma_days_before_month_monotone(y: int, m1: int, m2: int)
    requires
        1 <= m1 <= m2 <= 13,
    ensures
        days_before_month(y, m1) <= days_before_month(y, m2),
    decreases m2 - m1,
{
    if m1 < m2 {
        lemma_days_before_month_monotone(y, m1, m2 - 1);
    }
}

/// A date's position within its year lies inside the year's length.
proof fn lemma_day_in_year_range(y: int, m: int, d: int)
    requires
        valid_civil(y, m, d),
    ensures
        0 <= days_before_month(y, m) + (d - 1) < days_in_year(y),
{
    lemma_days_before_month_monotone(y, 1, m);
    lemma_days_before_month_monotone(y, m + 1, 13);
    lemma_months_sum(y);
    assert(days_before_month(y, m + 1) == days_before_month(y, m) + days_in_month(y, m));
}

/// No two civil dates share a day number: the calendar is injective.
pub proof fn lemma_civil_unique(y1: int, m1: int, d1: int, y2: int, m2: int, d2: int)
    requires
        valid_civil(y1, m1, d1),
        valid_civil(y2, m2, d2),
        day_number(y1, m1, d1) == day_number(y2, m2, d2),
    ensures
        y1 == y2,
        m1 == m2,
        d1 == d2,
{
    lemma_day_in_year_range(y1, m1, d1);
    lemma_day_in_year_range(y2, m2, d2);
    if y1 < y2 {
        lemma_days_before_year_next(y1);
        lemma_days_before_year_monotone(y1 + 1, y2);
        assert(false);
    } else if y2 < y1 {
        lemma_days_before_year_next(y2);
        lemma_days_before_year_monotone(y2 + 1, y1);
        assert(false);
    }
    if m1 < m2 {
        lemma_days_before_month_monotone(y1, m1 + 1, m2);
        assert(days_before_month(y1, m1 + 1) == days_before_month(y1, m1) + days_in_month(
            y1,
            m1,
        ));
        assert(false);
    } else if m2 < m1 {
        lemma_days_before_month_monotone(y1, m2 + 1, m1);
        assert(days_before_month(y1, m2 + 1) == days_before_month(y1, m2) + days_in_month(
            y1,
            m2,
        ));
        assert(false);
    }
}

fn days_in_year_x(y: u16) -> (r: u16)
    ensures
        r as int == days_in_year(y as int),
{
    if (y % 4 == 0 && y % 100 != 0) || y % 400 == 0 {
        366
    } else {
        365
    }
}

fn days_in_month_x(y: u16, m: u8) -> (r: u8)
    requires
        1 <= m <= 12,
    ensures
        r as int == days_in_month(y as int, m as int),
{
    if m == 2 {
        if (y % 4 == 0 && y % 100 != 0) || y % 400 == 0 {
            29
        } else {
            28
        }
    } else if m == 4 || m == 6 || m == 9 || m == 11 {
        30
    } else {
        31
    }
}

/// Day number of the first Sunday on or after `day`, found by scanning
/// forward at most six days.
pub fn next_sunday_day(day: u32) -> (r: u32)
    requires
        day + 6 <= DAY_MAX,
    ensures
        r as int == day + sunday_offset(day as int),
{
    proof {
        lemma_next_sunday(day as int);
    }
    let ghost off = sunday_offset(day as int);
    let mut i: u32 = 0;
    loop
        invariant
            day + 6 <= DAY_MAX,
            0 <= i <= off <= 6,
            off == sunday_offset(day as int),
            weekday_of_day(day + off) == 0,
            forall|j: int| 0 <= j < off ==> #[trigger] weekday_of_day(day as int + j) != 0,
        decreases 7 - i,
    {
        if (day + i + 4) % 7 == 0 {
            proof {
                assert(weekday_of_day(day + i) == 0);
                assert(i == off);
            }
            return day + i;
        }
        proof {
            assert(weekday_of_day(day + i) != 0);
            assert(i != off);
        }
        i = i + 1;
    }
}

/// Civil date of a day number, found by scanning years and then months.
pub fn civil_from_day(day: u32) -> (r: (u16, u8, u8))
    requires
        day <= DAY_MAX,
    ensures
        valid_civil(r.0 as int, r.1 as int, r.2 as int),
        day_number(r.0 as int, r.1 as int, r.2 as int) == day,
{
    let mut y: u16 = 1970;
    let mut rem: u32 = day;
    loop
        invariant
            day <= DAY_MAX,
            1970 <= y <= 9999,
            days_before_year(y as int) + rem == day,
        ensures
            1970 <= y <= 9999,
            days_before_year(y as int) + rem == day,
            rem < days_in_year(y as int),
        decreases day - days_before_year(y as int) + 366,
    {
        let diy = days_in_year_x(y);
        if rem < diy as u32 {
            break;
        }
        proof {
            lemma_days_before_year_next(y as int);
            assert(days_before_year(9999) == 2_932_532);
            assert(y < 9999);
        }
        rem = rem - diy as u32;
        y = y + 1;
    }
    let mut m: u8 = 1;
    loop
        invariant
            1970 <= y <= 9999,
            1 <= m <= 12,
            days_before_month(y as int, m as int) + rem == day - days_before_year(y as int),
            day - days_before_year(y as int) < days_in_year(y as int),
        ensures
            1 <= m <= 12,
            days_before_month(y as int, m as int) + rem == day - days_before_year(y as int),
            rem < days_in_month(y as int, m as int),
        decreases 12 - m,
    {
        let dim = days_in_month_x(y, m);
        if rem < dim as u32 {
            break;
        }
        proof {
            lemma_months_sum(y as int);
            if m == 12 {
                assert(days_before_month(y as int, 13) == days_in_year(y as int));
                assert(false);
            }
        }
        rem = rem - dim as u32;
        m = m + 1;
    }
    let d: u8 = (rem + 1) as u8;
    (y, m, d)
}

} // verus!
