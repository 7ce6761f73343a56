//! Proleptic Gregorian calendar arithmetic over days since 1970-01-01
//! (Howard Hinnant's `civil_from_days` / `days_from_civil`), and the date
//! renderings the pages print: ISO days, UTC timestamps, long and short dates.

use vstd::prelude::*;

verus! {

/// A leap year of the Gregorian calendar.
pub open spec fn is_leap(y: int) -> bool {
    (y % 4 == 0 && y % 100 != 0) || y % 400 == 0
}

/// Length of month `m` (1-based) of year `y`.
pub open spec fn days_in_month(y: int, m: int) -> int {
    if m == 2 {
        if is_leap(y) { 29 } else { 28 }
    } else if m == 4 || m == 6 || m == 9 || m == 11 {
        30
    } else {
        31
    }
}

/// `(y, m, d)` names a real calendar day.
pub open spec fn valid_date(y: int, m: int, d: int) -> bool {
    1 <= m <= 12 && 1 <= d <= days_in_month(y, m)
}

/// Days in the months of year `y` before month `m`.
pub open spec fn days_before_month(y: int, m: int) -> int {
    let leap = if m > 2 && is_leap(y) { 1int } else { 0int };
    leap + if m <= 1 {
        0int
    } else if m == 2 {
        31
    } else if m == 3 {
        59
    } else if m == 4 {
        90
    } else if m == 5 {
        120
    } else if m == 6 {
        151
    } else if m == 7 {
        181
    } else if m == 8 {
        212
    } else if m == 9 {
        243
    } else if m == 10 {
        273
    } else if m == 11 {
        304
    } else {
        334
    }
}

/// Leap years among `1..=x` (counted with signs for `x < 1`).
pub open spec fn leaps_through(x: int) -> int {
    x / 4 - x / 100 + x / 400
}

/// Days from 1970-01-01 to `(y, m, d)`.
pub open spec fn epoch_day(y: int, m: int, d: int) -> int {
    365 * (y - 1970) + leaps_through(y - 1) - leaps_through(1969) + days_before_month(y, m) + d
        - 1
}

/// The day of the 400-year era (which starts on a March 1st) that the
/// `yoe`-th year of the era spans.
spec fn year_len_in_era(yoe: int) -> int {
    if (yoe + 1) % 4 == 0 && ((yoe + 1) % 100 != 0 || yoe == 399) {
        366
    } else {
        365
    }
}

/// Hinnant's `civil_from_days`, over unbounded integers.
spec fn civil_of(z: int) -> (int, int, int) {
    let z = z + 719468;
    let era = z / 146097;
    let doe = z - era * 146097;
    let yoe = (doe - doe / 1460 + doe / 36524 - doe / 146096) / 365;
    let y = yoe + era * 400;
    let doy = doe - (365 * yoe + yoe / 4 - yoe / 100);
    let mp = (5 * doy + 2) / 153;
    let d = doy - (153 * mp + 2) / 5 + 1;
    let m = if mp < 10 { mp + 3 } else { mp - 9 };
    (if m <= 2 { y + 1 } else { y }, m, d)
}

proof fn lemma_yoe_forward(doe: int)
    requires
        0 <= doe <= 146096,
    ensures
        ({
            let yoe = (doe - doe / 1460 + doe / 36524 - doe / 146096) / 365;
            let doy = doe - (365 * yoe + yoe / 4 - yoe / 100);
            0 <= yoe <= 399 && 0 <= doy < year_len_in_era(yoe)
        }),
{
}

proof fn lemma_yoe_backward(yoe: int, doy: int)
    requires
        0 <= yoe <= 399,
        0 <= doy < year_len_in_era(yoe),
    ensures
        ({
            let doe = 365 * yoe + yoe / 4 - yoe / 100 + doy;
            0 <= doe <= 146096 && (doe - doe / 1460 + doe / 36524 - doe / 146096) / 365 == yoe
        }),
{
}

/// Length of the `mp`-th month of a March-based year with `len` days.
spec fn march_month_len(mp: int, len: int) -> int {
    if mp == 11 {
        len - 337
    } else {
        (153 * (mp + 1) + 2) / 5 - (153 * mp + 2) / 5
    }
}

proof fn lemma_month_forward(doy: int, len: int)
    requires
        0 <= doy < len,
        len == 365 || len == 366,
    ensures
        ({
            let mp = (5 * doy + 2) / 153;
            let d = doy - (153 * mp + 2) / 5 + 1;
            0 <= mp <= 11 && 1 <= d <= march_month_len(mp, len)
        }),
{
}

proof fn lemma_month_backward(mp: int, d: int, len: int)
    requires
        0 <= mp <= 11,
        len == 365 || len == 366,
        1 <= d <= march_month_len(mp, len),
    ensures
        ({
            let doy = (153 * mp + 2) / 5 + d - 1;
            0 <= doy < len && (5 * doy + 2) / 153 == mp
        }),
{
}

/// The March-based form of `epoch_day` that Hinnant's algorithms compute.
proof fn lemma_epoch_day_march(y: int, m: int, d: int)
    requires
        1 <= m <= 12,
    ensures
        ({
            let yp = if m <= 2 { y - 1 } else { y };
            let mp = if m > 2 { m - 3 } else { m + 9 };
            epoch_day(y, m, d) == 365 * yp + yp / 4 - yp / 100 + yp / 400 + (153 * mp + 2) / 5 + d
                - 1 - 719468
        }),
{
    assert(leaps_through(1969) == 477);
    lemma_leaps_step(y);
    if m <= 2 {
        lemma_leaps_split(y - 1);
    } else {
        lemma_leaps_split(y);
    }
}

proof fn lemma_leaps_step(y: int)
    ensures
        leaps_through(y) == leaps_through(y - 1) + if is_leap(y) { 1int } else { 0int },
{
}

proof fn lemma_leaps_split(yp: int)
    ensures
        leaps_through(yp) == yp / 4 - yp / 100 + yp / 400,
{
}

/// Splitting a March-based year into its 400-year era and year of era.
proof fn lemma_era_split(yp: int)
    ensures
        ({
            let era = yp / 400;
            let yoe = yp - era * 400;
            &&& 0 <= yoe <= 399
            &&& 365 * yp + yp / 4 - yp / 100 + yp / 400 == era * 146097 + 365 * yoe + yoe / 4 - yoe
                / 100
            &&& year_len_in_era(yoe) == if is_leap(yp + 1) { 366int } else { 365int }
        }),
{
}

proof fn lemma_civil_of_valid(z: int)
    ensures
        ({
            let (y, m, d) = civil_of(z);
            valid_date(y, m, d) && epoch_day(y, m, d) == z
        }),
{
    let zz = z + 719468;
    let era = zz / 146097;
    let doe = zz - era * 146097;
    let yoe = (doe - doe / 1460 + doe / 36524 - doe / 146096) / 365;
    let doy = doe - (365 * yoe + yoe / 4 - yoe / 100);
    lemma_yoe_forward(doe);
    lemma_month_forward(doy, year_len_in_era(yoe));
    let (y, m, d) = civil_of(z);
    let yp = yoe + era * 400;
    lemma_era_split(yp);
    assert(yp / 400 == era);
    lemma_epoch_day_march(y, m, d);
}

proof fn lemma_civil_of_epoch_day(y: int, m: int, d: int)
    requires
        valid_date(y, m, d),
    ensures
        civil_of(epoch_day(y, m, d)) == (y, m, d),
{
    let yp = if m <= 2 { y - 1 } else { y };
    let mp = if m > 2 { m - 3 } else { m + 9 };
    lemma_epoch_day_march(y, m, d);
    lemma_era_split(yp);
    let era = yp / 400;
    let yoe = yp - era * 400;
    let len = year_len_in_era(yoe);
    lemma_month_backward(mp, d, len);
    let doy = (153 * mp + 2) / 5 + d - 1;
    lemma_yoe_backward(yoe, doy);
    let doe = 365 * yoe + yoe / 4 - yoe / 100 + doy;
    let zz = epoch_day(y, m, d) + 719468;
    assert(zz == era * 146097 + doe);
    assert(zz / 146097 == era);
}

/// Law: distinct calendar days are distinct day numbers.
pub proof fn lemma_epoch_day_injective(y1: int, m1: int, d1: int, y2: int, m2: int, d2: int)
    requires
        valid_date(y1, m1, d1),
        valid_date(y2, m2, d2),
        epoch_day(y1, m1, d1) == epoch_day(y2, m2, d2),
    ensures
        y1 == y2 && m1 == m2 && d1 == d2,
{
    lemma_civil_of_epoch_day(y1, m1, d1);
    lemma_civil_of_epoch_day(y2, m2, d2);
}


/// Days from the epoch that `civil_from_days` accepts without overflow.
pub open spec fn day_in_range(z: int) -> bool {
    i64::MIN <= z <= i64::MAX - 719468
}

/// Years that `days_from_civil` accepts without overflow.
pub open spec fn year_in_range(y: int) -> bool {
    -20_000_000_000_000_000 <= y <= 20_000_000_000_000_000
}

/// The calendar day `z` days after 1970-01-01.
pub open spec fn date_of(z: int) -> (int, int, int) {
    choose|t: (int, int, int)| valid_date(t.0, t.1, t.2) && epoch_day(t.0, t.1, t.2) == z
}

/// Law: the day number of a real calendar date maps back to that date
/// (`civil_from_days` undoes `days_from_civil`).
pub proof fn lemma_date_of(z: int, y: int, m: int, d: int)
    requires
        valid_date(y, m, d),
        epoch_day(y, m, d) == z,
    ensures
        date_of(z) == (y, m, d),
{
    let t = date_of(z);
    assert(valid_date(y, m, d) && epoch_day(y, m, d) == z);
    assert(exists|t: (int, int, int)| valid_date(t.0, t.1, t.2) && epoch_day(t.0, t.1, t.2) == z) by {
        let w = (y, m, d);
        assert(valid_date(w.0, w.1, w.2) && epoch_day(w.0, w.1, w.2) == z);
    }
    lemma_epoch_day_injective(t.0, t.1, t.2, y, m, d);
}

/// Days since the Unix epoch → `(year, month, day)` (Hinnant's
/// `civil_from_days`).
pub fn civil_from_days(z: i64) -> (r: (i64, u32, u32))
    requires
        day_in_range(z as int),
    ensures
        valid_date(r.0 as int, r.1 as int, r.2 as int),
        epoch_day(r.0 as int, r.1 as int, r.2 as int) == z,
        (r.0 as int, r.1 as int, r.2 as int) == date_of(z as int),
{
    let zz = z + 719_468;
    let era = if zz >= 0 { zz } else { zz - 146_096 } / 146_097;
    proof {
        assert(era == zz / 146097);
    }
    let doe = zz - era * 146_097;
    let yoe = (doe - doe / 1460 + doe / 36_524 - doe / 146_096) / 365;
    let y = yoe + era * 400;
    let doy = doe - (365 * yoe + yoe / 4 - yoe / 100);
    let mp = (5 * doy + 2) / 153;
    proof {
        lemma_civil_of_valid(z as int);
        lemma_yoe_forward(doe as int);
        lemma_month_forward(doy as int, year_len_in_era(yoe as int));
    }
    let d = (doy - (153 * mp + 2) / 5 + 1) as u32;
    let m = (if mp < 10 { mp + 3 } else { mp - 9 }) as u32;
    let r = (if m <= 2 { y + 1 } else { y }, m, d);
    proof {
        lemma_date_of(z as int, r.0 as int, r.1 as int, r.2 as int);
    }
    r
}

/// Civil date → days since 1970-01-01 (Hinnant's `days_from_civil`).
#[verifier::rlimit(40)]
pub fn days_from_civil(y: i64, m: u32, d: u32) -> (r: i64)
    requires
        1 <= m <= 12,
        year_in_range(y as int),
    ensures
        r == epoch_day(y as int, m as int, d as int),
        day_in_range(r as int),
{
    let y = if m <= 2 { y - 1 } else { y };
    let era = if y >= 0 { y } else { y - 399 } / 400;
    let yoe = y - era * 400;
    let mp = (m as i64 + 9) % 12;
    let doy = (153 * mp + 2) / 5 + d as i64 - 1;
    let doe = yoe * 365 + yoe / 4 - yoe / 100 + doy;
    proof {
        assert(era == y / 400);
        lemma_era_split(y as int);
        lemma_epoch_day_march(if m <= 2 { y + 1 } else { y as int }, m as int, d as int);
        assert(0 <= yoe < 400);
        assert(0 <= mp < 12);
    }
    era * 146_097 + doe - 719_468
}

} // verus!
