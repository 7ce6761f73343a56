//! Calendar dates of unix-seconds timestamps as the pages print them:
//! "May 17, 2026", "May 17", "2026-05-17", "2026-05-17 13:05:09 UTC", and
//! the `YYYY-MM-DD` day strings the stats endpoint sends.

use vstd::prelude::*;
use crate::calendar::{
    civil_from_days, date_of, days_from_civil, epoch_day, valid_date,
    year_in_range,
};
use crate::num::{int_digits, parse_i64, parse_i64_spec, parse_u32, parse_u32_spec, push_i64, push_u64, push_zero_padded, zero_pad};
use crate::text::{push_str, split_once, split_once_char, to_chars};

verus! {

/// Seconds in a day.
pub const SECS_PER_DAY: i64 = 86_400;

/// The day a timestamp falls on, counted from 1970-01-01, rounding toward
/// the past (`i64::div_euclid`).
pub fn day_of(secs: i64) -> (d: i64)
    ensures
        d == secs as int / 86_400,
{
    let q = secs / 86_400;
    let r = secs % 86_400;
    if r < 0 {
        q - 1
    } else {
        q
    }
}

/// Seconds since the start of the timestamp's day (`i64::rem_euclid`).
pub fn secs_of_day(secs: i64) -> (s: i64)
    ensures
        s == secs as int % 86_400,
        0 <= s < 86_400,
{
    let r = secs % 86_400;
    if r < 0 {
        r + 86_400
    } else {
        r
    }
}

/// English month name of month `m` in `1..=12`.
pub open spec fn month_name(m: int) -> Seq<char> {
    if m == 1 {
        "January"@
    } else if m == 2 {
        "February"@
    } else if m == 3 {
        "March"@
    } else if m == 4 {
        "April"@
    } else if m == 5 {
        "May"@
    } else if m == 6 {
        "June"@
    } else if m == 7 {
        "July"@
    } else if m == 8 {
        "August"@
    } else if m == 9 {
        "September"@
    } else if m == 10 {
        "October"@
    } else if m == 11 {
        "November"@
    } else {
        "December"@
    }
}

/// Three-letter abbreviation of month `m` in `1..=12`.
pub open spec fn month_abbrev(m: int) -> Seq<char> {
    if m == 1 {
        "Jan"@
    } else if m == 2 {
        "Feb"@
    } else if m == 3 {
        "Mar"@
    } else if m == 4 {
        "Apr"@
    } else if m == 5 {
        "May"@
    } else if m == 6 {
        "Jun"@
    } else if m == 7 {
        "Jul"@
    } else if m == 8 {
        "Aug"@
    } else if m == 9 {
        "Sep"@
    } else if m == 10 {
        "Oct"@
    } else if m == 11 {
        "Nov"@
    } else {
        "Dec"@
    }
}

fn push_month_name(out: &mut String, m: u32)
    ensures
        final(out)@ == old(out)@ + month_name(m as int),
{
    let name = if m == 1 {
        "January"
    } else if m == 2 {
        "February"
    } else if m == 3 {
        "March"
    } else if m == 4 {
        "April"
    } else if m == 5 {
        "May"
    } else if m == 6 {
        "June"
    } else if m == 7 {
        "July"
    } else if m == 8 {
        "August"
    } else if m == 9 {
        "September"
    } else if m == 10 {
        "October"
    } else if m == 11 {
        "November"
    } else {
        "December"
    };
    push_str(out, name);
}

fn push_month_abbrev(out: &mut String, m: u32)
    ensures
        final(out)@ == old(out)@ + month_abbrev(m as int),
{
    let name = if m == 1 {
        "Jan"
    } else if m == 2 {
        "Feb"
    } else if m == 3 {
        "Mar"
    } else if m == 4 {
        "Apr"
    } else if m == 5 {
        "May"
    } else if m == 6 {
        "Jun"
    } else if m == 7 {
        "Jul"
    } else if m == 8 {
        "Aug"
    } else if m == 9 {
        "Sep"
    } else if m == 10 {
        "Oct"
    } else if m == 11 {
        "Nov"
    } else {
        "Dec"
    };
    push_str(out, name);
}

/// "May 17, 2026" for the calendar day of `secs`.
pub open spec fn long_date(secs: int) -> Seq<char> {
    let t = date_of(secs / 86_400);
    month_name(t.1) + " "@ + int_digits(t.2) + ", "@ + int_digits(t.0)
}

/// Law: a long date names the month its day falls in, January through
/// December in calendar order. For every calendar date `(y, m, d)`, a
/// moment on that day reads as the `m`-th month's name, the day and the
/// year.
pub proof fn lemma_long_date_names_the_month(secs: int, y: int, m: int, d: int)
    requires
        valid_date(y, m, d),
        secs / 86_400 == epoch_day(y, m, d),
    ensures
        long_date(secs) == seq!["January"@, "February"@, "March"@, "April"@, "May"@, "June"@, "July"@, "August"@, "September"@, "October"@, "November"@, "December"@][m - 1] + " "@ + int_digits(d) + ", "@ + int_digits(y),
{
    crate::calendar::lemma_date_of(secs / 86_400, y, m, d);
}

/// Law: every month's abbreviation is the first three letters of its
/// full name, so the short and long dates always agree on the month.
pub proof fn lemma_abbrev_is_name_prefix(m: int)
    requires
        1 <= m <= 12,
    ensures
        month_abbrev(m) == month_name(m).take(3),
{
    reveal_strlit("January");
    reveal_strlit("Jan");
    reveal_strlit("February");
    reveal_strlit("Feb");
    reveal_strlit("March");
    reveal_strlit("Mar");
    reveal_strlit("April");
    reveal_strlit("Apr");
    reveal_strlit("May");
    reveal_strlit("June");
    reveal_strlit("Jun");
    reveal_strlit("July");
    reveal_strlit("Jul");
    reveal_strlit("August");
    reveal_strlit("Aug");
    reveal_strlit("September");
    reveal_strlit("Sep");
    reveal_strlit("October");
    reveal_strlit("Oct");
    reveal_strlit("November");
    reveal_strlit("Nov");
    reveal_strlit("December");
    reveal_strlit("Dec");
    assert(month_abbrev(m) =~= month_name(m).take(3));
}

/// A timestamp shifted by a UTC offset, as "May 17, 2026": the viewer's
/// local calendar day for their offset, or the UTC day for `0`.
pub fn fmt_long_date(unix_secs: i64, offset_secs: i64) -> (out: String)
    requires
        i64::MIN <= unix_secs + offset_secs <= i64::MAX,
    ensures
        out@ == long_date(unix_secs + offset_secs),
        forall|y: int, m: int, d: int|
            valid_date(y, m, d) && (unix_secs + offset_secs) / 86_400 == #[trigger] epoch_day(y, m, d)
                ==> out@ == seq!["January"@, "February"@, "March"@, "April"@, "May"@, "June"@, "July"@, "August"@, "September"@, "October"@, "November"@, "December"@][m - 1] + " "@ + int_digits(d) + ", "@ + int_digits(y),
{
    proof {
        assert forall|y: int, m: int, d: int|
            valid_date(y, m, d) && (unix_secs + offset_secs) / 86_400 == #[trigger] epoch_day(y, m, d)
                implies long_date(unix_secs + offset_secs) == seq!["January"@, "February"@, "March"@, "April"@, "May"@, "June"@, "July"@, "August"@, "September"@, "October"@, "November"@, "December"@][m - 1] + " "@ + int_digits(d)
                + ", "@ + int_digits(y) by {
            lemma_long_date_names_the_month(unix_secs + offset_secs, y, m, d);
        }
    }
    let day = day_of(unix_secs + offset_secs);
    let (y, m, d) = civil_from_days(day);
    let mut out = String::new();
    push_month_name(&mut out, m);
    push_str(&mut out, " ");
    push_u64(&mut out, d as u64);
    push_str(&mut out, ", ");
    push_i64(&mut out, y);
    out
}

/// "May 17" for the calendar day of `secs`.
pub open spec fn short_date_of(secs: int) -> Seq<char> {
    let t = date_of(secs / 86_400);
    month_abbrev(t.1) + " "@ + int_digits(t.2)
}

/// A timestamp shifted by a UTC offset, as "May 17".
pub fn short_date(unix_secs: i64, offset_secs: i64) -> (out: String)
    requires
        i64::MIN <= unix_secs + offset_secs <= i64::MAX,
    ensures
        out@ == short_date_of(unix_secs + offset_secs),
{
    let day = day_of(unix_secs + offset_secs);
    let (_y, m, d) = civil_from_days(day);
    let mut out = String::new();
    push_month_abbrev(&mut out, m);
    push_str(&mut out, " ");
    push_u64(&mut out, d as u64);
    out
}

/// "2026-05-17", the UTC day of `secs`.
pub open spec fn iso_date(secs: int) -> Seq<char> {
    let t = date_of(secs / 86_400);
    zero_pad(t.0, 4) + "-"@ + zero_pad(t.1, 2) + "-"@ + zero_pad(t.2, 2)
}

fn push_iso_date(out: &mut String, unix_secs: i64)
    ensures
        final(out)@ == old(out)@ + iso_date(unix_secs as int),
{
    let (y, m, d) = civil_from_days(day_of(unix_secs));
    push_zero_padded(out, y, 4);
    push_str(out, "-");
    push_zero_padded(out, m as i64, 2);
    push_str(out, "-");
    push_zero_padded(out, d as i64, 2);
}

/// A timestamp as its UTC day, `YYYY-MM-DD` (the sessions list).
pub fn fmt_iso_date(unix_secs: i64) -> (out: String)
    ensures
        out@ == iso_date(unix_secs as int),
{
    let mut out = String::new();
    push_iso_date(&mut out, unix_secs);
    out
}

/// "2026-05-17 13:05:09 UTC".
pub open spec fn utc_timestamp(secs: int) -> Seq<char> {
    let s = secs % 86_400;
    iso_date(secs) + " "@ + zero_pad(s / 3600, 2) + ":"@ + zero_pad((s % 3600) / 60, 2) + ":"@
        + zero_pad(s % 60, 2) + " UTC"@
}

/// A timestamp as `YYYY-MM-DD HH:MM:SS UTC` (the admin health page).
pub fn fmt_utc_timestamp(unix_secs: i64) -> (out: String)
    ensures
        out@ == utc_timestamp(unix_secs as int),
{
    let mut out = String::new();
    push_iso_date(&mut out, unix_secs);
    let s = secs_of_day(unix_secs);
    push_str(&mut out, " ");
    push_zero_padded(&mut out, s / 3600, 2);
    push_str(&mut out, ":");
    push_zero_padded(&mut out, (s % 3600) / 60, 2);
    push_str(&mut out, ":");
    push_zero_padded(&mut out, s % 60, 2);
    push_str(&mut out, " UTC");
    out
}

// ── Day strings ───────────────────────────────────────────────────

/// The three `-`-separated fields of a day string (`splitn(3, '-')`): up
/// to the first `-`, up to the second, and the rest.
pub open spec fn day_fields(s: Seq<char>) -> Option<(Seq<char>, Seq<char>, Seq<char>)> {
    match split_once(s, '-') {
        Some((y, rest)) => match split_once(rest, '-') {
            Some((m, d)) => Some((y, m, d)),
            None => None,
        },
        None => None,
    }
}

/// The year field of a day string parses to a year the day arithmetic
/// handles, or does not parse at all.
pub open spec fn day_year_in_range(s: Seq<char>) -> bool {
    match day_fields(s) {
        Some((y, _, _)) => match parse_i64_spec(y) {
            Some(v) => year_in_range(v),
            None => true,
        },
        None => true,
    }
}

/// The day number of a `YYYY-MM-DD` string: its three fields parse (as
/// `i64`, `u32`, `u32`) to a real calendar date.
pub open spec fn parse_day_spec(s: Seq<char>) -> Option<int> {
    match day_fields(s) {
        Some((ys, ms, ds)) => match (parse_i64_spec(ys), parse_u32_spec(ms), parse_u32_spec(ds)) {
            (Some(y), Some(m), Some(d)) => if valid_date(y, m, d) {
                Some(epoch_day(y, m, d))
            } else {
                None
            },
            _ => None,
        },
        None => None,
    }
}

/// Law: a day string that parses gives the day number whose calendar date
/// is exactly the string's year, month and day.
pub proof fn lemma_parse_day_round_trip(s: Seq<char>)
    requires
        parse_day_spec(s) is Some,
    ensures
        day_fields(s) matches Some((ys, ms, ds)) && date_of(parse_day_spec(s)->0) == (
            parse_i64_spec(ys)->0,
            parse_u32_spec(ms)->0,
            parse_u32_spec(ds)->0,
        ),
{
    let (ys, ms, ds) = day_fields(s)->0;
    let y = parse_i64_spec(ys)->0;
    let m = parse_u32_spec(ms)->0;
    let d = parse_u32_spec(ds)->0;
    crate::calendar::lemma_date_of(epoch_day(y, m, d), y, m, d);
}

/// `YYYY-MM-DD` → days since the epoch; `None` for a malformed string or a
/// date the calendar does not have (`2026-02-31`).
pub fn parse_day(s: &str) -> (r: Option<i64>)
    requires
        day_year_in_range(s@),
    ensures
        match r {
            Some(z) => parse_day_spec(s@) == Some(z as int),
            None => parse_day_spec(s@) is None,
        },
{
    let v = to_chars(s);
    let (ys, rest) = match split_once_char(&v, '-') {
        Some(p) => p,
        None => return None,
    };
    let (ms, ds) = match split_once_char(&rest, '-') {
        Some(p) => p,
        None => return None,
    };
    let y = match parse_i64(&ys) {
        Some(y) => y,
        None => return None,
    };
    let m = match parse_u32(&ms) {
        Some(m) => m,
        None => return None,
    };
    let d = match parse_u32(&ds) {
        Some(d) => d,
        None => return None,
    };
    if m < 1 || m > 12 || d < 1 || d > 31 {
        return None;
    }
    let days = days_from_civil(y, m, d);
    let (y2, m2, d2) = civil_from_days(days);
    if y2 == y && m2 == m && d2 == d {
        Some(days)
    } else {
        proof {
            if valid_date(y as int, m as int, d as int) {
                crate::calendar::lemma_epoch_day_injective(
                    y2 as int,
                    m2 as int,
                    d2 as int,
                    y as int,
                    m as int,
                    d as int,
                );
            }
        }
        None
    }
}

} // verus!
