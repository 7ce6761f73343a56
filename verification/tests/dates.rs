use omnibus_pages::calendar::civil_from_days;
use omnibus_pages::dates::{
    day_of, fmt_iso_date, fmt_long_date, fmt_utc_timestamp, parse_day, secs_of_day, short_date,
};

#[test]
fn fmt_long_date_formats_known_epoch_dates_with_no_offset() {
    assert_eq!(fmt_long_date(1_779_019_200, 0), "May 17, 2026");
    assert_eq!(fmt_long_date(1_700_000_000, 0), "November 14, 2023");
    assert_eq!(fmt_long_date(0, 0), "January 1, 1970");
}

#[test]
fn fmt_long_date_handles_pre_epoch_timestamps() {
    assert_eq!(fmt_long_date(-1, 0), "December 31, 1969");
}

#[test]
fn fmt_long_date_uses_the_viewers_local_calendar_day_not_utc() {
    let unix_secs = 1_786_586_400;
    assert_eq!(fmt_long_date(unix_secs, 0), "August 13, 2026");
    assert_eq!(fmt_long_date(unix_secs, -4 * 3_600), "August 12, 2026");
}

#[test]
fn fmt_long_date_rolls_forward_a_day_for_a_positive_offset() {
    let unix_secs = 1_786_564_800;
    assert_eq!(fmt_long_date(unix_secs, 0), "August 12, 2026");
    assert_eq!(fmt_long_date(unix_secs, 9 * 3_600), "August 13, 2026");
}

#[test]
fn fmt_timestamp_renders_iso_date() {
    // 2024-01-15T00:00:00Z
    assert_eq!(fmt_iso_date(1_705_276_800), "2024-01-15");
}

#[test]
fn fmt_timestamp_formats_a_known_epoch_second() {
    assert_eq!(fmt_utc_timestamp(1_700_000_000), "2023-11-14 22:13:20 UTC");
}

#[test]
fn fmt_timestamp_formats_the_epoch_itself() {
    assert_eq!(fmt_utc_timestamp(0), "1970-01-01 00:00:00 UTC");
}

#[test]
fn fmt_utc_timestamp_floors_a_pre_epoch_second_onto_the_previous_day() {
    assert_eq!(fmt_utc_timestamp(-1), "1969-12-31 23:59:59 UTC");
    assert_eq!(day_of(-1), -1);
    assert_eq!(secs_of_day(-1), 86_399);
    assert_eq!(day_of(86_400), 1);
}

#[test]
fn short_date_formats_the_month_day_on_the_given_offset() {
    assert_eq!(short_date(1_700_000_000, 0), "Nov 14");
    assert_eq!(short_date(1_700_000_000, -5 * 3600), "Nov 14");
    assert_eq!(short_date(1_700_006_400, -5 * 3600), "Nov 14");
}

#[test]
fn parse_day_roundtrips_through_civil_from_days() {
    for s in ["1970-01-01", "2000-02-29", "2023-11-14", "2026-08-24"] {
        let days = parse_day(s).unwrap();
        let (y, m, d) = civil_from_days(days);
        assert_eq!(format!("{y:04}-{m:02}-{d:02}"), s);
    }
    assert_eq!(parse_day("1970-01-01"), Some(0));
    assert_eq!(parse_day("not-a-day"), None);
    assert_eq!(parse_day("2026-02-31"), None);
    assert_eq!(parse_day("2025-02-29"), None);
}

#[test]
fn parse_day_rejects_a_missing_field_and_a_trailing_one() {
    assert_eq!(parse_day("2026-08"), None);
    assert_eq!(parse_day("2026-08-24-1"), None);
    assert_eq!(parse_day("2026-13-01"), None);
    assert_eq!(parse_day("+2026-08-24"), parse_day("2026-08-24"));
}
