use omnibus_pages::stats_view::render_stats;
use omnibus_pages::stats::{
    avg_sit_secs, count_label, days_in_label, duration_label, spark_buckets, spark_summary,
    time_left_note, BookInsights, DayActivity, MarqueeProgress, ProgressRecord, MIN_PACE_PERCENT,
    SPARK_DAYS,
};

#[test]
fn spark_buckets_places_minutes_by_day_and_zero_fills_gaps() {
    let daily = vec![
        DayActivity {
            day: "2026-08-24".into(),
            seconds: 600,
        },
        DayActivity {
            day: "2026-08-03".into(),
            seconds: 120,
        },
        DayActivity {
            day: "2026-07-01".into(),
            seconds: 999,
        },
    ];
    let out = spark_buckets(&daily, "2026-08-24");
    assert_eq!(out.len(), SPARK_DAYS);
    assert_eq!(out[SPARK_DAYS - 1], 10);
    assert_eq!(out[0], 2);
    assert_eq!(out.iter().sum::<i64>(), 12);
}

#[test]
fn spark_buckets_are_all_zero_on_an_unparsable_anchor() {
    let daily = vec![DayActivity {
        day: "2026-08-24".into(),
        seconds: 600,
    }];
    assert_eq!(spark_buckets(&daily, "today"), vec![0; SPARK_DAYS]);
}

#[test]
fn spark_summary_states_the_window_total_active_days_and_peak() {
    let mut spark = vec![0i64; SPARK_DAYS];
    spark[SPARK_DAYS - 1] = 10;
    spark[0] = 2;
    assert_eq!(
        spark_summary(&spark, "2026-08-24", false),
        "Minutes read per day over the last 22 days: 12 minutes across 2 days, \
         most on Aug 24 with 10 minutes."
    );
}

#[test]
fn spark_summary_says_none_rather_than_naming_a_peak_of_zero() {
    let summary = spark_summary(&[0; SPARK_DAYS], "2026-08-24", false);
    assert_eq!(summary, "Minutes read per day over the last 22 days: none.");
    assert!(!summary.contains("most on"));
}

#[test]
fn spark_summary_says_listened_for_an_audio_only_book() {
    let mut spark = vec![0i64; SPARK_DAYS];
    spark[SPARK_DAYS - 1] = 30;
    let audio = spark_summary(&spark, "2026-08-24", true);
    assert!(audio.starts_with("Minutes listened per day"), "{audio}");
    assert!(!audio.contains("read"), "{audio}");
    assert_eq!(
        spark_summary(&[0; SPARK_DAYS], "2026-08-24", true),
        "Minutes listened per day over the last 22 days: none."
    );
}

#[test]
fn spark_summary_names_the_earliest_of_equal_peaks() {
    let mut spark = vec![0i64; SPARK_DAYS];
    spark[SPARK_DAYS - 3] = 7;
    spark[SPARK_DAYS - 1] = 7;
    assert!(spark_summary(&spark, "2026-08-24", false).contains("most on Aug 22 with 7 minutes"));
}

#[test]
fn spark_summary_singularizes_a_lone_day_and_minute() {
    let mut spark = vec![0i64; SPARK_DAYS];
    spark[SPARK_DAYS - 1] = 1;
    assert!(spark_summary(&spark, "2026-08-24", false).contains("1 minute across 1 day,"));
}

#[test]
fn spark_summary_drops_the_peak_day_when_the_anchor_is_unparsable() {
    let mut spark = vec![0i64; SPARK_DAYS];
    spark[3] = 5;
    let summary = spark_summary(&spark, "not-a-day", false);
    assert_eq!(
        summary,
        "Minutes read per day over the last 22 days: 5 minutes across 1 day."
    );
}

#[test]
fn duration_label_scales_minutes_and_hours() {
    assert_eq!(duration_label(0), "0m");
    assert_eq!(duration_label(59), "0m");
    assert_eq!(duration_label(60), "1m");
    assert_eq!(duration_label(3600), "1h");
    assert_eq!(duration_label(5400), "1h 30m");
    assert_eq!(duration_label(7 * 3600 + 5 * 60), "7h 5m");
}

#[test]
fn duration_label_clamps_negative_input_to_zero() {
    assert_eq!(duration_label(-100), "0m");
}

#[test]
fn count_label_singularizes_only_one() {
    assert_eq!(count_label(1, "session"), "1 session");
    assert_eq!(count_label(0, "session"), "0 sessions");
    assert_eq!(count_label(4, "day"), "4 days");
}

fn insights(seconds_total: i64, sessions: i64, sitting_seconds: i64, longest: i64) -> BookInsights {
    BookInsights {
        started_at: 0,
        seconds_total,
        sessions,
        sitting_seconds,
        longest_seconds: longest,
        longest_started_at: 0,
        daily: vec![],
        as_of_day: "2026-08-27".into(),
    }
}

#[test]
fn avg_sit_never_exceeds_the_longest_sit_beside_it() {
    let i = insights(3_000, 1, 1_800, 1_800);
    assert_eq!(avg_sit_secs(&i), 1_800);
    assert!(avg_sit_secs(&i) <= i.longest_seconds);
}

#[test]
fn avg_sit_means_the_counted_sittings() {
    let i = insights(3_700, 2, 3_600, 2_400);
    assert_eq!(avg_sit_secs(&i), 1_800);
}

#[test]
fn avg_sit_does_not_divide_by_zero_without_sittings() {
    assert_eq!(avg_sit_secs(&insights(40, 0, 0, 0)), 0);
}

fn record(pct: Option<i64>, at: i64) -> ProgressRecord {
    ProgressRecord {
        book_uuid: "uuid-1".into(),
        epub_cfi: None,
        progress_percent: pct,
        updated_at: 0,
        client_updated_at: at,
    }
}

fn progress_at(pct: i64) -> MarqueeProgress {
    MarqueeProgress {
        reading: Some(record(Some(pct), 0)),
        listening: None,
    }
}

#[test]
fn time_left_note_is_withheld_below_the_pace_threshold() {
    let i = insights(3_600, 1, 3_600, 3_600);
    for pct in [0, 1, 2, MIN_PACE_PERCENT - 1] {
        assert_eq!(time_left_note(&i, &progress_at(pct)), None, "pct {pct}");
    }
}

#[test]
fn time_left_note_estimates_from_the_threshold_upward() {
    let i = insights(3_600, 1, 3_600, 3_600);
    let note = time_left_note(&i, &progress_at(50)).unwrap();
    assert!(note.contains("1h"), "unexpected note: {note}");
    assert!(note.contains("50% in"), "unexpected note: {note}");
    assert!(time_left_note(&i, &progress_at(MIN_PACE_PERCENT)).is_some());
}

#[test]
fn time_left_note_reports_completion_at_full_progress() {
    let i = insights(3_600, 1, 3_600, 3_600);
    assert_eq!(
        time_left_note(&i, &progress_at(100)).as_deref(),
        Some("finished \u{2014} the record is complete")
    );
}

#[test]
fn newest_percent_takes_the_fresher_format() {
    let p = MarqueeProgress {
        reading: Some(record(Some(40), 100)),
        listening: Some(record(Some(70), 200)),
    };
    assert_eq!(p.newest_percent(), Some(70));
    assert_eq!(p.newest_updated_at(), Some(200));
    let p = MarqueeProgress {
        reading: Some(record(Some(40), 300)),
        listening: Some(record(None, 400)),
    };
    assert_eq!(p.newest_percent(), Some(40));
    assert_eq!(p.newest_updated_at(), Some(400));
    let none = MarqueeProgress {
        reading: None,
        listening: None,
    };
    assert_eq!(none.newest_percent(), None);
    assert_eq!(none.newest_updated_at(), None);
}

#[test]
fn days_in_label_reads_today_on_the_first_day_then_counts_elapsed_days() {
    let now = 10 * 86_400;
    assert_eq!(days_in_label(now, now - 3_600), "today");
    assert_eq!(days_in_label(now, now + 100), "today");
    assert_eq!(days_in_label(now, now - 86_400), "1 day in");
    assert_eq!(days_in_label(now, now - 3 * 86_400), "3 days in");
}

/// A fixed clock for the rendered record: a date in 2026.
const NOW: i64 = 1_788_000_000;

fn render(i: &BookInsights, audio_only: bool) -> String {
    render_stats(i, &progress_at(50), audio_only, NOW, 0, 0)
}

#[test]
fn stat_grid_renders_singular_nouns_for_a_count_of_one() {
    let mut i = insights(3_600, 1, 3_600, 3_600);
    i.started_at = NOW - 86_400;
    let html = render(&i, false);
    assert!(html.contains("1 day in"), "{html}");
    assert!(html.contains("1 session"), "{html}");
    assert!(!html.contains("1 days in"), "{html}");
    assert!(!html.contains("1 sessions"), "{html}");
}

#[test]
fn stat_grid_keeps_plural_nouns_above_one() {
    let mut i = insights(3_600, 4, 3_600, 3_600);
    i.started_at = NOW - 3 * 86_400;
    let html = render(&i, false);
    assert!(html.contains("3 days in"), "{html}");
    assert!(html.contains("4 sessions"), "{html}");
}

#[test]
fn stat_grid_reads_today_on_the_start_day() {
    let mut i = insights(3_600, 1, 3_600, 3_600);
    i.started_at = NOW;
    let html = render(&i, false);
    assert_eq!(html.matches("today").count(), 2, "{html}");
    assert!(!html.contains("day in"), "{html}");
}

#[test]
fn spark_is_a_labelled_image_rather_than_hidden_from_assistive_tech() {
    let mut i = insights(3_600, 1, 3_600, 3_600);
    i.daily = vec![DayActivity { day: "2026-08-27".into(), seconds: 1_800 }];
    let html = render(&i, false);
    assert!(html.contains("role=\"img\""), "{html}");
    assert!(
        html.contains("30 minutes across 1 day, most on Aug 27 with 30 minutes"),
        "{html}"
    );
}

#[test]
fn spark_label_speaks_the_same_format_as_the_tile_above_it() {
    let mut i = insights(3_600, 1, 3_600, 3_600);
    i.daily = vec![DayActivity { day: "2026-08-27".into(), seconds: 1_800 }];
    let html = render(&i, true);
    assert!(html.contains("Time listened"), "{html}");
    assert!(html.contains("Minutes listened per day"), "{html}");
    assert!(!html.contains("Minutes read per day"), "{html}");
}

#[test]
fn spark_axis_stays_hidden_while_the_strip_it_labels_does_not() {
    let i = insights(3_600, 1, 3_600, 3_600);
    let html = render(&i, false);
    assert_eq!(html.matches("aria-hidden=\"true\"").count(), 1, "{html}");
    let (before_spark, _) = html
        .split_once("data-testid=\"bdmq-spark\"")
        .expect("the strip renders with its testid");
    assert!(!before_spark.contains("aria-hidden"), "{html}");
    assert!(html.contains("class=\"rx-spark-axis\" aria-hidden=\"true\""), "{html}");
}

#[test]
fn spark_bars_scale_to_the_busiest_day() {
    let mut i = insights(3_600, 1, 3_600, 3_600);
    i.daily = vec![
        DayActivity { day: "2026-08-27".into(), seconds: 3_600 },
        DayActivity { day: "2026-08-26".into(), seconds: 1_800 },
    ];
    let html = render(&i, false);
    assert!(html.contains("<i class=\"on\" style=\"height:34px\"></i>"), "{html}");
    assert!(html.contains("<i class=\"on\" style=\"height:18px\"></i>"), "{html}");
    assert_eq!(html.matches("height:2px").count(), 20, "{html}");
}
