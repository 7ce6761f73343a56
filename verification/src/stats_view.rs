//! Markup of the marquee's populated Stats record: the four-cell grid, the
//! time-left note, the labelled activity spark and its axis.

use vstd::prelude::*;
use crate::dates::{day_year_in_range, parse_day_spec, short_date, short_date_of};
use crate::markup::{escaped, push_escaped};
use crate::num::{int_digits, push_i64};
use crate::stats::{
    avg_sit_secs, count_label, count_label_of, days_in_label, days_in_of, duration_label,
    duration_of, newest_percent_of, spark_buckets, spark_of, spark_summary, spark_summary_of,
    sums_fit, time_left_note, time_left_of, trunc_div, BookInsights, MarqueeProgress,
};
use crate::text::{push_str, string_of};

verus! {

/// One `.rx-stat` cell: key, value, sub-label.
pub open spec fn stat_cell_of(k: Seq<char>, v: Seq<char>, s: Seq<char>) -> Seq<char> {
    "<div class=\"rx-stat\"><div class=\"k\">"@ + escaped(k) + "</div><div class=\"v\">"@
        + escaped(v) + "</div><div class=\"s\">"@ + escaped(s) + "</div></div>"@
}

fn push_stat_cell(out: &mut String, k: &str, v: &str, s: &str)
    ensures
        final(out)@ == old(out)@ + stat_cell_of(k@, v@, s@),
{
    let ghost start = out@;
    push_str(out, "<div class=\"rx-stat\"><div class=\"k\">");
    push_escaped(out, k);
    push_str(out, "</div><div class=\"v\">");
    push_escaped(out, v);
    push_str(out, "</div><div class=\"s\">");
    push_escaped(out, s);
    push_str(out, "</div></div>");
    assert(out@ =~= start + stat_cell_of(k@, v@, s@));
}

/// The largest bucket (none for an empty strip).
pub open spec fn seq_max(s: Seq<i64>) -> int
    decreases s.len(),
{
    if s.len() == 0 {
        0
    } else if s.len() == 1 {
        s[0] as int
    } else {
        let m = seq_max(s.drop_last());
        if s.last() > m {
            s.last() as int
        } else {
            m
        }
    }
}

/// The strip's scale: its largest bucket, at least 1.
pub open spec fn spark_scale(s: Seq<i64>) -> int {
    if s.len() > 0 && seq_max(s) > 1 {
        seq_max(s)
    } else {
        1
    }
}

/// A bar's height in pixels: 2 plus its share of 32, at most 34.
pub open spec fn bar_height(v: int, scale: int) -> int {
    let h = 2 + trunc_div(v * 32, scale);
    if h < 34 {
        h
    } else {
        34
    }
}

/// One bar of the strip, lit when the day had activity.
pub open spec fn bar_of(v: int, scale: int) -> Seq<char> {
    "<i class=\""@ + (if v > 0 {
        "on"@
    } else {
        Seq::empty()
    }) + "\" style=\"height:"@ + int_digits(bar_height(v, scale)) + "px\"></i>"@
}

/// The bars of `s`, oldest first.
pub open spec fn bars_of(s: Seq<i64>, scale: int) -> Seq<char>
    decreases s.len(),
{
    if s.len() == 0 {
        Seq::empty()
    } else {
        bars_of(s.drop_last(), scale) + bar_of(s.last() as int, scale)
    }
}

/// The axis under the strip, hidden from assistive tech (the strip's
/// label already says what it shows).
pub open spec fn spark_axis() -> Seq<char> {
    "<div class=\"rx-spark-axis\" aria-hidden=\"true\"><span>3 wk ago</span><span>minutes \u{b7} by day</span><span>today</span></div>"@
}

/// The four-cell record grid.
pub open spec fn grid_of(
    i: BookInsights,
    audio_only: bool,
    now: int,
    started_offset: int,
    longest_offset: int,
) -> Seq<char> {
    let avg = trunc_div(
        i.sitting_seconds as int,
        if i.sessions > 1 {
            i.sessions as int
        } else {
            1
        },
    );
    "<div class=\"bdmq-stats\" data-testid=\"bdmq-stats\">"@ + stat_cell_of(
        "Started"@,
        short_date_of(i.started_at + started_offset),
        days_in_of(now, i.started_at as int),
    ) + stat_cell_of(
        if audio_only {
            "Time listened"@
        } else {
            "Time in book"@
        },
        duration_of(i.seconds_total as int),
        count_label_of(i.sessions as int, "session"@),
    ) + stat_cell_of("Pickups"@, int_digits(i.sessions as int), "avg sit "@ + duration_of(avg))
        + stat_cell_of(
        "Longest sit"@,
        duration_of(i.longest_seconds as int),
        short_date_of(i.longest_started_at + longest_offset),
    ) + "</div>"@
}

/// The time-left note, when there is one.
pub open spec fn note_of(i: BookInsights, progress: MarqueeProgress) -> Seq<char> {
    match time_left_of(i.seconds_total as int, newest_percent_of(progress)) {
        Some(n) => "<div class=\"mono bdmq-statsnote\">"@ + escaped(n) + "</div>"@,
        None => Seq::empty(),
    }
}

/// The strip: one labelled image whose label is its spoken summary.
pub open spec fn spark_markup_of(i: BookInsights, audio_only: bool) -> Seq<char> {
    let spark = spark_of(i.daily@, i.as_of_day@);
    "<div class=\"rx-spark\" data-testid=\"bdmq-spark\" role=\"img\" aria-label=\""@ + escaped(
        spark_summary_of(spark, i.as_of_day@, audio_only),
    ) + "\">"@ + bars_of(spark, spark_scale(spark)) + "</div>"@
}

/// The populated Stats record on the clock `now`, each date on the
/// reader's calendar by its UTC offset.
pub open spec fn stats_markup(
    i: BookInsights,
    progress: MarqueeProgress,
    audio_only: bool,
    now: int,
    started_offset: int,
    longest_offset: int,
) -> Seq<char> {
    grid_of(i, audio_only, now, started_offset, longest_offset) + note_of(i, progress)
        + spark_markup_of(i, audio_only) + spark_axis()
}

fn push_bars(out: &mut String, spark: &Vec<i64>, scale: i64)
    requires
        scale >= 1,
        forall|k: int| 0 <= k < spark@.len() ==> i64::MIN <= #[trigger] spark@[k] * 32 <= i64::MAX,
    ensures
        final(out)@ == old(out)@ + bars_of(spark@, scale as int),
{
    let ghost start = out@;
    let mut i: usize = 0;
    while i < spark.len()
        invariant
            i <= spark@.len(),
            scale >= 1,
            forall|k: int| 0 <= k < spark@.len() ==> i64::MIN <= #[trigger] spark@[k] * 32 <= i64::MAX,
            out@ == start + bars_of(spark@.take(i as int), scale as int),
        decreases spark.len() - i,
    {
        let v = spark[i];
        assert(i64::MIN <= spark@[i as int] * 32 <= i64::MAX);
        let scaled: i128 = (v as i128) * 32;
        let q: i128 = scaled / (scale as i128);
        assert(q == trunc_div(v * 32, scale as int));
        if scaled < 0 {
            assert((-(scaled as int)) / (scale as int) <= -(scaled as int)) by (nonlinear_arith)
                requires
                    scaled < 0,
                    scale >= 1,
            ;
        } else {
            assert((scaled as int) / (scale as int) >= 0) by (nonlinear_arith)
                requires
                    scaled >= 0,
                    scale >= 1,
            ;
        }
        let h: i128 = if q < 32 {
            2 + q
        } else {
            34
        };
        let ghost before = out@;
        push_str(out, "<i class=\"");
        if v > 0 {
            push_str(out, "on");
        }
        push_str(out, "\" style=\"height:");
        push_i64(out, h as i64);
        push_str(out, "px\"></i>");
        proof {
            assert(h == bar_height(v as int, scale as int));
            assert(spark@.take(i as int + 1).drop_last() =~= spark@.take(i as int));
            assert(out@ =~= before + bar_of(v as int, scale as int));
        }
        i += 1;
    }
    proof {
        assert(spark@.take(spark@.len() as int) =~= spark@);
    }
}

fn scale_of(spark: &Vec<i64>) -> (m: i64)
    ensures
        m == spark_scale(spark@),
{
    if spark.len() == 0 {
        return 1;
    }
    let mut m: i64 = spark[0];
    let mut i: usize = 1;
    proof {
        assert(spark@.take(1).len() == 1);
        assert(seq_max(spark@.take(1)) == spark@[0]);
    }
    while i < spark.len()
        invariant
            1 <= i <= spark@.len(),
            m == seq_max(spark@.take(i as int)),
        decreases spark.len() - i,
    {
        proof {
            assert(spark@.take(i as int + 1).drop_last() =~= spark@.take(i as int));
        }
        if spark[i] > m {
            m = spark[i];
        }
        i += 1;
    }
    proof {
        assert(spark@.take(spark@.len() as int) =~= spark@);
    }
    if m > 1 {
        m
    } else {
        1
    }
}

fn push_grid(
    out: &mut String,
    i: &BookInsights,
    audio_only: bool,
    now: i64,
    started_offset: i64,
    longest_offset: i64,
)
    requires
        i64::MIN <= i.started_at + started_offset <= i64::MAX,
        i64::MIN <= i.longest_started_at + longest_offset <= i64::MAX,
        i64::MIN <= now - i.started_at <= i64::MAX,
    ensures
        final(out)@ == old(out)@ + grid_of(
            *i,
            audio_only,
            now as int,
            started_offset as int,
            longest_offset as int,
        ),
{
    let ghost start = out@;
    push_str(out, "<div class=\"bdmq-stats\" data-testid=\"bdmq-stats\">");
    let started_short = short_date(i.started_at, started_offset);
    let started_sub = days_in_label(now, i.started_at);
    push_stat_cell(out, "Started", started_short.as_str(), started_sub.as_str());
    let time_label = if audio_only {
        "Time listened"
    } else {
        "Time in book"
    };
    let total = duration_label(i.seconds_total);
    let sessions = count_label(i.sessions, "session");
    push_stat_cell(out, time_label, total.as_str(), sessions.as_str());
    let mut pickups = String::new();
    push_i64(&mut pickups, i.sessions);
    let mut avg = string_of("avg sit ");
    let a = duration_label(avg_sit_secs(i));
    push_str(&mut avg, a.as_str());
    push_stat_cell(out, "Pickups", pickups.as_str(), avg.as_str());
    let longest = duration_label(i.longest_seconds);
    let longest_day = short_date(i.longest_started_at, longest_offset);
    push_stat_cell(out, "Longest sit", longest.as_str(), longest_day.as_str());
    push_str(out, "</div>");
    assert(out@ =~= start + grid_of(
        *i,
        audio_only,
        now as int,
        started_offset as int,
        longest_offset as int,
    ));
}

fn push_note(out: &mut String, i: &BookInsights, progress: &MarqueeProgress)
    requires
        -(i64::MAX / 100) <= i.seconds_total <= i64::MAX / 100,
    ensures
        final(out)@ == old(out)@ + note_of(*i, *progress),
{
    let ghost start = out@;
    match time_left_note(i, progress) {
        Some(n) => {
            push_str(out, "<div class=\"mono bdmq-statsnote\">");
            push_escaped(out, n.as_str());
            push_str(out, "</div>");
            assert(out@ =~= start + note_of(*i, *progress));
        },
        None => {
            assert(out@ =~= start + note_of(*i, *progress));
        },
    }
}

fn push_spark(out: &mut String, i: &BookInsights, audio_only: bool)
    requires
        day_year_in_range(i.as_of_day@),
        forall|k: int| 0 <= k < i.daily.len() ==> day_year_in_range((#[trigger] i.daily@[k]).day@),
        parse_day_spec(i.as_of_day@) matches Some(end) ==> -100_000_000_000_000 <= end
            <= 100_000_000_000_000,
        sums_fit(spark_of(i.daily@, i.as_of_day@)),
        forall|k: int|
            0 <= k < spark_of(i.daily@, i.as_of_day@).len() ==> i64::MIN <= #[trigger] spark_of(
                i.daily@,
                i.as_of_day@,
            )[k] * 32 <= i64::MAX,
    ensures
        final(out)@ == old(out)@ + spark_markup_of(*i, audio_only),
{
    let ghost start = out@;
    let spark = spark_buckets(i.daily.as_slice(), i.as_of_day.as_str());
    let summary = spark_summary(spark.as_slice(), i.as_of_day.as_str(), audio_only);
    push_str(out, "<div class=\"rx-spark\" data-testid=\"bdmq-spark\" role=\"img\" aria-label=\"");
    push_escaped(out, summary.as_str());
    push_str(out, "\">");
    let scale = scale_of(&spark);
    push_bars(out, &spark, scale);
    push_str(out, "</div>");
    assert(out@ =~= start + spark_markup_of(*i, audio_only));
}

/// Markup of the populated Stats record, on the clock `now`, with the
/// reader's UTC offsets at the start of the read and at its longest
/// sitting.
pub fn render_stats(
    i: &BookInsights,
    progress: &MarqueeProgress,
    audio_only: bool,
    now: i64,
    started_offset: i64,
    longest_offset: i64,
) -> (html: String)
    requires
        i64::MIN <= i.started_at + started_offset <= i64::MAX,
        i64::MIN <= i.longest_started_at + longest_offset <= i64::MAX,
        i64::MIN <= now - i.started_at <= i64::MAX,
        -(i64::MAX / 100) <= i.seconds_total <= i64::MAX / 100,
        day_year_in_range(i.as_of_day@),
        forall|k: int| 0 <= k < i.daily.len() ==> day_year_in_range((#[trigger] i.daily@[k]).day@),
        parse_day_spec(i.as_of_day@) matches Some(end) ==> -100_000_000_000_000 <= end
            <= 100_000_000_000_000,
        sums_fit(spark_of(i.daily@, i.as_of_day@)),
        forall|k: int|
            0 <= k < spark_of(i.daily@, i.as_of_day@).len() ==> i64::MIN <= #[trigger] spark_of(
                i.daily@,
                i.as_of_day@,
            )[k] * 32 <= i64::MAX,
    ensures
        html@ == stats_markup(
            *i,
            *progress,
            audio_only,
            now as int,
            started_offset as int,
            longest_offset as int,
        ),
{
    let mut out = String::new();
    push_grid(&mut out, i, audio_only, now, started_offset, longest_offset);
    push_note(&mut out, i, progress);
    push_spark(&mut out, i, audio_only);
    push_str(
        &mut out,
        "<div class=\"rx-spark-axis\" aria-hidden=\"true\"><span>3 wk ago</span><span>minutes \u{b7} by day</span><span>today</span></div>",
    );
    assert(out@ =~= stats_markup(
        *i,
        *progress,
        audio_only,
        now as int,
        started_offset as int,
        longest_offset as int,
    ));
    out
}

} // verus!
