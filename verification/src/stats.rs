//! The marquee's Stats stop: how long a read has run, the average sitting,
//! the time-left estimate, and the per-day activity spark with its spoken
//! summary.

use vstd::prelude::*;
use crate::dates::{parse_day, parse_day_spec, day_year_in_range, short_date, short_date_of};
use crate::num::{int_digits, push_i64};
use crate::text::{push_str, string_of};

verus! {

/// Days shown in the activity spark.
pub const SPARK_DAYS: usize = 22;

/// Smallest percent that yields a usable pace estimate.
pub const MIN_PACE_PERCENT: i64 = 5;

/// Rust's `/` on integers: the quotient rounded toward zero.
pub open spec fn trunc_div(a: int, b: int) -> int {
    if a >= 0 {
        a / b
    } else {
        -((-a) / b)
    }
}

// ── Labels ────────────────────────────────────────────────────────

/// "1 day", "3 days": the count and the noun, plural unless the count is
/// one.
pub open spec fn count_label_of(n: int, noun: Seq<char>) -> Seq<char> {
    int_digits(n) + " "@ + noun + if n == 1 {
        Seq::empty()
    } else {
        "s"@
    }
}

/// A counted noun.
pub fn count_label(n: i64, noun: &str) -> (out: String)
    ensures
        out@ == count_label_of(n as int, noun@),
{
    let mut out = String::new();
    push_i64(&mut out, n);
    push_str(&mut out, " ");
    push_str(&mut out, noun);
    if n != 1 {
        push_str(&mut out, "s");
    }
    out
}

/// A duration as hours and minutes: "45m", "2h", "1h 30m"; negative
/// durations read as zero.
pub open spec fn duration_of(secs: int) -> Seq<char> {
    let s = if secs < 0 {
        0
    } else {
        secs
    };
    let h = s / 3600;
    let m = (s % 3600) / 60;
    if h == 0 {
        int_digits(m) + "m"@
    } else if m == 0 {
        int_digits(h) + "h"@
    } else {
        int_digits(h) + "h "@ + int_digits(m) + "m"@
    }
}

/// How long a sitting or a book has taken.
pub fn duration_label(secs: i64) -> (out: String)
    ensures
        out@ == duration_of(secs as int),
{
    let s = if secs < 0 {
        0
    } else {
        secs
    };
    let h = s / 3600;
    let m = (s % 3600) / 60;
    let mut out = String::new();
    if h == 0 {
        push_i64(&mut out, m);
        push_str(&mut out, "m");
    } else if m == 0 {
        push_i64(&mut out, h);
        push_str(&mut out, "h");
    } else {
        push_i64(&mut out, h);
        push_str(&mut out, "h ");
        push_i64(&mut out, m);
        push_str(&mut out, "m");
    }
    out
}

/// The "Started" tile's sub-label: "today" within the first elapsed day
/// (or for a start in the future), then "N day(s) in".
pub open spec fn days_in_of(now: int, started_at: int) -> Seq<char> {
    let days = trunc_div(now - started_at, 86_400);
    if days <= 0 {
        "today"@
    } else {
        count_label_of(days, "day"@) + " in"@
    }
}

/// How long the book has been in progress, on the clock `now`.
pub fn days_in_label(now: i64, started_at: i64) -> (out: String)
    requires
        i64::MIN <= now - started_at <= i64::MAX,
    ensures
        out@ == days_in_of(now as int, started_at as int),
{
    let days = (now - started_at) / 86_400;
    if days <= 0 {
        string_of("today")
    } else {
        let mut out = count_label(days, "day");
        push_str(&mut out, " in");
        out
    }
}

// ── Insights ──────────────────────────────────────────────────────

/// Minutes of activity on one day, as the server reports it.
#[derive(Clone, Debug)]
pub struct DayActivity {
    /// `YYYY-MM-DD` on the reader's calendar.
    pub day: String,
    pub seconds: i64,
}

/// A book's reading record.
#[derive(Clone, Debug)]
pub struct BookInsights {
    pub started_at: i64,
    pub seconds_total: i64,
    /// Counted sittings.
    pub sessions: i64,
    /// Seconds of the counted sittings (glances excluded).
    pub sitting_seconds: i64,
    pub longest_seconds: i64,
    pub longest_started_at: i64,
    pub daily: Vec<DayActivity>,
    /// The server's "today", which the spark is anchored on.
    pub as_of_day: String,
}

/// Mean seconds per counted sitting (none without sittings).
pub fn avg_sit_secs(i: &BookInsights) -> (s: i64)
    ensures
        s == trunc_div(i.sitting_seconds as int, if i.sessions > 1 {
            i.sessions as int
        } else {
            1
        }),
{
    let n = if i.sessions > 1 {
        i.sessions
    } else {
        1
    };
    i.sitting_seconds / n
}

/// Law: the average sitting never exceeds the longest one, when every
/// counted sitting lasted at most the longest.
pub proof fn lemma_avg_sit_at_most_longest(sitting_seconds: int, sessions: int, longest: int)
    requires
        sessions >= 1,
        0 <= sitting_seconds <= sessions * longest,
    ensures
        trunc_div(sitting_seconds, sessions) <= longest,
{
    if longest < 0 {
        assert(sessions * longest < 0) by (nonlinear_arith)
            requires
                sessions >= 1,
                longest < 0,
        ;
    }
    assert(sitting_seconds / sessions <= longest) by (nonlinear_arith)
        requires
            sessions >= 1,
            0 <= sitting_seconds <= sessions * longest,
    ;
}

/// One saved reading or listening position.
#[derive(Clone, Debug)]
pub struct ProgressRecord {
    pub book_uuid: String,
    pub epub_cfi: Option<String>,
    /// Whole-book percent, when the client reported one.
    pub progress_percent: Option<i64>,
    pub updated_at: i64,
    pub client_updated_at: i64,
}

/// The newest saved position per format.
#[derive(Clone, Debug)]
pub struct MarqueeProgress {
    pub reading: Option<ProgressRecord>,
    pub listening: Option<ProgressRecord>,
}

/// The percent of the fresher of the two positions that carry one (the
/// reading one on a tie).
pub open spec fn newest_percent_of(p: MarqueeProgress) -> Option<i64> {
    let read = match p.reading {
        Some(r) => match r.progress_percent {
            Some(x) => Some((r.client_updated_at, x)),
            None => None,
        },
        None => None,
    };
    let listen = match p.listening {
        Some(l) => match l.progress_percent {
            Some(x) => Some((l.client_updated_at, x)),
            None => None,
        },
        None => None,
    };
    match (read, listen) {
        (Some((rt, rp)), Some((lt, lp))) => Some(if lt > rt {
            lp
        } else {
            rp
        }),
        (Some((_, x)), None) => Some(x),
        (None, Some((_, x))) => Some(x),
        (None, None) => None,
    }
}

fn timed_percent(r: &Option<ProgressRecord>) -> (t: Option<(i64, i64)>)
    ensures
        t == match *r {
            Some(rec) => match rec.progress_percent {
                Some(x) => Some((rec.client_updated_at, x)),
                None => None,
            },
            None => None,
        },
{
    match r {
        Some(rec) => match rec.progress_percent {
            Some(x) => Some((rec.client_updated_at, x)),
            None => None,
        },
        None => None,
    }
}

impl MarqueeProgress {
    /// Whole-book percent from the freshest format that carries one.
    pub fn newest_percent(&self) -> (p: Option<i64>)
        ensures
            p == newest_percent_of(*self),
    {
        let read = timed_percent(&self.reading);
        let listen = timed_percent(&self.listening);
        match (read, listen) {
            (Some((rt, rp)), Some((lt, lp))) => Some(if lt > rt {
                lp
            } else {
                rp
            }),
            (Some((_, x)), None) => Some(x),
            (None, Some((_, x))) => Some(x),
            (None, None) => None,
        }
    }

    /// Unix seconds of the freshest saved position, if any.
    pub fn newest_updated_at(&self) -> (t: Option<i64>)
        ensures
            t == match (self.reading, self.listening) {
                (Some(r), Some(l)) => Some(if l.client_updated_at > r.client_updated_at {
                    l.client_updated_at
                } else {
                    r.client_updated_at
                }),
                (Some(r), None) => Some(r.client_updated_at),
                (None, Some(l)) => Some(l.client_updated_at),
                (None, None) => None,
            },
    {
        match (&self.reading, &self.listening) {
            (Some(r), Some(l)) => Some(if l.client_updated_at > r.client_updated_at {
                l.client_updated_at
            } else {
                r.client_updated_at
            }),
            (Some(r), None) => Some(r.client_updated_at),
            (None, Some(l)) => Some(l.client_updated_at),
            (None, None) => None,
        }
    }
}

/// `x` clamped into `lo..=hi`.
pub open spec fn clamp(x: int, lo: int, hi: int) -> int {
    if x < lo {
        lo
    } else if x > hi {
        hi
    } else {
        x
    }
}

/// The time-left note: "finished" at 100%, nothing below the pace
/// threshold (or without a percent), else the time so far scaled to the
/// part still unread.
pub open spec fn time_left_of(seconds_total: int, percent: Option<i64>) -> Option<Seq<char>> {
    match percent {
        None => None,
        Some(raw) => {
            let pct = clamp(raw as int, 0, 100);
            if pct >= 100 {
                Some("finished \u{2014} the record is complete"@)
            } else if pct < MIN_PACE_PERCENT {
                None
            } else {
                let left = trunc_div(seconds_total * (100 - pct), pct);
                Some("\u{2248} "@ + duration_of(left) + " to go at your pace \u{b7} "@ + int_digits(pct)
                    + "% in"@)
            }
        },
    }
}

/// Law: the time left is the time so far scaled by what is unread over
/// what is read. For a percent `p` the estimate covers (from the pace
/// floor up to, not including, 100) and a non-negative time so far `s`,
/// the note names the whole number of seconds `left` with
/// `left * p <= s * (100 - p) < (left + 1) * p`: at 25% it is three times
/// the time so far, and the more is read the less is left.
pub proof fn lemma_time_left_scales(s: int, p: i64, left: int)
    requires
        MIN_PACE_PERCENT <= p < 100,
        s >= 0,
        left * p <= s * (100 - p) < (left + 1) * p,
    ensures
        time_left_of(s, Some(p)) == Some(
            "\u{2248} "@ + duration_of(left) + " to go at your pace \u{b7} "@ + int_digits(p as int)
                + "% in"@,
        ),
{
    assert(s * (100 - p) >= 0) by (nonlinear_arith)
        requires
            s >= 0,
            p < 100,
    ;
    assert((s * (100 - p)) / (p as int) == left) by (nonlinear_arith)
        requires
            left * p <= s * (100 - p) < (left + 1) * p,
            p > 0,
    ;
    assert(clamp(p as int, 0, 100) == p);
}

/// "≈ Xh Ym to go at your pace · P% in", from total time and the newest
/// percent.
pub fn time_left_note(i: &BookInsights, progress: &MarqueeProgress) -> (note: Option<String>)
    requires
        -(i64::MAX / 100) <= i.seconds_total <= i64::MAX / 100,
    ensures
        match note {
            Some(n) => time_left_of(i.seconds_total as int, newest_percent_of(*progress)) == Some(n@),
            None => time_left_of(i.seconds_total as int, newest_percent_of(*progress)) is None,
        },
        match newest_percent_of(*progress) {
            Some(p) => MIN_PACE_PERCENT <= p < 100 && i.seconds_total >= 0 ==> forall|left: int|
                #![trigger duration_of(left)]
                left * p <= i.seconds_total * (100 - p) < (left + 1) * p ==> (note matches Some(n)
                    && n@ == "\u{2248} "@ + duration_of(left) + " to go at your pace \u{b7} "@
                    + int_digits(p as int) + "% in"@),
            None => true,
        },
{
    proof {
        if let Some(p) = newest_percent_of(*progress) {
            assert forall|left: int|
                #![trigger duration_of(left)]
                MIN_PACE_PERCENT <= p < 100 && i.seconds_total >= 0 && left * p <= i.seconds_total
                    * (100 - p) < (left + 1) * p implies time_left_of(
                i.seconds_total as int,
                Some(p),
            ) == Some(
                "\u{2248} "@ + duration_of(left) + " to go at your pace \u{b7} "@ + int_digits(p as int)
                    + "% in"@,
            ) by {
                lemma_time_left_scales(i.seconds_total as int, p, left);
            }
        }
    }
    let raw = match progress.newest_percent() {
        Some(p) => p,
        None => return None,
    };
    let pct = if raw < 0 {
        0
    } else if raw > 100 {
        100
    } else {
        raw
    };
    if pct >= 100 {
        return Some(string_of("finished \u{2014} the record is complete"));
    }
    if pct < MIN_PACE_PERCENT {
        return None;
    }
    proof {
        assert(i.seconds_total * (100 - pct) <= i64::MAX && i.seconds_total * (100 - pct)
            >= i64::MIN) by (nonlinear_arith)
            requires
                -(i64::MAX / 100) <= i.seconds_total <= i64::MAX / 100,
                0 < 100 - pct <= 100,
        ;
    }
    let left = i.seconds_total * (100 - pct) / pct;
    let mut out = string_of("\u{2248} ");
    let d = duration_label(left);
    push_str(&mut out, d.as_str());
    push_str(&mut out, " to go at your pace \u{b7} ");
    push_i64(&mut out, pct);
    push_str(&mut out, "% in");
    Some(out)
}

// ── Spark ─────────────────────────────────────────────────────────

/// The buckets after reading the first `k` days of activity into the
/// window ending on day `end`: a day inside the window sets its bucket to
/// its minutes (a later report for the same day wins), anything else is
/// ignored.
pub open spec fn buckets_after(daily: Seq<DayActivity>, end: int, k: int) -> Seq<i64>
    decreases k,
{
    if k <= 0 {
        Seq::new(SPARK_DAYS as nat, |i: int| 0i64)
    } else {
        let prev = buckets_after(daily, end, k - 1);
        let d = daily[k - 1];
        let start = end - (SPARK_DAYS - 1);
        match parse_day_spec(d.day@) {
            Some(day) if start <= day <= end => prev.update(day - start, trunc_div(d.seconds as int, 60) as i64),
            _ => prev,
        }
    }
}

/// The spark's buckets: minutes per day over the window ending on the
/// server's day, oldest first; all zero when that day does not parse.
pub open spec fn spark_of(daily: Seq<DayActivity>, as_of_day: Seq<char>) -> Seq<i64> {
    match parse_day_spec(as_of_day) {
        Some(end) => buckets_after(daily, end, daily.len() as int),
        None => Seq::new(SPARK_DAYS as nat, |i: int| 0i64),
    }
}

proof fn lemma_buckets_len(daily: Seq<DayActivity>, end: int, k: int)
    ensures
        buckets_after(daily, end, k).len() == SPARK_DAYS,
    decreases k,
{
    if k > 0 {
        lemma_buckets_len(daily, end, k - 1);
    }
}

/// The last [`SPARK_DAYS`] days of activity in minutes, oldest → newest,
/// anchored on the server's `as_of_day`.
pub fn spark_buckets(daily: &[DayActivity], as_of_day: &str) -> (out: Vec<i64>)
    requires
        day_year_in_range(as_of_day@),
        forall|k: int| 0 <= k < daily.len() ==> day_year_in_range((#[trigger] daily@[k]).day@),
    ensures
        out@ == spark_of(daily@, as_of_day@),
        out.len() == SPARK_DAYS,
{
    let mut out: Vec<i64> = Vec::new();
    let mut z: usize = 0;
    while z < SPARK_DAYS
        invariant
            z <= SPARK_DAYS,
            out.len() == z,
            forall|i: int| 0 <= i < z ==> out@[i] == 0,
        decreases SPARK_DAYS - z,
    {
        out.push(0);
        z += 1;
    }
    proof {
        assert(out@ =~= Seq::new(SPARK_DAYS as nat, |i: int| 0i64));
    }
    let end = match parse_day(as_of_day) {
        Some(e) => e,
        None => return out,
    };
    let start = end - (SPARK_DAYS as i64 - 1);
    let mut k: usize = 0;
    while k < daily.len()
        invariant
            k <= daily.len(),
            forall|j: int| 0 <= j < daily.len() ==> day_year_in_range((#[trigger] daily@[j]).day@),
            parse_day_spec(as_of_day@) == Some(end as int),
            start == end - (SPARK_DAYS - 1),
            out@ == buckets_after(daily@, end as int, k as int),
        decreases daily.len() - k,
    {
        proof {
            lemma_buckets_len(daily@, end as int, k as int);
        }
        let d = &daily[k];
        match parse_day(d.day.as_str()) {
            Some(day) => {
                if day >= start && day <= end {
                    out.set((day - start) as usize, d.seconds / 60);
                }
            },
            None => {},
        }
        k += 1;
    }
    proof {
        lemma_buckets_len(daily@, end as int, k as int);
    }
    out
}

/// The sum of the buckets.
pub open spec fn total_of(s: Seq<i64>) -> int
    decreases s.len(),
{
    if s.len() == 0 {
        0
    } else {
        total_of(s.drop_last()) + s.last()
    }
}

/// Buckets with any activity.
pub open spec fn active_of(s: Seq<i64>) -> int
    decreases s.len(),
{
    if s.len() == 0 {
        0
    } else {
        active_of(s.drop_last()) + if s.last() > 0 {
            1int
        } else {
            0int
        }
    }
}

/// The first bucket holding the largest positive value, as (index, value);
/// `(0, 0)` when no bucket is positive.
pub open spec fn peak_of(s: Seq<i64>) -> (int, int)
    decreases s.len(),
{
    if s.len() == 0 {
        (0, 0)
    } else {
        let best = peak_of(s.drop_last());
        if s.last() > best.1 {
            ((s.len() - 1) as int, s.last() as int)
        } else {
            best
        }
    }
}

/// The spark's spoken summary.
pub open spec fn spark_summary_of(spark: Seq<i64>, as_of_day: Seq<char>, audio_only: bool) -> Seq<char> {
    let verb = if audio_only {
        "listened"@
    } else {
        "read"@
    };
    let head = "Minutes "@ + verb + " per day over the last "@ + count_label_of(
        spark.len() as int,
        "day"@,
    ) + ": "@;
    let total = total_of(spark);
    if total == 0 {
        head + "none."@
    } else {
        let summary = head + count_label_of(total, "minute"@) + " across "@ + count_label_of(
            active_of(spark),
            "day"@,
        );
        match parse_day_spec(as_of_day) {
            None => summary + "."@,
            Some(end) => {
                let (idx, peak) = peak_of(spark);
                let day = end - (spark.len() - 1) + idx;
                summary + ", most on "@ + short_date_of(day * 86_400) + " with "@ + count_label_of(
                    peak,
                    "minute"@,
                ) + "."@
            },
        }
    }
}

/// Every partial sum of the buckets fits an `i64`.
pub open spec fn sums_fit(s: Seq<i64>) -> bool {
    forall|k: int| 0 <= k <= s.len() ==> i64::MIN <= #[trigger] total_of(s.take(k)) <= i64::MAX
}

/// The spark's text alternative: window, total, active days and the
/// earliest busiest day, in a sentence.
pub fn spark_summary(spark: &[i64], as_of_day: &str, audio_only: bool) -> (out: String)
    requires
        spark.len() <= 1_000_000,
        sums_fit(spark@),
        day_year_in_range(as_of_day@),
        parse_day_spec(as_of_day@) matches Some(end) ==> -100_000_000_000_000 <= end <= 100_000_000_000_000,
    ensures
        out@ == spark_summary_of(spark@, as_of_day@, audio_only),
{
    let n = spark.len();
    let mut total: i64 = 0;
    let mut active: i64 = 0;
    let mut peak_idx: usize = 0;
    let mut peak: i64 = 0;
    let mut i: usize = 0;
    while i < n
        invariant
            i <= n == spark.len() <= 1_000_000,
            sums_fit(spark@),
            total as int == total_of(spark@.take(i as int)),
            active as int == active_of(spark@.take(i as int)),
            0 <= active <= i,
            (peak_idx as int, peak as int) == peak_of(spark@.take(i as int)),
            peak_idx <= i,
        decreases n - i,
    {
        proof {
            let t = spark@.take(i as int + 1);
            assert(t.drop_last() =~= spark@.take(i as int));
            assert(t.last() == spark@[i as int]);
            assert(i64::MIN <= total_of(t) <= i64::MAX);
        }
        let v = spark[i];
        total = total + v;
        if v > 0 {
            active = active + 1;
        }
        if v > peak {
            peak_idx = i;
            peak = v;
        }
        i += 1;
    }
    proof {
        assert(spark@.take(n as int) =~= spark@);
    }
    let mut out = string_of("Minutes ");
    push_str(&mut out, if audio_only { "listened" } else { "read" });
    push_str(&mut out, " per day over the last ");
    let window = count_label(n as i64, "day");
    push_str(&mut out, window.as_str());
    push_str(&mut out, ": ");
    proof {
        reveal_strlit("listened");
        reveal_strlit("read");
    }
    if total == 0 {
        push_str(&mut out, "none.");
        return out;
    }
    let t = count_label(total, "minute");
    push_str(&mut out, t.as_str());
    push_str(&mut out, " across ");
    let a = count_label(active, "day");
    push_str(&mut out, a.as_str());
    match parse_day(as_of_day) {
        None => {
            push_str(&mut out, ".");
            out
        },
        Some(end) => {
            let day = end - (n as i64 - 1) + peak_idx as i64;
            let date = short_date(day * 86_400, 0);
            push_str(&mut out, ", most on ");
            push_str(&mut out, date.as_str());
            push_str(&mut out, " with ");
            let p = count_label(peak, "minute");
            push_str(&mut out, p.as_str());
            push_str(&mut out, ".");
            out
        },
    }
}

} // verus!
