//! The admin server-health page: how one poll's outcome merges into what
//! the page shows, and the markup of its index, search-index and
//! recent-errors cards.

use vstd::prelude::*;
use crate::dates::{fmt_utc_timestamp, utc_timestamp};
use crate::markup::{escaped, push_escaped};
use crate::num::{int_digits, nat_digits, push_i64, push_u64};
use crate::text::{push_str, string_of, to_chars, trim, trimmed};

verus! {

/// Milliseconds between two polls of the health report.
pub const POLL_INTERVAL_MS: u32 = 5_000;

// ── Polling ───────────────────────────────────────────────────────

/// Merges one poll's outcome: a report always replaces the shown one and
/// clears the error; a failure shows the error state only while there is
/// no report to keep showing.
pub fn apply_poll_result<R, E>(outcome: Result<R, E>, result: &mut Option<R>, error: &mut bool)
    ensures
        match outcome {
            Ok(r) => *final(result) == Some(r) && !*final(error),
            Err(_) => *final(result) == *old(result) && *final(error) == (*old(error) || (*old(
                result,
            )) is None),
        },
{
    match outcome {
        Ok(report) => {
            *result = Some(report);
            *error = false;
        },
        Err(_) => {
            if result.is_none() {
                *error = true;
            }
        },
    }
}

/// What the health page's body shows.
#[derive(Clone, Copy, Debug, PartialEq, Eq, Structural)]
pub enum HealthView {
    /// The viewer is no administrator.
    Forbidden,
    /// The first load failed and there is no report to show.
    Failed,
    /// No report yet.
    Loading,
    /// The report's cards.
    Report,
}

/// The page body: the access notice for a non-admin; for an admin the
/// error state wins, then the loading line until a report arrives.
pub fn health_view<R>(is_admin: bool, error: bool, result: &Option<R>) -> (v: HealthView)
    ensures
        v == (if !is_admin {
            HealthView::Forbidden
        } else if error {
            HealthView::Failed
        } else if result is None {
            HealthView::Loading
        } else {
            HealthView::Report
        }),
{
    if !is_admin {
        HealthView::Forbidden
    } else if error {
        HealthView::Failed
    } else if result.is_none() {
        HealthView::Loading
    } else {
        HealthView::Report
    }
}

// ── Index status ──────────────────────────────────────────────────

/// The library paths and row counts of the index.
#[derive(Clone, Debug)]
pub struct IndexStatus {
    pub ebook_library_path: Option<String>,
    pub audiobook_library_path: Option<String>,
    pub book_count: i64,
    pub author_count: i64,
    pub series_count: i64,
    pub ghosted_book_count: i64,
}

/// A configured path as shown: the path, or "Not configured" when absent
/// or blank.
pub open spec fn path_shown(path: Option<Seq<char>>) -> Seq<char> {
    match path {
        Some(p) if trim(p).len() > 0 => p,
        _ => "Not configured"@,
    }
}

/// The path an index row shows.
pub fn path_or_unconfigured(path: Option<&str>) -> (out: String)
    ensures
        out@ == path_shown(
            match path {
                Some(p) => Some(p@),
                None => None,
            },
        ),
{
    match path {
        Some(p) => {
            let v = to_chars(p);
            let t = trimmed(&v);
            if t.len() > 0 {
                string_of(p)
            } else {
                string_of("Not configured")
            }
        },
        None => string_of("Not configured"),
    }
}

/// One label/value row of a card.
pub open spec fn kv_row(label: Seq<char>, value: Seq<char>) -> Seq<char> {
    "<div class=\"ah-kv-row\"><span class=\"ah-kv-label\">"@ + label
        + "</span><span class=\"ah-kv-value\">"@ + escaped(value) + "</span></div>"@
}

fn push_kv_row(out: &mut String, label: &str, value: &str)
    ensures
        final(out)@ == old(out)@ + kv_row(label@, value@),
{
    let ghost start = out@;
    push_str(out, "<div class=\"ah-kv-row\"><span class=\"ah-kv-label\">");
    push_str(out, label);
    push_str(out, "</span><span class=\"ah-kv-value\">");
    push_escaped(out, value);
    push_str(out, "</span></div>");
    assert(out@ =~= start + kv_row(label@, value@));
}

/// The path an index row shows, for an optional `String`.
pub open spec fn opt_path(p: Option<String>) -> Seq<char> {
    path_shown(
        match p {
            Some(s) => Some(s@),
            None => None,
        },
    )
}

/// The index-status card.
pub open spec fn index_card(s: IndexStatus) -> Seq<char> {
    "<section class=\"card ah-card\" data-testid=\"admin-health-index-card\"><h2>Index status</h2><div class=\"ah-kv\">"@
        + kv_row("Ebook library"@, opt_path(s.ebook_library_path)) + kv_row(
        "Audiobook library"@,
        opt_path(s.audiobook_library_path),
    ) + kv_row("Books indexed"@, int_digits(s.book_count as int)) + kv_row(
        "Authors indexed"@,
        int_digits(s.author_count as int),
    ) + kv_row("Series indexed"@, int_digits(s.series_count as int)) + "</div>"@ + (if s.ghosted_book_count
        > 0 {
        "<p class=\"settings-status error\" data-testid=\"admin-health-ghosted-warning\">"@
            + int_digits(s.ghosted_book_count as int)
            + " book(s) have no file on disk (ghosted by a prior reindex).</p>"@
    } else {
        "<p class=\"settings-status success\" data-testid=\"admin-health-ghosted-ok\">No ghosted books.</p>"@
    }) + "</section>"@
}

fn count_text(n: i64) -> (out: String)
    ensures
        out@ == int_digits(n as int),
{
    let mut out = String::new();
    push_i64(&mut out, n);
    out
}

fn path_text(p: &Option<String>) -> (out: String)
    ensures
        out@ == opt_path(*p),
{
    match p {
        Some(s) => path_or_unconfigured(Some(s.as_str())),
        None => path_or_unconfigured(None),
    }
}

/// Markup of the index-status card.
pub fn index_status_card(status: &IndexStatus) -> (html: String)
    ensures
        html@ == index_card(*status),
{
    let mut out = string_of(
        "<section class=\"card ah-card\" data-testid=\"admin-health-index-card\"><h2>Index status</h2><div class=\"ah-kv\">",
    );
    let ghost start = out@;
    let p = path_text(&status.ebook_library_path);
    push_kv_row(&mut out, "Ebook library", p.as_str());
    let p = path_text(&status.audiobook_library_path);
    push_kv_row(&mut out, "Audiobook library", p.as_str());
    let c = count_text(status.book_count);
    push_kv_row(&mut out, "Books indexed", c.as_str());
    let c = count_text(status.author_count);
    push_kv_row(&mut out, "Authors indexed", c.as_str());
    let c = count_text(status.series_count);
    push_kv_row(&mut out, "Series indexed", c.as_str());
    push_str(&mut out, "</div>");
    if status.ghosted_book_count > 0 {
        push_str(
            &mut out,
            "<p class=\"settings-status error\" data-testid=\"admin-health-ghosted-warning\">",
        );
        push_i64(&mut out, status.ghosted_book_count);
        push_str(&mut out, " book(s) have no file on disk (ghosted by a prior reindex).</p>");
    } else {
        push_str(
            &mut out,
            "<p class=\"settings-status success\" data-testid=\"admin-health-ghosted-ok\">No ghosted books.</p>",
        );
    }
    push_str(&mut out, "</section>");
    assert(out@ =~= index_card(*status));
    out
}

// ── Search index ──────────────────────────────────────────────────

/// Row counts of the books table and its full-text index.
#[derive(Clone, Debug)]
pub struct FtsHealth {
    pub books_rows: i64,
    pub fts_rows: i64,
    pub in_sync: bool,
}

/// The search-index card.
pub open spec fn fts_card(f: FtsHealth) -> Seq<char> {
    "<section class=\"card ah-card\" data-testid=\"admin-health-fts-card\"><h2>Search index (FTS)</h2><div class=\"ah-kv\">"@
        + kv_row("Books rows"@, int_digits(f.books_rows as int)) + kv_row(
        "FTS rows"@,
        int_digits(f.fts_rows as int),
    ) + "</div>"@ + (if f.in_sync {
        "<p class=\"settings-status success\" data-testid=\"admin-health-fts-in-sync\">In sync.</p>"@
    } else {
        "<p class=\"settings-status error\" data-testid=\"admin-health-fts-out-of-sync\">Out of sync \u{2014} a rebuild is recommended (Settings \u{2192} Library).</p>"@
    }) + "</section>"@
}

/// Markup of the search-index card.
pub fn fts_health_card(fts: &FtsHealth) -> (html: String)
    ensures
        html@ == fts_card(*fts),
{
    let mut out = string_of(
        "<section class=\"card ah-card\" data-testid=\"admin-health-fts-card\"><h2>Search index (FTS)</h2><div class=\"ah-kv\">",
    );
    let c = count_text(fts.books_rows);
    push_kv_row(&mut out, "Books rows", c.as_str());
    let c = count_text(fts.fts_rows);
    push_kv_row(&mut out, "FTS rows", c.as_str());
    push_str(&mut out, "</div>");
    if fts.in_sync {
        push_str(
            &mut out,
            "<p class=\"settings-status success\" data-testid=\"admin-health-fts-in-sync\">In sync.</p>",
        );
    } else {
        push_str(
            &mut out,
            "<p class=\"settings-status error\" data-testid=\"admin-health-fts-out-of-sync\">Out of sync \u{2014} a rebuild is recommended (Settings \u{2192} Library).</p>",
        );
    }
    push_str(&mut out, "</section>");
    assert(out@ =~= fts_card(*fts));
    out
}

// ── Worker queue ──────────────────────────────────────────────────

/// One background-task kind in the worker queue: its two display labels
/// (while jobs of it are queued or running, and otherwise), how many are
/// queued or running, and the durations of its recent completions, oldest
/// first.
#[derive(Clone, Debug)]
pub struct WorkerQueueEntry {
    pub active_label: String,
    pub idle_label: String,
    pub queue_depth: u64,
    pub recent_completions_ms: Vec<u64>,
}

/// The label a row shows: the active one while anything is queued.
pub open spec fn worker_label(e: WorkerQueueEntry) -> Seq<char> {
    if e.queue_depth > 0 {
        e.active_label@
    } else {
        e.idle_label@
    }
}

/// The last-duration cell: the newest completion's milliseconds, or a dash.
pub open spec fn last_duration(ms: Seq<u64>) -> Seq<char> {
    if ms.len() == 0 {
        "\u{2014}"@
    } else {
        nat_digits(ms.last() as nat) + " ms"@
    }
}

/// One row of the worker table.
pub open spec fn worker_row(e: WorkerQueueEntry) -> Seq<char> {
    "<tr data-testid=\"admin-health-worker-row\"><td>"@ + escaped(worker_label(e)) + "</td><td>"@
        + nat_digits(e.queue_depth as nat) + "</td><td>"@ + nat_digits(
        e.recent_completions_ms@.len(),
    ) + "</td><td>"@ + last_duration(e.recent_completions_ms@) + "</td></tr>"@
}

/// The rows of `es`, in order.
pub open spec fn worker_rows(es: Seq<WorkerQueueEntry>) -> Seq<char>
    decreases es.len(),
{
    if es.len() == 0 {
        Seq::empty()
    } else {
        worker_rows(es.drop_last()) + worker_row(es.last())
    }
}

/// The worker-queue card: an empty-state line, or a table with a row per
/// task kind.
pub open spec fn worker_card(es: Seq<WorkerQueueEntry>) -> Seq<char> {
    "<section class=\"card ah-card\" data-testid=\"admin-health-worker-card\"><h2>Worker queue</h2>"@
        + (if es.len() == 0 {
        "<p class=\"settings-status\" data-testid=\"admin-health-worker-empty\">No active or recently completed background tasks.</p>"@
    } else {
        "<table class=\"users-table\" data-testid=\"admin-health-worker-table\"><thead><tr><th>Task</th><th>Queued / running</th><th>Recent completions</th><th>Last duration</th></tr></thead><tbody>"@
            + worker_rows(es) + "</tbody></table>"@
    }) + "</section>"@
}

fn push_worker_row(out: &mut String, e: &WorkerQueueEntry)
    ensures
        final(out)@ == old(out)@ + worker_row(*e),
{
    let ghost start = out@;
    push_str(out, "<tr data-testid=\"admin-health-worker-row\"><td>");
    if e.queue_depth > 0 {
        push_escaped(out, e.active_label.as_str());
    } else {
        push_escaped(out, e.idle_label.as_str());
    }
    push_str(out, "</td><td>");
    push_u64(out, e.queue_depth);
    push_str(out, "</td><td>");
    let n = e.recent_completions_ms.len();
    push_u64(out, n as u64);
    push_str(out, "</td><td>");
    if n == 0 {
        push_str(out, "\u{2014}");
    } else {
        push_u64(out, e.recent_completions_ms[n - 1]);
        push_str(out, " ms");
    }
    push_str(out, "</td></tr>");
    assert(out@ =~= start + worker_row(*e));
}

/// Markup of the worker-queue card.
pub fn worker_queue_card(entries: &Vec<WorkerQueueEntry>) -> (html: String)
    ensures
        html@ == worker_card(entries@),
{
    let mut out = string_of(
        "<section class=\"card ah-card\" data-testid=\"admin-health-worker-card\"><h2>Worker queue</h2>",
    );
    if entries.len() == 0 {
        push_str(
            &mut out,
            "<p class=\"settings-status\" data-testid=\"admin-health-worker-empty\">No active or recently completed background tasks.</p>",
        );
    } else {
        push_str(
            &mut out,
            "<table class=\"users-table\" data-testid=\"admin-health-worker-table\"><thead><tr><th>Task</th><th>Queued / running</th><th>Recent completions</th><th>Last duration</th></tr></thead><tbody>",
        );
        let ghost head = out@;
        let mut i: usize = 0;
        while i < entries.len()
            invariant
                i <= entries@.len(),
                out@ == head + worker_rows(entries@.take(i as int)),
            decreases entries.len() - i,
        {
            push_worker_row(&mut out, &entries[i]);
            proof {
                assert(entries@.take(i as int + 1).drop_last() =~= entries@.take(i as int));
            }
            i += 1;
        }
        proof {
            assert(entries@.take(entries@.len() as int) =~= entries@);
        }
        push_str(&mut out, "</tbody></table>");
    }
    push_str(&mut out, "</section>");
    assert(out@ =~= worker_card(entries@));
    out
}

// ── Recent errors ─────────────────────────────────────────────────

/// One server error captured in memory.
#[derive(Clone, Debug)]
pub struct CapturedError {
    pub timestamp: i64,
    pub target: String,
    pub message: String,
    pub book_uuid: Option<String>,
    pub file: Option<String>,
}

/// One line of the errors stream.
pub open spec fn error_line(e: CapturedError) -> Seq<char> {
    "<div class=\"logs-line\" data-testid=\"admin-health-errors-row\"><span class=\"logs-time\">"@
        + utc_timestamp(e.timestamp as int)
        + "</span> <span class=\"logs-level logs-level-error\">ERROR</span> <span class=\"logs-module-cell\">"@
        + escaped(e.target@) + "</span> <span class=\"logs-message\">"@ + escaped(e.message@)
        + "</span></div>"@
}

fn push_error_line(out: &mut String, e: &CapturedError)
    ensures
        final(out)@ == old(out)@ + error_line(*e),
{
    let ghost start = out@;
    push_str(
        out,
        "<div class=\"logs-line\" data-testid=\"admin-health-errors-row\"><span class=\"logs-time\">",
    );
    let ts = fmt_utc_timestamp(e.timestamp);
    push_str(out, ts.as_str());
    push_str(
        out,
        "</span> <span class=\"logs-level logs-level-error\">ERROR</span> <span class=\"logs-module-cell\">",
    );
    push_escaped(out, e.target.as_str());
    push_str(out, "</span> <span class=\"logs-message\">");
    push_escaped(out, e.message.as_str());
    push_str(out, "</span></div>");
    assert(out@ =~= start + error_line(*e));
}

/// The lines of `es`, in order.
pub open spec fn error_lines(es: Seq<CapturedError>) -> Seq<char>
    decreases es.len(),
{
    if es.len() == 0 {
        Seq::empty()
    } else {
        error_lines(es.drop_last()) + error_line(es.last())
    }
}

/// The recent-errors card: an empty-state line, or the stream newest
/// first as given.
pub open spec fn errors_card(es: Seq<CapturedError>) -> Seq<char> {
    "<section class=\"card ah-card\" data-testid=\"admin-health-errors-card\"><h2>Last errors</h2><p class=\"subtitle\">Most recent server errors captured in memory, newest first.</p>"@
        + (if es.len() == 0 {
        "<p class=\"settings-status\" data-testid=\"admin-health-errors-empty\">No errors captured since the server started.</p>"@
    } else {
        "<div class=\"logs-stream mono\" data-testid=\"admin-health-errors-table\" role=\"region\" aria-label=\"Recent server errors\">"@
            + error_lines(es) + "</div>"@
    }) + "</section>"@
}

/// Markup of the recent-errors card.
pub fn last_errors_card(entries: &Vec<CapturedError>) -> (html: String)
    ensures
        html@ == errors_card(entries@),
{
    let mut out = string_of(
        "<section class=\"card ah-card\" data-testid=\"admin-health-errors-card\"><h2>Last errors</h2><p class=\"subtitle\">Most recent server errors captured in memory, newest first.</p>",
    );
    let ghost head = out@;
    if entries.len() == 0 {
        push_str(
            &mut out,
            "<p class=\"settings-status\" data-testid=\"admin-health-errors-empty\">No errors captured since the server started.</p>",
        );
    } else {
        push_str(
            &mut out,
            "<div class=\"logs-stream mono\" data-testid=\"admin-health-errors-table\" role=\"region\" aria-label=\"Recent server errors\">",
        );
        let ghost open = out@;
        let mut i: usize = 0;
        while i < entries.len()
            invariant
                i <= entries@.len(),
                out@ == open + error_lines(entries@.take(i as int)),
            decreases entries.len() - i,
        {
            let ghost before = out@;
            push_error_line(&mut out, &entries[i]);
            proof {
                assert(entries@.take(i as int + 1).drop_last() =~= entries@.take(i as int));
            }
            i += 1;
        }
        proof {
            assert(entries@.take(entries.len() as int) =~= entries@);
        }
        push_str(&mut out, "</div>");
    }
    push_str(&mut out, "</section>");
    assert(out@ =~= errors_card(entries@));
    out
}

// ── Storage ───────────────────────────────────────────────────────

/// The storage card over its five figures, each already written out
/// (library content, covers, and the three caches with their caps).
pub open spec fn storage_card_of(
    library: Seq<char>,
    covers: Seq<char>,
    thumbs: Seq<char>,
    hls: Seq<char>,
    export_epub: Seq<char>,
) -> Seq<char> {
    "<section class=\"card ah-card\" data-testid=\"admin-health-storage-card\"><h2>Storage</h2><div class=\"ah-kv\">"@
        + kv_row("Library content"@, library) + kv_row("Covers"@, covers) + kv_row(
        "Thumbnail cache"@,
        thumbs,
    ) + kv_row("HLS transcode cache"@, hls) + kv_row("Export-EPUB cache"@, export_epub)
        + "</div></section>"@
}

/// Markup of the storage card.
pub fn storage_card(
    library: &str,
    covers: &str,
    thumbs: &str,
    hls: &str,
    export_epub: &str,
) -> (html: String)
    ensures
        html@ == storage_card_of(library@, covers@, thumbs@, hls@, export_epub@),
{
    let mut out = string_of(
        "<section class=\"card ah-card\" data-testid=\"admin-health-storage-card\"><h2>Storage</h2><div class=\"ah-kv\">",
    );
    push_kv_row(&mut out, "Library content", library);
    push_kv_row(&mut out, "Covers", covers);
    push_kv_row(&mut out, "Thumbnail cache", thumbs);
    push_kv_row(&mut out, "HLS transcode cache", hls);
    push_kv_row(&mut out, "Export-EPUB cache", export_epub);
    push_str(&mut out, "</div></section>");
    assert(out@ =~= storage_card_of(library@, covers@, thumbs@, hls@, export_epub@));
    out
}

// ── The page ──────────────────────────────────────────────────────

/// One health report: every card's data but the storage figures, whose
/// card arrives as markup (see `storage_card`).
pub struct HealthReport {
    pub index: IndexStatus,
    pub worker_queue: Vec<WorkerQueueEntry>,
    pub fts: FtsHealth,
    pub last_errors: Vec<CapturedError>,
}

/// The page's body for a report: the grid of cards, then the errors card.
pub open spec fn report_body(r: HealthReport, storage_card: Seq<char>) -> Seq<char> {
    "<div class=\"ah-grid\" data-testid=\"admin-health-grid\">"@ + index_card(r.index) + worker_card(
        r.worker_queue@,
    ) + fts_card(r.fts) + storage_card + "</div>"@ + errors_card(r.last_errors@)
}

/// The server-health page: its header, then the access notice, the error
/// or loading line, or the report's cards, as `health_view` decides.
pub open spec fn health_page(
    is_admin: bool,
    error: bool,
    report: Option<HealthReport>,
    storage_card: Seq<char>,
) -> Seq<char> {
    "<div class=\"ah-page\" data-testid=\"admin-health-page\"><header class=\"ah-head\"><h1>Server health</h1><p class=\"subtitle\">Index status, worker queue, search index, storage, and recent errors.</p></header>"@
        + (if !is_admin {
        "<p class=\"settings-status error\" data-testid=\"admin-health-forbidden\">Administrator access is required to view server health.</p>"@
    } else if error {
        "<p class=\"settings-status error\" role=\"status\" data-testid=\"admin-health-error\">Failed to load server health.</p>"@
    } else {
        match report {
            None => "<p class=\"settings-status\" role=\"status\" data-testid=\"admin-health-loading\">Loading\u{2026}</p>"@,
            Some(r) => report_body(r, storage_card),
        }
    }) + "</div>"@
}

/// Markup of the server-health page, given the storage card's markup.
#[allow(non_snake_case)]
pub fn AdminHealthPage(
    is_admin: bool,
    error: bool,
    report: &Option<HealthReport>,
    storage_card: &str,
) -> (html: String)
    ensures
        html@ == health_page(is_admin, error, *report, storage_card@),
{
    let mut out = string_of(
        "<div class=\"ah-page\" data-testid=\"admin-health-page\"><header class=\"ah-head\"><h1>Server health</h1><p class=\"subtitle\">Index status, worker queue, search index, storage, and recent errors.</p></header>",
    );
    match health_view(is_admin, error, report) {
        HealthView::Forbidden => push_str(
            &mut out,
            "<p class=\"settings-status error\" data-testid=\"admin-health-forbidden\">Administrator access is required to view server health.</p>",
        ),
        HealthView::Failed => push_str(
            &mut out,
            "<p class=\"settings-status error\" role=\"status\" data-testid=\"admin-health-error\">Failed to load server health.</p>",
        ),
        HealthView::Loading => push_str(
            &mut out,
            "<p class=\"settings-status\" role=\"status\" data-testid=\"admin-health-loading\">Loading\u{2026}</p>",
        ),
        HealthView::Report => {
            match report {
                Some(r) => {
                    push_str(&mut out, "<div class=\"ah-grid\" data-testid=\"admin-health-grid\">");
                    let c = index_status_card(&r.index);
                    push_str(&mut out, c.as_str());
                    let c = worker_queue_card(&r.worker_queue);
                    push_str(&mut out, c.as_str());
                    let c = fts_health_card(&r.fts);
                    push_str(&mut out, c.as_str());
                    push_str(&mut out, storage_card);
                    push_str(&mut out, "</div>");
                    let c = last_errors_card(&r.last_errors);
                    push_str(&mut out, c.as_str());
                },
                None => {},
            }
        },
    }
    push_str(&mut out, "</div>");
    assert(out@ =~= health_page(is_admin, error, *report, storage_card@));
    out
}

} // verus!
