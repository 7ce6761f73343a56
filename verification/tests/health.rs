use omnibus_pages::health::{
    apply_poll_result, fts_health_card, index_status_card, last_errors_card, path_or_unconfigured,
    CapturedError, FtsHealth, IndexStatus, worker_queue_card, WorkerQueueEntry, health_view, HealthView, storage_card, AdminHealthPage, HealthReport,
};

#[test]
fn path_or_unconfigured_reports_the_path_when_present() {
    assert_eq!(path_or_unconfigured(Some("/library")), "/library");
}

#[test]
fn path_or_unconfigured_falls_back_when_absent_or_blank() {
    assert_eq!(path_or_unconfigured(None), "Not configured");
    assert_eq!(path_or_unconfigured(Some("   ")), "Not configured");
}

fn index_status() -> IndexStatus {
    IndexStatus {
        ebook_library_path: Some("/lib/ebooks".into()),
        audiobook_library_path: None,
        book_count: 42,
        author_count: 7,
        series_count: 3,
        ghosted_book_count: 0,
    }
}

#[test]
fn index_status_card_renders_paths_and_counts() {
    let html = index_status_card(&index_status());
    assert!(html.contains("data-testid=\"admin-health-index-card\""));
    assert!(html.contains("/lib/ebooks"));
    assert!(html.contains("Not configured"));
    assert!(html.contains("42"));
    assert!(html.contains("data-testid=\"admin-health-ghosted-ok\""));
    assert!(!html.contains("admin-health-ghosted-warning"));
}

#[test]
fn index_status_card_warns_when_books_are_ghosted() {
    let mut status = index_status();
    status.ghosted_book_count = 2;
    let html = index_status_card(&status);
    assert!(html.contains("data-testid=\"admin-health-ghosted-warning\""));
    assert!(html.contains("2 book(s) have no file on disk"));
}

#[test]
fn fts_health_card_reports_in_sync() {
    let fts = FtsHealth { books_rows: 10, fts_rows: 10, in_sync: true };
    let html = fts_health_card(&fts);
    assert!(html.contains("data-testid=\"admin-health-fts-in-sync\""));
    assert!(!html.contains("admin-health-fts-out-of-sync"));
}

#[test]
fn fts_health_card_reports_out_of_sync() {
    let fts = FtsHealth { books_rows: 10, fts_rows: 4, in_sync: false };
    let html = fts_health_card(&fts);
    assert!(html.contains("data-testid=\"admin-health-fts-out-of-sync\""));
    assert!(html.contains("rebuild is recommended"));
}

#[test]
fn last_errors_card_renders_empty_state() {
    let html = last_errors_card(&Vec::new());
    assert!(html.contains("data-testid=\"admin-health-errors-empty\""));
}

#[test]
fn last_errors_card_renders_a_row_per_entry() {
    let entries = vec![CapturedError {
        timestamp: 1_700_000_000,
        target: "omnibus::test".into(),
        message: "boom".into(),
        book_uuid: None,
        file: None,
    }];
    let html = last_errors_card(&entries);
    assert!(html.contains("data-testid=\"admin-health-errors-table\""));
    assert!(html.contains("boom"));
    assert!(html.contains("2023-11-14 22:13:20 UTC"));
}

#[test]
fn last_errors_card_escapes_the_message() {
    let entries = vec![CapturedError {
        timestamp: 0,
        target: "t".into(),
        message: "<b>&</b>".into(),
        book_uuid: None,
        file: None,
    }];
    let html = last_errors_card(&entries);
    assert!(html.contains("&lt;b&gt;&amp;&lt;/b&gt;"));
    assert!(html.contains("1970-01-01 00:00:00 UTC"));
}

#[test]
fn a_failed_poll_keeps_the_last_report_and_only_errors_on_first_load() {
    let mut result: Option<u32> = None;
    let mut error = false;
    apply_poll_result::<u32, ()>(Err(()), &mut result, &mut error);
    assert_eq!(result, None);
    assert!(error);
    apply_poll_result::<u32, ()>(Ok(7), &mut result, &mut error);
    assert_eq!(result, Some(7));
    assert!(!error);
    apply_poll_result::<u32, ()>(Err(()), &mut result, &mut error);
    assert_eq!(result, Some(7));
    assert!(!error);
}

#[test]
fn worker_queue_card_renders_empty_state_when_no_entries() {
    let html = worker_queue_card(&Vec::new());
    assert!(html.contains("data-testid=\"admin-health-worker-empty\""));
    assert!(!html.contains("admin-health-worker-table"));
}

#[test]
fn worker_queue_card_renders_a_row_per_entry() {
    // The library scan, with one job running.
    let entries = vec![WorkerQueueEntry {
        active_label: "Scanning library".to_string(),
        idle_label: "Library scan".to_string(),
        queue_depth: 1,
        recent_completions_ms: vec![120, 340],
    }];
    let html = worker_queue_card(&entries);
    assert!(html.contains("data-testid=\"admin-health-worker-table\""));
    assert!(html.contains("Scanning library"));
    assert!(html.contains("340 ms"));
}

#[test]
fn worker_row_uses_the_idle_label_and_a_dash_when_nothing_ran() {
    let entries = vec![WorkerQueueEntry {
        active_label: "Scanning library".to_string(),
        idle_label: "Library scan".to_string(),
        queue_depth: 0,
        recent_completions_ms: Vec::new(),
    }];
    let html = worker_queue_card(&entries);
    assert!(html.contains(
        "<tr data-testid=\"admin-health-worker-row\"><td>Library scan</td><td>0</td><td>0</td><td>\u{2014}</td></tr>"
    ));
    assert!(!html.contains("Scanning library"));
}

#[test]
fn health_view_puts_admin_before_error_before_report() {
    let none: Option<u8> = None;
    assert_eq!(health_view(false, true, &Some(1u8)), HealthView::Forbidden);
    assert_eq!(health_view(true, true, &Some(1u8)), HealthView::Failed);
    assert_eq!(health_view(true, false, &none), HealthView::Loading);
    assert_eq!(health_view(true, false, &Some(1u8)), HealthView::Report);
}

#[test]
fn storage_card_lists_every_figure_under_its_label() {
    let html = storage_card("3.1 MB", "512 B", "1.0 KB / 5.0 GB cap", "0 B / 5.0 GB cap", "2.0 KB / 5.0 GB cap");
    assert!(html.contains("data-testid=\"admin-health-storage-card\""));
    assert!(html.contains(
        "<div class=\"ah-kv-row\"><span class=\"ah-kv-label\">Library content</span><span class=\"ah-kv-value\">3.1 MB</span></div>"
    ));
    assert!(html.contains("512 B"));
    assert!(html.contains("1.0 KB / 5.0 GB cap"));
    assert!(html.contains("0 B / 5.0 GB cap"));
    assert!(html.contains("2.0 KB / 5.0 GB cap"));
}

fn report() -> HealthReport {
    HealthReport {
        index: index_status(),
        worker_queue: Vec::new(),
        fts: FtsHealth { books_rows: 10, fts_rows: 10, in_sync: true },
        last_errors: Vec::new(),
    }
}

#[test]
fn admin_health_page_shows_the_body_its_state_calls_for() {
    let forbidden = AdminHealthPage(false, false, &Some(report()), "");
    assert!(forbidden.contains("data-testid=\"admin-health-forbidden\""));
    assert!(!forbidden.contains("admin-health-grid"));
    let failed = AdminHealthPage(true, true, &None, "");
    assert!(failed.contains("data-testid=\"admin-health-error\""));
    let loading = AdminHealthPage(true, false, &None, "");
    assert!(loading.contains("data-testid=\"admin-health-loading\""));
    let page = AdminHealthPage(true, false, &Some(report()), "<section>storage</section>");
    assert!(page.contains("data-testid=\"admin-health-grid\""));
    assert!(page.contains("data-testid=\"admin-health-index-card\""));
    assert!(page.contains("data-testid=\"admin-health-worker-empty\""));
    assert!(page.contains("data-testid=\"admin-health-fts-in-sync\""));
    assert!(page.contains("<section>storage</section>"));
    assert!(page.contains("data-testid=\"admin-health-errors-empty\""));
    assert!(page.starts_with("<div class=\"ah-page\" data-testid=\"admin-health-page\">"));
}
