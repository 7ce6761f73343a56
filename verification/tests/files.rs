use omnibus_pages::files::{
    delete_label, dl_row_action, download_removable, download_subline, download_title,
    offline_section_shown, DlAction, DownloadStatus, file_picker_item_meta, file_picker_item_title, file_picker_menu,
    file_picker_panel, has_multi_file_format,
    is_audio_book_file, progress_pct, BookFileInfo, FilePickerKind,
};

fn file(format: &str, id: i64, ordinal: i64) -> BookFileInfo {
    BookFileInfo {
        id,
        format: format.to_string(),
        filename: format!("part-{ordinal}.{}", format.to_lowercase()),
        ordinal,
        label: None,
        size_bytes: 0,
        path: None,
        etag: None,
    }
}

#[test]
fn is_audio_book_file_matches_every_hls_audio_format_case_insensitively() {
    for fmt in ["M4B", "m4b", "M4A", "m4a", "MP3", "mp3"] {
        assert!(is_audio_book_file(&file(fmt, 1, 0)));
    }
}

#[test]
fn is_audio_book_file_rejects_non_audio_formats() {
    assert!(!is_audio_book_file(&file("EPUB", 1, 0)));
    assert!(!is_audio_book_file(&file("PDF", 1, 0)));
}

#[test]
fn is_audio_book_file_rejects_a_longer_name_with_an_audio_prefix() {
    assert!(!is_audio_book_file(&file("MP3X", 1, 0)));
    assert!(!is_audio_book_file(&file("", 1, 0)));
}

#[test]
fn file_picker_item_title_matches_the_read_and_listen_design_labels() {
    let mut epub = file("EPUB", 1, 0);
    epub.label = Some("10th anniversary".to_string());
    let mut audiobook = file("M4B", 2, 1);
    audiobook.label = Some("Full cast".to_string());

    assert_eq!(
        file_picker_item_title(&epub, FilePickerKind::Read),
        "EPUB · 10th anniversary"
    );
    assert_eq!(
        file_picker_item_title(&audiobook, FilePickerKind::Listen),
        "Audiobook · Full cast"
    );
}

#[test]
fn file_picker_item_title_upper_cases_the_format_and_numbers_unlabelled_parts() {
    let epub = file("epub", 1, 0);
    assert_eq!(file_picker_item_title(&epub, FilePickerKind::Read), "EPUB · Part 1");
    let mut blank = file("mp3", 2, 4);
    blank.label = Some("   ".to_string());
    assert_eq!(file_picker_item_title(&blank, FilePickerKind::Listen), "Audiobook · Part 5");
}

#[test]
fn file_picker_item_meta_formats_file_size_and_audio_label() {
    let mut epub = file("EPUB", 1, 0);
    epub.size_bytes = 3_100_000;
    let mut audiobook = file("M4B", 2, 1);
    audiobook.label = Some("Full cast".to_string());
    audiobook.size_bytes = 512_000_000;

    assert_eq!(
        file_picker_item_meta(&epub, FilePickerKind::Read, Some("3.1 MB".to_string())),
        Some("3.1 MB".to_string())
    );
    assert_eq!(
        file_picker_item_meta(&audiobook, FilePickerKind::Listen, Some("512.0 MB".to_string())),
        Some("Full cast · 512.0 MB".to_string())
    );
}

#[test]
fn file_picker_item_meta_is_absent_without_a_size_and_skips_the_label_for_reading() {
    let mut epub = file("EPUB", 1, 0);
    epub.label = Some("Annotated".to_string());
    assert_eq!(file_picker_item_meta(&epub, FilePickerKind::Listen, None), None);
    assert_eq!(
        file_picker_item_meta(&epub, FilePickerKind::Read, Some("1.0 KB".to_string())),
        Some("1.0 KB".to_string())
    );
}

#[test]
fn file_picker_kind_read_uses_the_read_route_prefix_and_testid() {
    assert_eq!(FilePickerKind::Read.route_prefix(), "read");
    assert_eq!(FilePickerKind::Read.testid(), "read-file-picker");
    assert_eq!(FilePickerKind::Read.aria_label(), "Choose which file to read");
}

#[test]
fn file_picker_kind_listen_uses_the_listen_route_prefix_and_testid() {
    assert_eq!(FilePickerKind::Listen.route_prefix(), "listen");
    assert_eq!(FilePickerKind::Listen.testid(), "listen-file-picker");
    assert_eq!(FilePickerKind::Listen.aria_label(), "Choose which file to listen to");
}

#[test]
fn has_multi_file_format_is_false_for_an_empty_file_list() {
    assert!(!has_multi_file_format(&[]));
}

#[test]
fn has_multi_file_format_is_false_when_every_format_has_one_file() {
    assert!(!has_multi_file_format(&[file("EPUB", 0, 0), file("M4B", 1, 1)]));
}

#[test]
fn has_multi_file_format_is_true_when_a_format_has_two_files() {
    assert!(has_multi_file_format(&[file("M4B", 0, 0), file("M4B", 1, 1)]));
}

#[test]
fn has_multi_file_format_is_true_when_only_one_of_several_formats_has_duplicates() {
    assert!(has_multi_file_format(&[
        file("EPUB", 0, 0),
        file("M4B", 1, 1),
        file("M4B", 2, 2),
    ]));
}

#[test]
fn has_multi_file_format_matches_formats_that_differ_only_by_ascii_case() {
    assert!(has_multi_file_format(&[file("M4B", 0, 0), file("m4b", 1, 1)]));
}

#[test]
fn progress_pct_clamps_and_falls_back_without_total() {
    assert_eq!(progress_pct(50, Some(200)), 25);
    assert_eq!(progress_pct(300, Some(200)), 100);
    assert_eq!(progress_pct(50, None), 6);
}

#[test]
fn progress_pct_rounds_down_and_floors_at_zero() {
    assert_eq!(progress_pct(1, Some(3)), 33);
    assert_eq!(progress_pct(-5, Some(10)), 0);
    assert_eq!(progress_pct(5, Some(0)), 6);
}

#[test]
fn delete_label_promises_files_only_when_there_are_files() {
    assert_eq!(delete_label(true), "Delete files\u{2026}");
    assert_eq!(delete_label(false), "Delete record\u{2026}");
}

#[test]
fn file_picker_menu_integrates_the_caret_into_the_action_for_multiple_files() {
    let html = file_picker_menu(
        "book-a",
        FilePickerKind::Listen,
        &[file("MP3", 1, 0), file("MP3", 2, 1)],
        &[None, None],
        "Start listening",
        "btn primary lg",
        "start-listening",
        false,
    );
    assert!(html.contains("data-testid=\"listen-file-picker-trigger\""));
    assert!(html.contains("Start listening"));
    assert!(html.contains("\u{25be}"));
    assert!(!html.contains("data-testid=\"start-listening\""));
}

#[test]
fn file_picker_menu_is_a_plain_link_for_a_single_file() {
    let html = file_picker_menu(
        "book-a",
        FilePickerKind::Read,
        &[file("EPUB", 1, 0)],
        &[None],
        "Start reading",
        "btn primary lg",
        "start-reading",
        true,
    );
    assert!(html.contains("href=\"/read/book-a\""));
    assert!(html.contains("data-testid=\"start-reading\""));
    assert!(!html.contains("read-file-picker"));
}

#[test]
fn file_picker_panel_lists_every_file_with_its_link() {
    let mut b = file("M4B", 8, 1);
    b.label = Some("Full cast".to_string());
    let html = file_picker_panel(
        "book-a",
        FilePickerKind::Listen,
        &[file("MP3", 7, 0), b],
        &[Some("1.0 MB".to_string()), None],
    );
    assert!(html.contains("2 files · choose one"));
    assert!(html.contains("href=\"/listen/book-a?file_id=7\""));
    assert!(html.contains("data-testid=\"listen-file-picker-item-8\""));
    assert!(html.contains("Audiobook · Part 1"));
    assert!(html.contains("Audiobook · Full cast"));
    assert!(html.contains("1.0 MB"));
    let open = file_picker_menu(
        "book-a",
        FilePickerKind::Listen,
        &[file("MP3", 7, 0), file("MP3", 9, 1)],
        &[None, None],
        "Listen",
        "btn",
        "start-listening",
        true,
    );
    assert!(open.contains("listen-file-picker-scrim"));
    assert!(open.contains("listen-file-picker-panel"));
}

#[test]
fn a_download_row_offers_the_action_its_state_allows() {
    assert_eq!(dl_row_action(&DownloadStatus::NotDownloaded, false), DlAction::Download);
    assert_eq!(
        dl_row_action(&DownloadStatus::Downloading { downloaded: 1, total: None }, false),
        DlAction::Busy
    );
    assert_eq!(
        dl_row_action(&DownloadStatus::Error { message: "x".to_string() }, true),
        DlAction::Retry
    );
    assert_eq!(dl_row_action(&DownloadStatus::Complete { bytes: 5 }, true), DlAction::Redownload);
    assert_eq!(dl_row_action(&DownloadStatus::Complete { bytes: 5 }, false), DlAction::Remove);
}

#[test]
fn the_offline_section_needs_a_format_and_permission() {
    assert!(offline_section_shown(true, false, None));
    assert!(!offline_section_shown(false, false, Some(true)));
    assert!(!offline_section_shown(true, true, Some(false)));
}

#[test]
fn a_downloads_row_names_the_book_and_its_state() {
    assert_eq!(download_title(""), "Untitled");
    assert_eq!(download_title("Dune"), "Dune");
    assert_eq!(
        download_subline("Ebook", &DownloadStatus::Complete { bytes: 1 }, "1.2 MB"),
        "Ebook · 1.2 MB"
    );
    assert_eq!(
        download_subline("Audiobook", &DownloadStatus::Downloading { downloaded: 1, total: None }, "3.0 KB"),
        "Audiobook · downloading … 3.0 KB"
    );
    assert_eq!(
        download_subline("Ebook", &DownloadStatus::Error { message: "disk full".to_string() }, ""),
        "Ebook · disk full"
    );
    assert_eq!(download_subline("Ebook", &DownloadStatus::NotDownloaded, ""), "Ebook");
    assert!(download_removable(&DownloadStatus::Complete { bytes: 1 }));
    assert!(!download_removable(&DownloadStatus::NotDownloaded));
}
