use omnibus_pages::cta::{
    cta_actions, epub_size_for_cap, export_items, phys_badge, ExportItem, render_cta_row, render_cta_row_on, wishlist_badge, ComicOnlyHost,
    CtaAction, CtaFormats, CtaSurface, EpubAndComicHost,
};

fn formats(has_ebook: bool, has_audio: bool, has_comic: bool) -> CtaFormats {
    CtaFormats {
        has_ebook,
        has_audio,
        has_comic,
        epub_files: 0,
        audio_files: 0,
    }
}

fn marquee_row(has_ebook: bool, has_audio: bool) -> String {
    render_cta_row_on(
        "book-uuid",
        formats(has_ebook, has_audio, false),
        CtaSurface::Marquee {
            resume_reading: false,
            resume_listening: false,
        },
    )
}

#[test]
fn tests_immersive_cta_renders_when_book_has_both_ebook_and_audio() {
    let html = render_cta_row("book-uuid", true, true);
    assert!(html.contains("data-testid=\"immersive-read\""));
    assert!(html.contains("Immersive Read"));
    // The marquee row uses the design's terser label.
    let html = marquee_row(true, true);
    assert!(html.contains("data-testid=\"immersive-read\""));
    assert!(html.contains(">Immersive<"), "{html}");
}

#[test]
fn tests_immersive_cta_absent_when_book_has_ebook_only() {
    let html = render_cta_row("book-uuid", true, false);
    assert!(!html.contains("data-testid=\"immersive-read\""));
    let html = marquee_row(true, false);
    assert!(!html.contains("data-testid=\"immersive-read\""));
}

#[test]
fn tests_immersive_cta_absent_when_book_has_audio_only() {
    let html = render_cta_row("book-uuid", false, true);
    assert!(!html.contains("data-testid=\"immersive-read\""));
    let html = marquee_row(false, true);
    assert!(!html.contains("data-testid=\"immersive-read\""));
}

#[test]
fn tests_fileless_book_shows_no_files_disclaimer_and_hides_reading_ctas() {
    let html = render_cta_row("book-uuid", false, false);
    assert!(html.contains("data-testid=\"no-files-disclaimer\""));
    // No reading CTAs and no export menu for a book with no files.
    assert!(!html.contains("data-testid=\"start-reading\""));
    assert!(!html.contains("data-testid=\"start-listening\""));
    let html = marquee_row(false, false);
    assert!(html.contains("data-testid=\"no-files-disclaimer\""));
    assert!(!html.contains("data-testid=\"start-reading\""));
    assert!(!html.contains("data-testid=\"start-listening\""));
}

#[test]
fn tests_book_with_files_shows_no_disclaimer() {
    let html = render_cta_row("book-uuid", true, false);
    assert!(!html.contains("data-testid=\"no-files-disclaimer\""));
    let html = marquee_row(true, false);
    assert!(!html.contains("data-testid=\"no-files-disclaimer\""));
}

#[test]
fn tests_comic_only_book_shows_the_pager_cta_instead_of_the_disclaimer() {
    let html = ComicOnlyHost("book-uuid");
    assert!(html.contains("data-testid=\"start-reading-comic\""), "{html}");
    assert!(html.contains("/comic/book-uuid"), "{html}");
    assert!(!html.contains("data-testid=\"no-files-disclaimer\""), "{html}");
}

#[test]
fn tests_epub_primary_wins_over_the_comic_cta_when_both_formats_exist() {
    let html = EpubAndComicHost("book-uuid");
    assert!(html.contains("data-testid=\"start-reading\""), "{html}");
    assert!(!html.contains("data-testid=\"start-reading-comic\""), "{html}");
}

#[test]
fn resume_verbs_take_over_once_a_position_exists() {
    let html = render_cta_row_on(
        "book-uuid",
        formats(true, false, false),
        CtaSurface::Marquee {
            resume_reading: true,
            resume_listening: false,
        },
    );
    assert!(html.contains("Resume reading"), "{html}");
}

#[test]
fn cta_plan_of_a_dual_format_book_lists_every_action_in_order() {
    assert_eq!(
        cta_actions(true, true, false),
        vec![
            CtaAction::StartReading,
            CtaAction::ListenSecondary,
            CtaAction::ImmersiveRead,
            CtaAction::Export
        ]
    );
    assert_eq!(
        cta_actions(false, false, false),
        vec![CtaAction::NoFilesDisclaimer]
    );
}

#[test]
fn cta_row_links_a_single_file_and_pickers_several() {
    let html = render_cta_row_on(
        "b",
        CtaFormats {
            has_ebook: true,
            has_audio: true,
            has_comic: false,
            epub_files: 1,
            audio_files: 3,
        },
        CtaSurface::Hero,
    );
    assert!(html.contains("<a href=\"/read/b\" class=\"btn primary lg\" data-testid=\"start-reading\">Start reading</a>"));
    assert!(html.contains("data-testid=\"listen-file-picker-trigger\""));
    assert!(!html.contains("data-testid=\"listen-secondary\""));
}

#[test]
fn cta_row_escapes_the_uuid_in_links() {
    let html = render_cta_row("a\"b<c", true, false);
    assert!(html.contains("/read/a&quot;b&lt;c\""));
}

#[test]
fn hero_immersive_cta_renders_when_book_has_both_ebook_and_audio() {
    let html = render_cta_row("book-uuid", true, true);
    assert!(html.contains("data-testid=\"immersive-read\""));
    assert!(html.contains("Immersive Read"));
}

#[test]
fn hero_immersive_cta_absent_when_book_has_ebook_only() {
    let html = render_cta_row("book-uuid", true, false);
    assert!(!html.contains("data-testid=\"immersive-read\""));
}

#[test]
fn hero_immersive_cta_absent_when_book_has_audio_only() {
    let html = render_cta_row("book-uuid", false, true);
    assert!(!html.contains("data-testid=\"immersive-read\""));
}

#[test]
fn hero_fileless_book_shows_no_files_disclaimer_and_hides_reading_ctas() {
    let html = render_cta_row("book-uuid", false, false);
    assert!(html.contains("data-testid=\"no-files-disclaimer\""));
    assert!(!html.contains("data-testid=\"start-reading\""));
    assert!(!html.contains("data-testid=\"start-listening\""));
}

#[test]
fn hero_book_with_files_shows_no_disclaimer() {
    let html = render_cta_row("book-uuid", true, false);
    assert!(!html.contains("data-testid=\"no-files-disclaimer\""));
}

#[test]
fn hero_phys_badge_renders_its_testid_and_label() {
    let html = phys_badge();
    assert!(html.contains("data-testid=\"format-badge-physical\""));
    assert!(html.contains("Physical"));
}

#[test]
fn hero_wishlist_badge_renders_its_testid_and_label() {
    let html = wishlist_badge();
    assert!(html.contains("data-testid=\"format-badge-wishlist\""));
    assert!(html.contains("Physical Wishlist"));
}

#[test]
fn tests_phys_badge_renders_its_testid_and_label() {
    let html = phys_badge();
    assert!(html.contains("data-testid=\"format-badge-physical\""));
    assert!(html.contains("Physical"));
}

#[test]
fn tests_wishlist_badge_renders_its_testid_and_label() {
    let html = wishlist_badge();
    assert!(html.contains("data-testid=\"format-badge-wishlist\""));
    assert!(html.contains("Physical Wishlist"));
}

#[test]
fn the_export_menu_offers_downloads_then_sends_for_an_epub() {
    assert_eq!(
        export_items(true, true, false),
        vec![
            ExportItem::DownloadEpub,
            ExportItem::DownloadAudio,
            ExportItem::SendToKindle,
            ExportItem::SendToKobo
        ]
    );
    assert_eq!(export_items(false, true, true), vec![ExportItem::DownloadAudio]);
    assert_eq!(
        export_items(true, false, true),
        vec![ExportItem::DownloadEpub, ExportItem::KindleTooLarge, ExportItem::SendToKobo]
    );
    assert_eq!(epub_size_for_cap(Some(-1)), None);
    assert_eq!(epub_size_for_cap(Some(12)), Some(12));
    assert_eq!(epub_size_for_cap(None), None);
}
