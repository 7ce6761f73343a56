use omnibus_pages::highlights::{
    highlight_locator, passages_kicker, percent_encode, reader_deep_link,
    render_highlight_card, render_highlights_section, Chapter, Highlight, HighlightColor,
};

fn locate(cfi: &str) -> Option<String> {
    highlight_locator(cfi, &Vec::new())
}

#[test]
fn highlight_locator_names_the_spine_section_for_a_range_cfi() {
    assert_eq!(
        locate("epubcfi(/6/14[chap03]!/4/2,/1:0,/1:120)"),
        Some("Section 7".to_string())
    );
}

#[test]
fn highlight_locator_reads_a_point_cfi_without_an_id_assertion() {
    assert_eq!(locate("epubcfi(/6/4!/4/2/2/1:15)"), Some("Section 2".to_string()));
}

#[test]
fn highlight_locator_tolerates_surrounding_whitespace() {
    assert_eq!(locate("  epubcfi(/6/8!/4)  "), Some("Section 4".to_string()));
}

#[test]
fn highlight_locator_returns_none_for_unparseable_input() {
    assert_eq!(locate(""), None);
    assert_eq!(locate("chapter 4, paragraph 2"), None);
    assert_eq!(locate("epubcfi(/6/14!/4/2"), None);
}

#[test]
fn highlight_locator_returns_none_when_the_spine_step_is_not_an_element() {
    assert_eq!(locate("epubcfi(/6/7!/4/2)"), None);
    assert_eq!(locate("epubcfi(/6/0!/4/2)"), None);
    assert_eq!(locate("epubcfi(/6/x!/4/2)"), None);
}

#[test]
fn highlight_locator_names_the_chapter_title_when_one_resolves() {
    let chapters = vec![
        Chapter {
            title: "Front".to_string(),
            spine_index: 0,
        },
        Chapter {
            title: "  Chapter 12: Inej ".to_string(),
            spine_index: 4,
        },
        Chapter {
            title: "   ".to_string(),
            spine_index: 9,
        },
    ];
    // Spine step 14 → ordinal 7 → 0-based 6: the chapter starting at 4.
    assert_eq!(
        highlight_locator("epubcfi(/6/14!/4)", &chapters),
        Some("Chapter 12: Inej".to_string())
    );
    // A blank title falls back to the section number.
    assert_eq!(
        highlight_locator("epubcfi(/6/20!/4)", &chapters),
        Some("Section 10".to_string())
    );
}

#[test]
fn passages_kicker_singularizes_and_reports_the_empty_case() {
    assert_eq!(passages_kicker(0), "Quotes \u{00b7} none saved");
    assert_eq!(passages_kicker(1), "Quotes \u{00b7} 1 saved passage");
    assert_eq!(passages_kicker(4), "Quotes \u{00b7} 4 saved passages");
}

#[test]
fn percent_encode_escapes_every_cfi_delimiter() {
    assert_eq!(
        percent_encode("epubcfi(/6/14[c]!/4,/1:0)"),
        "epubcfi%28%2F6%2F14%5Bc%5D%21%2F4%2C%2F1%3A0%29"
    );
}

#[test]
fn percent_encode_leaves_unreserved_characters_alone() {
    assert_eq!(
        percent_encode("a-Z_0.9~"),
        "a-Z_0.9~",
        "unreserved characters must survive verbatim"
    );
}

#[test]
fn percent_encode_escapes_multibyte_characters_per_utf8_byte() {
    assert_eq!(percent_encode("é"), "%C3%A9");
}

#[test]
fn reader_deep_link_encodes_the_cfi_into_the_query() {
    assert_eq!(
        reader_deep_link("book-uuid", "epubcfi(/6/14[chap03]!/4/2,/1:0,/1:12)"),
        "/read/book-uuid?cfi=epubcfi%28%2F6%2F14%5Bchap03%5D%21%2F4%2F2%2C%2F1%3A0%2C%2F1%3A12%29"
    );
}

fn seeded_highlight(note: Option<&str>, text: Option<&str>) -> Highlight {
    Highlight {
        id: 7,
        book_uuid: "book-uuid".to_string(),
        epub_cfi_range: Some("epubcfi(/6/14[chap03]!/4/2,/1:0,/1:12)".to_string()),
        color: HighlightColor::Violet,
        note: note.map(str::to_string),
        text: text.map(str::to_string),
        client_id: None,
        created_at: 1_779_019_200,
    }
}

#[test]
fn section_first_paint_shows_the_empty_state_before_the_post_mount_load() {
    let html = render_highlights_section(&Vec::new(), false, &Vec::new(), 0);
    assert!(html.contains("data-testid=\"highlights-section\""));
    assert!(html.contains("data-testid=\"highlights-empty\""));
    assert!(html.contains("Quotes \u{00b7} none saved"));
    assert!(!html.contains("data-testid=\"highlights-list\""));
}

#[test]
fn card_renders_the_quote_note_locator_and_deep_link() {
    let html = render_highlight_card(
        &seeded_highlight(Some("Worth revisiting"), Some("The Beauty of the House")),
        &Vec::new(),
        0,
    );
    assert!(html.contains("The Beauty of the House"));
    assert!(html.contains("Worth revisiting"));
    assert!(html.contains("Section 7 \u{00b7} saved May 17, 2026"));
    assert!(
        html.contains(
            "/read/book-uuid?cfi=epubcfi%28%2F6%2F14%5Bchap03%5D%21%2F4%2F2%2C%2F1%3A0%2C%2F1%3A12%29"
        ),
        "expected a cfi deep link, got: {html}"
    );
    assert!(html.contains("--hl-violet"));
}

#[test]
fn card_disables_copy_for_a_highlight_saved_before_the_text_column() {
    let html = render_highlight_card(&seeded_highlight(None, None), &Vec::new(), 0);
    assert!(html.contains("(highlighted passage)"));
    assert!(!html.contains("data-testid=\"highlight-note\""));
    let copy_idx = html
        .find("data-testid=\"highlight-copy\"")
        .expect("copy button rendered");
    let button_end = html[copy_idx..].find('>').expect("button tag closes") + copy_idx;
    assert!(
        html[copy_idx..button_end].contains("disabled"),
        "copy button should be disabled: {}",
        &html[copy_idx..button_end]
    );
}

#[test]
fn card_without_a_position_shows_the_date_alone_and_no_reader_link() {
    let mut h = seeded_highlight(None, Some("text"));
    h.epub_cfi_range = None;
    let html = render_highlight_card(&h, &Vec::new(), 0);
    assert!(html.contains(">saved May 17, 2026<"), "{html}");
    assert!(!html.contains("highlight-open"), "{html}");
    assert!(!html.contains("disabled"), "{html}");
}

#[test]
fn section_collapses_past_five_passages_until_expanded() {
    let list: Vec<Highlight> = (0..7).map(|_| seeded_highlight(None, Some("q"))).collect();
    let html = render_highlights_section(&list, false, &Vec::new(), 0);
    assert!(html.contains("Quotes \u{00b7} 7 saved passages"));
    assert_eq!(html.matches("data-testid=\"highlight-card\"").count(), 5);
    assert!(html.contains("Show 2 more \u{2193}"), "{html}");
    let html = render_highlights_section(&list, true, &Vec::new(), 0);
    assert_eq!(html.matches("data-testid=\"highlight-card\"").count(), 7);
    assert!(!html.contains("highlights-show-more"));
}
