use omnibus_pages::journal::{
    journal_excerpt, journal_kicker, journal_readers, render_draft_row, render_ladder_row,
    render_row, w4_journal_kicker, w4_kicker_for, JournalEntry, JournalStatus, RowHost,
    LADDER_EXCERPT_CHARS, should_show_more_button, highlight_blockquote, entry_meta_line,
};

#[test]
fn journal_excerpt_takes_the_first_non_empty_line_and_strips_markup() {
    assert_eq!(
        journal_excerpt("\n\n## **A held** breath\nsecond line"),
        "A held breath"
    );
}

#[test]
fn journal_excerpt_masks_spoiler_spans_so_they_never_reach_the_row() {
    assert_eq!(
        journal_excerpt("she ||dies|| in chapter four"),
        "she \u{2588}\u{2588}\u{2588} in chapter four"
    );
}

#[test]
fn journal_excerpt_truncates_past_the_row_cap() {
    let long = "x".repeat(LADDER_EXCERPT_CHARS + 40);
    let out = journal_excerpt(&long);
    assert_eq!(out.chars().count(), LADDER_EXCERPT_CHARS + 1);
    assert!(out.ends_with('\u{2026}'));
}

#[test]
fn journal_excerpt_drops_list_bullets_and_blocks_an_unclosed_spoiler() {
    assert_eq!(journal_excerpt("- - item"), "item");
    assert_eq!(journal_excerpt("a ||b"), "a \u{2588}\u{2588}\u{2588}");
    assert_eq!(journal_excerpt("   \n\t\n"), "");
    assert_eq!(journal_excerpt("> `quoted`"), "quoted");
}

fn seeded_entry() -> JournalEntry {
    JournalEntry {
        id: 7,
        book_uuid: "book-uuid".to_string(),
        author_id: 3,
        author_name: "Mira Reyes".to_string(),
        author_has_avatar: false,
        body_md: "The footnotes have footnotes.".to_string(),
        body_html: "<p>The footnotes have footnotes.</p>".to_string(),
        progress: Some(42),
        status: JournalStatus::Published,
        client_id: None,
        created_at: 1_779_019_200,
        updated_at: 1_779_019_200,
    }
}

#[test]
fn ladder_row_carries_the_byline_the_excerpt_and_the_read_affordance() {
    let html = RowHost(&seeded_entry(), Some(3), false, 0);
    assert!(html.contains("data-testid=\"journal-ladder-row\""), "{html}");
    assert!(html.contains("Mira Reyes"), "{html}");
    assert!(html.contains("you"), "{html}");
    assert!(html.contains("May 17, 2026 \u{b7} at 42%"), "{html}");
    assert!(html.contains("The footnotes have footnotes."), "{html}");
    assert!(html.contains("read \u{2192}"), "{html}");
    assert!(!html.contains("tap to open the full entry"), "{html}");
    assert_eq!(html, render_row(&seeded_entry(), Some(3)));
}

#[test]
fn ladder_row_marks_a_draft_and_drops_the_progress_stamp_when_absent() {
    let html = render_draft_row(&seeded_entry(), None);
    assert!(html.contains("data-testid=\"journal-draft-chip-row\""), "{html}");
    assert!(html.contains("May 17, 2026"), "{html}");
    assert!(!html.contains("at 42%"), "{html}");
    assert!(!html.contains("\u{b7} you"), "{html}");
}

#[test]
fn ladder_row_dates_on_the_viewers_calendar_once_it_is_known() {
    let mut e = seeded_entry();
    e.created_at = 1_786_586_400;
    assert!(RowHost(&e, None, false, -4 * 3_600).contains("August 13, 2026"));
    assert!(RowHost(&e, None, true, -4 * 3_600).contains("August 12, 2026"));
    assert!(render_ladder_row(&e, None, -4 * 3_600).contains("August 12, 2026"));
}

#[test]
fn ladder_row_escapes_the_author_and_shows_a_monogram_without_an_avatar() {
    let mut e = seeded_entry();
    e.author_name = "<b>eve</b>".to_string();
    let html = render_row(&e, None);
    assert!(html.contains("&lt;b&gt;eve&lt;/b&gt;"), "{html}");
    assert!(html.contains(">&lt;</span>"), "{html}");
    e.author_has_avatar = true;
    assert!(render_row(&e, None).contains("/api/users/3/avatar\""));
}

#[test]
fn w4_journal_kicker_counts_entries_readers_and_drafts() {
    assert_eq!(w4_journal_kicker(0, 0, 0, true), "The journal \u{b7} empty");
    assert_eq!(
        w4_journal_kicker(0, 0, 0, false),
        "The journal \u{b7} no entries yet"
    );
    assert_eq!(
        w4_journal_kicker(1, 1, 0, false),
        "The journal \u{b7} 1 entry from 1 reader"
    );
    assert_eq!(
        w4_journal_kicker(3, 2, 2, false),
        "The journal \u{b7} 3 entries from 2 readers \u{b7} 2 drafts"
    );
    assert_eq!(
        w4_journal_kicker(0, 1, 1, false),
        "The journal \u{b7} 0 entries from 1 reader \u{b7} 1 draft"
    );
}

#[test]
fn journal_kicker_counts_distinct_readers() {
    assert_eq!(journal_kicker(&[]), "Reading journal \u{b7} no entries yet");
    let a = seeded_entry();
    let mut b = seeded_entry();
    b.id = 8;
    let mut c = seeded_entry();
    c.id = 9;
    c.author_id = 5;
    c.status = JournalStatus::Draft;
    assert_eq!(
        journal_kicker(&[a.clone()]),
        "Reading journal \u{b7} 1 entry from 1 reader"
    );
    assert_eq!(
        journal_kicker(&[a.clone(), b.clone(), c.clone()]),
        "Reading journal \u{b7} 3 entries from 2 readers"
    );
    assert_eq!(journal_readers(&[c.clone(), a.clone(), b.clone()]), vec![5, 3]);
    assert_eq!(
        w4_kicker_for(&[a, b, c], false),
        "The journal \u{b7} 2 entries from 2 readers \u{b7} 1 draft"
    );
}

#[test]
fn shows_more_for_long_markdown() {
    let long = "x".repeat(901);
    assert!(should_show_more_button(&long));
    let multiline = (0..13).map(|_| "line").collect::<Vec<_>>().join("\n");
    assert!(should_show_more_button(&multiline));
}

#[test]
fn skips_show_more_for_short_markdown() {
    assert!(!should_show_more_button("Short entry"));
    let exactly_twelve = (0..12).map(|_| "line").collect::<Vec<_>>().join("\n");
    assert!(!should_show_more_button(&exactly_twelve));
}

#[test]
fn show_more_counts_trimmed_characters_and_ignores_a_final_newline() {
    let padded = format!("   {}   ", "x".repeat(900));
    assert!(!should_show_more_button(&padded));
    let twelve_with_newline = format!("{}\n", (0..12).map(|_| "l").collect::<Vec<_>>().join("\n"));
    assert!(!should_show_more_button(&twelve_with_newline));
}

#[test]
fn highlight_blockquote_quotes_each_line_and_credits_the_highlights() {
    assert_eq!(
        highlight_blockquote("It was a dark\r\nand stormy night"),
        "\n> It was a dark\n> and stormy night\n>\n> \u{2014} saved from highlights\n"
    );
    assert_eq!(highlight_blockquote(""), "\n\n>\n> \u{2014} saved from highlights\n");
}

#[test]
fn an_entry_card_dates_the_entry_and_names_its_position() {
    let e = seeded_entry();
    assert_eq!(entry_meta_line(&e, 0), "May 17, 2026 · at 42%");
    let mut no_pos = seeded_entry();
    no_pos.progress = None;
    assert_eq!(entry_meta_line(&no_pos, 0), "May 17, 2026");
}
