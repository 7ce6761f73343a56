use omnibus_pages::author::{
    author_accent, author_initial, delete_body, delete_title, group_books_by_series,
    split_name, AuthorDeleteState,
};
use omnibus_pages::book::{
    stars_row,
    build_crumbs, is_same_book, kicker_label, other_author_books, poll_step, series_label, Book,
    AfterDelete, BookPageState, Contributor, CrumbTarget, PageView, PollAction, PollReply,
    RailDialogs,
};
use omnibus_pages::discovery::{
    list_count_label, same_hand_author_label, same_hand_title, same_hand_year,
    suggestion_cover_book, BookSuggestion,
};

fn book() -> Book {
    Book {
        unique_identifier: None,
        title: None,
        filename: String::new(),
        creators: Vec::new(),
        series: None,
        series_id: None,
        series_index: None,
        published: None,
        genres: Vec::new(),
        accent: None,
        description: None,
    }
}

#[test]
fn kicker_label_renders_year_when_present() {
    assert_eq!(kicker_label("2021"), "Book · 2021");
}

#[test]
fn kicker_label_falls_back_to_book_when_year_empty() {
    assert_eq!(kicker_label(""), "Book");
}

#[test]
fn series_label_formats_name_and_index() {
    assert_eq!(series_label(Some("Dune"), Some("2")), Some("Dune #2".into()));
}

#[test]
fn series_label_without_index_is_just_name() {
    assert_eq!(series_label(Some("Dune"), None), Some("Dune".into()));
}

#[test]
fn series_label_absent_series_is_none() {
    assert_eq!(series_label(None, Some("2")), None);
    assert_eq!(series_label(None, None), None);
}

#[test]
fn crumbs_run_home_author_series_title_with_their_links() {
    let mut b = book();
    b.creators = vec![Contributor {
        name: "Frank Herbert".into(),
        id: Some(9),
    }];
    b.series_id = Some(4);
    let crumbs = build_crumbs(&b, "Dune Messiah", "Frank Herbert", &Some("Dune #2".into()));
    let texts: Vec<&str> = crumbs.iter().map(|c| c.text.as_str()).collect();
    assert_eq!(texts, ["Home", "Frank Herbert", "Dune #2", "Dune Messiah"]);
    assert_eq!(crumbs[0].target, Some(CrumbTarget::Landing));
    assert_eq!(crumbs[1].target, Some(CrumbTarget::AuthorDetail { id: 9 }));
    assert_eq!(crumbs[2].target, Some(CrumbTarget::SeriesDetail { id: 4 }));
    assert_eq!(crumbs[3].target, None);
    let crumbs = build_crumbs(&book(), "Untitled", "", &None);
    assert_eq!(crumbs.len(), 2);
}

#[test]
fn the_author_rail_leaves_out_the_book_on_the_page() {
    let mut a = book();
    a.unique_identifier = Some("a".into());
    let mut b = book();
    b.unique_identifier = Some("b".into());
    let mut c = book();
    c.unique_identifier = Some("c".into());
    let others = other_author_books(vec![a, b, c], &Some("b".into()));
    let ids: Vec<&str> = others
        .iter()
        .map(|b| b.unique_identifier.as_deref().unwrap())
        .collect();
    assert_eq!(ids, ["a", "c"]);
    let mut shown = book();
    shown.unique_identifier = Some("b".into());
    assert!(is_same_book(&Some(shown), "b"));
    assert!(!is_same_book(&None, "b"));
}

#[test]
fn the_suggestions_poll_retries_a_pending_lookup_five_times_at_most() {
    assert_eq!(poll_step(1, 1, PollReply::Pending, 0, true), PollAction::ShowAndRetry);
    assert_eq!(poll_step(1, 1, PollReply::Pending, 4, true), PollAction::ShowAndRetry);
    assert_eq!(poll_step(1, 1, PollReply::Pending, 5, true), PollAction::ShowAndStop);
    assert_eq!(poll_step(1, 1, PollReply::Pending, 0, false), PollAction::ShowAndStop);
    assert_eq!(poll_step(1, 1, PollReply::Ready, 0, true), PollAction::ShowAndStop);
    assert_eq!(poll_step(1, 1, PollReply::Failed, 2, true), PollAction::ShowEmptyAndStop);
    assert_eq!(poll_step(1, 2, PollReply::Ready, 0, true), PollAction::Drop);
}

#[test]
fn same_hand_title_prefers_title_over_filename() {
    let mut b = book();
    b.title = Some("Piranesi".into());
    b.filename = "piranesi.epub".into();
    assert_eq!(same_hand_title(&b), "Piranesi");
}

#[test]
fn same_hand_title_falls_back_to_filename_when_title_blank() {
    for title in [None, Some("".into()), Some("   ".into())] {
        let mut b = book();
        b.title = title;
        b.filename = "dune.epub".into();
        assert_eq!(same_hand_title(&b), "dune.epub");
    }
}

#[test]
fn same_hand_year_extracts_four_digit_prefix() {
    let mut b = book();
    b.published = Some("2020-09-15".into());
    assert_eq!(same_hand_year(&b), Some("2020".to_string()));
}

#[test]
fn same_hand_year_is_none_when_missing_or_too_short() {
    assert_eq!(same_hand_year(&book()), None);
    let mut short = book();
    short.published = Some("20".into());
    assert_eq!(same_hand_year(&short), None);
    // Four bytes that end inside a character are no year either.
    let mut split = book();
    split.published = Some("123é".into());
    assert_eq!(same_hand_year(&split), None);
}

#[test]
fn same_hand_author_label_uses_surname_when_present() {
    assert_eq!(same_hand_author_label("Ada Lovelace"), "Lovelace");
    assert_eq!(same_hand_author_label("Homer"), "Homer");
    assert_eq!(same_hand_author_label(" Ursula K. Le Guin \n"), "Guin");
}

#[test]
fn same_hand_author_label_falls_back_when_author_blank() {
    assert_eq!(same_hand_author_label(""), "this author");
    assert_eq!(same_hand_author_label("   "), "this author");
}

#[test]
fn list_count_label_is_singular_for_one() {
    assert_eq!(list_count_label(1), "on 1 list");
    assert_eq!(list_count_label(0), "on 0 lists");
    assert_eq!(list_count_label(7), "on 7 lists");
}

#[test]
fn suggestion_cover_book_carries_title_and_author() {
    let s = BookSuggestion {
        title: "Piranesi".into(),
        author: "Susanna Clarke".into(),
        cover_url: None,
        list_count: 3,
    };
    let b = suggestion_cover_book(&s);
    assert_eq!(b.title.as_deref(), Some("Piranesi"));
    assert_eq!(
        b.creators.first().map(|c| c.name.as_str()),
        Some("Susanna Clarke")
    );
}

#[test]
fn split_name_breaks_at_the_first_space() {
    assert_eq!(split_name("Ursula K. Le Guin"), ("Ursula".into(), "K. Le Guin".into()));
    assert_eq!(split_name("Homer"), ("Homer".into(), String::new()));
}

#[test]
fn author_initial_upper_cases_the_first_character() {
    assert_eq!(author_initial("ada"), "A");
    assert_eq!(author_initial(""), "?");
    assert_eq!(author_initial("ßigma"), "SS");
}

#[test]
fn author_accent_borrows_the_first_books_colour() {
    let mut a = book();
    let mut b = book();
    b.accent = Some("#123456".into());
    let c = book();
    assert_eq!(author_accent(&vec![a.clone(), b, c]), "#123456");
    a.accent = None;
    assert_eq!(author_accent(&vec![a]), "var(--accent)");
}

#[test]
fn books_group_by_series_in_first_seen_order() {
    let mut one = book();
    one.title = Some("Dune".into());
    one.series = Some("Dune".into());
    one.series_id = Some(4);
    let mut solo = book();
    solo.title = Some("Solo".into());
    let mut two = book();
    two.title = Some("Messiah".into());
    two.series = Some("Dune".into());
    let mut other = book();
    other.title = Some("Hyperion".into());
    other.series = Some("Cantos".into());
    let (groups, standalone) = group_books_by_series(vec![one, solo, two, other]);
    assert_eq!(groups.len(), 2);
    assert_eq!(groups[0].0, "Dune");
    assert_eq!(groups[0].1, 4);
    assert_eq!(groups[0].2.len(), 2);
    assert_eq!(groups[0].2[1].title.as_deref(), Some("Messiah"));
    assert_eq!(groups[1].0, "Cantos");
    assert_eq!(groups[1].1, 0);
    assert_eq!(standalone.len(), 1);
}

#[test]
fn author_delete_confirmation_reports_a_failure_and_closes_on_success() {
    assert_eq!(delete_title("Ann"), "Delete \"Ann\"?");
    assert!(delete_body(1).contains("from 1 book and"));
    assert!(delete_body(3).contains("from 3 books and"));
    let mut s = AuthorDeleteState::new();
    s.open();
    s.begin_delete();
    assert_eq!(s.confirm_label(), "Deleting\u{2026}");
    assert!(!s.finish_delete(Err("forbidden".into())));
    assert_eq!(s.delete_error.as_deref(), Some("forbidden"));
    assert!(s.show_confirm && !s.deleting);
    s.begin_delete();
    assert!(s.finish_delete(Ok(())));
    assert!(!s.show_confirm);
    assert_eq!(s.confirm_label(), "Delete");
}

fn titled(uuid: &str, author: Option<i64>) -> Book {
    let mut b = book();
    b.unique_identifier = Some(uuid.to_string());
    b.creators = vec![Contributor { name: "A".to_string(), id: author }];
    b.description = Some(format!("about {uuid}"));
    b
}

#[test]
fn the_page_moves_from_skeleton_to_book_and_fetches_the_authors_other_books() {
    let mut s = BookPageState::new();
    assert!(matches!(s.view(), PageView::Loading));
    s.begin_fetch("u1");
    let next = s.book_fetched(Ok(Some(titled("u1", Some(9)))));
    assert_eq!(next, Some((9, Some("u1".to_string()))));
    assert!(matches!(s.view(), PageView::Loaded));
    assert_eq!(s.description, "about u1");
    assert_eq!(s.description_epoch, 1);
    s.author_books_fetched(&Some("u1".to_string()), vec![titled("u1", Some(9)), titled("u2", Some(9))]);
    assert_eq!(s.author_books.len(), 1);
    assert_eq!(s.author_books[0].unique_identifier.as_deref(), Some("u2"));
}

#[test]
fn a_refetch_of_the_same_book_keeps_the_page_and_a_stale_author_list_is_dropped() {
    let mut s = BookPageState::new();
    s.book_fetched(Ok(Some(titled("u1", Some(9)))));
    s.author_books_fetched(&Some("u1".to_string()), vec![titled("u2", Some(9))]);
    s.begin_fetch("u1");
    assert!(!s.loading);
    assert_eq!(s.author_books.len(), 1);
    s.begin_fetch("u3");
    assert!(s.loading);
    assert!(s.author_books.is_empty());
    s.book_fetched(Ok(Some(titled("u3", None))));
    s.author_books_fetched(&Some("u1".to_string()), vec![titled("u2", Some(9))]);
    assert!(s.author_books.is_empty());
}

#[test]
fn the_page_reports_a_failed_or_missing_book() {
    let mut s = BookPageState::new();
    s.book_fetched(Ok(None));
    assert!(matches!(s.view(), PageView::NotFound));
    s.begin_fetch("u1");
    assert_eq!(s.book_fetched(Err("offline".to_string())), None);
    match s.view() {
        PageView::Error(m) => assert_eq!(m, "offline"),
        _ => panic!("expected the error page"),
    }
}

#[test]
fn a_merge_offers_its_undo_and_both_refetch_the_page() {
    let mut r = RailDialogs::new();
    r.set_open(true, true);
    assert!(r.merge_open);
    r.merged(77);
    assert!(!r.merge_open);
    assert_eq!(r.merged_log_id, Some(77));
    assert_eq!(r.refresh, 1);
    r.undo_finished(Err("too late".to_string()));
    assert_eq!(r.merged_log_id, Some(77));
    assert_eq!(r.undo_error.as_deref(), Some("too late"));
    r.undo_finished(Ok(()));
    assert_eq!(r.merged_log_id, None);
    assert_eq!(r.refresh, 2);
}

#[test]
fn a_delete_refetches_unless_the_record_is_gone() {
    let mut r = RailDialogs::new();
    r.set_open(false, true);
    assert_eq!(r.deleted(false), AfterDelete::Refetch);
    assert!(!r.delete_open);
    assert_eq!(r.refresh, 1);
    r.set_open(false, true);
    assert_eq!(r.deleted(true), AfterDelete::ToLibrary);
    assert_eq!(r.refresh, 1);
}

#[test]
fn stars_row_lights_the_whole_stars() {
    let on = "<span class=\"bd-star bd-star-on\">\u{2605}</span>";
    let off = "<span class=\"bd-star\">\u{2605}</span>";
    let html = stars_row(3);
    assert_eq!(
        html,
        format!("<span class=\"bd-stars-row\">{on}{on}{on}{off}{off}</span>")
    );
    assert_eq!(stars_row(0).matches("bd-star-on").count(), 0);
    assert_eq!(stars_row(9).matches("bd-star-on").count(), 5);
}
