use omnibus_pages::book::Book;
use omnibus_pages::discovery::{owned_line, portrait_title, same_hand_plan, suggestions_window, connect_note, suggestions_state, BookSuggestion, SuggestState, SuggestionsResponse};
use omnibus_pages::files::BookFileInfo;
use omnibus_pages::mobile::{apply_fetched_summary, linkable_books, listen_files, meta_line, read_files};

fn file(format: &str, id: i64) -> BookFileInfo {
    BookFileInfo {
        id,
        format: format.to_string(),
        filename: format!("f{id}"),
        ordinal: id,
        label: None,
        size_bytes: 0,
        path: None,
        etag: None,
    }
}

fn book(uuid: Option<&str>) -> Book {
    Book {
        unique_identifier: uuid.map(str::to_string),
        title: None,
        filename: String::new(),
        creators: Vec::new(),
        series: None,
        series_id: None,
        series_index: None,
        published: None,
        genres: Vec::new(),
        accent: None,
        description: None,
    }
}

#[test]
fn meta_line_joins_whichever_of_authors_and_year_exist() {
    assert_eq!(meta_line("Ursula K. Le Guin", &Some("1969-03-01".to_string())), "Ursula K. Le Guin · 1969");
    assert_eq!(meta_line("Ursula K. Le Guin", &None), "Ursula K. Le Guin");
    assert_eq!(meta_line("", &Some("1969".to_string())), "1969");
    assert_eq!(meta_line("", &Some("69".to_string())), "");
}

#[test]
fn read_and_listen_offer_their_own_files_in_order() {
    let files = vec![file("epub", 1), file("M4B", 2), file("PDF", 3), file("mp3", 4), file("EPUB", 5)];
    let read: Vec<i64> = read_files(&files).iter().map(|f| f.id).collect();
    let listen: Vec<i64> = listen_files(&files).iter().map(|f| f.id).collect();
    assert_eq!(read, vec![1, 5]);
    assert_eq!(listen, vec![2, 4]);
}

#[test]
fn only_books_with_a_uuid_are_linked() {
    let books = vec![book(Some("a")), book(None), book(Some("")), book(Some("d"))];
    assert_eq!(linkable_books(&books), vec![0, 3]);
}

#[test]
fn a_fetched_summary_lands_only_on_the_book_it_was_fetched_for() {
    assert!(apply_fetched_summary(true, 4, 4));
    assert!(!apply_fetched_summary(true, 4, 5));
    assert!(!apply_fetched_summary(false, 4, 4));
}

#[test]
fn the_suggestions_block_follows_the_lookup() {
    assert_eq!(suggestions_state(&None), SuggestState::Pending);
    assert_eq!(suggestions_state(&Some(SuggestionsResponse::Pending)), SuggestState::Pending);
    assert_eq!(suggestions_state(&Some(SuggestionsResponse::NotConfigured)), SuggestState::Connect);
    assert_eq!(
        suggestions_state(&Some(SuggestionsResponse::Ready { items: Vec::new() })),
        SuggestState::Empty
    );
    let one = BookSuggestion {
        title: "T".to_string(),
        author: "A".to_string(),
        cover_url: None,
        list_count: 3,
    };
    assert_eq!(
        suggestions_state(&Some(SuggestionsResponse::Ready { items: vec![one] })),
        SuggestState::Results
    );
    assert_eq!(connect_note(true), "Add a Hardcover API key in Settings to see read-alikes.");
    assert_eq!(connect_note(false), "Ask your server admin to connect Hardcover for read-alikes.");
}

#[test]
fn the_same_hand_cluster_counts_what_it_shows_and_what_it_folds() {
    assert_eq!(same_hand_plan("Ann Leckie", 6), ("More by Ann Leckie".to_string(), 7, 4, 2));
    assert_eq!(same_hand_plan("", 0), ("More to read".to_string(), 1, 0, 0));
    assert_eq!(owned_line(1), "1 book in your library");
    assert_eq!(owned_line(3), "3 books in your library");
    assert_eq!(portrait_title("  "), "Open author page");
    assert_eq!(portrait_title("Ann"), "Open Ann's author page");
}

#[test]
fn the_suggestions_strip_folds_past_five() {
    assert_eq!(suggestions_window(8, false), (5, Some("Show 3 more".to_string())));
    assert_eq!(suggestions_window(8, true), (8, None));
    assert_eq!(suggestions_window(4, false), (4, None));
}
