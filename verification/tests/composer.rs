use omnibus_pages::composer::{entry_body_class, is_owner, ComposerState, EntryCardState, JournalWrite};
use omnibus_pages::journal::JournalStatus;

#[test]
fn typing_arms_an_autosave_only_in_an_open_idle_composer_with_text() {
    let mut c = ComposerState::new();
    assert!(!c.on_body_input("draft".to_string()));
    c.open_composer();
    assert!(!c.on_body_input("   ".to_string()));
    assert!(c.on_body_input("first thoughts".to_string()));
    assert!(c.autosave_pending);
}

#[test]
fn the_first_autosave_creates_a_draft_and_later_ones_update_it() {
    let mut c = ComposerState::new();
    c.open_composer();
    c.on_body_input("first".to_string());
    match c.autosave_write("book-1") {
        JournalWrite::Create { book_uuid, body_md, progress, status } => {
            assert_eq!(book_uuid, "book-1");
            assert_eq!(body_md, "first");
            assert_eq!(progress, None);
            assert!(matches!(status, JournalStatus::Draft));
        }
        _ => panic!("expected a new draft"),
    }
    assert!(c.on_autosaved(31));
    assert_eq!(c.autosaved_label().as_deref(), Some("Auto-saved just now"));
    c.tick();
    c.tick();
    assert_eq!(c.autosaved_label().as_deref(), Some("Auto-saved 10s ago"));
    assert!(!c.on_autosaved(31));
    c.track_progress = true;
    c.progress = 42;
    match c.autosave_write("book-1") {
        JournalWrite::Update { id, progress, status, .. } => {
            assert_eq!(id, 31);
            assert_eq!(progress, Some(42));
            assert!(status.is_none());
        }
        _ => panic!("expected the draft row to be updated"),
    }
}

#[test]
fn publishing_reuses_the_draft_row_and_closes_on_success() {
    let mut c = ComposerState::new();
    c.open_composer();
    c.on_body_input("entry".to_string());
    c.on_autosaved(5);
    assert!(c.can_save());
    let (cancel, write) = c.begin_save("book-1", JournalStatus::Published);
    assert!(!cancel);
    match write {
        JournalWrite::Update { id, status, .. } => {
            assert_eq!(id, 5);
            assert!(matches!(status, Some(JournalStatus::Published)));
        }
        _ => panic!("expected the draft row to be published"),
    }
    assert!(c.saving);
    assert!(!c.can_save());
    assert!(c.finish_save(Ok(())));
    assert!(!c.open);
    assert_eq!(c.body, "");
    assert_eq!(c.draft_id, None);
    assert_eq!(c.autosaved_label(), None);
}

#[test]
fn a_failed_save_keeps_the_editor_and_the_error() {
    let mut c = ComposerState::new();
    c.open_composer();
    c.on_body_input("entry".to_string());
    let (cancel, _) = c.begin_save("book-1", JournalStatus::Draft);
    assert!(cancel);
    assert!(!c.finish_save(Err("offline".to_string())));
    assert!(c.open);
    assert_eq!(c.body, "entry");
    assert_eq!(c.error.as_deref(), Some("offline"));
    assert!(!c.saving);
}

#[test]
fn cancel_discards_the_autosaved_draft_and_closes() {
    let mut c = ComposerState::new();
    c.open_composer();
    c.on_body_input("entry".to_string());
    c.on_autosaved(9);
    assert_eq!(c.begin_cancel(), Some(9));
    c.finish_cancel();
    assert!(!c.open);
    assert!(!c.ticking);
    assert_eq!(c.draft_id, None);
}

#[test]
fn an_entry_card_edits_saves_and_reports_failures() {
    let mut c = EntryCardState::new("first draft".to_string());
    assert_eq!(entry_body_class(true, c.expanded), "bd-journal-entry-body bd-journal-entry-body-collapsed");
    c.expand();
    assert_eq!(entry_body_class(true, c.expanded), "bd-journal-entry-body");
    c.begin_edit("saved text".to_string());
    assert!(c.editing);
    c.on_edit_input("   ".to_string());
    assert!(!c.can_save());
    c.on_edit_input("new text".to_string());
    assert!(c.can_save());
    match c.begin_save(12, Some(40)) {
        JournalWrite::Update { id, body_md, progress, status } => {
            assert_eq!(id, 12);
            assert_eq!(body_md, "new text");
            assert_eq!(progress, Some(40));
            assert!(status.is_none());
        }
        _ => panic!("an edit updates its own row"),
    }
    assert!(!c.finish(Err("conflict".to_string())));
    assert!(c.editing);
    assert_eq!(c.error.as_deref(), Some("conflict"));
    c.begin_save(12, Some(40));
    assert!(c.finish(Ok(())));
    assert!(!c.editing);
}

#[test]
fn publishing_a_draft_flips_only_its_status() {
    let mut c = EntryCardState::new("text".to_string());
    match c.begin_publish(3, "text".to_string(), None) {
        JournalWrite::Update { id, status, .. } => {
            assert_eq!(id, 3);
            assert!(matches!(status, Some(JournalStatus::Published)));
        }
        _ => panic!("publishing updates the draft row"),
    }
    assert!(is_owner(Some(5), 5));
    assert!(!is_owner(Some(5), 6));
    assert!(!is_owner(None, 5));
}
