use omnibus_pages::uploads::{
    audiobook_summary, classify_by_extension, AddBooksPage, classify_pick, AudiobookInspection, UploadForm,
    UploadInspection, UploadKind, UploadRequest,
};

fn names(v: &[&str]) -> Vec<String> {
    v.iter().map(|s| s.to_string()).collect()
}

#[test]
fn one_epub_or_pdf_is_an_ebook() {
    assert_eq!(classify_pick(&names(&["Dune.epub"])), Ok(UploadKind::Ebook));
    assert_eq!(classify_pick(&names(&["scan.PDF"])), Ok(UploadKind::Ebook));
}

#[test]
fn any_number_of_audio_parts_is_an_audiobook() {
    assert_eq!(classify_pick(&names(&["book.m4b"])), Ok(UploadKind::Audiobook));
    assert_eq!(
        classify_pick(&names(&["01.mp3", "02.MP3", "03.mp3"])),
        Ok(UploadKind::Audiobook)
    );
}

#[test]
fn a_pick_that_fits_neither_ingest_is_refused_with_the_reason() {
    assert_eq!(classify_pick(&[]), Err("Choose a file first.".to_string()));
    assert_eq!(
        classify_pick(&names(&["a.epub", "b.epub"])),
        Err("Add one EPUB at a time.".to_string())
    );
    assert_eq!(
        classify_pick(&names(&["a.epub", "b.mp3"])),
        Err("Pick either an EPUB or an audiobook's files, not both.".to_string())
    );
    assert_eq!(
        classify_pick(&names(&["a.mp3", "notes.txt", "README"])),
        Err("notes.txt isn't a format Omnibus can add \u{2014} pick an EPUB or PDF, an M4B/M4A/MP4 audiobook, or MP3 parts.".to_string())
    );
}

#[test]
fn a_name_without_an_extension_is_refused() {
    assert_eq!(
        classify_pick(&names(&[".epub"])),
        Err(".epub isn't a format Omnibus can add \u{2014} pick an EPUB or PDF, an M4B/M4A/MP4 audiobook, or MP3 parts.".to_string())
    );
}

#[test]
fn classify_by_extension_reads_the_given_extensions() {
    assert_eq!(
        classify_by_extension(&names(&["x"]), &names(&["mp4"])),
        Ok(UploadKind::Audiobook)
    );
    assert_eq!(
        classify_by_extension(&names(&["x", "y"]), &names(&["pdf", "doc"])),
        Err("y isn't a format Omnibus can add \u{2014} pick an EPUB or PDF, an M4B/M4A/MP4 audiobook, or MP3 parts.".to_string())
    );
}

#[test]
fn audiobook_summary_names_one_part_or_counts_several() {
    assert_eq!(audiobook_summary(&[("Book.m4b".to_string(), vec![1])]), "Book.m4b");
    assert_eq!(
        audiobook_summary(&[("1.mp3".to_string(), vec![]), ("2.mp3".to_string(), vec![])]),
        "2 parts selected"
    );
}

#[test]
fn an_ebook_goes_from_pick_to_commit() {
    let mut f = UploadForm::new();
    assert_eq!(f.on_pick(&names(&["Dune.epub"])), Some(UploadKind::Ebook));
    f.begin_ebook_read("Dune.epub");
    assert_eq!(f.status.as_deref(), Some("Reading Dune.epub\u{2026}"));
    assert!(f.busy);
    f.ebook_inspected(
        "Dune.epub".to_string(),
        vec![1, 2, 3],
        UploadInspection {
            title: Some(" Dune ".to_string()),
            author: Some("Frank Herbert".to_string()),
            creators: vec!["Frank Herbert".to_string(), "Ed. Someone".to_string()],
            series: Some("Dune".to_string()),
            series_index: Some("1".to_string()),
        },
    );
    assert!(f.inspected);
    assert!(!f.busy);
    assert_eq!(f.also_credited(), "Ed. Someone");
    assert_eq!(f.status.as_deref(), Some("Review the details, then add to your library."));
    match f.submit() {
        Some(UploadRequest::Ebook { filename, bytes, meta }) => {
            assert_eq!(filename, "Dune.epub");
            assert_eq!(bytes, vec![1, 2, 3]);
            assert_eq!(meta.title, "Dune");
            assert_eq!(meta.series_index, "1");
        }
        _ => panic!("expected an ebook commit"),
    }
    assert_eq!(f.status.as_deref(), Some("Adding to your library\u{2026}"));
    f.upload_failed("413 too large");
    assert_eq!(f.status.as_deref(), Some("Upload failed: 413 too large"));
    assert!(f.status_is_error);
    assert!(!f.busy);
    assert!(f.inspected);
}

#[test]
fn an_audiobook_clears_the_previous_series_and_commits_its_parts() {
    let mut f = UploadForm::new();
    f.series = "Old series".to_string();
    assert_eq!(f.on_pick(&names(&["1.mp3", "2.mp3"])), Some(UploadKind::Audiobook));
    f.begin_audiobook_read(2);
    assert_eq!(f.status.as_deref(), Some("Reading 2 files\u{2026}"));
    f.audiobook_inspected(
        vec![("1.mp3".to_string(), vec![9]), ("2.mp3".to_string(), vec![8])],
        AudiobookInspection {
            title: Some("Title".to_string()),
            author: None,
            creators: vec![],
        },
    );
    assert_eq!(f.series, "");
    assert_eq!(f.filename, "2 parts selected");
    assert_eq!(f.submit().is_none(), true);
    assert_eq!(f.status.as_deref(), Some("Title and author are required."));
    f.author = "Someone".to_string();
    match f.submit() {
        Some(UploadRequest::Audiobook { files, meta }) => {
            assert_eq!(files.len(), 2);
            assert_eq!(files[1].0, "2.mp3");
            assert_eq!(meta.author, "Someone");
        }
        _ => panic!("expected an audiobook commit"),
    }
}

#[test]
fn a_refused_pick_clears_the_stage() {
    let mut f = UploadForm::new();
    f.on_pick(&names(&["a.epub"]));
    f.ebook_inspected(
        "a.epub".to_string(),
        vec![1],
        UploadInspection { title: None, author: None, creators: vec![], series: None, series_index: None },
    );
    assert_eq!(f.on_pick(&names(&["a.doc"])), None);
    assert_eq!(f.kind, None);
    assert_eq!(f.file_bytes, None);
    assert!(!f.inspected);
    assert!(f.status_is_error);
    assert_eq!(f.on_pick(&[]), None);
    f.begin_audiobook_read(1);
    assert_eq!(f.status.as_deref(), Some("Reading 1 file\u{2026}"));
    f.audiobook_read_failed("1.mp3", "denied");
    assert_eq!(f.status.as_deref(), Some("Could not read 1.mp3: denied"));
    assert_eq!(f.submit().is_none(), true);
    assert_eq!(f.status.as_deref(), Some("Choose a file first."));
}

#[test]
fn add_books_page_refuses_a_user_who_may_not_upload() {
    let html = AddBooksPage(false, &UploadForm::new());
    assert!(html.contains("data-testid=\"add-books-forbidden\""));
    assert!(html.contains("You don&#39;t have permission to add books to this library."));
    assert!(!html.contains("add-books-file-input"));
}

#[test]
fn add_books_page_shows_the_prompt_until_a_pick_is_inspected() {
    let html = AddBooksPage(true, &UploadForm::new());
    assert!(html.contains("<div class=\"file-drop-zone\">"));
    assert!(html.contains("choose a file"));
    assert!(!html.contains("id=\"add-books-form\""));
    assert!(!html.contains("add-books-status"));
}

#[test]
fn add_books_page_shows_the_confirm_form_with_the_other_creators() {
    let mut f = UploadForm::new();
    f.filename = "dracula.epub".to_string();
    f.inspected = true;
    f.title = "Dracula".to_string();
    f.author = "Bram Stoker".to_string();
    f.more_creators = vec!["A. Editor".to_string(), "B. Illustrator".to_string()];
    f.status = Some("Review the details, then add to your library.".to_string());
    let html = AddBooksPage(true, &f);
    assert!(html.contains("file-drop-zone has-file"));
    assert!(html.contains("<span class=\"file-drop-filename\">dracula.epub</span>"));
    assert!(html.contains("<input id=\"add-books-title\" type=\"text\" value=\"Dracula\"/>"));
    assert!(html.contains("Also credited: A. Editor, B. Illustrator."));
    assert!(html.contains("class=\"settings-status success\">Review the details, then add to your library.</p>"));
    f.busy = true;
    f.more_creators.clear();
    let html = AddBooksPage(true, &f);
    assert!(html.contains("value=\"Dracula\" disabled/>"));
    assert!(!html.contains("add-books-more-creators"));
}
