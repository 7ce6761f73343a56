//! The mobile book page's own decisions: the hero's author-and-year line,
//! which files the Read and Listen actions offer, which of the author's
//! other books can be linked, and when a fetched summary may be shown.

use vstd::prelude::*;
use vstd::utf8::encode_utf8;
use crate::book::Book;
use crate::discovery::{published_year, year_prefix};
use crate::files::{is_audio_book_file, is_audio_format, BookFileInfo};
use crate::text::{chars_eq_ignore_ascii_case, eq_ignore_ascii_case, push_str, string_of, to_chars};

verus! {

/// The hero's line under the title: authors and year joined by a middle
/// dot, whichever of them is there.
pub open spec fn meta_line_of(authors: Seq<char>, year: Seq<char>) -> Seq<char> {
    if authors.len() > 0 && year.len() > 0 {
        authors + " \u{b7} "@ + year
    } else if authors.len() > 0 {
        authors
    } else {
        year
    }
}

/// The hero's meta line, from the authors line and the publication date.
pub fn meta_line(authors_line: &str, published: &Option<String>) -> (out: String)
    ensures
        (match *published {
            Some(p) => match year_prefix(p@) {
                Some(y) => exists|ys: Seq<char>| encode_utf8(ys) == y && out@ == meta_line_of(authors_line@, ys),
                None => out@ == meta_line_of(authors_line@, Seq::empty()),
            },
            None => out@ == meta_line_of(authors_line@, Seq::empty()),
        }),
{
    let year = match published_year(published) {
        Some(y) => y,
        None => String::new(),
    };
    let a_empty = authors_line.unicode_len() == 0;
    let y_empty = year.as_str().unicode_len() == 0;
    let out = if !a_empty && !y_empty {
        let mut out = string_of(authors_line);
        push_str(&mut out, " \u{b7} ");
        push_str(&mut out, year.as_str());
        out
    } else if !a_empty {
        string_of(authors_line)
    } else {
        year
    };
    proof {
        match published {
            Some(p) => match year_prefix(p@) {
                Some(y) => {
                    assert(encode_utf8(year@) == y && out@ == meta_line_of(authors_line@, year@));
                },
                None => {},
            },
            None => {},
        }
    }
    out
}

/// The files of `files` the Read action offers (EPUB, any case), in order.
pub open spec fn read_files_of(files: Seq<BookFileInfo>) -> Seq<BookFileInfo>
    decreases files.len(),
{
    if files.len() == 0 {
        Seq::empty()
    } else {
        let rest = read_files_of(files.drop_last());
        if eq_ignore_ascii_case(files.last().format@, "EPUB"@) {
            rest.push(files.last())
        } else {
            rest
        }
    }
}

/// The files of `files` the Listen action offers (the audio formats), in
/// order.
pub open spec fn listen_files_of(files: Seq<BookFileInfo>) -> Seq<BookFileInfo>
    decreases files.len(),
{
    if files.len() == 0 {
        Seq::empty()
    } else {
        let rest = listen_files_of(files.drop_last());
        if is_audio_format(files.last().format@) {
            rest.push(files.last())
        } else {
            rest
        }
    }
}

/// The files the Read action offers.
pub fn read_files(files: &Vec<BookFileInfo>) -> (out: Vec<BookFileInfo>)
    ensures
        out@ == read_files_of(files@),
{
    let epub = to_chars("EPUB");
    let mut out: Vec<BookFileInfo> = Vec::new();
    let mut i: usize = 0;
    while i < files.len()
        invariant
            i <= files@.len(),
            epub@ == "EPUB"@,
            out@ == read_files_of(files@.take(i as int)),
        decreases files.len() - i,
    {
        proof {
            assert(files@.take(i as int + 1).drop_last() =~= files@.take(i as int));
        }
        let f = to_chars(files[i].format.as_str());
        if chars_eq_ignore_ascii_case(&f, &epub) {
            out.push(copy_file(&files[i]));
        }
        i += 1;
    }
    proof {
        assert(files@.take(files@.len() as int) =~= files@);
    }
    out
}

/// The files the Listen action offers.
pub fn listen_files(files: &Vec<BookFileInfo>) -> (out: Vec<BookFileInfo>)
    ensures
        out@ == listen_files_of(files@),
{
    let mut out: Vec<BookFileInfo> = Vec::new();
    let mut i: usize = 0;
    while i < files.len()
        invariant
            i <= files@.len(),
            out@ == listen_files_of(files@.take(i as int)),
        decreases files.len() - i,
    {
        proof {
            assert(files@.take(i as int + 1).drop_last() =~= files@.take(i as int));
        }
        if is_audio_book_file(&files[i]) {
            out.push(copy_file(&files[i]));
        }
        i += 1;
    }
    proof {
        assert(files@.take(files@.len() as int) =~= files@);
    }
    out
}

/// A field-for-field copy of a file row.
pub fn copy_file(f: &BookFileInfo) -> (out: BookFileInfo)
    ensures
        out == *f,
{
    BookFileInfo {
        id: f.id,
        format: f.format.clone(),
        filename: f.filename.clone(),
        ordinal: f.ordinal,
        label: f.label.clone(),
        size_bytes: f.size_bytes,
        path: f.path.clone(),
        etag: f.etag.clone(),
    }
}

/// A book a tile can link to: one with a non-empty uuid.
pub open spec fn linkable(b: Book) -> bool {
    b.unique_identifier matches Some(u) && u@.len() > 0
}

/// The indices of the linkable books among the first `n`, in order.
pub open spec fn linkable_indices(books: Seq<Book>, n: int) -> Seq<int>
    decreases n,
{
    if n <= 0 {
        Seq::empty()
    } else {
        let rest = linkable_indices(books, n - 1);
        if linkable(books[n - 1]) {
            rest.push(n - 1)
        } else {
            rest
        }
    }
}

/// Which of the author's other books the same-hand strip shows: those with
/// a uuid to link, by their positions in `books`.
pub fn linkable_books(books: &Vec<Book>) -> (out: Vec<usize>)
    ensures
        out@.map_values(|i: usize| i as int) == linkable_indices(books@, books@.len() as int),
{
    let mut out: Vec<usize> = Vec::new();
    let mut i: usize = 0;
    while i < books.len()
        invariant
            i <= books@.len(),
            out@.map_values(|k: usize| k as int) == linkable_indices(books@, i as int),
        decreases books.len() - i,
    {
        let ok = match &books[i].unique_identifier {
            Some(u) => u.as_str().unicode_len() > 0,
            None => false,
        };
        let ghost before = out@;
        if ok {
            out.push(i);
            proof {
                assert(out@.map_values(|k: usize| k as int) =~= before.map_values(
                    |k: usize| k as int,
                ).push(i as int));
            }
        }
        i += 1;
    }
    out
}

/// A summary fetched and saved for a book is shown only if it saved and
/// the page still shows the book it was fetched for (its epoch unchanged).
pub fn apply_fetched_summary(saved: bool, expected_epoch: u64, current_epoch: u64) -> (b: bool)
    ensures
        b == (saved && expected_epoch == current_epoch),
{
    saved && expected_epoch == current_epoch
}

} // verus!
