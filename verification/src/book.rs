//! A book as the detail page reads it, and the page's own logic around it:
//! the hero kicker and series label, the breadcrumb trail, the author's
//! other books, and the suggestions poll.

use vstd::prelude::*;
use crate::text::{push_str, string_of};

verus! {

/// A creator credited on a book.
#[derive(Clone, Debug)]
pub struct Contributor {
    pub name: String,
    /// The author's library id, when the creator is a known author.
    pub id: Option<i64>,
}

/// The book fields the detail page's logic reads.
#[derive(Clone, Debug)]
pub struct Book {
    /// The book's uuid.
    pub unique_identifier: Option<String>,
    pub title: Option<String>,
    /// The file's name on disk.
    pub filename: String,
    pub creators: Vec<Contributor>,
    pub series: Option<String>,
    pub series_id: Option<i64>,
    pub series_index: Option<String>,
    /// Publication date as the source wrote it (ISO-like).
    pub published: Option<String>,
    pub genres: Vec<String>,
    /// The cover's accent colour, as CSS.
    pub accent: Option<String>,
    /// The book's summary, as saved.
    pub description: Option<String>,
}

/// The optional string's view.
pub open spec fn opt_seq(o: Option<String>) -> Option<Seq<char>> {
    match o {
        Some(s) => Some(s@),
        None => None,
    }
}

// ── Hero labels ───────────────────────────────────────────────────

/// The hero kicker: "Book · {year}", or "Book" without a year.
pub fn kicker_label(year: &str) -> (out: String)
    ensures
        out@ == if year@.len() == 0 {
            "Book"@
        } else {
            "Book \u{b7} "@ + year@
        },
{
    if year.unicode_len() == 0 {
        string_of("Book")
    } else {
        let mut out = string_of("Book \u{b7} ");
        push_str(&mut out, year);
        out
    }
}

/// The series line: "{series} #{index}", the series alone without an
/// index, nothing without a series.
pub fn series_label(series: Option<&str>, index: Option<&str>) -> (out: Option<String>)
    ensures
        match (series, index) {
            (Some(s), Some(i)) => out matches Some(o) && o@ == s@ + " #"@ + i@,
            (Some(s), None) => out matches Some(o) && o@ == s@,
            _ => out is None,
        },
{
    match (series, index) {
        (Some(s), Some(i)) => {
            let mut out = string_of(s);
            push_str(&mut out, " #");
            push_str(&mut out, i);
            Some(out)
        },
        (Some(s), None) => Some(string_of(s)),
        _ => None,
    }
}

// ── Breadcrumbs ───────────────────────────────────────────────────

/// Where a breadcrumb segment links to.
#[derive(Clone, Copy, Debug, PartialEq, Eq, Structural)]
pub enum CrumbTarget {
    Landing,
    AuthorDetail { id: i64 },
    SeriesDetail { id: i64 },
}

/// One breadcrumb segment; `None` renders as plain text.
#[derive(Clone, Debug)]
pub struct BdCrumbItem {
    pub text: String,
    pub target: Option<CrumbTarget>,
}

/// A crumb's view.
pub open spec fn crumb_view(c: BdCrumbItem) -> (Seq<char>, Option<CrumbTarget>) {
    (c.text@, c.target)
}

/// The trail: Home, the primary author (linked when the first creator is a
/// known author) when there is one, the series label (linked when the book
/// has a series id) when there is one, then the title.
pub open spec fn crumbs_spec(
    first_creator_id: Option<i64>,
    series_id: Option<i64>,
    title: Seq<char>,
    primary_author: Seq<char>,
    series_label: Option<Seq<char>>,
) -> Seq<(Seq<char>, Option<CrumbTarget>)> {
    let home = seq![("Home"@, Some(CrumbTarget::Landing))];
    let author = if primary_author.len() > 0 {
        seq![
            (
                primary_author,
                match first_creator_id {
                    Some(id) => Some(CrumbTarget::AuthorDetail { id }),
                    None => None,
                },
            ),
        ]
    } else {
        Seq::empty()
    };
    let series = match series_label {
        Some(l) => seq![
            (
                l,
                match series_id {
                    Some(id) => Some(CrumbTarget::SeriesDetail { id }),
                    None => None,
                },
            ),
        ],
        None => Seq::empty(),
    };
    home + author + series + seq![(title, None)]
}

/// The first creator's author id, if the book has a first creator.
pub open spec fn first_creator_id(b: Book) -> Option<i64> {
    if b.creators.len() > 0 {
        b.creators@[0].id
    } else {
        None
    }
}

/// The breadcrumb items for a loaded book.
pub fn build_crumbs(b: &Book, title: &str, primary_author: &str, series_label: &Option<String>) -> (out: Vec<BdCrumbItem>)
    ensures
        out@.map_values(|c: BdCrumbItem| crumb_view(c)) == crumbs_spec(
            first_creator_id(*b),
            b.series_id,
            title@,
            primary_author@,
            opt_seq(*series_label),
        ),
{
    let mut out: Vec<BdCrumbItem> = Vec::new();
    out.push(BdCrumbItem { text: string_of("Home"), target: Some(CrumbTarget::Landing) });
    if primary_author.unicode_len() > 0 {
        let target = if b.creators.len() > 0 {
            match b.creators[0].id {
                Some(id) => Some(CrumbTarget::AuthorDetail { id }),
                None => None,
            }
        } else {
            None
        };
        out.push(BdCrumbItem { text: string_of(primary_author), target });
    }
    match series_label {
        Some(label) => {
            let target = match b.series_id {
                Some(id) => Some(CrumbTarget::SeriesDetail { id }),
                None => None,
            };
            out.push(BdCrumbItem { text: label.clone(), target });
        },
        None => {},
    }
    out.push(BdCrumbItem { text: string_of(title), target: None });
    assert(out@.map_values(|c: BdCrumbItem| crumb_view(c)) =~= crumbs_spec(
        first_creator_id(*b),
        b.series_id,
        title@,
        primary_author@,
        opt_seq(*series_label),
    ));
    out
}

// ── The author's other books ──────────────────────────────────────

/// The author's books other than the one on the page (by uuid), in order.
pub open spec fn others_spec(books: Seq<Book>, current: Option<Seq<char>>) -> Seq<Book>
    decreases books.len(),
{
    if books.len() == 0 {
        Seq::empty()
    } else if opt_seq(books.last().unique_identifier) != current {
        others_spec(books.drop_last(), current).push(books.last())
    } else {
        others_spec(books.drop_last(), current)
    }
}

fn same_uuid(a: &Option<String>, b: &Option<String>) -> (r: bool)
    ensures
        r == (opt_seq(*a) == opt_seq(*b)),
{
    match (a, b) {
        (Some(x), Some(y)) => *x == *y,
        (None, None) => true,
        _ => false,
    }
}

/// The author rail: the author's books without the one being shown.
pub fn other_author_books(books: Vec<Book>, current: &Option<String>) -> (out: Vec<Book>)
    ensures
        out@ == others_spec(books@, opt_seq(*current)),
{
    let ghost all = books@;
    let mut out: Vec<Book> = Vec::new();
    let mut rest = books;
    let mut rev: Vec<Book> = Vec::new();
    while rest.len() > 0
        invariant
            rest@ + rev@.reverse() == all,
        decreases rest.len(),
    {
        let ghost r0 = rest@;
        let ghost v0 = rev@;
        let b = rest.pop().unwrap();
        rev.push(b);
        proof {
            assert(rev@.reverse() =~= seq![b] + v0.reverse());
            assert(r0 =~= rest@.push(b));
            assert(rest@ + rev@.reverse() =~= r0 + v0.reverse());
        }
    }
    proof {
        assert(rev@.reverse() =~= all);
    }
    let n = rev.len();
    while rev.len() > 0
        invariant
            rev.len() <= n,
            n == all.len(),
            rev@.reverse() == all.skip(n - rev.len()),
            out@ == others_spec(all.take(n - rev.len()), opt_seq(*current)),
        decreases rev.len(),
    {
        let ghost v0 = rev@;
        let k = n - rev.len();
        let b = rev.pop().unwrap();
        proof {
            assert(v0.reverse()[0] == b);
            assert(all.skip(k as int)[0] == all[k as int]);
            assert(rev@.reverse() =~= v0.reverse().drop_first());
            assert(all.skip(k as int).drop_first() =~= all.skip(k as int + 1));
            let t = all.take(k as int + 1);
            assert(t.drop_last() =~= all.take(k as int));
            assert(t.last() == all[k as int]);
        }
        if !same_uuid(&b.unique_identifier, current) {
            out.push(b);
        }
    }
    proof {
        assert(all.take(n as int) =~= all);
    }
    out
}

/// Whether the book on screen is the one being fetched, so a refetch of
/// the same book keeps the page in place instead of showing the skeleton.
pub fn is_same_book(shown: &Option<Book>, uuid: &str) -> (r: bool)
    ensures
        r == match *shown {
            Some(b) => opt_seq(b.unique_identifier) == Some(uuid@),
            None => false,
        },
{
    match shown {
        Some(b) => match &b.unique_identifier {
            Some(u) => {
                let s = string_of(uuid);
                *u == s
            },
            None => false,
        },
        None => false,
    }
}

// ── Suggestions poll ──────────────────────────────────────────────

/// Retries the suggestions poll makes while the lookup is pending.
pub const SUGGESTION_RETRIES: u32 = 5;

/// Milliseconds between two suggestion polls.
pub const SUGGESTION_POLL_MS: u32 = 2500;

/// What one suggestions request came back with.
#[derive(Clone, Copy, Debug, PartialEq, Eq, Structural)]
pub enum PollReply {
    /// The lookup is still running server-side.
    Pending,
    /// The suggestions are in.
    Ready,
    /// The request failed.
    Failed,
}

/// What the page does with a reply.
#[derive(Clone, Copy, Debug, PartialEq, Eq, Structural)]
pub enum PollAction {
    /// The reply belongs to a book the page has left: drop it, stop.
    Drop,
    /// Show the reply, wait, and ask again.
    ShowAndRetry,
    /// Show the reply and stop.
    ShowAndStop,
    /// Show an empty ready list (so the section does not spin forever) and
    /// stop.
    ShowEmptyAndStop,
}

/// The step the poll takes on a reply: `tries` retries have been made so
/// far; a stale reply is dropped; a failure settles on an empty list; a
/// pending reply is shown and retried while retries remain (only where the
/// page can wait between polls); anything else is shown and ends the poll.
pub open spec fn poll_step_spec(is_current: bool, reply: PollReply, tries: u32, can_wait: bool) -> PollAction {
    if !is_current {
        PollAction::Drop
    } else {
        match reply {
            PollReply::Failed => PollAction::ShowEmptyAndStop,
            PollReply::Ready => PollAction::ShowAndStop,
            PollReply::Pending => if can_wait && tries < SUGGESTION_RETRIES {
                PollAction::ShowAndRetry
            } else {
                PollAction::ShowAndStop
            },
        }
    }
}

/// The suggestions poll's decision for one reply.
pub fn poll_step(run_epoch: u64, current_epoch: u64, reply: PollReply, tries: u32, can_wait: bool) -> (a: PollAction)
    ensures
        a == poll_step_spec(run_epoch == current_epoch, reply, tries, can_wait),
{
    if run_epoch != current_epoch {
        return PollAction::Drop;
    }
    match reply {
        PollReply::Failed => PollAction::ShowEmptyAndStop,
        PollReply::Ready => PollAction::ShowAndStop,
        PollReply::Pending => if can_wait && tries < SUGGESTION_RETRIES {
            PollAction::ShowAndRetry
        } else {
            PollAction::ShowAndStop
        },
    }
}

/// Law: the poll ends — after at most the retry budget, every reply stops
/// it.
pub proof fn lemma_poll_is_bounded(is_current: bool, reply: PollReply, tries: u32, can_wait: bool)
    requires
        tries >= SUGGESTION_RETRIES,
    ensures
        poll_step_spec(is_current, reply, tries, can_wait) != PollAction::ShowAndRetry,
{
}

// ── Loading the page ──────────────────────────────────────────────

/// What the page shows.
#[derive(Clone, Debug)]
pub enum PageView {
    /// The skeleton, while the book loads.
    Loading,
    /// The fetch failed with this message.
    Error(String),
    /// No book has this uuid.
    NotFound,
    /// The book's page.
    Loaded,
}

/// The book page's data between renders.
#[derive(Clone, Debug)]
pub struct BookPageState {
    pub book: Option<Book>,
    /// The primary author's other books.
    pub author_books: Vec<Book>,
    pub loading: bool,
    pub error: Option<String>,
    /// The summary the page shows (and a fetched summary may replace).
    pub description: String,
    /// Bumped with every freshly loaded book, so a summary fetched for an
    /// earlier book can tell it is stale.
    pub description_epoch: u64,
}

/// The author whose other books to fetch next, and the uuid to leave out.
pub open spec fn author_fetch_of(b: Option<Book>) -> Option<(i64, Option<String>)> {
    match b {
        Some(inner) => match first_creator_id(inner) {
            Some(aid) => Some((aid, inner.unique_identifier)),
            None => None,
        },
        None => None,
    }
}

impl BookPageState {
    /// Before the first fetch: loading, nothing shown.
    pub fn new() -> (s: Self)
        ensures
            s.book is None,
            s.author_books@.len() == 0,
            s.loading,
            s.error is None,
            s.description@.len() == 0,
            s.description_epoch == 0,
    {
        BookPageState {
            book: None,
            author_books: Vec::new(),
            loading: true,
            error: None,
            description: String::new(),
            description_epoch: 0,
        }
    }

    /// Which of the page's states to show: the skeleton while loading, the
    /// error, a not-found page, or the book.
    pub fn view(&self) -> (v: PageView)
        ensures
            self.loading ==> v is Loading,
            !self.loading ==> match self.error {
                Some(e) => v matches PageView::Error(m) && m == e,
                None => if self.book is None {
                    v is NotFound
                } else {
                    v is Loaded
                },
            },
    {
        if self.loading {
            return PageView::Loading;
        }
        match &self.error {
            Some(e) => PageView::Error(e.clone()),
            None => if self.book.is_none() {
                PageView::NotFound
            } else {
                PageView::Loaded
            },
        }
    }

    /// A fetch of book `uuid` starts. Refetching the book already shown
    /// keeps the page in place; another book shows the skeleton and drops
    /// the previous author's books.
    pub fn begin_fetch(&mut self, uuid: &str)
        ensures
            final(self).book == old(self).book,
            final(self).error == old(self).error,
            final(self).description == old(self).description,
            final(self).description_epoch == old(self).description_epoch,
            match old(self).book {
                Some(b) if opt_seq(b.unique_identifier) == Some(uuid@) => final(self).loading
                    == old(self).loading && final(self).author_books == old(self).author_books,
                _ => final(self).loading && final(self).author_books@.len() == 0,
            },
    {
        if !is_same_book(&self.book, uuid) {
            self.loading = true;
            self.author_books = Vec::new();
        }
    }

    /// The book fetch came back. A book (or none) is shown with its saved
    /// summary and a new summary epoch; the result says whose other books
    /// to fetch next. A failure shows the error.
    pub fn book_fetched(&mut self, result: Result<Option<Book>, String>) -> (next: Option<(i64, Option<String>)>)
        requires
            old(self).description_epoch < u64::MAX,
        ensures
            !final(self).loading,
            final(self).author_books == old(self).author_books,
            match result {
                Ok(b) => final(self).book == b && final(self).error is None && next
                    == author_fetch_of(b) && final(self).description_epoch == old(
                    self,
                ).description_epoch + 1 && final(self).description@ == match b {
                    Some(inner) => match inner.description {
                        Some(d) => d@,
                        None => Seq::empty(),
                    },
                    None => Seq::empty(),
                },
                Err(e) => final(self).error == Some(e) && next is None && final(self).book == old(
                    self,
                ).book && final(self).description == old(self).description
                    && final(self).description_epoch == old(self).description_epoch,
            },
    {
        match result {
            Ok(b) => {
                let next = match &b {
                    Some(inner) => {
                        let aid = if inner.creators.len() > 0 {
                            inner.creators[0].id
                        } else {
                            None
                        };
                        match aid {
                            Some(a) => Some((a, inner.unique_identifier.clone())),
                            None => None,
                        }
                    },
                    None => None,
                };
                self.description = match &b {
                    Some(inner) => match &inner.description {
                        Some(d) => d.clone(),
                        None => String::new(),
                    },
                    None => String::new(),
                };
                self.description_epoch = self.description_epoch + 1;
                self.book = b;
                self.error = None;
                self.loading = false;
                next
            },
            Err(e) => {
                self.error = Some(e);
                self.loading = false;
                None
            },
        }
    }

    /// The author's books came back for the book `current_uuid`: they are
    /// shown, without that book, only while it is still the one on the
    /// page.
    pub fn author_books_fetched(&mut self, current_uuid: &Option<String>, books: Vec<Book>)
        ensures
            final(self).book == old(self).book,
            final(self).loading == old(self).loading,
            final(self).error == old(self).error,
            final(self).description == old(self).description,
            final(self).description_epoch == old(self).description_epoch,
            (match old(self).book {
                Some(b) => opt_seq(b.unique_identifier) == opt_seq(*current_uuid),
                None => current_uuid is None,
            }) ==> final(self).author_books@ == others_spec(books@, opt_seq(*current_uuid)),
            !(match old(self).book {
                Some(b) => opt_seq(b.unique_identifier) == opt_seq(*current_uuid),
                None => current_uuid is None,
            }) ==> final(self).author_books == old(self).author_books,
    {
        let still_current = match &self.book {
            Some(b) => match (&b.unique_identifier, current_uuid) {
                (Some(a), Some(c)) => {
                    let x = crate::text::to_chars(a.as_str());
                    let y = crate::text::to_chars(c.as_str());
                    crate::text::chars_eq(&x, &y)
                },
                (None, None) => true,
                _ => false,
            },
            None => current_uuid.is_none(),
        };
        if still_current {
            self.author_books = other_author_books(books, current_uuid);
        }
    }
}

// ── Merge and delete ──────────────────────────────────────────────

/// The rail's admin dialogs: merge (with its undo toast) and delete.
#[derive(Clone, Debug)]
pub struct RailDialogs {
    pub merge_open: bool,
    /// The merge the toast offers to undo.
    pub merged_log_id: Option<i64>,
    pub undo_error: Option<String>,
    pub delete_open: bool,
    /// Bumped whenever the page must refetch its book.
    pub refresh: u32,
}

/// Where a delete leaves the reader.
#[derive(Clone, Copy, Debug, PartialEq, Eq, Structural)]
pub enum AfterDelete {
    /// Some files remain: the page refetches.
    Refetch,
    /// The whole record went: back to the library.
    ToLibrary,
}

impl RailDialogs {
    /// Nothing open.
    pub fn new() -> (s: Self)
        ensures
            !s.merge_open && s.merged_log_id is None && s.undo_error is None && !s.delete_open
                && s.refresh == 0,
    {
        RailDialogs { merge_open: false, merged_log_id: None, undo_error: None, delete_open: false, refresh: 0 }
    }

    /// "Merge with…" or "Delete…" was pressed, or a dialog was closed.
    pub fn set_open(&mut self, merge: bool, open: bool)
        ensures
            merge ==> *final(self) == (RailDialogs { merge_open: open, ..*old(self) }),
            !merge ==> *final(self) == (RailDialogs { delete_open: open, ..*old(self) }),
    {
        if merge {
            self.merge_open = open;
        } else {
            self.delete_open = open;
        }
    }

    /// A merge into this book finished as log entry `log_id`: the dialog
    /// closes, the toast offers its undo, and the page refetches.
    pub fn merged(&mut self, log_id: i64)
        requires
            old(self).refresh < u32::MAX,
        ensures
            *final(self) == (RailDialogs {
                merge_open: false,
                merged_log_id: Some(log_id),
                undo_error: None,
                refresh: (old(self).refresh + 1) as u32,
                ..*old(self)
            }),
    {
        self.merge_open = false;
        self.undo_error = None;
        self.merged_log_id = Some(log_id);
        self.refresh = self.refresh + 1;
    }

    /// The undo came back: success drops the toast and refetches; a
    /// failure keeps the toast with the error.
    pub fn undo_finished(&mut self, result: Result<(), String>)
        requires
            old(self).refresh < u32::MAX,
        ensures
            match result {
                Ok(()) => *final(self) == (RailDialogs {
                    merged_log_id: None,
                    refresh: (old(self).refresh + 1) as u32,
                    ..*old(self)
                }),
                Err(e) => *final(self) == (RailDialogs { undo_error: Some(e), ..*old(self) }),
            },
    {
        match result {
            Ok(()) => {
                self.merged_log_id = None;
                self.refresh = self.refresh + 1;
            },
            Err(e) => {
                self.undo_error = Some(e);
            },
        }
    }

    /// The toast was dismissed.
    pub fn dismiss_toast(&mut self)
        ensures
            *final(self) == (RailDialogs { merged_log_id: None, ..*old(self) }),
    {
        self.merged_log_id = None;
    }

    /// A delete finished: the dialog closes; a partial delete refetches the
    /// page, a whole-record delete leaves for the library.
    pub fn deleted(&mut self, book_deleted: bool) -> (next: AfterDelete)
        requires
            old(self).refresh < u32::MAX,
        ensures
            book_deleted ==> next == AfterDelete::ToLibrary && *final(self) == (RailDialogs {
                delete_open: false,
                ..*old(self)
            }),
            !book_deleted ==> next == AfterDelete::Refetch && *final(self) == (RailDialogs {
                delete_open: false,
                refresh: (old(self).refresh + 1) as u32,
                ..*old(self)
            }),
    {
        self.delete_open = false;
        if book_deleted {
            AfterDelete::ToLibrary
        } else {
            self.refresh = self.refresh + 1;
            AfterDelete::Refetch
        }
    }
}

/// The first `n` of the five rating stars, `full` of them lit.
pub open spec fn star_spans(n: nat, full: nat) -> Seq<char>
    decreases n,
{
    if n == 0 {
        Seq::empty()
    } else {
        star_spans((n - 1) as nat, full) + (if n - 1 < full {
            "<span class=\"bd-star bd-star-on\">\u{2605}</span>"@
        } else {
            "<span class=\"bd-star\">\u{2605}</span>"@
        })
    }
}

/// The read-only rating row: five stars, the first `full` lit.
pub open spec fn stars_row_of(full: nat) -> Seq<char> {
    "<span class=\"bd-stars-row\">"@ + star_spans(5, full) + "</span>"@
}

/// Markup of the read-only rating row with `full` stars lit (a `full`
/// past five lights all five).
pub fn stars_row(full: u32) -> (html: String)
    ensures
        html@ == stars_row_of(full as nat),
{
    let mut out = String::new();
    push_str(&mut out, "<span class=\"bd-stars-row\">");
    let ghost head = out@;
    let mut i: u32 = 0;
    while i < 5
        invariant
            i <= 5,
            out@ == head + star_spans(i as nat, full as nat),
        decreases 5 - i,
    {
        if i < full {
            push_str(&mut out, "<span class=\"bd-star bd-star-on\">\u{2605}</span>");
        } else {
            push_str(&mut out, "<span class=\"bd-star\">\u{2605}</span>");
        }
        proof {
            assert(star_spans((i + 1) as nat, full as nat) == star_spans(i as nat, full as nat) + (
            if i < full {
                "<span class=\"bd-star bd-star-on\">\u{2605}</span>"@
            } else {
                "<span class=\"bd-star\">\u{2605}</span>"@
            }));
        }
        i += 1;
    }
    push_str(&mut out, "</span>");
    assert(out@ =~= stars_row_of(full as nat));
    out
}

} // verus!
