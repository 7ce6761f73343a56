//! The author page: the name split for the hero, the avatar's fallback
//! letter, the accent the page borrows from the author's books, the books
//! grouped by series, and the admin's delete confirmation.

use vstd::prelude::*;
use crate::book::Book;
use crate::num::{nat_digits, push_u64};
use crate::text::{char_uppercase, index_of, push_str, slice_of, string_of, to_chars, unicode_char_upper, find_char};

verus! {

/// The hero's name split at its first space: the first word, and the rest
/// (empty for a one-word name).
pub open spec fn split_name_spec(name: Seq<char>) -> (Seq<char>, Seq<char>) {
    match index_of(name, ' ') {
        Some(i) => (name.take(i), name.skip(i + 1)),
        None => (name, Seq::empty()),
    }
}

/// The name split at its first space (`splitn(2, ' ')`).
pub fn split_name(name: &str) -> (r: (String, String))
    ensures
        (r.0@, r.1@) == split_name_spec(name@),
{
    let v = to_chars(name);
    proof {
        assert(v@.subrange(0, v.len() as int) =~= v@);
        crate::text::lemma_index_of_bounds(v@, ' ');
    }
    match find_char(&v, ' ', 0) {
        Some(i) => {
            let a = slice_of(&v, 0, i);
            let b = slice_of(&v, i + 1, v.len());
            proof {
                assert(a@ =~= v@.take(i as int));
                assert(b@ =~= v@.skip(i + 1));
            }
            (crate::text::from_chars(&a), crate::text::from_chars(&b))
        },
        None => (string_of(name), String::new()),
    }
}

/// The avatar's fallback letter: the name's first character upper-cased,
/// or `?` for an empty name.
pub fn author_initial(name: &str) -> (out: String)
    ensures
        out@ == unicode_char_upper(if name@.len() > 0 {
            name@[0]
        } else {
            '?'
        }),
{
    let v = to_chars(name);
    let c = if v.len() > 0 {
        v[0]
    } else {
        '?'
    };
    char_uppercase(c)
}

/// The first accent any of the books carries, else the theme's.
pub open spec fn accent_spec(books: Seq<Book>) -> Seq<char>
    decreases books.len(),
{
    if books.len() == 0 {
        "var(--accent)"@
    } else {
        match books[0].accent {
            Some(a) => a@,
            None => accent_spec(books.drop_first()),
        }
    }
}

/// The page's accent colour, borrowed from the first book that has one.
pub fn author_accent(books: &Vec<Book>) -> (out: String)
    ensures
        out@ == accent_spec(books@),
{
    let mut i: usize = 0;
    proof {
        assert(books@.skip(0) =~= books@);
    }
    while i < books.len()
        invariant
            i <= books.len(),
            accent_spec(books@) == accent_spec(books@.skip(i as int)),
        decreases books.len() - i,
    {
        proof {
            assert(books@.skip(i as int)[0] == books@[i as int]);
            assert(books@.skip(i as int).drop_first() =~= books@.skip(i as int + 1));
        }
        match &books[i].accent {
            Some(a) => return a.clone(),
            None => {},
        }
        i += 1;
    }
    proof {
        assert(books@.skip(i as int) =~= Seq::<Book>::empty());
    }
    string_of("var(--accent)")
}

// ── Series groups ─────────────────────────────────────────────────

/// One series on the author page: its name, id (0 when unknown), and its
/// books in scan order.
pub type SeriesGroup = (String, i64, Vec<Book>);

/// A group's view.
pub open spec fn group_view(g: SeriesGroup) -> (Seq<char>, i64, Seq<Book>) {
    (g.0@, g.1, g.2@)
}

/// The index of the group named `name`.
pub open spec fn group_index(groups: Seq<(Seq<char>, i64, Seq<Book>)>, name: Seq<char>) -> Option<int>
    decreases groups.len(),
{
    if groups.len() == 0 {
        None
    } else {
        match group_index(groups.drop_last(), name) {
            Some(k) => Some(k),
            None => if groups.last().0 == name {
                Some(groups.len() - 1)
            } else {
                None
            },
        }
    }
}

/// Series groups and standalone books after the first `k` books: a book in
/// a series joins that series' group (first seen first), opening it with
/// the book's series id (0 when unknown) when it is new; a book in no
/// series is standalone.
pub open spec fn series_split(books: Seq<Book>, k: int) -> (Seq<(Seq<char>, i64, Seq<Book>)>, Seq<Book>)
    decreases k,
{
    if k <= 0 {
        (Seq::empty(), Seq::empty())
    } else {
        let (groups, standalone) = series_split(books, k - 1);
        let b = books[k - 1];
        match b.series {
            Some(name) => match group_index(groups, name@) {
                Some(g) => (groups.update(g, (groups[g].0, groups[g].1, groups[g].2.push(b))), standalone),
                None => (
                    groups.push(
                        (
                            name@,
                            match b.series_id {
                                Some(id) => id,
                                None => 0,
                            },
                            seq![b],
                        ),
                    ),
                    standalone,
                ),
            },
            None => (groups, standalone.push(b)),
        }
    }
}

proof fn lemma_group_index(groups: Seq<(Seq<char>, i64, Seq<Book>)>, name: Seq<char>)
    ensures
        match group_index(groups, name) {
            Some(k) => 0 <= k < groups.len() && groups[k].0 == name && forall|j: int|
                0 <= j < k ==> (#[trigger] groups[j]).0 != name,
            None => forall|j: int| 0 <= j < groups.len() ==> (#[trigger] groups[j]).0 != name,
        },
    decreases groups.len(),
{
    if groups.len() > 0 {
        lemma_group_index(groups.drop_last(), name);
        assert(forall|j: int| 0 <= j < groups.len() - 1 ==> groups.drop_last()[j] == groups[j]);
    }
}

fn find_group(groups: &Vec<SeriesGroup>, name: &String) -> (r: Option<usize>)
    ensures
        match r {
            Some(k) => group_index(groups@.map_values(|g: SeriesGroup| group_view(g)), name@) == Some(
                k as int,
            ) && k < groups.len(),
            None => group_index(groups@.map_values(|g: SeriesGroup| group_view(g)), name@) is None,
        },
{
    let ghost gv = groups@.map_values(|g: SeriesGroup| group_view(g));
    proof {
        lemma_group_index(gv, name@);
    }
    let mut k: usize = 0;
    while k < groups.len()
        invariant
            k <= groups.len(),
            gv == groups@.map_values(|g: SeriesGroup| group_view(g)),
            forall|j: int| 0 <= j < k ==> (#[trigger] gv[j]).0 != name@,
        decreases groups.len() - k,
    {
        if groups[k].0 == *name {
            proof {
                lemma_group_index(gv, name@);
                assert(gv[k as int].0 == name@);
                match group_index(gv, name@) {
                    Some(m) => {
                        if m < k {
                        } else if m > k {
                            assert(gv[k as int].0 != name@);
                        }
                    },
                    None => {
                        assert(gv[k as int].0 != name@);
                    },
                }
            }
            return Some(k);
        }
        k += 1;
    }
    None
}

/// Groups an author's books by series (series in first-seen order, each
/// series' books in scan order), with books in no series collected apart.
pub fn group_books_by_series(books: Vec<Book>) -> (r: (Vec<SeriesGroup>, Vec<Book>))
    ensures
        (r.0@.map_values(|g: SeriesGroup| group_view(g)), r.1@) == series_split(books@, books@.len() as int),
{
    let ghost all = books@;
    let mut groups: Vec<SeriesGroup> = Vec::new();
    let mut standalone: Vec<Book> = Vec::new();
    let mut i: usize = 0;
    let n = books.len();
    let mut rest = books;
    let mut rev: Vec<Book> = Vec::new();
    while rest.len() > 0
        invariant
            rest@ + rev@.reverse() == all,
        decreases rest.len(),
    {
        let ghost r0 = rest@;
        let ghost v0 = rev@;
        let b = rest.pop().unwrap();
        rev.push(b);
        proof {
            assert(rev@.reverse() =~= seq![b] + v0.reverse());
            assert(r0 =~= rest@.push(b));
            assert(rest@ + rev@.reverse() =~= r0 + v0.reverse());
        }
    }
    proof {
        assert(rev@.reverse() =~= all);
    }
    while rev.len() > 0
        invariant
            rev.len() <= n,
            n == all.len(),
            i == n - rev.len(),
            rev@.reverse() == all.skip(i as int),
            (groups@.map_values(|g: SeriesGroup| group_view(g)), standalone@) == series_split(all, i as int),
        decreases rev.len(),
    {
        let ghost v0 = rev@;
        let b = rev.pop().unwrap();
        proof {
            assert(v0.reverse()[0] == b);
            assert(all.skip(i as int)[0] == all[i as int]);
            assert(rev@.reverse() =~= v0.reverse().drop_first());
            assert(all.skip(i as int).drop_first() =~= all.skip(i as int + 1));
        }
        let ghost gv0 = groups@.map_values(|g: SeriesGroup| group_view(g));
        let ghost sv0 = standalone@;
        match &b.series {
            Some(name) => {
                let name = name.clone();
                match find_group(&groups, &name) {
                    Some(k) => {
                        let (gname, gid, mut gbooks) = groups.remove(k);
                        gbooks.push(b);
                        groups.insert(k, (gname, gid, gbooks));
                        proof {
                            assert(groups@.map_values(|g: SeriesGroup| group_view(g)) =~= gv0.update(
                                k as int,
                                (gv0[k as int].0, gv0[k as int].1, gv0[k as int].2.push(all[i as int])),
                            ));
                        }
                    },
                    None => {
                        let sid = match b.series_id {
                            Some(id) => id,
                            None => 0,
                        };
                        let mut gbooks: Vec<Book> = Vec::new();
                        gbooks.push(b);
                        groups.push((name, sid, gbooks));
                        proof {
                            assert(groups@.map_values(|g: SeriesGroup| group_view(g)) =~= gv0.push(
                                (all[i as int].series->0@, sid, seq![all[i as int]]),
                            ));
                        }
                    },
                }
            },
            None => {
                standalone.push(b);
            },
        }
        i += 1;
    }
    (groups, standalone)
}

/// The books across all the groups.
pub open spec fn group_total(groups: Seq<(Seq<char>, i64, Seq<Book>)>) -> nat
    decreases groups.len(),
{
    if groups.len() == 0 {
        0
    } else {
        group_total(groups.drop_last()) + groups.last().2.len()
    }
}

proof fn lemma_group_total_update(groups: Seq<(Seq<char>, i64, Seq<Book>)>, g: int, b: Book)
    requires
        0 <= g < groups.len(),
    ensures
        group_total(groups.update(g, (groups[g].0, groups[g].1, groups[g].2.push(b)))) == group_total(groups) + 1,
    decreases groups.len(),
{
    let u = groups.update(g, (groups[g].0, groups[g].1, groups[g].2.push(b)));
    if g < groups.len() - 1 {
        assert(u.drop_last() =~= groups.drop_last().update(g, (groups[g].0, groups[g].1, groups[g].2.push(b))));
        lemma_group_total_update(groups.drop_last(), g, b);
    } else {
        assert(u.drop_last() =~= groups.drop_last());
    }
}

/// Law: grouping by series neither drops nor duplicates a book: the group
/// sizes and the standalone count add up to the number of books, and no
/// two groups share a series name.
pub proof fn lemma_series_split_counts(books: Seq<Book>, k: int)
    requires
        0 <= k <= books.len(),
    ensures
        group_total(series_split(books, k).0) + series_split(books, k).1.len() == k,
        forall|a: int, c: int|
            0 <= a < c < series_split(books, k).0.len() ==> (#[trigger] series_split(books, k).0[a]).0
                != (#[trigger] series_split(books, k).0[c]).0,
    decreases k,
{
    if k > 0 {
        lemma_series_split_counts(books, k - 1);
        let (groups, standalone) = series_split(books, k - 1);
        let b = books[k - 1];
        match b.series {
            Some(name) => {
                lemma_group_index(groups, name@);
                match group_index(groups, name@) {
                    Some(g) => {
                        lemma_group_total_update(groups, g, b);
                    },
                    None => {
                        let ng = groups.push(
                            (
                                name@,
                                match b.series_id {
                                    Some(id) => id,
                                    None => 0,
                                },
                                seq![b],
                            ),
                        );
                        assert(ng.drop_last() =~= groups);
                    },
                }
            },
            None => {},
        }
    }
}

// ── Delete ────────────────────────────────────────────────────────

/// The delete confirmation's title: `Delete "{name}"?`.
pub fn delete_title(author_name: &str) -> (out: String)
    ensures
        out@ == "Delete \""@ + author_name@ + "\"?"@,
{
    let mut out = string_of("Delete \"");
    push_str(&mut out, author_name);
    push_str(&mut out, "\"?");
    out
}

/// The delete confirmation's body, with the count of books the author is
/// un-linked from.
pub fn delete_body(book_count: usize) -> (out: String)
    ensures
        out@ == "This will un-link the author from "@ + nat_digits(book_count as nat) + " "@ + (if book_count
            == 1 {
            "book"@
        } else {
            "books"@
        })
            + " and prevent the name from being re-added on future library scans. The books themselves are not deleted."@,
{
    let mut out = string_of("This will un-link the author from ");
    push_u64(&mut out, book_count as u64);
    push_str(&mut out, " ");
    if book_count == 1 {
        push_str(&mut out, "book");
    } else {
        push_str(&mut out, "books");
    }
    push_str(
        &mut out,
        " and prevent the name from being re-added on future library scans. The books themselves are not deleted.",
    );
    out
}

/// The delete confirmation between renders.
pub struct AuthorDeleteState {
    pub show_confirm: bool,
    pub deleting: bool,
    pub delete_error: Option<String>,
}

impl AuthorDeleteState {
    /// Closed, idle, nothing to report.
    pub fn new() -> (s: Self)
        ensures
            !s.show_confirm && !s.deleting && s.delete_error is None,
    {
        AuthorDeleteState { show_confirm: false, deleting: false, delete_error: None }
    }

    /// The admin asks to delete: the confirmation opens with no old error.
    pub fn open(&mut self)
        ensures
            final(self).show_confirm,
            final(self).delete_error is None,
            final(self).deleting == old(self).deleting,
    {
        self.delete_error = None;
        self.show_confirm = true;
    }

    /// Cancel or backdrop: the confirmation closes.
    pub fn dismiss(&mut self)
        ensures
            !final(self).show_confirm,
            final(self).deleting == old(self).deleting,
            final(self).delete_error == old(self).delete_error,
    {
        self.show_confirm = false;
    }

    /// Confirmed: the delete starts.
    pub fn begin_delete(&mut self)
        ensures
            final(self).deleting,
            final(self).delete_error is None,
            final(self).show_confirm == old(self).show_confirm,
    {
        self.deleting = true;
        self.delete_error = None;
    }

    /// The delete came back: on success the confirmation closes and the
    /// page goes back to the authors index (`true`); on failure the error
    /// shows in the still-open confirmation.
    pub fn finish_delete(&mut self, result: Result<(), String>) -> (leave: bool)
        ensures
            leave == result is Ok,
            !final(self).deleting,
            match result {
                Ok(()) => !final(self).show_confirm && final(self).delete_error == old(self).delete_error,
                Err(e) => final(self).delete_error == Some(e) && final(self).show_confirm == old(self).show_confirm,
            },
    {
        self.deleting = false;
        match result {
            Ok(()) => {
                self.show_confirm = false;
                true
            },
            Err(e) => {
                self.delete_error = Some(e);
                false
            },
        }
    }

    /// The confirm button's label.
    pub fn confirm_label(&self) -> (s: &'static str)
        ensures
            s@ == if self.deleting {
                "Deleting\u{2026}"@
            } else {
                "Delete"@
            },
    {
        if self.deleting {
            "Deleting\u{2026}"
        } else {
            "Delete"
        }
    }
}

} // verus!
