//! Display helpers for the book-detail discovery blocks: the "from the
//! same hand" cluster of the author's other books and the outside
//! suggestions, shared by the web and mobile layouts.

use vstd::prelude::*;
use vstd::string::StringSliceAdditionalSpecFns;
use vstd::utf8::encode_utf8;
use crate::book::{Book, Contributor};
use crate::num::{int_digits, push_i64};
use crate::text::{is_white_space, push_str, string_of, to_chars, trim, char_is_white_space, slice_of, from_chars};

verus! {

/// Display title for a same-hand tile: the book's title when it has any
/// non-blank text, else the file name.
pub fn same_hand_title(b: &Book) -> (out: String)
    ensures
        out@ == match b.title {
            Some(t) if trim(t@).len() > 0 => t@,
            _ => b.filename@,
        },
{
    match &b.title {
        Some(t) => {
            let v = to_chars(t.as_str());
            let tt = crate::text::trimmed(&v);
            if tt.len() > 0 {
                return t.clone();
            }
            b.filename.clone()
        },
        None => b.filename.clone(),
    }
}

/// The last whitespace-separated word of `s` (`split_whitespace().last()`).
pub open spec fn last_word(s: Seq<char>) -> Option<Seq<char>>
    decreases s.len(),
{
    if s.len() == 0 {
        None
    } else if is_white_space(s.last()) {
        last_word(s.drop_last())
    } else {
        Some(word_tail(s))
    }
}

/// The run of non-whitespace characters that ends `s`.
pub open spec fn word_tail(s: Seq<char>) -> Seq<char>
    decreases s.len(),
{
    if s.len() == 0 || is_white_space(s.last()) {
        Seq::empty()
    } else {
        word_tail(s.drop_last()).push(s.last())
    }
}

/// The author's surname for the empty-state note, or "this author" when
/// the name is blank.
pub fn same_hand_author_label(primary_author: &str) -> (out: String)
    ensures
        out@ == match last_word(primary_author@) {
            Some(w) => w,
            None => "this author"@,
        },
{
    let v = to_chars(primary_author);
    let mut end: usize = v.len();
    proof {
        assert(v@.take(end as int) =~= v@);
    }
    while end > 0 && char_is_white_space(v[end - 1])
        invariant
            end <= v.len(),
            v@ == primary_author@,
            last_word(v@) == last_word(v@.take(end as int)),
        decreases end,
    {
        proof {
            assert(v@.take(end as int).drop_last() =~= v@.take(end as int - 1));
        }
        end -= 1;
    }
    if end == 0 {
        return string_of("this author");
    }
    let mut start: usize = end;
    while start > 0 && !char_is_white_space(v[start - 1])
        invariant
            start <= end <= v.len(),
            word_tail(v@.take(end as int)) == word_tail(v@.take(start as int)) + v@.subrange(
                start as int,
                end as int,
            ),
        decreases start,
    {
        proof {
            let t = v@.take(start as int);
            assert(t.drop_last() =~= v@.take(start as int - 1));
            assert(t.last() == v@[start as int - 1]);
            assert(v@.subrange(start as int - 1, end as int) =~= seq![v@[start as int - 1]]
                + v@.subrange(start as int, end as int));
        }
        start -= 1;
    }
    proof {
        assert(v@.take(end as int).last() == v@[end as int - 1]);
        assert(word_tail(v@.take(start as int)) =~= Seq::<char>::empty());
    }
    let w = slice_of(&v, start, end);
    from_chars(&w)
}

/// The four-byte prefix of a publication date, when those four bytes are
/// whole characters: the year.
pub open spec fn year_prefix(published: Seq<char>) -> Option<Seq<u8>> {
    let bytes = encode_utf8(published);
    if bytes.len() >= 4 && vstd::utf8::is_char_boundary(bytes, 4) {
        Some(bytes.take(4))
    } else {
        None
    }
}

/// The four-digit year a publication date starts with, or `None` when the
/// date is absent or its first four bytes are not whole characters.
pub fn published_year(published: &Option<String>) -> (out: Option<String>)
    ensures
        match *published {
            Some(p) => match year_prefix(p@) {
                Some(y) => out matches Some(o) && encode_utf8(o@) == y,
                None => out is None,
            },
            None => out is None,
        },
{
    match published {
        Some(p) => {
            let s: &str = p.as_str();
            let bytes = s.as_bytes();
            proof {
                assert(s@ == p@);
                assert(bytes@ == encode_utf8(p@));
            }
            if bytes.len() >= 4 && s.is_char_boundary(4) {
                let (head, _) = s.split_at(4);
                let y = string_of(head);
                proof {
                    assert(encode_utf8(y@) == head.spec_bytes());
                    assert(head.spec_bytes() =~= encode_utf8(p@).take(4));
                }
                Some(y)
            } else {
                None
            }
        },
        None => None,
    }
}

/// Four-digit publication year for the tile subline, or `None` when the
/// date is absent or shorter than four bytes.
pub fn same_hand_year(b: &Book) -> (out: Option<String>)
    ensures
        match b.published {
            Some(p) => match year_prefix(p@) {
                Some(y) => out matches Some(o) && encode_utf8(o@) == y,
                None => out is None,
            },
            None => out is None,
        },
{
    published_year(&b.published)
}

/// "on N lists", singular for one.
pub fn list_count_label(n: i64) -> (out: String)
    ensures
        out@ == if n == 1 {
            "on 1 list"@
        } else {
            "on "@ + int_digits(n as int) + " lists"@
        },
{
    if n == 1 {
        string_of("on 1 list")
    } else {
        let mut out = string_of("on ");
        push_i64(&mut out, n);
        push_str(&mut out, " lists");
        out
    }
}

/// A book an outside service suggests.
#[derive(Clone, Debug)]
pub struct BookSuggestion {
    pub title: String,
    pub author: String,
    /// Relative path of a cached cover, when there is one.
    pub cover_url: Option<String>,
    /// How many reading lists carry it.
    pub list_count: i64,
}

/// A minimal book for a suggestion, so the cover plate can print its title
/// and author when no cover image is cached.
pub fn suggestion_cover_book(s: &BookSuggestion) -> (b: Book)
    ensures
        b.title matches Some(t) && t@ == s.title@,
        b.creators@.len() == 1,
        b.creators@[0].name@ == s.author@,
        b.creators@[0].id is None,
        b.unique_identifier is None,
        b.filename@ == Seq::<char>::empty(),
{
    let mut creators: Vec<Contributor> = Vec::new();
    creators.push(Contributor { name: s.author.clone(), id: None });
    Book {
        unique_identifier: None,
        title: Some(s.title.clone()),
        filename: String::new(),
        creators,
        series: None,
        series_id: None,
        series_index: None,
        published: None,
        genres: Vec::new(),
        accent: None,
        description: None,
    }
}

// ── Suggestions ───────────────────────────────────────────────────

/// The outside read-alike lookup, as the server reports it.
#[derive(Clone, Debug)]
pub enum SuggestionsResponse {
    /// The lookup finished with these books.
    Ready { items: Vec<BookSuggestion> },
    /// No lookup service is connected.
    NotConfigured,
    /// The lookup is still running.
    Pending,
}

/// What the suggestions block shows.
#[derive(Clone, Copy, Debug, PartialEq, Eq, Structural)]
pub enum SuggestState {
    /// The strip of read-alikes.
    Results,
    /// The lookup found none.
    Empty,
    /// The note about connecting the service.
    Connect,
    /// The quiet placeholder while the lookup runs (or before it is asked).
    Pending,
}

/// The block's state for a response (none before the first fetch).
pub open spec fn suggest_state_of(r: Option<SuggestionsResponse>) -> SuggestState {
    match r {
        Some(SuggestionsResponse::Ready { items }) => if items@.len() > 0 {
            SuggestState::Results
        } else {
            SuggestState::Empty
        },
        Some(SuggestionsResponse::NotConfigured) => SuggestState::Connect,
        _ => SuggestState::Pending,
    }
}

/// What the suggestions block shows for the response so far.
pub fn suggestions_state(r: &Option<SuggestionsResponse>) -> (st: SuggestState)
    ensures
        st == suggest_state_of(*r),
{
    match r {
        Some(SuggestionsResponse::Ready { items }) => if items.len() > 0 {
            SuggestState::Results
        } else {
            SuggestState::Empty
        },
        Some(SuggestionsResponse::NotConfigured) => SuggestState::Connect,
        _ => SuggestState::Pending,
    }
}

/// The connect note: an admin can add the key; anyone else asks for it.
pub fn connect_note(is_admin: bool) -> (out: &'static str)
    ensures
        out@ == if is_admin {
            "Add a Hardcover API key in Settings to see read-alikes."@
        } else {
            "Ask your server admin to connect Hardcover for read-alikes."@
        },
{
    if is_admin {
        "Add a Hardcover API key in Settings to see read-alikes."
    } else {
        "Ask your server admin to connect Hardcover for read-alikes."
    }
}

// ── The same-hand cluster ─────────────────────────────────────────

/// Covers the same-hand stack shows at most.
pub const SAME_HAND_TILES: usize = 4;

/// Suggestions shown before "Show N more".
pub const SUGGESTIONS_COLLAPSED: usize = 5;

/// What the same-hand cluster shows for the author's `n` linkable other
/// books: the kicker, the owned count (this book and those), how many
/// covers fit the stack, and how many more the footer counts.
pub open spec fn same_hand_plan_of(author: Seq<char>, n: int) -> (Seq<char>, int, int, int) {
    let shown = if n < SAME_HAND_TILES {
        n
    } else {
        SAME_HAND_TILES as int
    };
    (
        if author.len() == 0 {
            "More to read"@
        } else {
            "More by "@ + author
        },
        n + 1,
        shown,
        n - shown,
    )
}

/// The same-hand cluster's kicker and counts.
pub fn same_hand_plan(primary_author: &str, linkable: usize) -> (r: (String, usize, usize, usize))
    requires
        linkable < usize::MAX,
    ensures
        (r.0@, r.1 as int, r.2 as int, r.3 as int) == same_hand_plan_of(
            primary_author@,
            linkable as int,
        ),
{
    let shown = if linkable < SAME_HAND_TILES {
        linkable
    } else {
        SAME_HAND_TILES
    };
    let kicker = if primary_author.unicode_len() == 0 {
        string_of("More to read")
    } else {
        let mut k = string_of("More by ");
        push_str(&mut k, primary_author);
        k
    };
    (kicker, linkable + 1, shown, linkable - shown)
}

/// The author lead card's count line: "N book(s) in your library".
pub fn owned_line(owned: usize) -> (out: String)
    ensures
        out@ == crate::num::nat_digits(owned as nat) + if owned == 1 {
            " book in your library"@
        } else {
            " books in your library"@
        },
{
    let mut out = String::new();
    crate::num::push_u64(&mut out, owned as u64);
    if owned == 1 {
        push_str(&mut out, " book in your library");
    } else {
        push_str(&mut out, " books in your library");
    }
    out
}

/// The portrait's tooltip: never "Open 's author page" for a blank name.
pub fn portrait_title(author: &str) -> (out: String)
    ensures
        out@ == if trim(author@).len() == 0 {
            "Open author page"@
        } else {
            "Open "@ + author@ + "'s author page"@
        },
{
    let v = to_chars(author);
    let t = crate::text::trimmed(&v);
    if t.len() == 0 {
        string_of("Open author page")
    } else {
        let mut out = string_of("Open ");
        push_str(&mut out, author);
        push_str(&mut out, "'s author page");
        out
    }
}

/// How many of `total` suggestions show, and the "Show N more" label while
/// some are folded away.
pub open spec fn suggestions_window_of(total: int, expanded: bool) -> (int, Option<Seq<char>>) {
    let collapsed = if total < SUGGESTIONS_COLLAPSED {
        total
    } else {
        SUGGESTIONS_COLLAPSED as int
    };
    if expanded {
        (total, None)
    } else if total > collapsed {
        (collapsed, Some("Show "@ + crate::num::nat_digits((total - collapsed) as nat) + " more"@))
    } else {
        (collapsed, None)
    }
}

/// The suggestions strip's window.
pub fn suggestions_window(total: usize, expanded: bool) -> (r: (usize, Option<String>))
    ensures
        (r.0 as int, match r.1 {
            Some(l) => Some(l@),
            None => None,
        }) == suggestions_window_of(total as int, expanded),
{
    let collapsed = if total < SUGGESTIONS_COLLAPSED {
        total
    } else {
        SUGGESTIONS_COLLAPSED
    };
    if expanded {
        (total, None)
    } else if total > collapsed {
        let mut label = string_of("Show ");
        crate::num::push_u64(&mut label, (total - collapsed) as u64);
        push_str(&mut label, " more");
        (collapsed, Some(label))
    } else {
        (collapsed, None)
    }
}

} // verus!
