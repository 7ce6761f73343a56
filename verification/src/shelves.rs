//! The More stop's shelf beside the book: the series shelf's header, its
//! "up next" entry and captions, and the hand-picked shelves that hold a
//! standalone book.

use vstd::prelude::*;
use crate::markup::{escaped, push_escaped};
use crate::num::{nat_digits, push_u64};
use crate::text::{chars_eq, push_str, string_of, to_chars};

verus! {

// ── Series shelf ──────────────────────────────────────────────────

/// The series header: the series' name, then how many of its books the
/// library holds, when that is known and not zero.
pub open spec fn series_header_of(name: Seq<char>, count: i64) -> Seq<char> {
    name + if count > 0 {
        " \u{b7} "@ + nat_digits(count as nat) + " in your library"@
    } else {
        Seq::empty()
    }
}

/// The series header's text; `count` is 0 until the series has loaded.
pub fn series_shelf_header(name: &str, count: i64) -> (out: String)
    ensures
        out@ == series_header_of(name@, count),
{
    let mut out = string_of(name);
    if count > 0 {
        push_str(&mut out, " \u{b7} ");
        push_u64(&mut out, count as u64);
        push_str(&mut out, " in your library");
    }
    out
}

/// Whether `o` is the uuid `cur`.
pub open spec fn is_uuid(o: Option<String>, cur: Seq<char>) -> bool {
    o matches Some(u) && u@ == cur
}

/// The position of the first entry whose uuid is `cur`.
pub open spec fn first_uuid_index(uuids: Seq<Option<String>>, cur: Seq<char>) -> Option<int>
    decreases uuids.len(),
{
    if uuids.len() == 0 {
        None
    } else if is_uuid(uuids[0], cur) {
        Some(0)
    } else {
        match first_uuid_index(uuids.drop_first(), cur) {
            Some(i) => Some(i + 1),
            None => None,
        }
    }
}

/// The series entry after the current book, by the shelf's order: the
/// uuid of the entry that follows the first one carrying `cur`, if there
/// is such an entry and it has a uuid.
pub open spec fn up_next_of(uuids: Seq<Option<String>>, cur: Seq<char>) -> Option<Seq<char>> {
    match first_uuid_index(uuids, cur) {
        Some(i) => if i + 1 < uuids.len() {
            match uuids[i + 1] {
                Some(u) => Some(u@),
                None => None,
            }
        } else {
            None
        },
        None => None,
    }
}

proof fn lemma_first_uuid_index_bounds(uuids: Seq<Option<String>>, cur: Seq<char>)
    ensures
        first_uuid_index(uuids, cur) matches Some(i) ==> 0 <= i < uuids.len() && is_uuid(
            uuids[i],
            cur,
        ),
    decreases uuids.len(),
{
    if uuids.len() > 0 && !is_uuid(uuids[0], cur) {
        lemma_first_uuid_index_bounds(uuids.drop_first(), cur);
    }
}

/// Whether the uuid `o` is `cur`.
fn uuid_is(o: &Option<String>, cur: &Vec<char>) -> (b: bool)
    ensures
        b == is_uuid(*o, cur@),
{
    match o {
        Some(u) => {
            let uv = to_chars(u.as_str());
            chars_eq(&uv, cur)
        },
        None => false,
    }
}

/// The uuid of the series entry the "Up next" pill marks, given the
/// shelf's uuids in order and the current book's.
pub fn up_next(uuids: &Vec<Option<String>>, current: &str) -> (r: Option<String>)
    ensures
        match r {
            Some(u) => up_next_of(uuids@, current@) == Some(u@),
            None => up_next_of(uuids@, current@) is None,
        },
{
    let cur = to_chars(current);
    let ghost v = uuids@;
    let mut k: usize = 0;
    proof {
        assert(v.skip(0) =~= v);
    }
    while k < uuids.len()
        invariant
            k <= uuids.len(),
            v == uuids@,
            cur@ == current@,
            first_uuid_index(v, cur@) == match first_uuid_index(v.skip(k as int), cur@) {
                Some(i) => Some(i + k),
                None => None,
            },
        decreases uuids.len() - k,
    {
        proof {
            assert(v.skip(k as int)[0] == v[k as int]);
            assert(v.skip(k as int).drop_first() =~= v.skip(k as int + 1));
        }
        if uuid_is(&uuids[k], &cur) {
            if k + 1 < uuids.len() {
                return match &uuids[k + 1] {
                    Some(u) => Some(u.clone()),
                    None => None,
                };
            }
            return None;
        }
        k += 1;
    }
    proof {
        assert(v.skip(k as int) =~= Seq::<Option<String>>::empty());
    }
    None
}

/// A shelf entry's caption: its place in the series, and whether it is
/// the book on screen.
pub open spec fn item_caption_of(index: Option<Seq<char>>, current: bool) -> Seq<char> {
    match index {
        Some(n) => if current {
            "Book "@ + n + " \u{b7} this book"@
        } else {
            "Book "@ + n
        },
        None => if current {
            "this book"@
        } else {
            Seq::empty()
        },
    }
}

/// The caption under a series entry (empty: no caption line).
pub fn series_item_caption(series_index: Option<&str>, current: bool) -> (out: String)
    ensures
        out@ == item_caption_of(
            match series_index {
                Some(n) => Some(n@),
                None => None,
            },
            current,
        ),
{
    let mut out = String::new();
    match series_index {
        Some(n) => {
            push_str(&mut out, "Book ");
            push_str(&mut out, n);
            if current {
                push_str(&mut out, " \u{b7} this book");
            }
        },
        None => {
            if current {
                push_str(&mut out, "this book");
            }
        },
    }
    out
}

// ── Standalone shelves ────────────────────────────────────────────

/// A hand-picked shelf.
#[derive(Debug)]
pub struct ShelfSummary {
    pub id: i64,
    pub name: String,
    pub accent: Option<String>,
}

/// The shelves among `all` whose id is in `ids`, in `all`'s order.
pub open spec fn held_shelves(all: Seq<ShelfSummary>, ids: Seq<i64>) -> Seq<ShelfSummary> {
    all.filter(|s: ShelfSummary| ids.contains(s.id))
}

fn contains_id(ids: &Vec<i64>, id: i64) -> (b: bool)
    ensures
        b == ids@.contains(id),
{
    let mut k: usize = 0;
    while k < ids.len()
        invariant
            k <= ids.len(),
            forall|j: int| 0 <= j < k ==> ids@[j] != id,
        decreases ids.len() - k,
    {
        if ids[k] == id {
            return true;
        }
        k += 1;
    }
    false
}

/// The shelves that hold the book: every shelf whose id the server listed
/// for it, in the library's shelf order.
pub fn shelves_holding(all: Vec<ShelfSummary>, ids: &Vec<i64>) -> (held: Vec<ShelfSummary>)
    ensures
        held@ == held_shelves(all@, ids@),
{
    let ghost whole = all@;
    assert(whole.len() == all.len());
    let mut rest = all;
    let mut out: Vec<ShelfSummary> = Vec::new();
    let mut k: usize = 0;
    proof {
        assert(whole.skip(0) =~= whole);
        assert(whole.take(0) =~= Seq::<ShelfSummary>::empty());
    }
    while rest.len() > 0
        invariant
            k + rest@.len() == whole.len(),
            whole.len() <= usize::MAX,
            rest@ == whole.skip(k as int),
            out@ == held_shelves(whole.take(k as int), ids@),
        decreases rest.len(),
    {
        let s = rest.remove(0);
        proof {
            reveal_with_fuel(Seq::filter, 1);
            assert(whole.take(k as int + 1).drop_last() =~= whole.take(k as int));
            assert(whole.take(k as int + 1).last() == s);
            assert(rest@ =~= whole.skip(k as int + 1));
        }
        if contains_id(ids, s.id) {
            out.push(s);
        }
        k += 1;
    }
    proof {
        assert(whole.take(k as int) =~= whole);
    }
    out
}

/// One shelf chip; the first carries the `first` class, and a shelf with
/// an accent colours its chip.
pub open spec fn shelf_chip(s: ShelfSummary, first: bool) -> Seq<char> {
    "<span class=\""@ + (if first {
        "chip bdmq-shelfchip first"@
    } else {
        "chip bdmq-shelfchip"@
    }) + "\""@ + (match s.accent {
        Some(a) => " style=\"--accent:"@ + escaped(a@) + ";\""@,
        None => Seq::empty(),
    }) + ">"@ + escaped(s.name@) + "</span>"@
}

/// The chips of `held`, from position `from` on.
pub open spec fn shelf_chips_from(held: Seq<ShelfSummary>, n: int) -> Seq<char>
    decreases n,
{
    if n <= 0 {
        Seq::empty()
    } else {
        shelf_chips_from(held, n - 1) + shelf_chip(held[n - 1], n - 1 == 0)
    }
}

/// The chip row of the shelves holding the book.
pub open spec fn shelf_chips_of(held: Seq<ShelfSummary>) -> Seq<char> {
    "<div class=\"bdmq-chips bdmq-shelfchips\" data-testid=\"bdmq-shelves\">"@ + shelf_chips_from(
        held,
        held.len() as int,
    ) + "</div>"@
}

/// Markup of the chip row of the shelves holding the book.
pub fn shelf_chips(held: &Vec<ShelfSummary>) -> (html: String)
    ensures
        html@ == shelf_chips_of(held@),
{
    let mut out = string_of("<div class=\"bdmq-chips bdmq-shelfchips\" data-testid=\"bdmq-shelves\">");
    let ghost head = out@;
    let mut i: usize = 0;
    while i < held.len()
        invariant
            i <= held.len(),
            out@ == head + shelf_chips_from(held@, i as int),
        decreases held.len() - i,
    {
        let ghost before = out@;
        let s = &held[i];
        push_str(&mut out, "<span class=\"");
        if i == 0 {
            push_str(&mut out, "chip bdmq-shelfchip first");
        } else {
            push_str(&mut out, "chip bdmq-shelfchip");
        }
        push_str(&mut out, "\"");
        match &s.accent {
            Some(a) => {
                push_str(&mut out, " style=\"--accent:");
                push_escaped(&mut out, a.as_str());
                push_str(&mut out, ";\"");
            },
            None => {},
        }
        push_str(&mut out, ">");
        push_escaped(&mut out, s.name.as_str());
        push_str(&mut out, "</span>");
        proof {
            assert(out@ =~= before + shelf_chip(held@[i as int], i == 0));
        }
        i += 1;
    }
    push_str(&mut out, "</div>");
    assert(out@ =~= shelf_chips_of(held@));
    out
}

} // verus!
