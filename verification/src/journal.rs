//! The book's reading journal as the detail page shows it: the one-line
//! excerpt of an entry, the section kickers, and the two-line ladder row.

use vstd::prelude::*;
use crate::dates::{fmt_long_date, long_date};
use crate::markup::{avatar_markup, escaped, push_avatar, push_escaped};
use crate::num::{int_digits, nat_digits, push_i64, push_u64};
use crate::text::{
    lines, lines_of, push_chars, find_char, from_chars, lemma_index_of_bounds, push_char, push_str,
    slice_of, string_of, to_chars, trim, trimmed, index_of,
};

verus! {

/// Characters of an excerpt shown before it is cut with an ellipsis.
pub const LADDER_EXCERPT_CHARS: usize = 160;

/// What stands in for a `||spoiler||` span in an always-visible excerpt.
pub open spec fn spoiler_block() -> Seq<char> {
    seq!['\u{2588}', '\u{2588}', '\u{2588}']
}

/// The first line of `s` (lines end at `\n`) that is not blank, trimmed;
/// empty when every line is blank.
pub open spec fn first_nonblank_line(s: Seq<char>) -> Seq<char>
    decreases s.len(),
{
    match index_of(s, '\n') {
        Some(i) => {
            proof {
                lemma_index_of_bounds(s, '\n');
            }
            if trim(s.take(i)).len() > 0 {
                trim(s.take(i))
            } else {
                first_nonblank_line(s.skip(i + 1))
            }
        },
        None => trim(s),
    }
}

/// `s` with `||`-delimited spoiler spans masked: reading left to right,
/// each `||` toggles between shown and hidden text, and each hidden span
/// (even an empty or unclosed one) is written as one block.
pub open spec fn mask_spoilers(s: Seq<char>, hidden: bool) -> Seq<char>
    decreases s.len(),
{
    if s.len() == 0 {
        Seq::empty()
    } else if s.len() >= 2 && s[0] == '|' && s[1] == '|' {
        (if hidden {
            Seq::empty()
        } else {
            spoiler_block()
        }) + mask_spoilers(s.skip(2), !hidden)
    } else {
        (if hidden {
            Seq::empty()
        } else {
            seq![s[0]]
        }) + mask_spoilers(s.drop_first(), hidden)
    }
}

/// Markdown markers an excerpt drops.
pub open spec fn is_markup_char(c: char) -> bool {
    c == '*' || c == '_' || c == '>' || c == '#' || c == '`'
}

/// `s` without its markdown markers.
pub open spec fn drop_markup(s: Seq<char>) -> Seq<char>
    decreases s.len(),
{
    if s.len() == 0 {
        Seq::empty()
    } else if is_markup_char(s.last()) {
        drop_markup(s.drop_last())
    } else {
        drop_markup(s.drop_last()).push(s.last())
    }
}

/// `s.trim_start_matches("- ")`.
pub open spec fn strip_bullets(s: Seq<char>) -> Seq<char>
    decreases s.len(),
{
    if s.len() >= 2 && s[0] == '-' && s[1] == ' ' {
        strip_bullets(s.skip(2))
    } else {
        s
    }
}

/// The one-line excerpt of a markdown journal body.
pub open spec fn excerpt_of(md: Seq<char>) -> Seq<char> {
    let line = first_nonblank_line(md);
    let text = trim(strip_bullets(drop_markup(mask_spoilers(line, false))));
    if text.len() > LADDER_EXCERPT_CHARS {
        text.take(LADDER_EXCERPT_CHARS as int).push('\u{2026}')
    } else {
        text
    }
}

fn first_line_chars(v: &Vec<char>) -> (out: Vec<char>)
    ensures
        out@ == first_nonblank_line(v@),
{
    let n = v.len();
    let mut pos: usize = 0;
    proof {
        assert(v@.subrange(0, n as int) =~= v@);
    }
    loop
        invariant
            pos <= n,
            n == v.len(),
            first_nonblank_line(v@) == first_nonblank_line(v@.subrange(pos as int, n as int)),
        decreases n - pos,
    {
        let ghost rest = v@.subrange(pos as int, n as int);
        match find_char(v, '\n', pos) {
            Some(j) => {
                proof {
                    lemma_index_of_bounds(rest, '\n');
                    assert(rest.take(j - pos) =~= v@.subrange(pos as int, j as int));
                    assert(rest.skip(j - pos + 1) =~= v@.subrange(j as int + 1, n as int));
                }
                let line = slice_of(v, pos, j);
                let t = trimmed(&line);
                if t.len() > 0 {
                    return t;
                }
                if j + 1 > n {
                    return Vec::new();
                }
                pos = j + 1;
            },
            None => {
                let line = slice_of(v, pos, n);
                return trimmed(&line);
            },
        }
    }
}

fn mask_spoiler_chars(v: &Vec<char>) -> (out: Vec<char>)
    ensures
        out@ == mask_spoilers(v@, false),
{
    let n = v.len();
    let mut out: Vec<char> = Vec::new();
    let mut hidden = false;
    let mut i: usize = 0;
    proof {
        assert(v@.skip(0) =~= v@);
        assert(out@ + mask_spoilers(v@.skip(0), false) =~= mask_spoilers(v@, false));
    }
    while i < n
        invariant
            i <= n == v.len(),
            out@ + mask_spoilers(v@.skip(i as int), hidden) == mask_spoilers(v@, false),
        decreases n - i,
    {
        let ghost s = v@.skip(i as int);
        let ghost before = out@;
        if i + 1 < n && v[i] == '|' && v[i + 1] == '|' {
            if !hidden {
                out.push('\u{2588}');
                out.push('\u{2588}');
                out.push('\u{2588}');
            }
            proof {
                assert(s.skip(2) =~= v@.skip(i as int + 2));
                assert(out@ =~= before + (if hidden {
                    Seq::empty()
                } else {
                    spoiler_block()
                }));
                assert(before + ((if hidden {
                    Seq::empty()
                } else {
                    spoiler_block()
                }) + mask_spoilers(s.skip(2), !hidden)) =~= out@ + mask_spoilers(
                    s.skip(2),
                    !hidden,
                ));
            }
            hidden = !hidden;
            i += 2;
        } else {
            if !hidden {
                out.push(v[i]);
            }
            proof {
                assert(s.drop_first() =~= v@.skip(i as int + 1));
                assert(s[0] == v@[i as int]);
                assert(out@ =~= before + (if hidden {
                    Seq::empty()
                } else {
                    seq![s[0]]
                }));
                assert(before + ((if hidden {
                    Seq::empty()
                } else {
                    seq![s[0]]
                }) + mask_spoilers(s.drop_first(), hidden)) =~= out@ + mask_spoilers(
                    s.drop_first(),
                    hidden,
                ));
            }
            i += 1;
        }
    }
    proof {
        assert(v@.skip(n as int) =~= Seq::<char>::empty());
        assert(out@ + Seq::<char>::empty() =~= out@);
    }
    out
}

fn drop_markup_chars(v: &Vec<char>) -> (out: Vec<char>)
    ensures
        out@ == drop_markup(v@),
{
    let mut out: Vec<char> = Vec::new();
    let mut i: usize = 0;
    while i < v.len()
        invariant
            i <= v.len(),
            out@ == drop_markup(v@.take(i as int)),
        decreases v.len() - i,
    {
        let c = v[i];
        proof {
            let t = v@.take(i as int + 1);
            assert(t.drop_last() =~= v@.take(i as int));
            assert(t.last() == c);
        }
        if !(c == '*' || c == '_' || c == '>' || c == '#' || c == '`') {
            out.push(c);
        }
        i += 1;
    }
    proof {
        assert(v@.take(v.len() as int) =~= v@);
    }
    out
}

fn strip_bullet_chars(v: &Vec<char>) -> (out: Vec<char>)
    ensures
        out@ == strip_bullets(v@),
{
    let n = v.len();
    let mut i: usize = 0;
    proof {
        assert(v@.skip(0) =~= v@);
    }
    while n - i > 1 && v[i] == '-' && v[i + 1] == ' '
        invariant
            i <= n == v.len(),
            strip_bullets(v@) == strip_bullets(v@.skip(i as int)),
        decreases n - i,
    {
        proof {
            assert(v@.skip(i as int).skip(2) =~= v@.skip(i as int + 2));
        }
        i += 2;
    }
    proof {
        assert(v@.skip(i as int) =~= v@.subrange(i as int, n as int));
    }
    slice_of(v, i, n)
}

/// First non-empty line of a markdown body, markup stripped and spoilers
/// masked, capped for the one-line ladder row.
pub fn journal_excerpt(md: &str) -> (out: String)
    ensures
        out@ == excerpt_of(md@),
{
    let v = to_chars(md);
    let line = first_line_chars(&v);
    let masked = mask_spoiler_chars(&line);
    let stripped = drop_markup_chars(&masked);
    let bare = strip_bullet_chars(&stripped);
    let text = trimmed(&bare);
    if text.len() > LADDER_EXCERPT_CHARS {
        let head = slice_of(&text, 0, LADDER_EXCERPT_CHARS);
        let mut out = from_chars(&head);
        push_char(&mut out, '\u{2026}');
        proof {
            assert(head@ =~= text@.take(LADDER_EXCERPT_CHARS as int));
        }
        out
    } else {
        from_chars(&text)
    }
}

// ── Kickers ───────────────────────────────────────────────────────

/// `singular` for exactly one, else `plural`.
pub open spec fn word_for(n: int, singular: Seq<char>, plural: Seq<char>) -> Seq<char> {
    if n == 1 {
        singular
    } else {
        plural
    }
}

/// The W4 journal stop's kicker.
pub open spec fn w4_kicker(published: nat, readers: nat, drafts: nat, wish_mode: bool) -> Seq<char> {
    if wish_mode {
        "The journal \u{b7} empty"@
    } else if published + drafts == 0 {
        "The journal \u{b7} no entries yet"@
    } else {
        "The journal \u{b7} "@ + nat_digits(published) + " "@ + word_for(
            published as int,
            "entry"@,
            "entries"@,
        ) + " from "@ + nat_digits(readers) + " "@ + word_for(
            readers as int,
            "reader"@,
            "readers"@,
        ) + if drafts > 0 {
            " \u{b7} "@ + nat_digits(drafts) + " "@ + word_for(drafts as int, "draft"@, "drafts"@)
        } else {
            Seq::empty()
        }
    }
}

/// The W4 journal kicker: `The journal · N entries from M readers · d draft`.
pub fn w4_journal_kicker(published: usize, readers: usize, drafts: usize, wish_mode: bool) -> (out: String)
    ensures
        out@ == w4_kicker(published as nat, readers as nat, drafts as nat, wish_mode),
{
    if wish_mode {
        return string_of("The journal \u{b7} empty");
    }
    if published == 0 && drafts == 0 {
        return string_of("The journal \u{b7} no entries yet");
    }
    let mut out = string_of("The journal \u{b7} ");
    push_u64(&mut out, published as u64);
    push_str(&mut out, if published == 1 { " entry" } else { " entries" });
    push_str(&mut out, " from ");
    push_u64(&mut out, readers as u64);
    push_str(&mut out, if readers == 1 { " reader" } else { " readers" });
    if drafts > 0 {
        push_str(&mut out, " \u{b7} ");
        push_u64(&mut out, drafts as u64);
        push_str(&mut out, if drafts == 1 { " draft" } else { " drafts" });
    }
    proof {
        reveal_strlit(" entry");
        reveal_strlit(" entries");
        reveal_strlit(" reader");
        reveal_strlit(" readers");
        reveal_strlit(" draft");
        reveal_strlit(" drafts");
        reveal_strlit(" ");
        reveal_strlit("entry");
        reveal_strlit("entries");
        reveal_strlit("reader");
        reveal_strlit("readers");
        reveal_strlit("draft");
        reveal_strlit("drafts");
    }
    assert(out@ =~= w4_kicker(published as nat, readers as nat, drafts as nat, wish_mode));
    out
}

// ── Entries ───────────────────────────────────────────────────────

/// Whether an entry is a private draft or published to every reader.
#[derive(Clone, Copy, PartialEq, Eq, Structural, Debug)]
pub enum JournalStatus {
    Draft,
    Published,
}

/// One journal entry as the server sends it.
#[derive(Clone, Debug)]
pub struct JournalEntry {
    pub id: i64,
    pub book_uuid: String,
    pub author_id: i64,
    pub author_name: String,
    pub author_has_avatar: bool,
    pub body_md: String,
    pub body_html: String,
    /// Reading progress (percent) the author was at, when they shared it.
    pub progress: Option<i64>,
    pub status: JournalStatus,
    pub client_id: Option<String>,
    pub created_at: i64,
    pub updated_at: i64,
}

/// Author ids of the entries, in order.
pub open spec fn author_ids(list: Seq<JournalEntry>) -> Seq<i64> {
    list.map_values(|e: JournalEntry| e.author_id)
}

/// `s` with every value after its first occurrence dropped.
pub open spec fn dedup_first(s: Seq<i64>) -> Seq<i64>
    decreases s.len(),
{
    if s.len() == 0 {
        Seq::empty()
    } else if dedup_first(s.drop_last()).contains(s.last()) {
        dedup_first(s.drop_last())
    } else {
        dedup_first(s.drop_last()).push(s.last())
    }
}

/// The first-occurrence dedup holds each value once and the same values.
pub proof fn lemma_dedup_first(s: Seq<i64>)
    ensures
        dedup_first(s).no_duplicates(),
        dedup_first(s).to_set() == s.to_set(),
        dedup_first(s).len() == s.to_set().len(),
    decreases s.len(),
{
    if s.len() > 0 {
        lemma_dedup_first(s.drop_last());
        let d = dedup_first(s.drop_last());
        assert(s.to_set() =~= s.drop_last().to_set().insert(s.last())) by {
            assert forall|x: i64| s.contains(x) <==> (s.drop_last().contains(x) || x == s.last()) by {
                if s.contains(x) {
                    let k = choose|k: int| 0 <= k < s.len() && s[k] == x;
                    if k < s.len() - 1 {
                        assert(s.drop_last()[k] == x);
                    }
                }
                if s.drop_last().contains(x) {
                    let k = choose|k: int| 0 <= k < s.drop_last().len() && s.drop_last()[k] == x;
                    assert(s[k] == x);
                }
                if x == s.last() {
                    assert(s[s.len() - 1] == x);
                }
            }
        }
        if !d.contains(s.last()) {
            assert(d.push(s.last()).to_set() =~= d.to_set().insert(s.last())) by {
                assert forall|x: i64| d.push(s.last()).contains(x) <==> (d.contains(x) || x == s.last()) by {
                    if d.push(s.last()).contains(x) {
                        let k = choose|k: int| 0 <= k < d.push(s.last()).len() && d.push(s.last())[k] == x;
                        if k < d.len() {
                            assert(d[k] == x);
                        }
                    }
                    if d.contains(x) {
                        let k = choose|k: int| 0 <= k < d.len() && d[k] == x;
                        assert(d.push(s.last())[k] == x);
                    }
                    if x == s.last() {
                        assert(d.push(s.last())[d.len() as int] == x);
                    }
                }
            }
        } else {
            assert(s.drop_last().to_set().contains(s.last()));
            assert(s.drop_last().to_set().insert(s.last()) =~= s.drop_last().to_set());
        }
        dedup_first(s).unique_seq_to_set();
    } else {
        assert(s.to_set() =~= Set::<i64>::empty());
        assert(dedup_first(s).to_set() =~= Set::<i64>::empty());
    }
}

fn contains_id(v: &Vec<i64>, x: i64) -> (r: bool)
    ensures
        r == v@.contains(x),
{
    let mut i: usize = 0;
    while i < v.len()
        invariant
            i <= v.len(),
            forall|k: int| 0 <= k < i ==> v@[k] != x,
        decreases v.len() - i,
    {
        if v[i] == x {
            assert(v@[i as int] == x);
            return true;
        }
        i += 1;
    }
    false
}

/// The entries' authors, each once, in order of their first entry.
pub fn journal_readers(list: &[JournalEntry]) -> (out: Vec<i64>)
    ensures
        out@ == dedup_first(author_ids(list@)),
{
    let mut out: Vec<i64> = Vec::new();
    let mut i: usize = 0;
    while i < list.len()
        invariant
            i <= list.len(),
            out@ == dedup_first(author_ids(list@.take(i as int))),
        decreases list.len() - i,
    {
        let id = list[i].author_id;
        proof {
            let t = author_ids(list@.take(i as int + 1));
            assert(t.drop_last() =~= author_ids(list@.take(i as int)));
            assert(t.last() == id);
        }
        if !contains_id(&out, id) {
            out.push(id);
        }
        i += 1;
    }
    proof {
        assert(list@.take(list.len() as int) =~= list@);
    }
    out
}

/// Entries that are not drafts.
pub open spec fn published_count(list: Seq<JournalEntry>) -> nat
    decreases list.len(),
{
    if list.len() == 0 {
        0
    } else {
        published_count(list.drop_last()) + if list.last().status == JournalStatus::Draft {
            0nat
        } else {
            1nat
        }
    }
}

/// How many entries are published (the rest are drafts).
pub fn count_published(list: &[JournalEntry]) -> (n: usize)
    ensures
        n == published_count(list@),
        n <= list.len(),
{
    let mut n: usize = 0;
    let mut i: usize = 0;
    while i < list.len()
        invariant
            i <= list.len(),
            n == published_count(list@.take(i as int)),
            n <= i,
        decreases list.len() - i,
    {
        proof {
            let t = list@.take(i as int + 1);
            assert(t.drop_last() =~= list@.take(i as int));
            assert(t.last() == list@[i as int]);
        }
        if list[i].status != JournalStatus::Draft {
            n += 1;
        }
        i += 1;
    }
    proof {
        assert(list@.take(list.len() as int) =~= list@);
    }
    n
}

/// The W4 stop's kicker for a list of entries.
pub fn w4_kicker_for(list: &[JournalEntry], wish_mode: bool) -> (out: String)
    ensures
        out@ == w4_kicker(
            published_count(list@),
            author_ids(list@).to_set().len(),
            (list@.len() - published_count(list@)) as nat,
            wish_mode,
        ),
{
    let published = count_published(list);
    let readers = journal_readers(list);
    proof {
        lemma_dedup_first(author_ids(list@));
    }
    w4_journal_kicker(published, readers.len(), list.len() - published, wish_mode)
}

/// The section-head kicker of the journal list (mobile).
pub open spec fn list_kicker(list: Seq<JournalEntry>) -> Seq<char> {
    if list.len() == 0 {
        "Reading journal \u{b7} no entries yet"@
    } else {
        let readers = author_ids(list).to_set().len();
        "Reading journal \u{b7} "@ + nat_digits(list.len()) + " "@ + word_for(
            list.len() as int,
            "entry"@,
            "entries"@,
        ) + " from "@ + nat_digits(readers) + " "@ + word_for(
            readers as int,
            "reader"@,
            "readers"@,
        )
    }
}

/// The section-head kicker text: entry/reader counts, or an empty-state
/// note.
pub fn journal_kicker(list: &[JournalEntry]) -> (out: String)
    ensures
        out@ == list_kicker(list@),
{
    if list.len() == 0 {
        return string_of("Reading journal \u{b7} no entries yet");
    }
    let readers = journal_readers(list);
    proof {
        lemma_dedup_first(author_ids(list@));
    }
    let mut out = string_of("Reading journal \u{b7} ");
    push_u64(&mut out, list.len() as u64);
    push_str(&mut out, if list.len() == 1 { " entry" } else { " entries" });
    push_str(&mut out, " from ");
    push_u64(&mut out, readers.len() as u64);
    push_str(&mut out, if readers.len() == 1 { " reader" } else { " readers" });
    proof {
        reveal_strlit(" entry");
        reveal_strlit(" entries");
        reveal_strlit(" reader");
        reveal_strlit(" readers");
        reveal_strlit(" ");
        reveal_strlit("entry");
        reveal_strlit("entries");
        reveal_strlit("reader");
        reveal_strlit("readers");
    }
    assert(out@ =~= list_kicker(list@));
    out
}

// ── Ladder row ────────────────────────────────────────────────────

/// The date / progress stamp of a row: "May 17, 2026 · at 42%".
pub open spec fn row_stamp(e: JournalEntry, offset: int) -> Seq<char> {
    long_date(e.created_at + offset) + match e.progress {
        Some(p) => " \u{b7} at "@ + int_digits(p as int) + "%"@,
        None => Seq::empty(),
    }
}

/// Who wrote a row's entry: avatar, author (with "· you" on the viewer's
/// own entries) and a draft chip.
pub open spec fn row_who(e: JournalEntry, current_user: Option<i64>) -> Seq<char> {
    avatar_markup(e.author_id as int, e.author_name@, e.author_has_avatar, None, "bdw4-lrow-avatar"@)
        + "<span class=\"nm\">"@ + escaped(e.author_name@) + "</span>"@ + (if current_user == Some(
        e.author_id,
    ) {
        "<span class=\"you\"> \u{b7} you</span>"@
    } else {
        Seq::empty()
    }) + (if e.status == JournalStatus::Draft {
        "<span class=\"bdw4-draftchip\" data-testid=\"journal-draft-chip-row\">Draft</span>"@
    } else {
        Seq::empty()
    })
}

/// The top line of a ladder row: who wrote it, then the date and progress
/// stamp.
pub open spec fn row_top(e: JournalEntry, current_user: Option<i64>, offset: int) -> Seq<char> {
    "<span class=\"bdw4-lrow-top\">"@ + row_who(e, current_user) + "<span class=\"at\">"@
        + row_stamp(e, offset) + "</span></span>"@
}

/// The second line of a ladder row: the excerpt and the read affordance.
pub open spec fn row_body(e: JournalEntry) -> Seq<char> {
    "<span class=\"bdw4-lrow-body\"><span class=\"ex\">"@ + escaped(excerpt_of(e.body_md@))
        + "</span><span class=\"rd\">read \u{2192}</span></span>"@
}

/// The two-line excerpt-ladder row of an entry.
pub open spec fn ladder_row_markup(e: JournalEntry, current_user: Option<i64>, offset: int) -> Seq<char> {
    "<button type=\"button\" class=\""@ + (if e.status == JournalStatus::Draft {
        "bdw4-lrow draft"@
    } else {
        "bdw4-lrow"@
    }) + "\" data-testid=\"journal-ladder-row\">"@ + row_top(e, current_user, offset) + row_body(e)
        + "</button>"@
}

fn push_row_who(out: &mut String, entry: &JournalEntry, current_user: Option<i64>)
    ensures
        final(out)@ == old(out)@ + row_who(*entry, current_user),
{
    let ghost start = out@;
    push_avatar(
        out,
        entry.author_id,
        entry.author_name.as_str(),
        entry.author_has_avatar,
        None,
        "bdw4-lrow-avatar",
    );
    push_str(out, "<span class=\"nm\">");
    push_escaped(out, entry.author_name.as_str());
    push_str(out, "</span>");
    let mine = match current_user {
        Some(u) => u == entry.author_id,
        None => false,
    };
    if mine {
        push_str(out, "<span class=\"you\"> \u{b7} you</span>");
    }
    if entry.status == JournalStatus::Draft {
        push_str(
            out,
            "<span class=\"bdw4-draftchip\" data-testid=\"journal-draft-chip-row\">Draft</span>",
        );
    }
    assert(out@ =~= start + row_who(*entry, current_user));
}

fn push_row_stamp(out: &mut String, entry: &JournalEntry, offset_secs: i64)
    requires
        i64::MIN <= entry.created_at + offset_secs <= i64::MAX,
    ensures
        final(out)@ == old(out)@ + row_stamp(*entry, offset_secs as int),
{
    let ghost start = out@;
    let date = fmt_long_date(entry.created_at, offset_secs);
    push_str(out, date.as_str());
    match entry.progress {
        Some(p) => {
            push_str(out, " \u{b7} at ");
            push_i64(out, p);
            push_str(out, "%");
        },
        None => {},
    }
    assert(out@ =~= start + row_stamp(*entry, offset_secs as int));
}

/// An entry card's meta line: the day it was written on the viewer's
/// calendar, and the reading position it was written at.
pub fn entry_meta_line(entry: &JournalEntry, offset_secs: i64) -> (out: String)
    requires
        i64::MIN <= entry.created_at + offset_secs <= i64::MAX,
    ensures
        out@ == row_stamp(*entry, offset_secs as int),
{
    let mut out = String::new();
    push_row_stamp(&mut out, entry, offset_secs);
    out
}

fn push_row_top(out: &mut String, entry: &JournalEntry, current_user: Option<i64>, offset_secs: i64)
    requires
        i64::MIN <= entry.created_at + offset_secs <= i64::MAX,
    ensures
        final(out)@ == old(out)@ + row_top(*entry, current_user, offset_secs as int),
{
    let ghost start = out@;
    push_str(out, "<span class=\"bdw4-lrow-top\">");
    push_row_who(out, entry, current_user);
    push_str(out, "<span class=\"at\">");
    push_row_stamp(out, entry, offset_secs);
    push_str(out, "</span></span>");
    assert(out@ =~= start + row_top(*entry, current_user, offset_secs as int));
}

fn push_row_body(out: &mut String, entry: &JournalEntry)
    ensures
        final(out)@ == old(out)@ + row_body(*entry),
{
    let ghost start = out@;
    push_str(out, "<span class=\"bdw4-lrow-body\"><span class=\"ex\">");
    let ex = journal_excerpt(entry.body_md.as_str());
    push_escaped(out, ex.as_str());
    push_str(out, "</span><span class=\"rd\">read \u{2192}</span></span>");
    assert(out@ =~= start + row_body(*entry));
}

/// One excerpt-ladder row, its date on the calendar of `offset_secs`.
pub fn render_ladder_row(entry: &JournalEntry, current_user: Option<i64>, offset_secs: i64) -> (html: String)
    requires
        i64::MIN <= entry.created_at + offset_secs <= i64::MAX,
    ensures
        html@ == ladder_row_markup(*entry, current_user, offset_secs as int),
{
    let mut out = string_of("<button type=\"button\" class=\"");
    if entry.status == JournalStatus::Draft {
        push_str(&mut out, "bdw4-lrow draft");
    } else {
        push_str(&mut out, "bdw4-lrow");
    }
    push_str(&mut out, "\" data-testid=\"journal-ladder-row\">");
    push_row_top(&mut out, entry, current_user, offset_secs);
    push_row_body(&mut out, entry);
    push_str(&mut out, "</button>");
    assert(out@ =~= ladder_row_markup(*entry, current_user, offset_secs as int));
    out
}

/// A ladder row as the W4 stop hosts it: on the UTC calendar until the
/// viewer's local offset is known, then on their own.
#[allow(non_snake_case)]
pub fn RowHost(entry: &JournalEntry, current_user: Option<i64>, dates_ready: bool, local_offset_secs: i64) -> (html: String)
    requires
        dates_ready ==> i64::MIN <= entry.created_at + local_offset_secs <= i64::MAX,
    ensures
        html@ == ladder_row_markup(
            *entry,
            current_user,
            if dates_ready {
                local_offset_secs as int
            } else {
                0
            },
        ),
{
    let offset = if dates_ready {
        local_offset_secs
    } else {
        0
    };
    render_ladder_row(entry, current_user, offset)
}

/// A ladder row on its first paint, before the local offset is known.
pub fn render_row(entry: &JournalEntry, current_user: Option<i64>) -> (html: String)
    ensures
        html@ == ladder_row_markup(*entry, current_user, 0),
{
    RowHost(entry, current_user, false, 0)
}

/// The first-paint row of an entry the author has just turned back into a
/// draft, before the list reloads: draft chip, no progress stamp.
pub fn render_draft_row(entry: &JournalEntry, current_user: Option<i64>) -> (html: String)
    ensures
        html@ == ladder_row_markup(
            (JournalEntry { status: JournalStatus::Draft, progress: None, ..*entry }),
            current_user,
            0,
        ),
{
    let draft = JournalEntry {
        id: entry.id,
        book_uuid: entry.book_uuid.clone(),
        author_id: entry.author_id,
        author_name: entry.author_name.clone(),
        author_has_avatar: entry.author_has_avatar,
        body_md: entry.body_md.clone(),
        body_html: entry.body_html.clone(),
        progress: None,
        status: JournalStatus::Draft,
        client_id: entry.client_id.clone(),
        created_at: entry.created_at,
        updated_at: entry.updated_at,
    };
    render_row(&draft, current_user)
}

// ── Long entries ──────────────────────────────────────────────────

/// Characters of an entry's trimmed text past which the card collapses it.
pub const JOURNAL_COLLAPSE_CHAR_THRESHOLD: usize = 900;

/// Lines of an entry past which the card collapses it.
pub const JOURNAL_COLLAPSE_LINE_THRESHOLD: usize = 12;

/// Whether an entry's card offers "Show more": its trimmed text runs past
/// the character threshold, or it has more lines than the line threshold.
pub fn should_show_more_button(markdown: &str) -> (r: bool)
    ensures
        r == (trim(markdown@).len() > JOURNAL_COLLAPSE_CHAR_THRESHOLD || lines(markdown@).len()
            > JOURNAL_COLLAPSE_LINE_THRESHOLD),
{
    let v = to_chars(markdown);
    let t = trimmed(&v);
    if t.len() > JOURNAL_COLLAPSE_CHAR_THRESHOLD {
        return true;
    }
    let ls = lines_of(&v);
    proof {
        assert(ls@.map_values(|l: Vec<char>| l@).len() == ls@.len());
    }
    ls.len() > JOURNAL_COLLAPSE_LINE_THRESHOLD
}

// ── Quoting a highlight ───────────────────────────────────────────

/// Each line prefixed with "> ", the lines joined with `\n`.
pub open spec fn quoted_lines(ls: Seq<Seq<char>>) -> Seq<char>
    decreases ls.len(),
{
    if ls.len() == 0 {
        Seq::empty()
    } else if ls.len() == 1 {
        "> "@ + ls[0]
    } else {
        quoted_lines(ls.drop_last()) + "\n> "@ + ls.last()
    }
}

/// A highlight as the Markdown block the composer inserts: a blank line,
/// the text quoted line by line, then an attribution line.
pub open spec fn blockquote(text: Seq<char>) -> Seq<char> {
    "\n"@ + quoted_lines(lines(text)) + "\n>\n> \u{2014} saved from highlights\n"@
}

/// The blockquote the composer inserts for a highlight's text.
pub fn highlight_blockquote(text: &str) -> (out: String)
    ensures
        out@ == blockquote(text@),
{
    let v = to_chars(text);
    let ls = lines_of(&v);
    let ghost lv = ls@.map_values(|l: Vec<char>| l@);
    let mut out = string_of("\n");
    let mut i: usize = 0;
    while i < ls.len()
        invariant
            i <= ls@.len(),
            lv == ls@.map_values(|l: Vec<char>| l@),
            out@ == "\n"@ + quoted_lines(lv.take(i as int)),
        decreases ls.len() - i,
    {
        let ghost before = out@;
        if i > 0 {
            push_str(&mut out, "\n> ");
        } else {
            push_str(&mut out, "> ");
        }
        push_chars(&mut out, &ls[i]);
        proof {
            let t = lv.take(i as int + 1);
            assert(t.drop_last() =~= lv.take(i as int));
            assert(t.last() == ls@[i as int]@);
            if i == 0 {
                assert(t.len() == 1);
                assert(t[0] == ls@[0]@);
                assert(quoted_lines(lv.take(0)) =~= Seq::<char>::empty());
                assert(quoted_lines(t) == "> "@ + t[0]);
                assert(out@ =~= "\n"@ + quoted_lines(t));
            } else {
                assert(out@ =~= "\n"@ + quoted_lines(t));
            }
        }
        i += 1;
    }
    proof {
        assert(lv.take(ls.len() as int) =~= lv);
    }
    push_str(&mut out, "\n>\n> \u{2014} saved from highlights\n");
    out
}

} // verus!
