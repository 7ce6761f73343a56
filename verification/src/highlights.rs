//! The book-detail page's saved passages: the human locator for a
//! highlight's CFI, the reader deep link that opens it, each passage's card
//! and the section that lists them.

use vstd::prelude::*;
use vstd::string::StringSliceAdditionalSpecFns;
use vstd::utf8::encode_utf8;

use crate::dates::{fmt_long_date, long_date};
use crate::markup::{escaped, push_escaped};
use crate::chapter_ref::{cfi_spine_ordinal, chapter_for_cfi, chapter_index_for_cfi, spine_ordinal};
use crate::num::{int_digits, nat_digits, push_u64};
use crate::text::{from_chars, push_char, push_str, string_of, to_chars, trim, trimmed};

verus! {

/// Upper-case hexadecimal digit for `d` in `0..16`.
pub open spec fn hex_digit(d: int) -> char {
    if d < 10 {
        (d + 48) as char
    } else {
        (d + 55) as char
    }
}

/// An unreserved URL byte (`A–Z a–z 0–9 - _ . ~`), kept verbatim.
pub open spec fn unreserved(b: u8) -> bool {
    (65 <= b <= 90) || (97 <= b <= 122) || (48 <= b <= 57) || b == 45 || b == 95 || b == 46 || b
        == 126
}

/// One byte, percent-encoded unless unreserved.
pub open spec fn encode_byte(b: u8) -> Seq<char> {
    if unreserved(b) {
        seq![b as char]
    } else {
        seq!['%', hex_digit(b as int / 16), hex_digit(b as int % 16)]
    }
}

/// Every byte of `bytes`, encoded in turn.
pub open spec fn encode_bytes(bytes: Seq<u8>) -> Seq<char>
    decreases bytes.len(),
{
    if bytes.len() == 0 {
        Seq::empty()
    } else {
        encode_bytes(bytes.drop_last()) + encode_byte(bytes.last())
    }
}

fn hex_char(d: u8) -> (c: char)
    requires
        d < 16,
    ensures
        c == hex_digit(d as int),
{
    if d < 10 {
        (d + 48) as char
    } else {
        (d + 55) as char
    }
}

fn is_unreserved(b: u8) -> (r: bool)
    ensures
        r == unreserved(b),
{
    (65 <= b && b <= 90) || (97 <= b && b <= 122) || (48 <= b && b <= 57) || b == 45 || b == 95
        || b == 46 || b == 126
}

/// Percent-encode a path/query segment, byte by byte of its UTF-8 form.
pub fn percent_encode(s: &str) -> (out: String)
    ensures
        out@ == encode_bytes(s.spec_bytes()),
{
    let bytes = s.as_bytes();
    let mut out = String::new();
    let mut i: usize = 0;
    while i < bytes.len()
        invariant
            i <= bytes.len(),
            bytes@ == s.spec_bytes(),
            out@ == encode_bytes(bytes@.take(i as int)),
        decreases bytes.len() - i,
    {
        let b = bytes[i];
        let ghost before = out@;
        if is_unreserved(b) {
            push_char(&mut out, b as char);
        } else {
            push_char(&mut out, '%');
            push_char(&mut out, hex_char(b / 16));
            push_char(&mut out, hex_char(b % 16));
        }
        proof {
            assert(bytes@.take(i as int + 1).drop_last() =~= bytes@.take(i as int));
            assert(out@ =~= before + encode_byte(b));
        }
        i += 1;
    }
    proof {
        assert(bytes@.take(bytes.len() as int) =~= bytes@);
    }
    out
}

/// Reader URL that opens `book_uuid` at `cfi`.
pub fn reader_deep_link(book_uuid: &str, cfi: &str) -> (out: String)
    ensures
        out@ == "/read/"@ + encode_bytes(book_uuid.spec_bytes()) + "?cfi="@ + encode_bytes(
            cfi.spec_bytes(),
        ),
{
    let mut out = string_of("/read/");
    let u = percent_encode(book_uuid);
    push_str(&mut out, u.as_str());
    push_str(&mut out, "?cfi=");
    let c = percent_encode(cfi);
    push_str(&mut out, c.as_str());
    out
}

/// The highlights section kicker.
pub fn passages_kicker(count: usize) -> (out: String)
    ensures
        out@ == if count == 0 {
            "Quotes \u{00b7} none saved"@
        } else {
            "Quotes \u{00b7} "@ + nat_digits(count as nat) + " saved "@ + if count == 1 {
                "passage"@
            } else {
                "passages"@
            }
        },
{
    if count == 0 {
        return string_of("Quotes \u{00b7} none saved");
    }
    let mut out = string_of("Quotes \u{00b7} ");
    push_u64(&mut out, count as u64);
    push_str(&mut out, " saved ");
    if count == 1 {
        push_str(&mut out, "passage");
    } else {
        push_str(&mut out, "passages");
    }
    out
}

/// One chapter of a book's table of contents, as the locator reads it.
pub struct Chapter {
    pub title: String,
    /// 0-based spine item the chapter starts in.
    pub spine_index: i64,
}

/// Each chapter's spine index, in TOC order.
pub open spec fn spine_of(chapters: Seq<Chapter>) -> Seq<i64> {
    chapters.map_values(|c: Chapter| c.spine_index)
}

/// The locator a highlight's CFI gets: the resolved chapter's trimmed title
/// when it has one, else `Section N` for the 1-based spine ordinal, else
/// nothing.
pub open spec fn locator_of(cfi: Seq<char>, chapters: Seq<Chapter>) -> Option<Seq<char>> {
    let titled = match chapter_for_cfi(spine_of(chapters), cfi) {
        Some(i) if 0 <= i < chapters.len() && trim(chapters[i].title@).len() > 0 => Some(
            trim(chapters[i].title@),
        ),
        _ => None,
    };
    match titled {
        Some(t) => Some(t),
        None => match spine_ordinal(cfi) {
            Some(n) => Some("Section "@ + int_digits(n)),
            None => None,
        },
    }
}

fn spine_indices(chapters: &Vec<Chapter>) -> (out: Vec<i64>)
    ensures
        out@ == spine_of(chapters@),
{
    let mut out: Vec<i64> = Vec::new();
    let mut i: usize = 0;
    while i < chapters.len()
        invariant
            i <= chapters.len(),
            out@ == spine_of(chapters@.take(i as int)),
        decreases chapters.len() - i,
    {
        out.push(chapters[i].spine_index);
        proof {
            assert(spine_of(chapters@.take(i as int + 1)) =~= spine_of(chapters@.take(i as int)).push(
                chapters@[i as int].spine_index,
            ));
        }
        i += 1;
    }
    proof {
        assert(chapters@.take(chapters.len() as int) =~= chapters@);
    }
    out
}

/// Human locator for a highlight's CFI: the chapter's title, or the spine
/// "Section N" when no titled chapter resolves; `None` when the CFI has no
/// readable spine step.
pub fn highlight_locator(cfi: &str, chapters: &Vec<Chapter>) -> (r: Option<String>)
    ensures
        match locator_of(cfi@, chapters@) {
            Some(t) => r matches Some(s) && s@ == t,
            None => r is None,
        },
{
    let spine = spine_indices(chapters);
    match chapter_index_for_cfi(spine.as_slice(), cfi) {
        Some(idx) => {
            let title = to_chars(chapters[idx].title.as_str());
            let t = trimmed(&title);
            if t.len() > 0 {
                return Some(from_chars(&t));
            }
        },
        None => {},
    }
    match cfi_spine_ordinal(cfi) {
        Some(n) => {
            let mut out = string_of("Section ");
            push_u64(&mut out, n as u64);
            Some(out)
        },
        None => None,
    }
}


// ── Cards ─────────────────────────────────────────────────────────

/// The colour a passage was highlighted in.
#[derive(Clone, Copy, PartialEq, Eq, Structural, Debug)]
pub enum HighlightColor {
    Yellow,
    Green,
    Blue,
    Pink,
    Violet,
}

/// The colour's name, as CSS variables and data attributes spell it.
pub open spec fn color_name(c: HighlightColor) -> Seq<char> {
    match c {
        HighlightColor::Yellow => "yellow"@,
        HighlightColor::Green => "green"@,
        HighlightColor::Blue => "blue"@,
        HighlightColor::Pink => "pink"@,
        HighlightColor::Violet => "violet"@,
    }
}

impl HighlightColor {
    /// The colour's name.
    pub fn as_str(self) -> (s: &'static str)
        ensures
            s@ == color_name(self),
    {
        match self {
            HighlightColor::Yellow => "yellow",
            HighlightColor::Green => "green",
            HighlightColor::Blue => "blue",
            HighlightColor::Pink => "pink",
            HighlightColor::Violet => "violet",
        }
    }
}

/// One saved passage.
#[derive(Clone, Debug)]
pub struct Highlight {
    pub id: i64,
    pub book_uuid: String,
    /// Where the passage sits; a passage synced from a Kobo has none.
    pub epub_cfi_range: Option<String>,
    pub color: HighlightColor,
    pub note: Option<String>,
    /// The passage's text; rows saved before the text was kept have none.
    pub text: Option<String>,
    pub client_id: Option<String>,
    pub created_at: i64,
}

/// The card's meta line: locator and saved date, or the date alone when
/// the passage has no position or the position names no section.
pub open spec fn hl_meta_line(h: Highlight, chapters: Seq<Chapter>, offset: int) -> Seq<char> {
    let date = long_date(h.created_at + offset);
    match h.epub_cfi_range {
        Some(cfi) => match locator_of(cfi@, chapters) {
            Some(loc) => loc + " \u{00b7} saved "@ + date,
            None => "saved "@ + date,
        },
        None => "saved "@ + date,
    }
}

/// ` disabled` when `on`.
pub open spec fn disabled_if(on: bool) -> Seq<char> {
    if on {
        " disabled"@
    } else {
        Seq::empty()
    }
}

/// The card's quote and note.
pub open spec fn hl_card_head(h: Highlight) -> Seq<char> {
    "<article class=\"card bd-hl-card\" data-testid=\"highlight-card\" data-color=\""@ + color_name(
        h.color,
    ) + "\" style=\"border-left-color: var(--hl-"@ + color_name(h.color)
        + ");\"><blockquote class=\"bd-hl-quote\">\u{201c}"@ + escaped(
        match h.text {
            Some(t) => t@,
            None => "(highlighted passage)"@,
        },
    ) + "\u{201d}</blockquote>"@ + match h.note {
        Some(n) => "<p class=\"bd-hl-note\" data-testid=\"highlight-note\">"@ + escaped(n@)
            + "</p>"@,
        None => Seq::empty(),
    }
}

/// The card's actions: open in the reader (when the passage has a
/// position), quote card and copy (disabled without text), delete.
pub open spec fn hl_card_actions(h: Highlight) -> Seq<char> {
    "<div class=\"bd-hl-actions\">"@ + match h.epub_cfi_range {
        Some(cfi) => "<a href=\""@ + escaped(
            "/read/"@ + encode_bytes(encode_utf8(h.book_uuid@)) + "?cfi="@ + encode_bytes(encode_utf8(cfi@)),
        ) + "\" class=\"bd-hl-act\" data-testid=\"highlight-open\">open in book \u{2192}</a>"@,
        None => Seq::empty(),
    } + "<button class=\"bd-hl-act\" type=\"button\" data-testid=\"highlight-quote\""@
        + disabled_if(h.text is None)
        + ">quote card \u{2192}</button><button class=\"bd-hl-act\" type=\"button\" data-testid=\"highlight-copy\""@
        + disabled_if(h.text is None)
        + ">copy</button><button class=\"bd-hl-act bd-hl-delete\" type=\"button\" data-testid=\"highlight-delete\">delete</button></div>"@
}

/// One saved passage's card.
pub open spec fn hl_card_markup(h: Highlight, chapters: Seq<Chapter>, offset: int) -> Seq<char> {
    hl_card_head(h)
        + "<div class=\"bd-hl-foot\"><span class=\"mono bd-hl-meta\" data-testid=\"highlight-meta\">"@
        + escaped(hl_meta_line(h, chapters, offset)) + "</span>"@ + hl_card_actions(h)
        + "</div></article>"@
}

fn push_disabled_if(out: &mut String, on: bool)
    ensures
        final(out)@ == old(out)@ + disabled_if(on),
{
    if on {
        push_str(out, " disabled");
    } else {
        assert(old(out)@ + disabled_if(on) =~= old(out)@);
    }
}

fn hl_meta(h: &Highlight, chapters: &Vec<Chapter>, offset_secs: i64) -> (out: String)
    requires
        i64::MIN <= h.created_at + offset_secs <= i64::MAX,
    ensures
        out@ == hl_meta_line(*h, chapters@, offset_secs as int),
{
    let date = fmt_long_date(h.created_at, offset_secs);
    let loc = match &h.epub_cfi_range {
        Some(cfi) => highlight_locator(cfi.as_str(), chapters),
        None => None,
    };
    let mut out = match loc {
        Some(l) => {
            let mut o = l;
            push_str(&mut o, " \u{00b7} saved ");
            o
        },
        None => string_of("saved "),
    };
    push_str(&mut out, date.as_str());
    out
}

fn push_hl_head(out: &mut String, h: &Highlight)
    ensures
        final(out)@ == old(out)@ + hl_card_head(*h),
{
    let ghost start = out@;
    let color = h.color.as_str();
    push_str(out, "<article class=\"card bd-hl-card\" data-testid=\"highlight-card\" data-color=\"");
    push_str(out, color);
    push_str(out, "\" style=\"border-left-color: var(--hl-");
    push_str(out, color);
    push_str(out, ");\"><blockquote class=\"bd-hl-quote\">\u{201c}");
    match &h.text {
        Some(t) => push_escaped(out, t.as_str()),
        None => push_escaped(out, "(highlighted passage)"),
    }
    push_str(out, "\u{201d}</blockquote>");
    let ghost mid = out@;
    match &h.note {
        Some(n) => {
            push_str(out, "<p class=\"bd-hl-note\" data-testid=\"highlight-note\">");
            push_escaped(out, n.as_str());
            push_str(out, "</p>");
        },
        None => {},
    }
    assert(out@ =~= start + hl_card_head(*h));
}

fn push_hl_actions(out: &mut String, h: &Highlight)
    ensures
        final(out)@ == old(out)@ + hl_card_actions(*h),
{
    let ghost start = out@;
    push_str(out, "<div class=\"bd-hl-actions\">");
    match &h.epub_cfi_range {
        Some(cfi) => {
            push_str(out, "<a href=\"");
            let href = reader_deep_link(h.book_uuid.as_str(), cfi.as_str());
            push_escaped(out, href.as_str());
            push_str(out, "\" class=\"bd-hl-act\" data-testid=\"highlight-open\">open in book \u{2192}</a>");
        },
        None => {},
    }
    let ghost mid = out@;
    let no_text = h.text.is_none();
    push_str(out, "<button class=\"bd-hl-act\" type=\"button\" data-testid=\"highlight-quote\"");
    push_disabled_if(out, no_text);
    push_str(
        out,
        ">quote card \u{2192}</button><button class=\"bd-hl-act\" type=\"button\" data-testid=\"highlight-copy\"",
    );
    push_disabled_if(out, no_text);
    push_str(
        out,
        ">copy</button><button class=\"bd-hl-act bd-hl-delete\" type=\"button\" data-testid=\"highlight-delete\">delete</button></div>",
    );
    assert(out@ =~= start + hl_card_actions(*h));
}

fn push_hl_card(out: &mut String, h: &Highlight, chapters: &Vec<Chapter>, offset_secs: i64)
    requires
        i64::MIN <= h.created_at + offset_secs <= i64::MAX,
    ensures
        final(out)@ == old(out)@ + hl_card_markup(*h, chapters@, offset_secs as int),
{
    let ghost start = out@;
    push_hl_head(out, h);
    push_str(out, "<div class=\"bd-hl-foot\"><span class=\"mono bd-hl-meta\" data-testid=\"highlight-meta\">");
    let meta = hl_meta(h, chapters, offset_secs);
    push_escaped(out, meta.as_str());
    push_str(out, "</span>");
    push_hl_actions(out, h);
    push_str(out, "</div></article>");
    assert(out@ =~= start + hl_card_markup(*h, chapters@, offset_secs as int));
}

/// One saved passage: the quote (a placeholder when its text was never
/// kept), its note, the locator and saved date, and the open / quote /
/// copy / delete actions, its date on the calendar of `offset_secs`.
pub fn render_highlight_card(h: &Highlight, chapters: &Vec<Chapter>, offset_secs: i64) -> (html: String)
    requires
        i64::MIN <= h.created_at + offset_secs <= i64::MAX,
    ensures
        html@ == hl_card_markup(*h, chapters@, offset_secs as int),
{
    let mut out = String::new();
    push_hl_card(&mut out, h, chapters, offset_secs);
    out
}

// ── Section ───────────────────────────────────────────────────────

/// Passages listed before the reader expands the section.
pub const COLLAPSED_PASSAGES: usize = 5;

/// A book-detail section head: the kicker line (when there is one) over
/// the title.
pub open spec fn section_head_markup(kicker: Seq<char>, title: Seq<char>) -> Seq<char> {
    "<div class=\"bd-section-head\"><div class=\"bd-section-head-text\">"@ + (if kicker.len() > 0 {
        "<div class=\"label bd-section-kicker\">"@ + escaped(kicker) + "</div>"@
    } else {
        Seq::empty()
    }) + "<h3 class=\"bd-section-title\">"@ + escaped(title) + "</h3></div></div>"@
}

/// How many passages show: all once expanded, else at most the collapsed
/// count.
pub open spec fn visible_count(total: nat, expanded: bool) -> nat {
    if expanded || total <= COLLAPSED_PASSAGES {
        total
    } else {
        COLLAPSED_PASSAGES as nat
    }
}

/// Cards of the first `n` passages.
pub open spec fn cards_markup(list: Seq<Highlight>, chapters: Seq<Chapter>, offset: int) -> Seq<char>
    decreases list.len(),
{
    if list.len() == 0 {
        Seq::empty()
    } else {
        cards_markup(list.drop_last(), chapters, offset) + hl_card_markup(list.last(), chapters, offset)
    }
}

/// The saved-passages section: head with the count kicker, then the
/// empty note or the (possibly collapsed) list with its show-more button.
pub open spec fn highlights_section_markup(
    list: Seq<Highlight>,
    expanded: bool,
    chapters: Seq<Chapter>,
    offset: int,
) -> Seq<char> {
    let total = list.len();
    let visible = visible_count(total, expanded);
    "<div class=\"bd-highlights\" data-testid=\"highlights-section\">"@ + section_head_markup(
        kicker_text(total),
        "Passages you saved"@,
    ) + if total == 0 {
        "<div class=\"bd-journal-empty card\" data-testid=\"highlights-empty\"><p class=\"mono\">No saved passages yet \u{2014} highlight while you read to keep them here.</p></div>"@
    } else {
        "<div class=\"bd-hl-list\" data-testid=\"highlights-list\">"@ + cards_markup(
            list.take(visible as int),
            chapters,
            offset,
        ) + "</div>"@ + if total > visible {
            "<button type=\"button\" class=\"btn ghost sm bd-hl-show-more\" data-testid=\"highlights-show-more\" aria-expanded=\"false\">Show "@
                + nat_digits((total - visible) as nat) + " more \u{2193}</button>"@
        } else {
            Seq::empty()
        }
    } + "</div>"@
}

/// The section kicker's text for `count` passages.
pub open spec fn kicker_text(count: nat) -> Seq<char> {
    if count == 0 {
        "Quotes \u{00b7} none saved"@
    } else {
        "Quotes \u{00b7} "@ + nat_digits(count) + " saved "@ + if count == 1 {
            "passage"@
        } else {
            "passages"@
        }
    }
}

fn push_section_head(out: &mut String, kicker: &str, title: &str)
    ensures
        final(out)@ == old(out)@ + section_head_markup(kicker@, title@),
{
    let ghost start = out@;
    push_str(out, "<div class=\"bd-section-head\"><div class=\"bd-section-head-text\">");
    let k = to_chars(kicker);
    if k.len() > 0 {
        push_str(out, "<div class=\"label bd-section-kicker\">");
        push_escaped(out, kicker);
        push_str(out, "</div>");
    }
    push_str(out, "<h3 class=\"bd-section-title\">");
    push_escaped(out, title);
    push_str(out, "</h3></div></div>");
    assert(out@ =~= start + section_head_markup(kicker@, title@));
}

/// The saved-passages section for the loaded passages, every date on the
/// calendar of `offset_secs`.
pub fn render_highlights_section(
    list: &Vec<Highlight>,
    expanded: bool,
    chapters: &Vec<Chapter>,
    offset_secs: i64,
) -> (html: String)
    requires
        forall|i: int|
            0 <= i < list.len() ==> i64::MIN <= (#[trigger] list@[i]).created_at + offset_secs
                <= i64::MAX,
    ensures
        html@ == highlights_section_markup(list@, expanded, chapters@, offset_secs as int),
{
    let total = list.len();
    let mut out = string_of("<div class=\"bd-highlights\" data-testid=\"highlights-section\">");
    let kicker = passages_kicker(total);
    push_section_head(&mut out, kicker.as_str(), "Passages you saved");
    let ghost head = out@;
    if total == 0 {
        push_str(
            &mut out,
            "<div class=\"bd-journal-empty card\" data-testid=\"highlights-empty\"><p class=\"mono\">No saved passages yet \u{2014} highlight while you read to keep them here.</p></div>",
        );
    } else {
        let visible = if expanded || total <= COLLAPSED_PASSAGES {
            total
        } else {
            COLLAPSED_PASSAGES
        };
        push_str(&mut out, "<div class=\"bd-hl-list\" data-testid=\"highlights-list\">");
        let ghost list_start = out@;
        let mut i: usize = 0;
        while i < visible
            invariant
                i <= visible <= total == list.len(),
                forall|k: int|
                    0 <= k < list.len() ==> i64::MIN <= (#[trigger] list@[k]).created_at
                        + offset_secs <= i64::MAX,
                out@ == list_start + cards_markup(list@.take(i as int), chapters@, offset_secs as int),
            decreases visible - i,
        {
            push_hl_card(&mut out, &list[i], chapters, offset_secs);
            proof {
                let t = list@.take(i as int + 1);
                assert(t.drop_last() =~= list@.take(i as int));
                assert(t.last() == list@[i as int]);
            }
            i += 1;
        }
        push_str(&mut out, "</div>");
        if total > visible {
            push_str(
                &mut out,
                "<button type=\"button\" class=\"btn ghost sm bd-hl-show-more\" data-testid=\"highlights-show-more\" aria-expanded=\"false\">Show ",
            );
            push_u64(&mut out, (total - visible) as u64);
            push_str(&mut out, " more \u{2193}</button>");
        }
    }
    push_str(&mut out, "</div>");
    assert(out@ =~= highlights_section_markup(list@, expanded, chapters@, offset_secs as int));
    out
}

} // verus!
