//! The book-detail marquee: its running order of sections, the short
//! chapter title its home stop shows, and when a description is long enough
//! to need a "more" toggle.

use vstd::prelude::*;
use crate::text::{push_str, string_of, char_is_white_space, from_chars, is_white_space, push_char, to_chars, trim, trimmed};

verus! {

/// The marquee's sections in running order, each with the two-digit number
/// the dot rail and the section label print.
pub const MARQUEE_SECTIONS: [(&'static str, &'static str); 6] = [
    ("01", "Home"),
    ("02", "Stats"),
    ("03", "Highlights"),
    ("04", "Journals"),
    ("05", "The files"),
    ("06", "More"),
];

/// Characters a chapter title never shows: it is at most this long before
/// it is cut at a word boundary and ellipsized.
pub const CHAPTER_TITLE_CAP: usize = 32;

/// Whitespace positions at or before `k` in `t`: the last one that is at
/// least 1.
pub open spec fn last_break(t: Seq<char>, k: int) -> Option<int>
    decreases k,
{
    if k < 1 {
        None
    } else if k < t.len() && is_white_space(t[k]) {
        Some(k)
    } else {
        last_break(t, k - 1)
    }
}

/// Characters trimmed off the end of a cut title: whitespace and the
/// punctuation a cut can leave dangling.
pub open spec fn is_tail_char(c: char) -> bool {
    is_white_space(c) || c == ',' || c == '-' || c == '\u{2013}' || c == '\u{2014}' || c == ':'
        || c == ';'
}

/// `s` without its trailing [`is_tail_char`] characters.
pub open spec fn trim_tail(s: Seq<char>) -> Seq<char>
    decreases s.len(),
{
    if s.len() > 0 && is_tail_char(s.last()) {
        trim_tail(s.drop_last())
    } else {
        s
    }
}

/// The title the home stop shows for a chapter: the trimmed title when it
/// fits the cap; otherwise the longest run of whole words that fits (the
/// first `CAP` characters when even the first word does not), stripped of
/// trailing punctuation, with an ellipsis.
pub open spec fn short_title(title: Seq<char>) -> Seq<char> {
    let t = trim(title);
    if t.len() <= CHAPTER_TITLE_CAP {
        t
    } else {
        let head = match last_break(t, CHAPTER_TITLE_CAP as int) {
            Some(b) => t.take(b),
            None => t.take(CHAPTER_TITLE_CAP as int),
        };
        trim_tail(head).push('\u{2026}')
    }
}

fn char_is_tail(c: char) -> (b: bool)
    ensures
        b == is_tail_char(c),
{
    char_is_white_space(c) || c == ',' || c == '-' || c == '\u{2013}' || c == '\u{2014}' || c
        == ':' || c == ';'
}

proof fn lemma_trim_tail_prefix(s: Seq<char>, n: int)
    requires
        0 <= n <= s.len(),
        forall|j: int| n <= j < s.len() ==> is_tail_char(#[trigger] s[j]),
    ensures
        trim_tail(s) == trim_tail(s.take(n)),
    decreases s.len() - n,
{
    if n < s.len() {
        assert(s.drop_last().take(n) =~= s.take(n));
        assert forall|j: int| n <= j < s.drop_last().len() implies is_tail_char(
            #[trigger] s.drop_last()[j],
        ) by {
            assert(s.drop_last()[j] == s[j]);
        }
        lemma_trim_tail_prefix(s.drop_last(), n);
    } else {
        assert(s.take(n) =~= s);
    }
}

/// The chapter title as the marquee's home stop shows it.
pub fn short_chapter_title(title: &str) -> (out: String)
    ensures
        out@ == short_title(title@),
{
    let chars = to_chars(title);
    let t = trimmed(&chars);
    if t.len() <= CHAPTER_TITLE_CAP {
        return from_chars(&t);
    }
    let mut k: usize = CHAPTER_TITLE_CAP;
    while k >= 1 && !char_is_white_space(t[k])
        invariant
            k <= CHAPTER_TITLE_CAP < t.len(),
            last_break(t@, CHAPTER_TITLE_CAP as int) == last_break(t@, k as int),
        decreases k,
    {
        k -= 1;
    }
    let cut: usize = if k >= 1 {
        k
    } else {
        CHAPTER_TITLE_CAP
    };
    let mut end: usize = cut;
    while end > 0 && char_is_tail(t[end - 1])
        invariant
            end <= cut <= t.len(),
            forall|j: int| end <= j < cut ==> is_tail_char(#[trigger] t@[j]),
        decreases end,
    {
        end -= 1;
    }
    proof {
        let head = t@.take(cut as int);
        assert forall|j: int| end <= j < head.len() implies is_tail_char(#[trigger] head[j]) by {
            assert(head[j] == t@[j]);
        }
        lemma_trim_tail_prefix(head, end as int);
        assert(head.take(end as int) =~= t@.take(end as int));
        let h = t@.take(end as int);
        assert(end == 0 || !is_tail_char(h.last()));
        assert(trim_tail(h) == h);
    }
    let mut out = String::new();
    let mut i: usize = 0;
    while i < end
        invariant
            i <= end <= t.len(),
            out@ == t@.take(i as int),
        decreases end - i,
    {
        push_char(&mut out, t[i]);
        proof {
            assert(t@.take(i as int + 1) =~= t@.take(i as int).push(t@[i as int]));
        }
        i += 1;
    }
    push_char(&mut out, '\u{2026}');
    out
}

// ── Description clamp ─────────────────────────────────────────────

/// Words a description may have before the five-line clamp can hide any of
/// it.
pub const DESC_CLAMP_WORDS: usize = 60;

/// Where a left-to-right reading of a description's markup stands: inside
/// a tag, inside a word, and how many words of text have started.
pub struct WordScan {
    pub in_tag: bool,
    pub in_word: bool,
    pub words: nat,
}

/// Reading one more character. A tag is not text and ends any word.
pub open spec fn scan_step(st: WordScan, c: char) -> WordScan {
    if st.in_tag {
        if c == '>' {
            WordScan { in_tag: false, in_word: false, words: st.words }
        } else {
            st
        }
    } else if c == '<' {
        WordScan { in_tag: true, in_word: false, words: st.words }
    } else if is_white_space(c) {
        WordScan { in_tag: false, in_word: false, words: st.words }
    } else if st.in_word {
        st
    } else {
        WordScan { in_tag: false, in_word: true, words: st.words + 1 }
    }
}

/// The reading of all of `s`.
pub open spec fn scan_words(s: Seq<char>) -> WordScan
    decreases s.len(),
{
    if s.len() == 0 {
        WordScan { in_tag: false, in_word: false, words: 0 }
    } else {
        scan_step(scan_words(s.drop_last()), s.last())
    }
}

/// Words of visible text in an HTML description.
pub open spec fn visible_words(s: Seq<char>) -> nat {
    scan_words(s).words
}

proof fn lemma_scan_words_bound(s: Seq<char>)
    ensures
        scan_words(s).words <= s.len(),
    decreases s.len(),
{
    if s.len() > 0 {
        lemma_scan_words_bound(s.drop_last());
    }
}

/// Whether a description has more visible words than the clamp shows, so
/// it needs the "more" toggle.
pub fn description_overflows(html: &str) -> (b: bool)
    ensures
        b == (visible_words(html@) > DESC_CLAMP_WORDS),
{
    let v = to_chars(html);
    let mut in_tag = false;
    let mut in_word = false;
    let mut words: usize = 0;
    let mut i: usize = 0;
    while i < v.len()
        invariant
            i <= v.len(),
            words <= i,
            v@ == html@,
            scan_words(v@.take(i as int)) == (WordScan {
                in_tag,
                in_word,
                words: words as nat,
            }),
        decreases v.len() - i,
    {
        proof {
            let t = v@.take(i as int + 1);
            assert(t.drop_last() =~= v@.take(i as int));
            assert(t.last() == v@[i as int]);
            lemma_scan_words_bound(t);
        }
        let c = v[i];
        if in_tag {
            if c == '>' {
                in_tag = false;
                in_word = false;
            }
        } else if c == '<' {
            in_tag = true;
            in_word = false;
        } else if char_is_white_space(c) {
            in_word = false;
        } else if !in_word {
            in_word = true;
            words = words + 1;
        }
        i += 1;
    }
    proof {
        assert(v@.take(v.len() as int) =~= v@);
    }
    words > DESC_CLAMP_WORDS
}

// ── The stage ─────────────────────────────────────────────────────

/// A wishlist-only book (no files, on the reader's wishlist) shows the
/// design's empty states in place of its stops.
pub open spec fn wish_mode_of(is_fileless: bool, on_wishlist: bool) -> bool {
    is_fileless && on_wishlist
}

/// Whether the Stats stop speaks of listening: the book has audio and
/// nothing to read.
pub open spec fn audio_only_of(has_audio: bool, has_ebook: bool, has_comic: bool) -> bool {
    has_audio && !has_ebook && !has_comic
}

/// Whether the stops show the wishlist empty states.
pub fn stage_wish_mode(is_fileless: bool, on_wishlist: bool) -> (b: bool)
    ensures
        b == wish_mode_of(is_fileless, on_wishlist),
{
    is_fileless && on_wishlist
}

/// Whether the Stats stop reports listening rather than reading.
pub fn stage_audio_only(has_audio: bool, has_ebook: bool, has_comic: bool) -> (b: bool)
    ensures
        b == audio_only_of(has_audio, has_ebook, has_comic),
{
    has_audio && !has_ebook && !has_comic
}

/// The stage's load counter: each load of the page-wide data takes a new
/// number, and a fetch's results are applied only while its number is
/// still the latest, so a slow fetch for a previous book never lands over
/// the current one.
#[derive(Clone, Copy, Debug)]
pub struct LoadSeq {
    pub current: u64,
}

impl LoadSeq {
    /// No load yet.
    pub fn new() -> (s: Self)
        ensures
            s.current == 0,
    {
        LoadSeq { current: 0 }
    }

    /// A new load starts; the result is its number.
    pub fn begin(&mut self) -> (token: u64)
        requires
            old(self).current < u64::MAX,
        ensures
            token == old(self).current + 1,
            final(self).current == token,
    {
        self.current = self.current + 1;
        self.current
    }

    /// Whether results fetched under `token` may still be applied.
    pub fn is_current(&self, token: u64) -> (b: bool)
        ensures
            b == (token == self.current),
    {
        token == self.current
    }
}

/// Once a later load has begun, an earlier load's results are stale.
pub proof fn lemma_earlier_load_is_stale(first: u64, second: u64, now: LoadSeq)
    requires
        first < second,
        second <= now.current,
    ensures
        first != now.current,
{
}

/// The section's name and number.
pub open spec fn sec_no(i: int) -> Seq<char> {
    MARQUEE_SECTIONS@[i].0@
}

pub open spec fn sec_name(i: int) -> Seq<char> {
    MARQUEE_SECTIONS@[i].1@
}

/// One dot of the rail, the first lit.
pub open spec fn dot_of(i: int) -> Seq<char> {
    "<button type=\"button\" class=\"bdmq-dotrow"@ + (if i == 0 {
        " on"@
    } else {
        Seq::empty()
    }) + "\" title=\""@ + sec_name(i) + "\" data-testid=\"bdmq-dot-"@ + crate::num::int_digits(i)
        + "\"><i></i><span class=\"lb\">"@ + sec_no(i) + " \u{b7} "@ + sec_name(i)
        + "</span></button>"@
}

/// The first `n` dots.
pub open spec fn dots_of(n: int) -> Seq<char>
    decreases n,
{
    if n <= 0 {
        Seq::empty()
    } else {
        dots_of(n - 1) + dot_of(n - 1)
    }
}

/// One section: its label ("NN / last — Name"), the stop's markup, and
/// the pointer to the next section on all but the last.
pub open spec fn section_of(i: int, stop: Seq<char>) -> Seq<char> {
    "<section class=\"bdmq-sec\" data-testid=\"bdmq-sec-"@ + crate::num::int_digits(i)
        + "\"><div class=\"bdmq-seclab\">"@ + sec_no(i) + " / "@ + sec_no(5) + " \u{2014} <b>"@
        + sec_name(i)
        + "</b></div><div class=\"bdmq-panel\"><div class=\"bdmq-panel-inner\">"@ + stop
        + "</div></div>"@ + (if i < 5 {
        "<div class=\"bdmq-next\" aria-hidden=\"true\">scroll \u{2014} next: "@ + sec_name(i + 1)
            + "<span class=\"arr\">\u{2193}</span></div>"@
    } else {
        Seq::empty()
    }) + "</section>"@
}

/// The first `n` sections.
pub open spec fn sections_of(stops: Seq<Seq<char>>, n: int) -> Seq<char>
    decreases n,
{
    if n <= 0 {
        Seq::empty()
    } else {
        sections_of(stops, n - 1) + section_of(n - 1, stops[n - 1])
    }
}

/// The whole stage around the stops' own markup: the parallax cover, the
/// dot rail, and the snapping sections.
pub open spec fn stage_of(cover: Seq<char>, stops: Seq<Seq<char>>) -> Seq<char> {
    "<div class=\"bdmq-stage\" id=\"bdmq-stage\"><div class=\"bdmq-coverwrap\" aria-hidden=\"true\"><div class=\"bdmq-coverpx\" id=\"bdmq-coverpx\">"@
        + cover
        + "</div></div><nav class=\"bdmq-dots\" aria-label=\"Page sections\" data-testid=\"bdmq-dots\">"@
        + dots_of(6) + "</nav><div class=\"bdmq-snap\" id=\"bdmq-snap\">"@ + sections_of(stops, 6)
        + "</div></div>"@
}

fn push_dot(out: &mut String, i: usize)
    requires
        i < 6,
    ensures
        final(out)@ == old(out)@ + dot_of(i as int),
{
    let ghost start = out@;
    push_str(out, "<button type=\"button\" class=\"bdmq-dotrow");
    if i == 0 {
        push_str(out, " on");
    }
    push_str(out, "\" title=\"");
    push_str(out, MARQUEE_SECTIONS[i].1);
    push_str(out, "\" data-testid=\"bdmq-dot-");
    crate::num::push_i64(out, i as i64);
    push_str(out, "\"><i></i><span class=\"lb\">");
    push_str(out, MARQUEE_SECTIONS[i].0);
    push_str(out, " \u{b7} ");
    push_str(out, MARQUEE_SECTIONS[i].1);
    push_str(out, "</span></button>");
    assert(out@ =~= start + dot_of(i as int));
}

fn push_section(out: &mut String, i: usize, stop: &str)
    requires
        i < 6,
    ensures
        final(out)@ == old(out)@ + section_of(i as int, stop@),
{
    let ghost start = out@;
    push_str(out, "<section class=\"bdmq-sec\" data-testid=\"bdmq-sec-");
    crate::num::push_i64(out, i as i64);
    push_str(out, "\"><div class=\"bdmq-seclab\">");
    push_str(out, MARQUEE_SECTIONS[i].0);
    push_str(out, " / ");
    push_str(out, MARQUEE_SECTIONS[5].0);
    push_str(out, " \u{2014} <b>");
    push_str(out, MARQUEE_SECTIONS[i].1);
    push_str(out, "</b></div><div class=\"bdmq-panel\"><div class=\"bdmq-panel-inner\">");
    push_str(out, stop);
    push_str(out, "</div></div>");
    if i < 5 {
        push_str(out, "<div class=\"bdmq-next\" aria-hidden=\"true\">scroll \u{2014} next: ");
        push_str(out, MARQUEE_SECTIONS[i + 1].1);
        push_str(out, "<span class=\"arr\">\u{2193}</span></div>");
    }
    push_str(out, "</section>");
    assert(out@ =~= start + section_of(i as int, stop@));
}

/// Markup of the stage around the six stops' markup (in running order)
/// and the cover's.
pub fn render_stage(cover: &str, stops: &Vec<String>) -> (html: String)
    requires
        stops@.len() == 6,
    ensures
        html@ == stage_of(cover@, stops@.map_values(|s: String| s@)),
{
    let ghost sv = stops@.map_values(|s: String| s@);
    let mut out = string_of(
        "<div class=\"bdmq-stage\" id=\"bdmq-stage\"><div class=\"bdmq-coverwrap\" aria-hidden=\"true\"><div class=\"bdmq-coverpx\" id=\"bdmq-coverpx\">",
    );
    push_str(&mut out, cover);
    push_str(
        &mut out,
        "</div></div><nav class=\"bdmq-dots\" aria-label=\"Page sections\" data-testid=\"bdmq-dots\">",
    );
    let ghost d0 = out@;
    let mut i: usize = 0;
    while i < 6
        invariant
            i <= 6,
            out@ == d0 + dots_of(i as int),
        decreases 6 - i,
    {
        push_dot(&mut out, i);
        i += 1;
    }
    push_str(&mut out, "</nav><div class=\"bdmq-snap\" id=\"bdmq-snap\">");
    let ghost s0 = out@;
    let mut j: usize = 0;
    while j < 6
        invariant
            j <= 6,
            stops@.len() == 6,
            sv == stops@.map_values(|s: String| s@),
            out@ == s0 + sections_of(sv, j as int),
        decreases 6 - j,
    {
        push_section(&mut out, j, stops[j].as_str());
        j += 1;
    }
    push_str(&mut out, "</div></div>");
    assert(out@ =~= stage_of(cover@, sv));
    out
}

} // verus!
