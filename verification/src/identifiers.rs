//! The book's identifier rows as the detail page's metadata table shows
//! them: a human label for each scheme, and one row per distinct value.

use vstd::prelude::*;

use crate::text::{
    char_is_ascii_digit, char_is_white_space, chars_eq_ignore_ascii_case, eq_ignore_ascii_case,
    from_chars, is_ascii_digit, is_lit, is_white_space, lower_ascii, push_char, push_str,
    string_of, to_ascii_lower, to_chars, trim, trimmed,
};

verus! {

/// One identifier a book carries: an optional scheme and its value.
pub struct Identifier {
    pub scheme: Option<String>,
    pub value: String,
}

/// The scheme of `i`, as characters.
pub open spec fn scheme_of(i: Identifier) -> Option<Seq<char>> {
    match i.scheme {
        Some(s) => Some(s@),
        None => None,
    }
}

// ── Row keys ──────────────────────────────────────────────────────

/// What `format!("{:?}", s)` writes for a string.
pub uninterp spec fn debug_str(s: Seq<char>) -> Seq<char>;

/// `format!("{:?}", s)` (std's `Debug` for `str`): the string quoted, with
/// quotes, backslashes and unprintable characters escaped. Its result is
/// the name `debug_str` of its argument.
#[verifier::external_body]
fn debug_quote(s: &str) -> (r: String)
    ensures
        r@ == debug_str(s@),
{
    format!("{s:?}")
}

/// `format!("{:?}", o)` for an optional string.
pub open spec fn debug_option(o: Option<Seq<char>>) -> Seq<char> {
    match o {
        Some(s) => "Some("@ + debug_str(s) + ")"@,
        None => "None"@,
    }
}

/// The list key of an identifier row: both fields `Debug`-quoted around a
/// unit separator.
pub open spec fn key_of(scheme: Option<Seq<char>>, value: Seq<char>) -> Seq<char> {
    debug_option(scheme) + seq!['\u{1f}'] + debug_str(value)
}

/// Collision-free list key for an identifier row.
pub fn bd_identifier_key(ident: &Identifier) -> (r: String)
    ensures
        r@ == key_of(scheme_of(*ident), ident.value@),
{
    let mut out = String::new();
    match &ident.scheme {
        Some(s) => {
            push_str(&mut out, "Some(");
            let q = debug_quote(s.as_str());
            push_str(&mut out, q.as_str());
            push_str(&mut out, ")");
        },
        None => push_str(&mut out, "None"),
    }
    push_char(&mut out, '\u{1f}');
    let q = debug_quote(ident.value.as_str());
    push_str(&mut out, q.as_str());
    out
}

// ── Labels ────────────────────────────────────────────────────────

/// How confidently a row's label names what it holds.
#[derive(Clone, Copy, PartialEq, Eq, Structural, Debug)]
pub enum LabelRank {
    /// Inferred from the value's shape; the scheme said nothing usable.
    Inferred,
    /// The source's own scheme, passed through as written.
    RawScheme,
    /// A scheme this table recognizes and can name properly.
    Known,
}

/// The order of confidence: `Inferred < RawScheme < Known`.
pub open spec fn rank_level(r: LabelRank) -> int {
    match r {
        LabelRank::Inferred => 0,
        LabelRank::RawScheme => 1,
        LabelRank::Known => 2,
    }
}

fn rank_above(a: LabelRank, b: LabelRank) -> (r: bool)
    ensures
        r == (rank_level(a) > rank_level(b)),
{
    let la: u8 = match a {
        LabelRank::Inferred => 0,
        LabelRank::RawScheme => 1,
        LabelRank::Known => 2,
    };
    let lb: u8 = match b {
        LabelRank::Inferred => 0,
        LabelRank::RawScheme => 1,
        LabelRank::Known => 2,
    };
    la > lb
}

/// Human label for a recognized scheme key (already trimmed and ASCII
/// lower-cased).
pub open spec fn known_label(k: Seq<char>) -> Option<Seq<char>> {
    if k == "01"@ || k == "proprietary"@ {
        Some("Proprietary ID"@)
    } else if k == "02"@ || k == "isbn-10"@ || k == "isbn10"@ {
        Some("ISBN-10"@)
    } else if k == "03"@ || k == "gtin-13"@ || k == "ean"@ || k == "ean-13"@ {
        Some("EAN-13"@)
    } else if k == "04"@ || k == "upc"@ {
        Some("UPC"@)
    } else if k == "05"@ || k == "ismn-10"@ {
        Some("ISMN-10"@)
    } else if k == "06"@ || k == "doi"@ {
        Some("DOI"@)
    } else if k == "13"@ || k == "lccn"@ {
        Some("LCCN"@)
    } else if k == "14"@ || k == "gtin-14"@ {
        Some("GTIN-14"@)
    } else if k == "15"@ || k == "isbn-13"@ || k == "isbn13"@ {
        Some("ISBN-13"@)
    } else if k == "17"@ || k == "isbn-a"@ {
        Some("ISBN-A"@)
    } else if k == "22"@ || k == "urn"@ {
        Some("URN"@)
    } else if k == "23"@ || k == "oclc"@ {
        Some("OCLC"@)
    } else if k == "24"@ || k == "url"@ || k == "uri"@ {
        Some("URL"@)
    } else if k == "25"@ || k == "ismn-13"@ {
        Some("ISMN-13"@)
    } else if k == "isbn"@ {
        Some("ISBN"@)
    } else if k == "asin"@ || k == "amazon"@ || k == "mobi-asin"@ {
        Some("ASIN"@)
    } else if k == "google"@ {
        Some("Google Books ID"@)
    } else if k == "goodreads"@ {
        Some("Goodreads ID"@)
    } else if k == "calibre"@ {
        Some("Calibre ID"@)
    } else if k == "uuid"@ {
        Some("Source UUID"@)
    } else {
        None
    }
}

/// The label a scheme gets when this table recognizes it.
pub open spec fn scheme_label(scheme: Seq<char>) -> Option<Seq<char>> {
    known_label(lower_ascii(trim(scheme)))
}

fn known_label_exec(k: &Vec<char>) -> (r: Option<&'static str>)
    ensures
        match known_label(k@) {
            Some(l) => r matches Some(x) && x@ == l,
            None => r is None,
        },
{
    if is_lit(k, "01") || is_lit(k, "proprietary") {
        Some("Proprietary ID")
    } else if is_lit(k, "02") || is_lit(k, "isbn-10") || is_lit(k, "isbn10") {
        Some("ISBN-10")
    } else if is_lit(k, "03") || is_lit(k, "gtin-13") || is_lit(k, "ean") || is_lit(k, "ean-13") {
        Some("EAN-13")
    } else if is_lit(k, "04") || is_lit(k, "upc") {
        Some("UPC")
    } else if is_lit(k, "05") || is_lit(k, "ismn-10") {
        Some("ISMN-10")
    } else if is_lit(k, "06") || is_lit(k, "doi") {
        Some("DOI")
    } else if is_lit(k, "13") || is_lit(k, "lccn") {
        Some("LCCN")
    } else if is_lit(k, "14") || is_lit(k, "gtin-14") {
        Some("GTIN-14")
    } else if is_lit(k, "15") || is_lit(k, "isbn-13") || is_lit(k, "isbn13") {
        Some("ISBN-13")
    } else if is_lit(k, "17") || is_lit(k, "isbn-a") {
        Some("ISBN-A")
    } else if is_lit(k, "22") || is_lit(k, "urn") {
        Some("URN")
    } else if is_lit(k, "23") || is_lit(k, "oclc") {
        Some("OCLC")
    } else if is_lit(k, "24") || is_lit(k, "url") || is_lit(k, "uri") {
        Some("URL")
    } else if is_lit(k, "25") || is_lit(k, "ismn-13") {
        Some("ISMN-13")
    } else if is_lit(k, "isbn") {
        Some("ISBN")
    } else if is_lit(k, "asin") || is_lit(k, "amazon") || is_lit(k, "mobi-asin") {
        Some("ASIN")
    } else if is_lit(k, "google") {
        Some("Google Books ID")
    } else if is_lit(k, "goodreads") {
        Some("Goodreads ID")
    } else if is_lit(k, "calibre") {
        Some("Calibre ID")
    } else if is_lit(k, "uuid") {
        Some("Source UUID")
    } else {
        None
    }
}

/// Human label for a scheme this table recognizes: ONIX codelist-5 numbers
/// and the scheme names Calibre and the retailers write, matched after
/// trimming and ASCII lower-casing.
pub fn bd_known_scheme_label(scheme: &str) -> (r: Option<&'static str>)
    ensures
        match scheme_label(scheme@) {
            Some(l) => r matches Some(x) && x@ == l,
            None => r is None,
        },
{
    let chars = to_chars(scheme);
    let t = trimmed(&chars);
    let k = to_ascii_lower(&t);
    known_label_exec(&k)
}

/// The characters an ISBN check ignores: whitespace and hyphens.
pub open spec fn isbn_kept(c: char) -> bool {
    !is_white_space(c) && c != '-'
}

/// `value` with whitespace and hyphens removed has the shape of an ISBN-10
/// (digits, or a trailing `X` check digit) or an ISBN-13 (digits).
pub open spec fn looks_like_isbn(value: Seq<char>) -> bool {
    let c = value.filter(|ch: char| isbn_kept(ch));
    ||| c.len() == 10 && forall|i: int|
        0 <= i < 10 ==> is_ascii_digit(#[trigger] c[i]) || (i == 9 && (c[i] == 'x' || c[i] == 'X'))
    ||| c.len() == 13 && forall|i: int| 0 <= i < 13 ==> is_ascii_digit(#[trigger] c[i])
}

/// True when `value`, with hyphens and whitespace stripped, is the right
/// length for an ISBN-10 or ISBN-13, digits-only except a trailing ISBN-10
/// `X` check digit.
pub fn bd_looks_like_isbn(value: &str) -> (r: bool)
    ensures
        r == looks_like_isbn(value@),
{
    let chars = to_chars(value);
    let mut cleaned: Vec<char> = Vec::new();
    let mut i: usize = 0;
    while i < chars.len()
        invariant
            i <= chars.len(),
            cleaned@ == chars@.take(i as int).filter(|ch: char| isbn_kept(ch)),
        decreases chars.len() - i,
    {
        let c = chars[i];
        proof {
            reveal_with_fuel(Seq::filter, 1);
            assert(chars@.take(i as int + 1).drop_last() =~= chars@.take(i as int));
        }
        if !char_is_white_space(c) && c != '-' {
            cleaned.push(c);
        }
        i += 1;
    }
    proof {
        assert(chars@.take(chars.len() as int) =~= chars@);
    }
    let ghost cv = value@.filter(|ch: char| isbn_kept(ch));
    assert(cleaned@ == cv);
    let n = cleaned.len();
    if n == 10 {
        let mut k: usize = 0;
        while k < 10
            invariant
                k <= 10 == cleaned.len(),
                cleaned@ == cv,
                cv == value@.filter(|ch: char| isbn_kept(ch)),
                forall|j: int|
                    0 <= j < k ==> is_ascii_digit(#[trigger] cleaned@[j]) || (j == 9 && (cleaned@[j]
                        == 'x' || cleaned@[j] == 'X')),
            decreases 10 - k,
        {
            let c = cleaned[k];
            if !(char_is_ascii_digit(c) || (k == 9 && (c == 'x' || c == 'X'))) {
                proof {
                    let kk = k as int;
                    assert(!(is_ascii_digit(cv[kk]) || (kk == 9 && (cv[kk] == 'x' || cv[kk] == 'X'))));
                }
                return false;
            }
            k += 1;
        }
        true
    } else if n == 13 {
        let mut k: usize = 0;
        while k < 13
            invariant
                k <= 13 == cleaned.len(),
                cleaned@ == cv,
                cv == value@.filter(|ch: char| isbn_kept(ch)),
                forall|j: int| 0 <= j < k ==> is_ascii_digit(#[trigger] cleaned@[j]),
            decreases 13 - k,
        {
            if !char_is_ascii_digit(cleaned[k]) {
                proof {
                    assert(!is_ascii_digit(cv[k as int]));
                }
                return false;
            }
            k += 1;
        }
        true
    } else {
        false
    }
}

/// The label a row gets, and how confidently: a recognized scheme's name; an
/// unrecognized named scheme as written (trimmed); otherwise `ISBN` when the
/// value looks like one, else `Identifier`. A missing, blank, `unknown` or
/// all-digit scheme never labels a row.
pub open spec fn label_ranked(scheme: Option<Seq<char>>, value: Seq<char>) -> (
    Seq<char>,
    LabelRank,
) {
    let raw_ok = match scheme {
        Some(s) => {
            let t = trim(s);
            t.len() > 0 && !eq_ignore_ascii_case(t, "unknown"@) && !(forall|i: int|
                0 <= i < t.len() ==> is_ascii_digit(#[trigger] t[i]))
        },
        None => false,
    };
    match scheme {
        Some(s) if scheme_label(s) is Some => (scheme_label(s)->0, LabelRank::Known),
        Some(s) if raw_ok => (trim(s), LabelRank::RawScheme),
        _ => if looks_like_isbn(value) {
            ("ISBN"@, LabelRank::Inferred)
        } else {
            ("Identifier"@, LabelRank::Inferred)
        },
    }
}

/// The plain label of the compact metadata table: a scheme other than
/// `unknown` (in any case) as written; otherwise `ISBN` when the value looks
/// like one, else `Identifier`.
pub open spec fn plain_label(scheme: Option<Seq<char>>, value: Seq<char>) -> Seq<char> {
    match scheme {
        Some(s) if !eq_ignore_ascii_case(s, "unknown"@) => s,
        _ => if looks_like_isbn(value) {
            "ISBN"@
        } else {
            "Identifier"@
        },
    }
}

/// Label for a row of the compact metadata table.
pub fn bd_identifier_label(ident: &Identifier) -> (r: String)
    ensures
        r@ == plain_label(scheme_of(*ident), ident.value@),
{
    match &ident.scheme {
        Some(scheme) => {
            let chars = to_chars(scheme.as_str());
            let unknown = to_chars("unknown");
            if !chars_eq_ignore_ascii_case(&chars, &unknown) {
                return scheme.clone();
            }
        },
        None => {},
    }
    if bd_looks_like_isbn(ident.value.as_str()) {
        string_of("ISBN")
    } else {
        string_of("Identifier")
    }
}

fn all_ascii_digits(v: &Vec<char>) -> (r: bool)
    ensures
        r == forall|i: int| 0 <= i < v@.len() ==> is_ascii_digit(#[trigger] v@[i]),
{
    let mut k: usize = 0;
    while k < v.len()
        invariant
            k <= v.len(),
            forall|j: int| 0 <= j < k ==> is_ascii_digit(#[trigger] v@[j]),
        decreases v.len() - k,
    {
        if !char_is_ascii_digit(v[k]) {
            return false;
        }
        k += 1;
    }
    true
}

/// Label for a file-details identifier row, plus how well the source
/// named it.
pub fn bd_identifier_label_ranked(ident: &Identifier) -> (r: (String, LabelRank))
    ensures
        (r.0@, r.1) == label_ranked(scheme_of(*ident), ident.value@),
{
    match &ident.scheme {
        Some(scheme) => {
            if let Some(label) = bd_known_scheme_label(scheme.as_str()) {
                return (string_of(label), LabelRank::Known);
            }
            let chars = to_chars(scheme.as_str());
            let t = trimmed(&chars);
            let unknown = to_chars("unknown");
            if t.len() > 0 && !chars_eq_ignore_ascii_case(&t, &unknown) && !all_ascii_digits(&t) {
                return (from_chars(&t), LabelRank::RawScheme);
            }
        },
        None => {},
    }
    if bd_looks_like_isbn(ident.value.as_str()) {
        (string_of("ISBN"), LabelRank::Inferred)
    } else {
        (string_of("Identifier"), LabelRank::Inferred)
    }
}


// ── Rows ──────────────────────────────────────────────────────────

/// One row of the book-detail identifier table.
pub struct BdIdentifierRow {
    /// List key, from the identifier the row's label came from.
    pub key: String,
    pub label: String,
    pub value: String,
}

/// A row under construction: key, label, value, and the label's rank.
pub type RankedRow = (Seq<char>, Seq<char>, Seq<char>, LabelRank);

/// Index of the first row whose value equals `v` up to ASCII case.
pub open spec fn match_index(rows: Seq<RankedRow>, v: Seq<char>) -> Option<int>
    decreases rows.len(),
{
    if rows.len() == 0 {
        None
    } else {
        match match_index(rows.drop_last(), v) {
            Some(j) => Some(j),
            None => if eq_ignore_ascii_case(rows.last().2, v) {
                Some(rows.len() - 1)
            } else {
                None
            },
        }
    }
}

/// Folding one identifier into the rows: a blank value is skipped; a value
/// already listed (up to ASCII case) keeps its row unless this identifier's
/// label is strictly better named, which then takes the row's place; a new
/// value is appended.
pub open spec fn row_step(rows: Seq<RankedRow>, ident: Identifier) -> Seq<RankedRow> {
    let v = trim(ident.value@);
    if v.len() == 0 {
        rows
    } else {
        let lr = label_ranked(scheme_of(ident), ident.value@);
        let row = (key_of(scheme_of(ident), ident.value@), lr.0, v, lr.1);
        match match_index(rows, v) {
            Some(j) => if rank_level(lr.1) > rank_level(rows[j].3) {
                rows.update(j, row)
            } else {
                rows
            },
            None => rows.push(row),
        }
    }
}

/// The rows built from `idents`, in order.
pub open spec fn ranked_rows(idents: Seq<Identifier>) -> Seq<RankedRow>
    decreases idents.len(),
{
    if idents.len() == 0 {
        Seq::empty()
    } else {
        row_step(ranked_rows(idents.drop_last()), idents.last())
    }
}

/// The table rows for `idents`: key, label, value.
pub open spec fn identifier_rows(idents: Seq<Identifier>) -> Seq<(Seq<char>, Seq<char>, Seq<char>)> {
    ranked_rows(idents).map_values(|r: RankedRow| (r.0, r.1, r.2))
}

pub open spec fn row_view(r: BdIdentifierRow) -> (Seq<char>, Seq<char>, Seq<char>) {
    (r.key@, r.label@, r.value@)
}

proof fn lemma_match_index(rows: Seq<RankedRow>, v: Seq<char>)
    ensures
        match match_index(rows, v) {
            Some(j) => 0 <= j < rows.len() && eq_ignore_ascii_case(rows[j].2, v) && forall|k: int|
                0 <= k < j ==> !eq_ignore_ascii_case(#[trigger] rows[k].2, v),
            None => forall|k: int| 0 <= k < rows.len() ==> !eq_ignore_ascii_case(#[trigger] rows[k].2, v),
        },
    decreases rows.len(),
{
    if rows.len() > 0 {
        let init = rows.drop_last();
        lemma_match_index(init, v);
        assert(forall|k: int| 0 <= k < init.len() ==> init[k] == rows[k]);
    }
}

fn find_row(rows: &Vec<(BdIdentifierRow, LabelRank)>, v: &Vec<char>) -> (r: Option<usize>)
    ensures
        match r {
            Some(j) => match_index(rows@.map_values(|p: (BdIdentifierRow, LabelRank)| (p.0.key@, p.0.label@, p.0.value@, p.1)), v@) == Some(j as int),
            None => match_index(rows@.map_values(|p: (BdIdentifierRow, LabelRank)| (p.0.key@, p.0.label@, p.0.value@, p.1)), v@) is None,
        },
        r matches Some(j) ==> j < rows.len(),
{
    let ghost view = rows@.map_values(|p: (BdIdentifierRow, LabelRank)| (p.0.key@, p.0.label@, p.0.value@, p.1));
    let mut i: usize = 0;
    while i < rows.len()
        invariant
            i <= rows.len(),
            view == rows@.map_values(|p: (BdIdentifierRow, LabelRank)| (p.0.key@, p.0.label@, p.0.value@, p.1)),
            match_index(view.take(i as int), v@) is None,
        decreases rows.len() - i,
    {
        let existing = to_chars(rows[i].0.value.as_str());
        proof {
            assert(view.take(i as int + 1).drop_last() =~= view.take(i as int));
            assert(view.take(i as int + 1).last() == view[i as int]);
        }
        if chars_eq_ignore_ascii_case(&existing, v) {
            proof {
                assert(match_index(view.take(i as int + 1), v@) == Some(i as int));
                lemma_match_prefix(view, v@, i as int + 1);
            }
            return Some(i);
        }
        i += 1;
    }
    proof {
        assert(view.take(i as int) =~= view);
    }
    None
}

/// A first match found in a prefix is the first match of the whole.
proof fn lemma_match_prefix(rows: Seq<RankedRow>, v: Seq<char>, n: int)
    requires
        0 <= n <= rows.len(),
        match_index(rows.take(n), v) is Some,
    ensures
        match_index(rows, v) == match_index(rows.take(n), v),
    decreases rows.len() - n,
{
    if n < rows.len() {
        assert(rows.take(n + 1).drop_last() =~= rows.take(n));
        lemma_match_prefix(rows, v, n + 1);
    } else {
        assert(rows.take(n) =~= rows);
    }
}

/// The identifier rows to render, deduplicated by value (up to ASCII case):
/// each row keeps the best-named label among the identifiers sharing its
/// value, ties keeping the first, and rows stay in first-occurrence order.
pub fn bd_identifier_rows(identifiers: &[Identifier]) -> (out: Vec<BdIdentifierRow>)
    ensures
        out@.map_values(|r: BdIdentifierRow| row_view(r)) == identifier_rows(identifiers@),
{
    let mut rows: Vec<(BdIdentifierRow, LabelRank)> = Vec::new();
    let mut i: usize = 0;
    while i < identifiers.len()
        invariant
            i <= identifiers.len(),
            rows@.map_values(|p: (BdIdentifierRow, LabelRank)| (p.0.key@, p.0.label@, p.0.value@, p.1))
                == ranked_rows(identifiers@.take(i as int)),
        decreases identifiers.len() - i,
    {
        let ident = &identifiers[i];
        let ghost before = rows@.map_values(|p: (BdIdentifierRow, LabelRank)| (p.0.key@, p.0.label@, p.0.value@, p.1));
        proof {
            assert(identifiers@.take(i as int + 1).drop_last() =~= identifiers@.take(i as int));
            assert(identifiers@.take(i as int + 1).last() == *ident);
        }
        let chars = to_chars(ident.value.as_str());
        let value = trimmed(&chars);
        if value.len() > 0 {
            let (label, rank) = bd_identifier_label_ranked(ident);
            let row = BdIdentifierRow { key: bd_identifier_key(ident), label, value: from_chars(&value) };
            match find_row(&rows, &value) {
                Some(j) => {
                    let ghost newrow = (row.key@, row.label@, row.value@, rank);
                    proof {
                        assert(newrow == (key_of(scheme_of(*ident), ident.value@), label_ranked(scheme_of(*ident), ident.value@).0, trim(ident.value@), label_ranked(scheme_of(*ident), ident.value@).1));
                        assert(before[j as int].3 == rows@[j as int].1);
                        assert(match_index(before, value@) == Some(j as int));
                        assert(value@ == trim(ident.value@));
                        assert(rank == label_ranked(scheme_of(*ident), ident.value@).1);
                        assert(value@.len() > 0);
                    }
                    if rank_above(rank, rows[j].1) {
                        rows.set(j, (row, rank));
                        proof {
                            assert(rows@.map_values(|p: (BdIdentifierRow, LabelRank)| (p.0.key@, p.0.label@, p.0.value@, p.1))
                                =~= before.update(j as int, newrow));
                            assert(row_step(before, *ident) == before.update(j as int, newrow));
                        }
                    } else {
                        proof {
                            assert(row_step(before, *ident) == before);
                        }
                    }
                },
                None => {
                    let ghost newrow = (row.key@, row.label@, row.value@, rank);
                    rows.push((row, rank));
                    proof {
                        assert(rows@.map_values(|p: (BdIdentifierRow, LabelRank)| (p.0.key@, p.0.label@, p.0.value@, p.1))
                            =~= before.push(newrow));
                        assert(row_step(before, *ident) == before.push(newrow));
                    }
                },
            }
        } else {
            proof {
                assert(row_step(before, *ident) == before);
            }
        }
        proof {
            assert(ranked_rows(identifiers@.take(i as int + 1)) == row_step(before, *ident));
        }
        i += 1;
    }
    proof {
        assert(identifiers@.take(identifiers.len() as int) =~= identifiers@);
    }
    let mut out: Vec<BdIdentifierRow> = Vec::new();
    let ghost all = rows@.map_values(|p: (BdIdentifierRow, LabelRank)| (p.0.key@, p.0.label@, p.0.value@, p.1));
    let mut rows = rows;
    let n = rows.len();
    let mut rev: Vec<BdIdentifierRow> = Vec::new();
    while rows.len() > 0
        invariant
            rows.len() <= n,
            all.len() == n,
            forall|j: int| 0 <= j < rows.len() ==> (rows@[j].0.key@, rows@[j].0.label@, rows@[j].0.value@, rows@[j].1) == #[trigger] all[j],
            rev.len() == n - rows.len(),
            forall|j: int| 0 <= j < rev.len() ==> row_view(#[trigger] rev@[j]) == (all[n - 1 - j].0, all[n - 1 - j].1, all[n - 1 - j].2),
        decreases rows.len(),
    {
        let (row, _) = rows.pop().unwrap();
        rev.push(row);
    }
    while rev.len() > 0
        invariant
            rev.len() + out.len() == n,
            all.len() == n,
            forall|j: int| 0 <= j < rev.len() ==> row_view(#[trigger] rev@[j]) == (all[n - 1 - j].0, all[n - 1 - j].1, all[n - 1 - j].2),
            forall|j: int| 0 <= j < out.len() ==> row_view(#[trigger] out@[j]) == (all[j].0, all[j].1, all[j].2),
        decreases rev.len(),
    {
        let row = rev.pop().unwrap();
        out.push(row);
    }
    proof {
        assert(out@.map_values(|r: BdIdentifierRow| row_view(r)) =~= identifier_rows(identifiers@));
    }
    out
}

/// Law: no two rows carry the same value up to ASCII case, and no row's
/// value is blank.
pub proof fn lemma_rows_distinct(idents: Seq<Identifier>)
    ensures
        forall|j: int, k: int|
            0 <= j < k < ranked_rows(idents).len() ==> !eq_ignore_ascii_case(
                #[trigger] ranked_rows(idents)[j].2,
                #[trigger] ranked_rows(idents)[k].2,
            ),
        forall|j: int| 0 <= j < ranked_rows(idents).len() ==> (#[trigger] ranked_rows(idents)[j]).2.len() > 0,
    decreases idents.len(),
{
    if idents.len() > 0 {
        lemma_rows_distinct(idents.drop_last());
        let rows = ranked_rows(idents.drop_last());
        let v = trim(idents.last().value@);
        lemma_match_index(rows, v);
    }
}

/// Law: every identifier with a non-blank value is listed — some row holds
/// its trimmed value, up to ASCII case.
pub proof fn lemma_rows_cover(idents: Seq<Identifier>, i: int)
    requires
        0 <= i < idents.len(),
        trim(idents[i].value@).len() > 0,
    ensures
        exists|j: int|
            0 <= j < ranked_rows(idents).len() && eq_ignore_ascii_case(
                #[trigger] ranked_rows(idents)[j].2,
                trim(idents[i].value@),
            ),
    decreases idents.len(),
{
    let rows = ranked_rows(idents.drop_last());
    let last = idents.last();
    let v = trim(last.value@);
    lemma_match_index(rows, v);
    if i < idents.len() - 1 {
        lemma_rows_cover(idents.drop_last(), i);
        assert(idents.drop_last()[i] == idents[i]);
        let w = trim(idents[i].value@);
        let j = choose|j: int| 0 <= j < rows.len() && eq_ignore_ascii_case(#[trigger] rows[j].2, w);
        let out = ranked_rows(idents);
        if v.len() > 0 {
            match match_index(rows, v) {
                Some(m) => {
                    if m == j {
                        assert(out[j].2 == v || out[j].2 == rows[j].2);
                        assert(eq_ignore_ascii_case(out[j].2, w));
                    } else {
                        assert(out[j] == rows[j]);
                    }
                },
                None => {
                    assert(out[j] == rows[j]);
                },
            }
        }
        assert(eq_ignore_ascii_case(out[j].2, w));
    } else {
        let out = ranked_rows(idents);
        match match_index(rows, v) {
            Some(m) => {
                assert(eq_ignore_ascii_case(out[m].2, v));
            },
            None => {
                assert(eq_ignore_ascii_case(out[rows.len() as int].2, v));
            },
        }
    }
}

} // verus!
