//! The authors index: each author's surname-first sort key and letter,
//! the name filter, the stable sort by name or by book count, and the
//! grouping into letter sections.

use vstd::prelude::*;
use crate::order::{chars_lt, lemma_seq_lt_asymmetric, lemma_seq_lt_irreflexive, lemma_seq_lt_total, lemma_seq_lt_transitive, seq_lt};
use crate::text::{
    contains, from_chars, has_char, is_ascii_alpha, char_is_ascii_alpha, lowercase,
    push_str, slice_of, string_of, to_chars, unicode_lowercase, unicode_char_upper, char_uppercase,
    contains_exec,
};

verus! {

/// One author as the index lists them.
#[derive(Clone, Debug)]
pub struct AuthorSummary {
    pub id: i64,
    pub name: String,
    /// The source's sort form, ideally "Surname, Given".
    pub sort: Option<String>,
    pub book_count: i64,
    pub accent: Option<String>,
    pub has_photo: bool,
}

/// The axis the index is sorted on.
#[derive(Clone, Copy, Debug, PartialEq, Eq, Structural)]
pub enum IndexSort {
    /// Alphabetical by surname, letters before the `#` bucket.
    Name,
    /// Most books first, then alphabetical.
    BookCount,
}

fn copy_opt(o: &Option<String>) -> (r: Option<String>)
    ensures
        r == *o,
{
    match o {
        Some(s) => Some(s.clone()),
        None => None,
    }
}

/// A copy of an author.
pub fn copy_author(a: &AuthorSummary) -> (r: AuthorSummary)
    ensures
        r == *a,
{
    AuthorSummary {
        id: a.id,
        name: a.name.clone(),
        sort: copy_opt(&a.sort),
        book_count: a.book_count,
        accent: copy_opt(&a.accent),
        has_photo: a.has_photo,
    }
}

// ── Sort key and letter ───────────────────────────────────────────

/// Index of the last `c` in `s`.
pub open spec fn rindex_of(s: Seq<char>, c: char) -> Option<int>
    decreases s.len(),
{
    if s.len() == 0 {
        None
    } else if s.last() == c {
        Some(s.len() - 1)
    } else {
        rindex_of(s.drop_last(), c)
    }
}

/// The surname-first key an author sorts and is lettered by: a sort form
/// that carries a comma, else a display name that does, else the display
/// name turned round at its last space ("Given Surname" → "Surname,
/// Given"), else the name itself.
pub open spec fn sort_key_of(name: Seq<char>, sort: Option<Seq<char>>) -> Seq<char> {
    match sort {
        Some(s) if s.len() > 0 && s.contains(',') => s,
        _ => if name.contains(',') {
            name
        } else {
            match rindex_of(name, ' ') {
                Some(i) => name.skip(i + 1) + ", "@ + name.take(i),
                None => name,
            }
        },
    }
}

/// The author's sort key.
pub open spec fn author_sort_key(a: AuthorSummary) -> Seq<char> {
    sort_key_of(
        a.name@,
        match a.sort {
            Some(s) => Some(s@),
            None => None,
        },
    )
}

fn last_index_of(v: &Vec<char>, c: char) -> (r: Option<usize>)
    ensures
        match r {
            Some(k) => rindex_of(v@, c) == Some(k as int) && k < v.len(),
            None => rindex_of(v@, c) is None,
        },
{
    let mut k: usize = v.len();
    proof {
        assert(v@.take(k as int) =~= v@);
    }
    while k > 0
        invariant
            k <= v.len(),
            rindex_of(v@, c) == rindex_of(v@.take(k as int), c),
        decreases k,
    {
        proof {
            assert(v@.take(k as int).drop_last() =~= v@.take(k as int - 1));
            assert(v@.take(k as int).last() == v@[k as int - 1]);
        }
        if v[k - 1] == c {
            return Some(k - 1);
        }
        k -= 1;
    }
    None
}

/// Surname-first key driving both alphabetical ordering and the letter
/// above each section. A comma-less sort form is not trusted: real dumps
/// put a bare surname or a pseudonym there.
pub fn sort_key(a: &AuthorSummary) -> (out: String)
    ensures
        out@ == author_sort_key(*a),
{
    match &a.sort {
        Some(s) => {
            let sv = to_chars(s.as_str());
            if sv.len() > 0 && has_char(&sv, ',') {
                return s.clone();
            }
        },
        None => {},
    }
    let nv = to_chars(a.name.as_str());
    if has_char(&nv, ',') {
        return a.name.clone();
    }
    match last_index_of(&nv, ' ') {
        Some(i) => {
            let surname = slice_of(&nv, i + 1, nv.len());
            let given = slice_of(&nv, 0, i);
            let mut out = from_chars(&surname);
            push_str(&mut out, ", ");
            let g = from_chars(&given);
            push_str(&mut out, g.as_str());
            proof {
                assert(surname@ =~= nv@.skip(i + 1));
                assert(given@ =~= nv@.take(i as int));
                assert(out@ =~= nv@.skip(i + 1) + ", "@ + nv@.take(i as int));
                assert(!nv@.contains(','));
                assert(rindex_of(a.name@, ' ') == Some(i as int));
            }
            out
        },
        None => a.name.clone(),
    }
}

/// A key lands in the `#` bucket unless it starts with an ASCII letter.
pub open spec fn non_alpha_key(key: Seq<char>) -> bool {
    !(key.len() > 0 && is_ascii_alpha(key[0]))
}

/// Whether a sort key lands in the `#` bucket rather than under A–Z.
pub fn is_non_alpha_key(key: &str) -> (b: bool)
    ensures
        b == non_alpha_key(key@),
{
    let v = to_chars(key);
    !(v.len() > 0 && char_is_ascii_alpha(v[0]))
}

/// The letter a key is filed under: its first character upper-cased, when
/// that is an ASCII letter; else `#`.
pub open spec fn letter_of(key: Seq<char>) -> char {
    let raw = unicode_char_upper(if key.len() > 0 {
        key[0]
    } else {
        '#'
    })[0];
    if is_ascii_alpha(raw) {
        raw
    } else {
        '#'
    }
}

/// The letter an author is filed under.
pub fn first_letter(a: &AuthorSummary) -> (c: char)
    ensures
        c == letter_of(author_sort_key(*a)),
{
    let key = sort_key(a);
    let v = to_chars(key.as_str());
    let first = if v.len() > 0 {
        v[0]
    } else {
        '#'
    };
    let upper = char_uppercase(first);
    let uv = to_chars(upper.as_str());
    let raw = uv[0];
    if char_is_ascii_alpha(raw) {
        raw
    } else {
        '#'
    }
}

/// An index card's name split at its last space: everything before it,
/// and the last word (the whole name, with nothing before it, when there
/// is no space).
pub open spec fn card_name_split(name: Seq<char>) -> (Seq<char>, Seq<char>) {
    match rindex_of(name, ' ') {
        Some(i) => (name.take(i), name.skip(i + 1)),
        None => (Seq::empty(), name),
    }
}

/// An index card's name split for its two-tone title (`rsplitn(2, ' ')`).
pub fn card_name_parts(name: &str) -> (r: (String, String))
    ensures
        (r.0@, r.1@) == card_name_split(name@),
{
    let v = to_chars(name);
    match last_index_of(&v, ' ') {
        Some(j) => {
            let a = slice_of(&v, 0, j);
            let b = slice_of(&v, j + 1, v.len());
            proof {
                assert(v@.subrange(0, j as int) =~= v@.take(j as int));
                assert(v@.subrange(j + 1, v.len() as int) =~= v@.skip(j + 1));
            }
            (from_chars(&a), from_chars(&b))
        },
        None => (String::new(), string_of(name)),
    }
}

/// An index card's avatar letter: the first character of the name's first
/// character upper-cased, or `?` for an empty name.
pub fn card_initial(name: &str) -> (c: char)
    ensures
        c == unicode_char_upper(if name@.len() > 0 {
            name@[0]
        } else {
            '?'
        })[0],
{
    let v = to_chars(name);
    let first = if v.len() > 0 {
        v[0]
    } else {
        '?'
    };
    let upper = char_uppercase(first);
    let uv = to_chars(upper.as_str());
    uv[0]
}

/// URL-fragment slug of a letter: `#` cannot stand inside a fragment, so
/// its bucket is `hash`.
pub fn letter_frag(c: char) -> (s: String)
    ensures
        s@ == if c == '#' {
            "hash"@
        } else {
            seq![c]
        },
{
    if c == '#' {
        string_of("hash")
    } else {
        let mut s = String::new();
        crate::text::push_char(&mut s, c);
        assert(s@ =~= seq![c]);
        s
    }
}

// ── Filter ────────────────────────────────────────────────────────

/// An author matches an (already lower-cased) query when the query is
/// empty or occurs in the lower-cased name.
pub open spec fn matches_query(a: AuthorSummary, query: Seq<char>) -> bool {
    query.len() == 0 || contains(unicode_lowercase(a.name@), query)
}

/// The matching authors, in order.
pub open spec fn filter_spec(all: Seq<AuthorSummary>, query: Seq<char>) -> Seq<AuthorSummary>
    decreases all.len(),
{
    if all.len() == 0 {
        Seq::empty()
    } else if matches_query(all.last(), query) {
        filter_spec(all.drop_last(), query).push(all.last())
    } else {
        filter_spec(all.drop_last(), query)
    }
}

/// The authors a list of references points at.
pub open spec fn deref_all(v: Seq<&AuthorSummary>) -> Seq<AuthorSummary> {
    v.map_values(|r: &AuthorSummary| *r)
}

/// Client-side name filter: case-insensitive substring match of an
/// already lower-cased query; all authors for an empty query.
pub fn filter_authors<'a>(all: &'a [AuthorSummary], query: &str) -> (out: Vec<&'a AuthorSummary>)
    ensures
        deref_all(out@) == filter_spec(all@, query@),
{
    let q = to_chars(query);
    let mut out: Vec<&'a AuthorSummary> = Vec::new();
    let mut i: usize = 0;
    while i < all.len()
        invariant
            i <= all.len(),
            q@ == query@,
            deref_all(out@) == filter_spec(all@.take(i as int), query@),
        decreases all.len() - i,
    {
        let a = &all[i];
        proof {
            let t = all@.take(i as int + 1);
            assert(t.drop_last() =~= all@.take(i as int));
            assert(t.last() == *a);
        }
        let keep = if q.len() == 0 {
            true
        } else {
            let lower = lowercase(a.name.as_str());
            let lv = to_chars(lower.as_str());
            contains_exec(&lv, &q)
        };
        let ghost before = out@;
        if keep {
            out.push(a);
            proof {
                assert(deref_all(out@) =~= deref_all(before).push(*a));
            }
        }
        i += 1;
    }
    proof {
        assert(all@.take(all.len() as int) =~= all@);
    }
    out
}

// ── Sort ──────────────────────────────────────────────────────────

/// What an author sorts by: a primary rank (the `#` bucket after the
/// letters by name; the book count by count) and the lower-cased key.
pub open spec fn order_key(a: AuthorSummary, sort: IndexSort) -> (int, Seq<char>) {
    let key = author_sort_key(a);
    let primary = match sort {
        IndexSort::Name => if non_alpha_key(key) {
            1int
        } else {
            0int
        },
        IndexSort::BookCount => a.book_count as int,
    };
    (primary, unicode_lowercase(key))
}

/// Key `x` sorts strictly before key `y`: by name the bucket ascends, by
/// count the count descends; ties go to the lower-cased key.
pub open spec fn key_before(sort: IndexSort, x: (int, Seq<char>), y: (int, Seq<char>)) -> bool {
    let primary_first = match sort {
        IndexSort::Name => x.0 < y.0,
        IndexSort::BookCount => x.0 > y.0,
    };
    primary_first || (x.0 == y.0 && seq_lt(x.1, y.1))
}

proof fn lemma_key_before_order(sort: IndexSort, x: (int, Seq<char>), y: (int, Seq<char>), z: (int, Seq<char>))
    ensures
        !key_before(sort, x, x),
        key_before(sort, x, y) && key_before(sort, y, z) ==> key_before(sort, x, z),
        x != y ==> key_before(sort, x, y) || key_before(sort, y, x),
        key_before(sort, x, y) ==> !key_before(sort, y, x),
{
    lemma_seq_lt_irreflexive(x.1);
    if key_before(sort, x, y) && key_before(sort, y, z) && x.0 == y.0 && y.0 == z.0 {
        lemma_seq_lt_transitive(x.1, y.1, z.1);
    }
    if x != y && x.0 == y.0 {
        lemma_seq_lt_total(x.1, y.1);
    }
    if key_before(sort, x, y) && x.0 == y.0 {
        lemma_seq_lt_asymmetric(x.1, y.1);
    }
}

/// `out` is `input` sorted by `sort`, ties kept in their input order: some
/// permutation `perm` of the input's positions lists `out`, and every
/// earlier output either has the strictly earlier key or the same key and
/// the earlier input position.
pub open spec fn stable_sort_of(sort: IndexSort, input: Seq<AuthorSummary>, out: Seq<AuthorSummary>) -> bool {
    exists|perm: Seq<int>| #[trigger] is_sorting_perm(sort, input, out, perm)
}

/// `perm` witnesses [`stable_sort_of`].
pub open spec fn is_sorting_perm(
    sort: IndexSort,
    input: Seq<AuthorSummary>,
    out: Seq<AuthorSummary>,
    perm: Seq<int>,
) -> bool {
    let n = input.len();
    &&& out.len() == n
    &&& perm.len() == n
    &&& forall|i: int| 0 <= i < n ==> 0 <= #[trigger] perm[i] < n && out[i] == input[perm[i]]
    &&& forall|i: int, j: int| 0 <= i < j < n ==> #[trigger] perm[i] != #[trigger] perm[j]
    &&& forall|i: int, j: int|
        0 <= i < j < n ==> key_before(sort, order_key(#[trigger] out[i], sort), order_key(#[trigger] out[j], sort))
            || (order_key(out[i], sort) == order_key(out[j], sort) && perm[i] < perm[j])
}

/// Law: the name sort reads keys without regard to letter case. In any
/// name-sorted list, the letter bucket never goes back from `#` to the
/// letters; inside a bucket, a later author's lower-cased sort key never
/// sorts before an earlier one's; and two authors whose keys differ only in
/// case keep the order they came in.
pub proof fn lemma_name_sort_ignores_case(input: Seq<AuthorSummary>, out: Seq<AuthorSummary>, perm: Seq<int>)
    requires
        is_sorting_perm(IndexSort::Name, input, out, perm),
    ensures
        forall|i: int, j: int|
            #![trigger out[i], out[j]]
            0 <= i < j < out.len() ==> {
                let ki = author_sort_key(out[i]);
                let kj = author_sort_key(out[j]);
                &&& non_alpha_key(ki) ==> non_alpha_key(kj)
                &&& non_alpha_key(ki) == non_alpha_key(kj) ==> !seq_lt(
                    unicode_lowercase(kj),
                    unicode_lowercase(ki),
                )
                &&& (non_alpha_key(ki) == non_alpha_key(kj) && unicode_lowercase(ki)
                    == unicode_lowercase(kj)) ==> perm[i] < perm[j]
            },
{
    assert forall|i: int, j: int| #![trigger out[i], out[j]] 0 <= i < j < out.len() implies {
        let ki = author_sort_key(out[i]);
        let kj = author_sort_key(out[j]);
        &&& non_alpha_key(ki) ==> non_alpha_key(kj)
        &&& non_alpha_key(ki) == non_alpha_key(kj) ==> !seq_lt(unicode_lowercase(kj), unicode_lowercase(ki))
        &&& (non_alpha_key(ki) == non_alpha_key(kj) && unicode_lowercase(ki) == unicode_lowercase(kj))
            ==> perm[i] < perm[j]
    } by {
        let x = order_key(out[i], IndexSort::Name);
        let y = order_key(out[j], IndexSort::Name);
        assert(key_before(IndexSort::Name, x, y) || (x == y && perm[i] < perm[j]));
        lemma_seq_lt_irreflexive(x.1);
        if seq_lt(x.1, y.1) {
            lemma_seq_lt_asymmetric(x.1, y.1);
        }
    }
}

/// Position `p` comes strictly before position `q` in the stable order.
pub open spec fn pos_before(sort: IndexSort, keys: Seq<(int, Seq<char>)>, p: int, q: int) -> bool {
    key_before(sort, keys[p], keys[q]) || (keys[p] == keys[q] && p < q)
}

fn key_before_exec(sort: IndexSort, x: &(i64, Vec<char>), y: &(i64, Vec<char>)) -> (r: bool)
    ensures
        r == key_before(sort, (x.0 as int, x.1@), (y.0 as int, y.1@)),
{
    let primary_first = match sort {
        IndexSort::Name => x.0 < y.0,
        IndexSort::BookCount => x.0 > y.0,
    };
    primary_first || (x.0 == y.0 && chars_lt(&x.1, &y.1))
}

fn order_key_exec(a: &AuthorSummary, sort: IndexSort) -> (k: (i64, Vec<char>))
    ensures
        (k.0 as int, k.1@) == order_key(*a, sort),
{
    let key = sort_key(a);
    let primary: i64 = match sort {
        IndexSort::Name => if is_non_alpha_key(key.as_str()) {
            1
        } else {
            0
        },
        IndexSort::BookCount => a.book_count,
    };
    let lower = lowercase(key.as_str());
    (primary, to_chars(lower.as_str()))
}

/// Sorts the authors along the selected axis, stably: by name, the
/// letter buckets before `#`, then the lower-cased key; by count, most
/// books first, then the lower-cased key.
pub fn sort_authors(filtered: &mut Vec<&AuthorSummary>, sort: IndexSort)
    ensures
        stable_sort_of(sort, deref_all(old(filtered)@), deref_all(final(filtered)@)),
        sort == IndexSort::Name ==> forall|i: int, j: int|
            #![trigger final(filtered)@[i], final(filtered)@[j]]
            0 <= i < j < final(filtered)@.len() ==> {
                let ki = author_sort_key(*final(filtered)@[i]);
                let kj = author_sort_key(*final(filtered)@[j]);
                &&& non_alpha_key(ki) ==> non_alpha_key(kj)
                &&& non_alpha_key(ki) == non_alpha_key(kj) ==> !seq_lt(
                    unicode_lowercase(kj),
                    unicode_lowercase(ki),
                )
            },
{
    let n = filtered.len();
    let ghost input = deref_all(filtered@);
    let mut keys: Vec<(i64, Vec<char>)> = Vec::new();
    let mut i: usize = 0;
    while i < n
        invariant
            i <= n == filtered.len(),
            input == deref_all(filtered@),
            keys.len() == i,
            forall|k: int| 0 <= k < i ==> (#[trigger] keys@[k].0 as int, keys@[k].1@) == order_key(input[k], sort),
        decreases n - i,
    {
        let k = order_key_exec(filtered[i], sort);
        keys.push(k);
        i += 1;
    }
    let ghost kv = Seq::new(n as nat, |k: int| (keys@[k].0 as int, keys@[k].1@));
    let mut perm: Vec<usize> = Vec::new();
    let mut i: usize = 0;
    while i < n
        invariant
            i <= n == keys.len(),
            kv.len() == n,
            forall|k: int| 0 <= k < n ==> #[trigger] kv[k] == (keys@[k].0 as int, keys@[k].1@),
            perm.len() == i,
            forall|p: int| 0 <= p < i ==> #[trigger] perm@[p] < i,
            forall|p: int, q: int| 0 <= p < q < i ==> #[trigger] perm@[p] != #[trigger] perm@[q],
            forall|p: int, q: int| 0 <= p < q < i ==> pos_before(sort, kv, #[trigger] perm@[p] as int, #[trigger] perm@[q] as int),
        decreases n - i,
    {
        let mut pos: usize = 0;
        while pos < perm.len() && !key_before_exec(sort, &keys[i], &keys[perm[pos]])
            invariant
                pos <= perm.len() == i < n == keys.len(),
                kv.len() == n,
                forall|k: int| 0 <= k < n ==> #[trigger] kv[k] == (keys@[k].0 as int, keys@[k].1@),
                forall|p: int| 0 <= p < i ==> #[trigger] perm@[p] < i,
                forall|p: int| 0 <= p < pos ==> !key_before(sort, kv[i as int], kv[#[trigger] perm@[p] as int]),
            decreases perm.len() - pos,
        {
            pos += 1;
        }
        let ghost old_perm = perm@;
        proof {
            assert forall|p: int| pos <= p < i implies key_before(sort, kv[i as int], kv[#[trigger] old_perm[p] as int]) by {
                if p > pos {
                    let a = old_perm[pos as int] as int;
                    let b = old_perm[p] as int;
                    assert(pos_before(sort, kv, a, b));
                    lemma_key_before_order(sort, kv[i as int], kv[a], kv[b]);
                }
            }
            assert forall|p: int| 0 <= p < pos implies pos_before(sort, kv, #[trigger] old_perm[p] as int, i as int) by {
                let a = old_perm[p] as int;
                lemma_key_before_order(sort, kv[a], kv[i as int], kv[a]);
            }
        }
        perm.insert(pos, i);
        proof {
            let np = perm@;
            assert(np == old_perm.insert(pos as int, i));
            assert forall|p: int| 0 <= p < i + 1 implies #[trigger] np[p] < i + 1 by {
                if p < pos {
                    assert(np[p] == old_perm[p]);
                } else if p > pos {
                    assert(np[p] == old_perm[p - 1]);
                }
            }
            assert forall|p: int, q: int| 0 <= p < q < i + 1 implies #[trigger] np[p] != #[trigger] np[q] && pos_before(sort, kv, np[p] as int, np[q] as int) by {
                let pp = if p < pos { p } else if p == pos { -1 } else { p - 1 };
                let qq = if q < pos { q } else if q == pos { -1 } else { q - 1 };
                if p != pos && q != pos {
                    assert(np[p] == old_perm[pp]);
                    assert(np[q] == old_perm[qq]);
                } else if p == pos {
                    assert(np[q] == old_perm[qq]);
                    assert(old_perm[qq] < i);
                } else {
                    assert(np[p] == old_perm[pp]);
                    assert(old_perm[pp] < i);
                }
            }
        }
        i += 1;
    }
    let mut out: Vec<&AuthorSummary> = Vec::new();
    let mut p: usize = 0;
    while p < n
        invariant
            p <= n == perm.len() == filtered.len(),
            input == deref_all(filtered@),
            forall|k: int| 0 <= k < n ==> #[trigger] perm@[k] < n,
            out.len() == p,
            forall|k: int| 0 <= k < p ==> *(#[trigger] out@[k]) == input[perm@[k] as int],
        decreases n - p,
    {
        out.push(filtered[perm[p]]);
        p += 1;
    }
    *filtered = out;
    proof {
        let outv = deref_all(filtered@);
        let pv = Seq::new(n as nat, |k: int| perm@[k] as int);
        assert forall|k: int| 0 <= k < n implies order_key(#[trigger] outv[k], sort) == kv[pv[k]] by {
            assert(outv[k] == input[perm@[k] as int]);
        }
        assert(is_sorting_perm(sort, input, outv, pv)) by {
            assert forall|a: int, b: int| 0 <= a < b < n implies key_before(sort, order_key(#[trigger] outv[a], sort), order_key(#[trigger] outv[b], sort))
                || (order_key(outv[a], sort) == order_key(outv[b], sort) && pv[a] < pv[b]) by {
                assert(pos_before(sort, kv, perm@[a] as int, perm@[b] as int));
                assert(order_key(outv[a], sort) == kv[pv[a]]);
                assert(order_key(outv[b], sort) == kv[pv[b]]);
            }
            assert forall|a: int, b: int| 0 <= a < b < n implies #[trigger] pv[a] != #[trigger] pv[b] by {
                assert(perm@[a] != perm@[b]);
            }
        }
        if sort == IndexSort::Name {
            lemma_name_sort_ignores_case(input, outv, pv);
            assert forall|i: int, j: int| #![trigger filtered@[i], filtered@[j]] 0 <= i < j < filtered@.len() implies {
                let ki = author_sort_key(*filtered@[i]);
                let kj = author_sort_key(*filtered@[j]);
                &&& non_alpha_key(ki) ==> non_alpha_key(kj)
                &&& non_alpha_key(ki) == non_alpha_key(kj) ==> !seq_lt(
                    unicode_lowercase(kj),
                    unicode_lowercase(ki),
                )
            } by {
                assert(outv[i] == *filtered@[i]);
                assert(outv[j] == *filtered@[j]);
            }
        }
    }
}

// ── Letter sections ───────────────────────────────────────────────

/// One letter section: the letter and its authors, in order.
pub type LetterGroup = (char, Vec<AuthorSummary>);

/// Consecutive runs of authors filed under the same letter.
pub open spec fn groups_spec(list: Seq<AuthorSummary>) -> Seq<(char, Seq<AuthorSummary>)>
    decreases list.len(),
{
    if list.len() == 0 {
        Seq::empty()
    } else {
        let prev = groups_spec(list.drop_last());
        let a = list.last();
        let l = letter_of(author_sort_key(a));
        if prev.len() > 0 && prev.last().0 == l {
            prev.update(prev.len() - 1, (l, prev.last().1.push(a)))
        } else {
            prev.push((l, seq![a]))
        }
    }
}

/// The sections' view.
pub open spec fn groups_view(g: Seq<LetterGroup>) -> Seq<(char, Seq<AuthorSummary>)> {
    g.map_values(|x: LetterGroup| (x.0, x.1@))
}

/// Buckets authors by the letter of their sort key, merging consecutive
/// runs (the list is expected sorted already); nothing when letters are
/// not shown.
pub fn group_by_letter(filtered: &[AuthorSummary], show_letters: bool) -> (out: Vec<LetterGroup>)
    ensures
        groups_view(out@) == if show_letters {
            groups_spec(filtered@)
        } else {
            Seq::empty()
        },
{
    let mut out: Vec<LetterGroup> = Vec::new();
    if !show_letters {
        assert(groups_view(out@) =~= Seq::<(char, Seq<AuthorSummary>)>::empty());
        return out;
    }
    let mut i: usize = 0;
    while i < filtered.len()
        invariant
            i <= filtered.len(),
            groups_view(out@) == groups_spec(filtered@.take(i as int)),
        decreases filtered.len() - i,
    {
        let a = &filtered[i];
        proof {
            let t = filtered@.take(i as int + 1);
            assert(t.drop_last() =~= filtered@.take(i as int));
            assert(t.last() == *a);
        }
        let l = first_letter(a);
        let ghost before = groups_view(out@);
        let n = out.len();
        if n > 0 && out[n - 1].0 == l {
            let (letter, mut group) = out.pop().unwrap();
            group.push(copy_author(a));
            out.push((letter, group));
            proof {
                assert(groups_view(out@) =~= before.update(before.len() - 1, (l, before.last().1.push(*a))));
            }
        } else {
            let mut g: Vec<AuthorSummary> = Vec::new();
            g.push(copy_author(a));
            assert(g@ =~= seq![*a]);
            out.push((l, g));
            proof {
                assert(groups_view(out@) =~= before.push((l, seq![*a])));
            }
        }
        i += 1;
    }
    proof {
        assert(filtered@.take(filtered.len() as int) =~= filtered@);
    }
    out
}

/// The index's pipeline: filter by the query (lower-cased here), sort
/// stably along `sort`, and, when sorted by name, file into letter
/// sections.
pub fn compute_author_groups(all: &[AuthorSummary], query: &str, sort: IndexSort) -> (r: (Vec<AuthorSummary>, Vec<LetterGroup>))
    ensures
        stable_sort_of(sort, filter_spec(all@, unicode_lowercase(query@)), r.0@),
        groups_view(r.1@) == if sort == IndexSort::Name {
            groups_spec(r.0@)
        } else {
            Seq::empty()
        },
{
    let q = lowercase(query);
    let mut filtered = filter_authors(all, q.as_str());
    sort_authors(&mut filtered, sort);
    let mut owned: Vec<AuthorSummary> = Vec::new();
    let mut i: usize = 0;
    while i < filtered.len()
        invariant
            i <= filtered.len(),
            owned@ == deref_all(filtered@).take(i as int),
        decreases filtered.len() - i,
    {
        owned.push(copy_author(filtered[i]));
        proof {
            assert(owned@ =~= deref_all(filtered@).take(i as int + 1));
        }
        i += 1;
    }
    proof {
        assert(owned@ =~= deref_all(filtered@));
    }
    let letters = group_by_letter(owned.as_slice(), sort == IndexSort::Name);
    (owned, letters)
}


/// The authors of the sections, one section after another.
pub open spec fn flatten_groups(g: Seq<(char, Seq<AuthorSummary>)>) -> Seq<AuthorSummary>
    decreases g.len(),
{
    if g.len() == 0 {
        Seq::empty()
    } else {
        flatten_groups(g.drop_last()) + g.last().1
    }
}

/// Law: the letter sections partition the list — read in order they give
/// back exactly the list, each section is non-empty and holds only authors
/// filed under its letter, and neighbouring sections have different
/// letters.
pub proof fn lemma_groups_partition(list: Seq<AuthorSummary>)
    ensures
        flatten_groups(groups_spec(list)) == list,
        forall|k: int| 0 <= k < groups_spec(list).len() ==> (#[trigger] groups_spec(list)[k]).1.len() > 0,
        forall|k: int, j: int|
            0 <= k < groups_spec(list).len() && 0 <= j < groups_spec(list)[k].1.len() ==> letter_of(
                author_sort_key(#[trigger] groups_spec(list)[k].1[j]),
            ) == groups_spec(list)[k].0,
        forall|k: int|
            0 < k < groups_spec(list).len() ==> (#[trigger] groups_spec(list)[k]).0 != groups_spec(
                list,
            )[k - 1].0,
    decreases list.len(),
{
    if list.len() == 0 {
        assert(flatten_groups(groups_spec(list)) =~= list);
    } else {
        let init = list.drop_last();
        lemma_groups_partition(init);
        let prev = groups_spec(init);
        let a = list.last();
        let l = letter_of(author_sort_key(a));
        let g = groups_spec(list);
        if prev.len() > 0 && prev.last().0 == l {
            assert(g.drop_last() =~= prev.drop_last());
            assert(g.last() == (l, prev.last().1.push(a)));
            assert(flatten_groups(prev) == flatten_groups(prev.drop_last()) + prev.last().1);
            assert(flatten_groups(g) =~= flatten_groups(prev).push(a));
            assert forall|k: int, j: int|
                0 <= k < g.len() && 0 <= j < g[k].1.len() implies letter_of(
                author_sort_key(#[trigger] g[k].1[j]),
            ) == g[k].0 by {
                if k < g.len() - 1 {
                    assert(g[k] == prev[k]);
                } else if j < prev.last().1.len() {
                    assert(g[k].1[j] == prev[k].1[j]);
                }
            }
        } else {
            assert(g.drop_last() =~= prev);
            assert(flatten_groups(g) =~= flatten_groups(prev) + seq![a]);
            assert forall|k: int, j: int|
                0 <= k < g.len() && 0 <= j < g[k].1.len() implies letter_of(
                author_sort_key(#[trigger] g[k].1[j]),
            ) == g[k].0 by {
                if k < g.len() - 1 {
                    assert(g[k] == prev[k]);
                }
            }
        }
        assert(flatten_groups(g) =~= list) by {
            assert(list =~= init.push(a));
        }
    }
}

// ── The letter strip ──────────────────────────────────────────────

/// The strip's letters: A to Z, then the `#` bucket.
pub open spec fn alphabet() -> Seq<char> {
    Seq::new(26, |i: int| (('A' as u32) + i) as char).push('#')
}

/// Whether a section is filed under `l`.
pub open spec fn has_letter(groups: Seq<(char, Seq<AuthorSummary>)>, l: char) -> bool {
    exists|k: int| 0 <= k < groups.len() && (#[trigger] groups[k]).0 == l
}

/// One letter of the strip: a jump link when a section is filed under it,
/// plain text otherwise.
pub open spec fn letter_cell(l: char, present: bool) -> Seq<char> {
    if present {
        "<a class=\"idx-letter idx-letter-on\" href=\"#letter-"@ + (if l == '#' {
            "hash"@
        } else {
            seq![l]
        }) + "\" data-testid=\"authors-letter-"@ + (if l == '#' {
            "hash"@
        } else {
            seq![l]
        }) + "\">"@ + seq![l] + "</a>"@
    } else {
        "<span class=\"idx-letter\">"@ + seq![l] + "</span>"@
    }
}

/// The first `n` letters of the strip.
pub open spec fn letter_cells(groups: Seq<(char, Seq<AuthorSummary>)>, n: int) -> Seq<char>
    decreases n,
{
    if n <= 0 {
        Seq::empty()
    } else {
        letter_cells(groups, n - 1) + letter_cell(alphabet()[n - 1], has_letter(groups, alphabet()[n - 1]))
    }
}

/// The letter strip over the shown sections, with the count line.
pub open spec fn letter_nav_of(groups: Seq<(char, Seq<AuthorSummary>)>, filtered_count: int) -> Seq<char> {
    "<div class=\"idx-letters\">"@ + letter_cells(groups, 27)
        + "<span class=\"idx-letters-spacer\"></span><span class=\"mono idx-letters-count\">"@
        + crate::num::int_digits(groups.len() as int) + " letters \u{b7} "@ + crate::num::int_digits(
        filtered_count,
    ) + " authors</span></div>"@
}

fn group_has_letter(groups: &Vec<LetterGroup>, l: char) -> (b: bool)
    ensures
        b == has_letter(groups_view(groups@), l),
{
    let mut i: usize = 0;
    while i < groups.len()
        invariant
            i <= groups@.len(),
            forall|k: int| 0 <= k < i ==> groups@[k].0 != l,
        decreases groups.len() - i,
    {
        if groups[i].0 == l {
            assert(groups_view(groups@)[i as int].0 == l);
            return true;
        }
        i += 1;
    }
    proof {
        if has_letter(groups_view(groups@), l) {
            let k = choose|k: int| 0 <= k < groups_view(groups@).len() && (#[trigger] groups_view(
                groups@,
            )[k]).0 == l;
            assert(groups@[k].0 == l);
        }
    }
    false
}

/// Markup of the letter strip above the index.
pub fn letter_nav(groups: &Vec<LetterGroup>, filtered_count: usize) -> (html: String)
    ensures
        html@ == letter_nav_of(groups_view(groups@), filtered_count as int),
{
    let ghost gv = groups_view(groups@);
    let mut out = crate::text::string_of("<div class=\"idx-letters\">");
    let ghost head = out@;
    let mut i: u32 = 0;
    while i < 27
        invariant
            i <= 27,
            gv == groups_view(groups@),
            out@ == head + letter_cells(gv, i as int),
        decreases 27 - i,
    {
        let l: char = if i < 26 {
            let c = (65u32 + i) as u8 as char;
            c
        } else {
            '#'
        };
        proof {
            if i < 26 {
                assert(alphabet()[i as int] == (('A' as u32) + i) as char);
            } else {
                assert(alphabet()[26] == '#');
            }
            assert(l == alphabet()[i as int]);
        }
        let present = group_has_letter(groups, l);
        let ghost before = out@;
        if present {
            crate::text::push_str(&mut out, "<a class=\"idx-letter idx-letter-on\" href=\"#letter-");
            let f = letter_frag(l);
            crate::text::push_str(&mut out, f.as_str());
            crate::text::push_str(&mut out, "\" data-testid=\"authors-letter-");
            crate::text::push_str(&mut out, f.as_str());
            crate::text::push_str(&mut out, "\">");
            crate::text::push_char(&mut out, l);
            crate::text::push_str(&mut out, "</a>");
        } else {
            crate::text::push_str(&mut out, "<span class=\"idx-letter\">");
            crate::text::push_char(&mut out, l);
            crate::text::push_str(&mut out, "</span>");
        }
        proof {
            assert(out@ =~= before + letter_cell(l, present));
        }
        i += 1;
    }
    crate::text::push_str(
        &mut out,
        "<span class=\"idx-letters-spacer\"></span><span class=\"mono idx-letters-count\">",
    );
    crate::num::push_u64(&mut out, groups.len() as u64);
    crate::text::push_str(&mut out, " letters \u{b7} ");
    crate::num::push_u64(&mut out, filtered_count as u64);
    crate::text::push_str(&mut out, " authors</span></div>");
    proof {
        crate::num::lemma_u64_digits(groups.len() as u64);
        assert(crate::num::nat_digits(groups.len() as nat) == crate::num::int_digits(
            groups.len() as int,
        ));
        assert(crate::num::nat_digits(filtered_count as nat) == crate::num::int_digits(
            filtered_count as int,
        ));
    }
    assert(out@ =~= letter_nav_of(gv, filtered_count as int));
    out
}

} // verus!
