//! Resolve a reader chapter from an EPUB CFI's spine step: the CFI's package
//! path names a spine item, and the chapter a position sits in is the last
//! chapter whose spine item is at or before it.

use vstd::prelude::*;

use crate::num::{parse_u32, parse_u32_spec};
use crate::text::{
    before_first, before_first_char, is_lit, last_piece, last_piece_chars, slice_of, to_chars, trim,
    trimmed,
};

verus! {

/// The pre-`!` package path of a CFI, once the `epubcfi(` … `)` wrapper and
/// surrounding whitespace are removed.
pub open spec fn cfi_package(cfi: Seq<char>) -> Option<Seq<char>> {
    let t = trim(cfi);
    if t.len() >= 9 && t.take(8) == "epubcfi("@ && t.last() == ')' {
        Some(before_first(t.subrange(8, t.len() - 1), '!'))
    } else {
        None
    }
}

/// 1-based spine index encoded in a CFI: the last non-empty `/` step of
/// the package path, less any `[id]` assertion, read as a number and halved;
/// `None` for a zero or odd step (not an element) or a malformed CFI.
pub open spec fn spine_ordinal(cfi: Seq<char>) -> Option<int> {
    match cfi_package(cfi) {
        Some(package) => match last_piece(package, '/') {
            Some(step) => match parse_u32_spec(before_first(step, '[')) {
                Some(raw) => if raw == 0 || raw % 2 != 0 {
                    None
                } else {
                    Some(raw / 2)
                },
                None => None,
            },
            None => None,
        },
        None => None,
    }
}

/// 1-based spine index encoded in a CFI's pre-`!` package step.
pub fn cfi_spine_ordinal(cfi: &str) -> (r: Option<u32>)
    ensures
        match r {
            Some(x) => spine_ordinal(cfi@) == Some(x as int),
            None => spine_ordinal(cfi@) is None,
        },
{
    let chars = to_chars(cfi);
    let t = trimmed(&chars);
    let n = t.len();
    if n < 9 || t[n - 1] != ')' {
        return None;
    }
    let head = slice_of(&t, 0, 8);
    if !is_lit(&head, "epubcfi(") {
        proof {
            assert(head@ == t@.take(8));
        }
        return None;
    }
    let inner = slice_of(&t, 8, n - 1);
    let package = before_first_char(&inner, '!');
    let step = match last_piece_chars(&package, '/') {
        Some(step) => step,
        None => return None,
    };
    let digits = before_first_char(&step, '[');
    let raw = match parse_u32(&digits) {
        Some(raw) => raw,
        None => return None,
    };
    if raw == 0 || raw % 2 != 0 {
        return None;
    }
    Some(raw / 2)
}

/// Index of the last entry of `spine` at or before `x`.
pub open spec fn last_at_or_before(spine: Seq<i64>, x: int) -> Option<int> {
    if exists|i: int| 0 <= i < spine.len() && spine[i] <= x {
        Some(choose|i: int| 0 <= i < spine.len() && spine[i] <= x && forall|j: int|
            i < j < spine.len() ==> spine[j] > x)
    } else {
        None
    }
}

/// The chapter index a CFI sits in, against each chapter's 0-based spine
/// index in TOC order.
pub open spec fn chapter_for_cfi(spine: Seq<i64>, cfi: Seq<char>) -> Option<int> {
    match spine_ordinal(cfi) {
        Some(n) => last_at_or_before(spine, n - 1),
        None => None,
    }
}

/// Law: the chapter a position resolves to starts in the position's spine
/// item or earlier, and no later chapter does. With the CFI naming 1-based
/// spine item `n`, a resolved chapter's 0-based spine index is below `n`
/// and every chapter after it starts at `n - 1` or later; no chapter is
/// resolved only when the CFI names no spine item or every chapter starts
/// after the position.
pub proof fn lemma_chapter_at_or_before_position(spine: Seq<i64>, cfi: Seq<char>)
    ensures
        chapter_for_cfi(spine, cfi) matches Some(i) ==> (spine_ordinal(cfi) matches Some(n) && 0
            <= i < spine.len() && spine[i] < n && forall|j: int|
            i < j < spine.len() ==> #[trigger] spine[j] >= n),
        chapter_for_cfi(spine, cfi) is None ==> (spine_ordinal(cfi) matches Some(n) ==> forall|j: int|
            0 <= j < spine.len() ==> #[trigger] spine[j] >= n),
{
    match spine_ordinal(cfi) {
        Some(n) => {
            let x = n - 1;
            if exists|i: int| 0 <= i < spine.len() && spine[i] <= x {
                let w = choose|i: int| 0 <= i < spine.len() && spine[i] <= x;
                // The last chapter at or before the position exists: the
                // largest such index.
                lemma_last_at_or_before_exists(spine, x, w);
            }
        },
        None => {},
    }
}

proof fn lemma_last_at_or_before_exists(spine: Seq<i64>, x: int, w: int)
    requires
        0 <= w < spine.len(),
        spine[w] <= x,
    ensures
        exists|i: int| 0 <= i < spine.len() && spine[i] <= x && forall|j: int|
            i < j < spine.len() ==> spine[j] > x,
    decreases spine.len() - w,
{
    if exists|j: int| w < j < spine.len() && spine[j] <= x {
        let v = choose|j: int| w < j < spine.len() && spine[j] <= x;
        lemma_last_at_or_before_exists(spine, x, v);
    } else {
        assert(forall|j: int| w < j < spine.len() ==> spine[j] > x);
    }
}

/// Index of the chapter a CFI sits in: the last chapter whose 0-based spine
/// item is at or before the CFI's spine item; `None` when the CFI carries no
/// readable spine step or sits before the first chapter.
pub fn chapter_index_for_cfi(spine_indices: &[i64], cfi: &str) -> (r: Option<usize>)
    ensures
        match r {
            Some(i) => chapter_for_cfi(spine_indices@, cfi@) == Some(i as int),
            None => chapter_for_cfi(spine_indices@, cfi@) is None,
        },
        r matches Some(i) ==> i < spine_indices.len(),
        r matches Some(i) ==> (spine_ordinal(cfi@) matches Some(n) && spine_indices@[i as int] < n
            && forall|j: int| i < j < spine_indices@.len() ==> #[trigger] spine_indices@[j] >= n),
        r is None ==> (spine_ordinal(cfi@) matches Some(n) ==> forall|j: int|
            0 <= j < spine_indices@.len() ==> #[trigger] spine_indices@[j] >= n),
{
    proof {
        lemma_chapter_at_or_before_position(spine_indices@, cfi@);
    }
    let ordinal = match cfi_spine_ordinal(cfi) {
        Some(n) => n,
        None => return None,
    };
    let x = ordinal as i64 - 1;
    let mut i = spine_indices.len();
    while i > 0
        invariant
            i <= spine_indices.len(),
            forall|j: int| i <= j < spine_indices.len() ==> spine_indices@[j] > x,
            spine_ordinal(cfi@) == Some(ordinal as int),
            x == ordinal - 1,
        decreases i,
    {
        if spine_indices[i - 1] <= x {
            let ghost k = (i - 1) as int;
            proof {
                let sp = spine_indices@;
                assert(0 <= k < sp.len() && sp[k] <= x);
                assert(exists|i: int| 0 <= i < sp.len() && sp[i] <= x);
                assert(forall|j: int| k < j < sp.len() ==> sp[j] > x);
                let c = choose|c: int| 0 <= c < sp.len() && sp[c] <= x && forall|j: int|
                    c < j < sp.len() ==> sp[j] > x;
                assert(0 <= c < sp.len() && sp[c] <= x && forall|j: int| c < j < sp.len() ==> sp[j] > x);
                if c < k {
                    assert(sp[k] > x);
                }
                if c > k {
                    assert(sp[c] > x);
                }
                assert(c == k);
                assert(last_at_or_before(sp, x as int) == Some(k));
                assert(spine_ordinal(cfi@) == Some(ordinal as int));
                assert(x as int == ordinal as int - 1);
                assert(chapter_for_cfi(sp, cfi@) == Some(k));
            }
            return Some(i - 1);
        }
        i -= 1;
    }
    None
}

} // verus!
