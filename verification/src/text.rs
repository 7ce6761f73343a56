//! Character-level text helpers shared by every page module: building a
//! `String` from characters, std's whitespace trimming, decimal rendering
//! and parsing of integers, and substring search.

use vstd::prelude::*;

verus! {

/// The characters of `s`, in order.
pub fn to_chars(s: &str) -> (out: Vec<char>)
    ensures
        out@ == s@,
{
    let mut out: Vec<char> = Vec::new();
    for c in it: s.chars()
        invariant
            out@ == it.seq().take(it.index() as int),
            it.seq() == s@,
    {
        out.push(c);
    }
    out
}

/// Appends one character to `s` (std's `String::push`).
#[verifier::external_body]
pub fn push_char(s: &mut String, c: char)
    ensures
        final(s)@ == old(s)@.push(c),
{
    s.push(c);
}

/// Appends every character of `v` to `s`.
pub fn push_chars(s: &mut String, v: &Vec<char>)
    ensures
        final(s)@ == old(s)@ + v@,
{
    let ghost start = s@;
    let mut i: usize = 0;
    while i < v.len()
        invariant
            i <= v.len(),
            s@ == start + v@.take(i as int),
        decreases v.len() - i,
    {
        push_char(s, v[i]);
        proof {
            assert(v@.take(i as int + 1) =~= v@.take(i as int).push(v@[i as int]));
        }
        i += 1;
    }
    proof {
        assert(v@.take(v.len() as int) =~= v@);
    }
}

/// A `String` holding exactly the characters of `v`.
pub fn from_chars(v: &Vec<char>) -> (s: String)
    ensures
        s@ == v@,
{
    let mut s = String::new();
    push_chars(&mut s, v);
    s
}

/// Appends the literal `lit` to `s`.
pub fn push_str(s: &mut String, lit: &str)
    ensures
        final(s)@ == old(s)@ + lit@,
{
    s.append(lit);
}

/// A fresh `String` holding `lit`.
pub fn string_of(lit: &str) -> (s: String)
    ensures
        s@ == lit@,
{
    String::from_str(lit)
}

/// The characters of `v` between `a` (inclusive) and `b` (exclusive).
pub fn slice_of(v: &Vec<char>, a: usize, b: usize) -> (out: Vec<char>)
    requires
        a <= b <= v.len(),
    ensures
        out@ == v@.subrange(a as int, b as int),
{
    let mut out: Vec<char> = Vec::new();
    let mut i = a;
    while i < b
        invariant
            a <= i <= b <= v.len(),
            out@ == v@.subrange(a as int, i as int),
        decreases b - i,
    {
        out.push(v[i]);
        proof {
            assert(v@.subrange(a as int, i as int + 1) =~= v@.subrange(a as int, i as int).push(
                v@[i as int],
            ));
        }
        i += 1;
    }
    out
}

// ── Character classes ─────────────────────────────────────────────

/// std's `char::is_whitespace`: the Unicode `White_Space` property.
pub open spec fn is_white_space(c: char) -> bool {
    let n = c as u32;
    ||| 0x9 <= n <= 0xd
    ||| n == 0x20
    ||| n == 0x85
    ||| n == 0xa0
    ||| n == 0x1680
    ||| 0x2000 <= n <= 0x200a
    ||| n == 0x2028
    ||| n == 0x2029
    ||| n == 0x202f
    ||| n == 0x205f
    ||| n == 0x3000
}

pub fn char_is_white_space(c: char) -> (b: bool)
    ensures
        b == is_white_space(c),
{
    let n = c as u32;
    (0x9 <= n && n <= 0xd) || n == 0x20 || n == 0x85 || n == 0xa0 || n == 0x1680 || (0x2000 <= n
        && n <= 0x200a) || n == 0x2028 || n == 0x2029 || n == 0x202f || n == 0x205f || n == 0x3000
}

pub open spec fn is_ascii_digit(c: char) -> bool {
    '0' <= c <= '9'
}

pub open spec fn is_ascii_upper(c: char) -> bool {
    'A' <= c <= 'Z'
}

pub open spec fn is_ascii_lower(c: char) -> bool {
    'a' <= c <= 'z'
}

pub open spec fn is_ascii_alpha(c: char) -> bool {
    is_ascii_upper(c) || is_ascii_lower(c)
}

pub fn char_is_ascii_digit(c: char) -> (b: bool)
    ensures
        b == is_ascii_digit(c),
{
    '0' <= c && c <= '9'
}

pub fn char_is_ascii_upper(c: char) -> (b: bool)
    ensures
        b == is_ascii_upper(c),
{
    'A' <= c && c <= 'Z'
}

pub fn char_is_ascii_lower(c: char) -> (b: bool)
    ensures
        b == is_ascii_lower(c),
{
    'a' <= c && c <= 'z'
}

pub fn char_is_ascii_alpha(c: char) -> (b: bool)
    ensures
        b == is_ascii_alpha(c),
{
    char_is_ascii_upper(c) || char_is_ascii_lower(c)
}


/// std's `char::to_ascii_lowercase`.
pub open spec fn ascii_lower(c: char) -> char {
    if is_ascii_upper(c) {
        ((c as u32) + 32) as char
    } else {
        c
    }
}

/// std's `char::to_ascii_uppercase`.
pub open spec fn ascii_upper(c: char) -> char {
    if is_ascii_lower(c) {
        ((c as u32) - 32) as char
    } else {
        c
    }
}

pub fn char_ascii_lower(c: char) -> (out: char)
    ensures
        out == ascii_lower(c),
{
    if char_is_ascii_upper(c) {
        ((c as u8) + 32) as char
    } else {
        c
    }
}

pub fn char_ascii_upper(c: char) -> (out: char)
    ensures
        out == ascii_upper(c),
{
    if char_is_ascii_lower(c) {
        ((c as u8) - 32) as char
    } else {
        c
    }
}

/// std's `str::to_ascii_lowercase`, on characters.
pub open spec fn lower_ascii(s: Seq<char>) -> Seq<char> {
    s.map_values(|c: char| ascii_lower(c))
}

/// std's `str::eq_ignore_ascii_case`.
pub open spec fn eq_ignore_ascii_case(a: Seq<char>, b: Seq<char>) -> bool {
    lower_ascii(a) == lower_ascii(b)
}

pub fn to_ascii_lower(v: &Vec<char>) -> (out: Vec<char>)
    ensures
        out@ == lower_ascii(v@),
{
    let mut out: Vec<char> = Vec::new();
    let mut i: usize = 0;
    while i < v.len()
        invariant
            i <= v.len(),
            out@ == lower_ascii(v@.take(i as int)),
        decreases v.len() - i,
    {
        out.push(char_ascii_lower(v[i]));
        proof {
            assert(lower_ascii(v@.take(i as int + 1)) =~= lower_ascii(v@.take(i as int)).push(
                ascii_lower(v@[i as int]),
            ));
        }
        i += 1;
    }
    proof {
        assert(v@.take(v.len() as int) =~= v@);
    }
    out
}

pub fn chars_eq(a: &Vec<char>, b: &Vec<char>) -> (r: bool)
    ensures
        r == (a@ == b@),
{
    if a.len() != b.len() {
        return false;
    }
    let mut i: usize = 0;
    while i < a.len()
        invariant
            i <= a.len() == b.len(),
            a@.take(i as int) == b@.take(i as int),
        decreases a.len() - i,
    {
        if a[i] != b[i] {
            assert(a@[i as int] != b@[i as int]);
            return false;
        }
        proof {
            assert(a@.take(i as int + 1) =~= a@.take(i as int).push(a@[i as int]));
            assert(b@.take(i as int + 1) =~= b@.take(i as int).push(b@[i as int]));
        }
        i += 1;
    }
    proof {
        assert(a@.take(a.len() as int) =~= a@);
        assert(b@.take(b.len() as int) =~= b@);
    }
    true
}

pub fn chars_eq_ignore_ascii_case(a: &Vec<char>, b: &Vec<char>) -> (r: bool)
    ensures
        r == eq_ignore_ascii_case(a@, b@),
{
    let la = to_ascii_lower(a);
    let lb = to_ascii_lower(b);
    chars_eq(&la, &lb)
}

/// Whether `v` equals the literal `lit`.
pub fn is_lit(v: &Vec<char>, lit: &str) -> (r: bool)
    ensures
        r == (v@ == lit@),
{
    let l = to_chars(lit);
    chars_eq(v, &l)
}

// ── Trimming ──────────────────────────────────────────────────────

/// std's `str::trim_start`.
pub open spec fn trim_start(s: Seq<char>) -> Seq<char>
    decreases s.len(),
{
    if s.len() > 0 && is_white_space(s[0]) {
        trim_start(s.drop_first())
    } else {
        s
    }
}

/// std's `str::trim_end`.
pub open spec fn trim_end(s: Seq<char>) -> Seq<char>
    decreases s.len(),
{
    if s.len() > 0 && is_white_space(s.last()) {
        trim_end(s.drop_last())
    } else {
        s
    }
}

/// std's `str::trim`.
pub open spec fn trim(s: Seq<char>) -> Seq<char> {
    trim_end(trim_start(s))
}

/// The bounds of `trim(v@)` inside `v`.
pub fn trim_bounds(v: &Vec<char>) -> (r: (usize, usize))
    ensures
        r.0 <= r.1 <= v.len(),
        v@.subrange(r.0 as int, r.1 as int) == trim(v@),
        v@.subrange(r.0 as int, v.len() as int) == trim_start(v@),
{
    let n = v.len();
    let mut a: usize = 0;
    proof {
        assert(v@.subrange(0, n as int) =~= v@);
    }
    while a < n && char_is_white_space(v[a])
        invariant
            a <= n == v.len(),
            trim_start(v@) == trim_start(v@.subrange(a as int, n as int)),
        decreases n - a,
    {
        proof {
            assert(v@.subrange(a as int, n as int).drop_first() =~= v@.subrange(
                a as int + 1,
                n as int,
            ));
        }
        a += 1;
    }
    proof {
        assert(v@.subrange(0, n as int) =~= v@);
    }
    let mut b: usize = n;
    while b > a && char_is_white_space(v[b - 1])
        invariant
            a <= b <= n == v.len(),
            trim_start(v@) == v@.subrange(a as int, n as int),
            trim_end(trim_start(v@)) == trim_end(v@.subrange(a as int, b as int)),
        decreases b - a,
    {
        proof {
            assert(v@.subrange(a as int, b as int).drop_last() =~= v@.subrange(
                a as int,
                b as int - 1,
            ));
        }
        b -= 1;
    }
    (a, b)
}

/// `trim(v@)` as a new vector.
pub fn trimmed(v: &Vec<char>) -> (out: Vec<char>)
    ensures
        out@ == trim(v@),
{
    let (a, b) = trim_bounds(v);
    slice_of(v, a, b)
}

// ── Search ────────────────────────────────────────────────────────

/// `pat` occurs in `s` starting at `i`.
pub open spec fn occurs_at(s: Seq<char>, pat: Seq<char>, i: int) -> bool {
    0 <= i && i + pat.len() <= s.len() && s.subrange(i, i + pat.len()) == pat
}

/// std's `str::contains` with a string pattern.
pub open spec fn contains(s: Seq<char>, pat: Seq<char>) -> bool {
    exists|i: int| occurs_at(s, pat, i)
}

pub fn occurs_at_exec(s: &Vec<char>, pat: &Vec<char>, i: usize) -> (r: bool)
    ensures
        r == occurs_at(s@, pat@, i as int),
{
    if i > s.len() || pat.len() > s.len() - i {
        return false;
    }
    let mut k: usize = 0;
    while k < pat.len()
        invariant
            k <= pat.len(),
            i + pat.len() <= s.len(),
            forall|j: int| 0 <= j < k ==> s@[i + j] == pat@[j],
        decreases pat.len() - k,
    {
        if s[i + k] != pat[k] {
            proof {
                assert(s@.subrange(i as int, i + pat.len())[k as int] != pat@[k as int]);
            }
            return false;
        }
        k += 1;
    }
    proof {
        assert(s@.subrange(i as int, i + pat.len()) =~= pat@);
    }
    true
}

pub fn contains_exec(s: &Vec<char>, pat: &Vec<char>) -> (r: bool)
    ensures
        r == contains(s@, pat@),
{
    let mut i: usize = 0;
    while i < s.len()
        invariant
            i <= s.len(),
            forall|j: int| 0 <= j < i ==> !occurs_at(s@, pat@, j),
        decreases s.len() - i,
    {
        if occurs_at_exec(s, pat, i) {
            return true;
        }
        i += 1;
    }
    let last = occurs_at_exec(s, pat, i);
    if last {
        return true;
    }
    proof {
        assert forall|j: int| !occurs_at(s@, pat@, j) by {
            if 0 <= j && j + pat@.len() <= s@.len() && j < i {
                assert(!occurs_at(s@, pat@, j));
            }
        }
    }
    false
}

/// Whether `s` contains the literal `lit`.
pub fn contains_lit(s: &Vec<char>, lit: &str) -> (r: bool)
    ensures
        r == contains(s@, lit@),
{
    let p = to_chars(lit);
    contains_exec(s, &p)
}

/// Whether some character of `s` is `c`.
pub fn has_char(s: &Vec<char>, c: char) -> (r: bool)
    ensures
        r == s@.contains(c),
{
    let mut i: usize = 0;
    while i < s.len()
        invariant
            i <= s.len(),
            forall|j: int| 0 <= j < i ==> s@[j] != c,
        decreases s.len() - i,
    {
        if s[i] == c {
            return true;
        }
        i += 1;
    }
    false
}


// ── Splitting ─────────────────────────────────────────────────────

/// Index of the first `c` in `s`.
pub open spec fn index_of(s: Seq<char>, c: char) -> Option<int>
    decreases s.len(),
{
    if s.len() == 0 {
        None
    } else if s[0] == c {
        Some(0)
    } else {
        match index_of(s.drop_first(), c) {
            Some(i) => Some(i + 1),
            None => None,
        }
    }
}

proof fn lemma_index_of_shift(s: Seq<char>, c: char, a: int, b: int)
    requires
        0 <= a <= b <= s.len(),
        forall|j: int| a <= j < b ==> s[j] != c,
    ensures
        index_of(s.subrange(a, s.len() as int), c) == match index_of(
            s.subrange(b, s.len() as int),
            c,
        ) {
            Some(i) => Some(i + (b - a)),
            None => None,
        },
    decreases b - a,
{
    if a < b {
        assert(s.subrange(a, s.len() as int).drop_first() =~= s.subrange(a + 1, s.len() as int));
        lemma_index_of_shift(s, c, a + 1, b);
    }
}

/// Index of the first `c` at or after `from`.
pub fn find_char(v: &Vec<char>, c: char, from: usize) -> (r: Option<usize>)
    requires
        from <= v.len(),
    ensures
        match index_of(v@.subrange(from as int, v.len() as int), c) {
            Some(i) => r == Some((i + from) as usize),
            None => r is None,
        },
{
    let mut i = from;
    while i < v.len()
        invariant
            from <= i <= v.len(),
            forall|j: int| from <= j < i ==> v@[j] != c,
        decreases v.len() - i,
    {
        if v[i] == c {
            proof {
                lemma_index_of_shift(v@, c, from as int, i as int);
                assert(v@.subrange(i as int, v.len() as int)[0] == c);
            }
            return Some(i);
        }
        i += 1;
    }
    proof {
        lemma_index_of_shift(v@, c, from as int, i as int);
    }
    None
}

/// `s.split_once(c)`.
pub open spec fn split_once(s: Seq<char>, c: char) -> Option<(Seq<char>, Seq<char>)> {
    match index_of(s, c) {
        Some(i) => Some((s.take(i), s.skip(i + 1))),
        None => None,
    }
}

/// `s.split(c).next()`: everything before the first `c`.
pub open spec fn before_first(s: Seq<char>, c: char) -> Seq<char> {
    match index_of(s, c) {
        Some(i) => s.take(i),
        None => s,
    }
}

pub proof fn lemma_index_of_bounds(s: Seq<char>, c: char)
    ensures
        index_of(s, c) matches Some(i) ==> 0 <= i < s.len() && s[i] == c,
    decreases s.len(),
{
    if s.len() > 0 && s[0] != c {
        lemma_index_of_bounds(s.drop_first(), c);
    }
}

pub fn split_once_char(v: &Vec<char>, c: char) -> (r: Option<(Vec<char>, Vec<char>)>)
    ensures
        match split_once(v@, c) {
            Some((a, b)) => r matches Some(p) && p.0@ == a && p.1@ == b,
            None => r is None,
        },
{
    proof {
        assert(v@.subrange(0, v.len() as int) =~= v@);
        lemma_index_of_bounds(v@, c);
    }
    match find_char(v, c, 0) {
        Some(i) => {
            let a = slice_of(v, 0, i);
            let b = slice_of(v, i + 1, v.len());
            proof {
                assert(a@ =~= v@.take(i as int));
                assert(b@ =~= v@.skip(i + 1));
            }
            Some((a, b))
        },
        None => None,
    }
}

pub fn before_first_char(v: &Vec<char>, c: char) -> (r: Vec<char>)
    ensures
        r@ == before_first(v@, c),
{
    proof {
        assert(v@.subrange(0, v.len() as int) =~= v@);
        lemma_index_of_bounds(v@, c);
    }
    match find_char(v, c, 0) {
        Some(i) => {
            let a = slice_of(v, 0, i);
            assert(a@ =~= v@.take(i as int));
            a
        },
        None => v.clone(),
    }
}

/// What follows the last `c` in `s` (all of `s` when it has none).
pub open spec fn after_last(s: Seq<char>, c: char) -> Seq<char>
    decreases s.len(),
{
    if s.len() == 0 {
        s
    } else if s.last() == c {
        Seq::empty()
    } else {
        after_last(s.drop_last(), c).push(s.last())
    }
}

/// `s.rsplit(c).find(|p| !p.is_empty())`: the last non-empty piece.
pub open spec fn last_piece(s: Seq<char>, c: char) -> Option<Seq<char>>
    decreases s.len(),
{
    if s.len() == 0 {
        None
    } else if s.last() == c {
        last_piece(s.drop_last(), c)
    } else {
        Some(after_last(s, c))
    }
}

pub fn last_piece_chars(v: &Vec<char>, c: char) -> (r: Option<Vec<char>>)
    ensures
        match last_piece(v@, c) {
            Some(p) => r matches Some(x) && x@ == p,
            None => r is None,
        },
{
    let mut e = v.len();
    proof {
        assert(v@.take(e as int) =~= v@);
    }
    while e > 0 && v[e - 1] == c
        invariant
            e <= v.len(),
            last_piece(v@, c) == last_piece(v@.take(e as int), c),
        decreases e,
    {
        proof {
            assert(v@.take(e as int).drop_last() =~= v@.take(e - 1));
        }
        e -= 1;
    }
    if e == 0 {
        return None;
    }
    let mut b = e;
    while b > 0 && v[b - 1] != c
        invariant
            b <= e <= v.len(),
            e > 0,
            v@[e - 1] != c,
            after_last(v@.take(e as int), c) == after_last(v@.take(b as int), c) + v@.subrange(
                b as int,
                e as int,
            ),
        decreases b,
    {
        proof {
            assert(v@.take(b as int).drop_last() =~= v@.take(b - 1));
            assert(v@.subrange(b - 1, e as int) =~= seq![v@[b - 1]] + v@.subrange(b as int, e as int));
            assert(after_last(v@.take(b as int), c) =~= after_last(v@.take(b - 1), c).push(v@[b - 1]));
            assert(after_last(v@.take(b - 1), c).push(v@[b - 1]) + v@.subrange(b as int, e as int)
                =~= after_last(v@.take(b - 1), c) + v@.subrange(b - 1, e as int));
        }
        b -= 1;
    }
    proof {
        if b > 0 {
            assert(v@.take(b as int).last() == c);
        }
        assert(after_last(v@.take(b as int), c) =~= Seq::<char>::empty());
        assert(v@.subrange(b as int, e as int) =~= after_last(v@.take(e as int), c));
        assert(v@.take(e as int).last() != c);
    }
    Some(slice_of(v, b, e))
}

// ── Lines ─────────────────────────────────────────────────────────

/// A line cut at `\n`, without the `\r` of a `\r\n` ending.
pub open spec fn strip_cr(l: Seq<char>) -> Seq<char> {
    if l.len() > 0 && l.last() == '\r' {
        l.drop_last()
    } else {
        l
    }
}

/// std's `str::lines`: the text cut at each `\n`, a `\r` before the `\n`
/// dropped, with no empty line after a final `\n`.
pub open spec fn lines(s: Seq<char>) -> Seq<Seq<char>>
    decreases s.len(),
{
    if s.len() == 0 {
        Seq::empty()
    } else {
        match index_of(s, '\n') {
            Some(i) => {
                proof {
                    lemma_index_of_bounds(s, '\n');
                }
                seq![strip_cr(s.take(i))] + lines(s.skip(i + 1))
            },
            None => seq![s],
        }
    }
}

/// The lines of `v`, as std's `str::lines` yields them.
pub fn lines_of(v: &Vec<char>) -> (out: Vec<Vec<char>>)
    ensures
        out@.map_values(|l: Vec<char>| l@) == lines(v@),
{
    let mut out: Vec<Vec<char>> = Vec::new();
    let mut pos: usize = 0;
    let n = v.len();
    proof {
        assert(v@.subrange(0, n as int) =~= v@);
    }
    while pos < n
        invariant
            pos <= n == v@.len(),
            lines(v@) == out@.map_values(|l: Vec<char>| l@) + lines(
                v@.subrange(pos as int, n as int),
            ),
        decreases n - pos,
    {
        let ghost rest = v@.subrange(pos as int, n as int);
        let ghost before = out@;
        match find_char(v, '\n', pos) {
            Some(i) => {
                proof {
                    lemma_index_of_bounds(rest, '\n');
                }
                let mut line = slice_of(v, pos, i);
                if line.len() > 0 && line[line.len() - 1] == '\r' {
                    line = slice_of(&line, 0, line.len() - 1);
                    proof {
                        assert(line@ =~= v@.subrange(pos as int, i as int).drop_last());
                    }
                }
                proof {
                    let k = i - pos;
                    assert(rest.take(k) =~= v@.subrange(pos as int, i as int));
                    assert(rest.skip(k + 1) =~= v@.subrange(i + 1, n as int));
                    assert(line@ == strip_cr(rest.take(k)));
                }
                out.push(line);
                proof {
                    assert(out@.map_values(|l: Vec<char>| l@) =~= before.map_values(
                        |l: Vec<char>| l@,
                    ).push(strip_cr(rest.take(i - pos))));
                    assert(lines(rest) == seq![strip_cr(rest.take(i - pos))] + lines(
                        rest.skip(i - pos + 1),
                    ));
                    assert(before.map_values(|l: Vec<char>| l@) + lines(rest) =~= out@.map_values(
                        |l: Vec<char>| l@,
                    ) + lines(v@.subrange(i + 1, n as int)));
                }
                pos = i + 1;
            },
            None => {
                let line = slice_of(v, pos, n);
                out.push(line);
                proof {
                    assert(lines(rest) == seq![rest]);
                    assert(out@.map_values(|l: Vec<char>| l@) =~= before.map_values(
                        |l: Vec<char>| l@,
                    ).push(rest));
                    assert(v@.subrange(n as int, n as int) =~= Seq::<char>::empty());
                    assert(lines(Seq::<char>::empty()) =~= Seq::<Seq<char>>::empty());
                    assert(before.map_values(|l: Vec<char>| l@) + lines(rest) =~= out@.map_values(
                        |l: Vec<char>| l@,
                    ) + lines(v@.subrange(n as int, n as int)));
                }
                pos = n;
            },
        }
    }
    proof {
        assert(v@.subrange(n as int, n as int) =~= Seq::<char>::empty());
        assert(lines(Seq::<char>::empty()) =~= Seq::<Seq<char>>::empty());
        assert(out@.map_values(|l: Vec<char>| l@) + lines(v@.subrange(n as int, n as int))
            =~= out@.map_values(|l: Vec<char>| l@));
    }
    out
}

// ── Unicode case ──────────────────────────────────────────────────

/// `str::to_lowercase`: the Unicode lower-case mapping of a string.
pub uninterp spec fn unicode_lowercase(s: Seq<char>) -> Seq<char>;

/// The Unicode lower case of `s` (std's `str::to_lowercase`); the
/// contract only names the result, since the mapping is Unicode's.
#[verifier::external_body]
pub(crate) fn lowercase(s: &str) -> (out: String)
    ensures
        out@ == unicode_lowercase(s@),
{
    s.to_lowercase()
}

/// `char::to_uppercase`: the Unicode upper-case mapping of a character.
pub uninterp spec fn unicode_char_upper(c: char) -> Seq<char>;

/// The Unicode upper case of `c` (std's `char::to_uppercase`, collected):
/// the contract names the mapping and states, as std documents, that it
/// yields at least one character.
#[verifier::external_body]
pub(crate) fn char_uppercase(c: char) -> (out: String)
    ensures
        out@ == unicode_char_upper(c),
        out@.len() >= 1,
{
    c.to_uppercase().collect()
}

/// `str::to_uppercase`: the Unicode upper-case mapping of a string.
pub uninterp spec fn unicode_uppercase(s: Seq<char>) -> Seq<char>;

/// The Unicode upper case of `s` (std's `str::to_uppercase`); the contract
/// only names the result.
#[verifier::external_body]
pub(crate) fn uppercase(s: &str) -> (out: String)
    ensures
        out@ == unicode_uppercase(s@),
{
    s.to_uppercase()
}

} // verus!
