//! Decimal rendering and parsing of integers: what `format!("{n}")`,
//! `format!("{n:0w}")` and `str::parse::<i64>()` / `str::parse::<u32>()` do.

use vstd::prelude::*;

use crate::text::{is_ascii_digit, push_char};

verus! {

/// The ASCII digit for `d` in `0..=9`.
pub open spec fn digit_char(d: int) -> char {
    (d + 48) as char
}

/// Decimal digits of `n`, most significant first, without leading zeros.
pub open spec fn nat_digits(n: nat) -> Seq<char>
    decreases n,
{
    if n < 10 {
        seq![digit_char(n as int)]
    } else {
        nat_digits(n / 10).push(digit_char((n % 10) as int))
    }
}

/// `format!("{n}")` for a signed integer.
pub open spec fn int_digits(n: int) -> Seq<char> {
    if n < 0 {
        seq!['-'] + nat_digits((-n) as nat)
    } else {
        nat_digits(n as nat)
    }
}

/// `w - k` zeros, or none when `k >= w`.
pub open spec fn zeros(w: int, k: int) -> Seq<char> {
    Seq::new(if w > k { (w - k) as nat } else { 0 }, |i: int| '0')
}

/// `format!("{n:0w$}")`: the sign first, then zeros up to width `w`.
pub open spec fn zero_pad(n: int, w: int) -> Seq<char> {
    if n < 0 {
        seq!['-'] + zeros(w - 1, nat_digits((-n) as nat).len() as int) + nat_digits((-n) as nat)
    } else {
        zeros(w, nat_digits(n as nat).len() as int) + nat_digits(n as nat)
    }
}

pub proof fn lemma_nat_digits_len(n: nat)
    ensures
        nat_digits(n).len() >= 1,
        n < 10 ==> nat_digits(n).len() == 1,
        10 <= n < 100 ==> nat_digits(n).len() == 2,
        100 <= n < 1000 ==> nat_digits(n).len() == 3,
        1000 <= n < 10000 ==> nat_digits(n).len() == 4,
    decreases n,
{
    if n >= 10 {
        lemma_nat_digits_len(n / 10);
    }
}

/// `10^k`.
pub open spec fn pow10(k: nat) -> nat
    decreases k,
{
    if k == 0 {
        1
    } else {
        10 * pow10((k - 1) as nat)
    }
}

proof fn lemma_nat_digits_len_bound(n: nat, k: nat)
    requires
        k >= 1,
        n < pow10(k),
    ensures
        nat_digits(n).len() <= k,
    decreases k,
{
    if n >= 10 {
        assert(k >= 2) by {
            if k == 1 {
                reveal_with_fuel(pow10, 2);
            }
        }
        let p = pow10((k - 1) as nat);
        assert(n / 10 < p) by (nonlinear_arith)
            requires
                n < 10 * p,
        ;
        lemma_nat_digits_len_bound(n / 10, (k - 1) as nat);
    }
}

/// A `u64` has at most twenty decimal digits.
pub proof fn lemma_u64_digits(n: u64)
    ensures
        nat_digits(n as nat).len() <= 20,
{
    reveal_with_fuel(pow10, 21);
    assert(pow10(20) == 100000000000000000000);
    lemma_nat_digits_len_bound(n as nat, 20);
}

/// Appends the decimal digits of `n`.
pub fn push_u64(s: &mut String, n: u64)
    ensures
        final(s)@ == old(s)@ + nat_digits(n as nat),
    decreases n,
{
    if n >= 10 {
        push_u64(s, n / 10);
    }
    let d = (n % 10) as u8;
    push_char(s, (48u8 + d) as char);
    proof {
        if n >= 10 {
            assert(nat_digits(n as nat) == nat_digits((n / 10) as nat).push(digit_char((n % 10) as int)));
        }
    }
    assert(final(s)@ =~= old(s)@ + nat_digits(n as nat));
}

/// The magnitude of `n`, as an unsigned number.
pub fn magnitude(n: i64) -> (m: u64)
    ensures
        m as int == if n < 0 { -n } else { n as int },
{
    if n < 0 {
        ((0i128 - n as i128) as u64)
    } else {
        n as u64
    }
}

/// Appends `format!("{n}")`.
pub fn push_i64(s: &mut String, n: i64)
    ensures
        final(s)@ == old(s)@ + int_digits(n as int),
{
    let ghost s0 = s@;
    if n < 0 {
        push_char(s, '-');
        push_u64(s, magnitude(n));
        assert(s@ =~= s0 + int_digits(n as int));
    } else {
        push_u64(s, n as u64);
    }
}

/// Appends `w - k` zeros.
fn push_zeros(s: &mut String, w: u64, k: u64)
    ensures
        final(s)@ == old(s)@ + zeros(w as int, k as int),
{
    let ghost s0 = s@;
    let mut i: u64 = k;
    while i < w
        invariant
            k <= w ==> k <= i <= w,
            k > w ==> i == k,
            s@ == s0 + zeros(i as int, k as int),
        decreases w - i,
    {
        push_char(s, '0');
        i += 1;
        assert(s@ =~= s0 + zeros(i as int, k as int));
    }
    assert(zeros(i as int, k as int) =~= zeros(w as int, k as int));
}

/// Number of decimal digits of `n`.
fn digit_count(n: u64) -> (c: u64)
    ensures
        c as int == nat_digits(n as nat).len(),
    decreases n,
{
    proof {
        lemma_nat_digits_len(n as nat);
    }
    if n < 10 {
        1
    } else {
        let c = digit_count(n / 10);
        assert(nat_digits(n as nat) == nat_digits((n / 10) as nat).push(digit_char((n % 10) as int)));
        proof {
            lemma_u64_digits(n / 10);
        }
        c + 1
    }
}

/// Appends `format!("{n:0w$}")`.
pub fn push_zero_padded(s: &mut String, n: i64, w: u64)
    requires
        w < 100,
    ensures
        final(s)@ == old(s)@ + zero_pad(n as int, w as int),
{
    let ghost s0 = s@;
    let m = magnitude(n);
    let c = digit_count(m);
    proof {
        lemma_nat_digits_len(m as nat);
    }
    if n < 0 {
        push_char(s, '-');
        if w >= 1 {
            push_zeros(s, w - 1, c);
        } else {
            assert(zeros(w - 1, c as int) =~= Seq::<char>::empty());
        }
        push_u64(s, m);
        assert(s@ =~= s0 + zero_pad(n as int, w as int));
    } else {
        push_zeros(s, w, c);
        push_u64(s, m);
        assert(s@ =~= s0 + zero_pad(n as int, w as int));
    }
}

// ── Parsing ───────────────────────────────────────────────────────

/// Every character is an ASCII digit.
pub open spec fn all_digits(s: Seq<char>) -> bool {
    forall|i: int| 0 <= i < s.len() ==> is_ascii_digit(#[trigger] s[i])
}

/// The number an all-digit string spells, in base ten.
pub open spec fn digits_value(s: Seq<char>) -> int
    decreases s.len(),
{
    if s.len() == 0 {
        0
    } else {
        digits_value(s.drop_last()) * 10 + (s.last() as int - 48)
    }
}

/// std's integer `FromStr`: an optional `+` (or `-` where `signed`), then at
/// least one ASCII digit, and the value within `lo..=hi`.
pub open spec fn parse_int(s: Seq<char>, signed: bool, lo: int, hi: int) -> Option<int> {
    let has_sign = s.len() > 0 && (s[0] == '+' || (signed && s[0] == '-'));
    let neg = s.len() > 0 && s[0] == '-' && signed;
    let rest = if has_sign { s.drop_first() } else { s };
    if rest.len() > 0 && all_digits(rest) {
        let v = if neg { -digits_value(rest) } else { digits_value(rest) };
        if lo <= v <= hi { Some(v) } else { None }
    } else {
        None
    }
}

/// `str::parse::<i64>()`.
pub open spec fn parse_i64_spec(s: Seq<char>) -> Option<int> {
    parse_int(s, true, i64::MIN as int, i64::MAX as int)
}

/// `str::parse::<u32>()`.
pub open spec fn parse_u32_spec(s: Seq<char>) -> Option<int> {
    parse_int(s, false, 0, u32::MAX as int)
}

proof fn lemma_digits_value_nonneg(s: Seq<char>)
    requires
        all_digits(s),
    ensures
        digits_value(s) >= 0,
    decreases s.len(),
{
    if s.len() > 0 {
        assert(all_digits(s.drop_last()));
        lemma_digits_value_nonneg(s.drop_last());
    }
}

proof fn lemma_digits_value_mono(s: Seq<char>, k: int)
    requires
        all_digits(s),
        0 <= k <= s.len(),
    ensures
        digits_value(s.take(k)) <= digits_value(s),
    decreases s.len(),
{
    if k < s.len() {
        assert(all_digits(s.drop_last()));
        assert(s.drop_last().take(k) =~= s.take(k));
        lemma_digits_value_mono(s.drop_last(), k);
        lemma_digits_value_nonneg(s.drop_last());
        assert(is_ascii_digit(s[s.len() - 1]));
    } else {
        assert(s.take(k) =~= s);
    }
}

/// The value of the digits `v[start..]`, when they are all digits, at least
/// one, and the value is at most `limit`.
fn digits_up_to(v: &Vec<char>, start: usize, limit: u64) -> (r: Option<u64>)
    requires
        start <= v.len(),
    ensures
        ({
            let rest = v@.subrange(start as int, v.len() as int);
            match r {
                Some(x) => rest.len() > 0 && all_digits(rest) && x == digits_value(rest) && x <= limit,
                None => !(rest.len() > 0 && all_digits(rest) && digits_value(rest) <= limit),
            }
        }),
{
    let ghost rest = v@.subrange(start as int, v.len() as int);
    if start == v.len() {
        return None;
    }
    let mut acc: u128 = 0;
    let mut i = start;
    while i < v.len()
        invariant
            start <= i <= v.len(),
            rest == v@.subrange(start as int, v.len() as int),
            all_digits(rest.take(i - start)),
            acc == digits_value(rest.take(i - start)),
            acc <= limit,
        decreases v.len() - i,
    {
        let c = v[i];
        if !('0' <= c && c <= '9') {
            proof {
                assert(rest[i - start] == c);
                assert(!all_digits(rest));
            }
            return None;
        }
        let d = (c as u8 - 48) as u128;
        proof {
            assert(rest.take(i - start + 1).drop_last() =~= rest.take(i - start));
            assert(rest.take(i - start + 1).last() == c);
            assert(all_digits(rest.take(i - start + 1)));
        }
        let next = acc * 10 + d;
        if next > limit as u128 {
            proof {
                if all_digits(rest) {
                    lemma_digits_value_mono(rest, i - start + 1);
                }
            }
            return None;
        }
        acc = next;
        i += 1;
    }
    proof {
        assert(rest.take(i - start) =~= rest);
    }
    Some(acc as u64)
}

/// `str::parse::<i64>()` on characters.
pub fn parse_i64(v: &Vec<char>) -> (r: Option<i64>)
    ensures
        match r {
            Some(x) => parse_i64_spec(v@) == Some(x as int),
            None => parse_i64_spec(v@) is None,
        },
{
    let has_sign = v.len() > 0 && (v[0] == '+' || v[0] == '-');
    let neg = v.len() > 0 && v[0] == '-';
    let start: usize = if has_sign { 1 } else { 0 };
    let limit: u64 = if neg { 0x8000_0000_0000_0000 } else { 0x7fff_ffff_ffff_ffff };
    proof {
        let rest = if has_sign { v@.drop_first() } else { v@ };
        assert(rest =~= v@.subrange(start as int, v.len() as int));
    }
    match digits_up_to(v, start, limit) {
        Some(m) => {
            if neg {
                Some((0i128 - m as i128) as i64)
            } else {
                Some(m as i64)
            }
        },
        None => None,
    }
}

/// `str::parse::<u32>()` on characters.
pub fn parse_u32(v: &Vec<char>) -> (r: Option<u32>)
    ensures
        match r {
            Some(x) => parse_u32_spec(v@) == Some(x as int),
            None => parse_u32_spec(v@) is None,
        },
{
    let has_sign = v.len() > 0 && v[0] == '+';
    let start: usize = if has_sign { 1 } else { 0 };
    proof {
        let rest = if has_sign { v@.drop_first() } else { v@ };
        assert(rest =~= v@.subrange(start as int, v.len() as int));
        if all_digits(rest) && rest.len() > 0 {
            lemma_digits_value_nonneg(rest);
        }
    }
    match digits_up_to(v, start, 0xffff_ffff) {
        Some(m) => Some(m as u32),
        None => None,
    }
}

} // verus!
