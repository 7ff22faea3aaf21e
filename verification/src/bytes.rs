//! Byte-level lexing shared by the IPv4, HTTP and JSON parsers: digit
//! runs and their decimal values, whitespace runs, and literal matching.
//! Each spec function walks the input by index; the executable scanners
//! mirror them and are proved to return exactly what the specs denote.

use vstd::prelude::*;

verus! {

/// Whether `b` is an ASCII decimal digit.
pub open spec fn is_digit(b: u8) -> bool {
    '0' as u8 <= b && b <= '9' as u8
}

/// Whether `b` is an ASCII space or horizontal tab.
pub open spec fn is_space_tab(b: u8) -> bool {
    b == ' ' as u8 || b == 9
}

/// Whether `b` is JSON insignificant whitespace: space, tab, line feed
/// or carriage return.
pub open spec fn is_json_ws(b: u8) -> bool {
    b == ' ' as u8 || b == 9 || b == 10 || b == 13
}

/// The first index at or after `i` that does not hold a decimal digit
/// (or the end of `s`).
pub open spec fn digits_end(s: Seq<u8>, i: int) -> int
    decreases s.len() - i,
{
    if 0 <= i < s.len() && is_digit(s[i]) {
        digits_end(s, i + 1)
    } else {
        i
    }
}

/// The first index at or after `i` that does not hold a space or tab.
pub open spec fn ows_end(s: Seq<u8>, i: int) -> int
    decreases s.len() - i,
{
    if 0 <= i < s.len() && is_space_tab(s[i]) {
        ows_end(s, i + 1)
    } else {
        i
    }
}

/// The first index at or after `i` that does not hold JSON whitespace.
pub open spec fn json_ws_end(s: Seq<u8>, i: int) -> int
    decreases s.len() - i,
{
    if 0 <= i < s.len() && is_json_ws(s[i]) {
        json_ws_end(s, i + 1)
    } else {
        i
    }
}

/// The value of the decimal digit string `s`.
pub open spec fn dec_val(s: Seq<u8>) -> int
    decreases s.len(),
{
    if s.len() == 0 {
        0
    } else {
        dec_val(s.drop_last()) * 10 + (s.last() - '0' as u8)
    }
}

/// Ten to the `n`.
pub open spec fn pow10(n: nat) -> int
    decreases n,
{
    if n == 0 {
        1
    } else {
        10 * pow10((n - 1) as nat)
    }
}

/// Whether the digit run starting at `i` is a well-formed decimal number
/// of `min` to `max` digits, with a leading zero allowed only where
/// `zeros` says so (the single digit `0` is always allowed).
pub open spec fn number_ok(s: Seq<u8>, i: int, min: int, max: int, zeros: bool) -> bool {
    let j = digits_end(s, i);
    &&& min <= j - i <= max
    &&& (zeros || !(j - i > 1 && s[i] == '0' as u8))
}

/// The value of the digit run starting at `i`.
pub open spec fn number_val(s: Seq<u8>, i: int) -> int {
    dec_val(s.subrange(i, digits_end(s, i)))
}

/// Whether the literal `lit` occurs in `s` at index `i`.
pub open spec fn matches_at(s: Seq<u8>, i: int, lit: Seq<u8>) -> bool {
    &&& 0 <= i
    &&& i + lit.len() <= s.len()
    &&& s.subrange(i, i + lit.len()) == lit
}

/// Every index before the end of a digit run holds a digit.
pub proof fn lemma_digits_before_end(s: Seq<u8>, i: int, m: int)
    requires
        0 <= i <= m < digits_end(s, i),
    ensures
        is_digit(s[m]),
        m < s.len(),
    decreases m - i,
{
    if i < m {
        lemma_digits_before_end(s, i + 1, m);
    }
}

/// A digit run ends between its start and the end of the input.
pub proof fn lemma_digits_end_le_len(s: Seq<u8>, i: int)
    requires
        0 <= i <= s.len(),
    ensures
        i <= digits_end(s, i) <= s.len(),
    decreases s.len() - i,
{
    if i < s.len() && is_digit(s[i]) {
        lemma_digits_end_le_len(s, i + 1);
    }
}

/// Ten to the `n` is positive.
pub proof fn lemma_pow10_pos(n: nat)
    ensures
        pow10(n) >= 1,
    decreases n,
{
    if n > 0 {
        lemma_pow10_pos((n - 1) as nat);
    }
}

/// Ten to the `n` grows with `n`.
pub proof fn lemma_pow10_mono(a: nat, b: nat)
    requires
        a <= b,
    ensures
        pow10(a) <= pow10(b),
    decreases b,
{
    if a < b {
        lemma_pow10_mono(a, (b - 1) as nat);
        lemma_pow10_pos((b - 1) as nat);
    }
}

/// A digit string's value is nonnegative and below ten to its length.
pub proof fn lemma_dec_val_bound(s: Seq<u8>)
    requires
        forall|m: int| 0 <= m < s.len() ==> is_digit(#[trigger] s[m]),
    ensures
        0 <= dec_val(s) < pow10(s.len()),
    decreases s.len(),
{
    if s.len() > 0 {
        lemma_dec_val_bound(s.drop_last());
    }
}

/// Scan the digit run starting at `i`.
pub fn digits_end_exec(s: &[u8], i: usize) -> (j: usize)
    requires
        i <= s@.len(),
    ensures
        j == digits_end(s@, i as int),
        i <= j <= s@.len(),
{
    let mut k: usize = i;
    while k < s.len() && s[k] >= '0' as u8 && s[k] <= '9' as u8
        invariant
            i <= k <= s@.len(),
            digits_end(s@, i as int) == digits_end(s@, k as int),
        decreases s@.len() - k,
    {
        assert(digits_end(s@, k as int) == digits_end(s@, k as int + 1));
        k = k + 1;
    }
    assert(digits_end(s@, k as int) == k);
    k
}

/// Scan the space/tab run starting at `i`.
pub fn ows_end_exec(s: &[u8], i: usize) -> (j: usize)
    requires
        i <= s@.len(),
    ensures
        j == ows_end(s@, i as int),
        i <= j <= s@.len(),
{
    let mut k: usize = i;
    while k < s.len() && (s[k] == ' ' as u8 || s[k] == 9)
        invariant
            i <= k <= s@.len(),
            ows_end(s@, i as int) == ows_end(s@, k as int),
        decreases s@.len() - k,
    {
        assert(ows_end(s@, k as int) == ows_end(s@, k as int + 1));
        k = k + 1;
    }
    assert(ows_end(s@, k as int) == k);
    k
}

/// Scan the JSON whitespace run starting at `i`.
pub fn json_ws_end_exec(s: &[u8], i: usize) -> (j: usize)
    requires
        i <= s@.len(),
    ensures
        j == json_ws_end(s@, i as int),
        i <= j <= s@.len(),
{
    let mut k: usize = i;
    while k < s.len() && (s[k] == ' ' as u8 || s[k] == 9 || s[k] == 10 || s[k] == 13)
        invariant
            i <= k <= s@.len(),
            json_ws_end(s@, i as int) == json_ws_end(s@, k as int),
        decreases s@.len() - k,
    {
        assert(json_ws_end(s@, k as int) == json_ws_end(s@, k as int + 1));
        k = k + 1;
    }
    assert(json_ws_end(s@, k as int) == k);
    k
}

/// Parse the decimal number of `min..=max` digits starting at `i`: its
/// value (where at most `limit`) and the index just past its digits.
pub fn parse_number(
    s: &[u8],
    i: usize,
    min: usize,
    max: usize,
    zeros: bool,
    limit: u32,
) -> (r: Option<(u32, usize)>)
    requires
        i <= s@.len(),
        1 <= min <= max <= 7,
    ensures
        match r {
            Some((v, j)) => {
                &&& number_ok(s@, i as int, min as int, max as int, zeros)
                &&& number_val(s@, i as int) == v
                &&& v <= limit
                &&& j == digits_end(s@, i as int)
                &&& i < j <= s@.len()
            },
            None => !(number_ok(s@, i as int, min as int, max as int, zeros) && number_val(
                s@,
                i as int,
            ) <= limit),
        },
{
    let j = digits_end_exec(s, i);
    let n = j - i;
    if n < min || n > max {
        return None;
    }
    if !zeros && n > 1 && s[i] == '0' as u8 {
        return None;
    }
    proof {
        assert forall|m: int| i <= m < j implies is_digit(s@[m]) by {
            lemma_digits_before_end(s@, i as int, m);
        }
    }
    let mut v: u32 = 0;
    let mut k: usize = i;
    while k < j
        invariant
            i <= k <= j <= s@.len(),
            j == digits_end(s@, i as int),
            j - i <= 7,
            forall|m: int| i <= m < j ==> is_digit(#[trigger] s@[m]),
            v == dec_val(s@.subrange(i as int, k as int)),
            v < pow10((k - i) as nat),
        decreases j - k,
    {
        proof {
            reveal_with_fuel(pow10, 8);
            let pre = s@.subrange(i as int, k as int);
            let post = s@.subrange(i as int, k as int + 1);
            assert(post.drop_last() =~= pre);
            assert(post.last() == s@[k as int]);
        }
        v = v * 10 + (s[k] - '0' as u8) as u32;
        k = k + 1;
    }
    proof {
        reveal_with_fuel(pow10, 8);
        assert(s@.subrange(i as int, j as int) =~= s@.subrange(i as int, k as int));
    }
    if v > limit {
        None
    } else {
        Some((v, j))
    }
}

/// Whether two byte strings are equal.
pub fn eq_bytes(a: &[u8], b: &[u8]) -> (r: bool)
    ensures
        r == (a@ == b@),
{
    if a.len() != b.len() {
        return false;
    }
    let m = matches_at_exec(a, 0, b);
    proof {
        assert(a@.subrange(0, b@.len() as int) =~= a@);
    }
    m
}

/// Copy `s[i..j]` into a fresh vector.
pub fn copy_range(s: &[u8], i: usize, j: usize) -> (v: Vec<u8>)
    requires
        i <= j <= s@.len(),
    ensures
        v@ == s@.subrange(i as int, j as int),
{
    let mut v: Vec<u8> = Vec::new();
    let mut k: usize = i;
    while k < j
        invariant
            i <= k <= j <= s@.len(),
            v@ == s@.subrange(i as int, k as int),
        decreases j - k,
    {
        v.push(s[k]);
        proof {
            assert(s@.subrange(i as int, k as int + 1) =~= s@.subrange(i as int, k as int).push(
                s@[k as int],
            ));
        }
        k = k + 1;
    }
    v
}

/// Append all of `tail` to `v`.
pub fn push_bytes(v: &mut Vec<u8>, tail: &[u8])
    ensures
        final(v)@ == old(v)@ + tail@,
{
    let mut k: usize = 0;
    while k < tail.len()
        invariant
            0 <= k <= tail@.len(),
            v@ == old(v)@ + tail@.subrange(0, k as int),
        decreases tail@.len() - k,
    {
        v.push(tail[k]);
        proof {
            assert(old(v)@ + tail@.subrange(0, k as int + 1) =~= (old(v)@ + tail@.subrange(
                0,
                k as int,
            )).push(tail@[k as int]));
        }
        k = k + 1;
    }
    proof {
        assert(tail@.subrange(0, tail@.len() as int) =~= tail@);
    }
}

/// Whether the literal occurs in `s` at index `i`.
pub fn matches_at_exec(s: &[u8], i: usize, lit: &[u8]) -> (r: bool)
    ensures
        r == matches_at(s@, i as int, lit@),
{
    let n = s.len();
    if n < lit.len() || i > n - lit.len() {
        return false;
    }
    let mut k: usize = 0;
    while k < lit.len()
        invariant
            0 <= k <= lit@.len(),
            i + lit@.len() <= s@.len(),
            s@.len() == n,
            forall|m: int| 0 <= m < k ==> s@[i + m] == #[trigger] lit@[m],
        decreases lit@.len() - k,
    {
        if s[i + k] != lit[k] {
            assert(s@.subrange(i as int, i as int + lit@.len())[k as int] != lit@[k as int]);
            return false;
        }
        k = k + 1;
    }
    assert(s@.subrange(i as int, i as int + lit@.len()) =~= lit@);
    true
}

} // verus!
