//! Character-level model of the fixed-width text format: decimal digit
//! strings, padding, and helpers that move between `String` and `Vec<char>`.

use vstd::prelude::*;

verus! {

/// The character for the decimal digit `d` (taken modulo 10).
pub open spec fn digit_char(d: nat) -> char {
    ((48 + (d % 10)) as u8) as char
}

/// Decimal digits of `n`, most significant first; zero is rendered "0".
pub open spec fn dec_digits(n: nat) -> Seq<char>
    decreases n,
{
    if n < 10 {
        seq![digit_char(n)]
    } else {
        dec_digits(n / 10).push(digit_char(n % 10))
    }
}

/// `n` copies of `c`.
pub open spec fn repeat_char(c: char, n: nat) -> Seq<char> {
    Seq::new(n, |i: int| c)
}

/// Left-pad `s` with `c` to at least `w` characters, as `format!("{:0>w}")`
/// does: a value already `w` or more characters long is kept unchanged.
pub open spec fn pad_left(s: Seq<char>, c: char, w: nat) -> Seq<char> {
    if s.len() >= w {
        s
    } else {
        repeat_char(c, (w - s.len()) as nat) + s
    }
}

/// Right-pad `s` with `c` to at least `w` characters, as `format!("{:<w}")`.
pub open spec fn pad_right(s: Seq<char>, c: char, w: nat) -> Seq<char> {
    if s.len() >= w {
        s
    } else {
        s + repeat_char(c, (w - s.len()) as nat)
    }
}

/// `format!("{:0>w}", n)` for an unsigned `n`.
pub open spec fn zero_padded(n: nat, w: nat) -> Seq<char> {
    pad_left(dec_digits(n), '0', w)
}

/// `format!("{:<w}", n)` for an unsigned `n`.
pub open spec fn left_aligned_num(n: nat, w: nat) -> Seq<char> {
    pad_right(dec_digits(n), ' ', w)
}

/// 10 to the power `k`.
pub open spec fn pow10(k: nat) -> nat
    decreases k,
{
    if k == 0 {
        1
    } else {
        10 * pow10((k - 1) as nat)
    }
}

/// A number below `10^k` has at most `k` digits (and always at least one).
pub proof fn lemma_dec_digits_len(n: nat, k: nat)
    requires
        k >= 1,
        n < pow10(k),
    ensures
        1 <= dec_digits(n).len() <= k,
    decreases k,
{
    if n < 10 {
    } else {
        assert(pow10(k) == 10 * pow10((k - 1) as nat));
        lemma_dec_digits_len(n / 10, (k - 1) as nat);
    }
}

/// Padding a string of at most `w` characters yields exactly `w` characters.
pub proof fn lemma_pad_right_len(s: Seq<char>, c: char, w: nat)
    requires
        s.len() <= w,
    ensures
        pad_right(s, c, w).len() == w,
{
}

/// `format!("{:0>w}", n)` has exactly `w` characters when `n < 10^w`.
pub proof fn lemma_zero_padded_len(n: nat, w: nat)
    requires
        w >= 1,
        n < pow10(w),
    ensures
        zero_padded(n, w).len() == w,
{
    lemma_dec_digits_len(n, w);
}

/// `format!("{:<w}", n)` has exactly `w` characters when `n < 10^w`.
pub proof fn lemma_left_aligned_num_len(n: nat, w: nat)
    requires
        w >= 1,
        n < pow10(w),
    ensures
        left_aligned_num(n, w).len() == w,
{
    lemma_dec_digits_len(n, w);
}

/// The character for the decimal digit `d`.
pub fn digit_to_char(d: u64) -> (c: char)
    requires
        d < 10,
    ensures
        c == digit_char(d as nat),
{
    (48u8 + (d as u8)) as char
}

/// Append the elements of `src` to `dst`.
pub fn push_chars(dst: &mut Vec<char>, src: &Vec<char>)
    ensures
        final(dst)@ == old(dst)@ + src@,
{
    let mut i: usize = 0;
    while i < src.len()
        invariant
            i <= src.len(),
            dst@ == old(dst)@ + src@.subrange(0, i as int),
        decreases src.len() - i,
    {
        dst.push(src[i]);
        proof {
            assert(old(dst)@ + src@.subrange(0, i + 1) =~= (old(dst)@ + src@.subrange(
                0,
                i as int,
            )).push(src@[i as int]));
        }
        i += 1;
    }
    proof {
        assert(src@.subrange(0, src@.len() as int) =~= src@);
    }
}

/// Append `n` copies of `c` to `dst`.
pub fn push_repeat(dst: &mut Vec<char>, c: char, n: usize)
    ensures
        final(dst)@ == old(dst)@ + repeat_char(c, n as nat),
{
    let mut i: usize = 0;
    while i < n
        invariant
            i <= n,
            dst@ == old(dst)@ + repeat_char(c, i as nat),
        decreases n - i,
    {
        dst.push(c);
        proof {
            assert(old(dst)@ + repeat_char(c, (i + 1) as nat) =~= (old(dst)@ + repeat_char(
                c,
                i as nat,
            )).push(c));
        }
        i += 1;
    }
    proof {
        assert(old(dst)@ + repeat_char(c, n as nat) =~= dst@);
    }
}

/// The decimal digits of `n`, as characters.
pub fn u64_to_dec_chars(n: u64) -> (v: Vec<char>)
    ensures
        v@ == dec_digits(n as nat),
{
    let mut rev: Vec<char> = Vec::new();
    let mut m: u64 = n;
    while m >= 10
        invariant
            dec_digits(n as nat) == dec_digits(m as nat) + rev@.reverse(),
        decreases m,
    {
        let d: u64 = m % 10;
        proof {
            assert(dec_digits(m as nat) == dec_digits((m as nat) / 10).push(digit_char(
                (m as nat) % 10,
            )));
            assert((dec_digits((m as nat) / 10) + rev@.push(digit_char((m as nat) % 10)).reverse())
                =~= dec_digits(m as nat) + rev@.reverse());
        }
        rev.push(digit_to_char(d));
        m = m / 10;
    }
    proof {
        assert((rev@.push(digit_char(m as nat)).reverse() =~= seq![digit_char(m as nat)]
            + rev@.reverse()));
    }
    rev.push(digit_to_char(m));
    let mut v: Vec<char> = Vec::new();
    let mut i: usize = rev.len();
    while i > 0
        invariant
            i <= rev.len(),
            v@ =~= rev@.reverse().subrange(0, (rev@.len() - i) as int),
        decreases i,
    {
        i -= 1;
        v.push(rev[i]);
        proof {
            assert(v@ =~= rev@.reverse().subrange(0, (rev@.len() - i) as int));
        }
    }
    proof {
        assert(v@ =~= rev@.reverse());
    }
    v
}

/// Append `format!("{:0>w}", n)` to `dst`.
pub fn push_zero_padded(dst: &mut Vec<char>, n: u64, w: usize)
    ensures
        final(dst)@ == old(dst)@ + zero_padded(n as nat, w as nat),
{
    let digits = u64_to_dec_chars(n);
    if digits.len() < w {
        push_repeat(dst, '0', w - digits.len());
    }
    push_chars(dst, &digits);
    proof {
        assert(final(dst)@ =~= old(dst)@ + zero_padded(n as nat, w as nat));
    }
}

/// Append `format!("{:<w}", n)` to `dst`.
pub fn push_left_aligned_num(dst: &mut Vec<char>, n: u64, w: usize)
    ensures
        final(dst)@ == old(dst)@ + left_aligned_num(n as nat, w as nat),
{
    let digits = u64_to_dec_chars(n);
    push_chars(dst, &digits);
    if digits.len() < w {
        push_repeat(dst, ' ', w - digits.len());
    }
    proof {
        assert(final(dst)@ =~= old(dst)@ + left_aligned_num(n as nat, w as nat));
    }
}

/// Append the characters of `src`, right-padded with `c` to width `w`.
pub fn push_padded_chars(dst: &mut Vec<char>, src: &Vec<char>, c: char, w: usize)
    ensures
        final(dst)@ == old(dst)@ + pad_right(src@, c, w as nat),
{
    push_chars(dst, src);
    if src.len() < w {
        push_repeat(dst, c, w - src.len());
    }
    proof {
        assert(final(dst)@ =~= old(dst)@ + pad_right(src@, c, w as nat));
    }
}

/// The characters of `s`, as a vector.
pub fn to_char_vec(s: &str) -> (v: Vec<char>)
    ensures
        v@ == s@,
{
    let n: usize = s.unicode_len();
    let mut v: Vec<char> = Vec::new();
    let mut i: usize = 0;
    while i < n
        invariant
            i <= n,
            n == s@.len(),
            v@ =~= s@.subrange(0, i as int),
        decreases n - i,
    {
        v.push(s.get_char(i));
        i += 1;
    }
    proof {
        assert(v@ =~= s@);
    }
    v
}

/// Whether `c` is ASCII whitespace: space, tab, line feed, vertical tab,
/// form feed or carriage return.
pub open spec fn is_space_char(c: char) -> bool {
    c == ' ' || (9 <= c as u32 && c as u32 <= 13)
}

/// `s` without its leading whitespace.
pub open spec fn trim_start(s: Seq<char>) -> Seq<char>
    decreases s.len(),
{
    if s.len() > 0 && is_space_char(s.first()) {
        trim_start(s.drop_first())
    } else {
        s
    }
}

/// `s` without its trailing whitespace.
pub open spec fn trim_end(s: Seq<char>) -> Seq<char>
    decreases s.len(),
{
    if s.len() > 0 && is_space_char(s.last()) {
        trim_end(s.drop_last())
    } else {
        s
    }
}

/// `s` without leading and trailing whitespace.
pub open spec fn trimmed(s: Seq<char>) -> Seq<char> {
    trim_end(trim_start(s))
}

/// `c` with an ASCII lowercase letter mapped to its uppercase form.
pub open spec fn upper_char(c: char) -> char {
    if 'a' <= c && c <= 'z' {
        ((c as u8) - 32) as char
    } else {
        c
    }
}

/// `s` with every ASCII lowercase letter mapped to its uppercase form.
pub open spec fn upper_seq(s: Seq<char>) -> Seq<char> {
    Seq::new(s.len(), |i: int| upper_char(s[i]))
}

/// Whether `c` is ASCII whitespace.
pub fn is_space(c: char) -> (r: bool)
    ensures
        r == is_space_char(c),
{
    c == ' ' || (c as u32 >= 9 && c as u32 <= 13)
}

/// Strip leading and trailing ASCII whitespace.
pub fn trim_chars(v: &Vec<char>) -> (r: Vec<char>)
    ensures
        r@ == trimmed(v@),
{
    proof {
        assert(v@.subrange(0, v@.len() as int) =~= v@);
    }
    let mut lo: usize = 0;
    while lo < v.len() && is_space(v[lo])
        invariant
            lo <= v.len(),
            trim_start(v@) == trim_start(v@.subrange(lo as int, v@.len() as int)),
        decreases v.len() - lo,
    {
        proof {
            let cur = v@.subrange(lo as int, v@.len() as int);
            assert(cur.first() == v@[lo as int]);
            assert(cur.drop_first() =~= v@.subrange(lo + 1, v@.len() as int));
        }
        lo += 1;
    }
    proof {
        let cur = v@.subrange(lo as int, v@.len() as int);
        assert(trim_start(cur) == cur);
        assert(v@.subrange(0, v@.len() as int) =~= v@);
    }
    let mut hi: usize = v.len();
    while hi > lo && is_space(v[hi - 1])
        invariant
            lo <= hi <= v.len(),
            trim_start(v@) == v@.subrange(lo as int, v@.len() as int),
            trim_end(v@.subrange(lo as int, v@.len() as int)) == trim_end(
                v@.subrange(lo as int, hi as int),
            ),
        decreases hi,
    {
        proof {
            let cur = v@.subrange(lo as int, hi as int);
            assert(cur.last() == v@[hi - 1]);
            assert(cur.drop_last() =~= v@.subrange(lo as int, hi - 1));
        }
        hi -= 1;
    }
    proof {
        let cur = v@.subrange(lo as int, hi as int);
        assert(trim_end(cur) == cur);
    }
    let mut r: Vec<char> = Vec::new();
    let mut i: usize = lo;
    while i < hi
        invariant
            lo <= i <= hi <= v.len(),
            r@ =~= v@.subrange(lo as int, i as int),
        decreases hi - i,
    {
        r.push(v[i]);
        proof {
            assert(r@ =~= v@.subrange(lo as int, i + 1));
        }
        i += 1;
    }
    proof {
        assert(r@ =~= trimmed(v@));
    }
    r
}

/// Map every ASCII lowercase letter to its uppercase form.
pub fn to_upper_chars(v: &Vec<char>) -> (r: Vec<char>)
    ensures
        r@ == upper_seq(v@),
{
    let mut r: Vec<char> = Vec::new();
    let mut i: usize = 0;
    while i < v.len()
        invariant
            i <= v.len(),
            r@.len() == i,
            forall|j: int| 0 <= j < i ==> r@[j] == upper_char(v@[j]),
        decreases v.len() - i,
    {
        let c = v[i];
        if c >= 'a' && c <= 'z' {
            r.push(((c as u8) - 32) as char);
        } else {
            r.push(c);
        }
        i += 1;
    }
    proof {
        assert(r@ =~= upper_seq(v@));
    }
    r
}

/// The first `n` characters of `v`.
pub fn prefix_chars(v: &Vec<char>, n: usize) -> (r: Vec<char>)
    requires
        n <= v@.len(),
    ensures
        r@ == v@.subrange(0, n as int),
{
    let mut r: Vec<char> = Vec::new();
    let mut i: usize = 0;
    while i < n
        invariant
            i <= n <= v@.len(),
            r@ =~= v@.subrange(0, i as int),
        decreases n - i,
    {
        r.push(v[i]);
        proof {
            assert(r@ =~= v@.subrange(0, i + 1));
        }
        i += 1;
    }
    r
}

/// Relies on `String`'s `FromIterator<char>` implementation: collecting an
/// iterator of characters builds the string holding exactly those
/// characters in order.
#[verifier::external_body]
pub fn chars_to_string(v: &Vec<char>) -> (s: String)
    ensures
        s@ == v@,
{
    v.iter().collect()
}

/// Whether the two character vectors hold the same characters.
pub fn chars_eq(a: &Vec<char>, b: &Vec<char>) -> (r: bool)
    ensures
        r <==> a@ == b@,
{
    if a.len() != b.len() {
        proof {
            assert(a@ != b@);
        }
        return false;
    }
    let mut i: usize = 0;
    while i < a.len()
        invariant
            i <= a.len(),
            a@.len() == b@.len(),
            forall|j: int| 0 <= j < i ==> a@[j] == b@[j],
        decreases a.len() - i,
    {
        if a[i] != b[i] {
            proof {
                assert(a@ != b@);
            }
            return false;
        }
        i += 1;
    }
    proof {
        assert(a@ =~= b@);
    }
    true
}

} // verus!
