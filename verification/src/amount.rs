//! The dollar-amount parser: turns a human-formatted currency string such
//! as `"$1,234.56"` into integer cents.  Digits and one decimal point are
//! kept; `,`, space and `$` are discarded; any other character is a hard
//! parse failure.  The filtered string must be a decimal number with at
//! most two fraction digits, so the result is always exact and no
//! rounding is involved.

use vstd::prelude::*;
use crate::payment::is_digit_char;

verus! {

/// Numeric value of a digit character.
pub open spec fn digit_val(c: char) -> int {
    c as int - 48
}

/// The characters of `s` that survive filtering (digits and the decimal
/// point), or `None` if `s` holds a character that is neither kept nor
/// discarded.
pub open spec fn amount_filtered(s: Seq<char>) -> Option<Seq<char>>
    decreases s.len(),
{
    if s.len() == 0 {
        Some(Seq::empty())
    } else {
        match amount_filtered(s.drop_last()) {
            None => None,
            Some(t) => {
                let c = s.last();
                if is_digit_char(c) || c == '.' {
                    Some(t.push(c))
                } else if c == ',' || c == ' ' || c == '$' {
                    Some(t)
                } else {
                    None
                }
            },
        }
    }
}

/// State of the decimal scan after reading a prefix of the filtered
/// string: value of the integer part, fraction digits seen so far, and
/// number of decimal points seen.
pub open spec fn scan_step(st: (int, Seq<char>, nat), c: char) -> (int, Seq<char>, nat) {
    if is_digit_char(c) {
        if st.2 == 0 {
            (st.0 * 10 + digit_val(c), st.1, st.2)
        } else {
            (st.0, st.1.push(c), st.2)
        }
    } else if c == '.' {
        (st.0, st.1, (st.2 + 1) as nat)
    } else {
        st
    }
}

/// The scan state after reading all of `t`.
pub open spec fn scan_state(t: Seq<char>) -> (int, Seq<char>, nat)
    decreases t.len(),
{
    if t.len() == 0 {
        (0, Seq::empty(), 0)
    } else {
        scan_step(scan_state(t.drop_last()), t.last())
    }
}

/// Cents contributed by up to two fraction digits.
pub open spec fn frac_val(b: Seq<char>) -> int {
    if b.len() == 0 {
        0
    } else if b.len() == 1 {
        digit_val(b[0]) * 10
    } else {
        digit_val(b[0]) * 10 + digit_val(b[1])
    }
}

/// `v` as a `u64`, or `None` if it does not fit.
pub open spec fn fit_u64(v: int) -> Option<u64> {
    if v > u64::MAX {
        None
    } else {
        Some(v as u64)
    }
}

/// Cents denoted by the filtered string `t`: its integer part times 100
/// plus its fraction part.  An empty string, a lone decimal point, more
/// than one decimal point, more than two fraction digits, or a value
/// beyond `u64` all fail.
pub open spec fn cents_of_filtered(t: Seq<char>) -> Option<u64> {
    let st = scan_state(t);
    if st.2 == 0 {
        if t.len() == 0 {
            None
        } else {
            fit_u64(st.0 * 100)
        }
    } else if st.2 == 1 {
        if t.len() == 1 {
            None
        } else if st.1.len() > 2 {
            None
        } else {
            fit_u64(st.0 * 100 + frac_val(st.1))
        }
    } else {
        None
    }
}

/// Cents denoted by a raw amount string, after filtering.
pub open spec fn spec_parse_dollar_amount(s: Seq<char>) -> Option<u64> {
    match amount_filtered(s) {
        None => None,
        Some(t) => cents_of_filtered(t),
    }
}

/// If filtering fails on a prefix of `s`, it fails on every longer
/// prefix.
proof fn lemma_filtered_none_extends(s: Seq<char>, j: int, k: int)
    requires
        0 <= j <= k <= s.len(),
        amount_filtered(s.subrange(0, j)) is None,
    ensures
        amount_filtered(s.subrange(0, k)) is None,
    decreases k - j,
{
    if k > j {
        lemma_filtered_none_extends(s, j, k - 1);
        assert(s.subrange(0, k).drop_last() =~= s.subrange(0, k - 1));
    }
}

/// Parse a human-formatted dollar amount into cents.  Returns `None` on a
/// character that is neither kept nor discarded, on an empty or malformed
/// decimal, on more than two fraction digits, or on a value beyond `u64`.
pub fn parse_dollar_amount_to_cents(amount: &String) -> (r: Option<u64>)
    ensures
        r == spec_parse_dollar_amount(amount@),
{
    let chars = crate::text::to_char_vec(amount.as_str());
    let mut san: Vec<char> = Vec::new();
    let mut i: usize = 0;
    while i < chars.len()
        invariant
            i <= chars.len(),
            chars@ == amount@,
            amount_filtered(chars@.subrange(0, i as int)) == Some(san@),
            forall|j: int| 0 <= j < san@.len() ==> is_digit_char(#[trigger] san@[j]) || san@[j] == '.',
        decreases chars.len() - i,
    {
        let c = chars[i];
        proof {
            assert(chars@.subrange(0, i + 1).drop_last() =~= chars@.subrange(0, i as int));
            assert(chars@.subrange(0, i + 1).last() == c);
        }
        if c == '.' || (c >= '0' && c <= '9') {
            san.push(c);
        } else if c == ',' || c == ' ' || c == '$' {
        } else {
            proof {
                lemma_filtered_none_extends(chars@, i + 1, chars@.len() as int);
                assert(chars@.subrange(0, chars@.len() as int) =~= chars@);
            }
            return None;
        }
        i += 1;
    }
    proof {
        assert(chars@.subrange(0, chars@.len() as int) =~= chars@);
    }
    // Scan the filtered characters as a decimal number.
    let mut iv: u64 = 0;
    let mut iv_of: bool = false;
    let mut dots: usize = 0;
    let mut fcount: usize = 0;
    let mut fv: u64 = 0;
    let mut k: usize = 0;
    while k < san.len()
        invariant
            k <= san.len(),
            forall|j: int| 0 <= j < san@.len() ==> is_digit_char(#[trigger] san@[j]) || san@[j] == '.',
            dots <= k,
            fcount <= k,
            ({
                let st = scan_state(san@.subrange(0, k as int));
                &&& dots == st.2
                &&& fcount == st.1.len()
                &&& (!iv_of ==> iv == st.0)
                &&& (iv_of ==> st.0 > u64::MAX)
                &&& (fcount <= 2 ==> fv == frac_val(st.1))
                &&& fv <= 99
            }),
        decreases san.len() - k,
    {
        let c = san[k];
        proof {
            assert(san@.subrange(0, k + 1).drop_last() =~= san@.subrange(0, k as int));
            assert(san@.subrange(0, k + 1).last() == c);
        }
        if c == '.' {
            dots += 1;
        } else {
            let d: u64 = ((c as u32) - 48) as u64;
            proof {
                assert(is_digit_char(c));
                assert(d == digit_val(c));
            }
            if dots == 0 {
                if !iv_of && iv <= (u64::MAX - d) / 10 {
                    iv = iv * 10 + d;
                } else {
                    iv_of = true;
                }
            } else {
                if fcount == 0 {
                    fv = d * 10;
                } else if fcount == 1 {
                    fv = fv + d;
                }
                fcount += 1;
            }
        }
        k += 1;
    }
    proof {
        assert(san@.subrange(0, san@.len() as int) =~= san@);
    }
    if dots == 0 {
        if san.len() == 0 {
            None
        } else if iv_of || iv > (u64::MAX - 0) / 100 {
            None
        } else {
            Some(iv * 100)
        }
    } else if dots == 1 {
        if san.len() == 1 {
            None
        } else if fcount > 2 {
            None
        } else if iv_of || iv > (u64::MAX - fv) / 100 {
            None
        } else {
            Some(iv * 100 + fv)
        }
    } else {
        None
    }
}

} // verus!
