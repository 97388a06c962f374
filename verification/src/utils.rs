//! Decimal digit counting, used by the range checks on numeric fields.

use vstd::prelude::*;
use crate::text::pow10;

verus! {

/// Number of decimal digits of `n`; zero has none.
pub open spec fn spec_n_digits(n: nat) -> nat
    decreases n,
{
    if n == 0 {
        0
    } else {
        1 + spec_n_digits(n / 10)
    }
}

/// `n` has at most `k` digits exactly when `n < 10^k`.
pub proof fn lemma_n_digits_iff(n: nat, k: nat)
    ensures
        spec_n_digits(n) <= k <==> n < pow10(k),
    decreases n,
{
    if n == 0 {
        assert(pow10(k) >= 1) by {
            lemma_pow10_positive(k);
        }
    } else {
        if k == 0 {
        } else {
            lemma_n_digits_iff(n / 10, (k - 1) as nat);
        }
    }
}

/// `10^k` is positive.
pub proof fn lemma_pow10_positive(k: nat)
    ensures
        pow10(k) >= 1,
    decreases k,
{
    if k > 0 {
        lemma_pow10_positive((k - 1) as nat);
    }
}

/// Count the decimal digits of `v`; zero has none.
pub fn n_digits(v: u32) -> (count: usize)
    ensures
        count == spec_n_digits(v as nat),
{
    proof {
        lemma_n_digits_iff(v as nat, 10);
        assert(pow10(10) == 10000000000) by {
            reveal_with_fuel(pow10, 11);
        }
    }
    let mut m: u32 = v;
    let mut count: usize = 0;
    while m != 0
        invariant
            count + spec_n_digits(m as nat) == spec_n_digits(v as nat),
            spec_n_digits(v as nat) <= 10,
        decreases m,
    {
        count += 1;
        m /= 10;
    }
    count
}

} // verus!
