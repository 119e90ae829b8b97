//! Verified primality testing and prime factorisation.

use vstd::prelude::*;
use vstd::arithmetic::div_mod::{
    lemma_fundamental_div_mod, lemma_mod_multiples_basic, lemma_small_mod,
};

verus! {

/// Primality: at least two, and no smaller divisor above one.
pub open spec fn spec_is_prime(n: int) -> bool {
    n >= 2 && forall|d: int| 2 <= d < n ==> #[trigger] (n % d) != 0
}

/// Determines whether a number is prime.
pub fn is_prime(num: u32) -> (r: bool)
    ensures
        r == spec_is_prime(num as int),
{
    if num <= 1 {
        return false;
    }
    let mut d: u32 = 2;
    while d < num
        invariant
            2 <= d <= num,
            forall|k: int| 2 <= k < d ==> #[trigger] ((num as int) % k) != 0,
        decreases num - d,
    {
        if num % d == 0 {
            assert((num as int) % (d as int) == 0);
            return false;
        }
        d = d + 1;
    }
    true
}

/// The product of a sequence of factors.
pub open spec fn seq_product(s: Seq<u32>) -> int
    decreases s.len(),
{
    if s.len() == 0 {
        1
    } else {
        seq_product(s.drop_last()) * s.last()
    }
}

/// If `d` divides `f` and `f` divides `c`, then `d` divides `c`.
proof fn lemma_divides_transitive(d: int, f: int, c: int)
    requires
        2 <= d,
        2 <= f,
        1 <= c,
        f % d == 0,
        c % f == 0,
    ensures
        c % d == 0,
{
    lemma_fundamental_div_mod(f, d);
    lemma_fundamental_div_mod(c, f);
    let k = f / d;
    let m = c / f;
    assert(f == d * k);
    assert(c == f * m);
    assert(c == (k * m) * d) by (nonlinear_arith)
        requires
            f == d * k,
            c == f * m,
    ;
    lemma_mod_multiples_basic(k * m, d);
}

/// The prime factors of `num` in nondecreasing order; their product is
/// exactly `num` (so `1` factors into the empty product).
pub fn prime_factors(num: u32) -> (r: Vec<u32>)
    requires
        num >= 1,
    ensures
        seq_product(r@) == num,
        forall|i: int| 0 <= i < r@.len() ==> spec_is_prime(#[trigger] r@[i] as int),
        forall|i: int, j: int| 0 <= i < j < r@.len() ==> r@[i] <= r@[j],
{
    let mut factors: Vec<u32> = Vec::new();
    let mut curr: u32 = num;
    let mut f: u32 = 2;
    while curr > 1
        invariant
            1 <= curr <= num,
            2 <= f,
            curr > 1 ==> f <= curr,
            seq_product(factors@) * curr == num,
            forall|d: int| 2 <= d < f ==> #[trigger] ((curr as int) % d) != 0,
            forall|i: int| 0 <= i < factors@.len() ==> spec_is_prime(#[trigger] factors@[i] as int),
            forall|i: int| 0 <= i < factors@.len() ==> factors@[i] <= f,
            forall|i: int, j: int| 0 <= i < j < factors@.len() ==> factors@[i] <= factors@[j],
        decreases curr, curr - f,
    {
        if curr % f == 0 {
            let next = curr / f;
            proof {
                lemma_fundamental_div_mod(curr as int, f as int);
                assert(curr == (f as int) * (next as int));
                // the quotient is at least one and strictly smaller
                assert(next >= 1) by (nonlinear_arith)
                    requires
                        curr == (f as int) * (next as int),
                        curr >= 1,
                        f >= 2,
                        next >= 0,
                ;
                assert(next < curr) by (nonlinear_arith)
                    requires
                        curr == (f as int) * (next as int),
                        f >= 2,
                        next >= 1,
                ;
                // f is prime: a smaller divisor of f would divide curr
                assert forall|d: int| 2 <= d < f implies #[trigger] ((f as int) % d) != 0 by {
                    if (f as int) % d == 0 {
                        lemma_divides_transitive(d, f as int, curr as int);
                    }
                }
                assert(spec_is_prime(f as int));
                // no divisor below f survives the division
                assert forall|d: int| 2 <= d < f implies #[trigger] ((next as int) % d) != 0 by {
                    if next == 1 {
                        lemma_small_mod(1nat, d as nat);
                    } else if (next as int) % d == 0 {
                        assert((curr as int) % (next as int) == 0) by {
                            lemma_mod_multiples_basic(f as int, next as int);
                        }
                        lemma_divides_transitive(d, next as int, curr as int);
                    }
                }
                // so if anything is left, it is at least f
                if next > 1 && next < f {
                    assert((next as int) % (next as int) == 0);
                    lemma_mod_multiples_basic(1, next as int);
                    assert(false);
                }
                // the product invariant carries over
                let ghost old_factors = factors@;
                assert(seq_product(old_factors.push(f)) == seq_product(old_factors) * f) by {
                    assert(old_factors.push(f).drop_last() =~= old_factors);
                }
                assert(seq_product(old_factors) * f * next == seq_product(old_factors) * curr)
                    by (nonlinear_arith)
                    requires
                        curr == (f as int) * (next as int),
                ;
            }
            factors.push(f);
            curr = next;
        } else {
            assert(f < curr) by {
                assert((curr as int) % (curr as int) == 0) by {
                    lemma_mod_multiples_basic(1, curr as int);
                }
            }
            f = f + 1;
        }
    }
    factors
}

} // verus!
