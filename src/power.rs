//! Power-of-two test on transform sizes.
use vstd::arithmetic::power2::is_pow2;
use vstd::prelude::*;

verus! {

/// The bitwise power-of-two test: clearing the lowest set bit leaves zero.
pub open spec fn single_bit_test(n: u32) -> bool {
    n & ((n - 1) as u32) == 0
}

/// One halving step of the bitwise test: for `n > 1`, `n & (n - 1)` clears
/// to zero exactly when `n` is even and its half passes the same test.
proof fn lemma_clear_lowest_bit_step(n: u32)
    requires
        n > 1,
    ensures
        single_bit_test(n) <==> (n % 2 == 0 && single_bit_test((n / 2) as u32)),
{
    let half = (n / 2) as u32;
    assert(n & ((n - 1) as u32) == 0 <==> (n % 2 == 0 && half & ((half - 1) as u32) == 0))
        by (bit_vector)
        requires
            n > 1,
            half == n / 2,
    ;
}

/// For a positive `n`, the bitwise test `n & (n - 1) == 0` holds exactly
/// when `n` is a power of two.
pub proof fn lemma_clear_lowest_bit_is_pow2(n: u32)
    requires
        n > 0,
    ensures
        single_bit_test(n) <==> is_pow2(n as int),
    decreases n,
{
    reveal(is_pow2);
    if n == 1 {
        assert(1u32 & ((1u32 - 1) as u32) == 0) by (bit_vector);
    } else {
        lemma_clear_lowest_bit_step(n);
        lemma_clear_lowest_bit_is_pow2((n / 2) as u32);
    }
}

/// Whether `n` is a power of two, by the bitwise test `n & (n - 1) == 0`.
pub fn is_power_of_two(n: u32) -> (r: bool)
    ensures
        r == is_pow2(n as int),
{
    if n == 0 {
        proof {
            reveal(is_pow2);
        }
        false
    } else {
        proof {
            lemma_clear_lowest_bit_is_pow2(n);
        }
        n & (n - 1) == 0
    }
}

} // verus!
