//! Fixed-width unsigned integers wrap to zero on overflow. The two functions
//! here use that to measure the width of `u32` and to build its largest value.

use vstd::arithmetic::power2::{lemma2_to64, lemma_pow2_strictly_increases, lemma_pow2_unfold, pow2};
use vstd::bits::lemma_u32_shl_is_mul;
use vstd::prelude::*;

verus! {

/// The number of values a `u32` can hold, `2^32`.
pub open spec fn modulus() -> int {
    0x1_0000_0000
}

/// What is left of `2^n` in a `u32` after `n` doublings of 1 with wraparound.
pub open spec fn wrapped_power_of_two(n: nat) -> int {
    pow2(n) as int % modulus()
}

/// `2^0 + 2^1 + ... + 2^(n - 1)`, the number whose binary digits are `n` ones.
pub open spec fn sum_of_powers_of_two(n: nat) -> int
    decreases n,
{
    if n == 0 {
        0
    } else {
        sum_of_powers_of_two((n - 1) as nat) + pow2((n - 1) as nat)
    }
}

/// The sum of the first `n` powers of two is one short of the next power.
pub proof fn lemma_sum_of_powers_of_two(n: nat)
    ensures
        sum_of_powers_of_two(n) == pow2(n) - 1,
    decreases n,
{
    if n == 0 {
        lemma2_to64();
    } else {
        lemma_sum_of_powers_of_two((n - 1) as nat);
        lemma_pow2_unfold(n);
    }
}

/// Powers of two below `2^32` survive in a `u32`; `2^32` itself wraps to zero.
pub proof fn lemma_wrapped_power_of_two(n: nat)
    requires
        n <= 32,
    ensures
        n < 32 ==> wrapped_power_of_two(n) == pow2(n) && 0 < pow2(n) < modulus(),
        n == 32 ==> wrapped_power_of_two(n) == 0,
{
    lemma2_to64();
    if n < 32 {
        lemma_pow2_strictly_increases(n, 32);
    }
}

/// Counts the bits of a `u32`: starting from 1, doubles until the value
/// wraps to zero, and returns the number of doublings.
pub fn get_number_of_bits() -> (exponent: u32)
    ensures
        exponent == 32,
        exponent == u32::BITS,
        wrapped_power_of_two(exponent as nat) == 0,
        forall|n: nat| n < exponent ==> wrapped_power_of_two(n) != 0,
{
    let mut exponent: u32 = 0;
    let mut power_of_two: u32 = 1;
    proof {
        lemma2_to64();
        lemma_wrapped_power_of_two(0);
    }
    while power_of_two != 0
        invariant
            exponent <= 32,
            power_of_two as int == wrapped_power_of_two(exponent as nat),
        decreases 32 - exponent,
    {
        proof {
            lemma_wrapped_power_of_two(exponent as nat);
            lemma_wrapped_power_of_two((exponent + 1) as nat);
            lemma_pow2_unfold((exponent + 1) as nat);
            let p = power_of_two;
            assert(p < 0x8000_0000u32 ==> (p << 1u32) == 2 * p) by (bit_vector);
            assert(p == 0x8000_0000u32 ==> (p << 1u32) == 0) by (bit_vector);
        }
        exponent = exponent + 1;
        power_of_two = power_of_two << 1;
    }
    proof {
        lemma_wrapped_power_of_two(exponent as nat);
        assert forall|n: nat| n < exponent implies wrapped_power_of_two(n) != 0 by {
            lemma_wrapped_power_of_two(n);
        }
    }
    exponent
}

/// Builds the largest `u32` as the sum of `2^n` over every bit position `n`,
/// with wrapping shifts and additions. One more than the result wraps to zero.
pub fn get_max_number() -> (max_integer: u32)
    ensures
        max_integer == u32::MAX,
        max_integer == 4294967295u32,
        max_integer == sum_of_powers_of_two(32),
        max_integer.wrapping_add(1) == 0,
{
    let number_of_bits: u32 = get_number_of_bits();
    let mut max_integer: u32 = 0;
    let mut two_to_the_n: u32;
    for index in 0..number_of_bits
        invariant
            number_of_bits == 32,
            max_integer as int == sum_of_powers_of_two(index as nat),
    {
        proof {
            lemma_sum_of_powers_of_two(index as nat);
            lemma_sum_of_powers_of_two((index + 1) as nat);
            lemma_wrapped_power_of_two(index as nat);
            lemma_wrapped_power_of_two((index + 1) as nat);
            lemma_pow2_unfold((index + 1) as nat);
            lemma_u32_shl_is_mul(1u32, index);
            assert(index % 32 == index);
        }
        two_to_the_n = 1u32.wrapping_shl(index);
        max_integer = max_integer.wrapping_add(two_to_the_n);
    }
    proof {
        lemma_sum_of_powers_of_two(32);
        lemma2_to64();
    }
    max_integer
}

} // verus!
