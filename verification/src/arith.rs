//! Wide division.
use vstd::arithmetic::div_mod::{lemma_basic_div, lemma_div_denominator, lemma_fundamental_div_mod_converse};
use vstd::arithmetic::power2::{lemma2_to64, lemma_pow2_adds, lemma_pow2_pos, lemma_pow2_unfold, pow2};
use vstd::bits::lemma_u128_shr_is_div;
use vstd::prelude::*;

verus! {

proof fn lemma_low_bit(m: u128)
    by (bit_vector)
    ensures
        m & 1 == m % 2,
{
}

proof fn lemma_shift_in(remainder: u128, low: u128)
    by (bit_vector)
    requires
        remainder < 0x8000_0000_0000_0000_0000_0000_0000_0000,
        low <= 1,
    ensures
        (remainder << 1u128) | low == 2 * remainder + low,
{
}

proof fn lemma_set_clear_bit(quotient: u128, bit: u128)
    by (bit_vector)
    requires
        bit < 128,
        (quotient >> bit) & 1 == 0,
    ensures
        quotient | (1u128 << bit) == quotient + (1u128 << bit),
{
}

proof fn lemma_one_shifted(bit: u128)
    requires
        bit < 128,
    ensures
        (1u128 << bit) as int == pow2(bit as nat),
    decreases bit,
{
    if bit == 0 {
        assert(1u128 << 0u128 == 1) by (bit_vector);
        lemma2_to64();
    } else {
        let lower = (bit - 1) as u128;
        lemma_one_shifted(lower);
        assert(1u128 << bit == 2 * (1u128 << lower)) by (bit_vector)
            requires
                0 < bit < 128,
                lower == bit - 1,
        ;
        lemma_pow2_unfold(bit as nat);
    }
}

/// Unsigned 128-bit division by shift and subtract; a zero divisor gives zero.
pub fn __udivti3(n: u128, d: u128) -> (q: u128)
    ensures
        d == 0 ==> q == 0,
        d != 0 ==> q == n / d,
{
    if d == 0 {
        return 0;
    }
    let mut quotient: u128 = 0;
    let mut remainder: u128 = 0;
    let mut bit: u128 = 128;
    let ghost mut above: int = 0;
    proof {
        lemma2_to64();
        lemma_pow2_adds(64, 64);
        lemma_basic_div(n as int, pow2(128) as int);
    }
    while bit > 0
        invariant
            0 <= bit <= 128,
            remainder < d,
            above >= 0,
            quotient == above * pow2(bit as nat),
            above * d + remainder == n as int / pow2(bit as nat) as int,
        decreases bit,
    {
        let ghost upper: int = n as int / pow2(bit as nat) as int;
        bit -= 1;
        let ghost p: int = pow2(bit as nat) as int;
        proof {
            lemma_pow2_pos(bit as nat);
            lemma_pow2_unfold((bit + 1) as nat);
            lemma_u128_shr_is_div(n, bit);
            lemma_u128_shr_is_div(quotient, bit);
            lemma_div_denominator(n as int, p, 2);
            lemma_low_bit(n >> bit);
            lemma_low_bit(quotient >> bit);
            assert(n as int / p / 2 == upper) by {
                assert(p * 2 == pow2((bit + 1) as nat));
            }
            assert(above * (2 * p) == (2 * above) * p) by (nonlinear_arith);
            assert(quotient as int == (2 * above) * p + 0);
            lemma_fundamental_div_mod_converse(quotient as int, p, 2 * above, 0);
            assert((quotient >> bit) & 1 == 0);
            lemma_set_clear_bit(quotient, bit);
            lemma_one_shifted(bit);
            assert(remainder <= upper) by (nonlinear_arith)
                requires
                    above * d + remainder == upper,
                    above >= 0,
                    d >= 0,
            ;
            assert(upper < 0x8000_0000_0000_0000_0000_0000_0000_0000);
            lemma_shift_in(remainder, (n >> bit) & 1);
            assert((2 * above) * d == 2 * (above * d)) by (nonlinear_arith);
            assert((2 * above + 1) * d == 2 * (above * d) + d) by (nonlinear_arith);
            assert((2 * above + 1) * p == (2 * above) * p + p) by (nonlinear_arith);
        }
        remainder = (remainder << 1u128) | ((n >> bit) & 1);
        if remainder >= d {
            remainder -= d;
            quotient = quotient | (1u128 << bit);
            proof {
                above = 2 * above + 1;
            }
        } else {
            proof {
                above = 2 * above;
            }
        }
    }
    proof {
        lemma2_to64();
        assert(quotient as int == above * 1 && n as int == n as int / 1);
        lemma_fundamental_div_mod_converse(n as int, d as int, quotient as int, remainder as int);
    }
    quotient
}

} // verus!
