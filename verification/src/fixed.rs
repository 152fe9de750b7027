//! Fixed-point arithmetic shared by the color-space-conversion stage and the
//! motor controller: Q3.12 matrix coefficients held in ten-thousandths of a
//! unit, Q16.16 controller gains held in thousandths, and floor division for
//! signed rate conversions.

use vstd::prelude::*;

use vstd::arithmetic::div_mod::{
    lemma_div_is_ordered, lemma_div_nonincreasing, lemma_div_pos_is_pos,
    lemma_fundamental_div_mod, lemma_fundamental_div_mod_converse, lemma_hoist_over_denominator,
    lemma_mod_division_less_than_divisor,
};
use vstd::arithmetic::power2::{lemma2_to64, lemma_pow2_unfold, pow2};

verus! {

/// Largest coefficient magnitude, in ten-thousandths, that the Q3.12
/// register format can hold (eight units).
pub const Q312_LIMIT: i32 = 80_000;

/// The Q3.12 register encoding of a coefficient given in ten-thousandths of
/// a unit: the coefficient scaled by 4096 and rounded to nearest, halves
/// away from zero.
pub open spec fn spec_q312_encode(c: int) -> int {
    if c >= 0 {
        (c * 4096 + 5000) / 10000
    } else {
        -(((-c) * 4096 + 5000) / 10000)
    }
}

/// The coefficient in ten-thousandths of a unit recovered from a Q3.12
/// register value, rounded to nearest, halves away from zero.
pub open spec fn spec_q312_decode(q: int) -> int {
    if q >= 0 {
        (q * 10000 + 2048) / 4096
    } else {
        -(((-q) * 10000 + 2048) / 4096)
    }
}

/// Encode a coefficient, given in ten-thousandths of a unit, into the Q3.12
/// register format.
pub fn q312_encode(c: i32) -> (r: i32)
    requires
        -Q312_LIMIT <= c <= Q312_LIMIT,
    ensures
        r == spec_q312_encode(c as int),
        -32768 <= r <= 32768,
{
    if c >= 0 {
        let q = (c * 4096 + 5000) / 10000;
        assert(q <= 32768) by {
            lemma_div_is_ordered(c * 4096 + 5000, 327_685_000, 10000);
        }
        assert(q >= 0) by {
            lemma_div_pos_is_pos(c * 4096 + 5000, 10000);
        }
        q
    } else {
        let m = -c;
        let q = (m * 4096 + 5000) / 10000;
        assert(q <= 32768) by {
            lemma_div_is_ordered(m * 4096 + 5000, 327_685_000, 10000);
        }
        assert(q >= 0) by {
            lemma_div_pos_is_pos(m * 4096 + 5000, 10000);
        }
        -q
    }
}

/// Decode a Q3.12 register value back into ten-thousandths of a unit.
pub fn q312_decode(q: i32) -> (r: i32)
    requires
        -32768 <= q <= 32768,
    ensures
        r == spec_q312_decode(q as int),
        -Q312_LIMIT - 1 <= r <= Q312_LIMIT + 1,
{
    if q >= 0 {
        let c = (q * 10000 + 2048) / 4096;
        assert(c <= 80_001) by {
            lemma_div_is_ordered(q * 10000 + 2048, 327_682_048, 4096);
            assert(327_682_048int / 4096 == 80_000);
        }
        assert(c >= 0) by {
            lemma_div_pos_is_pos(q * 10000 + 2048, 4096);
        }
        c
    } else {
        let m = -q;
        let c = (m * 10000 + 2048) / 4096;
        assert(c <= 80_001) by {
            lemma_div_is_ordered(m * 10000 + 2048, 327_682_048, 4096);
            assert(327_682_048int / 4096 == 80_000);
        }
        assert(c >= 0) by {
            lemma_div_pos_is_pos(m * 10000 + 2048, 4096);
        }
        -c
    }
}

proof fn lemma_q312_round_trip_nonneg(c: int)
    requires
        0 <= c <= Q312_LIMIT,
    ensures
        -1 <= spec_q312_decode(spec_q312_encode(c)) - c <= 1,
{
    let e = (c * 4096 + 5000) / 10000;
    lemma_div_pos_is_pos(c * 4096 + 5000, 10000);
    assert(spec_q312_encode(c) == e);
    lemma_fundamental_div_mod(c * 4096 + 5000, 10000);
    lemma_mod_division_less_than_divisor(c * 4096 + 5000, 10000);
    let r1 = (c * 4096 + 5000) % 10000;
    assert(10000 * e + 2048 == c * 4096 + 7048 - r1);
    lemma_hoist_over_denominator(7048 - r1, c, 4096);
    assert((7048 - r1) / 4096 + c == (7048 - r1 + c * 4096) / 4096);
    assert(e * 10000 == 10000 * e) by (nonlinear_arith);
    assert(spec_q312_decode(e) == (7048 - r1 + c * 4096) / 4096);
    lemma_div_is_ordered(-2951, 7048 - r1, 4096);
    lemma_div_is_ordered(7048 - r1, 7048, 4096);
    assert((-2951int) / 4096 == -1);
    assert(7048int / 4096 == 1);
}

/// A Q3.12 coefficient survives the register round trip to within one
/// ten-thousandth of a unit, which is finer than the format's own step of
/// 1/4096: encoding a coefficient and decoding the register value yields
/// the coefficient again up to that error, over the whole representable
/// range.
pub proof fn lemma_q312_round_trip(c: int)
    requires
        -Q312_LIMIT <= c <= Q312_LIMIT,
    ensures
        -1 <= spec_q312_decode(spec_q312_encode(c)) - c <= 1,
{
    if c >= 0 {
        lemma_q312_round_trip_nonneg(c);
    } else {
        lemma_q312_round_trip_nonneg(-c);
        let e = spec_q312_encode(-c);
        assert(spec_q312_encode(c) == -e);
        lemma_div_pos_is_pos((-c) * 4096 + 5000, 10000);
        assert(spec_q312_decode(-e) == -spec_q312_decode(e));
    }
}

/// The encoding of a representable coefficient fits the Q3.12 register
/// field.
pub proof fn lemma_q312_encode_range(c: int)
    requires
        -Q312_LIMIT <= c <= Q312_LIMIT,
    ensures
        -32768 <= spec_q312_encode(c) <= 32768,
{
    if c >= 0 {
        lemma_div_pos_is_pos(c * 4096 + 5000, 10000);
        lemma_div_is_ordered(c * 4096 + 5000, 327_685_000, 10000);
    } else {
        lemma_div_pos_is_pos((-c) * 4096 + 5000, 10000);
        lemma_div_is_ordered((-c) * 4096 + 5000, 327_685_000, 10000);
    }
}

/// The full register round trip of a Q3.12 coefficient: encoding it,
/// storing the encoding in a 32-bit register in two's complement, reading
/// the register back as a signed value and decoding recovers the
/// coefficient to within one ten-thousandth of a unit — finer than the
/// format's own step of 1/4096.
pub proof fn lemma_q312_register_round_trip(c: int)
    requires
        -Q312_LIMIT <= c <= Q312_LIMIT,
    ensures
        ({
            let q = spec_q312_encode(c);
            let stored = (q as i32) as u32;
            &&& -32768 <= stored as i32 <= 32768
            &&& -1 <= spec_q312_decode((stored as i32) as int) - c <= 1
        }),
{
    lemma_q312_encode_range(c);
    let q = spec_q312_encode(c);
    let qi = q as i32;
    assert((qi as u32) as i32 == qi) by (bit_vector);
    lemma_q312_round_trip(c);
}

/// Floor division of a signed value by a positive divisor: the unique `q`
/// with `q * b <= a < (q + 1) * b`, written `a / b` in specifications.
pub fn floor_div_i64(a: i64, b: i64) -> (r: i64)
    requires
        b > 0,
        a > i64::MIN,
    ensures
        r == a as int / b as int,
{
    if a >= 0 {
        let q = (a as u64) / (b as u64);
        proof {
            lemma_div_nonincreasing(a as int, b as int);
        }
        q as i64
    } else {
        let m = (-a) as u64;
        let q = m / (b as u64);
        let rem = m % (b as u64);
        proof {
            lemma_fundamental_div_mod(m as int, b as int);
            lemma_mod_division_less_than_divisor(m as int, b as int);
            lemma_div_nonincreasing(m as int, b as int);
            if rem == 0 {
                assert(a as int == b * -(q as int) + 0) by (nonlinear_arith)
                    requires
                        m == b * q + rem,
                        rem == 0,
                        a as int == -(m as int),
                ;
                lemma_fundamental_div_mod_converse(a as int, b as int, -(q as int), 0);
            } else {
                assert(a as int == b * (-(q as int) - 1) + (b - rem)) by (nonlinear_arith)
                    requires
                        m == b * q + rem,
                        a as int == -(m as int),
                ;
                lemma_fundamental_div_mod_converse(
                    a as int,
                    b as int,
                    -(q as int) - 1,
                    b - rem,
                );
            }
        }
        if rem == 0 {
            -(q as i64)
        } else {
            -(q as i64) - 1
        }
    }
}

/// The number of the highest set bit: `floor(log2 n)` for positive `n`, and
/// zero for zero.
pub open spec fn spec_floor_log2(n: nat) -> nat
    decreases n,
{
    if n < 2 {
        0
    } else {
        1 + spec_floor_log2(n / 2)
    }
}

proof fn lemma_floor_log2_bound(n: nat, k: nat)
    requires
        n < pow2(k + 1),
    ensures
        spec_floor_log2(n) <= k,
    decreases n,
{
    if n >= 2 {
        lemma_pow2_unfold(k + 1);
        assert(k >= 1) by {
            if k == 0 {
                lemma2_to64();
            }
        }
        lemma_floor_log2_bound(n / 2, (k - 1) as nat);
    }
}

/// Compute `floor(log2 n)`, taking zero to zero.
pub fn floor_log2(n: u32) -> (r: u32)
    ensures
        r == spec_floor_log2(n as nat),
{
    proof {
        lemma2_to64();
        lemma_floor_log2_bound(n as nat, 31);
    }
    let mut m: u32 = n;
    let mut r: u32 = 0;
    while m >= 2
        invariant
            r + spec_floor_log2(m as nat) == spec_floor_log2(n as nat),
            spec_floor_log2(n as nat) <= 31,
        decreases m,
    {
        m = m / 2;
        r = r + 1;
    }
    r
}

} // verus!
