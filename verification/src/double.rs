//! Which integers the 64-bit binary floating-point format holds exactly.
//!
//! A finite value of that format is a significand of magnitude below
//! 2^53, scaled by a power of two. Turning an integer into a double loses
//! nothing exactly when the integer has that shape.

use vstd::arithmetic::power2::{lemma2_to64, lemma_pow2_adds, lemma_pow2_pos, lemma_pow2_unfold, pow2};
use vstd::math::abs;
use vstd::prelude::*;

verus! {

/// Two to the power 53: a significand is an integer of smaller magnitude.
pub const SIGNIFICAND_LIMIT: u128 = 0x20_0000_0000_0000;

/// The largest power of two by which the format scales a significand.
pub const MAX_SCALE: u32 = 971;

/// `n` is the significand `m` scaled by two to the power `e`.
pub open spec fn decomposes(n: int, m: int, e: nat) -> bool {
    &&& -SIGNIFICAND_LIMIT < m < SIGNIFICAND_LIMIT
    &&& e <= MAX_SCALE
    &&& n == m * pow2(e)
}

/// The integer `n` is a value of the format.
pub open spec fn is_double(n: int) -> bool {
    exists|m: int, e: nat| #[trigger] decomposes(n, m, e)
}

/// Zero is a value of the format.
pub proof fn lemma_zero_is_double()
    ensures
        is_double(0),
{
    assert(decomposes(0, 0, 0)) by (nonlinear_arith);
}

/// An odd number that is scaled up by a power of two cannot be written
/// with a smaller number in its place.
proof fn lemma_odd_significand_is_least(m: nat, e: nat, k: nat, f: nat)
    requires
        m % 2 == 1,
        m * pow2(e) == k * pow2(f),
    ensures
        m <= k,
    decreases f,
{
    lemma_pow2_pos(e);
    lemma_pow2_pos(f);
    if f == 0 {
        lemma2_to64();
        assert(m <= m * pow2(e)) by (nonlinear_arith)
            requires
                pow2(e) > 0,
        ;
    } else if e == 0 {
        lemma2_to64();
        lemma_pow2_unfold(f);
        let half = pow2((f - 1) as nat);
        assert(k * (2 * half) == 2 * (k * half)) by (nonlinear_arith);
    } else {
        lemma_pow2_unfold(e);
        lemma_pow2_unfold(f);
        let half_e = pow2((e - 1) as nat);
        let half_f = pow2((f - 1) as nat);
        assert(m * (2 * half_e) == 2 * (m * half_e)) by (nonlinear_arith);
        assert(k * (2 * half_f) == 2 * (k * half_f)) by (nonlinear_arith);
        lemma_odd_significand_is_least(m, (e - 1) as nat, k, (f - 1) as nat);
    }
}

/// The magnitude of `n`.
fn magnitude(n: i128) -> (m: u128)
    ensures
        m == abs(n as int),
{
    if n >= 0 {
        n as u128
    } else {
        (-(n + 1)) as u128 + 1
    }
}

/// Whether the format holds `n` exactly.
pub fn holds_exactly(n: i128) -> (exact: bool)
    ensures
        exact == is_double(n as int),
{
    let whole: u128 = magnitude(n);
    let mut m: u128 = whole;
    let ghost mut e: nat = 0;
    proof {
        lemma2_to64();
    }
    while m >= SIGNIFICAND_LIMIT && m % 2 == 0
        invariant
            whole == m * pow2(e),
            e == 0 || m >= 1,
        decreases m,
    {
        proof {
            lemma_pow2_unfold(e + 1);
            assert((m / 2) * (2 * pow2(e)) == m * pow2(e)) by (nonlinear_arith)
                requires
                    m % 2 == 0,
            ;
            e = e + 1;
        }
        m = m / 2;
    }
    proof {
        if m < SIGNIFICAND_LIMIT {
            lemma_scale_is_bounded(whole, m, e);
            let signed: int = if n < 0 {
                -(m as int)
            } else {
                m as int
            };
            assert(signed * pow2(e) == n) by (nonlinear_arith)
                requires
                    m * pow2(e) == abs(n as int),
                    signed == (if n < 0 {
                        -(m as int)
                    } else {
                        m as int
                    }),
            ;
            assert(decomposes(n as int, signed, e));
        } else {
            assert forall|k: int, f: nat| !decomposes(n as int, k, f) by {
                if decomposes(n as int, k, f) {
                    lemma_pow2_pos(f);
                    assert(abs(n as int) == abs(k) * pow2(f)) by (nonlinear_arith)
                        requires
                            n == k * pow2(f),
                            pow2(f) > 0,
                    ;
                    lemma_odd_significand_is_least(m as nat, e, abs(k), f);
                }
            }
        }
    }
    m < SIGNIFICAND_LIMIT
}

/// A number below 2^128 that is `m * 2^e` for a positive `m` has a scale
/// within the format's.
proof fn lemma_scale_is_bounded(whole: u128, m: u128, e: nat)
    requires
        whole == m * pow2(e),
        e == 0 || m >= 1,
    ensures
        e <= MAX_SCALE,
{
    if e > 128 {
        lemma2_to64();
        lemma_pow2_adds(64, 64);
        lemma_pow2_adds(128, (e - 128) as nat);
        lemma_pow2_pos((e - 128) as nat);
        assert(m * pow2(e) >= pow2(128)) by (nonlinear_arith)
            requires
                m >= 1,
                pow2(e) == pow2(128) * pow2((e - 128) as nat),
                pow2((e - 128) as nat) > 0,
                pow2(128) > 0,
        ;
    }
}

} // verus!
