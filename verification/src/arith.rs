//! Exact scaling of whole numbers.

use vstd::prelude::*;

verus! {

/// The smallest whole number that is not below `n / d`, for a positive `d`.
pub open spec fn ceil_div(n: int, d: int) -> int {
    -((-n) / d)
}

/// `amount * part / whole`, rounded down.
pub(crate) fn scale_floor(amount: u64, part: u64, whole: u64) -> (scaled: u64)
    requires
        0 < whole,
        part <= whole,
    ensures
        scaled == (amount * part) / (whole as int),
        scaled <= amount,
{
    proof {
        assert(amount * part <= amount * whole) by (nonlinear_arith)
            requires
                part <= whole,
        ;
        assert(amount * whole <= 0xffff_ffff_ffff_ffff * 0xffff_ffff_ffff_ffff)
            by (nonlinear_arith)
            requires
                amount <= 0xffff_ffff_ffff_ffff,
                whole <= 0xffff_ffff_ffff_ffff,
        ;
        assert((amount * part) / (whole as int) <= amount) by (nonlinear_arith)
            requires
                amount * part <= amount * whole,
                0 < whole,
        ;
        assert(0 <= (amount * part) / (whole as int)) by (nonlinear_arith)
            requires
                0 <= amount * part,
                0 < whole,
        ;
    }
    let product = amount as u128 * part as u128;
    (product / whole as u128) as u64
}

/// `amount * part / whole`, rounded up.
pub(crate) fn scale_ceil(amount: u64, part: u64, whole: u64) -> (scaled: u64)
    requires
        0 < whole,
        part <= whole,
    ensures
        scaled == ceil_div(amount * part, whole as int),
        scaled <= amount,
{
    proof {
        assert(amount * part <= amount * whole) by (nonlinear_arith)
            requires
                part <= whole,
        ;
        assert(amount * whole <= 0xffff_ffff_ffff_ffff * 0xffff_ffff_ffff_ffff)
            by (nonlinear_arith)
            requires
                amount <= 0xffff_ffff_ffff_ffff,
                whole <= 0xffff_ffff_ffff_ffff,
        ;
        lemma_ceil_div_of_natural(amount * part, whole as int);
        assert((amount * part + whole - 1) / (whole as int) <= amount) by (nonlinear_arith)
            requires
                amount * part <= amount * whole,
                0 < whole,
        ;
        assert(0 <= (amount * part + whole - 1) / (whole as int)) by (nonlinear_arith)
            requires
                0 <= amount * part,
                0 < whole,
        ;
    }
    let product = amount as u128 * part as u128;
    ((product + (whole as u128 - 1)) / whole as u128) as u64
}

/// `distance * numerator / denominator`, rounded up, for a distance of either sign.
pub(crate) fn scale_signed_ceil(distance: i128, numerator: u32, denominator: u32) -> (scaled: i128)
    requires
        0 < denominator,
        -0x4_0000_0000_0000_0000 <= distance <= 0x4_0000_0000_0000_0000,
    ensures
        scaled == ceil_div(distance * numerator, denominator as int),
        -0x4_0000_0000_0000_0000_0000_0000 <= scaled <= 0x4_0000_0000_0000_0000_0000_0000,
{
    if distance >= 0 {
        proof {
            assert(0 <= distance * numerator <= 0x4_0000_0000_0000_0000 * 0xffff_ffff)
                by (nonlinear_arith)
                requires
                    0 <= distance <= 0x4_0000_0000_0000_0000,
                    0 <= numerator <= 0xffff_ffff,
            ;
            lemma_ceil_div_of_natural(distance * numerator, denominator as int);
            assert((distance * numerator + denominator - 1) / (denominator as int) <= distance
                * numerator + denominator - 1) by (nonlinear_arith)
                requires
                    0 <= distance * numerator,
                    0 < denominator,
            ;
        }
        let product = distance as u128 * numerator as u128;
        ((product + (denominator as u128 - 1)) / denominator as u128) as i128
    } else {
        proof {
            assert(0 <= (-distance) * numerator <= 0x4_0000_0000_0000_0000 * 0xffff_ffff)
                by (nonlinear_arith)
                requires
                    0 <= -distance <= 0x4_0000_0000_0000_0000,
                    0 <= numerator <= 0xffff_ffff,
            ;
            assert(-(distance * numerator) == (-distance) * numerator) by (nonlinear_arith);
            assert(0 <= ((-distance) * numerator) / (denominator as int) <= (-distance)
                * numerator) by (nonlinear_arith)
                requires
                    0 <= (-distance) * numerator,
                    0 < denominator,
            ;
        }
        let product = (-distance) as u128 * numerator as u128;
        -((product / denominator as u128) as i128)
    }
}

/// Rounding a quotient of natural numbers up is the same as rounding down after adding
/// one less than the divisor.
pub proof fn lemma_ceil_div_of_natural(n: int, d: int)
    requires
        0 <= n,
        0 < d,
    ensures
        ceil_div(n, d) == (n + d - 1) / d,
        0 <= ceil_div(n, d),
{
    let q = (n + d - 1) / d;
    let r = (n + d - 1) % d;
    assert(n + d - 1 == q * d + r && 0 <= r < d) by (nonlinear_arith)
        requires
            q == (n + d - 1) / d,
            r == (n + d - 1) % d,
            0 < d,
    ;
    // -n == (-q) * d + (d - 1 - r), with 0 <= d - 1 - r < d
    assert((-n) / d == -q) by (nonlinear_arith)
        requires
            n + d - 1 == q * d + r,
            0 <= r < d,
            0 < d,
    ;
    assert(0 <= q) by (nonlinear_arith)
        requires
            q == (n + d - 1) / d,
            0 <= n,
            0 < d,
    ;
}

/// A share of an amount, rounded up, is no more than the amount, and the whole share is
/// the amount itself.
pub proof fn lemma_ceil_div_of_share(amount: int, part: int, whole: int)
    requires
        0 <= amount,
        0 <= part <= whole,
        0 < whole,
    ensures
        0 <= ceil_div(amount * part, whole) <= amount,
        ceil_div(amount * whole, whole) == amount,
        ceil_div(amount * 0, whole) == 0,
{
    assert(0 <= amount * part <= amount * whole) by (nonlinear_arith)
        requires
            0 <= amount,
            0 <= part <= whole,
    ;
    lemma_ceil_div_of_natural(amount * part, whole);
    assert((amount * part + whole - 1) / whole <= amount) by (nonlinear_arith)
        requires
            amount * part <= amount * whole,
            0 < whole,
    ;
    lemma_ceil_div_of_natural(amount * whole, whole);
    assert((amount * whole + whole - 1) / whole == amount) by (nonlinear_arith)
        requires
            0 < whole,
    ;
    assert(amount * 0 == 0);
    lemma_ceil_div_of_natural(0, whole);
    assert((0 + whole - 1) / whole == 0) by (nonlinear_arith)
        requires
            0 < whole,
    ;
}

} // verus!
