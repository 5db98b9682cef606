//! Requested opacity and the alpha channel it becomes.
//!
//! An opacity is an IEEE 754 binary64 number and is handled here by its bit
//! pattern, so that every step is integer arithmetic. The alpha channel is the
//! integer nearest to 255 times the opacity, after the opacity has been
//! brought into the range from 0.3 to 1.0. A pattern that is no number is
//! taken as a request below that range.
//!
//! Every finite binary64 number is a whole multiple of 2^-1074. The contracts
//! therefore speak of a number by that multiple, its scaled value: 1.0 has
//! the scaled value 2^1074.

use vstd::prelude::*;
use vstd::arithmetic::div_mod::lemma_div_multiples_vanish_quotient;
use vstd::arithmetic::power2::{
    lemma2_to64, lemma2_to64_rest, lemma_pow2_adds, lemma_pow2_pos, lemma_pow2_strictly_increases,
    lemma_pow2_unfold, pow2,
};

verus! {

/// The sign bit of a binary64 bit pattern.
pub const SIGN_BIT: u64 = 0x8000_0000_0000_0000;

/// The place of the implicit leading bit of a significand: 2^52.
pub const HIDDEN_BIT: u64 = 0x0010_0000_0000_0000;

/// Bit pattern of positive infinity. Larger magnitudes are not numbers.
pub const INFINITY_BITS: u64 = 0x7FF0_0000_0000_0000;

/// Bit pattern of the least opacity that is applied: the binary64 number
/// nearest to 0.3.
pub const MIN_OPACITY_BITS: u64 = 0x3FD3_3333_3333_3333;

/// Bit pattern of 0.5, where the exponent of an opacity in range changes.
pub const HALF_OPACITY_BITS: u64 = 0x3FE0_0000_0000_0000;

/// Bit pattern of full opacity, 1.0.
pub const FULL_OPACITY_BITS: u64 = 0x3FF0_0000_0000_0000;

/// The alpha channel of the least opacity.
pub const MIN_ALPHA: u8 = 76;

/// The alpha channel of full opacity.
pub const FULL_ALPHA: u8 = 255;

/// Whether the sign bit is set.
pub open spec fn is_negative(bits: u64) -> bool {
    bits >= SIGN_BIT
}

/// The eleven exponent bits.
pub open spec fn exponent_field(bits: u64) -> int {
    (bits as int / 0x0010_0000_0000_0000) % 0x800
}

/// The fifty-two fraction bits.
pub open spec fn fraction_field(bits: u64) -> int {
    bits as int % 0x0010_0000_0000_0000
}

/// Whether the pattern encodes no number at all.
pub open spec fn is_nan(bits: u64) -> bool {
    exponent_field(bits) == 0x7FF && fraction_field(bits) != 0
}

/// Whether the pattern encodes positive or negative infinity.
pub open spec fn is_infinite(bits: u64) -> bool {
    exponent_field(bits) == 0x7FF && fraction_field(bits) == 0
}

/// The significand as a whole number: the fraction bits, and above them the
/// implicit leading bit unless the number is subnormal.
pub open spec fn significand(bits: u64) -> int {
    if exponent_field(bits) == 0 {
        fraction_field(bits)
    } else {
        0x0010_0000_0000_0000 + fraction_field(bits)
    }
}

/// The power of two by which the significand is multiplied in the scaled
/// value.
pub open spec fn scale_exponent(bits: u64) -> nat {
    if exponent_field(bits) == 0 {
        0
    } else {
        (exponent_field(bits) - 1) as nat
    }
}

/// The absolute value of a finite number, times 2^1074.
pub open spec fn scaled_magnitude(bits: u64) -> int {
    significand(bits) * pow2(scale_exponent(bits))
}

/// The value of a finite number, times 2^1074.
pub open spec fn scaled_value(bits: u64) -> int {
    if is_negative(bits) {
        -scaled_magnitude(bits)
    } else {
        scaled_magnitude(bits)
    }
}

/// The scaled value of 1.0.
pub open spec fn scaled_unit() -> int {
    pow2(1074) as int
}

/// The opacity that is applied, as a scaled value: the requested one where it
/// lies between the least and the full opacity, else the nearer of the two.
/// Negative infinity counts as below every number, positive infinity as
/// above, and a pattern that is no number as a request below the range.
pub open spec fn clamped_opacity(bits: u64) -> int {
    let least = scaled_value(MIN_OPACITY_BITS);
    let full = scaled_value(FULL_OPACITY_BITS);
    if is_nan(bits) {
        least
    } else if is_infinite(bits) {
        if is_negative(bits) {
            least
        } else {
            full
        }
    } else if scaled_value(bits) < least {
        least
    } else if scaled_value(bits) > full {
        full
    } else {
        scaled_value(bits)
    }
}

/// The integer nearest to `n / d`; of two that are equally near, the greater.
pub open spec fn nearest_integer(n: int, d: int) -> int
    recommends
        d > 0,
{
    (2 * n + d) / (2 * d)
}

/// The alpha channel for a requested opacity: 255 times the applied opacity,
/// rounded to the nearest integer.
pub open spec fn alpha_of(bits: u64) -> int {
    nearest_integer(255 * clamped_opacity(bits), scaled_unit())
}

/// The alpha channel read off the bit pattern: the same number as
/// `alpha_of`, in a form that is evaluated without any power of two.
pub open spec fn alpha_by_pattern(bits: u64) -> int {
    let magnitude = bits % SIGN_BIT;
    let significand = HIDDEN_BIT + magnitude % HIDDEN_BIT;
    if magnitude > INFINITY_BITS || bits >= SIGN_BIT || magnitude <= MIN_OPACITY_BITS {
        MIN_ALPHA as int
    } else if magnitude >= FULL_OPACITY_BITS {
        FULL_ALPHA as int
    } else if magnitude >= HALF_OPACITY_BITS {
        (510 * significand + 0x0020_0000_0000_0000) / 0x0040_0000_0000_0000
    } else {
        (510 * significand + 0x0040_0000_0000_0000) / 0x0080_0000_0000_0000
    }
}

/// The alpha channel to apply for a requested opacity, given as the bit
/// pattern of a binary64 number.
pub fn alpha_channel(opacity_bits: u64) -> (alpha: u8)
    ensures
        alpha == alpha_of(opacity_bits),
        alpha == alpha_by_pattern(opacity_bits),
{
    proof {
        lemma_alpha_by_pattern(opacity_bits);
    }
    let magnitude = opacity_bits % SIGN_BIT;
    if magnitude > INFINITY_BITS || opacity_bits >= SIGN_BIT || magnitude <= MIN_OPACITY_BITS {
        MIN_ALPHA
    } else if magnitude >= FULL_OPACITY_BITS {
        FULL_ALPHA
    } else {
        let doubled: u64 = 510 * (HIDDEN_BIT + magnitude % HIDDEN_BIT);
        if magnitude >= HALF_OPACITY_BITS {
            ((doubled + 0x0020_0000_0000_0000) / 0x0040_0000_0000_0000) as u8
        } else {
            ((doubled + 0x0040_0000_0000_0000) / 0x0080_0000_0000_0000) as u8
        }
    }
}

/// Whatever is requested, the applied opacity lies between the least and the
/// full one, and the alpha channel is the integer nearest to 255 times that
/// opacity, between the alpha channels of the two.
pub proof fn lemma_alpha_range(bits: u64)
    ensures
        scaled_value(MIN_OPACITY_BITS) <= clamped_opacity(bits) <= scaled_value(FULL_OPACITY_BITS),
        -scaled_unit() <= 2 * (255 * clamped_opacity(bits) - alpha_of(bits) * scaled_unit())
            < scaled_unit(),
        MIN_ALPHA <= alpha_of(bits) <= FULL_ALPHA,
{
    lemma_alpha_at_bounds();
    lemma_alpha_by_pattern(bits);
    lemma_pow2_pos(1074);
    lemma_nearest_integer_is_nearest(255 * clamped_opacity(bits), scaled_unit());
}

/// Reading the alpha channel off the bit pattern gives, for every pattern,
/// 255 times the clamped opacity rounded to the nearest integer.
pub proof fn lemma_alpha_by_pattern(bits: u64)
    ensures
        alpha_by_pattern(bits) == alpha_of(bits),
{
    lemma_alpha_at_bounds();
    if is_nan(bits) {
    } else if is_negative(bits) {
        lemma_pow2_pos(scale_exponent(bits));
        assert(scaled_magnitude(bits) >= 0) by (nonlinear_arith)
            requires
                scaled_magnitude(bits) == significand(bits) * pow2(scale_exponent(bits)),
                significand(bits) >= 0,
                pow2(scale_exponent(bits)) > 0,
        ;
    } else if bits < MIN_OPACITY_BITS {
        lemma_scaled_magnitude_increases(bits, MIN_OPACITY_BITS);
    } else if bits > FULL_OPACITY_BITS {
        lemma_scaled_magnitude_increases(FULL_OPACITY_BITS, bits);
    } else if bits < FULL_OPACITY_BITS {
        lemma_alpha_within_bounds(bits);
        lemma2_to64_rest();
    }
}

/// `nearest_integer(n, d)` differs from `n / d` by at most one half, and by
/// a full half only where it is the greater of the two.
pub proof fn lemma_nearest_integer_is_nearest(n: int, d: int)
    requires
        d > 0,
    ensures
        -d <= 2 * (n - nearest_integer(n, d) * d) < d,
{
    let q = nearest_integer(n, d);
    vstd::arithmetic::div_mod::lemma_fundamental_div_mod(2 * n + d, 2 * d);
    assert((2 * d) * q == 2 * (q * d)) by (nonlinear_arith);
}

/// Multiplying numerator and denominator by the same positive number leaves
/// the nearest integer as it is.
pub proof fn lemma_nearest_integer_scales(n: int, d: int, k: int)
    requires
        n >= 0,
        d > 0,
        k > 0,
    ensures
        nearest_integer(n * k, d * k) == nearest_integer(n, d),
{
    lemma_div_multiples_vanish_quotient(k, 2 * n + d, 2 * d);
    assert(k * (2 * n + d) == 2 * (n * k) + d * k) by (nonlinear_arith);
    assert(k * (2 * d) == 2 * (d * k)) by (nonlinear_arith);
}

/// Among patterns of non-negative numbers, the greater pattern encodes the
/// greater number.
pub proof fn lemma_scaled_magnitude_increases(a: u64, b: u64)
    requires
        a < b,
        b < SIGN_BIT,
    ensures
        scaled_magnitude(a) < scaled_magnitude(b),
{
    let hidden = 0x0010_0000_0000_0000int;
    let ea = exponent_field(a);
    let eb = exponent_field(b);
    let sa = significand(a);
    let sb = significand(b);
    let pa = pow2(scale_exponent(a)) as int;
    let pb = pow2(scale_exponent(b)) as int;
    lemma_pow2_pos(scale_exponent(a));
    lemma_pow2_pos(scale_exponent(b));
    if ea == eb {
        assert(sa * pa < sb * pa) by (nonlinear_arith)
            requires
                sa < sb,
                pa > 0,
        ;
    } else {
        assert(sa * pa < hidden * pb) by {
            if ea == 0 {
                lemma2_to64();
                assert(sa * pa == sa) by (nonlinear_arith)
                    requires
                        pa == 1,
                ;
                assert(hidden * pb >= hidden) by (nonlinear_arith)
                    requires
                        pb >= 1,
                        hidden > 0,
                ;
            } else {
                lemma_pow2_unfold(ea as nat);
                if ea < eb - 1 {
                    lemma_pow2_strictly_increases(ea as nat, (eb - 1) as nat);
                }
                assert(sa * pa < hidden * pb) by (nonlinear_arith)
                    requires
                        0 <= sa < 2 * hidden,
                        0 < 2 * pa <= pb,
                ;
            }
        }
        assert(hidden * pb <= sb * pb) by (nonlinear_arith)
            requires
                hidden <= sb,
                pb > 0,
        ;
    }
}

/// The least and the full opacity as scaled values, and their alpha channels.
pub proof fn lemma_alpha_at_bounds()
    ensures
        scaled_value(MIN_OPACITY_BITS) == 0x0013_3333_3333_3333 * pow2(1020),
        scaled_value(FULL_OPACITY_BITS) == scaled_unit(),
        0 < scaled_value(MIN_OPACITY_BITS) < scaled_value(FULL_OPACITY_BITS),
        alpha_of(MIN_OPACITY_BITS) == MIN_ALPHA,
        alpha_of(FULL_OPACITY_BITS) == FULL_ALPHA,
{
    let least = scaled_value(MIN_OPACITY_BITS);
    let full = scaled_value(FULL_OPACITY_BITS);
    let p = pow2(1020) as int;
    let q = pow2(1022) as int;
    lemma2_to64_rest();
    lemma_pow2_pos(1020);
    lemma_pow2_pos(1022);
    lemma_pow2_adds(54, 1020);
    lemma_pow2_adds(52, 1022);
    lemma_scaled_magnitude_increases(MIN_OPACITY_BITS, FULL_OPACITY_BITS);
    assert(least > 0) by (nonlinear_arith)
        requires
            least == 0x0013_3333_3333_3333 * p,
            p > 0,
    ;
    assert(255 * least == (255 * 0x0013_3333_3333_3333) * p) by (nonlinear_arith)
        requires
            least == 0x0013_3333_3333_3333 * p,
    ;
    lemma_nearest_integer_scales(255 * 0x0013_3333_3333_3333int, 0x0040_0000_0000_0000, p);
    assert(255 * full == (255 * 0x0010_0000_0000_0000) * q) by (nonlinear_arith)
        requires
            full == 0x0010_0000_0000_0000 * q,
    ;
    lemma_nearest_integer_scales(255 * 0x0010_0000_0000_0000int, 0x0010_0000_0000_0000, q);
}

/// For an opacity from the least up to, but not including, the full one,
/// the alpha channel is computed from the significand alone.
pub proof fn lemma_alpha_within_bounds(bits: u64)
    requires
        MIN_OPACITY_BITS <= bits < FULL_OPACITY_BITS,
    ensures
        alpha_of(bits) == nearest_integer(
            255 * significand(bits),
            pow2((1075 - exponent_field(bits)) as nat) as int,
        ),
        1021 <= exponent_field(bits) <= 1022,
{
    let e = exponent_field(bits);
    let s = significand(bits);
    let p = pow2((e - 1) as nat) as int;
    let d = pow2((1075 - e) as nat) as int;
    lemma_alpha_at_bounds();
    if MIN_OPACITY_BITS < bits {
        lemma_scaled_magnitude_increases(MIN_OPACITY_BITS, bits);
    }
    lemma_scaled_magnitude_increases(bits, FULL_OPACITY_BITS);
    lemma_pow2_pos((e - 1) as nat);
    lemma_pow2_pos((1075 - e) as nat);
    lemma_pow2_adds((1075 - e) as nat, (e - 1) as nat);
    assert(255 * (s * p) == (255 * s) * p) by (nonlinear_arith);
    lemma_nearest_integer_scales(255 * s, d, p);
}

} // verus!
