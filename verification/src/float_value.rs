//! The numbers behind the encodings: what a finite single-precision encoding
//! stands for, and why comparing order keys compares the numbers.
use vstd::prelude::*;
use vstd::arithmetic::power2::{
    lemma_pow2_adds, lemma_pow2_pos, lemma_pow2_strictly_increases, lemma_pow2_unfold, lemma2_to64,
    pow2,
};
use crate::float_bits::{
    float_le, float_lt, in_closed_range, is_nan, is_negative, magnitude, order_key, INFINITY_BITS,
    ONE_BITS, TWO_BITS, ZERO_BITS,
};

verus! {

/// The number of values that the fraction field takes: two to the power 23.
pub const FRACTION_SPAN: u32 = 0x0080_0000;

/// Whether an encoding stands for a finite number.
pub open spec fn is_finite(bits: u32) -> bool {
    magnitude(bits) < INFINITY_BITS
}

/// The exponent field of an encoding.
pub open spec fn exponent_field(bits: u32) -> int {
    magnitude(bits) / (FRACTION_SPAN as int)
}

/// The fraction field of an encoding.
pub open spec fn fraction_field(bits: u32) -> int {
    magnitude(bits) % (FRACTION_SPAN as int)
}

/// The absolute value of the number that a finite encoding stands for,
/// multiplied by two to the power 149, which makes it an integer. With
/// exponent field `e` and fraction field `f`, the number is `f * 2^-149`
/// where `e` is 0, and `(2^23 + f) * 2^(e - 150)` otherwise.
pub open spec fn scaled_magnitude(bits: u32) -> int {
    if exponent_field(bits) == 0 {
        fraction_field(bits)
    } else {
        (FRACTION_SPAN + fraction_field(bits)) * pow2((exponent_field(bits) - 1) as nat)
    }
}

/// The number that a finite encoding stands for, multiplied by two to the
/// power 149.
pub open spec fn scaled_value(bits: u32) -> int {
    if is_negative(bits) {
        -scaled_magnitude(bits)
    } else {
        scaled_magnitude(bits)
    }
}

/// A larger magnitude stands for a larger absolute value.
pub proof fn lemma_magnitude_orders_absolute_values(a: u32, b: u32)
    requires
        is_finite(a),
        is_finite(b),
        magnitude(a) < magnitude(b),
    ensures
        0 <= scaled_magnitude(a) < scaled_magnitude(b),
{
    let span = FRACTION_SPAN as int;
    let ea = exponent_field(a);
    let fa = fraction_field(a);
    let eb = exponent_field(b);
    let fb = fraction_field(b);
    assert(magnitude(a) == ea * span + fa && 0 <= fa < span);
    assert(magnitude(b) == eb * span + fb && 0 <= fb < span);
    assert(0 <= ea <= eb);
    if ea > 0 {
        lemma_pow2_pos((ea - 1) as nat);
        assert(0 <= (span + fa) * pow2((ea - 1) as nat)) by (nonlinear_arith)
            requires
                0 <= fa,
                span > 0,
                pow2((ea - 1) as nat) > 0,
        ;
    }
    if ea == eb {
        if ea > 0 {
            let p = pow2((ea - 1) as nat);
            assert((span + fa) * p < (span + fb) * p) by (nonlinear_arith)
                requires
                    fa < fb,
                    p > 0,
            ;
        }
    } else {
        let pb = pow2((eb - 1) as nat);
        lemma_pow2_pos((eb - 1) as nat);
        assert(span * pb <= (span + fb) * pb) by (nonlinear_arith)
            requires
                0 <= fb,
                pb > 0,
        ;
        if ea == 0 {
            assert(span <= span * pb) by (nonlinear_arith)
                requires
                    span > 0,
                    pb >= 1,
            ;
        } else {
            let pa = pow2((ea - 1) as nat);
            lemma_pow2_unfold(ea as nat);
            assert((span + fa) * pa < span * (2 * pa)) by (nonlinear_arith)
                requires
                    fa < span,
                    pa > 0,
            ;
            if ea < eb - 1 {
                lemma_pow2_strictly_increases(ea as nat, (eb - 1) as nat);
            }
            assert(span * pow2(ea as nat) <= span * pb) by (nonlinear_arith)
                requires
                    span > 0,
                    pow2(ea as nat) <= pb,
            ;
        }
    }
}

/// Only the two zeros stand for the number zero.
pub proof fn lemma_zero_magnitude(bits: u32)
    requires
        is_finite(bits),
    ensures
        scaled_magnitude(bits) >= 0,
        scaled_magnitude(bits) == 0 <==> magnitude(bits) == 0,
{
    if magnitude(bits) > 0 {
        lemma_magnitude_orders_absolute_values(ZERO_BITS, bits);
    }
}

/// The order keys of two finite encodings compare as the numbers do that the
/// encodings stand for.
pub proof fn lemma_order_key_orders_values(a: u32, b: u32)
    requires
        is_finite(a),
        is_finite(b),
    ensures
        order_key(a) < order_key(b) <==> scaled_value(a) < scaled_value(b),
        order_key(a) == order_key(b) <==> scaled_value(a) == scaled_value(b),
        float_lt(a, b) <==> scaled_value(a) < scaled_value(b),
        float_le(a, b) <==> scaled_value(a) <= scaled_value(b),
{
    lemma_zero_magnitude(a);
    lemma_zero_magnitude(b);
    if magnitude(a) < magnitude(b) {
        lemma_magnitude_orders_absolute_values(a, b);
    } else if magnitude(b) < magnitude(a) {
        lemma_magnitude_orders_absolute_values(b, a);
    }
}

/// The encodings of zero, one and two stand for those numbers.
pub proof fn lemma_named_values()
    ensures
        is_finite(ZERO_BITS) && scaled_value(ZERO_BITS) == 0,
        is_finite(ONE_BITS) && scaled_value(ONE_BITS) == pow2(149),
        is_finite(TWO_BITS) && scaled_value(TWO_BITS) == 2 * pow2(149),
{
    lemma2_to64();
    assert(exponent_field(ONE_BITS) == 127 && fraction_field(ONE_BITS) == 0);
    assert(exponent_field(TWO_BITS) == 128 && fraction_field(TWO_BITS) == 0);
    lemma_pow2_adds(23, 126);
    lemma_pow2_adds(23, 127);
    lemma_pow2_unfold(150);
}

/// An encoding lies in the closed range between two finite encodings exactly
/// when it stands for a finite number between the two numbers.
pub proof fn lemma_range_is_numeric(x: u32, low: u32, high: u32)
    requires
        is_finite(low),
        is_finite(high),
    ensures
        in_closed_range(x, low, high) <==> is_finite(x) && scaled_value(low) <= scaled_value(x)
            <= scaled_value(high),
{
    if is_finite(x) {
        lemma_order_key_orders_values(low, x);
        lemma_order_key_orders_values(x, high);
    } else if !is_nan(x) {
        assert(magnitude(x) == INFINITY_BITS);
    }
}

} // verus!
