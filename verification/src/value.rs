//! The numbers behind the encodings.
//!
//! A finite binary64 number is a whole multiple of `2^-1074`, the smallest positive one.
//! This module reads that multiple off an encoding, the number's *scaled value*, and
//! proves that `rank`, by which the rest of the crate compares, orders finite numbers as
//! their values do. It also proves which numbers the constants of `binary64` encode.
use crate::binary64::Binary64;
use vstd::arithmetic::power2::{
    lemma2_to64, lemma2_to64_rest, lemma_pow2_adds, lemma_pow2_pos,
    lemma_pow2_strictly_increases, lemma_pow2_unfold, pow2,
};
use vstd::prelude::*;

verus! {

/// `2^52`: the weight of the leading bit of a normal number's significand, which the
/// encoding leaves out.
pub open spec fn hidden_bit() -> int {
    0x10_0000_0000_0000
}

/// The scaled value of `1.0`: `2^1074`.
pub open spec fn scaled_one() -> int {
    pow2(1074) as int
}

impl Binary64 {
    /// Bits 52 to 62 of the encoding: the biased exponent.
    pub open spec fn exponent_field(self) -> int {
        self.magnitude() as int / hidden_bit()
    }

    /// Bits 0 to 51 of the encoding: the fraction.
    pub open spec fn fraction_field(self) -> int {
        self.magnitude() as int % hidden_bit()
    }

    /// The absolute value of a finite number, times `2^1074`. With exponent field 0 the
    /// number is subnormal and its value is the fraction, in units of `2^-1074`; with
    /// exponent field `e >= 1` the significand gains its hidden bit and the unit is
    /// `2^(e - 1)` times larger.
    pub open spec fn scaled_magnitude(self) -> int {
        if self.exponent_field() == 0 {
            self.fraction_field()
        } else {
            (hidden_bit() + self.fraction_field()) * pow2((self.exponent_field() - 1) as nat)
        }
    }

    /// The value of a finite number, times `2^1074`.
    pub open spec fn scaled_value(self) -> int {
        if self.is_sign_negative() {
            -self.scaled_magnitude()
        } else {
            self.scaled_magnitude()
        }
    }
}

/// Whether `result` is the product of `a` and `b` with nothing rounded away: the three are
/// finite and their values multiply exactly.
pub open spec fn exact_product(a: Binary64, b: Binary64, result: Binary64) -> bool {
    &&& a.is_finite()
    &&& b.is_finite()
    &&& result.is_finite()
    &&& result.scaled_value() * scaled_one() == a.scaled_value() * b.scaled_value()
}

/// Whether `result` is the sum of `a` and `b` with nothing rounded away.
pub open spec fn exact_sum(a: Binary64, b: Binary64, result: Binary64) -> bool {
    &&& a.is_finite()
    &&& b.is_finite()
    &&& result.is_finite()
    &&& result.scaled_value() == a.scaled_value() + b.scaled_value()
}

/// Whether `result` is the difference of `a` and `b` with nothing rounded away.
pub open spec fn exact_difference(a: Binary64, b: Binary64, result: Binary64) -> bool {
    &&& a.is_finite()
    &&& b.is_finite()
    &&& result.is_finite()
    &&& result.scaled_value() == a.scaled_value() - b.scaled_value()
}

/// An integer held to the interval from `low` to `high`.
pub open spec fn clamped_int(x: int, low: int, high: int) -> int {
    if x < low {
        low
    } else if x > high {
        high
    } else {
        x
    }
}

/// The scaled magnitude of a number with exponent field `e` lies below `2^52 * 2^e`, and
/// from `e = 1` on it is at least `2^52 * 2^(e - 1)`.
proof fn lemma_scaled_magnitude_bounds(x: Binary64)
    ensures
        0 <= x.scaled_magnitude() < hidden_bit() * pow2(x.exponent_field() as nat),
        x.exponent_field() >= 1 ==> hidden_bit() * pow2((x.exponent_field() - 1) as nat)
            <= x.scaled_magnitude(),
{
    let e = x.exponent_field();
    let f = x.fraction_field();
    let h = hidden_bit();
    if e == 0 {
        lemma2_to64();
    } else {
        let p = pow2((e - 1) as nat) as int;
        lemma_pow2_pos((e - 1) as nat);
        lemma_pow2_unfold(e as nat);
        assert((h + f) * p < h * (2 * p)) by (nonlinear_arith)
            requires
                0 <= f < h,
                p > 0,
        ;
        assert(h * p <= (h + f) * p) by (nonlinear_arith)
            requires
                0 <= f,
                p > 0,
        ;
    }
}

/// Between two numbers, the one with the smaller exponent field has the smaller scaled
/// magnitude.
proof fn lemma_smaller_exponent(a: Binary64, b: Binary64)
    requires
        a.exponent_field() < b.exponent_field(),
    ensures
        a.scaled_magnitude() < b.scaled_magnitude(),
{
    let ea = a.exponent_field() as nat;
    let eb = b.exponent_field() as nat;
    let h = hidden_bit();
    lemma_scaled_magnitude_bounds(a);
    lemma_scaled_magnitude_bounds(b);
    if ea < eb - 1 {
        lemma_pow2_strictly_increases(ea, (eb - 1) as nat);
    }
    let pa = pow2(ea) as int;
    let pb = pow2((eb - 1) as nat) as int;
    assert(h * pa <= h * pb) by (nonlinear_arith)
        requires
            pa <= pb,
            h > 0,
    ;
}

/// Among finite numbers, a larger encoding without sign is a larger absolute value, and
/// the same absolute value has one encoding only.
pub proof fn lemma_magnitude_orders_values(a: Binary64, b: Binary64)
    requires
        a.is_finite(),
        b.is_finite(),
    ensures
        a.magnitude() < b.magnitude() <==> a.scaled_magnitude() < b.scaled_magnitude(),
        a.magnitude() == b.magnitude() <==> a.scaled_magnitude() == b.scaled_magnitude(),
{
    let h = hidden_bit();
    let ea = a.exponent_field();
    let eb = b.exponent_field();
    let fa = a.fraction_field();
    let fb = b.fraction_field();
    assert(a.magnitude() == ea * h + fa && 0 <= fa < h);
    assert(b.magnitude() == eb * h + fb && 0 <= fb < h);
    if ea < eb {
        lemma_smaller_exponent(a, b);
        assert(a.magnitude() < b.magnitude()) by (nonlinear_arith)
            requires
                a.magnitude() == ea * h + fa,
                b.magnitude() == eb * h + fb,
                0 <= fa < h,
                0 <= fb < h,
                ea < eb,
        ;
    } else if eb < ea {
        lemma_smaller_exponent(b, a);
        assert(b.magnitude() < a.magnitude()) by (nonlinear_arith)
            requires
                a.magnitude() == ea * h + fa,
                b.magnitude() == eb * h + fb,
                0 <= fa < h,
                0 <= fb < h,
                eb < ea,
        ;
    } else if ea >= 1 {
        let p = pow2((ea - 1) as nat) as int;
        lemma_pow2_pos((ea - 1) as nat);
        assert(fa < fb <==> (h + fa) * p < (h + fb) * p) by (nonlinear_arith)
            requires
                p > 0,
        ;
        assert(fa == fb <==> (h + fa) * p == (h + fb) * p) by (nonlinear_arith)
            requires
                p > 0,
        ;
    }
}

/// `rank` orders the finite numbers as their values do: one finite number has the lower
/// rank exactly when it has the lower value, and the same rank exactly when it has the
/// same value.
pub proof fn lemma_rank_orders_values(a: Binary64, b: Binary64)
    requires
        a.is_finite(),
        b.is_finite(),
    ensures
        a.rank() < b.rank() <==> a.scaled_value() < b.scaled_value(),
        a.rank() == b.rank() <==> a.scaled_value() == b.scaled_value(),
        a.lt(b) <==> a.scaled_value() < b.scaled_value(),
{
    let zero = Binary64::zero();
    assert(zero.scaled_magnitude() == 0);
    lemma_magnitude_orders_values(a, b);
    lemma_magnitude_orders_values(a, zero);
    lemma_magnitude_orders_values(b, zero);
    lemma_scaled_magnitude_bounds(a);
    lemma_scaled_magnitude_bounds(b);
}

/// To clamp a finite number between finite bounds is to clamp its value between theirs.
pub proof fn lemma_clamped_value(x: Binary64, low: Binary64, high: Binary64)
    requires
        x.is_finite(),
        low.is_finite(),
        high.is_finite(),
        low.rank() <= high.rank(),
    ensures
        x.clamped(low, high).is_finite(),
        x.clamped(low, high).scaled_value() == clamped_int(
            x.scaled_value(),
            low.scaled_value(),
            high.scaled_value(),
        ),
{
    lemma_rank_orders_values(x, low);
    lemma_rank_orders_values(high, x);
    lemma_rank_orders_values(low, high);
}

/// An infinity lies beyond every finite number: minus infinity has a lower rank than each
/// of them, plus infinity a higher one.
pub proof fn lemma_infinities_enclose(x: Binary64)
    requires
        x.is_finite(),
    ensures
        Binary64::from_bits(0xfff0_0000_0000_0000).lt(x),
        x.lt(Binary64::from_bits(0x7ff0_0000_0000_0000)),
{
}

/// The constants encode the numbers they are named after: `+0.0` is 0, `1.0` is 1 and
/// `1000.0` is 1000, each in units of `2^-1074`.
pub proof fn lemma_constant_values()
    ensures
        Binary64::zero().is_finite() && Binary64::zero().scaled_value() == 0,
        Binary64::one().is_finite() && Binary64::one().scaled_value() == scaled_one(),
        Binary64::thousand().is_finite() && Binary64::thousand().scaled_value() == 1000
            * scaled_one(),
{
    lemma2_to64();
    lemma2_to64_rest();
    let one = Binary64::one();
    assert(one.exponent_field() == 1023 && one.fraction_field() == 0);
    lemma_pow2_adds(52, 1022);
    let thousand = Binary64::thousand();
    assert(thousand.exponent_field() == 1032 && thousand.fraction_field()
        == 0xf_4000_0000_0000);
    // The significand is 1000 * 2^43.
    assert(hidden_bit() + thousand.fraction_field() == 1000 * pow2(43));
    lemma_pow2_adds(43, 1031);
    assert(1000 * pow2(43) * pow2(1031) == 1000 * (pow2(43) * pow2(1031)))
        by (nonlinear_arith);
}

} // verus!
