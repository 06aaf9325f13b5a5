//! Single-precision numbers held by their IEEE-754 encodings.
//!
//! Comparing two numbers is exact, so it is decided here, on the encodings.
//! Operations that round are left to an [`Arithmetic`](crate::arithmetic::Arithmetic).

use vstd::arithmetic::div_mod::{lemma_fundamental_div_mod, lemma_fundamental_div_mod_converse};
use vstd::arithmetic::power2::{
    lemma2_to64, lemma_pow2_adds, lemma_pow2_pos, lemma_pow2_strictly_increases, lemma_pow2_unfold,
    pow2,
};
use vstd::prelude::*;
use vstd::std_specs::cmp::PartialEqSpecImpl;

verus! {

/// A single-precision number: the field is its IEEE-754 binary32 encoding,
/// one sign bit, eight exponent bits and twenty-three fraction bits.
#[derive(Clone, Copy, Debug)]
pub struct Scalar(pub u32);

/// The sign bit of an encoding.
pub const SIGN_BIT: u32 = 0x8000_0000;

/// The encoding of positive infinity: every exponent bit set, no fraction bit.
pub const INFINITY_BITS: u32 = 0x7f80_0000;

/// Two to the twenty-third: the weight of the lowest exponent bit, and of the
/// implicit leading bit of a normal number's significand.
pub const FRACTION_SPAN: u32 = 0x0080_0000;

/// The encoding of 0.0.
pub const ZERO: u32 = 0x0000_0000;

/// The encoding of the single-precision number nearest to 0.2.
pub const ONE_FIFTH: u32 = 0x3e4c_cccd;

/// The encoding of the single-precision number nearest to 0.3.
pub const THREE_TENTHS: u32 = 0x3e99_999a;

/// The encoding of 0.5.
pub const HALF: u32 = 0x3f00_0000;

/// The encoding of 0.75.
pub const THREE_QUARTERS: u32 = 0x3f40_0000;

/// The encoding of 1.0.
pub const ONE: u32 = 0x3f80_0000;

/// The encoding of 2.0.
pub const TWO: u32 = 0x4000_0000;

/// The encoding of 3.0.
pub const THREE: u32 = 0x4040_0000;

/// The encoding of 4.0.
pub const FOUR: u32 = 0x4080_0000;

/// The encoding of 5.0.
pub const FIVE: u32 = 0x40a0_0000;

/// The encoding of 60.0.
pub const SIXTY: u32 = 0x4270_0000;

/// The encoding of 100.0.
pub const HUNDRED: u32 = 0x42c8_0000;

/// The encoding of 180.0, the degrees of half a turn.
pub const HALF_TURN: u32 = 0x4334_0000;

/// The encoding of 360.0, the degrees of a full turn.
pub const FULL_TURN: u32 = 0x43b4_0000;

/// The encoding of the single-precision number nearest to pi.
pub const PI: u32 = 0x4049_0fdb;

impl Scalar {
    /// Whether the sign bit is set.
    pub open spec fn negative(self) -> bool {
        self.0 >= SIGN_BIT
    }

    /// The encoding without its sign bit.
    pub open spec fn unsigned(self) -> nat {
        if self.negative() {
            (self.0 - SIGN_BIT) as nat
        } else {
            self.0 as nat
        }
    }

    /// The biased exponent field.
    pub open spec fn exponent(self) -> nat {
        self.unsigned() / (FRACTION_SPAN as nat)
    }

    /// The fraction field.
    pub open spec fn fraction(self) -> nat {
        self.unsigned() % (FRACTION_SPAN as nat)
    }

    /// Not a number: the exponent field is all ones and the fraction is not zero.
    pub open spec fn spec_is_nan(self) -> bool {
        self.unsigned() > INFINITY_BITS
    }

    /// A real number: neither infinite nor NaN.
    pub open spec fn spec_is_real(self) -> bool {
        self.unsigned() < INFINITY_BITS
    }

    /// The absolute value of a real scalar, multiplied by two to the 149th.
    /// That multiple is a natural number for every real scalar: the smallest
    /// positive one is two to the minus 149th. For an infinity the same
    /// formula gives a number above that of every real scalar.
    pub open spec fn magnitude(self) -> nat {
        if self.exponent() == 0 {
            self.fraction()
        } else {
            ((FRACTION_SPAN + self.fraction()) * pow2((self.exponent() - 1) as nat)) as nat
        }
    }

    /// The value of a real scalar, multiplied by two to the 149th. Both zeros
    /// give 0.
    pub open spec fn scaled(self) -> int {
        if self.negative() {
            -(self.magnitude() as int)
        } else {
            self.magnitude() as int
        }
    }

    /// Numeric equality: both are numbers, and they are the same number. Zero
    /// equals negative zero, and a NaN equals nothing.
    pub open spec fn same_number(self, other: Scalar) -> bool {
        &&& !self.spec_is_nan()
        &&& !other.spec_is_nan()
        &&& self.scaled() == other.scaled()
    }

    /// Numeric order: both are numbers, and the first is the smaller.
    pub open spec fn below(self, other: Scalar) -> bool {
        &&& !self.spec_is_nan()
        &&& !other.spec_is_nan()
        &&& self.scaled() < other.scaled()
    }

    /// The scalar with the given encoding.
    pub fn from_bits(bits: u32) -> (s: Scalar)
        ensures
            s.0 == bits,
    {
        Scalar(bits)
    }

    /// The encoding.
    pub fn to_bits(self) -> (bits: u32)
        ensures
            bits == self.0,
    {
        self.0
    }

    fn low_bits(self) -> (low: u32)
        ensures
            low == self.unsigned(),
            low < SIGN_BIT,
    {
        if self.0 >= SIGN_BIT {
            self.0 - SIGN_BIT
        } else {
            self.0
        }
    }

    /// Whether the scalar is a NaN.
    #[verifier::when_used_as_spec(spec_is_nan)]
    pub fn is_nan(self) -> (r: bool)
        ensures
            r == self.spec_is_nan(),
    {
        self.low_bits() > INFINITY_BITS
    }

    /// Whether the scalar is a real number.
    #[verifier::when_used_as_spec(spec_is_real)]
    pub fn is_real(self) -> (r: bool)
        ensures
            r == self.spec_is_real(),
    {
        self.low_bits() < INFINITY_BITS
    }

    /// Numeric equality, decided on the encodings.
    pub fn equals(self, other: Scalar) -> (r: bool)
        ensures
            r == self.same_number(other),
    {
        let a: u32 = self.low_bits();
        let b: u32 = other.low_bits();
        proof {
            lemma_scaled_injective(self, other);
        }
        a <= INFINITY_BITS && b <= INFINITY_BITS && (self.0 == other.0 || (a == 0 && b == 0))
    }

    /// Numeric order, decided on the encodings.
    pub fn less_than(self, other: Scalar) -> (r: bool)
        ensures
            r == self.below(other),
    {
        let a: u32 = self.low_bits();
        let b: u32 = other.low_bits();
        proof {
            lemma_order_of_encodings(self, other);
        }
        if a > INFINITY_BITS || b > INFINITY_BITS {
            false
        } else if self.0 >= SIGN_BIT {
            if other.0 >= SIGN_BIT {
                b < a
            } else {
                a != 0 || b != 0
            }
        } else {
            other.0 < SIGN_BIT && a < b
        }
    }
}

impl PartialEq for Scalar {
    /// Numeric equality, not equality of encodings.
    fn eq(&self, other: &Scalar) -> (r: bool) {
        self.equals(*other)
    }
}

impl PartialEqSpecImpl for Scalar {
    open spec fn obeys_eq_spec() -> bool {
        true
    }

    open spec fn eq_spec(&self, other: &Scalar) -> bool {
        self.same_number(*other)
    }
}

/// Between two encodings without sign, the smaller stands for the smaller
/// magnitude.
pub proof fn lemma_magnitude_increases(a: Scalar, b: Scalar)
    requires
        a.unsigned() < b.unsigned(),
    ensures
        a.magnitude() < b.magnitude(),
{
    let span = FRACTION_SPAN as nat;
    let (ea, fa) = (a.exponent(), a.fraction());
    let (eb, fb) = (b.exponent(), b.fraction());
    lemma_fundamental_div_mod(a.unsigned() as int, span as int);
    lemma_fundamental_div_mod(b.unsigned() as int, span as int);
    assert(ea <= eb) by (nonlinear_arith)
        requires
            a.unsigned() == span * ea + fa,
            b.unsigned() == span * eb + fb,
            a.unsigned() < b.unsigned(),
            fa < span,
            fb < span,
    ;
    if ea == eb {
        if ea > 0 {
            let p = pow2((ea - 1) as nat);
            lemma_pow2_pos((ea - 1) as nat);
            assert((span + fa) * p < (span + fb) * p) by (nonlinear_arith)
                requires
                    fa < fb,
                    p > 0,
            ;
        }
    } else {
        let p = pow2((eb - 1) as nat);
        lemma_pow2_pos((eb - 1) as nat);
        assert(span * p <= (span + fb) * p) by (nonlinear_arith)
            requires
                p > 0,
        ;
        if ea == 0 {
            assert(span * 1 <= span * p) by (nonlinear_arith)
                requires
                    p >= 1,
            ;
        } else {
            let q = pow2((ea - 1) as nat);
            lemma_pow2_pos((ea - 1) as nat);
            lemma_pow2_unfold(ea);
            assert(pow2(ea) == 2 * q);
            if ea < eb - 1 {
                lemma_pow2_strictly_increases(ea, (eb - 1) as nat);
            }
            assert(pow2(ea) <= p);
            assert((span + fa) * q < span * p) by (nonlinear_arith)
                requires
                    fa < span,
                    q > 0,
                    2 * q <= p,
            ;
        }
    }
}

/// Only the two zeros have magnitude zero.
pub proof fn lemma_magnitude_zero(a: Scalar)
    ensures
        a.magnitude() == 0 <==> a.unsigned() == 0,
{
    if a.unsigned() > 0 {
        lemma_magnitude_increases(Scalar(0), a);
    }
}

/// Two scalars have the same scaled value exactly when their encodings are
/// equal or both are zeros.
pub proof fn lemma_scaled_injective(a: Scalar, b: Scalar)
    ensures
        a.scaled() == b.scaled() <==> (a == b || (a.unsigned() == 0 && b.unsigned() == 0)),
{
    lemma_magnitude_zero(a);
    lemma_magnitude_zero(b);
    if a.unsigned() < b.unsigned() {
        lemma_magnitude_increases(a, b);
    }
    if b.unsigned() < a.unsigned() {
        lemma_magnitude_increases(b, a);
    }
}

/// How the encodings of two scalars say which scaled value is the smaller:
/// of two that are not negative, the one with the smaller encoding; of two
/// negative ones, the one with the larger; and a negative one before one
/// that is not, unless both are zeros.
pub open spec fn encoded_below(a: Scalar, b: Scalar) -> bool {
    if a.negative() {
        if b.negative() {
            b.unsigned() < a.unsigned()
        } else {
            a.unsigned() != 0 || b.unsigned() != 0
        }
    } else {
        !b.negative() && a.unsigned() < b.unsigned()
    }
}

/// The scaled values of two scalars are ordered as their encodings say.
pub proof fn lemma_order_of_encodings(a: Scalar, b: Scalar)
    ensures
        a.scaled() < b.scaled() <==> encoded_below(a, b),
{
    lemma_magnitude_zero(a);
    lemma_magnitude_zero(b);
    if a.unsigned() < b.unsigned() {
        lemma_magnitude_increases(a, b);
    }
    if b.unsigned() < a.unsigned() {
        lemma_magnitude_increases(b, a);
    }
}

/// A positive normal scalar whose significand is `whole` times two to the
/// `shift` has the scaled value `whole` times two to the `shift` and to the
/// exponent less one.
pub proof fn lemma_scaled_of_normal(s: Scalar, exponent: nat, fraction: nat, whole: nat, shift: nat)
    requires
        s.0 == exponent * FRACTION_SPAN + fraction,
        1 <= exponent < 256,
        fraction < FRACTION_SPAN,
        FRACTION_SPAN + fraction == whole * pow2(shift),
    ensures
        s.scaled() == whole * pow2((shift + exponent - 1) as nat),
{
    assert(s.0 < SIGN_BIT) by (nonlinear_arith)
        requires
            s.0 == exponent * FRACTION_SPAN + fraction,
            exponent < 256,
            fraction < FRACTION_SPAN,
            FRACTION_SPAN == 0x0080_0000,
            SIGN_BIT == 0x8000_0000,
    ;
    lemma_fundamental_div_mod_converse(
        s.0 as int,
        FRACTION_SPAN as int,
        exponent as int,
        fraction as int,
    );
    lemma_pow2_adds(shift, (exponent - 1) as nat);
    assert(whole * pow2(shift) * pow2((exponent - 1) as nat) == whole * (pow2(shift) * pow2(
        (exponent - 1) as nat,
    ))) by (nonlinear_arith);
}

/// The constants that stand for a number exactly have that number as their
/// value: the value is the scaled value divided by two to the 149th.
pub proof fn lemma_exact_constants()
    ensures
        Scalar(ZERO).scaled() == 0,
        Scalar(HALF).scaled() * 2 == pow2(149),
        Scalar(THREE_QUARTERS).scaled() * 4 == 3 * pow2(149),
        Scalar(ONE).scaled() == pow2(149),
        Scalar(TWO).scaled() == 2 * pow2(149),
        Scalar(THREE).scaled() == 3 * pow2(149),
        Scalar(FOUR).scaled() == 4 * pow2(149),
        Scalar(FIVE).scaled() == 5 * pow2(149),
        Scalar(SIXTY).scaled() == 60 * pow2(149),
        Scalar(HUNDRED).scaled() == 100 * pow2(149),
        Scalar(HALF_TURN).scaled() == 180 * pow2(149),
        Scalar(FULL_TURN).scaled() == 360 * pow2(149),
{
    lemma2_to64();
    lemma_pow2_unfold(148);
    lemma_pow2_unfold(149);
    lemma_pow2_unfold(150);
    lemma_pow2_unfold(151);
    assert(Scalar(ZERO).magnitude() == 0);
    lemma_scaled_of_normal(Scalar(HALF), 126, 0, 1, 23);
    lemma_scaled_of_normal(Scalar(THREE_QUARTERS), 126, 0x40_0000, 3, 22);
    lemma_scaled_of_normal(Scalar(ONE), 127, 0, 1, 23);
    lemma_scaled_of_normal(Scalar(TWO), 128, 0, 1, 23);
    lemma_scaled_of_normal(Scalar(THREE), 128, 0x40_0000, 3, 22);
    lemma_scaled_of_normal(Scalar(FOUR), 129, 0, 1, 23);
    lemma_scaled_of_normal(Scalar(FIVE), 129, 0x20_0000, 5, 21);
    lemma_scaled_of_normal(Scalar(SIXTY), 132, 0x70_0000, 15, 20);
    lemma_scaled_of_normal(Scalar(HUNDRED), 133, 0x48_0000, 25, 19);
    lemma_scaled_of_normal(Scalar(HALF_TURN), 134, 0x34_0000, 45, 18);
    lemma_scaled_of_normal(Scalar(FULL_TURN), 135, 0x34_0000, 45, 18);
    lemma_pow2_adds(2, 147);
    lemma_pow2_adds(2, 149);
    lemma_pow2_adds(3, 149);
}

} // verus!
