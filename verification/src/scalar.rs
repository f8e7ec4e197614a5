//! Double-precision quantities, carried as their IEEE 754 binary64 bit patterns.
//!
//! A [`Scalar`] is the 64-bit pattern of a binary64 value, and its view is the
//! [`Number`] that the pattern denotes. The crate never rounds. It classifies
//! and compares, and it computes what is exact: opposites, absolute values,
//! doubles and remainders. Each operation works on the patterns and is proved
//! against the numbers that they denote.

use vstd::prelude::*;
use vstd::arithmetic::div_mod::{
    lemma_fundamental_div_mod_converse,
    lemma_mod_bound,
    lemma_mul_mod_noop_right,
    lemma_small_mod,
    lemma_truncate_middle,
};
use vstd::arithmetic::power2::{
    lemma2_to64,
    lemma_pow2_adds,
    lemma_pow2_pos,
    lemma_pow2_strictly_increases,
    lemma_pow2_unfold,
    pow2,
};

verus! {

/// The sign bit of a pattern.
pub const SIGN_BIT: u64 = 0x8000_0000_0000_0000;

/// The pattern of positive infinity; every larger magnitude is a NaN.
pub const INFINITY_BITS: u64 = 0x7FF0_0000_0000_0000;

/// The pattern of negative infinity.
pub const NEG_INFINITY_BITS: u64 = 0xFFF0_0000_0000_0000;

/// Two to the 52nd: the weight of the implicit leading bit of a significand.
pub const HIDDEN_BIT: u64 = 0x0010_0000_0000_0000;

/// The pattern of the NaN that this crate makes: the exponent field full and
/// the top bit of the fraction set.
pub const NAN_BITS: u64 = 0x7FF8_0000_0000_0000;

/// The pattern of zero.
pub const ZERO_BITS: u64 = 0;

/// The pattern of one.
pub const ONE_BITS: u64 = 0x3FF0_0000_0000_0000;

/// The pattern of minus one.
pub const MINUS_ONE_BITS: u64 = 0xBFF0_0000_0000_0000;

/// The pattern of the binary64 value nearest to pi.
pub const PI_BITS: u64 = 0x4009_21FB_5444_2D18;

/// The pattern of twice that value.
pub const TWO_PI_BITS: u64 = 0x4019_21FB_5444_2D18;

/// The pattern of the binary64 value nearest to one hundred-thousandth.
pub const HUNDRED_THOUSANDTH_BITS: u64 = 0x3EE4_F8B5_88E3_68F1;

/// The pattern of the binary64 value nearest to ten to the minus ten.
pub const TEN_BILLIONTH_BITS: u64 = 0x3DDB_7CDF_D9D7_BDBB;

/// The pattern of the binary64 value nearest to one tenth.
pub const TENTH_BITS: u64 = 0x3FB9_9999_9999_999A;

/// What a pattern denotes. A finite value is given in units of two to the
/// minus 1074, the spacing of the smallest subnormals, so that it is an integer.
pub enum Number {
    NaN,
    NegInfinity,
    Finite(int),
    PosInfinity,
}

/// Strictly less, as IEEE 754 orders numbers: false whenever a NaN is involved.
pub open spec fn number_lt(a: Number, b: Number) -> bool {
    match (a, b) {
        (Number::NaN, _) => false,
        (_, Number::NaN) => false,
        (Number::Finite(x), Number::Finite(y)) => x < y,
        (Number::NegInfinity, _) => !(b is NegInfinity),
        (_, Number::PosInfinity) => !(a is PosInfinity),
        (_, _) => false,
    }
}

/// Numerically equal: false whenever a NaN is involved, true of the two zeros.
pub open spec fn number_eq(a: Number, b: Number) -> bool {
    !(a is NaN) && a == b
}

/// Less or equal, as IEEE 754 orders numbers.
pub open spec fn number_le(a: Number, b: Number) -> bool {
    number_lt(a, b) || number_eq(a, b)
}

/// The opposite of a number.
pub open spec fn number_neg(a: Number) -> Number {
    match a {
        Number::NaN => Number::NaN,
        Number::NegInfinity => Number::PosInfinity,
        Number::PosInfinity => Number::NegInfinity,
        Number::Finite(x) => Number::Finite(-x),
    }
}

/// The absolute value of a number.
pub open spec fn number_abs(a: Number) -> Number {
    match a {
        Number::NaN => Number::NaN,
        Number::NegInfinity => Number::PosInfinity,
        Number::PosInfinity => Number::PosInfinity,
        Number::Finite(x) => Number::Finite(if x < 0 { -x } else { x }),
    }
}

/// The value of two to the 1023rd in units: doubling a finite number of at
/// least this size leaves the finite range.
pub open spec fn overflow_units() -> int {
    pow2(2097) as int
}

/// Twice a number, with overflow to the infinity of the same sign.
pub open spec fn number_doubled(a: Number) -> Number {
    match a {
        Number::Finite(x) => if x >= overflow_units() {
            Number::PosInfinity
        } else if x <= -overflow_units() {
            Number::NegInfinity
        } else {
            Number::Finite(2 * x)
        },
        _ => a,
    }
}

/// The remainder of a division, with the sign of the dividend: what is left
/// of `a` when as many whole `b` as fit are taken out of it. A finite number
/// is its own remainder by an infinity; there is no remainder of an infinity
/// or by zero.
pub open spec fn number_rem(a: Number, b: Number) -> Number {
    match (a, b) {
        (Number::Finite(x), Number::Finite(y)) => {
            let size = if y < 0 {
                -y
            } else {
                y
            };
            if y == 0 {
                Number::NaN
            } else if x < 0 {
                Number::Finite(-((-x) % size))
            } else {
                Number::Finite(x % size)
            }
        },
        (Number::Finite(_), Number::PosInfinity) => a,
        (Number::Finite(_), Number::NegInfinity) => a,
        (_, _) => Number::NaN,
    }
}

/// The remainder of a number by a number that is not zero is smaller in size
/// than the divisor, and lies on the side of zero on which the dividend lies.
/// A number that is smaller in size than the divisor is its own remainder.
pub proof fn lemma_remainder_is_within_the_divisor(a: Number, b: Number)
    requires
        a is Finite,
        b is Finite,
        b != Number::Finite(0),
    ensures
        number_rem(a, b) is Finite,
        number_lt(number_abs(number_rem(a, b)), number_abs(b)),
        !number_lt(a, Number::Finite(0)) ==> !number_lt(number_rem(a, b), Number::Finite(0)),
        !number_lt(Number::Finite(0), a) ==> !number_lt(Number::Finite(0), number_rem(a, b)),
        number_lt(number_abs(a), number_abs(b)) ==> number_rem(a, b) == a,
{
    let x = a->0;
    let y = b->0;
    let size = if y < 0 {
        -y
    } else {
        y
    };
    let whole = if x < 0 {
        -x
    } else {
        x
    };
    lemma_mod_bound(whole, size);
    if whole < size {
        lemma_small_mod(whole as nat, size as nat);
    }
}

/// The significand of a finite magnitude: its fraction, with the implicit
/// leading bit where the exponent field is not zero.
pub open spec fn significand_of(magnitude: int) -> int {
    if magnitude < HIDDEN_BIT {
        magnitude
    } else {
        HIDDEN_BIT + magnitude % (HIDDEN_BIT as int)
    }
}

/// The scale of a finite magnitude: the power of two by which its
/// significand is multiplied to give its units.
pub open spec fn scale_of(magnitude: int) -> nat {
    if magnitude < HIDDEN_BIT {
        0
    } else {
        (magnitude / (HIDDEN_BIT as int) - 1) as nat
    }
}

/// The units of a finite magnitude are its significand times two to its
/// scale.
pub proof fn lemma_units_are_scaled(m: int)
    requires
        0 <= m < INFINITY_BITS,
    ensures
        units_of(m) == significand_of(m) * pow2(scale_of(m)),
        0 <= significand_of(m) < 2 * HIDDEN_BIT,
        scale_of(m) <= 2045,
        m >= HIDDEN_BIT ==> significand_of(m) >= HIDDEN_BIT,
        m > 0 ==> significand_of(m) > 0,
{
    lemma2_to64();
    if m < HIDDEN_BIT {
        assert(m / (HIDDEN_BIT as int) == 0);
        assert(m % (HIDDEN_BIT as int) == m);
        assert(m * 1 == m);
    }
}

/// The units denoted by a finite magnitude, that is by a pattern without its
/// sign bit: the significand scaled by the power of two that the exponent
/// field selects.
pub open spec fn units_of(magnitude: int) -> int {
    let exponent = magnitude / (HIDDEN_BIT as int);
    let fraction = magnitude % (HIDDEN_BIT as int);
    if exponent == 0 {
        fraction
    } else {
        (HIDDEN_BIT + fraction) * pow2((exponent - 1) as nat)
    }
}

/// A larger finite magnitude denotes a larger value, and only the zero
/// magnitude denotes zero.
pub proof fn lemma_units_increase(m1: int, m2: int)
    requires
        0 <= m1 < m2 < INFINITY_BITS,
    ensures
        0 <= units_of(m1) < units_of(m2),
{
    let h = HIDDEN_BIT as int;
    let e1 = m1 / h;
    let f1 = m1 % h;
    let e2 = m2 / h;
    let f2 = m2 % h;
    assert(e1 <= e2);
    assert(e1 == e2 ==> f1 < f2);
    if e1 == 0 {
        if e2 > 0 {
            let weight2 = pow2((e2 - 1) as nat) as int;
            lemma_pow2_pos((e2 - 1) as nat);
            assert((h + f2) * weight2 >= h) by (nonlinear_arith)
                requires
                    weight2 >= 1,
                    f2 >= 0,
                    h > 0,
            ;
        }
    } else {
        let weight1 = pow2((e1 - 1) as nat) as int;
        let weight2 = pow2((e2 - 1) as nat) as int;
        lemma_pow2_pos((e1 - 1) as nat);
        assert(0 <= (h + f1) * weight1) by (nonlinear_arith)
            requires
                weight1 >= 1,
                f1 >= 0,
                h > 0,
        ;
        if e1 == e2 {
            assert((h + f1) * weight1 < (h + f2) * weight1) by (nonlinear_arith)
                requires
                    weight1 >= 1,
                    f1 < f2,
            ;
        } else {
            lemma_pow2_unfold(e1 as nat);
            if e1 < e2 - 1 {
                lemma_pow2_strictly_increases(e1 as nat, (e2 - 1) as nat);
            }
            assert(2 * weight1 <= weight2);
            assert((h + f1) * weight1 < (h + f2) * weight2) by (nonlinear_arith)
                requires
                    weight1 >= 1,
                    2 * weight1 <= weight2,
                    0 <= f1 < h,
                    0 <= f2,
            ;
        }
    }
}

/// The largest finite magnitudes, those whose exponent field is 2046, are the
/// ones that denote at least two to the 1023rd.
pub proof fn lemma_units_overflow(m: int)
    requires
        0 <= m < INFINITY_BITS,
    ensures
        units_of(m) >= overflow_units() <==> m >= 2046 * HIDDEN_BIT,
{
    let top = 2046 * (HIDDEN_BIT as int);
    assert(top / (HIDDEN_BIT as int) == 2046);
    assert(top % (HIDDEN_BIT as int) == 0);
    lemma2_to64();
    lemma_pow2_adds(52, 2045);
    assert(pow2(52) == HIDDEN_BIT) by {
        lemma_pow2_adds(32, 20);
    }
    assert(units_of(top) == overflow_units());
    if m < top {
        lemma_units_increase(m, top);
    } else if m > top {
        lemma_units_increase(top, m);
    }
}

/// A binary64 value, held as its bit pattern.
#[derive(Clone, Copy)]
pub struct Scalar {
    pub bits: u64,
}

impl View for Scalar {
    type V = Number;

    /// The number that the pattern denotes.
    open spec fn view(&self) -> Number {
        let m = self.magnitude();
        if m > INFINITY_BITS {
            Number::NaN
        } else if m == INFINITY_BITS {
            if self.sign() {
                Number::NegInfinity
            } else {
                Number::PosInfinity
            }
        } else if self.sign() {
            Number::Finite(-units_of(m))
        } else {
            Number::Finite(units_of(m))
        }
    }
}

impl Scalar {
    /// Whether the sign bit is set.
    pub open spec fn sign(self) -> bool {
        self.bits >= SIGN_BIT
    }

    /// The pattern without its sign bit.
    pub open spec fn magnitude(self) -> int {
        if self.bits >= SIGN_BIT {
            self.bits - SIGN_BIT
        } else {
            self.bits as int
        }
    }

    /// Zero.
    pub open spec fn spec_zero() -> Scalar {
        Scalar { bits: ZERO_BITS }
    }

    /// Zero.
    #[verifier::when_used_as_spec(spec_zero)]
    pub fn zero() -> (r: Scalar)
        ensures
            r == Scalar::spec_zero(),
    {
        Scalar { bits: ZERO_BITS }
    }

    /// One.
    pub open spec fn spec_one() -> Scalar {
        Scalar { bits: ONE_BITS }
    }

    /// One.
    #[verifier::when_used_as_spec(spec_one)]
    pub fn one() -> (r: Scalar)
        ensures
            r == Scalar::spec_one(),
    {
        Scalar { bits: ONE_BITS }
    }

    /// Minus one.
    pub open spec fn spec_minus_one() -> Scalar {
        Scalar { bits: MINUS_ONE_BITS }
    }

    /// Minus one.
    #[verifier::when_used_as_spec(spec_minus_one)]
    pub fn minus_one() -> (r: Scalar)
        ensures
            r == Scalar::spec_minus_one(),
    {
        Scalar { bits: MINUS_ONE_BITS }
    }

    /// The binary64 value nearest to pi.
    pub open spec fn spec_pi() -> Scalar {
        Scalar { bits: PI_BITS }
    }

    /// The binary64 value nearest to pi.
    #[verifier::when_used_as_spec(spec_pi)]
    pub fn pi() -> (r: Scalar)
        ensures
            r == Scalar::spec_pi(),
    {
        Scalar { bits: PI_BITS }
    }

    /// Twice the binary64 value nearest to pi.
    pub open spec fn spec_two_pi() -> Scalar {
        Scalar { bits: TWO_PI_BITS }
    }

    /// Twice the binary64 value nearest to pi.
    #[verifier::when_used_as_spec(spec_two_pi)]
    pub fn two_pi() -> (r: Scalar)
        ensures
            r == Scalar::spec_two_pi(),
    {
        Scalar { bits: TWO_PI_BITS }
    }

    /// Positive infinity.
    pub open spec fn spec_infinity() -> Scalar {
        Scalar { bits: INFINITY_BITS }
    }

    /// Positive infinity.
    #[verifier::when_used_as_spec(spec_infinity)]
    pub fn infinity() -> (r: Scalar)
        ensures
            r == Scalar::spec_infinity(),
    {
        Scalar { bits: INFINITY_BITS }
    }

    /// Negative infinity.
    pub open spec fn spec_neg_infinity() -> Scalar {
        Scalar { bits: NEG_INFINITY_BITS }
    }

    /// Negative infinity.
    #[verifier::when_used_as_spec(spec_neg_infinity)]
    pub fn neg_infinity() -> (r: Scalar)
        ensures
            r == Scalar::spec_neg_infinity(),
    {
        Scalar { bits: NEG_INFINITY_BITS }
    }

    /// The binary64 value nearest to one hundred-thousandth.
    pub open spec fn spec_hundred_thousandth() -> Scalar {
        Scalar { bits: HUNDRED_THOUSANDTH_BITS }
    }

    /// The binary64 value nearest to one hundred-thousandth.
    #[verifier::when_used_as_spec(spec_hundred_thousandth)]
    pub fn hundred_thousandth() -> (r: Scalar)
        ensures
            r == Scalar::spec_hundred_thousandth(),
    {
        Scalar { bits: HUNDRED_THOUSANDTH_BITS }
    }

    /// The binary64 value nearest to ten to the minus ten.
    pub open spec fn spec_ten_billionth() -> Scalar {
        Scalar { bits: TEN_BILLIONTH_BITS }
    }

    /// The binary64 value nearest to ten to the minus ten.
    #[verifier::when_used_as_spec(spec_ten_billionth)]
    pub fn ten_billionth() -> (r: Scalar)
        ensures
            r == Scalar::spec_ten_billionth(),
    {
        Scalar { bits: TEN_BILLIONTH_BITS }
    }

    /// The binary64 value nearest to one tenth.
    pub open spec fn spec_tenth() -> Scalar {
        Scalar { bits: TENTH_BITS }
    }

    /// The binary64 value nearest to one tenth.
    #[verifier::when_used_as_spec(spec_tenth)]
    pub fn tenth() -> (r: Scalar)
        ensures
            r == Scalar::spec_tenth(),
    {
        Scalar { bits: TENTH_BITS }
    }

    /// The scalar with the given pattern.
    pub fn from_bits(bits: u64) -> (r: Scalar)
        ensures
            r.bits == bits,
    {
        Scalar { bits }
    }

    /// The pattern of this scalar.
    pub fn to_bits(self) -> (r: u64)
        ensures
            r == self.bits,
    {
        self.bits
    }

    fn magnitude_bits(self) -> (r: u64)
        ensures
            r == self.magnitude(),
    {
        if self.bits >= SIGN_BIT {
            self.bits - SIGN_BIT
        } else {
            self.bits
        }
    }

    /// Whether this is a NaN.
    pub fn is_nan(self) -> (r: bool)
        ensures
            r == (self@ is NaN),
    {
        self.magnitude_bits() > INFINITY_BITS
    }

    /// Whether this is neither an infinity nor a NaN.
    pub fn is_finite(self) -> (r: bool)
        ensures
            r == (self@ is Finite),
    {
        self.magnitude_bits() < INFINITY_BITS
    }

    /// Numeric `<`: false whenever a NaN is involved.
    pub fn lt(self, other: Scalar) -> (r: bool)
        ensures
            r == number_lt(self@, other@),
    {
        let a: u64 = self.magnitude_bits();
        let b: u64 = other.magnitude_bits();
        if a > INFINITY_BITS || b > INFINITY_BITS {
            return false;
        }
        proof {
            lemma_magnitudes_ordered(a as int, b as int);
        }
        let a_negative = self.bits >= SIGN_BIT;
        let b_negative = other.bits >= SIGN_BIT;
        if a_negative {
            if b_negative {
                b < a
            } else {
                a != 0 || b != 0
            }
        } else {
            if b_negative {
                false
            } else {
                a < b
            }
        }
    }

    /// Numeric `>`: false whenever a NaN is involved.
    pub fn gt(self, other: Scalar) -> (r: bool)
        ensures
            r == number_lt(other@, self@),
    {
        other.lt(self)
    }

    /// Numeric `==`: false whenever a NaN is involved, true of the two zeros.
    pub fn eq_num(self, other: Scalar) -> (r: bool)
        ensures
            r == number_eq(self@, other@),
    {
        let a: u64 = self.magnitude_bits();
        let b: u64 = other.magnitude_bits();
        if a > INFINITY_BITS || b > INFINITY_BITS {
            return false;
        }
        proof {
            lemma_magnitudes_ordered(a as int, b as int);
        }
        if a == 0 && b == 0 {
            true
        } else {
            self.bits == other.bits
        }
    }

    /// Numeric `<=`: false whenever a NaN is involved.
    pub fn le(self, other: Scalar) -> (r: bool)
        ensures
            r == number_le(self@, other@),
    {
        self.lt(other) || self.eq_num(other)
    }

    /// Numeric `>=`: false whenever a NaN is involved.
    pub fn ge(self, other: Scalar) -> (r: bool)
        ensures
            r == number_le(other@, self@),
    {
        other.le(self)
    }

    /// What [`Scalar::neg`] returns.
    pub open spec fn spec_neg(self) -> Scalar {
        if self.sign() {
            Scalar { bits: self.magnitude() as u64 }
        } else {
            Scalar { bits: (self.bits + SIGN_BIT) as u64 }
        }
    }

    /// The opposite: the same pattern with the sign bit flipped.
    #[verifier::when_used_as_spec(spec_neg)]
    pub fn neg(self) -> (r: Scalar)
        ensures
            r == self.spec_neg(),
            r@ == number_neg(self@),
    {
        if self.bits >= SIGN_BIT {
            Scalar { bits: self.bits - SIGN_BIT }
        } else {
            Scalar { bits: self.bits + SIGN_BIT }
        }
    }

    /// What [`Scalar::abs`] returns.
    pub open spec fn abs_spec(self) -> Scalar {
        Scalar { bits: self.magnitude() as u64 }
    }

    /// The absolute value: the same pattern with the sign bit cleared.
    pub fn abs(self) -> (r: Scalar)
        ensures
            r == self.abs_spec(),
            r@ == number_abs(self@),
    {
        let m: u64 = self.magnitude_bits();
        proof {
            if m < INFINITY_BITS {
                lemma_magnitudes_ordered(m as int, m as int);
            }
        }
        Scalar { bits: m }
    }

    /// The remainder of the division by `divisor`, with the sign of the
    /// dividend. The remainder of two numbers is a number of the same kind, so
    /// nothing is rounded: the result is exact. A dividend that is smaller in
    /// size than the divisor comes back as it is.
    pub fn rem(self, divisor: Scalar) -> (r: Scalar)
        ensures
            r@ == number_rem(self@, divisor@),
            self@ is Finite && number_lt(number_abs(self@), number_abs(divisor@)) ==> r == self,
    {
        let x: u64 = self.magnitude_bits();
        let y: u64 = divisor.magnitude_bits();
        if x >= INFINITY_BITS || y > INFINITY_BITS || y == 0 {
            return Scalar { bits: NAN_BITS };
        }
        proof {
            lemma_magnitudes_ordered(x as int, x as int);
            if y < INFINITY_BITS {
                lemma_magnitudes_ordered(x as int, y as int);
                lemma_magnitudes_ordered(y as int, y as int);
            }
        }
        if y == INFINITY_BITS || x < y {
            proof {
                if y < INFINITY_BITS {
                    lemma_small_mod(units_of(x as int) as nat, units_of(y as int) as nat);
                }
            }
            return self;
        }
        let whole: u64 = significand_bits(x);
        let part: u64 = significand_bits(y);
        let shift: u64 = scale_bits(x) - scale_bits(y);
        let mut left: u64 = whole % part;
        let mut done: u64 = 0;
        proof {
            lemma2_to64();
            assert(whole * 1 == whole);
        }
        while done < shift
            invariant
                done <= shift,
                0 < part < 2 * HIDDEN_BIT,
                left == (whole * pow2(done as nat)) % (part as int),
            decreases shift - done,
        {
            proof {
                let before = whole * pow2(done as nat);
                lemma_pow2_unfold((done + 1) as nat);
                assert(whole * pow2((done + 1) as nat) == 2 * before) by (nonlinear_arith)
                    requires
                        pow2((done + 1) as nat) == 2 * pow2(done as nat),
                        before == whole * pow2(done as nat),
                ;
                lemma_mul_mod_noop_right(2, before, part as int);
            }
            left = (2 * left) % part;
            done = done + 1;
        }
        proof {
            lemma_remainder_is_scaled(x as int, y as int);
        }
        let magnitude: u64 = compose(left, scale_bits(y));
        if self.bits >= SIGN_BIT {
            Scalar { bits: magnitude + SIGN_BIT }
        } else {
            Scalar { bits: magnitude }
        }
    }

    /// The greater of two scalars, where a NaN counts as missing: with one NaN
    /// the other scalar comes back. Of two equal numbers the first comes back.
    pub fn max(self, other: Scalar) -> (r: Scalar)
        ensures
            r == self.max_spec(other),
    {
        if self.is_nan() {
            other
        } else if other.is_nan() {
            self
        } else if self.lt(other) {
            other
        } else {
            self
        }
    }

    /// What [`Scalar::max`] returns.
    pub open spec fn max_spec(self, other: Scalar) -> Scalar {
        if self@ is NaN {
            other
        } else if other@ is NaN {
            self
        } else if number_lt(self@, other@) {
            other
        } else {
            self
        }
    }

    /// What [`Scalar::doubled`] returns: a zero exponent field doubles as an
    /// integer, any other exponent field below the largest rises by one, and
    /// the largest gives way to infinity. Infinities and NaNs stay.
    pub open spec fn spec_doubled(self) -> Scalar {
        let m = self.magnitude();
        let twice = if m >= INFINITY_BITS {
            m
        } else if m < HIDDEN_BIT {
            2 * m
        } else if m < 2046 * HIDDEN_BIT {
            m + HIDDEN_BIT
        } else {
            INFINITY_BITS as int
        };
        if self.sign() {
            Scalar { bits: (twice + SIGN_BIT) as u64 }
        } else {
            Scalar { bits: twice as u64 }
        }
    }

    /// Twice this scalar. Doubling never rounds: the result is exact, or the
    /// infinity of the same sign where the double leaves the finite range.
    #[verifier::when_used_as_spec(spec_doubled)]
    pub fn doubled(self) -> (r: Scalar)
        ensures
            r == self.spec_doubled(),
            r@ == number_doubled(self@),
    {
        let m: u64 = self.magnitude_bits();
        proof {
            lemma_doubled(self);
        }
        let twice: u64 = if m >= INFINITY_BITS {
            m
        } else if m < HIDDEN_BIT {
            2 * m
        } else if m < 2046 * HIDDEN_BIT {
            m + HIDDEN_BIT
        } else {
            INFINITY_BITS
        };
        if self.bits >= SIGN_BIT {
            Scalar { bits: twice + SIGN_BIT }
        } else {
            Scalar { bits: twice }
        }
    }
}

/// The doubled pattern denotes twice the number, or the infinity of its sign
/// where twice the number is out of range.
pub proof fn lemma_doubled(x: Scalar)
    ensures
        x.spec_doubled()@ == number_doubled(x@),
{
    let m = x.magnitude();
    if m < INFINITY_BITS {
        lemma_units_overflow(m);
        lemma_magnitudes_ordered(m, m);
        if m < HIDDEN_BIT {
            lemma_double_subnormal(m);
        } else if m < 2046 * HIDDEN_BIT {
            lemma_double_normal(m);
        }
    }
}

/// One doubled `times` times.
pub open spec fn power_of_two(times: nat) -> Scalar
    decreases times,
{
    if times == 0 {
        Scalar::spec_one()
    } else {
        power_of_two((times - 1) as nat).spec_doubled()
    }
}

/// Doubling one gives the powers of two, one after another, as far as they
/// are finite: two to the 1023rd is the last, and its double is infinity.
pub proof fn lemma_powers_of_two(times: nat)
    ensures
        times <= 1023 ==> power_of_two(times)@ == Number::Finite(pow2(1074 + times) as int),
        times == 1024 ==> power_of_two(times)@ == Number::PosInfinity,
    decreases times,
{
    if times == 0 {
        lemma2_to64();
        lemma_pow2_adds(32, 20);
        lemma_pow2_adds(52, 1022);
        assert(ONE_BITS as int / (HIDDEN_BIT as int) == 1023);
        assert(ONE_BITS as int % (HIDDEN_BIT as int) == 0);
    } else if times <= 1024 {
        let before = power_of_two((times - 1) as nat);
        lemma_powers_of_two((times - 1) as nat);
        lemma_doubled(before);
        lemma_pow2_pos(2097);
        if times <= 1023 {
            lemma_pow2_strictly_increases((1074 + times - 1) as nat, 2097);
            lemma_pow2_unfold(1074 + times);
        }
    }
}

/// The named values denote numbers, and the patterns are ordered as the
/// names say: minus one is below zero, and from zero the values rise through
/// the two tolerances, one tenth, one and pi to two pi.
pub proof fn lemma_named_values_are_ordered()
    ensures
        Scalar::spec_one()@ is Finite,
        Scalar::spec_zero()@ == Number::Finite(0),
        Scalar::spec_pi()@ is Finite,
        Scalar::spec_tenth()@ is Finite,
        number_lt(Scalar::spec_zero()@, Scalar::spec_ten_billionth()@),
        number_lt(Scalar::spec_ten_billionth()@, Scalar::spec_hundred_thousandth()@),
        number_lt(Scalar::spec_hundred_thousandth()@, Scalar::spec_tenth()@),
        number_lt(Scalar::spec_tenth()@, Scalar::spec_one()@),
        number_lt(Scalar::spec_one()@, Scalar::spec_pi()@),
        number_lt(Scalar::spec_pi()@, Scalar::spec_two_pi()@),
        number_lt(Scalar::spec_minus_one()@, Scalar::spec_zero()@),
{
    lemma_units_increase(ZERO_BITS as int, TEN_BILLIONTH_BITS as int);
    lemma_units_increase(TEN_BILLIONTH_BITS as int, HUNDRED_THOUSANDTH_BITS as int);
    lemma_units_increase(HUNDRED_THOUSANDTH_BITS as int, TENTH_BITS as int);
    lemma_units_increase(TENTH_BITS as int, ONE_BITS as int);
    lemma_units_increase(ONE_BITS as int, PI_BITS as int);
    lemma_units_increase(PI_BITS as int, TWO_PI_BITS as int);
}

/// The significand of a finite magnitude.
fn significand_bits(m: u64) -> (r: u64)
    requires
        m < INFINITY_BITS,
    ensures
        r == significand_of(m as int),
{
    if m < HIDDEN_BIT {
        m
    } else {
        HIDDEN_BIT + m % HIDDEN_BIT
    }
}

/// The scale of a finite magnitude.
fn scale_bits(m: u64) -> (r: u64)
    requires
        m < INFINITY_BITS,
    ensures
        r == scale_of(m as int),
        r <= 2045,
{
    if m < HIDDEN_BIT {
        0
    } else {
        m / HIDDEN_BIT - 1
    }
}

/// The finite magnitude that denotes a significand times two to a scale.
fn compose(significand: u64, scale: u64) -> (m: u64)
    requires
        significand < 2 * HIDDEN_BIT,
        scale <= 2045,
    ensures
        m < INFINITY_BITS,
        units_of(m as int) == significand * pow2(scale as nat),
{
    let mut s: u64 = significand;
    let mut k: u64 = scale;
    while s < HIDDEN_BIT && k > 0
        invariant
            s < 2 * HIDDEN_BIT,
            k <= 2045,
            s * pow2(k as nat) == significand * pow2(scale as nat),
        decreases k,
    {
        proof {
            lemma_pow2_unfold(k as nat);
            let lower = pow2((k - 1) as nat) as int;
            assert((2 * s) * lower == s * (2 * lower)) by (nonlinear_arith);
        }
        s = 2 * s;
        k = k - 1;
    }
    if s >= HIDDEN_BIT {
        let m: u64 = (k + 1) * HIDDEN_BIT + (s - HIDDEN_BIT);
        proof {
            let h = HIDDEN_BIT as int;
            assert(((k + 1) * h + (s - h)) / h == k + 1 && ((k + 1) * h + (s - h)) % h == s - h) by {
                lemma_fundamental_div_mod_converse(
                    (k + 1) * h + (s - h),
                    h,
                    (k + 1) as int,
                    s - h,
                );
            }
        }
        m
    } else {
        proof {
            lemma2_to64();
            assert(s * 1 == s);
        }
        s
    }
}

/// The remainder of two finite values whose dividend is the larger in size:
/// the scale of the divisor is a common factor, and what is left of the
/// dividend's significand, shifted by the difference of the scales, is the
/// remainder in units of that factor.
proof fn lemma_remainder_is_scaled(x: int, y: int)
    requires
        0 < y <= x < INFINITY_BITS,
    ensures
        scale_of(y) <= scale_of(x),
        units_of(x) % units_of(y) == ((significand_of(x) * pow2(
            (scale_of(x) - scale_of(y)) as nat,
        )) % significand_of(y)) * pow2(scale_of(y)),
{
    lemma_units_are_scaled(x);
    lemma_units_are_scaled(y);
    let whole = significand_of(x);
    let part = significand_of(y);
    let shift = (scale_of(x) - scale_of(y)) as nat;
    let unit = pow2(scale_of(y)) as int;
    let lifted = whole * pow2(shift);
    lemma_pow2_pos(scale_of(y));
    lemma_pow2_pos(shift);
    lemma_pow2_adds(shift, scale_of(y));
    assert(units_of(x) == unit * lifted) by (nonlinear_arith)
        requires
            units_of(x) == whole * pow2(scale_of(x)),
            pow2(scale_of(x)) == pow2(shift) * pow2(scale_of(y)),
            unit == pow2(scale_of(y)),
            lifted == whole * pow2(shift),
    ;
    assert(units_of(y) == unit * part) by (nonlinear_arith)
        requires
            units_of(y) == part * pow2(scale_of(y)),
            unit == pow2(scale_of(y)),
    ;
    assert(0 <= lifted) by (nonlinear_arith)
        requires
            lifted == whole * pow2(shift),
            0 <= whole,
    ;
    lemma_truncate_middle(lifted, unit, part);
    assert(unit * (lifted % part) == (lifted % part) * unit) by (nonlinear_arith);
}

/// Finite magnitudes are ordered as the values they denote.
proof fn lemma_magnitudes_ordered(a: int, b: int)
    requires
        0 <= a <= INFINITY_BITS,
        0 <= b <= INFINITY_BITS,
    ensures
        a < INFINITY_BITS ==> units_of(a) >= 0,
        a < INFINITY_BITS ==> (units_of(a) == 0 <==> a == 0),
        a < INFINITY_BITS && b < INFINITY_BITS ==> (a < b <==> units_of(a) < units_of(b)),
        a < INFINITY_BITS && b < INFINITY_BITS ==> (a == b <==> units_of(a) == units_of(b)),
{
    assert(units_of(0) == 0);
    if a < INFINITY_BITS {
        if 0 < a {
            lemma_units_increase(0, a);
        }
        if b < INFINITY_BITS {
            if a < b {
                lemma_units_increase(a, b);
            } else if b < a {
                lemma_units_increase(b, a);
            }
        }
    }
}

/// Doubling a magnitude whose exponent field is zero doubles its value.
proof fn lemma_double_subnormal(m: int)
    requires
        0 <= m < HIDDEN_BIT,
    ensures
        units_of(2 * m) == 2 * units_of(m),
{
    let h = HIDDEN_BIT as int;
    if 2 * m >= h {
        assert((2 * m) / h == 1);
        assert((2 * m) % h == 2 * m - h);
        assert(pow2(0) == 1) by {
            lemma2_to64();
        }
        assert((h + (2 * m - h)) * 1 == 2 * m);
    }
}

/// Raising a nonzero exponent field by one doubles the value.
proof fn lemma_double_normal(m: int)
    requires
        HIDDEN_BIT <= m < 2046 * HIDDEN_BIT,
    ensures
        units_of(m + HIDDEN_BIT) == 2 * units_of(m),
{
    let h = HIDDEN_BIT as int;
    let e = m / h;
    let f = m % h;
    assert((m + h) / h == e + 1);
    assert((m + h) % h == f);
    lemma_pow2_unfold(e as nat);
    let p = pow2((e - 1) as nat) as int;
    assert((h + f) * (2 * p) == 2 * ((h + f) * p)) by (nonlinear_arith);
}

} // verus!
