//! Coordinates and distances.
//!
//! Coordinates are fixed-point: a `Point` holds degrees multiplied by ten
//! million. A `Distance` is a length in kilometres as measured by the
//! runtime, carried as the bit pattern of a double-precision number so that
//! the brackets are decided on exactly the value that was measured.

use vstd::arithmetic::power2::{
    lemma2_to64_rest, lemma_pow2_adds, lemma_pow2_pos, lemma_pow2_strictly_increases,
    lemma_pow2_unfold, pow2,
};
use vstd::prelude::*;

verus! {

/// Units of a coordinate per degree.
pub const UNITS_PER_DEGREE: i32 = 10_000_000;

/// A place on the globe, each coordinate in units of 1/10,000,000 degree.
#[derive(Clone, Copy, Debug, PartialEq, Eq, Structural)]
pub struct Point {
    pub latitude_e7: i32,
    pub longitude_e7: i32,
}

/// A length in kilometres: the bits of an IEEE 754 double-precision number,
/// sign in the top bit, then eleven bits of exponent and fifty-two of
/// fraction.
#[derive(Clone, Copy, Debug, PartialEq, Eq, Structural)]
pub struct Distance {
    pub bits: u64,
}

/// The bit that holds the sign of a double.
pub const SIGN_BIT: u64 = 0x8000_0000_0000_0000;

/// The bits of positive infinity; every pattern with a larger magnitude is
/// not a number.
pub const INFINITY_BITS: u64 = 0x7FF0_0000_0000_0000;

/// Two to the fifty-second: what the lowest bit of the exponent is worth, and
/// the weight of the leading one of a normal number.
pub const HIDDEN_BIT: u64 = 0x10_0000_0000_0000;

/// The bits of 5.0.
pub const FIVE_KM_BITS: u64 = 0x4014_0000_0000_0000;

/// The bits of 10.0.
pub const TEN_KM_BITS: u64 = 0x4024_0000_0000_0000;

/// The bits of 25.0.
pub const TWENTY_FIVE_KM_BITS: u64 = 0x4039_0000_0000_0000;

impl Distance {
    /// The pattern without its sign.
    pub open spec fn magnitude(self) -> int {
        if self.bits >= SIGN_BIT {
            self.bits - SIGN_BIT
        } else {
            self.bits as int
        }
    }

    /// Whether the sign bit is set.
    pub open spec fn is_negative(self) -> bool {
        self.bits >= SIGN_BIT
    }

    /// Whether the length is zero, of either sign.
    pub open spec fn is_zero(self) -> bool {
        self.magnitude() == 0
    }

    /// Whether the length is zero, or is positive and its pattern is at most
    /// `limit`.
    ///
    /// Where `limit` is the pattern of a positive finite number, this says
    /// that the length is a number from zero to that number: among positive
    /// finite doubles the larger number has the larger pattern, a zero of
    /// either sign is below every positive number, and what is no number has
    /// a larger pattern than every finite number.
    pub open spec fn within(self, limit: u64) -> bool {
        self.is_zero() || (!self.is_negative() && self.bits <= limit)
    }

    /// Whether the pattern stands for a number: for neither infinity nor what
    /// is no number at all.
    pub open spec fn is_finite(self) -> bool {
        self.magnitude() < INFINITY_BITS
    }

    /// The exponent field of the pattern.
    pub open spec fn exponent(self) -> int {
        self.magnitude() / (HIDDEN_BIT as int)
    }

    /// The fraction field of the pattern.
    pub open spec fn fraction(self) -> int {
        self.magnitude() % (HIDDEN_BIT as int)
    }

    /// The size of the number that a finite pattern stands for, in units of
    /// 2^-1074 km, in which every finite double is whole: the fraction alone
    /// where the exponent field is zero, and the fraction under a leading one,
    /// doubled once for every step of the exponent field above one, where it
    /// is not.
    pub open spec fn scaled(self) -> int {
        if self.exponent() == 0 {
            self.fraction()
        } else {
            (HIDDEN_BIT + self.fraction()) * pow2((self.exponent() - 1) as nat)
        }
    }

    /// The length whose pattern is `bits`.
    pub fn from_bits(bits: u64) -> (distance: Distance)
        ensures
            distance.bits == bits,
    {
        Distance { bits }
    }

    /// The pattern of the length.
    pub fn to_bits(&self) -> (bits: u64)
        ensures
            bits == self.bits,
    {
        self.bits
    }

    /// Decides `within` on the bits.
    pub fn is_within(&self, limit: u64) -> (yes: bool)
        ensures
            yes == self.within(limit),
    {
        self.bits == 0 || self.bits == SIGN_BIT || (self.bits < SIGN_BIT && self.bits <= limit)
    }
}

/// A whole number of kilometres in units of 2^-1074 km.
pub open spec fn km_scaled(km: int) -> int {
    km * pow2(1074)
}

proof fn lemma_scaled_bounds(d: Distance)
    requires
        d.is_finite(),
    ensures
        d.exponent() == 0 ==> 0 <= d.scaled() < HIDDEN_BIT,
        d.exponent() > 0 ==> HIDDEN_BIT * pow2((d.exponent() - 1) as nat) <= d.scaled()
            < HIDDEN_BIT * pow2(d.exponent() as nat),
{
    if d.exponent() > 0 {
        let weight = pow2((d.exponent() - 1) as nat) as int;
        let fraction = d.fraction();
        let hidden = HIDDEN_BIT as int;
        lemma_pow2_pos((d.exponent() - 1) as nat);
        lemma_pow2_unfold(d.exponent() as nat);
        assert(hidden * weight <= (hidden + fraction) * weight < hidden * (2 * weight))
            by (nonlinear_arith)
            requires
                weight > 0,
                0 <= fraction < hidden,
        ;
    }
}

proof fn lemma_pow2_increases(low: nat, high: nat)
    requires
        low <= high,
    ensures
        pow2(low) <= pow2(high),
{
    if low < high {
        lemma_pow2_strictly_increases(low, high);
    }
}

proof fn lemma_higher_exponent_is_longer(a: Distance, b: Distance)
    requires
        a.is_finite(),
        b.is_finite(),
        a.exponent() < b.exponent(),
    ensures
        a.scaled() < b.scaled(),
{
    lemma_scaled_bounds(a);
    lemma_scaled_bounds(b);
    let hidden = HIDDEN_BIT as int;
    let high = pow2((b.exponent() - 1) as nat) as int;
    lemma_pow2_pos((b.exponent() - 1) as nat);
    if a.exponent() == 0 {
        assert(hidden <= hidden * high) by (nonlinear_arith)
            requires
                high >= 1,
                hidden > 0,
        ;
    } else {
        let low = pow2(a.exponent() as nat) as int;
        lemma_pow2_increases(a.exponent() as nat, (b.exponent() - 1) as nat);
        assert(hidden * low <= hidden * high) by (nonlinear_arith)
            requires
                low <= high,
                hidden > 0,
        ;
    }
}

/// Among finite lengths the larger pattern stands for the longer length.
pub proof fn law_larger_pattern_is_longer(a: Distance, b: Distance)
    requires
        a.is_finite(),
        b.is_finite(),
    ensures
        a.magnitude() <= b.magnitude() <==> a.scaled() <= b.scaled(),
{
    let hidden = HIDDEN_BIT as int;
    if a.exponent() < b.exponent() {
        lemma_higher_exponent_is_longer(a, b);
    } else if b.exponent() < a.exponent() {
        lemma_higher_exponent_is_longer(b, a);
    } else if a.exponent() > 0 {
        let weight = pow2((a.exponent() - 1) as nat) as int;
        let fa = a.fraction();
        let fb = b.fraction();
        lemma_pow2_pos((a.exponent() - 1) as nat);
        assert(fa <= fb <==> (hidden + fa) * weight <= (hidden + fb) * weight)
            by (nonlinear_arith)
            requires
                weight > 0,
        ;
    }
}

/// The limits of the fee brackets stand for 5 km, 10 km and 25 km.
pub proof fn law_bracket_limits()
    ensures
        (Distance { bits: FIVE_KM_BITS }).scaled() == km_scaled(5),
        (Distance { bits: TEN_KM_BITS }).scaled() == km_scaled(10),
        (Distance { bits: TWENTY_FIVE_KM_BITS }).scaled() == km_scaled(25),
{
    lemma2_to64_rest();
    let unit = pow2(1074) as int;
    let five = Distance { bits: FIVE_KM_BITS };
    assert(five.exponent() == 1025 && five.fraction() == 0x4_0000_0000_0000);
    lemma_pow2_adds(50, 1024);
    let w1024 = pow2(1024) as int;
    assert((HIDDEN_BIT + 0x4_0000_0000_0000) * w1024 == 5 * (0x4_0000_0000_0000 * w1024))
        by (nonlinear_arith);
    let ten = Distance { bits: TEN_KM_BITS };
    assert(ten.exponent() == 1026 && ten.fraction() == 0x4_0000_0000_0000);
    lemma_pow2_adds(49, 1025);
    let w1025 = pow2(1025) as int;
    assert((HIDDEN_BIT + 0x4_0000_0000_0000) * w1025 == 10 * (0x2_0000_0000_0000 * w1025))
        by (nonlinear_arith);
    let far = Distance { bits: TWENTY_FIVE_KM_BITS };
    assert(far.exponent() == 1027 && far.fraction() == 0x9_0000_0000_0000);
    lemma_pow2_adds(48, 1026);
    let w1026 = pow2(1026) as int;
    assert((HIDDEN_BIT + 0x9_0000_0000_0000) * w1026 == 25 * (0x1_0000_0000_0000 * w1026))
        by (nonlinear_arith);
}

/// What `within` decides, in numbers: a length is within a limit exactly when
/// it is zero, or a positive finite number that is at most the limit.
pub proof fn law_within_is_numeric(distance: Distance, limit: u64)
    requires
        0 < limit < INFINITY_BITS,
    ensures
        distance.within(limit) <==> distance.is_zero() || (!distance.is_negative()
            && distance.is_finite() && distance.scaled() <= (Distance { bits: limit }).scaled()),
{
    if !distance.is_negative() && distance.is_finite() {
        law_larger_pattern_is_longer(distance, Distance { bits: limit });
    }
}

} // verus!
