//! Temperatures: the raw counts the sensor works with, and degrees Celsius
//! as single precision bit patterns.
//!
//! One count of a temperature register is 1/128 of a degree Celsius. A
//! register word holds a signed number of counts in two's complement.
//!
//! Callers hand temperatures over in degrees Celsius, as the bit pattern of
//! an IEEE 754 single precision number. Such a pattern has a sign bit, an
//! eight-bit exponent field `e` and a 23-bit fraction field `f`. For `e`
//! from 1 to 254 it stands for `(2^23 + f) * 2^(e - 150)`, for `e = 0` for
//! `f * 2^(-149)`, both with the sign; `e = 255` marks the infinities
//! (`f = 0`) and the patterns that are not a number. Every finite value is
//! thus a whole multiple of `2^(-149)`, and this module reasons about that
//! whole number.

use vstd::arithmetic::div_mod::{
    lemma_basic_div,
    lemma_div_by_multiple,
    lemma_div_is_ordered,
    lemma_div_multiples_vanish_quotient,
};
use vstd::arithmetic::mul::{
    lemma_mul_equality_converse,
    lemma_mul_inequality,
    lemma_mul_is_associative,
    lemma_mul_is_commutative,
    lemma_mul_strict_inequality,
};
use vstd::arithmetic::power2::{
    lemma2_to64,
    lemma_pow2_adds,
    lemma_pow2_pos,
    lemma_pow2_strictly_increases,
    lemma_pow2_unfold,
    pow2,
};
use vstd::bits::lemma_u32_shr_is_div;
use vstd::prelude::*;

verus! {

/// The signed number of counts that a register word holds in two's
/// complement.
pub open spec fn raw_of_word(word: u16) -> i16 {
    if word < 0x8000 {
        word as i16
    } else {
        (word - 0x1_0000) as i16
    }
}

/// The register word that holds a signed number of counts in two's
/// complement.
pub open spec fn word_of_raw(raw: i16) -> u16 {
    if raw >= 0 {
        raw as u16
    } else {
        (raw + 0x1_0000) as u16
    }
}

/// Reads a register word as a signed number of counts.
pub fn word_to_raw(word: u16) -> (raw: i16)
    ensures
        raw == raw_of_word(word),
{
    let raw: i16 = word as i16;
    assert(word < 0x8000 ==> raw == word) by (bit_vector)
        requires
            raw == word as i16,
    ;
    assert(word >= 0x8000 ==> raw == word - 0x1_0000) by (bit_vector)
        requires
            raw == word as i16,
    ;
    raw
}

/// Writes a signed number of counts as a register word.
pub fn raw_to_word(raw: i16) -> (word: u16)
    ensures
        word == word_of_raw(raw),
{
    let word: u16 = raw as u16;
    assert(raw >= 0 ==> word == raw) by (bit_vector)
        requires
            word == raw as u16,
    ;
    assert(raw < 0 ==> word == raw + 0x1_0000) by (bit_vector)
        requires
            word == raw as u16,
    ;
    word
}

/// Every register word is a number of counts and every number of counts a
/// register word, one for one.
pub proof fn lemma_raw_word_inverse(word: u16, raw: i16)
    ensures
        word_of_raw(raw_of_word(word)) == word,
        raw_of_word(word_of_raw(raw)) == raw,
{
}

/// One count, 1/128 of a degree, as a multiple of `2^(-149)`.
pub open spec fn one_count() -> nat {
    pow2(142)
}

/// A temperature in degrees Celsius, as the bit pattern of an IEEE 754
/// single precision number.
///
/// A caller that works with `f32` gets one with
/// `Celsius::from_bits(degrees.to_bits())` and reads one with
/// `f32::from_bits(celsius.to_bits())`.
#[derive(Debug, Clone, Copy, PartialEq, Eq, Structural)]
pub struct Celsius {
    /// The 32 bits of the number: sign, exponent field, fraction field.
    pub bits: u32,
}

impl Celsius {
    /// The sign bit: set for negative numbers.
    pub open spec fn negative(self) -> bool {
        self.bits >= 0x8000_0000
    }

    /// The exponent field.
    pub open spec fn exponent(self) -> nat {
        ((self.bits / 0x80_0000) % 256) as nat
    }

    /// The fraction field.
    pub open spec fn fraction(self) -> nat {
        (self.bits % 0x80_0000) as nat
    }

    /// Whether the pattern stands for no number.
    pub open spec fn is_nan(self) -> bool {
        self.exponent() == 255 && self.fraction() != 0
    }

    /// Whether the pattern stands for one of the two infinities.
    pub open spec fn is_infinite(self) -> bool {
        self.exponent() == 255 && self.fraction() == 0
    }

    /// Whether the pattern stands for a number that is not an infinity.
    pub open spec fn is_finite(self) -> bool {
        self.exponent() < 255
    }

    /// For a finite pattern, the size of the number without its sign, as a
    /// multiple of `2^(-149)`.
    pub open spec fn magnitude(self) -> nat {
        if self.exponent() == 0 {
            self.fraction()
        } else {
            (0x80_0000 + self.fraction()) * pow2((self.exponent() - 1) as nat)
        }
    }

    /// For a finite pattern, the number as a multiple of `2^(-149)`.
    pub open spec fn scaled(self) -> int {
        if self.negative() {
            -(self.magnitude() as int)
        } else {
            self.magnitude() as int
        }
    }

    /// Whether the pattern is the number `counts / 128` exactly. Zero
    /// counts are the pattern of positive zero.
    pub open spec fn is_counts(self, counts: int) -> bool {
        &&& self.is_finite()
        &&& self.scaled() == counts * one_count()
        &&& counts == 0 ==> self.bits == 0
    }

    /// For a finite pattern, the number times 128 with the digits after the
    /// point cut off: the whole counts in it, rounded toward zero.
    pub open spec fn whole_counts(self) -> int {
        if self.negative() {
            -((self.magnitude() / one_count()) as int)
        } else {
            (self.magnitude() / one_count()) as int
        }
    }

    /// The counts that a limit register is set to for this temperature:
    /// the whole counts in it, rounded toward zero, or the nearest end of
    /// the sixteen-bit range where they do not fit. What is not a number
    /// counts as zero.
    pub open spec fn raw(self) -> i16 {
        if self.is_nan() {
            0
        } else if self.is_infinite() {
            if self.negative() {
                i16::MIN
            } else {
                i16::MAX
            }
        } else if self.whole_counts() > i16::MAX {
            i16::MAX
        } else if self.whole_counts() < i16::MIN {
            i16::MIN
        } else {
            self.whole_counts() as i16
        }
    }

    /// Takes the bits of a single precision number as degrees Celsius.
    pub fn from_bits(bits: u32) -> (celsius: Celsius)
        ensures
            celsius.bits == bits,
    {
        Celsius { bits }
    }

    /// The bits of the single precision number.
    pub fn to_bits(self) -> (bits: u32)
        ensures
            bits == self.bits,
    {
        self.bits
    }

    /// The temperature of a number of counts: counts times 1/128 degree.
    /// Every sixteen-bit number of counts is a single precision number
    /// exactly, so nothing is rounded.
    pub fn from_raw(raw: i16) -> (celsius: Celsius)
        ensures
            celsius.is_counts(raw as int),
    {
        if raw == 0 {
            return Celsius { bits: 0 };
        }
        let negative = raw < 0;
        let wide: i32 = raw as i32;
        let counts: u32 = if negative {
            (-wide) as u32
        } else {
            wide as u32
        };
        let mut significand: u32 = counts;
        let mut exponent: u32 = 143;
        proof {
            lemma2_to64();
            lemma_pow2_pos(142);
        }
        while significand < 0x80_0000
            invariant
                1 <= counts <= 32768,
                1 <= significand < 0x100_0000,
                1 <= exponent <= 143,
                significand >= pow2((143 - exponent) as nat),
                significand * pow2((exponent - 1) as nat) == counts * pow2(142),
            decreases exponent,
        {
            proof {
                let doublings = (143 - exponent) as nat;
                lemma2_to64();
                if doublings >= 23 {
                    if doublings > 23 {
                        lemma_pow2_strictly_increases(23, doublings);
                    }
                    assert(false);
                }
                lemma_pow2_unfold(doublings + 1);
                lemma_pow2_unfold((exponent - 1) as nat);
                let lower = pow2((exponent - 2) as nat) as int;
                assert((significand * 2) * lower == significand * (2 * lower)) by {
                    lemma_mul_is_associative(significand as int, 2, lower);
                }
            }
            significand = significand * 2;
            exponent = exponent - 1;
        }
        let sign: u32 = if negative {
            0x8000_0000
        } else {
            0
        };
        let bits: u32 = sign + exponent * 0x80_0000 + (significand - 0x80_0000);
        let celsius = Celsius { bits };
        proof {
            assert(celsius.negative() == negative);
            assert(celsius.exponent() == exponent);
            assert(celsius.fraction() == significand - 0x80_0000);
            assert(celsius.magnitude() == significand * pow2((exponent - 1) as nat));
            assert(celsius.magnitude() == counts * pow2(142));
            assert((-(counts as int)) * pow2(142) == -(counts * pow2(142))) by (nonlinear_arith);
        }
        celsius
    }

    /// The counts that a limit register is set to for this temperature:
    /// degrees times 128, rounded toward zero and kept within the
    /// sixteen-bit range.
    pub fn to_raw(self) -> (raw: i16)
        ensures
            raw == self.raw(),
    {
        let negative = self.bits >= 0x8000_0000;
        let exponent: u32 = (self.bits / 0x80_0000) % 256;
        let fraction: u32 = self.bits % 0x80_0000;
        if exponent == 255 {
            if fraction != 0 {
                0
            } else if negative {
                i16::MIN
            } else {
                i16::MAX
            }
        } else if exponent < 120 {
            proof {
                self.lemma_small_is_no_count();
            }
            0
        } else if exponent >= 135 {
            proof {
                self.lemma_large_is_out_of_range();
            }
            if negative {
                i16::MIN
            } else {
                i16::MAX
            }
        } else {
            let significand: u32 = 0x80_0000 + fraction;
            let shift: u32 = 143 - exponent;
            let counts: u32 = significand >> shift;
            proof {
                lemma2_to64();
                self.lemma_counts_by_division();
                lemma_u32_shr_is_div(significand, shift);
                let divisor = pow2(shift as nat) as int;
                assert(divisor >= 512) by {
                    if shift > 9 {
                        lemma_pow2_strictly_increases(9, shift as nat);
                    }
                }
                assert(counts < 32768) by {
                    lemma_div_is_ordered(significand as int, 0xFF_FFFF, divisor);
                    lemma_quotient_of_24_bits(divisor);
                }
            }
            if negative {
                -(counts as i16)
            } else {
                counts as i16
            }
        }
    }

    /// For a pattern with an exponent field from 1 to 143, the whole counts
    /// come from dividing the significand `2^23 + f` by `2^(143 - e)`.
    proof fn lemma_counts_by_division(self)
        requires
            1 <= self.exponent() <= 143,
        ensures
            self.magnitude() / pow2(142) == (0x80_0000 + self.fraction()) / pow2(
                (143 - self.exponent()) as nat,
            ),
    {
        let significand = (0x80_0000 + self.fraction()) as int;
        let kept = pow2((self.exponent() - 1) as nat) as int;
        let dropped = pow2((143 - self.exponent()) as nat) as int;
        lemma_pow2_pos((self.exponent() - 1) as nat);
        lemma_pow2_pos((143 - self.exponent()) as nat);
        lemma_pow2_adds((self.exponent() - 1) as nat, (143 - self.exponent()) as nat);
        assert(pow2(142) == kept * dropped);
        lemma_div_multiples_vanish_quotient(kept, significand, dropped);
        lemma_mul_is_commutative(kept, significand);
    }

    /// A pattern with an exponent field below 120 is less than one count.
    proof fn lemma_small_is_no_count(self)
        requires
            self.exponent() < 120,
        ensures
            self.whole_counts() == 0,
    {
        lemma2_to64();
        if self.exponent() == 0 {
            lemma_pow2_strictly_increases(23, 142);
            lemma_basic_div(self.magnitude() as int, pow2(142) as int);
        } else {
            self.lemma_counts_by_division();
            let dropped = (143 - self.exponent()) as nat;
            if dropped > 24 {
                lemma_pow2_strictly_increases(24, dropped);
            }
            lemma_basic_div((0x80_0000 + self.fraction()) as int, pow2(dropped) as int);
        }
    }

    /// A finite pattern with an exponent field of 135 or more is at least
    /// 32768 counts in size.
    proof fn lemma_large_is_out_of_range(self)
        requires
            135 <= self.exponent() < 255,
        ensures
            self.magnitude() / pow2(142) >= 32768,
    {
        lemma2_to64();
        lemma_pow2_pos(142);
        let significand = (0x80_0000 + self.fraction()) as int;
        if self.exponent() <= 143 {
            self.lemma_counts_by_division();
            let dropped = (143 - self.exponent()) as nat;
            let divisor = pow2(dropped) as int;
            lemma_pow2_pos(dropped);
            if dropped < 8 {
                lemma_pow2_strictly_increases(dropped, 8);
            }
            assert(divisor <= 256);
            assert(32768 * divisor <= significand) by {
                lemma_mul_inequality(divisor, 256, 32768);
                lemma_mul_is_commutative(divisor, 32768);
            }
            lemma_div_is_ordered(32768 * divisor, significand, divisor);
            lemma_div_by_multiple(32768, divisor);
        } else {
            let extra = (self.exponent() - 143) as nat;
            let factor = pow2(extra) as int;
            lemma_pow2_pos(extra);
            lemma_pow2_adds(extra, 142);
            assert(pow2((self.exponent() - 1) as nat) == factor * pow2(142));
            assert(self.magnitude() == (significand * factor) * pow2(142)) by {
                lemma_mul_is_associative(significand, factor, pow2(142) as int);
            }
            lemma_div_by_multiple(significand * factor, pow2(142) as int);
            assert(significand * factor >= significand) by {
                lemma_mul_inequality(1, factor, significand);
                lemma_mul_is_commutative(factor, significand);
            }
        }
    }

    /// The temperature of a number of counts gives these counts back when a
    /// limit register is set to it.
    pub proof fn lemma_counts_raw(self, raw: i16)
        requires
            self.is_counts(raw as int),
        ensures
            self.raw() == raw,
    {
        lemma_pow2_pos(142);
        let size: int = if raw < 0 {
            -(raw as int)
        } else {
            raw as int
        };
        assert(self.magnitude() == size * pow2(142)) by {
            assert((-(raw as int)) * pow2(142) == -(raw * pow2(142))) by (nonlinear_arith);
        }
        lemma_div_by_multiple(size, pow2(142) as int);
        if raw > 0 {
            assert(!self.negative()) by {
                lemma_mul_strict_inequality(0, raw as int, pow2(142) as int);
            }
        }
        if raw < 0 {
            assert(self.negative()) by {
                lemma_mul_strict_inequality(raw as int, 0, pow2(142) as int);
            }
        }
    }

    /// There is one pattern only for the temperature of a number of counts.
    pub proof fn lemma_counts_unique(self, other: Celsius, counts: int)
        requires
            self.is_counts(counts),
            other.is_counts(counts),
        ensures
            self == other,
    {
        if counts != 0 {
            lemma_pow2_pos(142);
            assert(self.scaled() != 0) by {
                if counts > 0 {
                    lemma_mul_strict_inequality(0, counts, pow2(142) as int);
                } else {
                    lemma_mul_strict_inequality(counts, 0, pow2(142) as int);
                }
            }
            assert(self.negative() == other.negative());
            assert(self.magnitude() == other.magnitude());
            self.lemma_magnitude_bounds();
            other.lemma_magnitude_bounds();
            let high = if self.exponent() >= other.exponent() {
                self
            } else {
                other
            };
            let low = if self.exponent() >= other.exponent() {
                other
            } else {
                self
            };
            if low.exponent() < high.exponent() {
                if low.exponent() + 1 < high.exponent() {
                    lemma_pow2_strictly_increases(low.exponent(), (high.exponent() - 1) as nat);
                }
                lemma_mul_inequality(
                    pow2(low.exponent()) as int,
                    pow2((high.exponent() - 1) as nat) as int,
                    0x80_0000,
                );
                assert(false);
            }
            if self.exponent() > 0 {
                let weight = pow2((self.exponent() - 1) as nat) as int;
                lemma_pow2_pos((self.exponent() - 1) as nat);
                lemma_mul_is_commutative(weight, (0x80_0000 + self.fraction()) as int);
                lemma_mul_is_commutative(weight, (0x80_0000 + other.fraction()) as int);
                lemma_mul_equality_converse(
                    weight,
                    (0x80_0000 + self.fraction()) as int,
                    (0x80_0000 + other.fraction()) as int,
                );
            }
            assert(self.fraction() == other.fraction());
            assert(self.bits == other.bits);
        }
    }

    /// The size of a pattern lies between `2^23 * 2^(e - 1)` and
    /// `2^23 * 2^e` for an exponent field `e` of 1 or more, and below
    /// `2^23` for `e = 0`.
    proof fn lemma_magnitude_bounds(self)
        ensures
            self.exponent() == 0 ==> self.magnitude() < 0x80_0000 * pow2(0),
            self.exponent() > 0 ==> 0x80_0000 * pow2((self.exponent() - 1) as nat)
                <= self.magnitude() < 0x80_0000 * pow2(self.exponent()),
    {
        lemma2_to64();
        if self.exponent() > 0 {
            let weight = pow2((self.exponent() - 1) as nat) as int;
            lemma_pow2_pos((self.exponent() - 1) as nat);
            lemma_pow2_unfold(self.exponent());
            lemma_mul_inequality(0x80_0000, (0x80_0000 + self.fraction()) as int, weight);
            lemma_mul_strict_inequality((0x80_0000 + self.fraction()) as int, 0x100_0000, weight);
            assert(0x100_0000 * weight == 0x80_0000 * (2 * weight)) by (nonlinear_arith);
        }
    }
}

/// Dividing a number of 24 bits by 512 or more leaves less than 32768.
proof fn lemma_quotient_of_24_bits(divisor: int)
    requires
        divisor >= 512,
    ensures
        0xFF_FFFFint / divisor < 32768,
{
    assert(0xFF_FFFFint / divisor < 32768) by (nonlinear_arith)
        requires
            divisor >= 512,
    ;
}

} // verus!
