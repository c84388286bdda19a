//! Colours as bytes and as text: a channel of light cut to the range of a
//! byte, and the three bytes of a pixel written in decimal.

use crate::arithmetic::is_number;
use crate::arithmetic::is_product;
use crate::arithmetic::is_quotient;
use crate::arithmetic::is_square_root;
use crate::arithmetic::Arithmetic;
use crate::scalar::power_of_two;
use crate::scalar::Scalar;
use crate::scalar::FRACTION_RANGE;
use crate::scalar::ONE_BITS;
use crate::vec3::Color;
use crate::vec3::Vec3;
use vstd::arithmetic::power2::lemma2_to64_rest;
use vstd::arithmetic::power2::lemma_pow2_strictly_increases;
use vstd::prelude::*;
use vstd::string::*;

verus! {

/// The pattern of the number 256, to which light is scaled before it is cut
/// down to a byte.
pub const FULL_SCALE_BITS: u64 = 0x4070_0000_0000_0000;

/// The pattern of the number 255, the brightest that a byte holds.
pub const BRIGHTEST_BITS: u64 = 0x406F_E000_0000_0000;

/// The byte of a channel of light that has been scaled to the range from 0
/// to 256: the whole part of the number, but 0 for every number below one,
/// and 255 for every number from 255 on and for what is no number.
pub open spec fn byte_of(x: Scalar) -> u8 {
    if x.nan() || (Scalar { bits: BRIGHTEST_BITS }).le(x) {
        255u8
    } else if x.lt(Scalar { bits: ONE_BITS }) {
        0u8
    } else {
        x.whole_part() as u8
    }
}

/// Cuts a channel of light, scaled to the range from 0 to 256, down to a
/// byte: what lies above is as bright as a byte can be, what lies below is
/// dark, and what is behind the point is dropped.
pub fn to_byte(x: &Scalar) -> (r: u8)
    ensures
        r == byte_of(*x),
{
    if x.is_nan() || Scalar::from_bits(BRIGHTEST_BITS).is_le(x) {
        255
    } else if x.is_lt(&Scalar::one()) {
        0
    } else {
        let pattern: u64 = x.to_bits();
        let exponent: u64 = pattern / FRACTION_RANGE;
        let fraction: u64 = pattern % FRACTION_RANGE;
        let divisor: u64 = power_of_two(1075 - exponent);
        proof {
            lemma2_to64_rest();
            if 1075 - exponent > 45 {
                lemma_pow2_strictly_increases(45, (1075 - exponent) as nat);
            }
        }
        let whole: u64 = (FRACTION_RANGE + fraction) / divisor;
        assert(whole < 256) by (nonlinear_arith)
            requires
                whole == (FRACTION_RANGE + fraction) / (divisor as int),
                FRACTION_RANGE + fraction < 256 * 0x2000_0000_0000,
                0x2000_0000_0000 <= divisor,
        ;
        whole as u8
    }
}

/// The bytes of a pixel whose three channels of light have been scaled to
/// the range from 0 to 256.
pub fn to_bytes(scaled: &Color) -> (r: (u8, u8, u8))
    ensures
        r == (byte_of(scaled.x), byte_of(scaled.y), byte_of(scaled.z)),
{
    (to_byte(&scaled.x), to_byte(&scaled.y), to_byte(&scaled.z))
}

/// Whether `byte` may be the byte of a channel whose samples sum to `light`,
/// where `scale` is one over the number of samples: the mean of the
/// samples, its square root for a gamma of two, times 256, cut down to a
/// byte.
pub open spec fn is_channel_byte<A: Arithmetic>(
    arith: &A,
    light: Scalar,
    scale: Scalar,
    byte: u8,
) -> bool {
    exists|mean: Scalar, gamma: Scalar, scaled: Scalar|
        #![trigger is_square_root(arith, mean, gamma), is_product(arith, Scalar { bits: FULL_SCALE_BITS }, gamma, scaled)]
        is_product(arith, light, scale, mean) && is_square_root(arith, mean, gamma) && is_product(
            arith,
            Scalar { bits: FULL_SCALE_BITS },
            gamma,
            scaled,
        ) && byte == byte_of(scaled)
}

/// Whether `bytes` may be the bytes of a pixel whose samples sum to `sum`.
pub open spec fn is_rgb_bytes<A: Arithmetic>(
    arith: &A,
    sum: Color,
    samples_per_pixel: usize,
    bytes: (u8, u8, u8),
) -> bool {
    exists|count: Scalar, scale: Scalar| #[trigger]
        is_number(arith, samples_per_pixel, count) && #[trigger] is_quotient(
            arith,
            Scalar { bits: ONE_BITS },
            count,
            scale,
        ) && is_channel_byte(arith, sum.x, scale, bytes.0) && is_channel_byte(
            arith,
            sum.y,
            scale,
            bytes.1,
        ) && is_channel_byte(arith, sum.z, scale, bytes.2)
}

/// The byte of a channel whose samples sum to `light`, where `scale` is one
/// over the number of samples.
fn channel_byte<A: Arithmetic>(light: Scalar, scale: Scalar, arith: &A) -> (byte: u8)
    ensures
        is_channel_byte(arith, light, scale, byte),
{
    let mean = arith.product(light, scale);
    let gamma = arith.square_root(mean);
    let scaled = arith.product(Scalar::from_bits(FULL_SCALE_BITS), gamma);
    proof {
        assert(is_square_root(arith, mean, gamma));
        assert(is_product(arith, Scalar { bits: FULL_SCALE_BITS }, gamma, scaled));
    }
    to_byte(&scaled)
}

impl Vec3 {
    /// The bytes of a pixel whose samples sum to this colour: of each
    /// channel the mean of the samples, its square root for a gamma of two,
    /// times 256, cut down to a byte.
    pub fn rgb_bytes<A: Arithmetic>(&self, samples_per_pixel: usize, arith: &A) -> (bytes: (
        u8,
        u8,
        u8,
    ))
        ensures
            is_rgb_bytes(arith, *self, samples_per_pixel, bytes),
    {
        let count = arith.number(samples_per_pixel);
        let scale = arith.quotient(Scalar::one(), count);
        proof {
            assert(is_number(arith, samples_per_pixel, count));
            assert(is_quotient(arith, Scalar { bits: ONE_BITS }, count, scale));
        }
        (
            channel_byte(self.x, scale, arith),
            channel_byte(self.y, scale, arith),
            channel_byte(self.z, scale, arith),
        )
    }

    /// The bytes of a pixel whose samples sum to this colour, as text: red,
    /// green and blue in decimal, with one space between them.
    pub fn rgb<A: Arithmetic>(&self, samples_per_pixel: usize, arith: &A) -> (text: String)
        ensures
            exists|bytes: (u8, u8, u8)| #[trigger]
                is_rgb_bytes(arith, *self, samples_per_pixel, bytes) && text@ == rgb_text(
                    bytes.0,
                    bytes.1,
                    bytes.2,
                ),
    {
        let bytes = self.rgb_bytes(samples_per_pixel, arith);
        rgb_line(bytes.0, bytes.1, bytes.2)
    }
}

/// The character of a decimal digit.
pub open spec fn digit_char(d: nat) -> char {
    if d == 0 {
        '0'
    } else if d == 1 {
        '1'
    } else if d == 2 {
        '2'
    } else if d == 3 {
        '3'
    } else if d == 4 {
        '4'
    } else if d == 5 {
        '5'
    } else if d == 6 {
        '6'
    } else if d == 7 {
        '7'
    } else if d == 8 {
        '8'
    } else {
        '9'
    }
}

/// A number in decimal, without leading zeros.
pub open spec fn decimal_text(n: nat) -> Seq<char>
    decreases n,
{
    if n < 10 {
        seq![digit_char(n)]
    } else {
        decimal_text(n / 10).push(digit_char(n % 10))
    }
}

/// Three bytes in decimal, with one space between them.
pub open spec fn rgb_text(r: u8, g: u8, b: u8) -> Seq<char> {
    decimal_text(r as nat) + seq![' '] + decimal_text(g as nat) + seq![' '] + decimal_text(
        b as nat,
    )
}

/// A decimal digit as text.
fn digit_text(d: u8) -> (r: &'static str)
    requires
        d < 10,
    ensures
        r@ == seq![digit_char(d as nat)],
{
    proof {
        reveal_strlit("0");
        reveal_strlit("1");
        reveal_strlit("2");
        reveal_strlit("3");
        reveal_strlit("4");
        reveal_strlit("5");
        reveal_strlit("6");
        reveal_strlit("7");
        reveal_strlit("8");
        reveal_strlit("9");
    }
    let r = if d == 0 {
        "0"
    } else if d == 1 {
        "1"
    } else if d == 2 {
        "2"
    } else if d == 3 {
        "3"
    } else if d == 4 {
        "4"
    } else if d == 5 {
        "5"
    } else if d == 6 {
        "6"
    } else if d == 7 {
        "7"
    } else if d == 8 {
        "8"
    } else {
        "9"
    };
    assert(r@ =~= seq![digit_char(d as nat)]);
    r
}

/// Writes a byte in decimal behind a text.
fn append_decimal(text: &mut String, n: u8)
    ensures
        final(text)@ == old(text)@ + decimal_text(n as nat),
{
    let ghost start = text@;
    if n >= 100 {
        text.append(digit_text(n / 100));
        text.append(digit_text(n / 10 % 10));
        text.append(digit_text(n % 10));
        assert(decimal_text(n as nat) == decimal_text((n / 10) as nat).push(
            digit_char((n % 10) as nat),
        ));
        assert(decimal_text((n / 10) as nat) == decimal_text((n / 100) as nat).push(
            digit_char((n / 10 % 10) as nat),
        ));
        assert(text@ =~= start + decimal_text(n as nat));
    } else if n >= 10 {
        text.append(digit_text(n / 10));
        text.append(digit_text(n % 10));
        assert(decimal_text(n as nat) == decimal_text((n / 10) as nat).push(
            digit_char((n % 10) as nat),
        ));
        assert(text@ =~= start + decimal_text(n as nat));
    } else {
        text.append(digit_text(n));
        assert(text@ =~= start + decimal_text(n as nat));
    }
}

/// The bytes of a pixel as text: red, green and blue in decimal, with one
/// space between them.
pub fn rgb_line(r: u8, g: u8, b: u8) -> (text: String)
    ensures
        text@ == rgb_text(r, g, b),
{
    proof {
        reveal_strlit(" ");
    }
    let mut text = String::new();
    append_decimal(&mut text, r);
    text.append(" ");
    append_decimal(&mut text, g);
    text.append(" ");
    append_decimal(&mut text, b);
    assert(text@ =~= rgb_text(r, g, b));
    text
}

} // verus!
