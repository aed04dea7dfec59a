//! Colours: vectors whose components are red, green and blue, and the line
//! of text that a pixel becomes in the image.

use crate::decimal::{lemma_decimal_chars, push_decimal, spec_decimal};
use crate::interval::Interval;
use crate::scalar::{Scalar, HIDDEN_BIT};
use crate::vec3::Vec3;
use vstd::arithmetic::power2::{
    lemma2_to64, lemma2_to64_rest, lemma_pow2_pos, lemma_pow2_strictly_increases, pow2,
};
use vstd::prelude::*;
use vstd::string::StringExecFns;

verus! {

/// A colour `(red, green, blue)`, each channel a double; 0 is dark and 1 is
/// full intensity.
pub type Color = Vec3;

/// Encoding of `0.999`, the greatest intensity of a channel. Scaled by 256
/// and cut to an integer it gives 255, the greatest value of the image format.
pub const INTENSITY_MAX_BITS: u64 = 0x3FEF_F7CE_D916_872B;

/// Encoding of `0.5`, the red of the sky overhead.
pub const SKY_RED_BITS: u64 = 0x3FE0_0000_0000_0000;

/// Encoding of `0.7`, the green of the sky overhead.
pub const SKY_GREEN_BITS: u64 = 0x3FE6_6666_6666_6666;

/// Black: no light in any channel.
pub open spec fn spec_black() -> Color {
    Vec3::spec_zero()
}

/// White: every channel at `1.0`.
pub open spec fn spec_white() -> Color {
    Vec3 { e: (Scalar::spec_one(), Scalar::spec_one(), Scalar::spec_one()) }
}

/// Black.
pub fn black() -> (c: Color)
    ensures
        c == spec_black(),
{
    Vec3::new(Scalar::zero(), Scalar::zero(), Scalar::zero())
}

/// White.
pub fn white() -> (c: Color)
    ensures
        c == spec_white(),
{
    Vec3::new(Scalar::one(), Scalar::one(), Scalar::one())
}

/// The light blue of the sky overhead, `(0.5, 0.7, 1.0)`. A ray that leaves
/// the scene brings a blend of white and this blue, the bluer the more it
/// points upwards.
pub fn sky_blue() -> (c: Color)
    ensures
        c.e.0.bits == SKY_RED_BITS,
        c.e.1.bits == SKY_GREEN_BITS,
        c.e.2 == Scalar::spec_one(),
{
    Vec3::new(Scalar::from_bits(SKY_RED_BITS), Scalar::from_bits(SKY_GREEN_BITS), Scalar::one())
}

/// The line of a pixel in the image: its three channels in decimal, a space
/// between them and a line break after them.
pub open spec fn spec_pixel_line(red: int, green: int, blue: int) -> Seq<char> {
    spec_decimal(red) + seq![' '] + spec_decimal(green) + seq![' '] + spec_decimal(blue) + seq![
        '\n',
    ]
}

/// A pixel takes exactly one line: its text ends in a line break and holds no
/// other.
pub proof fn lemma_pixel_line_is_one_line(red: int, green: int, blue: int)
    ensures
        spec_pixel_line(red, green, blue).len() >= 6,
        spec_pixel_line(red, green, blue).last() == '\n',
        forall|i: int|
            0 <= i < spec_pixel_line(red, green, blue).len() - 1 ==> #[trigger] spec_pixel_line(
                red,
                green,
                blue,
            )[i] != '\n',
{
    lemma_decimal_chars(red);
    lemma_decimal_chars(green);
    lemma_decimal_chars(blue);
    let r = spec_decimal(red);
    let g = spec_decimal(green);
    let b = spec_decimal(blue);
    let line = spec_pixel_line(red, green, blue);
    assert forall|i: int| 0 <= i < line.len() - 1 implies #[trigger] line[i] != '\n' by {
        if i < r.len() {
            assert(line[i] == r[i]);
        } else if i == r.len() {
            assert(line[i] == ' ');
        } else if i < r.len() + 1 + g.len() {
            assert(line[i] == g[i - r.len() - 1]);
        } else if i == r.len() + 1 + g.len() {
            assert(line[i] == ' ');
        } else {
            assert(line[i] == b[i - r.len() - g.len() - 2]);
        }
    }
}

/// The whole part of `significand * 2^exponent`, for a significand that is
/// not negative.
pub open spec fn spec_whole_part(significand: int, exponent: int) -> int {
    if exponent >= 0 {
        significand * pow2(exponent as nat)
    } else {
        significand / (pow2((-exponent) as nat) as int)
    }
}

/// The value of a colour channel in the image: 256 times the intensity `x`,
/// cut to an integer towards zero; what does not fit an `i32` becomes the
/// nearest one that does, and a NaN becomes 0. Scaling a double by 256 is
/// exact, so this is what `(256.0 * x) as i32` computes.
pub open spec fn spec_channel(x: Scalar) -> int {
    if x.spec_is_nan() {
        0
    } else {
        let whole = spec_whole_part(x.significand(), x.exponent() + 8);
        if x.negative() {
            if whole > 0x8000_0000 {
                -0x8000_0000
            } else {
                -whole
            }
        } else {
            if whole > 0x7fff_ffff {
                0x7fff_ffff
            } else {
                whole
            }
        }
    }
}

/// An intensity from 0 to `0.999` becomes a channel value from 0 to 255.
pub proof fn lemma_channel_of_intensity(x: Scalar)
    requires
        Scalar::spec_zero().spec_le(x),
        x.spec_le(Scalar { bits: INTENSITY_MAX_BITS }),
    ensures
        0 <= spec_channel(x) <= 255,
{
    lemma2_to64();
    lemma2_to64_rest();
    let field = x.magnitude() / (HIDDEN_BIT as int);
    let frac = x.magnitude() % (HIDDEN_BIT as int);
    assert(field <= 1022);
    if field == 0 {
        lemma_pow2_strictly_increases(52, 1066);
        vstd::arithmetic::div_mod::lemma_small_div_converse(frac, pow2(1066) as int);
        assert(frac / (pow2(1066) as int) == 0) by {
            vstd::arithmetic::div_mod::lemma_basic_div(frac, pow2(1066) as int);
        }
    } else {
        let shift = (1067 - field) as nat;
        let sig = HIDDEN_BIT + frac;
        assert(shift >= 45);
        lemma_pow2_pos(shift);
        if shift > 45 {
            lemma_pow2_strictly_increases(45, shift);
        }
        assert(pow2(45) == 0x2000_0000_0000);
        assert(sig < 256 * 0x2000_0000_0000);
        assert(0 <= sig / (pow2(shift) as int) <= 255) by (nonlinear_arith)
            requires
                0 <= sig < 256 * 0x2000_0000_0000,
                pow2(shift) >= 0x2000_0000_0000,
        ;
    }
}

/// The value of a colour channel in the image, from its intensity.
pub fn channel(x: Scalar) -> (value: i32)
    ensures
        value == spec_channel(x),
{
    if x.is_nan() {
        return 0;
    }
    proof {
        lemma2_to64();
        lemma2_to64_rest();
    }
    let magnitude: u64 = x.abs().bits;
    let field: u64 = magnitude / HIDDEN_BIT;
    let frac: u64 = magnitude % HIDDEN_BIT;
    if field == 0 {
        proof {
            lemma_pow2_strictly_increases(52, 1066);
            vstd::arithmetic::div_mod::lemma_basic_div(frac as int, pow2(1066) as int);
        }
        return 0;
    }
    let significand: u64 = HIDDEN_BIT + frac;
    if field >= 1067 {
        proof {
            let k = (field - 1067) as nat;
            lemma_pow2_pos(k);
            assert(significand * pow2(k) >= significand) by (nonlinear_arith)
                requires
                    significand >= 0,
                    pow2(k) >= 1,
            ;
        }
        return if x.is_sign_negative() {
            -0x8000_0000
        } else {
            0x7fff_ffff
        };
    }
    let shift: u64 = 1067 - field;
    if shift >= 53 {
        proof {
            if shift > 53 {
                lemma_pow2_strictly_increases(53, shift as nat);
            }
            vstd::arithmetic::div_mod::lemma_basic_div(significand as int, pow2(shift as nat) as int);
        }
        return 0;
    }
    let whole: u64 = significand >> shift;
    proof {
        vstd::bits::lemma_u64_shr_is_div(significand, shift);
    }
    if x.is_sign_negative() {
        if whole > 0x8000_0000 {
            -0x8000_0000
        } else {
            (-(whole as i64)) as i32
        }
    } else {
        if whole > 0x7fff_ffff {
            0x7fff_ffff
        } else {
            whole as i32
        }
    }
}

/// The range of a colour channel on its way into the image: from 0 to
/// `0.999`.
pub open spec fn spec_intensity() -> Interval {
    Interval { min: Scalar { bits: 0 }, max: Scalar { bits: INTENSITY_MAX_BITS } }
}

/// The value in the image of a channel with gamma-corrected intensity `x`:
/// `x` is brought into the range from 0 to `0.999` and scaled to an integer.
pub open spec fn spec_pixel_channel(x: Scalar) -> int {
    spec_channel(spec_intensity().spec_clamp(x))
}

/// Whatever the intensity, the channel's value in the image lies between 0
/// and 255.
pub proof fn lemma_pixel_channel_is_a_byte(x: Scalar)
    ensures
        0 <= spec_pixel_channel(x) <= 255,
{
    let clamped = spec_intensity().spec_clamp(x);
    if !clamped.spec_is_nan() {
        lemma_channel_of_intensity(clamped);
    }
}

/// The range of a colour channel on its way into the image.
pub fn intensity() -> (range: Interval)
    ensures
        range == spec_intensity(),
{
    Interval::new_val(Scalar::zero(), Scalar::from_bits(INTENSITY_MAX_BITS))
}

/// Appends the line of a pixel to `out`. `pixel_color` is the colour of the
/// pixel after averaging and gamma correction; each of its channels is
/// brought into the range from 0 to `0.999`, scaled to an integer from 0 to
/// 255 and written in decimal.
pub fn write_color(out: &mut String, pixel_color: &Color)
    ensures
        final(out)@ == old(out)@ + spec_pixel_line(
            spec_pixel_channel(pixel_color.e.0),
            spec_pixel_channel(pixel_color.e.1),
            spec_pixel_channel(pixel_color.e.2),
        ),
{
    proof {
        reveal_strlit(" ");
        reveal_strlit("\n");
    }
    let range = intensity();
    let red = channel(range.clamp(pixel_color.x()));
    let green = channel(range.clamp(pixel_color.y()));
    let blue = channel(range.clamp(pixel_color.z()));
    push_decimal(out, red);
    out.append(" ");
    push_decimal(out, green);
    out.append(" ");
    push_decimal(out, blue);
    out.append("\n");
    assert(out@ =~= old(out)@ + spec_pixel_line(red as int, green as int, blue as int));
}

} // verus!
