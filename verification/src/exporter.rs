//! Byte-exact encoders for the two output formats.
//!
//! A render is delivered as either a plain-text PPM stream or a binary
//! BMP file. Everything that decides which bytes appear — decimal
//! rendering of dimensions and channel values, the fixed PPM header, the
//! 54-byte BMP header with its little-endian fields and negated height —
//! is computed and proved here. Writing the bytes to a file is left to
//! the unverified edge of the renderer.

use vstd::prelude::*;

verus! {

/// The ASCII digit for `d`.
pub open spec fn ascii_digit(d: int) -> u8 {
    (48 + d) as u8
}

/// The shortest decimal rendering of `n`, as ASCII bytes.
pub open spec fn decimal(n: nat) -> Seq<u8>
    decreases n,
{
    if n < 10 {
        seq![ascii_digit(n as int)]
    } else {
        decimal(n / 10).push(ascii_digit((n % 10) as int))
    }
}

/// A decimal rendering is never empty and holds ASCII digits only, so
/// every PPM header and pixel line is plain ASCII text.
pub proof fn lemma_decimal_is_ascii(n: nat)
    ensures
        decimal(n).len() >= 1,
        forall|k: int| 0 <= k < decimal(n).len() ==> 48 <= #[trigger] decimal(n)[k] <= 57,
    decreases n,
{
    if n >= 10 {
        lemma_decimal_is_ascii(n / 10);
    }
}

/// Appends the decimal rendering of `n` to `out`.
pub fn push_decimal(out: &mut Vec<u8>, n: u32)
    ensures
        final(out)@ == old(out)@ + decimal(n as nat),
    decreases n,
{
    if n >= 10 {
        push_decimal(out, n / 10);
    }
    out.push(48 + (n % 10) as u8);
    proof {
        if n < 10 {
            assert(old(out)@ + decimal(n as nat) =~= old(out)@.push(ascii_digit(n as int)));
        } else {
            assert(old(out)@ + decimal(n as nat) =~= (old(out)@ + decimal((n / 10) as nat)).push(
                ascii_digit((n % 10) as int),
            ));
        }
    }
}

/// The PPM header: `P3`, the image dimensions, and the maximum channel
/// value `255`, each line ended by a newline.
pub open spec fn ppm_header_spec(width: int, height: int) -> Seq<u8> {
    seq![80u8, 51u8, 10u8] + decimal(width as nat) + seq![32u8] + decimal(height as nat)
        + seq![10u8, 50u8, 53u8, 53u8, 10u8]
}

/// Encodes the PPM header for an image of the given dimensions.
pub fn ppm_header(width: i32, height: i32) -> (r: Vec<u8>)
    requires
        0 <= width,
        0 <= height,
    ensures
        r@ == ppm_header_spec(width as int, height as int),
{
    let mut out: Vec<u8> = Vec::new();
    out.push(80);
    out.push(51);
    out.push(10);
    push_decimal(&mut out, width as u32);
    out.push(32);
    push_decimal(&mut out, height as u32);
    out.push(10);
    out.push(50);
    out.push(53);
    out.push(53);
    out.push(10);
    proof {
        assert(out@ =~= ppm_header_spec(width as int, height as int));
    }
    out
}

/// One PPM pixel: the three channel values in decimal, separated by
/// spaces and ended by a newline.
pub open spec fn ppm_pixel_spec(r: int, g: int, b: int) -> Seq<u8> {
    decimal(r as nat) + seq![32u8] + decimal(g as nat) + seq![32u8] + decimal(b as nat)
        + seq![10u8]
}

/// Encodes one PPM pixel from its three 8-bit channels.
pub fn ppm_pixel(r: u8, g: u8, b: u8) -> (line: Vec<u8>)
    ensures
        line@ == ppm_pixel_spec(r as int, g as int, b as int),
{
    let mut out: Vec<u8> = Vec::new();
    push_decimal(&mut out, r as u32);
    out.push(32);
    push_decimal(&mut out, g as u32);
    out.push(32);
    push_decimal(&mut out, b as u32);
    out.push(10);
    proof {
        assert(out@ =~= ppm_pixel_spec(r as int, g as int, b as int));
    }
    out
}

/// The four bytes of `v` in little-endian order: byte `i` is digit `i` of
/// `v` in base 256.
pub open spec fn le32(v: u32) -> Seq<u8> {
    seq![
        (v as int % 256) as u8,
        (v as int / 256 % 256) as u8,
        (v as int / 65536 % 256) as u8,
        (v as int / 16777216 % 256) as u8,
    ]
}

/// The two bytes of `v` in little-endian order.
pub open spec fn le16(v: u16) -> Seq<u8> {
    seq![(v as int % 256) as u8, (v as int / 256 % 256) as u8]
}

/// The little-endian bytes of `v` read back as a number: little-endian
/// encoding loses nothing.
pub proof fn lemma_le32_value(v: u32)
    ensures
        le32(v)[0] + 256 * le32(v)[1] + 65536 * le32(v)[2] + 16777216 * le32(v)[3] == v,
{
    assert(v as int % 256 + 256 * (v as int / 256 % 256) + 65536 * (v as int / 65536 % 256)
        + 16777216 * (v as int / 16777216 % 256) == v) by (bit_vector);
}

/// Appends the four little-endian bytes of `v` to `out`.
pub fn push_le32(out: &mut Vec<u8>, v: u32)
    ensures
        final(out)@ == old(out)@ + le32(v),
{
    out.push((v % 256) as u8);
    out.push((v / 256 % 256) as u8);
    out.push((v / 65536 % 256) as u8);
    out.push((v / 16777216 % 256) as u8);
    proof {
        assert(out@ =~= old(out)@ + le32(v));
    }
}

/// Appends the two little-endian bytes of `v` to `out`.
pub fn push_le16(out: &mut Vec<u8>, v: u16)
    ensures
        final(out)@ == old(out)@ + le16(v),
{
    out.push((v % 256) as u8);
    out.push((v / 256 % 256) as u8);
    proof {
        assert(out@ =~= old(out)@ + le16(v));
    }
}

/// The two's-complement 32-bit pattern of `v`, for `v` of either sign.
pub open spec fn to_u32_bits(v: int) -> u32 {
    (v % 0x1_0000_0000) as u32
}

/// The 54-byte BMP header: `BM`, file size, reserved word, pixel-data
/// offset, then the 40-byte info header — its own size, the width, the
/// height stored negated to mark top-down row order, one plane, 24 bits
/// per pixel, no compression, a nominal resolution, and no palette.
pub open spec fn bmp_header_spec(width: int, height: int) -> Seq<u8> {
    seq![66u8, 77u8] + le32(0x38) + le32(0) + le32(0x36) + le32(0x28) + le32(to_u32_bits(width))
        + le32(to_u32_bits(-height)) + le16(1) + le16(24) + le32(0) + le32(0) + le32(0x2e23)
        + le32(0x2e23) + le32(0) + le32(0)
}

/// Encodes the BMP file and info headers for an image of the given
/// dimensions.
pub fn bmp_header(width: i32, height: i32) -> (r: Vec<u8>)
    requires
        0 <= width,
        0 <= height,
    ensures
        r@ == bmp_header_spec(width as int, height as int),
        r@.len() == 54,
{
    let mut out: Vec<u8> = Vec::new();
    out.push(66);
    out.push(77);
    push_le32(&mut out, 0x38);
    push_le32(&mut out, 0);
    push_le32(&mut out, 0x36);
    push_le32(&mut out, 0x28);
    proof {
        vstd::arithmetic::div_mod::lemma_small_mod(width as nat, 0x1_0000_0000nat);
    }
    push_le32(&mut out, width as u32);
    let neg_height: u32 = (((0x1_0000_0000u64 - height as u64) % 0x1_0000_0000u64) as u32);
    proof {
        lemma_neg_height_bits(height);
    }
    push_le32(&mut out, neg_height);
    push_le16(&mut out, 1);
    push_le16(&mut out, 24);
    push_le32(&mut out, 0);
    push_le32(&mut out, 0);
    push_le32(&mut out, 0x2e23);
    push_le32(&mut out, 0x2e23);
    push_le32(&mut out, 0);
    push_le32(&mut out, 0);
    proof {
        assert(out@ =~= bmp_header_spec(width as int, height as int));
    }
    out
}

/// The wrapped subtraction used to negate the height matches the
/// two's-complement bit pattern of `-height`.
proof fn lemma_neg_height_bits(height: i32)
    requires
        0 <= height,
    ensures
        (((0x1_0000_0000 - height as int) % 0x1_0000_0000) as u32) == to_u32_bits(
            -(height as int),
        ),
{
    let h = height as int;
    let m = 0x1_0000_0000;
    vstd::arithmetic::div_mod::lemma_mod_add_multiples_vanish(-h, m);
    if h == 0 {
        vstd::arithmetic::div_mod::lemma_mod_self_0(m);
    } else {
        vstd::arithmetic::div_mod::lemma_small_mod((m - h) as nat, m as nat);
    }
}

/// One BMP pixel: the three 8-bit channels in the order the renderer
/// writes them.
pub fn bmp_pixel(r: u8, g: u8, b: u8) -> (bytes: Vec<u8>)
    ensures
        bytes@ == seq![r, g, b],
{
    let mut out: Vec<u8> = Vec::new();
    out.push(r);
    out.push(g);
    out.push(b);
    proof {
        assert(out@ =~= seq![r, g, b]);
    }
    out
}

} // verus!
