//! The colour codec: 16-bit RGB565 values and their 24-bit RGB888 form.
//!
//! A 16-bit colour holds five bits of red, six of green and five of blue.
//! Widening copies each channel into the top of an 8-bit channel and fills
//! the bits below with the channel's own leading bits, so that the darkest
//! and the brightest value of a channel stay the darkest and the brightest.

use embedded_graphics::pixelcolor::raw::RawU16;
use embedded_graphics::pixelcolor::IntoStorage;
use embedded_graphics::pixelcolor::Rgb565;
use embedded_graphics::pixelcolor::Rgb888;
use embedded_graphics::pixelcolor::RgbColor;
use vstd::prelude::*;

verus! {

/// The red channel of a 16-bit colour: bits 11 to 15.
pub open spec fn red5(value: u16) -> u8 {
    ((value >> 11) as u8) & 0x1f
}

/// The green channel of a 16-bit colour: bits 5 to 10.
pub open spec fn green6(value: u16) -> u8 {
    ((value >> 5) as u8) & 0x3f
}

/// The blue channel of a 16-bit colour: bits 0 to 4.
pub open spec fn blue5(value: u16) -> u8 {
    (value as u8) & 0x1f
}

/// A 5-bit channel widened to 8 bits: the five bits, then the top three again.
pub open spec fn replicate5(c: u8) -> u8 {
    (c << 3) | (c >> 2)
}

/// A 6-bit channel widened to 8 bits: the six bits, then the top two again.
pub open spec fn replicate6(c: u8) -> u8 {
    (c << 2) | (c >> 4)
}

/// Three 8-bit channels in one 24-bit value, red highest.
pub open spec fn pack888(r: u8, g: u8, b: u8) -> u32 {
    ((r as u32) << 16) | ((g as u32) << 8) | (b as u32)
}

/// The 24-bit colour that a 16-bit colour widens to.
pub open spec fn widen(value: u16) -> u32 {
    pack888(replicate5(red5(value)), replicate6(green6(value)), replicate5(blue5(value)))
}

/// The 16-bit colour that keeps the leading bits of each channel of a 24-bit
/// colour.
pub open spec fn narrow(rgb: u32) -> u16 {
    ((((rgb >> 19) & 0x1f) << 11) | (((rgb >> 10) & 0x3f) << 5) | ((rgb >> 3) & 0x1f)) as u16
}

/// Calls `Rgb565::from(RawU16::new(value))` of `embedded_graphics` and reads
/// the result's three channels with `r()`, `g()` and `b()`.
///
/// Trusted: that the crate keeps all sixteen bits of the raw value, and that
/// each accessor shifts its channel down and masks it to the channel's width.
#[verifier::external_body]
fn rgb565_channels(value: u16) -> (c: (u8, u8, u8))
    ensures
        c.0 == red5(value),
        c.1 == green6(value),
        c.2 == blue5(value),
{
    let color = Rgb565::from(RawU16::new(value));
    (color.r(), color.g(), color.b())
}

/// Calls `Rgb888::new(r, g, b).into_storage()` of `embedded_graphics`.
///
/// Trusted: that the crate stores red in bits 16 to 23, green in bits 8 to 15
/// and blue in bits 0 to 7, and hands out that value unchanged.
#[verifier::external_body]
fn rgb888_storage(r: u8, g: u8, b: u8) -> (rgb: u32)
    ensures
        rgb == pack888(r, g, b),
{
    Rgb888::new(r, g, b).into_storage()
}

/// Widens a 16-bit colour to 24 bits, channel by channel.
pub fn rgb565_to_rgb888(value: u16) -> (rgb: u32)
    ensures
        rgb == widen(value),
{
    let (r, g, b) = rgb565_channels(value);
    rgb888_storage((r << 3) | (r >> 2), (g << 2) | (g >> 4), (b << 3) | (b >> 2))
}

/// Widening loses nothing: narrowing a widened colour gives the colour back.
pub proof fn lemma_narrow_inverts_widen(value: u16)
    ensures
        narrow(widen(value)) == value,
{
    assert(narrow(widen(value)) == value) by (bit_vector);
}

/// Narrowing does lose something: some 24-bit colour is not what its
/// narrowed form widens to.
pub proof fn lemma_widen_does_not_invert_narrow()
    ensures
        exists|rgb: u32| rgb <= 0xff_ffff && widen(#[trigger] narrow(rgb)) != rgb,
{
    assert(narrow(0x01_0101u32) == 0 && widen(0u16) == 0) by (bit_vector);
}

} // verus!
