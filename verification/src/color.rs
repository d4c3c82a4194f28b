//! Sixteen-bit colours: five bits of red, six of green, five of blue.
use embedded_graphics::pixelcolor::raw::RawU16;
use embedded_graphics::pixelcolor::{Rgb565, RgbColor};
use vstd::prelude::*;

verus! {

/// The three channels of a sixteen-bit colour.
#[derive(Clone, Copy, Debug, PartialEq, Eq, Structural)]
pub struct Color {
    pub r: u8,
    pub g: u8,
    pub b: u8,
}

impl Color {
    /// Every channel fits the bits that the pixel format gives it.
    pub open spec fn wf(self) -> bool {
        self.r < 32 && self.g < 64 && self.b < 32
    }

    /// The sixteen bits of the colour: red on top, blue at the bottom.
    pub open spec fn raw(self) -> int {
        self.r * 2048 + self.g * 32 + self.b
    }
}

/// The colour whose sixteen bits are `raw`.
pub open spec fn color_of(raw: u16) -> Color {
    Color { r: (raw / 2048) as u8, g: ((raw / 32) % 64) as u8, b: (raw % 32) as u8 }
}

/// Converts an `embedded_graphics` `RawU16` into an `Rgb565` and reads its
/// channels: red is the top five bits, green the six below, blue the lowest five.
#[verifier::external_body]
fn rgb565_from_raw(raw: u16) -> (rgb: (u8, u8, u8))
    ensures
        rgb.0 == raw / 2048,
        rgb.1 == (raw / 32) % 64,
        rgb.2 == raw % 32,
{
    let color: Rgb565 = RawU16::new(raw).into();
    (color.r(), color.g(), color.b())
}

/// The colour of one pixel of a line buffer.
pub fn pixel_color(raw: u16) -> (color: Color)
    ensures
        color == color_of(raw),
        color.wf(),
        color.raw() == raw,
        color.r < 32 && color.g < 64 && color.b < 32,
        color.r * 2048 + color.g * 32 + color.b == raw,
{
    let (r, g, b) = rgb565_from_raw(raw);
    Color { r, g, b }
}

/// No bit of a pixel is lost: its sixteen bits can be read back from its channels.
pub proof fn law_color_keeps_all_bits(raw: u16)
    ensures
        color_of(raw).wf(),
        color_of(raw).raw() == raw,
{
}

/// The channels of a pixel are its bits: five of red on top, then six of green, then
/// five of blue.
pub proof fn law_channels_are_the_bits(raw: u16)
    ensures
        color_of(raw).r < 32,
        color_of(raw).g < 64,
        color_of(raw).b < 32,
        color_of(raw).r * 2048 + color_of(raw).g * 32 + color_of(raw).b == raw,
{
}

/// Pixels with different bits have different colours.
pub proof fn law_color_injective(a: u16, b: u16)
    requires
        color_of(a) == color_of(b),
    ensures
        a == b,
{
    law_color_keeps_all_bits(a);
    law_color_keeps_all_bits(b);
}

} // verus!
