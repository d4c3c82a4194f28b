//! One rendered line on its way to a display controller.
use crate::color::{pixel_color, Color};
use vstd::prelude::*;

verus! {

/// A rectangle of the display, from column `sx` and row `sy` to column `ex` and row
/// `ey`, and the colours to write to it. What `ex` names, `process_line` of each
/// board tells.
#[derive(Debug, PartialEq, Eq)]
pub struct LineWrite {
    pub sx: u16,
    pub sy: u16,
    pub ex: u16,
    pub ey: u16,
    pub colors: Vec<Color>,
}

/// The colours of a run of pixels.
pub open spec fn colors_of(pixels: Seq<u16>) -> Seq<Color> {
    pixels.map_values(|raw: u16| crate::color::color_of(raw))
}

/// The coordinate that remains when `x` is cut to sixteen bits.
pub open spec fn coordinate_of(x: int) -> int {
    x % 0x1_0000
}

/// Cuts a coordinate to the sixteen bits that a display controller takes.
pub fn coordinate(x: usize) -> (c: u16)
    ensures
        c == coordinate_of(x as int),
        (x - c) % 0x1_0000 == 0,
{
    assert(x as u16 == x % 0x1_0000) by (bit_vector);
    #[verifier::truncate]
    (x as u16)
}

/// The colours of the pixels from `start` up to, but not including, `end`.
pub fn line_colors(buffer: &[u16], start: usize, end: usize) -> (colors: Vec<Color>)
    requires
        start <= end <= buffer@.len(),
    ensures
        colors@ == colors_of(buffer@.subrange(start as int, end as int)),
        colors@.len() == end - start,
        forall|k: int|
            0 <= k < end - start ==> {
                &&& (#[trigger] colors@[k]).r < 32
                &&& colors@[k].g < 64
                &&& colors@[k].b < 32
                &&& colors@[k].r * 2048 + colors@[k].g * 32 + colors@[k].b == buffer@[start + k]
            },
{
    let mut colors: Vec<Color> = Vec::new();
    let mut i: usize = start;
    while i < end
        invariant
            start <= i <= end <= buffer@.len(),
            colors@ == colors_of(buffer@.subrange(start as int, i as int)),
        decreases end - i,
    {
        colors.push(pixel_color(buffer[i]));
        i = i + 1;
        assert(buffer@.subrange(start as int, i as int) == buffer@.subrange(
            start as int,
            i - 1,
        ).push(buffer@[i - 1]));
    }
    proof {
        let run = buffer@.subrange(start as int, end as int);
        assert forall|k: int| 0 <= k < end - start implies {
            &&& (#[trigger] colors@[k]).r < 32
            &&& colors@[k].g < 64
            &&& colors@[k].b < 32
            &&& colors@[k].r * 2048 + colors@[k].g * 32 + colors@[k].b == buffer@[start + k]
        } by {
            assert(run[k] == buffer@[start + k]);
            law_colors_in_column_order(run, k);
        }
    }
    colors
}

/// The colours of a run of pixels stand in the order of its columns: as many as
/// there are pixels, and each has the bits of the pixel in the same place.
pub proof fn law_colors_in_column_order(pixels: Seq<u16>, k: int)
    requires
        0 <= k < pixels.len(),
    ensures
        colors_of(pixels).len() == pixels.len(),
        colors_of(pixels)[k].r < 32,
        colors_of(pixels)[k].g < 64,
        colors_of(pixels)[k].b < 32,
        colors_of(pixels)[k].r * 2048 + colors_of(pixels)[k].g * 32 + colors_of(pixels)[k].b
            == pixels[k],
{
    crate::color::law_channels_are_the_bits(pixels[k]);
}

/// A coordinate loses nothing but multiples of 65536, and nothing at all below that.
pub proof fn law_coordinates_are_cut(x: int)
    ensures
        0 <= coordinate_of(x) < 0x1_0000,
        (x - coordinate_of(x)) % 0x1_0000 == 0,
        0 <= x < 0x1_0000 ==> coordinate_of(x) == x,
{
}

} // verus!
