//! Color layouts and the pure conversions between them.
//!
//! A color carries its logical red, green and blue intensities at the channel
//! widths of one named layout: 8 bits per channel for the `888` layouts,
//! 5/6/5 bits for the packed `565` layouts.  Conversions widen a channel by
//! replicating its high bits (so full intensity stays full intensity) and
//! narrow one by truncating its low bits.

use vstd::prelude::*;

verus! {

/// The four supported channel layouts.
#[derive(Clone, Copy, PartialEq, Eq, Structural, Debug)]
pub enum ColorLayout {
    Rgb888,
    Bgr888,
    Rgb565,
    Bgr565,
}

/// A color value: channel intensities stored at the widths of one layout.
///
/// Well-formed values (see [`Color::wf`]) keep each channel within its
/// layout's width; the `888` layouts use the full `u8` range, the `565`
/// layouts keep red and blue below 32 and green below 64.
#[derive(Clone, Copy, PartialEq, Eq, Structural, Debug)]
pub enum Color {
    Rgb888 { r: u8, g: u8, b: u8 },
    Bgr888 { b: u8, g: u8, r: u8 },
    Rgb565 { r: u8, g: u8, b: u8 },
    Bgr565 { b: u8, g: u8, r: u8 },
}

/// Widening of a 5-bit channel to 8 bits: shift up and replicate the top
/// bits into the freed positions.
pub open spec fn spec_widen5(x: u8) -> u8 {
    (x << 3) | (x >> 2)
}

/// Widening of a 6-bit channel to 8 bits.
pub open spec fn spec_widen6(x: u8) -> u8 {
    (x << 2) | (x >> 4)
}

/// Narrowing of an 8-bit channel to 5 bits: truncate the low bits.
pub open spec fn spec_narrow5(x: u8) -> u8 {
    x >> 3
}

/// Narrowing of an 8-bit channel to 6 bits.
pub open spec fn spec_narrow6(x: u8) -> u8 {
    x >> 2
}

impl Color {
    /// The layout tag of this value.
    pub open spec fn layout(self) -> ColorLayout {
        match self {
            Color::Rgb888 { .. } => ColorLayout::Rgb888,
            Color::Bgr888 { .. } => ColorLayout::Bgr888,
            Color::Rgb565 { .. } => ColorLayout::Rgb565,
            Color::Bgr565 { .. } => ColorLayout::Bgr565,
        }
    }

    /// Each stored channel fits the width its layout gives it.
    pub open spec fn wf(self) -> bool {
        match self {
            Color::Rgb888 { .. } => true,
            Color::Bgr888 { .. } => true,
            Color::Rgb565 { r, g, b } => r < 32 && g < 64 && b < 32,
            Color::Bgr565 { b, g, r } => r < 32 && g < 64 && b < 32,
        }
    }

    /// The red intensity at 8-bit width.
    pub open spec fn spec_r8(self) -> u8 {
        match self {
            Color::Rgb888 { r, .. } => r,
            Color::Bgr888 { r, .. } => r,
            Color::Rgb565 { r, .. } => spec_widen5(r),
            Color::Bgr565 { r, .. } => spec_widen5(r),
        }
    }

    /// The green intensity at 8-bit width.
    pub open spec fn spec_g8(self) -> u8 {
        match self {
            Color::Rgb888 { g, .. } => g,
            Color::Bgr888 { g, .. } => g,
            Color::Rgb565 { g, .. } => spec_widen6(g),
            Color::Bgr565 { g, .. } => spec_widen6(g),
        }
    }

    /// The blue intensity at 8-bit width.
    pub open spec fn spec_b8(self) -> u8 {
        match self {
            Color::Rgb888 { b, .. } => b,
            Color::Bgr888 { b, .. } => b,
            Color::Rgb565 { b, .. } => spec_widen5(b),
            Color::Bgr565 { b, .. } => spec_widen5(b),
        }
    }

    /// The red intensity at 5-bit width.
    pub open spec fn spec_r5(self) -> u8 {
        match self {
            Color::Rgb888 { r, .. } => spec_narrow5(r),
            Color::Bgr888 { r, .. } => spec_narrow5(r),
            Color::Rgb565 { r, .. } => r,
            Color::Bgr565 { r, .. } => r,
        }
    }

    /// The green intensity at 6-bit width.
    pub open spec fn spec_g6(self) -> u8 {
        match self {
            Color::Rgb888 { g, .. } => spec_narrow6(g),
            Color::Bgr888 { g, .. } => spec_narrow6(g),
            Color::Rgb565 { g, .. } => g,
            Color::Bgr565 { g, .. } => g,
        }
    }

    /// The blue intensity at 5-bit width.
    pub open spec fn spec_b5(self) -> u8 {
        match self {
            Color::Rgb888 { b, .. } => spec_narrow5(b),
            Color::Bgr888 { b, .. } => spec_narrow5(b),
            Color::Rgb565 { b, .. } => b,
            Color::Bgr565 { b, .. } => b,
        }
    }
}

/// The conversion of `c` into layout `target`: logical channels are kept,
/// widened by bit replication or narrowed by truncation as the target's
/// channel widths demand.  Every layout pair has a defined conversion.
pub open spec fn spec_convert(c: Color, target: ColorLayout) -> Color {
    match target {
        ColorLayout::Rgb888 => Color::Rgb888 { r: c.spec_r8(), g: c.spec_g8(), b: c.spec_b8() },
        ColorLayout::Bgr888 => Color::Bgr888 { b: c.spec_b8(), g: c.spec_g8(), r: c.spec_r8() },
        ColorLayout::Rgb565 => Color::Rgb565 { r: c.spec_r5(), g: c.spec_g6(), b: c.spec_b5() },
        ColorLayout::Bgr565 => Color::Bgr565 { b: c.spec_b5(), g: c.spec_g6(), r: c.spec_r5() },
    }
}

impl Color {
    /// An 8-bit-per-channel RGB color from its red, green, blue intensities.
    pub fn rgb888(r: u8, g: u8, b: u8) -> (c: Color)
        ensures
            c == (Color::Rgb888 { r, g, b }),
            c.wf(),
    {
        Color::Rgb888 { r, g, b }
    }

    /// An 8-bit-per-channel BGR color; arguments follow the layout's
    /// channel order (blue first).
    pub fn bgr888(b: u8, g: u8, r: u8) -> (c: Color)
        ensures
            c == (Color::Bgr888 { b, g, r }),
            c.wf(),
    {
        Color::Bgr888 { b, g, r }
    }

    /// A 5/6/5 packed RGB color from channels already at 5/6/5-bit width.
    pub fn rgb565(r: u8, g: u8, b: u8) -> (c: Color)
        requires
            r < 32,
            g < 64,
            b < 32,
        ensures
            c == (Color::Rgb565 { r, g, b }),
            c.wf(),
    {
        Color::Rgb565 { r, g, b }
    }

    /// A 5/6/5 packed BGR color; arguments follow the layout's channel
    /// order (blue first).
    pub fn bgr565(b: u8, g: u8, r: u8) -> (c: Color)
        requires
            r < 32,
            g < 64,
            b < 32,
        ensures
            c == (Color::Bgr565 { b, g, r }),
            c.wf(),
    {
        Color::Bgr565 { b, g, r }
    }

    /// The logical channels widened to 8 bits, as (red, green, blue).
    pub fn channels8(&self) -> (t: (u8, u8, u8))
        ensures
            t.0 == self.spec_r8(),
            t.1 == self.spec_g8(),
            t.2 == self.spec_b8(),
    {
        match *self {
            Color::Rgb888 { r, g, b } => (r, g, b),
            Color::Bgr888 { b, g, r } => (r, g, b),
            Color::Rgb565 { r, g, b } => ((r << 3) | (r >> 2), (g << 2) | (g >> 4), (b << 3) | (b >> 2)),
            Color::Bgr565 { b, g, r } => ((r << 3) | (r >> 2), (g << 2) | (g >> 4), (b << 3) | (b >> 2)),
        }
    }

    /// The logical channels narrowed to 5/6/5 bits, as (red, green, blue).
    pub fn channels565(&self) -> (t: (u8, u8, u8))
        ensures
            t.0 == self.spec_r5(),
            t.1 == self.spec_g6(),
            t.2 == self.spec_b5(),
    {
        match *self {
            Color::Rgb888 { r, g, b } => (r >> 3, g >> 2, b >> 3),
            Color::Bgr888 { b, g, r } => (r >> 3, g >> 2, b >> 3),
            Color::Rgb565 { r, g, b } => (r, g, b),
            Color::Bgr565 { b, g, r } => (r, g, b),
        }
    }

    /// Converts this color into `target`'s layout.
    pub fn convert(&self, target: ColorLayout) -> (c: Color)
        ensures
            c == spec_convert(*self, target),
            self.wf() ==> c.wf(),
    {
        proof {
            if self.wf() {
                lemma_convert_wf(*self, target);
            }
        }
        match target {
            ColorLayout::Rgb888 => {
                let (r, g, b) = self.channels8();
                Color::Rgb888 { r, g, b }
            },
            ColorLayout::Bgr888 => {
                let (r, g, b) = self.channels8();
                Color::Bgr888 { b, g, r }
            },
            ColorLayout::Rgb565 => {
                let (r, g, b) = self.channels565();
                Color::Rgb565 { r, g, b }
            },
            ColorLayout::Bgr565 => {
                let (r, g, b) = self.channels565();
                Color::Bgr565 { b, g, r }
            },
        }
    }
}

/// The per-channel bit widths of a layout, as (red, green, blue).
pub open spec fn channel_widths(l: ColorLayout) -> (int, int, int) {
    match l {
        ColorLayout::Rgb888 => (8int, 8int, 8int),
        ColorLayout::Bgr888 => (8int, 8int, 8int),
        ColorLayout::Rgb565 => (5int, 6int, 5int),
        ColorLayout::Bgr565 => (5int, 6int, 5int),
    }
}

/// Every channel of layout `a` is at most as wide as the same channel of
/// layout `b`.
pub open spec fn widths_le(a: ColorLayout, b: ColorLayout) -> bool {
    channel_widths(a).0 <= channel_widths(b).0
        && channel_widths(a).1 <= channel_widths(b).1
        && channel_widths(a).2 <= channel_widths(b).2
}

/// Conversion preserves well-formedness.
pub proof fn lemma_convert_wf(c: Color, target: ColorLayout)
    requires
        c.wf(),
    ensures
        spec_convert(c, target).wf(),
{
    assert(forall|x: u8| #[trigger] spec_narrow5(x) < 32) by (bit_vector);
    assert(forall|x: u8| #[trigger] spec_narrow6(x) < 64) by (bit_vector);
}

/// Round trips through an equal-or-wider layout are lossless: converting a
/// well-formed color from layout `A` into layout `B` and back yields the
/// original value whenever each of `A`'s channel widths is at most `B`'s.
pub proof fn lemma_convert_round_trip(c: Color, target: ColorLayout)
    requires
        c.wf(),
        widths_le(c.layout(), target),
    ensures
        spec_convert(spec_convert(c, target), c.layout()) == c,
{
    assert(forall|x: u8| x < 32 ==> #[trigger] spec_narrow5(spec_widen5(x)) == x) by (bit_vector);
    assert(forall|x: u8| x < 64 ==> #[trigger] spec_narrow6(spec_widen6(x)) == x) by (bit_vector);
}

} // verus!
