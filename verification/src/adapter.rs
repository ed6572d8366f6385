//! The framebuffer drawing adapter: bounds-checked single-pixel writes and
//! a full-surface clear, dispatched on a runtime pixel format descriptor.
//!
//! The adapter never owns the framebuffer; every drawing call borrows the
//! byte region for its own duration.  A pixel occupies 4 bytes at offset
//! `(y * stride + x) * 4`; only the two direct formats have a CPU-side
//! write path, the others are cleared through the platform's block-fill
//! primitive (the caller performs that call when [`DisplayAdapter::clear`]
//! asks for it).

use vstd::arithmetic::div_mod::{
    lemma_fundamental_div_mod, lemma_fundamental_div_mod_converse_div,
    lemma_fundamental_div_mod_converse_mod, lemma_div_pos_is_pos, lemma_mod_bound,
};
use vstd::prelude::*;

use crate::color::Color;
use crate::descriptor::{GraphicsError, PixelFormat, PixelFormatDescriptor};

verus! {

/// An integer coordinate in adapter space.  It may be negative or lie
/// outside the surface; every write is bounds-checked first.
#[derive(Clone, Copy, PartialEq, Eq, Structural, Debug)]
pub struct Point {
    pub x: i32,
    pub y: i32,
}

/// What a [`DisplayAdapter::clear`] call did: `Filled` means the adapter
/// wrote the surface itself; `HardwareFill` means the format has no direct
/// write path and the caller must delegate to the platform's
/// hardware-accelerated block-fill primitive.
#[derive(Clone, Copy, PartialEq, Eq, Structural, Debug)]
pub enum ClearOutcome {
    Filled,
    HardwareFill,
}

/// The drawing adapter: a pixel format descriptor, fixed for the
/// adapter's lifetime.  A mode change requires a new descriptor and a new
/// adapter.
#[derive(Clone, Copy, PartialEq, Eq, Structural, Debug)]
pub struct DisplayAdapter {
    pub desc: PixelFormatDescriptor,
}

/// The format has a CPU-side per-pixel write path.
pub open spec fn has_direct_path(fmt: PixelFormat) -> bool {
    fmt is DirectRgb || fmt is DirectBgr
}

/// The point lies on the visible surface.
pub open spec fn spec_in_bounds(desc: PixelFormatDescriptor, p: Point) -> bool {
    0 <= p.x < desc.width && 0 <= p.y < desc.height
}

/// Byte `j` (0 to 3) of a pixel's 4-byte encoding under a direct format:
/// the color's channels at 8-bit width in the format's order, then a zero
/// padding byte.  Formats without a direct path encode nothing.
pub open spec fn pixel_byte(c: Color, fmt: PixelFormat, j: int) -> u8 {
    match fmt {
        PixelFormat::DirectRgb => if j == 0 {
            c.spec_r8()
        } else if j == 1 {
            c.spec_g8()
        } else if j == 2 {
            c.spec_b8()
        } else {
            0
        },
        PixelFormat::DirectBgr => if j == 0 {
            c.spec_b8()
        } else if j == 1 {
            c.spec_g8()
        } else if j == 2 {
            c.spec_r8()
        } else {
            0
        },
        _ => 0,
    }
}

/// The first byte of the pixel at column `x`, row `y`.
pub open spec fn pixel_offset(desc: PixelFormatDescriptor, x: int, y: int) -> int {
    4 * (y * desc.stride + x)
}

/// The framebuffer after the 4-byte encoding of `c` is stored at `off`.
pub open spec fn write4(fb: Seq<u8>, off: int, c: Color, fmt: PixelFormat) -> Seq<u8> {
    fb.update(off, pixel_byte(c, fmt, 0)).update(off + 1, pixel_byte(c, fmt, 1)).update(
        off + 2,
        pixel_byte(c, fmt, 2),
    ).update(off + 3, pixel_byte(c, fmt, 3))
}

/// The column of the pixel that byte index `i` falls in.
pub open spec fn byte_col(desc: PixelFormatDescriptor, i: int) -> int {
    (i / 4) % (desc.stride as int)
}

/// The row of the pixel that byte index `i` falls in.
pub open spec fn byte_row(desc: PixelFormatDescriptor, i: int) -> int {
    (i / 4) / (desc.stride as int)
}

/// Byte index `i` belongs to the 4-byte cell of some visible pixel: it
/// lies inside the addressed region and its pixel's column and row are
/// within the visible width and height.
pub open spec fn visible_byte(desc: PixelFormatDescriptor, i: int) -> bool {
    &&& 0 <= i < desc.byte_len()
    &&& byte_col(desc, i) < desc.width
    &&& byte_row(desc, i) < desc.height
}

/// The value of byte `i` while a clear sweeps the surface in row-major
/// order: bytes of pixels before row `yl`, or before column `xl` within
/// row `yl`, already hold the color's encoding; all others still hold
/// their value from `pre`.
pub open spec fn clear_byte_upto(
    pre: Seq<u8>,
    desc: PixelFormatDescriptor,
    c: Color,
    yl: int,
    xl: int,
    i: int,
) -> u8 {
    if visible_byte(desc, i) && (byte_row(desc, i) < yl || (byte_row(desc, i) == yl && byte_col(
        desc,
        i,
    ) < xl)) {
        pixel_byte(c, desc.format, i % 4)
    } else {
        pre[i]
    }
}

/// Decomposition of the byte indices of a visible pixel: for a pixel at
/// column `x`, row `y`, each of its 4 bytes is a visible byte whose index
/// recovers `x`, `y`, and the byte's place in the cell.
pub proof fn lemma_pixel_byte_coords(desc: PixelFormatDescriptor, x: int, y: int, j: int)
    requires
        desc.wf(),
        0 <= x < desc.width,
        0 <= y < desc.height,
        0 <= j < 4,
    ensures
        ({
            let i = pixel_offset(desc, x, y) + j;
            &&& i / 4 == y * desc.stride + x
            &&& i % 4 == j
            &&& (i / 4) % (desc.stride as int) == x
            &&& (i / 4) / (desc.stride as int) == y
            &&& visible_byte(desc, i)
        }),
{
    let s = desc.stride as int;
    let pix = y * s + x;
    let i = 4 * pix + j;
    assert(0 <= pix && pix < s * desc.height) by (nonlinear_arith)
        requires
            0 <= x < s,
            0 <= y < desc.height,
            pix == y * s + x,
    ;
    lemma_fundamental_div_mod_converse_div(i, 4, pix, j);
    lemma_fundamental_div_mod_converse_mod(i, 4, pix, j);
    assert(i == pix * 4 + j) by (nonlinear_arith)
        requires
            i == 4 * pix + j,
    ;
    lemma_fundamental_div_mod_converse_div(pix, s, y, x);
    lemma_fundamental_div_mod_converse_mod(pix, s, y, x);
    assert(i < desc.byte_len());
}

/// The converse: a visible byte index is one of the 4 bytes of the pixel
/// at the column and row it decomposes into.
pub proof fn lemma_visible_byte_at(desc: PixelFormatDescriptor, i: int)
    requires
        desc.wf(),
        visible_byte(desc, i),
    ensures
        ({
            let x = (i / 4) % (desc.stride as int);
            let y = (i / 4) / (desc.stride as int);
            &&& 0 <= x < desc.width
            &&& 0 <= y < desc.height
            &&& pixel_offset(desc, x, y) <= i < pixel_offset(desc, x, y) + 4
            &&& i % 4 == i - pixel_offset(desc, x, y)
        }),
{
    let s = desc.stride as int;
    assert(s > 0) by (nonlinear_arith)
        requires
            0 <= i < 4 * (s * desc.height),
    ;
    let pix = i / 4;
    lemma_div_pos_is_pos(i, 4);
    lemma_mod_bound(i, 4);
    lemma_fundamental_div_mod(i, 4);
    let x = pix % s;
    let y = pix / s;
    lemma_div_pos_is_pos(pix, s);
    lemma_mod_bound(pix, s);
    lemma_fundamental_div_mod(pix, s);
    assert(pix == y * s + x) by (nonlinear_arith)
        requires
            pix == s * (pix / s) + pix % s,
            x == pix % s,
            y == pix / s,
    ;
    assert(i == 4 * pix + i % 4) by (nonlinear_arith)
        requires
            i == 4 * (i / 4) + i % 4,
            pix == i / 4,
    ;
}

impl DisplayAdapter {
    /// The adapter's descriptor is well formed.
    pub open spec fn wf(self) -> bool {
        self.desc.wf()
    }

    /// An adapter over the framebuffer described by `desc`.  A descriptor
    /// that failed validation must never reach this point.
    pub fn new(desc: PixelFormatDescriptor) -> (a: DisplayAdapter)
        requires
            desc.wf(),
        ensures
            a == (DisplayAdapter { desc }),
            a.wf(),
    {
        DisplayAdapter { desc }
    }

    /// The visible width of the surface, in pixels.
    pub fn width(&self) -> (w: u32)
        ensures
            w == self.desc.width,
    {
        self.desc.width
    }

    /// The visible height of the surface, in pixels.
    pub fn height(&self) -> (h: u32)
        ensures
            h == self.desc.height,
    {
        self.desc.height
    }

    /// Draws one pixel.
    ///
    /// The bounds check comes first: a point off the visible surface is
    /// reported as `OutOfBounds` and nothing is written, whatever the
    /// format.  On the direct formats the color's 4-byte encoding is
    /// stored at the pixel's offset; the bitmask and blit-only formats
    /// have no per-pixel write path, so the write is skipped and reported
    /// as `UnsupportedFormat`.  Either error is a per-pixel diagnostic,
    /// not a failure of the surrounding batch.
    pub fn draw_pixel(&self, fb: &mut Vec<u8>, p: Point, color: Color) -> (r: Result<
        (),
        GraphicsError,
    >)
        requires
            self.wf(),
            old(fb).len() >= self.desc.byte_len(),
        ensures
            final(fb)@.len() == old(fb)@.len(),
            !spec_in_bounds(self.desc, p) ==> final(fb)@ == old(fb)@ && r == Err::<
                (),
                GraphicsError,
            >(GraphicsError::OutOfBounds),
            spec_in_bounds(self.desc, p) && !has_direct_path(self.desc.format) ==> final(fb)@
                == old(fb)@ && r == Err::<(), GraphicsError>(GraphicsError::UnsupportedFormat),
            spec_in_bounds(self.desc, p) && has_direct_path(self.desc.format) ==> final(fb)@
                == write4(
                old(fb)@,
                pixel_offset(self.desc, p.x as int, p.y as int),
                color,
                self.desc.format,
            ) && r == Ok::<(), GraphicsError>(()),
    {
        if p.x < 0 || p.y < 0 {
            return Err(GraphicsError::OutOfBounds);
        }
        let x = p.x as u32;
        let y = p.y as u32;
        if x >= self.desc.width || y >= self.desc.height {
            return Err(GraphicsError::OutOfBounds);
        }
        let (b0, b1, b2, b3) = match self.desc.format {
            PixelFormat::DirectRgb => {
                let (r8, g8, b8) = color.channels8();
                (r8, g8, b8, 0u8)
            },
            PixelFormat::DirectBgr => {
                let (r8, g8, b8) = color.channels8();
                (b8, g8, r8, 0u8)
            },
            _ => {
                return Err(GraphicsError::UnsupportedFormat);
            },
        };
        proof {
            lemma_pixel_byte_coords(self.desc, x as int, y as int, 3);
        }
        let pix: usize = (y as usize) * (self.desc.stride as usize) + (x as usize);
        let off: usize = 4 * pix;
        fb.set(off, b0);
        fb.set(off + 1, b1);
        fb.set(off + 2, b2);
        fb.set(off + 3, b3);
        Ok(())
    }

    /// Fills the whole visible surface with `color`.
    ///
    /// On the direct formats every visible pixel's 4-byte cell receives
    /// the color's encoding and no byte outside those cells changes (row
    /// padding between width and stride included).  On the bitmask and
    /// blit-only formats the framebuffer may not be CPU-addressable, so
    /// nothing is written here; the call reports `HardwareFill` and the
    /// caller delegates to the platform's block-fill primitive.
    pub fn clear(&self, fb: &mut Vec<u8>, color: Color) -> (r: ClearOutcome)
        requires
            self.wf(),
            old(fb).len() >= self.desc.byte_len(),
        ensures
            final(fb)@.len() == old(fb)@.len(),
            has_direct_path(self.desc.format) ==> r == ClearOutcome::Filled && forall|i: int|
                0 <= i < old(fb)@.len() ==> final(fb)@[i] == (if visible_byte(self.desc, i) {
                    pixel_byte(color, self.desc.format, i % 4)
                } else {
                    old(fb)@[i]
                }),
            !has_direct_path(self.desc.format) ==> r == ClearOutcome::HardwareFill && final(fb)@
                == old(fb)@,
    {
        let (b0, b1, b2, b3) = match self.desc.format {
            PixelFormat::DirectRgb => {
                let (r8, g8, b8) = color.channels8();
                (r8, g8, b8, 0u8)
            },
            PixelFormat::DirectBgr => {
                let (r8, g8, b8) = color.channels8();
                (b8, g8, r8, 0u8)
            },
            _ => {
                return ClearOutcome::HardwareFill;
            },
        };
        let fb_len = fb.len();
        let ghost pre = fb@;
        let w = self.desc.width;
        let h = self.desc.height;
        let stride_us = self.desc.stride as usize;
        let mut y: u32 = 0;
        proof {
            assert forall|i: int| 0 <= i < fb@.len() implies #[trigger] fb@[i] == clear_byte_upto(
                pre,
                self.desc,
                color,
                0,
                0,
                i,
            ) by {
                if visible_byte(self.desc, i) {
                    lemma_visible_byte_at(self.desc, i);
                }
            }
        }
        while y < h
            invariant
                self.wf(),
                w == self.desc.width,
                h == self.desc.height,
                stride_us == self.desc.stride as usize,
                has_direct_path(self.desc.format),
                b0 == pixel_byte(color, self.desc.format, 0),
                b1 == pixel_byte(color, self.desc.format, 1),
                b2 == pixel_byte(color, self.desc.format, 2),
                b3 == pixel_byte(color, self.desc.format, 3),
                y <= h,
                fb@.len() == pre.len(),
                pre.len() == fb_len,
                pre.len() >= self.desc.byte_len(),
                forall|i: int|
                    0 <= i < fb@.len() ==> #[trigger] fb@[i] == clear_byte_upto(
                        pre,
                        self.desc,
                        color,
                        y as int,
                        0,
                        i,
                    ),
            decreases h - y,
        {
            let mut x: u32 = 0;
            while x < w
                invariant
                    self.wf(),
                    w == self.desc.width,
                    h == self.desc.height,
                    stride_us == self.desc.stride as usize,
                    has_direct_path(self.desc.format),
                    b0 == pixel_byte(color, self.desc.format, 0),
                    b1 == pixel_byte(color, self.desc.format, 1),
                    b2 == pixel_byte(color, self.desc.format, 2),
                    b3 == pixel_byte(color, self.desc.format, 3),
                    x <= w,
                    y < h,
                    fb@.len() == pre.len(),
                    pre.len() == fb_len,
                    pre.len() >= self.desc.byte_len(),
                    forall|i: int|
                        0 <= i < fb@.len() ==> #[trigger] fb@[i] == clear_byte_upto(
                            pre,
                            self.desc,
                            color,
                            y as int,
                            x as int,
                            i,
                        ),
                decreases w - x,
            {
                proof {
                    lemma_pixel_byte_coords(self.desc, x as int, y as int, 3);
                }
                let pix: usize = (y as usize) * stride_us + (x as usize);
                let off: usize = 4 * pix;
                fb.set(off, b0);
                fb.set(off + 1, b1);
                fb.set(off + 2, b2);
                fb.set(off + 3, b3);
                proof {
                    assert forall|i: int| 0 <= i < fb@.len() implies #[trigger] fb@[i]
                        == clear_byte_upto(
                        pre,
                        self.desc,
                        color,
                        y as int,
                        x as int + 1,
                        i,
                    ) by {
                        if off <= i < off + 4 {
                            lemma_pixel_byte_coords(self.desc, x as int, y as int, i - off);
                        } else if visible_byte(self.desc, i) && byte_row(self.desc, i) == y
                            && byte_col(self.desc, i) == x {
                            lemma_visible_byte_at(self.desc, i);
                        }
                    }
                }
                x = x + 1;
            }
            proof {
                assert forall|i: int| 0 <= i < fb@.len() implies #[trigger] fb@[i]
                    == clear_byte_upto(
                    pre,
                    self.desc,
                    color,
                    y as int + 1,
                    0,
                    i,
                ) by {
                    if visible_byte(self.desc, i) && byte_row(self.desc, i) == y {
                        lemma_visible_byte_at(self.desc, i);
                    }
                }
            }
            y = y + 1;
        }
        ClearOutcome::Filled
    }
}

} // verus!
