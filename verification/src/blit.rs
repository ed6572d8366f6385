//! Scaled blitting: maps a source image's coordinate space onto the
//! adapter's surface by independent horizontal and vertical scale factors
//! and forwards every pixel through the adapter's bounds-checked write.
//!
//! With `xScale = sourceWidth / adapterWidth` and `yScale = sourceHeight /
//! adapterHeight` (as exact rationals), a source point `(sx, sy)` lands on
//! destination `(trunc(sx / xScale), trunc(sy / yScale))`, truncating
//! toward zero.  Several source pixels may land on one destination pixel;
//! the last write wins.  Destination points off the surface are absorbed by
//! the per-pixel bounds check, and no separate clamping is done.

use vstd::prelude::*;

use crate::adapter::{has_direct_path, pixel_offset, write4, DisplayAdapter, Point};
use crate::color::Color;
use crate::descriptor::PixelFormatDescriptor;

verus! {

/// One pixel of a source image: a position in source coordinates and its
/// color.
#[derive(Clone, Copy, PartialEq, Eq, Structural, Debug)]
pub struct SourcePixel {
    pub x: i32,
    pub y: i32,
    pub color: Color,
}

/// Division that truncates toward zero (for a positive divisor), as the
/// scale computation demands.
pub open spec fn trunc_div(a: int, b: int) -> int {
    if a >= 0 {
        a / b
    } else {
        -((-a) / b)
    }
}

/// The destination column of source column `sx`:
/// `trunc(sx / (src_w / width))` over exact rationals.
pub open spec fn dest_x(desc: PixelFormatDescriptor, src_w: u32, sx: int) -> int {
    trunc_div(sx * desc.width, src_w as int)
}

/// The destination row of source row `sy`:
/// `trunc(sy / (src_h / height))` over exact rationals.
pub open spec fn dest_y(desc: PixelFormatDescriptor, src_h: u32, sy: int) -> int {
    trunc_div(sy * desc.height, src_h as int)
}

/// The framebuffer after one source pixel is forwarded to the adapter:
/// written through the 4-byte encoding when its destination is on the
/// surface and the format has a direct path, untouched otherwise.
pub open spec fn blit_step(
    fb: Seq<u8>,
    desc: PixelFormatDescriptor,
    src_w: u32,
    src_h: u32,
    p: SourcePixel,
) -> Seq<u8> {
    let dx = dest_x(desc, src_w, p.x as int);
    let dy = dest_y(desc, src_h, p.y as int);
    if 0 <= dx < desc.width && 0 <= dy < desc.height && has_direct_path(desc.format) {
        write4(fb, pixel_offset(desc, dx, dy), p.color, desc.format)
    } else {
        fb
    }
}

/// The framebuffer after a whole pixel stream is forwarded in order:
/// last write wins.
pub open spec fn blit_fold(
    fb: Seq<u8>,
    desc: PixelFormatDescriptor,
    src_w: u32,
    src_h: u32,
    ps: Seq<SourcePixel>,
) -> Seq<u8>
    decreases ps.len(),
{
    if ps.len() == 0 {
        fb
    } else {
        blit_step(blit_fold(fb, desc, src_w, src_h, ps.drop_last()), desc, src_w, src_h, ps.last())
    }
}

/// `trunc(v * m / d)` computed without intermediate overflow.
fn scale_coord(v: i32, m: u32, d: u32) -> (q: i64)
    requires
        d >= 1,
    ensures
        q == trunc_div(v * m, d as int),
{
    let neg = v < 0;
    let v_abs: u64 = if neg {
        (-(v as i64)) as u64
    } else {
        v as u64
    };
    assert(v_abs * m <= 0x8000_0000u64 * 0xffff_ffffu64) by (nonlinear_arith)
        requires
            v_abs <= 0x8000_0000u64,
            m <= 0xffff_ffffu64,
    ;
    let prod: u64 = v_abs * (m as u64);
    let q_abs: u64 = prod / (d as u64);
    assert(q_abs <= prod) by (nonlinear_arith)
        requires
            q_abs == prod as int / d as int,
            d >= 1,
            prod >= 0,
    ;
    let q: i64 = if neg {
        -(q_abs as i64)
    } else {
        q_abs as i64
    };
    proof {
        let a = (v as int) * (m as int);
        let p = prod as int;
        let dd = d as int;
        if neg {
            assert(a == -p) by (nonlinear_arith)
                requires
                    p == (v_abs as int) * (m as int),
                    v_abs as int == -(v as int),
                    a == (v as int) * (m as int),
            ;
            if a >= 0 {
                assert(p == 0);
                assert(p / dd == 0) by (nonlinear_arith)
                    requires
                        p == 0,
                        dd >= 1,
                ;
                assert(a / dd == 0) by (nonlinear_arith)
                    requires
                        a == 0,
                        dd >= 1,
                ;
            } else {
                assert(-a == p);
            }
        } else {
            assert(a >= 0) by (nonlinear_arith)
                requires
                    v >= 0,
                    m >= 0,
                    a == (v as int) * (m as int),
            ;
            assert(p == a);
        }
    }
    q
}

impl DisplayAdapter {
    /// The destination point of one source point, as the pair
    /// `(trunc(sx * width / src_w), trunc(sy * height / src_h))`.  The
    /// result may lie off the surface; the blit's bounds check decides.
    pub fn map_source_point(&self, sp: Point, src_w: u32, src_h: u32) -> (q: (i64, i64))
        requires
            self.wf(),
            src_w >= 1,
            src_h >= 1,
        ensures
            q.0 == dest_x(self.desc, src_w, sp.x as int),
            q.1 == dest_y(self.desc, src_h, sp.y as int),
    {
        let dx = scale_coord(sp.x, self.desc.width, src_w);
        let dy = scale_coord(sp.y, self.desc.height, src_h);
        (dx, dy)
    }

    /// Blits a source image of `src_w` by `src_h` pixels onto the surface,
    /// scaling each source point and forwarding it through the per-pixel
    /// write.  The framebuffer afterwards is exactly the in-order fold of
    /// the stream: last write wins, out-of-surface destinations and
    /// formats without a direct write path leave the bytes untouched.
    pub fn blit_scaled(&self, fb: &mut Vec<u8>, src_w: u32, src_h: u32, pixels: &Vec<SourcePixel>)
        requires
            self.wf(),
            src_w >= 1,
            src_h >= 1,
            old(fb).len() >= self.desc.byte_len(),
        ensures
            final(fb)@.len() == old(fb)@.len(),
            final(fb)@ == blit_fold(old(fb)@, self.desc, src_w, src_h, pixels@),
    {
        let ghost pre = fb@;
        let n = pixels.len();
        let mut k: usize = 0;
        proof {
            assert(pixels@.take(0) =~= Seq::<SourcePixel>::empty());
        }
        while k < n
            invariant
                self.wf(),
                src_w >= 1,
                src_h >= 1,
                n == pixels@.len(),
                k <= n,
                fb@.len() == pre.len(),
                pre.len() >= self.desc.byte_len(),
                fb@ == blit_fold(pre, self.desc, src_w, src_h, pixels@.take(k as int)),
            decreases n - k,
        {
            let sp = pixels[k];
            let (dx, dy) = self.map_source_point(Point { x: sp.x, y: sp.y }, src_w, src_h);
            let ghost fb_before = fb@;
            if 0 <= dx && dx < self.desc.width as i64 && 0 <= dy && dy < self.desc.height as i64 {
                let p = Point { x: dx as i32, y: dy as i32 };
                let _ = self.draw_pixel(fb, p, sp.color);
            }
            proof {
                assert(fb@ == blit_step(fb_before, self.desc, src_w, src_h, pixels@[k as int]));
                assert(pixels@.take(k as int + 1).drop_last() =~= pixels@.take(k as int));
                assert(pixels@.take(k as int + 1).last() == pixels@[k as int]);
            }
            k = k + 1;
        }
        proof {
            assert(pixels@.take(n as int) =~= pixels@);
        }
    }
}

} // verus!
