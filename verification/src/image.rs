//! TGA image decoding for the scaled blit.
//!
//! The decoder itself is the outside crate `tinytga`; this module calls it
//! behind a trusted wrapper that hands back plain values, converts them to
//! the library's pixel type in verified code, and drives the scaled blit.

use embedded_graphics::pixelcolor::Rgb888;
use embedded_graphics::prelude::{OriginDimensions, RgbColor};
use tinytga::Tga;
use vstd::prelude::*;

use crate::adapter::DisplayAdapter;
use crate::blit::{blit_fold, SourcePixel};
use crate::color::Color;

verus! {

/// What the TGA decoder yields for a byte string: nothing when the bytes
/// are not decodable at 8-bit RGB, or when they carry a color map;
/// otherwise the image's width and height and its finite pixel stream as
/// `(x, y, (red, green, blue))` triples in source coordinates at 8 bits
/// per channel.
pub uninterp spec fn tga_decode(data: Seq<u8>) -> Option<
    (u32, u32, Seq<(i32, i32, (u8, u8, u8))>),
>;

/// The input ends with a TGA v2 footer: at least 26 bytes, the last 18 of
/// which are the footer signature (`TRUEVISION-XFILE.` and a final nul).
pub open spec fn has_tga_footer(data: Seq<u8>) -> bool {
    let n = data.len() as int;
    &&& n >= 26
    &&& data[n - 18] == 0x54u8
    &&& data[n - 17] == 0x52u8
    &&& data[n - 16] == 0x55u8
    &&& data[n - 15] == 0x45u8
    &&& data[n - 14] == 0x56u8
    &&& data[n - 13] == 0x49u8
    &&& data[n - 12] == 0x53u8
    &&& data[n - 11] == 0x49u8
    &&& data[n - 10] == 0x4fu8
    &&& data[n - 9] == 0x4eu8
    &&& data[n - 8] == 0x2du8
    &&& data[n - 7] == 0x58u8
    &&& data[n - 6] == 0x46u8
    &&& data[n - 5] == 0x49u8
    &&& data[n - 4] == 0x4cu8
    &&& data[n - 3] == 0x45u8
    &&& data[n - 2] == 0x2eu8
    &&& data[n - 1] == 0x00u8
}

/// The little-endian 32-bit value stored in the 4 bytes of `data` at `i`.
pub open spec fn le_u32_at(data: Seq<u8>, i: int) -> int {
    data[i] + 0x100 * data[i + 1] + 0x1_0000 * data[i + 2] + 0x100_0000 * data[i + 3]
}

/// When a TGA v2 footer is present, its two offsets (extension area at
/// `len - 26`, developer directory at `len - 22`) stay within the file.
/// The decoder computes the footer section's length by subtracting each
/// nonzero offset from the file length with no range check, so an offset
/// past the end would make that subtraction underflow; such inputs are
/// kept away from the decoder.  Inputs without a footer are unconstrained.
pub open spec fn tga_footer_in_range(data: Seq<u8>) -> bool {
    has_tga_footer(data) ==> ({
        let n = data.len() as int;
        le_u32_at(data, n - 26) <= n && le_u32_at(data, n - 22) <= n
    })
}

/// The little-endian 32-bit value at byte `i`, as [`le_u32_at`] states it.
fn le_u32(data: &[u8], i: usize) -> (v: u64)
    requires
        i + 4 <= data@.len(),
    ensures
        v == le_u32_at(data@, i as int),
{
    (data[i] as u64) + 0x100 * (data[i + 1] as u64) + 0x1_0000 * (data[i + 2] as u64)
        + 0x100_0000 * (data[i + 3] as u64)
}

/// Decides [`tga_footer_in_range`] by reading the trailing bytes.
fn tga_footer_ok(data: &[u8]) -> (ok: bool)
    ensures
        ok == tga_footer_in_range(data@),
{
    let n = data.len();
    if n < 26 {
        return true;
    }
    let s = n - 18;
    let has_signature = data[s] == 0x54 && data[s + 1] == 0x52 && data[s + 2] == 0x55
        && data[s + 3] == 0x45 && data[s + 4] == 0x56 && data[s + 5] == 0x49
        && data[s + 6] == 0x53 && data[s + 7] == 0x49 && data[s + 8] == 0x4f
        && data[s + 9] == 0x4e && data[s + 10] == 0x2d && data[s + 11] == 0x58
        && data[s + 12] == 0x46 && data[s + 13] == 0x49 && data[s + 14] == 0x4c
        && data[s + 15] == 0x45 && data[s + 16] == 0x2e && data[s + 17] == 0x00;
    if !has_signature {
        return true;
    }
    let ext = le_u32(data, n - 26);
    let dev = le_u32(data, n - 22);
    ext <= n as u64 && dev <= n as u64
}

/// Relies on tinytga's `Tga::from_slice` and its `Pixels` iterator: what a
/// TGA byte string decodes to, at 8-bit RGB, depends on the bytes alone.
/// The precondition keeps out the one input family on which the parser's
/// footer-length subtraction could underflow (a footer offset past the
/// file's end); color-mapped files are refused in the body before
/// iterating, since on them the iterator can fail on an out-of-range map
/// index, so the name covers only files without a color map.
#[verifier::external_body]
fn decode_tga_raw(data: &[u8]) -> (r: Option<(u32, u32, Vec<(i32, i32, (u8, u8, u8))>)>)
    requires
        tga_footer_in_range(data@),
    ensures
        match (r, tga_decode(data@)) {
            (Some(v), Some(d)) => v.0 == d.0 && v.1 == d.1 && v.2@ == d.2,
            (None, None) => true,
            _ => false,
        },
{
    let image: Tga<Rgb888> = match Tga::from_slice(data) {
        Ok(image) => image,
        Err(_) => return None,
    };
    if image.as_raw().color_map().is_some() {
        return None;
    }
    let size = image.size();
    let pixels = image.pixels().map(
        |p: embedded_graphics::Pixel<Rgb888>| (p.0.x, p.0.y, (p.1.r(), p.1.g(), p.1.b())),
    ).collect();
    Some((size.width, size.height, pixels))
}

/// The library's pixel for one decoded `(x, y, (r, g, b))` triple.
pub open spec fn pixel_of_triple(t: (i32, i32, (u8, u8, u8))) -> SourcePixel {
    SourcePixel { x: t.0, y: t.1, color: Color::Rgb888 { r: (t.2).0, g: (t.2).1, b: (t.2).2 } }
}

/// A decoded source image: its size and its pixel stream, ready for the
/// scaled blit.
#[derive(Clone, Debug)]
pub struct DecodedImage {
    pub width: u32,
    pub height: u32,
    pub pixels: Vec<SourcePixel>,
}

/// Decodes a TGA byte string into the library's image type, or nothing
/// when the bytes are not decodable at 8-bit RGB, carry a color map, or
/// hold a footer whose offsets point outside the file.
pub fn decode_tga(data: &[u8]) -> (r: Option<DecodedImage>)
    ensures
        !tga_footer_in_range(data@) ==> r is None,
        tga_footer_in_range(data@) ==> (match (r, tga_decode(data@)) {
            (Some(img), Some(d)) => img.width == d.0 && img.height == d.1 && img.pixels@.len()
                == d.2.len() && forall|i: int|
                0 <= i < d.2.len() ==> img.pixels@[i] == pixel_of_triple(d.2[i]),
            (None, None) => true,
            _ => false,
        }),
{
    if !tga_footer_ok(data) {
        return None;
    }
    match decode_tga_raw(data) {
        Some((w, h, triples)) => {
            let n = triples.len();
            let mut pixels: Vec<SourcePixel> = Vec::new();
            let mut k: usize = 0;
            while k < n
                invariant
                    n == triples@.len(),
                    k <= n,
                    pixels@.len() == k,
                    forall|i: int| 0 <= i < k ==> pixels@[i] == pixel_of_triple(triples@[i]),
                decreases n - k,
            {
                let t = triples[k];
                pixels.push(
                    SourcePixel {
                        x: t.0,
                        y: t.1,
                        color: Color::Rgb888 { r: (t.2).0, g: (t.2).1, b: (t.2).2 },
                    },
                );
                k = k + 1;
            }
            Some(DecodedImage { width: w, height: h, pixels })
        },
        None => None,
    }
}

impl DisplayAdapter {
    /// Decodes a TGA image and blits it scaled onto the surface.
    ///
    /// Returns whether the blit ran: it does exactly when the bytes pass
    /// the footer check and decode, and the scale factors are defined (a
    /// source width and height of at least one pixel); otherwise the
    /// framebuffer is left untouched.
    pub fn draw_tga_scaled(&self, fb: &mut Vec<u8>, data: &[u8]) -> (drawn: bool)
        requires
            self.wf(),
            old(fb).len() >= self.desc.byte_len(),
        ensures
            final(fb)@.len() == old(fb)@.len(),
            !tga_footer_in_range(data@) ==> !drawn && final(fb)@ == old(fb)@,
            tga_footer_in_range(data@) ==> (match tga_decode(data@) {
                Some(d) => if d.0 >= 1 && d.1 >= 1 {
                    drawn && final(fb)@ == blit_fold(
                        old(fb)@,
                        self.desc,
                        d.0,
                        d.1,
                        d.2.map_values(|t: (i32, i32, (u8, u8, u8))| pixel_of_triple(t)),
                    )
                } else {
                    !drawn && final(fb)@ == old(fb)@
                },
                None => !drawn && final(fb)@ == old(fb)@,
            }),
    {
        let img = match decode_tga(data) {
            Some(img) => img,
            None => {
                return false;
            },
        };
        if img.width >= 1 && img.height >= 1 {
            self.blit_scaled(fb, img.width, img.height, &img.pixels);
            proof {
                let d = tga_decode(data@).unwrap();
                assert(img.pixels@ =~= d.2.map_values(
                    |t: (i32, i32, (u8, u8, u8))| pixel_of_triple(t),
                ));
            }
            true
        } else {
            false
        }
    }
}

} // verus!
