use fbdraw::adapter::DisplayAdapter;
use fbdraw::color::Color;
use fbdraw::descriptor::{PixelFormat, PixelFormatDescriptor};
use fbdraw::image::decode_tga;

/// An uncompressed true-color 2 by 2 TGA image with top-left origin.
/// Pixel data is stored bottom row first in BGR byte order here, because
/// the image descriptor byte (0x20) flags a top-left origin.
fn tiny_tga() -> Vec<u8> {
    let mut data = vec![
        0, // no image id
        0, // no color map
        2, // uncompressed true color
        0, 0, 0, 0, 0, // color map specification
        0, 0, // x origin
        0, 0, // y origin
        2, 0, // width
        2, 0, // height
        24,   // bits per pixel
        0x20, // top-left origin
    ];
    data.extend_from_slice(&[
        0, 0, 255, // (0,0) red
        0, 255, 0, // (1,0) green
        255, 0, 0, // (0,1) blue
        255, 255, 255, // (1,1) white
    ]);
    data
}

#[test]
fn decode_tga_yields_size_and_pixels() {
    let img = decode_tga(&tiny_tga()).unwrap();
    assert_eq!((img.width, img.height), (2, 2));
    assert_eq!(img.pixels.len(), 4);
    let expect = [
        (0, 0, (255u8, 0u8, 0u8)),
        (1, 0, (0, 255, 0)),
        (0, 1, (0, 0, 255)),
        (1, 1, (255, 255, 255)),
    ];
    for (p, (x, y, (r, g, b))) in img.pixels.iter().zip(expect) {
        assert_eq!((p.x, p.y), (x, y));
        assert_eq!(p.color, Color::Rgb888 { r, g, b });
    }
}

#[test]
fn decode_tga_rejects_garbage() {
    assert!(decode_tga(&[1, 2, 3]).is_none());
    assert!(decode_tga(&[]).is_none());
}

/// The 26-byte TGA v2 footer: extension area offset, developer directory
/// offset, signature, and a final nul.
fn footer(extension_offset: u32, developer_offset: u32) -> Vec<u8> {
    let mut f = Vec::new();
    f.extend_from_slice(&extension_offset.to_le_bytes());
    f.extend_from_slice(&developer_offset.to_le_bytes());
    f.extend_from_slice(b"TRUEVISION-XFILE.\0");
    f
}

#[test]
fn decode_tga_refuses_footer_offsets_past_the_end() {
    // A footer whose extension-area offset exceeds the file length; the
    // decoder's footer-length arithmetic would underflow on it, so the
    // library must refuse the bytes up front rather than fail on them.
    let mut data = tiny_tga();
    data.extend_from_slice(&footer(0xffff_ffff, 0));
    assert!(decode_tga(&data).is_none());

    let mut data = tiny_tga();
    let bad = data.len() as u32 + 27;
    data.extend_from_slice(&footer(0, bad));
    assert!(decode_tga(&data).is_none());
}

#[test]
fn decode_tga_accepts_a_benign_footer() {
    // Zero offsets mean no extension area and no developer directory; the
    // image decodes exactly as without the footer.
    let mut data = tiny_tga();
    data.extend_from_slice(&footer(0, 0));
    let img = decode_tga(&data).unwrap();
    assert_eq!((img.width, img.height), (2, 2));
    assert_eq!(img.pixels.len(), 4);
    assert_eq!((img.pixels[3].x, img.pixels[3].y), (1, 1));
    assert_eq!(img.pixels[3].color, Color::Rgb888 { r: 255, g: 255, b: 255 });
}

#[test]
fn draw_tga_scaled_refuses_footer_offsets_past_the_end() {
    let a = DisplayAdapter::new(PixelFormatDescriptor {
        format: PixelFormat::DirectRgb,
        width: 2,
        height: 2,
        stride: 2,
    });
    let mut fb = vec![9u8; 16];
    let mut data = tiny_tga();
    data.extend_from_slice(&footer(0xffff_ffff, 0xffff_ffff));
    let drawn = a.draw_tga_scaled(&mut fb, &data);
    assert!(!drawn);
    assert!(fb.iter().all(|&b| b == 9));
}

#[test]
fn decode_tga_refuses_color_mapped_files() {
    // A well-formed 1 by 1 color-mapped TGA whose single pixel byte indexes
    // past its one-entry map; the decoder must refuse it, not fail on it.
    let data = [
        0, 1, 1, // no id; color-mapped, uncompressed
        0, 0, 1, 0, 24, // color map: first entry 0, one 24-bit entry
        0, 0, 0, 0, // origin
        1, 0, 1, 0, // 1 by 1
        8, 0x20, // 8 bits per pixel, top-left origin
        9, 8, 7, // the single map entry
        5, // pixel: an out-of-range map index
    ];
    assert!(decode_tga(&data).is_none());
}

#[test]
fn draw_tga_scaled_identity() {
    let a = DisplayAdapter::new(PixelFormatDescriptor {
        format: PixelFormat::DirectRgb,
        width: 2,
        height: 2,
        stride: 2,
    });
    let mut fb = vec![0u8; 16];
    let drawn = a.draw_tga_scaled(&mut fb, &tiny_tga());
    assert!(drawn);
    assert_eq!(&fb[0..4], &[255, 0, 0, 0]);
    assert_eq!(&fb[4..8], &[0, 255, 0, 0]);
    assert_eq!(&fb[8..12], &[0, 0, 255, 0]);
    assert_eq!(&fb[12..16], &[255, 255, 255, 0]);
}

#[test]
fn draw_tga_scaled_rejects_undecodable_bytes() {
    let a = DisplayAdapter::new(PixelFormatDescriptor {
        format: PixelFormat::DirectRgb,
        width: 2,
        height: 2,
        stride: 2,
    });
    let mut fb = vec![4u8; 16];
    let drawn = a.draw_tga_scaled(&mut fb, &[0, 1, 2]);
    assert!(!drawn);
    assert!(fb.iter().all(|&b| b == 4));
}
