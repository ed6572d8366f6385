use fbdraw::adapter::{DisplayAdapter, Point};
use fbdraw::blit::SourcePixel;
use fbdraw::color::Color;
use fbdraw::descriptor::{PixelFormat, PixelFormatDescriptor};

fn adapter(width: u32, height: u32, stride: u32) -> DisplayAdapter {
    DisplayAdapter::new(PixelFormatDescriptor {
        format: PixelFormat::DirectRgb,
        width,
        height,
        stride,
    })
}

fn pix(x: i32, y: i32, r: u8, g: u8, b: u8) -> SourcePixel {
    SourcePixel { x, y, color: Color::rgb888(r, g, b) }
}

#[test]
fn scale_divides_each_axis_by_truncating_division() {
    // Source 4 by 4 onto a 2 by 2 surface: scale factor 2 in each axis,
    // so source point (3, 3) lands on trunc(3 / 2) = 1 in both axes.
    let a = adapter(2, 2, 2);
    let q = a.map_source_point(Point { x: 3, y: 3 }, 4, 4);
    assert_eq!(q, (1, 1));
    let q = a.map_source_point(Point { x: 1, y: 2 }, 4, 4);
    assert_eq!(q, (0, 1));
}

#[test]
fn scale_truncates_toward_zero_for_negatives() {
    let a = adapter(2, 2, 2);
    let q = a.map_source_point(Point { x: -1, y: -3 }, 4, 4);
    assert_eq!(q, (0, -1));
}

#[test]
fn blit_draws_in_bounds_pixels_only() {
    let a = adapter(2, 2, 2);
    let mut fb = vec![0u8; 16];
    let pixels = vec![
        pix(0, 0, 255, 0, 0),   // lands on (0, 0)
        pix(5, 0, 0, 255, 0),   // column trunc(5 / 2) = 2: off the surface
        pix(-3, 0, 0, 0, 255),  // column trunc(-3 / 2) = -1: off the surface
        pix(2, 3, 10, 20, 30),  // lands on (1, 1)
    ];
    a.blit_scaled(&mut fb, 4, 4, &pixels);
    assert_eq!(&fb[0..4], &[255, 0, 0, 0]);
    assert_eq!(&fb[4..8], &[0u8; 4][..]);
    assert_eq!(&fb[8..12], &[0u8; 4][..]);
    assert_eq!(&fb[12..16], &[10, 20, 30, 0]);
}

#[test]
fn blit_last_write_wins() {
    let a = adapter(2, 2, 2);
    let mut fb = vec![0u8; 16];
    // Both source rows 0 and 1 land on destination row 0.
    let pixels = vec![pix(0, 0, 255, 0, 0), pix(0, 1, 0, 255, 0)];
    a.blit_scaled(&mut fb, 4, 4, &pixels);
    assert_eq!(&fb[0..4], &[0, 255, 0, 0]);
}

#[test]
fn blit_identity_scale() {
    let a = adapter(2, 2, 2);
    let mut fb = vec![0u8; 16];
    let pixels = vec![
        pix(0, 0, 1, 2, 3),
        pix(1, 0, 4, 5, 6),
        pix(0, 1, 7, 8, 9),
        pix(1, 1, 10, 11, 12),
    ];
    a.blit_scaled(&mut fb, 2, 2, &pixels);
    assert_eq!(&fb[0..4], &[1, 2, 3, 0]);
    assert_eq!(&fb[4..8], &[4, 5, 6, 0]);
    assert_eq!(&fb[8..12], &[7, 8, 9, 0]);
    assert_eq!(&fb[12..16], &[10, 11, 12, 0]);
}

#[test]
fn blit_on_blit_only_surface_writes_nothing() {
    let a = DisplayAdapter::new(PixelFormatDescriptor {
        format: PixelFormat::BlitOnly,
        width: 2,
        height: 2,
        stride: 2,
    });
    let mut fb = vec![5u8; 16];
    let pixels = vec![pix(0, 0, 255, 0, 0)];
    a.blit_scaled(&mut fb, 2, 2, &pixels);
    assert!(fb.iter().all(|&b| b == 5));
}
