//! Pixel format descriptors, built once per mode change from the raw mode
//! information that the platform's mode query reports.
//!
//! A descriptor records how the framebuffer encodes a pixel — direct RGB,
//! direct BGR, bitmask-defined channels, or no direct access at all — next
//! to the surface geometry (visible width and height, and the row stride in
//! pixels, which may exceed the width).

use vstd::prelude::*;

verus! {

/// Every error the drawing layer reports.
///
/// `OutOfBounds` and `UnsupportedFormat` are per-pixel diagnostics: the
/// offending write is skipped and the batch continues.  `MalformedModeInfo`
/// is fatal to descriptor construction.
#[derive(Clone, Copy, PartialEq, Eq, Structural, Debug)]
pub enum GraphicsError {
    OutOfBounds,
    UnsupportedFormat,
    MalformedModeInfo,
}

/// The format tag of a raw mode-information structure.
#[derive(Clone, Copy, PartialEq, Eq, Structural, Debug)]
pub enum FormatTag {
    Rgb,
    Bgr,
    Bitmask,
    BlitOnly,
}

/// Per-channel bit masks, present in raw mode information only when the
/// tag is `Bitmask`.
#[derive(Clone, Copy, PartialEq, Eq, Structural, Debug)]
pub struct ChannelMasks {
    pub red: u32,
    pub green: u32,
    pub blue: u32,
}

/// Raw mode information as the platform's mode query reports it:
/// resolution, row stride in pixels, a format tag, and channel masks when
/// the tag calls for them.
#[derive(Clone, Copy, PartialEq, Eq, Structural, Debug)]
pub struct RawModeInfo {
    pub width: u32,
    pub height: u32,
    pub stride: u32,
    pub tag: FormatTag,
    pub masks: Option<ChannelMasks>,
}

/// How the framebuffer encodes one pixel.
#[derive(Clone, Copy, PartialEq, Eq, Structural, Debug)]
pub enum PixelFormat {
    DirectRgb,
    DirectBgr,
    Bitmask { red: u32, green: u32, blue: u32 },
    BlitOnly,
}

/// A validated pixel format descriptor: pixel encoding plus surface
/// geometry.  Immutable for an adapter's lifetime; a mode change requires a
/// new descriptor.
#[derive(Clone, Copy, PartialEq, Eq, Structural, Debug)]
pub struct PixelFormatDescriptor {
    pub format: PixelFormat,
    pub width: u32,
    pub height: u32,
    pub stride: u32,
}

/// No two channel masks claim the same bit.
pub open spec fn masks_disjoint(m: ChannelMasks) -> bool {
    m.red & m.green == 0 && m.red & m.blue == 0 && m.green & m.blue == 0
}

/// Mode information can yield a descriptor: either the tag needs no masks,
/// or masks are present and pairwise disjoint.
pub open spec fn mode_info_valid(info: RawModeInfo) -> bool {
    match info.tag {
        FormatTag::Bitmask => match info.masks {
            Some(m) => masks_disjoint(m),
            None => false,
        },
        _ => true,
    }
}

/// The pixel format a valid mode information maps to.
pub open spec fn spec_format_of(info: RawModeInfo) -> PixelFormat {
    match info.tag {
        FormatTag::Rgb => PixelFormat::DirectRgb,
        FormatTag::Bgr => PixelFormat::DirectBgr,
        FormatTag::Bitmask => match info.masks {
            Some(m) => PixelFormat::Bitmask { red: m.red, green: m.green, blue: m.blue },
            None => PixelFormat::BlitOnly,
        },
        FormatTag::BlitOnly => PixelFormat::BlitOnly,
    }
}

impl PixelFormatDescriptor {
    /// Geometry is consistent: the visible width fits in each stride-long
    /// row, and coordinates of every visible pixel are representable as
    /// `i32` points.
    pub open spec fn wf(self) -> bool {
        &&& self.width <= self.stride
        &&& self.width <= i32::MAX
        &&& self.height <= i32::MAX
    }

    /// The least framebuffer size the descriptor addresses, in bytes:
    /// `stride * height` pixel slots of 4 bytes each.
    pub open spec fn byte_len(self) -> int {
        4 * (self.stride * self.height)
    }

    /// Builds the descriptor for one raw mode information.
    ///
    /// Fails with `MalformedModeInfo` exactly when the tag demands channel
    /// masks and they are absent or overlap; any other tag always succeeds.
    pub fn from_mode_info(info: &RawModeInfo) -> (r: Result<PixelFormatDescriptor, GraphicsError>)
        requires
            info.width <= info.stride,
            info.width <= i32::MAX,
            info.height <= i32::MAX,
        ensures
            r is Ok <==> mode_info_valid(*info),
            r matches Ok(d) ==> d == (PixelFormatDescriptor {
                format: spec_format_of(*info),
                width: info.width,
                height: info.height,
                stride: info.stride,
            }) && d.wf(),
            r matches Err(e) ==> e == GraphicsError::MalformedModeInfo,
    {
        let format = match info.tag {
            FormatTag::Rgb => PixelFormat::DirectRgb,
            FormatTag::Bgr => PixelFormat::DirectBgr,
            FormatTag::Bitmask => {
                match info.masks {
                    Some(m) => {
                        if m.red & m.green != 0 || m.red & m.blue != 0 || m.green & m.blue != 0 {
                            return Err(GraphicsError::MalformedModeInfo);
                        }
                        PixelFormat::Bitmask { red: m.red, green: m.green, blue: m.blue }
                    },
                    None => {
                        return Err(GraphicsError::MalformedModeInfo);
                    },
                }
            },
            FormatTag::BlitOnly => PixelFormat::BlitOnly,
        };
        Ok(PixelFormatDescriptor {
            format,
            width: info.width,
            height: info.height,
            stride: info.stride,
        })
    }
}

} // verus!
