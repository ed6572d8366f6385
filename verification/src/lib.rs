//! A verified framebuffer drawing adapter.
//!
//! The crate turns color-model-agnostic "set pixel P to color C" requests
//! into bounds-checked writes against a linear framebuffer whose pixel
//! encoding (channel order, bit width, or no direct access at all) is only
//! discovered at runtime.  It provides:
//!
//! - pure conversions between the supported color layouts ([`color`]),
//! - runtime pixel-format descriptors built from raw mode information
//!   ([`descriptor`]),
//! - the drawing adapter itself with single-pixel writes and a full-surface
//!   clear ([`adapter`]),
//! - a scaled blit that maps a source image's coordinate space onto the
//!   adapter's surface ([`blit`]),
//! - decoding of TGA images into pixel streams for the blit ([`image`]),
//! - the pure decisions behind firmware mode selection ([`mode`]).

pub mod adapter;
pub mod blit;
pub mod color;
pub mod descriptor;
pub mod image;
pub mod mode;
