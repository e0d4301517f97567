//! Models of what a presentation surface reports about a physical device:
//! formats, present modes and capabilities, as plain values. The layer that
//! talks to the driver fills these from its surface queries.

use vstd::prelude::*;

verus! {

/// Numeric code of the 8-bit RGBA unsigned-normalized format.
pub const FORMAT_R8G8B8A8_UNORM: u32 = 37;

/// Numeric code of the 8-bit BGRA sRGB format the renderer draws into.
pub const FORMAT_B8G8R8A8_SRGB: u32 = 50;

/// Numeric code of the non-linear sRGB color space.
pub const COLOR_SPACE_SRGB_NONLINEAR: u32 = 0;

/// Numeric code of the immediate (unsynchronized) present mode.
pub const PRESENT_MODE_IMMEDIATE: u32 = 0;

/// Numeric code of the mailbox present mode.
pub const PRESENT_MODE_MAILBOX: u32 = 1;

/// Numeric code of the FIFO (vsync'd, always supported) present mode.
pub const PRESENT_MODE_FIFO: u32 = 2;

/// A pixel format paired with a color space, as the surface reports it.
#[derive(Debug, Clone, Copy, PartialEq, Eq, Structural)]
pub struct SurfaceFormat {
    pub format: u32,
    pub color_space: u32,
}

/// A width and height in pixels.
#[derive(Debug, Clone, Copy, PartialEq, Eq, Structural)]
pub struct Extent2d {
    pub width: u32,
    pub height: u32,
}

/// What the surface reports about image counts, sizing and orientation.
///
/// A `max_image_count` of zero means the surface imposes no upper cap. A
/// `current_extent` whose height is `u32::MAX` means the surface leaves the
/// extent undefined. `current_transform` carries the surface's orientation
/// flags through unmodified.
#[derive(Debug, Clone, Copy, PartialEq, Eq, Structural)]
pub struct SurfaceCapabilities {
    pub min_image_count: u32,
    pub max_image_count: u32,
    pub current_extent: Extent2d,
    pub current_transform: u32,
}

/// Everything a physical device reports about one surface: its capabilities
/// and the formats and present modes it can present with.
#[derive(Debug, Clone, PartialEq, Eq)]
pub struct PhysicalDeviceSurfaceInfo {
    pub capabilities: SurfaceCapabilities,
    pub formats: Vec<SurfaceFormat>,
    pub present_modes: Vec<u32>,
}

} // verus!
