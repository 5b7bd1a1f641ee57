//! The presentation surface: the resizable swap chain.

use crate::texture::PixelFormat;
use vstd::prelude::*;

verus! {

/// Presentation pacing of the swap chain.  This pipeline uses the
/// low-latency, triple-buffered mode.
#[derive(Clone, Copy, PartialEq, Eq, Structural, Debug)]
pub enum PresentMode {
    Mailbox,
    Fifo,
}

/// The swap chain's configuration.  Recreated with fresh dimensions on
/// every resize, keeping the same format and present mode.
#[derive(Clone, Copy, PartialEq, Eq, Structural, Debug)]
pub struct SurfaceConfig {
    pub width: u32,
    pub height: u32,
    pub format: PixelFormat,
    pub present_mode: PresentMode,
}

/// A live surface configuration: positive dimensions, the fixed format,
/// the low-latency present mode.
pub open spec fn surface_ok(config: SurfaceConfig) -> bool {
    &&& 1 <= config.width
    &&& 1 <= config.height
    &&& config.format == PixelFormat::Bgra8UnormSrgb
    &&& config.present_mode == PresentMode::Mailbox
}

/// The startup swap-chain configuration at the given size.
pub fn configure_surface(width: u32, height: u32) -> (config: SurfaceConfig)
    requires
        1 <= width,
        1 <= height,
    ensures
        surface_ok(config),
        config.width == width,
        config.height == height,
{
    SurfaceConfig {
        width,
        height,
        format: PixelFormat::Bgra8UnormSrgb,
        present_mode: PresentMode::Mailbox,
    }
}

/// Rebuild the swap chain with new dimensions and the same format and
/// present mode as before.
pub fn resize_surface(config: &mut SurfaceConfig, width: u32, height: u32)
    requires
        surface_ok(*old(config)),
        1 <= width,
        1 <= height,
    ensures
        surface_ok(*final(config)),
        final(config).width == width,
        final(config).height == height,
        final(config).format == old(config).format,
        final(config).present_mode == old(config).present_mode,
{
    config.width = width;
    config.height = height;
}

} // verus!
