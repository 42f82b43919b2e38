//! Output pixel formats and their mapping to display format identifiers.

use vstd::prelude::*;

verus! {

/// The pixel formats the pipeline can be configured to emit. The
/// default is planar 4:2:0.
#[derive(Clone, Copy, Debug, PartialEq, Eq, Structural)]
pub enum PixelFormat {
    Yuv420p,
    Yuyv422,
    Uyvy422,
    Rgb24,
}

/// Display-side format identifiers for streaming textures.
#[derive(Clone, Copy, Debug, PartialEq, Eq, Structural)]
pub enum DisplayPixelFormat {
    Iyuv,
    Yuy2,
    Uyvy,
    Rgb24,
}

impl PixelFormat {
    /// How many planes a decoded frame of this format carries: planar
    /// 4:2:0 has three, the packed formats a single one.
    pub open spec fn spec_plane_count(self) -> nat {
        match self {
            PixelFormat::Yuv420p => 3,
            _ => 1,
        }
    }

    pub fn plane_count(self) -> (r: usize)
        ensures
            r == self.spec_plane_count(),
    {
        match self {
            PixelFormat::Yuv420p => 3,
            _ => 1,
        }
    }
}

/// Translates the core's output format choice to the display's format
/// identifier: planar 4:2:0 to IYUV, the packed 4:2:2 variants to
/// YUY2 / UYVY, otherwise RGB24.
pub fn av_to_sdl_pixel_format_mapper(fmt: &PixelFormat) -> (r: DisplayPixelFormat)
    ensures
        r == (match fmt {
            PixelFormat::Yuv420p => DisplayPixelFormat::Iyuv,
            PixelFormat::Yuyv422 => DisplayPixelFormat::Yuy2,
            PixelFormat::Uyvy422 => DisplayPixelFormat::Uyvy,
            PixelFormat::Rgb24 => DisplayPixelFormat::Rgb24,
        }),
{
    match fmt {
        PixelFormat::Yuv420p => DisplayPixelFormat::Iyuv,
        PixelFormat::Yuyv422 => DisplayPixelFormat::Yuy2,
        PixelFormat::Uyvy422 => DisplayPixelFormat::Uyvy,
        PixelFormat::Rgb24 => DisplayPixelFormat::Rgb24,
    }
}

} // verus!
