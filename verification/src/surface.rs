//! The presentable surface's configuration and the choice of its pixel
//! format.

use vstd::prelude::*;

verus! {

/// The color formats a surface may offer.
#[derive(Clone, Copy, PartialEq, Eq, Structural, Debug)]
pub enum PixelFormat {
    Rgba8Unorm,
    Rgba8UnormSrgb,
    Bgra8Unorm,
    Bgra8UnormSrgb,
}

impl PixelFormat {
    /// Whether the format stores sRGB-encoded values.
    pub open spec fn spec_is_srgb(self) -> bool {
        match self {
            PixelFormat::Rgba8UnormSrgb => true,
            PixelFormat::Bgra8UnormSrgb => true,
            PixelFormat::Rgba8Unorm => false,
            PixelFormat::Bgra8Unorm => false,
        }
    }

    pub fn is_srgb(&self) -> (r: bool)
        ensures
            r == self.spec_is_srgb(),
    {
        match self {
            PixelFormat::Rgba8UnormSrgb => true,
            PixelFormat::Bgra8UnormSrgb => true,
            PixelFormat::Rgba8Unorm => false,
            PixelFormat::Bgra8Unorm => false,
        }
    }
}

/// How presentation waits on the display.
#[derive(Clone, Copy, PartialEq, Eq, Structural, Debug)]
pub enum PresentMode {
    AutoVsync,
    AutoNoVsync,
    Fifo,
    FifoRelaxed,
    Immediate,
    Mailbox,
}

/// How the surface's alpha channel is composited.
#[derive(Clone, Copy, PartialEq, Eq, Structural, Debug)]
pub enum AlphaMode {
    Auto,
    Opaque,
    PreMultiplied,
    PostMultiplied,
    Inherit,
}

/// What the surface's textures are used for.
#[derive(Clone, Copy, PartialEq, Eq, Structural, Debug)]
pub enum TextureUsage {
    RenderAttachment,
}

/// Everything a surface is configured with.  The surface must be
/// reconfigured from this whenever it changes, and only while both
/// dimensions are positive.
#[derive(Clone, Copy, PartialEq, Eq, Structural, Debug)]
pub struct SurfaceConfig {
    pub usage: TextureUsage,
    pub format: PixelFormat,
    pub width: u32,
    pub height: u32,
    pub present_mode: PresentMode,
    pub alpha_mode: AlphaMode,
    pub desired_maximum_frame_latency: u32,
}

impl SurfaceConfig {
    pub open spec fn drawable(self) -> bool {
        self.width > 0 && self.height > 0
    }

    /// The initial configuration: render-attachment usage, the chosen
    /// format and size, the given present and alpha modes, and a frame
    /// latency of two.
    pub fn new(
        format: PixelFormat,
        width: u32,
        height: u32,
        present_mode: PresentMode,
        alpha_mode: AlphaMode,
    ) -> (r: SurfaceConfig)
        requires
            width > 0,
            height > 0,
        ensures
            r == (SurfaceConfig {
                usage: TextureUsage::RenderAttachment,
                format,
                width,
                height,
                present_mode,
                alpha_mode,
                desired_maximum_frame_latency: 2,
            }),
    {
        SurfaceConfig {
            usage: TextureUsage::RenderAttachment,
            format,
            width,
            height,
            present_mode,
            alpha_mode,
            desired_maximum_frame_latency: 2,
        }
    }
}

/// Whether any offered format is sRGB-encoded.
pub open spec fn has_srgb(formats: Seq<PixelFormat>) -> bool {
    exists|i: int| 0 <= i < formats.len() && (#[trigger] formats[i]).spec_is_srgb()
}

/// Choose the surface format: the first sRGB-encoded format among the
/// offered ones, or the first offered format if none is sRGB.
pub fn select_surface_format(formats: &Vec<PixelFormat>) -> (r: PixelFormat)
    requires
        formats@.len() > 0,
    ensures
        has_srgb(formats@) ==> exists|i: int|
            {
                &&& 0 <= i < formats@.len()
                &&& r == formats@[i]
                &&& (#[trigger] formats@[i]).spec_is_srgb()
                &&& forall|j: int| 0 <= j < i ==> !(#[trigger] formats@[j]).spec_is_srgb()
            },
        !has_srgb(formats@) ==> r == formats@[0],
{
    let mut i: usize = 0;
    while i < formats.len()
        invariant
            i <= formats@.len(),
            forall|j: int| 0 <= j < i ==> !(#[trigger] formats@[j]).spec_is_srgb(),
        decreases formats@.len() - i,
    {
        if formats[i].is_srgb() {
            return formats[i];
        }
        i += 1;
    }
    formats[0]
}

} // verus!
