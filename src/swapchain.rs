use vstd::prelude::*;

use crate::error::SetupError;

verus! {

/// Image usage bit: the image can be a color attachment.
pub const USAGE_COLOR_ATTACHMENT: u32 = 0x10;

/// The sRGB non-linear color space.
pub const COLOR_SPACE_SRGB_NONLINEAR: u32 = 0;

/// How presented images are queued for display.
#[derive(Clone, Copy, Debug, PartialEq, Eq, Structural)]
pub enum PresentMode {
    Immediate,
    Mailbox,
    Fifo,
    FifoRelaxed,
}

/// A width and a height in pixels.
#[derive(Clone, Copy, Debug, PartialEq, Eq, Structural)]
pub struct Extent2D {
    pub width: u32,
    pub height: u32,
}

/// What a surface advertises to a device.
#[derive(Clone, Debug)]
pub struct SurfaceCaps {
    /// Supported image formats, in the order advertised.
    pub formats: Vec<u32>,
    pub present_modes: Vec<PresentMode>,
    /// Bit set of the supported image usages.
    pub usage_flags: u32,
    pub min_image_count: u32,
    /// Largest image count; 0 when there is no bound.
    pub max_image_count: u32,
    pub current_extent: Extent2D,
    pub current_transform: u32,
    /// Supported alpha composition modes, in the order advertised.
    pub alpha_modes: Vec<u32>,
}

/// The negotiated swapchain configuration.
#[derive(Clone, Copy, Debug, PartialEq, Eq, Structural)]
pub struct SwapchainCfg {
    pub num_of_images: u32,
    pub format: u32,
    pub color_space: u32,
    pub present_mode: PresentMode,
    pub usage: u32,
    pub extent: Extent2D,
    pub transform: u32,
    pub alpha: u32,
}

impl SurfaceCaps {
    /// The image count bounds are consistent.
    pub open spec fn wf(&self) -> bool {
        self.max_image_count == 0 || self.min_image_count <= self.max_image_count
    }

    pub open spec fn fifo_supported(&self) -> bool {
        self.present_modes@.contains(PresentMode::Fifo)
    }

    pub open spec fn color_attachment_supported(&self) -> bool {
        self.usage_flags & USAGE_COLOR_ATTACHMENT == USAGE_COLOR_ATTACHMENT
    }
}

/// The outcome of negotiating a swapchain with a surface: FIFO and color
/// attachment usage are required; then the first format, sRGB non-linear,
/// the least image count, the current extent and transform, and the first
/// alpha composition mode are chosen.
pub open spec fn negotiation(caps: &SurfaceCaps) -> Result<SwapchainCfg, SetupError> {
    if !caps.fifo_supported() {
        Err(SetupError::FifoUnsupported)
    } else if !caps.color_attachment_supported() {
        Err(SetupError::ColorAttachmentUnsupported)
    } else if caps.formats@.len() == 0 {
        Err(SetupError::NoSurfaceFormat)
    } else if caps.alpha_modes@.len() == 0 {
        Err(SetupError::NoAlphaComposition)
    } else {
        Ok(
            SwapchainCfg {
                num_of_images: caps.min_image_count,
                format: caps.formats@[0],
                color_space: COLOR_SPACE_SRGB_NONLINEAR,
                present_mode: PresentMode::Fifo,
                usage: USAGE_COLOR_ATTACHMENT,
                extent: caps.current_extent,
                transform: caps.current_transform,
                alpha: caps.alpha_modes@[0],
            },
        )
    }
}

/// Whether `mode` is among the surface's present modes.
pub fn is_mode_supported(caps: &SurfaceCaps, mode: PresentMode) -> (r: bool)
    ensures
        r == caps.present_modes@.contains(mode),
{
    let mut i: usize = 0;
    while i < caps.present_modes.len()
        invariant
            i <= caps.present_modes@.len(),
            forall|k: int| 0 <= k < i ==> caps.present_modes@[k] != mode,
        decreases caps.present_modes@.len() - i,
    {
        if caps.present_modes[i] == mode {
            return true;
        }
        i = i + 1;
    }
    false
}

/// Whether every bit of `flags` is a supported usage of the surface.
pub fn is_flags_supported(caps: &SurfaceCaps, flags: u32) -> (r: bool)
    ensures
        r == (caps.usage_flags & flags == flags),
{
    caps.usage_flags & flags == flags
}

/// Negotiates the swapchain configuration from the surface's capabilities.
/// Fails, and goes no further, when FIFO presentation or color attachment
/// usage is not supported, or when no format or alpha mode is advertised.
pub fn negotiate(caps: &SurfaceCaps) -> (r: Result<SwapchainCfg, SetupError>)
    ensures
        r == negotiation(caps),
{
    if !is_mode_supported(caps, PresentMode::Fifo) {
        return Err(SetupError::FifoUnsupported);
    }
    if !is_flags_supported(caps, USAGE_COLOR_ATTACHMENT) {
        return Err(SetupError::ColorAttachmentUnsupported);
    }
    if caps.formats.len() == 0 {
        return Err(SetupError::NoSurfaceFormat);
    }
    if caps.alpha_modes.len() == 0 {
        return Err(SetupError::NoAlphaComposition);
    }
    Ok(
        SwapchainCfg {
            num_of_images: caps.min_image_count,
            format: caps.formats[0],
            color_space: COLOR_SPACE_SRGB_NONLINEAR,
            present_mode: PresentMode::Fifo,
            usage: USAGE_COLOR_ATTACHMENT,
            extent: caps.current_extent,
            transform: caps.current_transform,
            alpha: caps.alpha_modes[0],
        },
    )
}

/// Negotiation does not go on when the surface lacks FIFO presentation or
/// color attachment usage: it fails, and with the same error every time.
pub proof fn lemma_negotiation_requires_fifo_and_color(caps: &SurfaceCaps)
    ensures
        !caps.fifo_supported() ==> negotiation(caps) == Err::<SwapchainCfg, SetupError>(
            SetupError::FifoUnsupported,
        ),
        caps.fifo_supported() && !caps.color_attachment_supported() ==> negotiation(caps)
            == Err::<SwapchainCfg, SetupError>(SetupError::ColorAttachmentUnsupported),
        negotiation(caps) is Ok ==> caps.fifo_supported() && caps.color_attachment_supported(),
{
}

} // verus!
