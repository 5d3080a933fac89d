//! Swapchain support: the selection policy over what the surface reports.
//!
//! Querying the surface's capabilities, formats and present modes is a
//! native call; choosing among them — the format this engine renders in, the
//! present mode, the extent clamped to the surface's bounds, the image
//! count — is plain logic and is verified here.

use vstd::prelude::*;

use crate::handles::ImageFormat;

verus! {

/// A width and height in pixels.
#[derive(Debug, Clone, Copy, PartialEq, Eq, Structural)]
pub struct Extent2d {
    pub width: u32,
    pub height: u32,
}

/// The color spaces this engine distinguishes.
#[derive(Debug, Clone, Copy, PartialEq, Eq, Structural)]
pub enum ColorSpace {
    SrgbNonlinear,
    Other,
}

/// One surface format the device offers.
#[derive(Debug, Clone, Copy, PartialEq, Eq, Structural)]
pub struct SurfaceFormat {
    pub format: ImageFormat,
    pub color_space: ColorSpace,
}

/// The present modes the device may offer.
#[derive(Debug, Clone, Copy, PartialEq, Eq, Structural)]
pub enum PresentMode {
    Immediate,
    Mailbox,
    Fifo,
    FifoRelaxed,
}

/// The surface capabilities the selection policy reads. The native query
/// guarantees the minimum extent never exceeds the maximum.
#[derive(Debug, Clone, Copy, PartialEq, Eq, Structural)]
pub struct SurfaceCapabilities {
    /// The surface's current extent; a width of `u32::MAX` means the surface
    /// lets the swapchain choose.
    pub current_extent: Extent2d,
    pub min_image_extent: Extent2d,
    pub max_image_extent: Extent2d,
    pub min_image_count: u32,
    /// Zero means no maximum.
    pub max_image_count: u32,
}

/// What the surface reported, gathered by the driver: capabilities, the
/// offered formats and present modes, and the window's size at query time.
#[derive(Debug, Clone, PartialEq, Eq)]
pub struct SwapchainSupportDetails {
    pub capabilities: SurfaceCapabilities,
    pub formats: Vec<SurfaceFormat>,
    pub present_modes: Vec<PresentMode>,
    pub window_size: Extent2d,
}

/// The one format this engine renders in.
pub open spec fn preferred_format(f: SurfaceFormat) -> bool {
    f.format is R16G16B16A16Sfloat && f.color_space is SrgbNonlinear
}

/// `v` clamped into `[lo, hi]`.
pub open spec fn spec_clamp(v: u32, lo: u32, hi: u32) -> u32
    recommends
        lo <= hi,
{
    if v < lo {
        lo
    } else if v > hi {
        hi
    } else {
        v
    }
}

fn clamp_u32(v: u32, lo: u32, hi: u32) -> (r: u32)
    requires
        lo <= hi,
    ensures
        r == spec_clamp(v, lo, hi),
{
    if v < lo {
        lo
    } else if v > hi {
        hi
    } else {
        v
    }
}

impl SwapchainSupportDetails {
    pub fn new(
        capabilities: SurfaceCapabilities,
        formats: Vec<SurfaceFormat>,
        present_modes: Vec<PresentMode>,
        window_size: Extent2d,
    ) -> (r: SwapchainSupportDetails)
        ensures
            r.capabilities == capabilities,
            r.formats@ == formats@,
            r.present_modes@ == present_modes@,
            r.window_size == window_size,
    {
        SwapchainSupportDetails { capabilities, formats, present_modes, window_size }
    }

    /// A surface is adequate exactly when it offers at least one format and
    /// one present mode.
    pub fn is_swapchain_adequate(&self) -> (r: bool)
        ensures
            r == (self.formats@.len() > 0 && self.present_modes@.len() > 0),
    {
        self.formats.len() > 0 && self.present_modes.len() > 0
    }

    /// The engine's render format, which the surface must offer: a
    /// 16-bit-per-channel float format in the nonlinear sRGB color space.
    pub fn choose_swapchain_format(&self) -> (r: SurfaceFormat)
        requires
            exists|i: int|
                0 <= i < self.formats@.len() && preferred_format(#[trigger] self.formats@[i]),
        ensures
            r == (SurfaceFormat {
                format: ImageFormat::R16G16B16A16Sfloat,
                color_space: ColorSpace::SrgbNonlinear,
            }),
            self.formats@.contains(r),
    {
        let mut k: usize = 0;
        let total = self.formats.len();
        loop
            invariant
                k <= self.formats@.len(),
                total == self.formats@.len(),
                exists|i: int|
                    0 <= i < self.formats@.len() && preferred_format(#[trigger] self.formats@[i]),
                forall|j: int| 0 <= j < k ==> !preferred_format(#[trigger] self.formats@[j]),
            decreases self.formats@.len() - k,
        {
            if k >= total {
                proof {
                    let i = choose|i: int|
                        0 <= i < self.formats@.len() && preferred_format(
                            #[trigger] self.formats@[i],
                        );
                    assert(!preferred_format(self.formats@[i]));
                    assert(false);
                }
            }
            let f = self.formats[k];
            if matches!(f.format, ImageFormat::R16G16B16A16Sfloat) && matches!(
                f.color_space,
                ColorSpace::SrgbNonlinear,
            ) {
                proof {
                    assert(self.formats@.contains(self.formats@[k as int]));
                }
                return f;
            }
            k = k + 1;
        }
    }

    /// The present mode this engine runs with: first-in-first-out
    /// (vertical-sync-like), which the surface must offer.
    pub fn choose_swapchain_present_mode(&self) -> (r: PresentMode)
        requires
            self.present_modes@.contains(PresentMode::Fifo),
        ensures
            r is Fifo,
    {
        let mut k: usize = 0;
        let total = self.present_modes.len();
        loop
            invariant
                k <= self.present_modes@.len(),
                total == self.present_modes@.len(),
                self.present_modes@.contains(PresentMode::Fifo),
                forall|j: int| 0 <= j < k ==> self.present_modes@[j] != PresentMode::Fifo,
            decreases self.present_modes@.len() - k,
        {
            if k >= total {
                proof {
                    let i = choose|i: int|
                        0 <= i < self.present_modes@.len() && self.present_modes@[i]
                            == PresentMode::Fifo;
                    assert(false);
                }
            }
            if matches!(self.present_modes[k], PresentMode::Fifo) {
                return PresentMode::Fifo;
            }
            k = k + 1;
        }
    }

    /// The swapchain extent: the surface's current extent where the surface
    /// fixes it, else the window's size clamped into the surface's bounds.
    pub fn choose_swapchain_extent(&self) -> (r: Extent2d)
        requires
            self.capabilities.min_image_extent.width <= self.capabilities.max_image_extent.width,
            self.capabilities.min_image_extent.height <= self.capabilities.max_image_extent.height,
        ensures
            self.capabilities.current_extent.width != u32::MAX ==> r
                == self.capabilities.current_extent,
            self.capabilities.current_extent.width == u32::MAX ==> r == (Extent2d {
                width: spec_clamp(
                    self.window_size.width,
                    self.capabilities.min_image_extent.width,
                    self.capabilities.max_image_extent.width,
                ),
                height: spec_clamp(
                    self.window_size.height,
                    self.capabilities.min_image_extent.height,
                    self.capabilities.max_image_extent.height,
                ),
            }),
    {
        if self.capabilities.current_extent.width != u32::MAX {
            self.capabilities.current_extent
        } else {
            Extent2d {
                width: clamp_u32(
                    self.window_size.width,
                    self.capabilities.min_image_extent.width,
                    self.capabilities.max_image_extent.width,
                ),
                height: clamp_u32(
                    self.window_size.height,
                    self.capabilities.min_image_extent.height,
                    self.capabilities.max_image_extent.height,
                ),
            }
        }
    }

    /// How many swapchain images to request: one more than the surface's
    /// minimum, capped at its maximum where one exists (zero means none).
    pub fn choose_image_count(&self) -> (r: u32)
        requires
            self.capabilities.min_image_count < u32::MAX,
        ensures
            r as int == if self.capabilities.max_image_count > 0
                && self.capabilities.min_image_count + 1 > self.capabilities.max_image_count {
                self.capabilities.max_image_count as int
            } else {
                self.capabilities.min_image_count as int + 1
            },
    {
        let min_image_count = self.capabilities.min_image_count + 1;
        let max_image_count = self.capabilities.max_image_count;
        if max_image_count > 0 && min_image_count > max_image_count {
            return max_image_count;
        }
        min_image_count
    }
}

} // verus!
