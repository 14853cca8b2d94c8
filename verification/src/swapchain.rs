//! The swapchain: the set of presentable images cycling between render
//! and display. Its configuration is derived from queried surface
//! capabilities (format, present mode, extent, image count), and
//! recreation installs a new native swapchain before the old handle is
//! surrendered, never the other way round.

use vstd::prelude::*;

use crate::handle::HandleSlot;
use crate::spec_select_color_format;
use crate::spec_select_present_mode;
use crate::select_color_format;
use crate::select_present_mode;
use crate::types::Extent2d;
use crate::types::Format;
use crate::types::PresentMode;
use crate::types::SurfaceCaps;
use crate::types::EXTENT_UNDEFINED;
use crate::types::caps_wf;

verus! {

/// The parameters a native swapchain is created with.
#[derive(Clone, Copy, Debug, PartialEq, Eq, Structural)]
pub struct SwapchainConfig {
    pub format: Format,
    pub present_mode: PresentMode,
    /// Number of images to request from the driver.
    pub image_count: u32,
    pub extent: Extent2d,
}

/// `x` clamped into `[lo, hi]` (callers keep `lo <= hi`).
pub open spec fn spec_clamp_u32(x: u32, lo: u32, hi: u32) -> u32 {
    if x < lo {
        lo
    } else if x > hi {
        hi
    } else {
        x
    }
}

/// The requested image count clamped to the surface's bounds; an upper
/// bound of zero means the surface imposes none.
pub open spec fn spec_clamped_image_count(caps: SurfaceCaps, desired: u32) -> u32 {
    let lo = if desired < caps.min_image_count {
        caps.min_image_count
    } else {
        desired
    };
    if caps.max_image_count != 0 && lo > caps.max_image_count {
        caps.max_image_count
    } else {
        lo
    }
}

/// The extent the swapchain is created at: the surface's current extent
/// when it mandates one, else the window's extent clamped to the
/// surface's bounds.
pub open spec fn spec_clamped_extent(caps: SurfaceCaps, window: Extent2d) -> Extent2d {
    if caps.current_extent.width != EXTENT_UNDEFINED {
        caps.current_extent
    } else {
        Extent2d {
            width: spec_clamp_u32(window.width, caps.min_extent.width, caps.max_extent.width),
            height: spec_clamp_u32(window.height, caps.min_extent.height, caps.max_extent.height),
        }
    }
}

/// Executable counterpart of [`spec_clamp_u32`].
fn clamp_u32(x: u32, lo: u32, hi: u32) -> (r: u32)
    ensures
        r == spec_clamp_u32(x, lo, hi),
{
    if x < lo {
        lo
    } else if x > hi {
        hi
    } else {
        x
    }
}

/// Derives the full swapchain configuration from queried surface data:
/// color format and present mode by their selection policies, image
/// count and extent clamped to the capabilities.
pub fn plan_swapchain(
    caps: &SurfaceCaps,
    formats: &Vec<Format>,
    favored_format: Option<Format>,
    present_modes: &Vec<PresentMode>,
    favored_mode: Option<PresentMode>,
    desired_image_count: u32,
    window_extent: Extent2d,
) -> (c: SwapchainConfig)
    requires
        caps_wf(*caps),
    ensures
        c.format == spec_select_color_format(formats@, favored_format),
        c.present_mode == spec_select_present_mode(present_modes@, favored_mode),
        c.image_count == spec_clamped_image_count(*caps, desired_image_count),
        c.extent == spec_clamped_extent(*caps, window_extent),
        1 <= c.image_count,
{
    let format = select_color_format(formats, favored_format);
    let present_mode = select_present_mode(present_modes, favored_mode);
    let lo = if desired_image_count < caps.min_image_count {
        caps.min_image_count
    } else {
        desired_image_count
    };
    let image_count = if caps.max_image_count != 0 && lo > caps.max_image_count {
        caps.max_image_count
    } else {
        lo
    };
    let extent = if caps.current_extent.width != EXTENT_UNDEFINED {
        caps.current_extent
    } else {
        Extent2d {
            width: clamp_u32(window_extent.width, caps.min_extent.width, caps.max_extent.width),
            height: clamp_u32(
                window_extent.height,
                caps.min_extent.height,
                caps.max_extent.height,
            ),
        }
    };
    SwapchainConfig { format, present_mode, image_count, extent }
}

/// Why a swapchain could not be wrapped.
#[derive(Clone, Copy, Debug, PartialEq, Eq, Structural)]
pub enum SwapchainCreationError {
    /// The queried capabilities are contradictory.
    InvalidCapabilities,
    /// The driver returned no presentable images.
    NoPresentableImages,
}

/// The swapchain: capabilities snapshot, chosen configuration, native
/// handle and the backing image set.
#[derive(Debug)]
pub struct Swapchain {
    pub caps: SurfaceCaps,
    pub format: Format,
    pub present_mode: PresentMode,
    pub extent: Extent2d,
    /// Number of backing images actually retrieved.
    pub image_count: u32,
    pub swapchain: HandleSlot,
    /// Native handles of the backing images, in presentation order.
    pub images: Vec<u64>,
}

impl Swapchain {
    /// A live swapchain owns its handle and has at least one backing
    /// image; the cached count equals the image set's size.
    pub open spec fn wf(self) -> bool {
        &&& self.swapchain.is_held()
        &&& self.image_count as int == self.images@.len()
        &&& 1 <= self.images@.len() <= u32::MAX
    }

    /// Wraps a created swapchain: chooses format and present mode by
    /// their policies, derives the extent from the capabilities, and
    /// takes ownership of the native handle and its backing images.
    /// Fails exactly on contradictory capabilities or an empty image
    /// set.
    pub fn new(
        caps: SurfaceCaps,
        formats: &Vec<Format>,
        favored_format: Option<Format>,
        present_modes: &Vec<PresentMode>,
        favored_mode: Option<PresentMode>,
        window_extent: Extent2d,
        swapchain_handle: u64,
        images: Vec<u64>,
    ) -> (r: Result<Swapchain, SwapchainCreationError>)
        requires
            images@.len() <= u32::MAX,
        ensures
            match r {
                Ok(sc) => {
                    &&& caps_wf(caps)
                    &&& images@.len() >= 1
                    &&& sc.wf()
                    &&& sc.caps == caps
                    &&& sc.format == spec_select_color_format(formats@, favored_format)
                    &&& sc.present_mode == spec_select_present_mode(present_modes@, favored_mode)
                    &&& sc.extent == spec_clamped_extent(caps, window_extent)
                    &&& sc.image_count as int == images@.len()
                    &&& sc.swapchain.raw() == swapchain_handle
                    &&& sc.images@ == images@
                },
                Err(SwapchainCreationError::InvalidCapabilities) => !caps_wf(caps),
                Err(SwapchainCreationError::NoPresentableImages) => caps_wf(caps) && images@.len()
                    == 0,
            },
    {
        if !caps_wf_exec(&caps) {
            return Err(SwapchainCreationError::InvalidCapabilities);
        }
        if images.len() == 0 {
            return Err(SwapchainCreationError::NoPresentableImages);
        }
        let format = select_color_format(formats, favored_format);
        let present_mode = select_present_mode(present_modes, favored_mode);
        let extent = if caps.current_extent.width != EXTENT_UNDEFINED {
            caps.current_extent
        } else {
            Extent2d {
                width: clamp_u32(window_extent.width, caps.min_extent.width, caps.max_extent.width),
                height: clamp_u32(
                    window_extent.height,
                    caps.min_extent.height,
                    caps.max_extent.height,
                ),
            }
        };
        let image_count = images.len() as u32;
        Ok(
            Swapchain {
                caps,
                format,
                present_mode,
                extent,
                image_count,
                swapchain: HandleSlot::new(swapchain_handle),
                images,
            },
        )
    }

    /// Installs a replacement swapchain built against fresh
    /// capabilities. The caller creates the new native swapchain first
    /// — passing the still-valid current handle (see
    /// [`Self::get_swapchain_raw`]) to the driver so presentation never
    /// gaps — and only then calls this, which swaps the new handle into
    /// place and returns the old one for destruction afterwards. The
    /// chosen format and present mode are kept; extent and image set are
    /// derived anew.
    pub fn recreate(
        &mut self,
        new_caps: SurfaceCaps,
        window_extent: Extent2d,
        new_swapchain_handle: u64,
        new_images: Vec<u64>,
    ) -> (r: Result<u64, SwapchainCreationError>)
        requires
            old(self).wf(),
            new_images@.len() <= u32::MAX,
        ensures
            match r {
                Ok(old_handle) => {
                    &&& caps_wf(new_caps)
                    &&& new_images@.len() >= 1
                    &&& old_handle == old(self).swapchain.raw()
                    &&& final(self).wf()
                    &&& *final(self) == (Swapchain {
                        caps: new_caps,
                        extent: spec_clamped_extent(new_caps, window_extent),
                        image_count: new_images@.len() as u32,
                        swapchain: (HandleSlot { handle: Some(new_swapchain_handle) }),
                        images: new_images,
                        ..*old(self)
                    })
                },
                Err(SwapchainCreationError::InvalidCapabilities) => !caps_wf(new_caps)
                    && *final(self) == *old(self),
                Err(SwapchainCreationError::NoPresentableImages) => caps_wf(new_caps)
                    && new_images@.len() == 0 && *final(self) == *old(self),
            },
    {
        if !caps_wf_exec(&new_caps) {
            return Err(SwapchainCreationError::InvalidCapabilities);
        }
        if new_images.len() == 0 {
            return Err(SwapchainCreationError::NoPresentableImages);
        }
        let extent = if new_caps.current_extent.width != EXTENT_UNDEFINED {
            new_caps.current_extent
        } else {
            Extent2d {
                width: clamp_u32(
                    window_extent.width,
                    new_caps.min_extent.width,
                    new_caps.max_extent.width,
                ),
                height: clamp_u32(
                    window_extent.height,
                    new_caps.min_extent.height,
                    new_caps.max_extent.height,
                ),
            }
        };
        let image_count = new_images.len() as u32;
        let old_handle = self.swapchain.take();
        self.swapchain = HandleSlot::new(new_swapchain_handle);
        self.caps = new_caps;
        self.extent = extent;
        self.image_count = image_count;
        self.images = new_images;
        Ok(old_handle)
    }

    /// The backing images, in presentation order.
    pub fn get_images(&self) -> (r: &Vec<u64>)
        ensures
            r@ == self.images@,
    {
        &self.images
    }

    /// The capabilities snapshot the swapchain was created against.
    pub fn get_capabilities(&self) -> (c: SurfaceCaps)
        ensures
            c == self.caps,
    {
        self.caps
    }

    /// The chosen color format.
    pub fn get_surface_format(&self) -> (f: Format)
        ensures
            f == self.format,
    {
        self.format
    }

    /// The extent the swapchain presents at.
    pub fn get_extent(&self) -> (e: Extent2d)
        ensures
            e == self.extent,
    {
        self.extent
    }

    /// Native handle of the swapchain; also what the driver needs as the
    /// predecessor when a replacement is created.
    pub fn get_swapchain_raw(&self) -> (h: u64)
        requires
            self.swapchain.is_held(),
        ensures
            h == self.swapchain.raw(),
    {
        self.swapchain.peek()
    }

    /// Surrenders the handle for destruction.
    pub fn release(&mut self) -> (h: u64)
        requires
            old(self).swapchain.is_held(),
        ensures
            !final(self).swapchain.is_held(),
            h == old(self).swapchain.raw(),
    {
        self.swapchain.take()
    }
}

/// Executable counterpart of [`caps_wf`].
fn caps_wf_exec(c: &SurfaceCaps) -> (r: bool)
    ensures
        r == caps_wf(*c),
{
    1 <= c.min_image_count && (c.max_image_count == 0 || c.min_image_count <= c.max_image_count)
        && c.min_extent.width <= c.max_extent.width && c.min_extent.height <= c.max_extent.height
}

} // verus!
