//! Plain-value descriptions of the driver objects the engine decides over:
//! pixel formats, present modes, adapters, queue families and surface
//! capabilities. The native objects themselves live behind opaque `u64`
//! handles owned by the calling layer.

use vstd::prelude::*;

verus! {

/// A color or depth-stencil pixel format offered by a surface.
#[derive(Clone, Copy, Debug, PartialEq, Eq, Structural)]
pub enum Format {
    Bgra8Unorm,
    Bgra8Srgb,
    Rgba8Unorm,
    Rgba8Srgb,
    D16Unorm,
    D32Sfloat,
    D24UnormS8Uint,
    D32SfloatS8Uint,
}

/// Whether a format stores its color channels with the sRGB transfer encoding.
pub open spec fn is_srgb(f: Format) -> bool {
    f == Format::Bgra8Srgb || f == Format::Rgba8Srgb
}

/// Whether a format carries both a depth and a stencil aspect.
pub open spec fn is_depth_stencil(f: Format) -> bool {
    f == Format::D24UnormS8Uint || f == Format::D32SfloatS8Uint
}

impl Format {
    /// Executable counterpart of [`is_srgb`].
    pub fn has_srgb_encoding(self) -> (r: bool)
        ensures
            r == is_srgb(self),
    {
        self == Format::Bgra8Srgb || self == Format::Rgba8Srgb
    }

    /// Executable counterpart of [`is_depth_stencil`].
    pub fn has_depth_stencil_aspects(self) -> (r: bool)
        ensures
            r == is_depth_stencil(self),
    {
        self == Format::D24UnormS8Uint || self == Format::D32SfloatS8Uint
    }
}

/// How the presentation engine paces image delivery.
#[derive(Clone, Copy, Debug, PartialEq, Eq, Structural)]
pub enum PresentMode {
    Immediate,
    Mailbox,
    Fifo,
    FifoRelaxed,
}

/// The broad class of a physical adapter.
#[derive(Clone, Copy, Debug, PartialEq, Eq, Structural)]
pub enum DeviceType {
    Other,
    IntegratedGpu,
    DiscreteGpu,
    VirtualGpu,
    Cpu,
}

/// Ranking of adapter classes: a discrete GPU is preferred over an
/// integrated one, which in turn beats virtual, software and unknown
/// adapters.
pub open spec fn device_type_rank(t: DeviceType) -> int {
    match t {
        DeviceType::DiscreteGpu => 4,
        DeviceType::IntegratedGpu => 3,
        DeviceType::VirtualGpu => 2,
        DeviceType::Cpu => 1,
        DeviceType::Other => 0,
    }
}

/// A physical adapter enumerated by the driver, reduced to what adapter
/// selection ranks: its class and how many of the requested device features
/// it supports.
#[derive(Clone, Copy, Debug, PartialEq, Eq, Structural)]
pub struct Adapter {
    /// Native physical-device handle.
    pub handle: u64,
    /// Class of the adapter.
    pub device_type: DeviceType,
    /// Number of requested features this adapter supports.
    pub supported_feature_count: u32,
}

/// `a` strictly outranks `b`: better class, or same class with more
/// supported features.
pub open spec fn adapter_outranks(a: Adapter, b: Adapter) -> bool {
    ||| device_type_rank(a.device_type) > device_type_rank(b.device_type)
    ||| (device_type_rank(a.device_type) == device_type_rank(b.device_type)
        && a.supported_feature_count > b.supported_feature_count)
}

/// An optional device feature a logical device can be opened with.
#[derive(Clone, Copy, Debug, PartialEq, Eq, Structural)]
pub enum Feature {
    SamplerAnisotropy,
    GeometryShader,
    TessellationShader,
    MultiDrawIndirect,
    FillModeNonSolid,
    WideLines,
}

/// A two-dimensional pixel extent.
#[derive(Clone, Copy, Debug, PartialEq, Eq, Structural)]
pub struct Extent2d {
    pub width: u32,
    pub height: u32,
}

/// A clear color; every channel is stored in thousandths of full
/// intensity, so `1000` is full brightness and `390` is `390/1000`.
#[derive(Clone, Copy, Debug, PartialEq, Eq, Structural)]
pub struct ClearColor {
    pub red_milli: u16,
    pub green_milli: u16,
    pub blue_milli: u16,
    pub alpha_milli: u16,
}

/// Red channel of the fixed clear color, in thousandths.
pub const CLEAR_RED_MILLI: u16 = 390;

/// Green channel of the fixed clear color, in thousandths.
pub const CLEAR_GREEN_MILLI: u16 = 580;

/// Blue channel of the fixed clear color, in thousandths.
pub const CLEAR_BLUE_MILLI: u16 = 930;

/// Alpha channel of the fixed clear color, in thousandths.
pub const CLEAR_ALPHA_MILLI: u16 = 1000;

/// The fixed cornflower-blue clear color every empty pass paints.
pub open spec fn spec_clear_color() -> ClearColor {
    ClearColor {
        red_milli: CLEAR_RED_MILLI,
        green_milli: CLEAR_GREEN_MILLI,
        blue_milli: CLEAR_BLUE_MILLI,
        alpha_milli: CLEAR_ALPHA_MILLI,
    }
}

/// Executable counterpart of [`spec_clear_color`].
pub fn clear_color() -> (c: ClearColor)
    ensures
        c == spec_clear_color(),
{
    ClearColor {
        red_milli: CLEAR_RED_MILLI,
        green_milli: CLEAR_GREEN_MILLI,
        blue_milli: CLEAR_BLUE_MILLI,
        alpha_milli: CLEAR_ALPHA_MILLI,
    }
}

/// One queue family of an adapter, reduced to the capabilities queue
/// selection reads.
#[derive(Clone, Copy, Debug, PartialEq, Eq, Structural)]
pub struct QueueFamilyInfo {
    pub supports_graphics: bool,
    pub supports_compute: bool,
    pub supports_transfer: bool,
    /// Whether this family can present to the target surface.
    pub supports_present: bool,
    pub queue_count: u32,
}

/// Width value a surface reports when the windowing system leaves the
/// swapchain extent to the application.
pub const EXTENT_UNDEFINED: u32 = 0xFFFF_FFFF;

/// Capabilities of a surface/adapter pair, as queried from the driver.
#[derive(Clone, Copy, Debug, PartialEq, Eq, Structural)]
pub struct SurfaceCaps {
    /// Fewest presentable images a swapchain may be created with.
    pub min_image_count: u32,
    /// Most presentable images a swapchain may be created with;
    /// `0` means the surface imposes no upper bound.
    pub max_image_count: u32,
    /// Extent the surface currently mandates; a width of
    /// [`EXTENT_UNDEFINED`] means the application chooses within the
    /// min/max bounds.
    pub current_extent: Extent2d,
    pub min_extent: Extent2d,
    pub max_extent: Extent2d,
}

/// Well-formedness of a capabilities snapshot: the image-count and extent
/// ranges are non-empty.
pub open spec fn caps_wf(c: SurfaceCaps) -> bool {
    &&& 1 <= c.min_image_count
    &&& c.max_image_count == 0 || c.min_image_count <= c.max_image_count
    &&& c.min_extent.width <= c.max_extent.width
    &&& c.min_extent.height <= c.max_extent.height
}

} // verus!
