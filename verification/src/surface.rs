//! Surface capabilities: what a presentation surface supports on a physical device.

use vstd::prelude::*;
use crate::flags::{
    bits_contain, composite_alpha_contains, image_usage_contains, CompositeAlphaFlags, ImageUsageFlags,
    ImageFormat, ColorSpace, PresentMode, PreTransformation,
};
use crate::layout::{Extent2D, Extent3D};

verus! {

/// Errors while creating a surface
#[derive(Debug, Clone, Copy, PartialEq, Eq, Structural)]
pub enum SurfaceError {
    XLibIsNotSupported,
    Create,
}

/// Text that describes `e`.
pub open spec fn surface_error_text(e: SurfaceError) -> Seq<char> {
    match e {
        SurfaceError::XLibIsNotSupported => "Xlib display is not supported"@,
        SurfaceError::Create => "Failed to create Xlib surface (vkCreateXlibSurfaceKHR call failed)"@,
    }
}

impl SurfaceError {
    /// Human readable description of the error
    pub fn message(&self) -> (r: &'static str)
        ensures
            r@ == surface_error_text(*self),
    {
        match self {
            SurfaceError::XLibIsNotSupported => "Xlib display is not supported",
            SurfaceError::Create => "Failed to create Xlib surface (vkCreateXlibSurfaceKHR call failed)",
        }
    }
}

/// Errors while querying surface capabilities
#[derive(Debug, Clone, Copy, PartialEq, Eq, Structural)]
pub enum CapabilitiesError {
    Modes,
    Surface,
    Formats,
}

/// Text that describes `e`.
pub open spec fn capabilities_error_text(e: CapabilitiesError) -> Seq<char> {
    match e {
        CapabilitiesError::Modes => "Failed to get present modes (vkGetPhysicalDeviceSurfacePresentModesKHR call failed)"@,
        CapabilitiesError::Surface => "Failed to get surface capabilities (vkGetPhysicalDeviceSurfaceCapabilitiesKHR call failed)"@,
        CapabilitiesError::Formats => "Failed to get surface formats (vkGetPhysicalDeviceSurfaceFormatsKHR call failed)"@,
    }
}

impl CapabilitiesError {
    /// Human readable description of the error
    pub fn message(&self) -> (r: &'static str)
        ensures
            r@ == capabilities_error_text(*self),
    {
        match self {
            CapabilitiesError::Modes => "Failed to get present modes (vkGetPhysicalDeviceSurfacePresentModesKHR call failed)",
            CapabilitiesError::Surface => "Failed to get surface capabilities (vkGetPhysicalDeviceSurfaceCapabilitiesKHR call failed)",
            CapabilitiesError::Formats => "Failed to get surface formats (vkGetPhysicalDeviceSurfaceFormatsKHR call failed)",
        }
    }
}

/// Combination of image format and color space (`VkSurfaceFormatKHR`)
#[derive(Debug, Clone, Copy, PartialEq, Eq, Structural)]
pub struct SurfaceFormat {
    pub format: ImageFormat,
    pub color_space: ColorSpace,
}

/// Basic capabilities of a surface (part of `VkSurfaceCapabilitiesKHR`)
#[derive(Debug, Clone, Copy)]
pub struct SurfaceCapabilities {
    pub min_image_count: u32,
    /// Zero when there is no limit
    pub max_image_count: u32,
    pub current_extent: Extent2D,
    pub current_transform: PreTransformation,
    pub supported_composite_alpha: CompositeAlphaFlags,
    pub supported_usage_flags: ImageUsageFlags,
}

/// Capabilities of a surface for one physical device
#[derive(Debug)]
pub struct Capabilities {
    i_modes: Vec<PresentMode>,
    i_capabilities: SurfaceCapabilities,
    i_formats: Vec<SurfaceFormat>,
}

/// Largest number of swapchain images: `u32::MAX` when the surface sets no limit.
pub open spec fn spec_max_img_count(caps: SurfaceCapabilities) -> u32 {
    if caps.max_image_count == 0 { u32::MAX } else { caps.max_image_count }
}

/// The largest image count is the surface's limit where it sets one, and no limit where it
/// reports zero: a count is within it exactly when the surface sets no limit or the count
/// does not exceed the limit.
pub proof fn lemma_max_img_count(caps: SurfaceCapabilities, count: u32)
    ensures
        caps.max_image_count != 0 ==> spec_max_img_count(caps) == caps.max_image_count,
        caps.max_image_count == 0 ==> spec_max_img_count(caps) == u32::MAX,
        count <= spec_max_img_count(caps) <==> (caps.max_image_count == 0 || count <= caps.max_image_count),
{
}

/// Single composite alpha bit number `i`.
pub open spec fn alpha_bit(i: u32) -> u32 {
    1u32 << i
}

impl Capabilities {
    pub closed spec fn spec_modes(&self) -> Seq<PresentMode> { self.i_modes@ }
    pub closed spec fn spec_capabilities(&self) -> SurfaceCapabilities { self.i_capabilities }
    pub closed spec fn spec_formats(&self) -> Seq<SurfaceFormat> { self.i_formats@ }

    /// Capabilities made of what the driver reported: present modes, basic capabilities
    /// and surface formats
    pub fn new(modes: Vec<PresentMode>, capabilities: SurfaceCapabilities, formats: Vec<SurfaceFormat>) -> (c: Capabilities)
        ensures
            c.spec_modes() == modes@,
            c.spec_capabilities() == capabilities,
            c.spec_formats() == formats@,
    {
        Capabilities { i_modes: modes, i_capabilities: capabilities, i_formats: formats }
    }

    /// Minimal number of images required for a swapchain
    pub fn min_img_count(&self) -> (r: u32)
        ensures
            r == self.spec_capabilities().min_image_count,
    {
        self.i_capabilities.min_image_count
    }

    /// Maximal number of images supported for a swapchain
    ///
    /// `u32::MAX` if there is no limit (the surface reports 0) or the limit is `u32::MAX`
    pub fn max_img_count(&self) -> (r: u32)
        ensures
            r == spec_max_img_count(self.spec_capabilities()),
            self.spec_capabilities().max_image_count != 0 ==> r == self.spec_capabilities().max_image_count,
            self.spec_capabilities().max_image_count == 0 ==> r == u32::MAX,
    {
        if self.i_capabilities.max_image_count == 0 {
            u32::MAX
        } else {
            self.i_capabilities.max_image_count
        }
    }

    /// Whether `count` is in range `[min_img_count; max_img_count]`
    pub fn is_img_count_supported(&self, count: u32) -> (r: bool)
        ensures
            r == (self.spec_capabilities().min_image_count <= count <= spec_max_img_count(self.spec_capabilities())),
            r == (self.spec_capabilities().min_image_count <= count
                && (self.spec_capabilities().max_image_count == 0 || count <= self.spec_capabilities().max_image_count)),
    {
        self.min_img_count() <= count && count <= self.max_img_count()
    }

    /// Whether the surface supports the combination of format and color space
    pub fn is_format_supported(&self, format: SurfaceFormat) -> (r: bool)
        ensures
            r == self.spec_formats().contains(format),
    {
        let n = self.i_formats.len();
        let mut i: usize = 0;
        while i < n
            invariant
                n == self.spec_formats().len(),
                0 <= i <= n,
                forall|j: int| 0 <= j < i ==> self.spec_formats()[j] != format,
            decreases n - i,
        {
            if self.i_formats[i] == format {
                assert(self.spec_formats()[i as int] == format);
                return true;
            }
            i = i + 1;
        }
        false
    }

    /// Available surface formats with their color spaces
    pub fn formats(&self) -> (r: &[SurfaceFormat])
        ensures
            r@ == self.spec_formats(),
    {
        self.i_formats.as_slice()
    }

    /// Available presentation modes
    pub fn modes(&self) -> (r: &[PresentMode])
        ensures
            r@ == self.spec_modes(),
    {
        self.i_modes.as_slice()
    }

    /// Whether the surface supports presentation mode `mode`
    pub fn is_mode_supported(&self, mode: PresentMode) -> (r: bool)
        ensures
            r == self.spec_modes().contains(mode),
    {
        let n = self.i_modes.len();
        let mut i: usize = 0;
        while i < n
            invariant
                n == self.spec_modes().len(),
                0 <= i <= n,
                forall|j: int| 0 <= j < i ==> self.spec_modes()[j] != mode,
            decreases n - i,
        {
            if self.i_modes[i] == mode {
                assert(self.spec_modes()[i as int] == mode);
                return true;
            }
            i = i + 1;
        }
        false
    }

    /// Whether every usage in `flags` is supported
    pub fn is_flags_supported(&self, flags: ImageUsageFlags) -> (r: bool)
        ensures
            r == bits_contain(self.spec_capabilities().supported_usage_flags, flags),
    {
        image_usage_contains(self.i_capabilities.supported_usage_flags, flags)
    }

    /// 2d extent supported by the surface
    pub fn extent2d(&self) -> (r: Extent2D)
        ensures
            r == self.spec_capabilities().current_extent,
    {
        self.i_capabilities.current_extent
    }

    /// 3d extent made of the supported 2d extent and depth `ext_depth`
    pub fn extent3d(&self, ext_depth: u32) -> (r: Extent3D)
        ensures
            r == (Extent3D {
                width: self.spec_capabilities().current_extent.width,
                height: self.spec_capabilities().current_extent.height,
                depth: ext_depth,
            }),
    {
        Extent3D {
            width: self.i_capabilities.current_extent.width,
            height: self.i_capabilities.current_extent.height,
            depth: ext_depth,
        }
    }

    /// Current transformation
    pub fn pre_transformation(&self) -> (r: PreTransformation)
        ensures
            r == self.spec_capabilities().current_transform,
    {
        self.i_capabilities.current_transform
    }

    /// Supported composite alpha flags
    pub fn alpha_composition(&self) -> (r: CompositeAlphaFlags)
        ensures
            r == self.spec_capabilities().supported_composite_alpha,
    {
        self.i_capabilities.supported_composite_alpha
    }

    /// Whether every flag in `alpha` is supported
    pub fn is_alpha_supported(&self, alpha: CompositeAlphaFlags) -> (r: bool)
        ensures
            r == bits_contain(self.spec_capabilities().supported_composite_alpha, alpha),
    {
        composite_alpha_contains(self.i_capabilities.supported_composite_alpha, alpha)
    }

    /// First supported composite alpha mode among the four defined ones (opaque,
    /// pre-multiplied, post-multiplied, inherit), lowest bit first
    pub fn first_alpha_composition(&self) -> (r: Option<CompositeAlphaFlags>)
        ensures
            match r {
                Some(bit) => exists|i: u32| {
                    &&& i < 4
                    &&& bit == alpha_bit(i)
                    &&& bits_contain(self.spec_capabilities().supported_composite_alpha, alpha_bit(i))
                    &&& forall|j: u32| j < i ==> !bits_contain(self.spec_capabilities().supported_composite_alpha, #[trigger] alpha_bit(j))
                },
                None => forall|j: u32| j < 4 ==> !bits_contain(self.spec_capabilities().supported_composite_alpha, #[trigger] alpha_bit(j)),
            },
    {
        let mut i: u32 = 0;
        while i < 4
            invariant
                0 <= i <= 4,
                forall|j: u32| j < i ==> !bits_contain(self.spec_capabilities().supported_composite_alpha, #[trigger] alpha_bit(j)),
            decreases 4 - i,
        {
            let bit: u32 = 1u32 << i;
            assert(bit == alpha_bit(i));
            if composite_alpha_contains(self.i_capabilities.supported_composite_alpha, bit) {
                return Some(bit);
            }
            i = i + 1;
        }
        None
    }
}

} // verus!
