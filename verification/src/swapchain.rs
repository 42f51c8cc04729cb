//! Array of presentable images.
//!
//! Creating a swapchain does not check the configuration against the surface: the format,
//! color space, number of images, present mode, usage flags and extent must be checked with
//! [`Capabilities`](crate::surface::Capabilities) beforehand.

use vstd::prelude::*;
use crate::flags::{
    Handle, ImageFormat, ColorSpace, PresentMode, ImageUsageFlags, PreTransformation, CompositeAlphaFlags,
    NULL_HANDLE,
};
use crate::layout::Extent2D;

verus! {

/// Errors of swapchain operations
#[derive(Debug, Clone, Copy, PartialEq, Eq, Structural)]
pub enum SwapchainError {
    Creating,
    NextImage,
    Images,
}

/// Text that describes `e`.
pub open spec fn swapchain_error_text(e: SwapchainError) -> Seq<char> {
    match e {
        SwapchainError::Creating => "Failed to create swapchain (vkCreateSwapchainKHR call failed)"@,
        SwapchainError::NextImage => "Failed to create image view (vkAcquireNextImageKHR call failed)"@,
        SwapchainError::Images => "Failed to get images from swapchain"@,
    }
}

impl SwapchainError {
    /// Human readable description of the error
    pub fn message(&self) -> (r: &'static str)
        ensures
            r@ == swapchain_error_text(*self),
    {
        match self {
            SwapchainError::Creating => "Failed to create swapchain (vkCreateSwapchainKHR call failed)",
            SwapchainError::NextImage => "Failed to create image view (vkAcquireNextImageKHR call failed)",
            SwapchainError::Images => "Failed to get images from swapchain",
        }
    }
}

/// Swapchain configuration
#[derive(Debug, Clone, Copy, PartialEq, Eq, Structural)]
pub struct SwapchainCfg {
    pub num_of_images: u32,
    pub format: ImageFormat,
    pub color: ColorSpace,
    pub present_mode: PresentMode,
    pub flags: ImageUsageFlags,
    pub extent: Extent2D,
    pub transform: PreTransformation,
    pub alpha: CompositeAlphaFlags,
}

/// Creation information of a swapchain (`VkSwapchainCreateInfoKHR`)
#[derive(Debug, Clone, Copy, PartialEq, Eq, Structural)]
pub struct SwapchainCreateInfo {
    pub surface: Handle,
    pub min_image_count: u32,
    pub image_format: ImageFormat,
    pub image_color_space: ColorSpace,
    pub image_extent: Extent2D,
    pub image_array_layers: u32,
    pub image_usage: ImageUsageFlags,
    /// Exclusive sharing
    pub image_sharing_mode: i32,
    pub pre_transform: PreTransformation,
    pub composite_alpha: CompositeAlphaFlags,
    pub present_mode: PresentMode,
    pub clipped: u32,
    pub old_swapchain: Handle,
}

/// Creation information for `cfg` on `surface`: one array layer, exclusive sharing, clipped,
/// no previous swapchain.
pub open spec fn spec_create_info(surface: Handle, cfg: SwapchainCfg) -> SwapchainCreateInfo {
    SwapchainCreateInfo {
        surface,
        min_image_count: cfg.num_of_images,
        image_format: cfg.format,
        image_color_space: cfg.color,
        image_extent: cfg.extent,
        image_array_layers: 1,
        image_usage: cfg.flags,
        image_sharing_mode: 0,
        pre_transform: cfg.transform,
        composite_alpha: cfg.alpha,
        present_mode: cfg.present_mode,
        clipped: 1,
        old_swapchain: NULL_HANDLE,
    }
}

/// A swapchain is created with what its configuration asks for, unchanged: the surface, the
/// number of images, their format, color space, extent, usage, transform, alpha mode and
/// present mode; with one array layer, exclusive sharing, clipping, and no previous swapchain.
pub proof fn lemma_create_info_follows_cfg(surface: Handle, cfg: SwapchainCfg)
    ensures
        spec_create_info(surface, cfg).surface == surface,
        spec_create_info(surface, cfg).min_image_count == cfg.num_of_images,
        spec_create_info(surface, cfg).image_format == cfg.format,
        spec_create_info(surface, cfg).image_color_space == cfg.color,
        spec_create_info(surface, cfg).image_extent == cfg.extent,
        spec_create_info(surface, cfg).image_extent.width == cfg.extent.width,
        spec_create_info(surface, cfg).image_extent.height == cfg.extent.height,
        spec_create_info(surface, cfg).image_array_layers == 1,
        spec_create_info(surface, cfg).image_usage == cfg.flags,
        spec_create_info(surface, cfg).image_sharing_mode == 0,
        spec_create_info(surface, cfg).pre_transform == cfg.transform,
        spec_create_info(surface, cfg).composite_alpha == cfg.alpha,
        spec_create_info(surface, cfg).present_mode == cfg.present_mode,
        spec_create_info(surface, cfg).clipped == 1,
        spec_create_info(surface, cfg).old_swapchain == NULL_HANDLE,
{
}

/// A swapchain and the format of its images
#[derive(Debug, Clone, Copy, PartialEq, Eq, Structural)]
pub struct Swapchain {
    i_swapchain: Handle,
    i_format: ImageFormat,
}

impl Swapchain {
    pub closed spec fn spec_swapchain(&self) -> Handle { self.i_swapchain }
    pub closed spec fn spec_format(&self) -> ImageFormat { self.i_format }

    /// Creation information of the swapchain of `cfg` on `surface`
    pub fn create_info(surface: Handle, cfg: &SwapchainCfg) -> (r: SwapchainCreateInfo)
        ensures
            r == spec_create_info(surface, *cfg),
            r.surface == surface,
            r.min_image_count == cfg.num_of_images,
            r.image_format == cfg.format,
            r.image_color_space == cfg.color,
            r.image_extent == cfg.extent,
            r.image_array_layers == 1,
            r.image_usage == cfg.flags,
            r.image_sharing_mode == 0,
            r.pre_transform == cfg.transform,
            r.composite_alpha == cfg.alpha,
            r.present_mode == cfg.present_mode,
            r.clipped == 1,
            r.old_swapchain == NULL_HANDLE,
    {
        SwapchainCreateInfo {
            surface,
            min_image_count: cfg.num_of_images,
            image_format: cfg.format,
            image_color_space: cfg.color,
            image_extent: cfg.extent,
            image_array_layers: 1,
            image_usage: cfg.flags,
            image_sharing_mode: 0,
            pre_transform: cfg.transform,
            composite_alpha: cfg.alpha,
            present_mode: cfg.present_mode,
            clipped: 1,
            old_swapchain: NULL_HANDLE,
        }
    }

    /// Swapchain `swapchain` created for `cfg`
    pub fn new(swapchain: Handle, cfg: &SwapchainCfg) -> (r: Swapchain)
        ensures
            r.spec_swapchain() == swapchain,
            r.spec_format() == cfg.format,
    {
        Swapchain { i_swapchain: swapchain, i_format: cfg.format }
    }

    /// Semaphore and fence signalled when the next image is acquired; null for those not given
    pub fn next_image_sync(sem: Option<Handle>, fence: Option<Handle>) -> (r: (Handle, Handle))
        ensures
            r.0 == match sem { Some(s) => s, None => NULL_HANDLE },
            r.1 == match fence { Some(f) => f, None => NULL_HANDLE },
    {
        let s = match sem { Some(s) => s, None => NULL_HANDLE };
        let f = match fence { Some(f) => f, None => NULL_HANDLE };
        (s, f)
    }

    /// Swapchain handle
    pub fn swapchain(&self) -> (r: Handle)
        ensures
            r == self.spec_swapchain(),
    {
        self.i_swapchain
    }

    /// Format of the images
    pub fn format(&self) -> (r: ImageFormat)
        ensures
            r == self.spec_format(),
    {
        self.i_format
    }
}

/// Which swapchain's images to list
#[derive(Debug, Clone, Copy, PartialEq, Eq, Structural)]
pub struct ImageListType {
    pub swapchain: Handle,
    pub format: ImageFormat,
}

} // verus!
