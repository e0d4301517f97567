//! Swapchain lifecycle decisions: which surface format, present mode, extent,
//! image count and sharing mode a new presentable image chain is built with,
//! and the model of a built chain. The choices are pure functions of the
//! surface report, so recreating a chain from the same report chooses the
//! same configuration.

use vstd::prelude::*;

use crate::framebuffer::Framebuffer;
use crate::pipeline::RenderPass;
use crate::surface::{
    SurfaceFormat, Extent2d, SurfaceCapabilities, PhysicalDeviceSurfaceInfo,
    FORMAT_B8G8R8A8_SRGB, COLOR_SPACE_SRGB_NONLINEAR, PRESENT_MODE_FIFO,
};

verus! {

/// The format the renderer draws into: 8-bit BGRA sRGB with non-linear sRGB
/// color space.
pub open spec fn is_target_format(f: SurfaceFormat) -> bool {
    f.format == FORMAT_B8G8R8A8_SRGB && f.color_space == COLOR_SPACE_SRGB_NONLINEAR
}

/// The first reported format equal to the target format, if any.
pub open spec fn spec_choose_format(formats: Seq<SurfaceFormat>) -> Option<SurfaceFormat>
    decreases formats.len(),
{
    if formats.len() == 0 {
        None
    } else if is_target_format(formats[0]) {
        Some(formats[0])
    } else {
        spec_choose_format(formats.drop_first())
    }
}

/// The first reported present mode equal to FIFO, if any.
pub open spec fn spec_choose_present_mode(modes: Seq<u32>) -> Option<u32>
    decreases modes.len(),
{
    if modes.len() == 0 {
        None
    } else if modes[0] == PRESENT_MODE_FIFO {
        Some(modes[0])
    } else {
        spec_choose_present_mode(modes.drop_first())
    }
}

/// The number of images to request: one more than the reported minimum,
/// clamped to the reported maximum when that cap is non-zero and lower.
pub open spec fn spec_image_count(c: SurfaceCapabilities) -> int {
    let desired = c.min_image_count + 1;
    if c.max_image_count != 0 && c.max_image_count < desired {
        c.max_image_count as int
    } else {
        desired
    }
}

/// Whether a swapchain could be built from this surface report: a usable
/// format and a usable present mode both exist.
pub open spec fn spec_surface_usable(info: PhysicalDeviceSurfaceInfo) -> bool {
    spec_choose_format(info.formats@) is Some && spec_choose_present_mode(info.present_modes@)
        is Some
}

/// Picks the surface format a chain is built with: the first reported format
/// equal to 8-bit BGRA sRGB with non-linear sRGB color space.
pub fn choose_format(formats: &Vec<SurfaceFormat>) -> (r: Option<SurfaceFormat>)
    ensures
        r == spec_choose_format(formats@),
{
    let mut i: usize = 0;
    proof {
        assert(formats@.skip(0) =~= formats@);
    }
    while i < formats.len()
        invariant
            i <= formats@.len(),
            spec_choose_format(formats@) == spec_choose_format(formats@.skip(i as int)),
        decreases formats@.len() - i,
    {
        let f = formats[i];
        if f.format == FORMAT_B8G8R8A8_SRGB && f.color_space == COLOR_SPACE_SRGB_NONLINEAR {
            return Some(f);
        }
        proof {
            assert(formats@.skip(i as int).drop_first() =~= formats@.skip(i as int + 1));
        }
        i = i + 1;
    }
    proof {
        assert(formats@.skip(i as int).len() == 0);
    }
    None
}

/// Picks the present mode a chain is built with: the first reported mode
/// equal to FIFO.
pub fn choose_present_mode(modes: &Vec<u32>) -> (r: Option<u32>)
    ensures
        r == spec_choose_present_mode(modes@),
{
    let mut i: usize = 0;
    proof {
        assert(modes@.skip(0) =~= modes@);
    }
    while i < modes.len()
        invariant
            i <= modes@.len(),
            spec_choose_present_mode(modes@) == spec_choose_present_mode(modes@.skip(i as int)),
        decreases modes@.len() - i,
    {
        let m = modes[i];
        if m == PRESENT_MODE_FIFO {
            return Some(m);
        }
        proof {
            assert(modes@.skip(i as int).drop_first() =~= modes@.skip(i as int + 1));
        }
        i = i + 1;
    }
    proof {
        assert(modes@.skip(i as int).len() == 0);
    }
    None
}

/// The extent a chain is built with: the surface's current extent. A surface
/// that leaves its extent undefined (height of `u32::MAX`) is not handled;
/// the caller must supply a surface with a defined extent.
pub fn choose_swap_extent(capabilities: &SurfaceCapabilities) -> (r: Extent2d)
    requires
        capabilities.current_extent.height != u32::MAX,
    ensures
        r == capabilities.current_extent,
{
    capabilities.current_extent
}

/// The number of images to request from the driver.
pub fn choose_image_count(capabilities: &SurfaceCapabilities) -> (r: u32)
    requires
        capabilities.min_image_count < u32::MAX,
    ensures
        r == spec_image_count(*capabilities),
{
    let image_count = capabilities.min_image_count + 1;
    if capabilities.max_image_count != 0 && capabilities.max_image_count < image_count {
        capabilities.max_image_count
    } else {
        image_count
    }
}

/// The pre-transform a chain is built with: the surface's reported current
/// transform, passed through unmodified.
pub fn choose_transform(capabilities: &SurfaceCapabilities) -> (r: u32)
    ensures
        r == capabilities.current_transform,
{
    capabilities.current_transform
}

/// Whether a swapchain could be built from this surface report. The queue
/// family solver uses this to reject a present candidate whose surface has
/// no usable configuration.
pub fn check_surface_info(surface_info: &PhysicalDeviceSurfaceInfo) -> (r: bool)
    ensures
        r == spec_surface_usable(*surface_info),
{
    let format = choose_format(&surface_info.formats);
    let mode = choose_present_mode(&surface_info.present_modes);
    format.is_some() && mode.is_some()
}

/// Format and present-mode selection is deterministic: the choice is a pure
/// function of the reported lists, so repeated queries of the same surface
/// report always choose the same format and the same present mode.
pub proof fn lemma_choice_deterministic(
    formats1: Seq<SurfaceFormat>,
    formats2: Seq<SurfaceFormat>,
    modes1: Seq<u32>,
    modes2: Seq<u32>,
)
    requires
        formats1 == formats2,
        modes1 == modes2,
    ensures
        spec_choose_format(formats1) == spec_choose_format(formats2),
        spec_choose_present_mode(modes1) == spec_choose_present_mode(modes2),
{
}

/// The error returned when the chain a manager needs is missing or cannot be
/// configured from what the surface reports.
#[derive(Debug, Clone, Copy, PartialEq, Eq, Structural)]
pub struct InvalidSwapchainError;

impl InvalidSwapchainError {
    pub fn message(&self) -> (r: String)
        ensures
            r@ == "the swapchain SwapchainManager currently has is missing or invalid"@,
    {
        "the swapchain SwapchainManager currently has is missing or invalid".to_owned()
    }
}

/// How the chain's images are shared between queue families.
#[derive(Debug, Clone, Copy, PartialEq, Eq, Structural)]
pub enum SharingMode {
    /// One family owns the images; chosen when graphics and present share a
    /// family.
    Exclusive,
    /// The images are shared between the named families.
    Concurrent,
}

/// Everything the driver needs to build a chain, decided ahead of the
/// creation call.
#[derive(Debug, Clone, PartialEq, Eq)]
pub struct SwapchainPlan {
    pub format: SurfaceFormat,
    pub present_mode: u32,
    pub extent: Extent2d,
    pub min_image_count: u32,
    pub pre_transform: u32,
    pub sharing_mode: SharingMode,
    pub queue_family_indices: Vec<u32>,
}

/// Plans presentable image chains for one logical device: it remembers which
/// queue families draw and present, and decides each chain's configuration
/// from a fresh surface report.
#[derive(Debug, Clone, Copy, PartialEq, Eq, Structural)]
pub struct SwapchainManager {
    pub graphics_family: u32,
    pub present_family: u32,
}

impl SwapchainManager {
    pub fn new(graphics_family: u32, present_family: u32) -> (r: Self)
        ensures
            r.graphics_family == graphics_family,
            r.present_family == present_family,
    {
        SwapchainManager { graphics_family, present_family }
    }

    /// Decides the configuration of a new chain from the surface report:
    /// the target format and FIFO present mode (failing when either is
    /// absent), one image more than the reported minimum within the cap,
    /// the surface's extent and transform, and exclusive sharing exactly
    /// when graphics and present share a family.
    pub fn create_swapchain(&self, surface_info: &PhysicalDeviceSurfaceInfo) -> (r: Result<
        SwapchainPlan,
        InvalidSwapchainError,
    >)
        requires
            surface_info.capabilities.current_extent.height != u32::MAX,
            surface_info.capabilities.min_image_count < u32::MAX,
        ensures
            r is Ok <==> spec_surface_usable(*surface_info),
            r is Ok ==> {
                let plan = r->Ok_0;
                &&& Some(plan.format) == spec_choose_format(surface_info.formats@)
                &&& Some(plan.present_mode) == spec_choose_present_mode(
                    surface_info.present_modes@,
                )
                &&& plan.extent == surface_info.capabilities.current_extent
                &&& plan.min_image_count == spec_image_count(surface_info.capabilities)
                &&& plan.pre_transform == surface_info.capabilities.current_transform
                &&& (plan.sharing_mode == SharingMode::Exclusive <==> self.graphics_family
                    == self.present_family)
                &&& (self.graphics_family == self.present_family ==> plan.queue_family_indices@
                    =~= Seq::<u32>::empty())
                &&& (self.graphics_family != self.present_family ==> plan.queue_family_indices@
                    =~= seq![self.graphics_family, self.present_family])
            },
    {
        let format = match choose_format(&surface_info.formats) {
            Some(f) => f,
            None => {
                return Err(InvalidSwapchainError);
            },
        };
        let present_mode = match choose_present_mode(&surface_info.present_modes) {
            Some(m) => m,
            None => {
                return Err(InvalidSwapchainError);
            },
        };
        let extent = choose_swap_extent(&surface_info.capabilities);
        let min_image_count = choose_image_count(&surface_info.capabilities);
        let pre_transform = choose_transform(&surface_info.capabilities);
        if self.graphics_family == self.present_family {
            Ok(
                SwapchainPlan {
                    format,
                    present_mode,
                    extent,
                    min_image_count,
                    pre_transform,
                    sharing_mode: SharingMode::Exclusive,
                    queue_family_indices: Vec::new(),
                },
            )
        } else {
            let mut indices: Vec<u32> = Vec::new();
            indices.push(self.graphics_family);
            indices.push(self.present_family);
            Ok(
                SwapchainPlan {
                    format,
                    present_mode,
                    extent,
                    min_image_count,
                    pre_transform,
                    sharing_mode: SharingMode::Concurrent,
                    queue_family_indices: indices,
                },
            )
        }
    }
}

/// A built presentable image chain: its chosen configuration, the images the
/// driver provided, and the image views built over them. The chain always
/// holds one view per image.
#[derive(Debug, Clone, PartialEq, Eq)]
pub struct Swapchain {
    pub format: SurfaceFormat,
    pub extent: Extent2d,
    pub present_mode: u32,
    pub image_count: usize,
    pub view_count: usize,
}

impl Swapchain {
    /// The chain's invariant: one image view per presentable image.
    pub open spec fn wf(self) -> bool {
        self.view_count == self.image_count
    }

    /// Records a chain the driver built from `plan` with `image_count`
    /// images; one view is built per image.
    pub fn new(plan: &SwapchainPlan, image_count: usize) -> (r: Self)
        ensures
            r.wf(),
            r.format == plan.format,
            r.extent == plan.extent,
            r.present_mode == plan.present_mode,
            r.image_count == image_count,
            r.view_count == image_count,
    {
        Swapchain {
            format: plan.format,
            extent: plan.extent,
            present_mode: plan.present_mode,
            image_count,
            view_count: image_count,
        }
    }

    pub fn get_format(&self) -> (r: SurfaceFormat)
        ensures
            r == self.format,
    {
        self.format
    }

    /// Builds one framebuffer per image view of the chain, each bound to the
    /// given render pass and covering the chain's extent.
    pub fn create_framebuffers(&self, render_pass: &RenderPass) -> (r: Vec<Framebuffer>)
        ensures
            r@.len() == self.view_count,
            forall|i: int|
                0 <= i < r@.len() ==> r@[i].extent == self.extent && r@[i].format
                    == render_pass.format && r@[i].attachment_index == i,
    {
        let mut framebuffers: Vec<Framebuffer> = Vec::new();
        let n = self.view_count;
        let mut i: usize = 0;
        while i < n
            invariant
                i <= n,
                framebuffers@.len() == i,
                forall|k: int|
                    0 <= k < i ==> framebuffers@[k].extent == self.extent && framebuffers@[k].format
                        == render_pass.format && framebuffers@[k].attachment_index == k,
            decreases n - i,
        {
            let framebuffer = Framebuffer::new(render_pass, self.extent, i);
            framebuffers.push(framebuffer);
            i = i + 1;
        }
        framebuffers
    }

    /// The viewport and scissor rectangles covering the whole chain extent.
    pub fn make_viewport(&self) -> (r: Result<(Extent2d, Extent2d), InvalidSwapchainError>)
        ensures
            r is Ok,
            r->Ok_0.0 == self.extent,
            r->Ok_0.1 == self.extent,
    {
        Ok((self.extent, self.extent))
    }
}

} // verus!
