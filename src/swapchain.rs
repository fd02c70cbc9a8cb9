use vstd::prelude::*;
use crate::device::QueueFamilyIndices;

verus! {

/// Raw value of `VK_FORMAT_B8G8R8A8_SRGB`, the preferred surface format.
pub const PREFERRED_FORMAT: i32 = 50;

/// Raw value of `VK_COLOR_SPACE_SRGB_NONLINEAR_KHR`, the preferred color space.
pub const PREFERRED_COLOR_SPACE: i32 = 0;

/// Raw value of `VK_PRESENT_MODE_MAILBOX_KHR`, the preferred low-latency mode.
pub const PRESENT_MODE_MAILBOX: i32 = 1;

/// Raw value of `VK_PRESENT_MODE_FIFO_KHR`, which every driver must offer.
pub const PRESENT_MODE_FIFO: i32 = 2;

/// A size in pixels.
#[derive(Clone, Copy, Debug, PartialEq, Eq, Structural)]
pub struct Extent2D {
    pub width: u32,
    pub height: u32,
}

/// A surface format as a (format, color space) pair of raw values.
#[derive(Clone, Copy, Debug, PartialEq, Eq, Structural)]
pub struct SurfaceFormat {
    pub format: i32,
    pub color_space: i32,
}

/// What the surface reports of the swapchains it accepts.
#[derive(Clone, Copy, Debug, PartialEq, Eq, Structural)]
pub struct SurfaceCapabilities {
    pub min_image_count: u32,
    /// Zero means that there is no upper bound.
    pub max_image_count: u32,
    pub min_image_extent: Extent2D,
    pub max_image_extent: Extent2D,
}

/// The parameters the swapchain is created with.
#[derive(Clone, Copy, Debug, PartialEq, Eq, Structural)]
pub struct SwapchainConfig {
    pub format: SurfaceFormat,
    pub present_mode: i32,
    pub extent: Extent2D,
    pub image_count: u32,
}

/// One view to build over a swapchain image: two-dimensional, in the
/// swapchain's format.
#[derive(Clone, Copy, Debug, PartialEq, Eq, Structural)]
pub struct VulkanImage {
    /// Position of the image in the swapchain.
    pub image: usize,
    pub format: i32,
}

/// One view per image, in image order.
pub open spec fn image_views_spec(image_count: nat, format: i32) -> Seq<VulkanImage> {
    Seq::new(image_count, |i: int| VulkanImage { image: i as usize, format })
}

pub open spec fn is_preferred_format(f: SurfaceFormat) -> bool {
    f.format == PREFERRED_FORMAT && f.color_space == PREFERRED_COLOR_SPACE
}

pub open spec fn spec_clamp(v: u32, lo: u32, hi: u32) -> u32 {
    let raised = if v < lo { lo } else { v };
    if raised > hi { hi } else { raised }
}

pub open spec fn spec_image_count(c: SurfaceCapabilities) -> int {
    let wanted = c.min_image_count + 1;
    if c.max_image_count == 0 || wanted <= c.max_image_count {
        wanted
    } else {
        c.max_image_count as int
    }
}

/// The preferred format if the surface offers it, else the first one offered.
pub fn choose_surface_format(formats: &Vec<SurfaceFormat>) -> (r: SurfaceFormat)
    requires
        formats@.len() > 0,
    ensures
        (exists|i: int| 0 <= i < formats@.len() && is_preferred_format(formats@[i]))
            ==> is_preferred_format(r),
        !(exists|i: int| 0 <= i < formats@.len() && is_preferred_format(formats@[i]))
            ==> r == formats@[0],
{
    let mut i: usize = 0;
    while i < formats.len()
        invariant
            i <= formats.len(),
            forall|k: int| 0 <= k < i ==> !is_preferred_format(formats@[k]),
        decreases formats.len() - i,
    {
        let f = formats[i];
        if f.format == PREFERRED_FORMAT && f.color_space == PREFERRED_COLOR_SPACE {
            return f;
        }
        i = i + 1;
    }
    formats[0]
}

/// Mailbox if the surface offers it, else FIFO.
pub fn choose_present_mode(modes: &Vec<i32>) -> (r: i32)
    ensures
        r == (if modes@.contains(PRESENT_MODE_MAILBOX) {
            PRESENT_MODE_MAILBOX
        } else {
            PRESENT_MODE_FIFO
        }),
{
    let mut i: usize = 0;
    while i < modes.len()
        invariant
            i <= modes.len(),
            forall|k: int| 0 <= k < i ==> modes@[k] != PRESENT_MODE_MAILBOX,
        decreases modes.len() - i,
    {
        if modes[i] == PRESENT_MODE_MAILBOX {
            return PRESENT_MODE_MAILBOX;
        }
        i = i + 1;
    }
    PRESENT_MODE_FIFO
}

/// `v` raised to `lo`, then lowered to `hi`.
pub fn clamp_u32(v: u32, lo: u32, hi: u32) -> (r: u32)
    ensures
        r == spec_clamp(v, lo, hi),
{
    let raised = if v < lo { lo } else { v };
    if raised > hi { hi } else { raised }
}

/// The window's pixel size clamped, per axis, to the surface's extent bounds.
pub fn choose_extent(window: Extent2D, caps: &SurfaceCapabilities) -> (r: Extent2D)
    ensures
        r.width == spec_clamp(window.width, caps.min_image_extent.width, caps.max_image_extent.width),
        r.height == spec_clamp(
            window.height,
            caps.min_image_extent.height,
            caps.max_image_extent.height,
        ),
{
    Extent2D {
        width: clamp_u32(window.width, caps.min_image_extent.width, caps.max_image_extent.width),
        height: clamp_u32(window.height, caps.min_image_extent.height, caps.max_image_extent.height),
    }
}

/// One image more than the minimum, unless the maximum forbids it.
pub fn choose_image_count(caps: &SurfaceCapabilities) -> (r: u32)
    requires
        caps.min_image_count < u32::MAX,
    ensures
        r == spec_image_count(*caps),
{
    let wanted = caps.min_image_count + 1;
    if caps.max_image_count == 0 || wanted <= caps.max_image_count {
        wanted
    } else {
        caps.max_image_count
    }
}

/// Every parameter of the swapchain, chosen from what the surface offers.
pub fn choose_swapchain_config(
    window: Extent2D,
    caps: &SurfaceCapabilities,
    formats: &Vec<SurfaceFormat>,
    modes: &Vec<i32>,
) -> (r: SwapchainConfig)
    requires
        formats@.len() > 0,
        caps.min_image_count < u32::MAX,
    ensures
        (exists|i: int| 0 <= i < formats@.len() && is_preferred_format(formats@[i]))
            ==> is_preferred_format(r.format),
        !(exists|i: int| 0 <= i < formats@.len() && is_preferred_format(formats@[i]))
            ==> r.format == formats@[0],
        r.present_mode == (if modes@.contains(PRESENT_MODE_MAILBOX) {
            PRESENT_MODE_MAILBOX
        } else {
            PRESENT_MODE_FIFO
        }),
        r.extent.width == spec_clamp(
            window.width,
            caps.min_image_extent.width,
            caps.max_image_extent.width,
        ),
        r.extent.height == spec_clamp(
            window.height,
            caps.min_image_extent.height,
            caps.max_image_extent.height,
        ),
        r.image_count == spec_image_count(*caps),
{
    SwapchainConfig {
        format: choose_surface_format(formats),
        present_mode: choose_present_mode(modes),
        extent: choose_extent(window, caps),
        image_count: choose_image_count(caps),
    }
}

/// The queue families that share the swapchain's images: none when one
/// family both draws and presents (exclusive ownership), else both of them.
pub fn sharing_families(indices: &QueueFamilyIndices) -> (r: Vec<u32>)
    ensures
        indices.graphics == indices.present ==> r@ == Seq::<u32>::empty(),
        indices.graphics != indices.present ==> r@ == seq![indices.graphics, indices.present],
{
    let mut r: Vec<u32> = Vec::new();
    if indices.graphics != indices.present {
        r.push(indices.graphics);
        r.push(indices.present);
    }
    r
}

impl VulkanImage {
    /// One view per swapchain image, in image order.
    pub fn views(image_count: usize, format: i32) -> (r: Vec<VulkanImage>)
        ensures
            r@ == image_views_spec(image_count as nat, format),
    {
        let mut r: Vec<VulkanImage> = Vec::new();
        let mut i: usize = 0;
        while i < image_count
            invariant
                i <= image_count,
                r@.len() == i,
                forall|k: int| 0 <= k < i ==> r@[k] == (VulkanImage { image: k as usize, format }),
            decreases image_count - i,
        {
            r.push(VulkanImage { image: i, format });
            i = i + 1;
        }
        assert(r@ =~= image_views_spec(image_count as nat, format));
        r
    }
}

} // verus!
