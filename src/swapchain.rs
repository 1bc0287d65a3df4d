//! The swapchain: its images and the per-image views, framebuffers and
//! synchronization objects, all of one length, and the frame slot that
//! says which synchronization set is due next.

use vstd::prelude::*;

use crate::release::ReleaseStep;

verus! {

/// The image count asked for when the surface allows it.
pub const PREFERRED_IMAGE_COUNT: u32 = 3;

#[derive(Clone, Copy, Debug, PartialEq, Eq)]
pub struct Extent2D {
    pub width: u32,
    pub height: u32,
}

/// A surface format: raw `VkFormat` and `VkColorSpaceKHR` values.
#[derive(Clone, Copy, Debug, PartialEq, Eq)]
pub struct SurfaceFormat {
    pub format: i32,
    pub color_space: i32,
}

/// What the surface currently allows. A `max_image_count` of 0 means that
/// the surface sets no upper limit.
#[derive(Clone, Copy, Debug, PartialEq, Eq)]
pub struct SurfaceCapabilities {
    pub min_image_count: u32,
    pub max_image_count: u32,
    pub current_extent: Extent2D,
    pub current_transform: u32,
}

/// What a swapchain is created with.
#[derive(Clone, Copy, Debug, PartialEq, Eq)]
pub struct SwapchainConfig {
    pub min_image_count: u32,
    pub surface_format: SurfaceFormat,
    pub extent: Extent2D,
    pub pre_transform: u32,
}

#[derive(Clone, Copy, Debug, PartialEq, Eq)]
pub enum SwapchainError {
    /// The surface reports no format.
    NoSurfaceFormat,
    /// The swapchain reported no image.
    NoImages,
    /// The per-image objects handed over do not match the images one to one.
    CountMismatch,
    /// Framebuffers were already created for this swapchain.
    FramebuffersExist,
}

pub open spec fn spec_max(a: int, b: int) -> int {
    if a >= b { a } else { b }
}

/// The image count to ask for: 3, raised to the surface's minimum and
/// lowered to its maximum when it has one.
pub open spec fn image_count_for(caps: SurfaceCapabilities) -> int {
    let wanted = spec_max(PREFERRED_IMAGE_COUNT as int, caps.min_image_count as int);
    if caps.max_image_count != 0 && wanted > caps.max_image_count {
        caps.max_image_count as int
    } else {
        wanted
    }
}

/// The image count asked for stays within what the surface allows, and is
/// 3 whenever the surface allows 3.
pub proof fn lemma_image_count_in_bounds(caps: SurfaceCapabilities)
    requires
        caps.max_image_count == 0 || caps.min_image_count <= caps.max_image_count,
    ensures
        caps.min_image_count <= image_count_for(caps),
        caps.max_image_count != 0 ==> image_count_for(caps) <= caps.max_image_count,
        image_count_for(caps) >= 1,
        caps.min_image_count <= PREFERRED_IMAGE_COUNT
            && (caps.max_image_count == 0 || PREFERRED_IMAGE_COUNT <= caps.max_image_count)
            ==> image_count_for(caps) == PREFERRED_IMAGE_COUNT,
{
}

/// The image count to ask for: 3, clamped into what the surface allows.
pub fn choose_image_count(caps: SurfaceCapabilities) -> (r: u32)
    ensures
        r == image_count_for(caps),
{
    let wanted = if caps.min_image_count > PREFERRED_IMAGE_COUNT {
        caps.min_image_count
    } else {
        PREFERRED_IMAGE_COUNT
    };
    if caps.max_image_count != 0 && wanted > caps.max_image_count {
        caps.max_image_count
    } else {
        wanted
    }
}

/// The swapchain settings for a surface: the image count of
/// `choose_image_count`, the first format the surface lists, and the
/// surface's current extent and transform.
pub fn plan_swapchain(caps: SurfaceCapabilities, formats: &[SurfaceFormat]) -> (r: Result<SwapchainConfig, SwapchainError>)
    ensures
        formats@.len() == 0 ==> r == Err::<SwapchainConfig, SwapchainError>(SwapchainError::NoSurfaceFormat),
        formats@.len() > 0 ==> r == Ok::<SwapchainConfig, SwapchainError>(SwapchainConfig {
            min_image_count: image_count_for(caps) as u32,
            surface_format: formats@[0],
            extent: caps.current_extent,
            pre_transform: caps.current_transform,
        }),
{
    if formats.len() == 0 {
        return Err(SwapchainError::NoSurfaceFormat);
    }
    let count = choose_image_count(caps);
    Ok(SwapchainConfig {
        min_image_count: count,
        surface_format: formats[0],
        extent: caps.current_extent,
        pre_transform: caps.current_transform,
    })
}

/// A swapchain and the objects that come with each of its images.
pub struct VulkanSwapchain {
    pub swapchain: u64,
    pub images: Vec<u64>,
    pub imageviews: Vec<u64>,
    pub framebuffers: Vec<u64>,
    pub surface_format: SurfaceFormat,
    pub extent: Extent2D,
    pub image_available: Vec<u64>,
    pub rendering_finished: Vec<u64>,
    pub may_begin_drawing: Vec<u64>,
    pub image_count: usize,
    pub current_image: usize,
}

/// `s` with each handle turned into a release step by `f`.
pub open spec fn release_all(s: Seq<u64>, f: spec_fn(u64) -> ReleaseStep) -> Seq<ReleaseStep> {
    s.map_values(f)
}

impl VulkanSwapchain {
    /// Every per-image array has one entry per image, framebuffers once
    /// created, and the frame slot is in range.
    pub open spec fn wf(&self) -> bool {
        &&& self.image_count >= 1
        &&& self.images@.len() == self.image_count
        &&& self.imageviews@.len() == self.image_count
        &&& self.image_available@.len() == self.image_count
        &&& self.rendering_finished@.len() == self.image_count
        &&& self.may_begin_drawing@.len() == self.image_count
        &&& (self.framebuffers@.len() == 0 || self.framebuffers@.len() == self.image_count)
        &&& self.current_image < self.image_count
    }

    /// Framebuffers exist for every image.
    pub open spec fn ready(&self) -> bool {
        self.wf() && self.framebuffers@.len() == self.image_count
    }

    /// Puts a swapchain together from what the device created for `config`.
    /// Succeeds when there is at least one image and one view and one of
    /// each synchronization object per image. The frame slot starts at 0.
    pub fn new(
        config: SwapchainConfig,
        swapchain: u64,
        images: Vec<u64>,
        imageviews: Vec<u64>,
        image_available: Vec<u64>,
        rendering_finished: Vec<u64>,
        may_begin_drawing: Vec<u64>,
    ) -> (r: Result<VulkanSwapchain, SwapchainError>)
        ensures
            images@.len() == 0 ==> r == Err::<VulkanSwapchain, SwapchainError>(SwapchainError::NoImages),
            images@.len() > 0 && !(imageviews@.len() == images@.len()
                && image_available@.len() == images@.len()
                && rendering_finished@.len() == images@.len()
                && may_begin_drawing@.len() == images@.len())
                ==> r == Err::<VulkanSwapchain, SwapchainError>(SwapchainError::CountMismatch),
            r.is_ok() <==> (images@.len() > 0
                && imageviews@.len() == images@.len()
                && image_available@.len() == images@.len()
                && rendering_finished@.len() == images@.len()
                && may_begin_drawing@.len() == images@.len()),
            r matches Ok(s) ==> {
                &&& s.wf()
                &&& s.swapchain == swapchain
                &&& s.images@ == images@
                &&& s.imageviews@ == imageviews@
                &&& s.framebuffers@.len() == 0
                &&& s.surface_format == config.surface_format
                &&& s.extent == config.extent
                &&& s.image_available@ == image_available@
                &&& s.rendering_finished@ == rendering_finished@
                &&& s.may_begin_drawing@ == may_begin_drawing@
                &&& s.image_count == images@.len()
                &&& s.current_image == 0
            },
    {
        let n = images.len();
        if n == 0 {
            return Err(SwapchainError::NoImages);
        }
        if imageviews.len() != n || image_available.len() != n || rendering_finished.len() != n
            || may_begin_drawing.len() != n {
            return Err(SwapchainError::CountMismatch);
        }
        Ok(VulkanSwapchain {
            swapchain,
            images,
            imageviews,
            framebuffers: Vec::new(),
            surface_format: config.surface_format,
            extent: config.extent,
            image_available,
            rendering_finished,
            may_begin_drawing,
            image_count: n,
            current_image: 0,
        })
    }

    /// Takes one framebuffer per image view, in image order. Refused when the
    /// count differs from the image count or framebuffers already exist.
    pub fn create_framebuffers(&mut self, framebuffers: Vec<u64>) -> (r: Result<(), SwapchainError>)
        requires
            old(self).wf(),
        ensures
            final(self).wf(),
            old(self).framebuffers@.len() != 0
                ==> r == Err::<(), SwapchainError>(SwapchainError::FramebuffersExist),
            old(self).framebuffers@.len() == 0 && framebuffers@.len() != old(self).image_count
                ==> r == Err::<(), SwapchainError>(SwapchainError::CountMismatch),
            r.is_ok() <==> (old(self).framebuffers@.len() == 0 && framebuffers@.len() == old(self).image_count),
            r.is_err() ==> *final(self) == *old(self),
            r.is_ok() ==> *final(self) == (VulkanSwapchain { framebuffers, ..*old(self) }),
            r.is_ok() ==> final(self).ready(),
    {
        if self.framebuffers.len() != 0 {
            return Err(SwapchainError::FramebuffersExist);
        }
        if framebuffers.len() != self.image_count {
            return Err(SwapchainError::CountMismatch);
        }
        self.framebuffers = framebuffers;
        Ok(())
    }

    /// Moves to the next frame slot, wrapping after the last image.
    pub fn advance_frame_slot(&mut self)
        requires
            old(self).wf(),
        ensures
            final(self).wf(),
            final(self).current_image == (old(self).current_image + 1) % (old(self).image_count as int),
            *final(self) == (VulkanSwapchain { current_image: final(self).current_image, ..*old(self) }),
    {
        let next = self.current_image + 1;
        proof {
            let n = self.image_count as int;
            if next < n {
                vstd::arithmetic::div_mod::lemma_small_mod(next as nat, n as nat);
            } else {
                vstd::arithmetic::div_mod::lemma_mod_self_0(n);
            }
        }
        self.current_image = if next == self.image_count { 0 } else { next };
    }

    /// The order in which the swapchain's objects are destroyed: fences,
    /// image-available semaphores, render-finished semaphores, framebuffers,
    /// image views, and the swapchain itself last. The device must be idle.
    pub fn cleanup(&self) -> (r: Vec<ReleaseStep>)
        ensures
            r@ == release_all(self.may_begin_drawing@, |h: u64| ReleaseStep::DestroyFence(h))
                + release_all(self.image_available@, |h: u64| ReleaseStep::DestroySemaphore(h))
                + release_all(self.rendering_finished@, |h: u64| ReleaseStep::DestroySemaphore(h))
                + release_all(self.framebuffers@, |h: u64| ReleaseStep::DestroyFramebuffer(h))
                + release_all(self.imageviews@, |h: u64| ReleaseStep::DestroyImageView(h))
                + seq![ReleaseStep::DestroySwapchain(self.swapchain)],
    {
        let mut steps: Vec<ReleaseStep> = Vec::new();
        push_releases(&mut steps, &self.may_begin_drawing, 0);
        push_releases(&mut steps, &self.image_available, 1);
        push_releases(&mut steps, &self.rendering_finished, 1);
        push_releases(&mut steps, &self.framebuffers, 2);
        push_releases(&mut steps, &self.imageviews, 3);
        steps.push(ReleaseStep::DestroySwapchain(self.swapchain));
        proof {
            assert(release_all(self.may_begin_drawing@, |h: u64| ReleaseStep::DestroyFence(h))
                =~= release_all(self.may_begin_drawing@, |h: u64| release_kind(0, h)));
            assert(release_all(self.image_available@, |h: u64| ReleaseStep::DestroySemaphore(h))
                =~= release_all(self.image_available@, |h: u64| release_kind(1, h)));
            assert(release_all(self.rendering_finished@, |h: u64| ReleaseStep::DestroySemaphore(h))
                =~= release_all(self.rendering_finished@, |h: u64| release_kind(1, h)));
            assert(release_all(self.framebuffers@, |h: u64| ReleaseStep::DestroyFramebuffer(h))
                =~= release_all(self.framebuffers@, |h: u64| release_kind(2, h)));
            assert(release_all(self.imageviews@, |h: u64| ReleaseStep::DestroyImageView(h))
                =~= release_all(self.imageviews@, |h: u64| release_kind(3, h)));
        }
        steps
    }
}

/// The release step of kind `kind` (0 fence, 1 semaphore, 2 framebuffer,
/// otherwise image view) for handle `h`.
pub open spec fn release_kind(kind: u8, h: u64) -> ReleaseStep {
    if kind == 0 {
        ReleaseStep::DestroyFence(h)
    } else if kind == 1 {
        ReleaseStep::DestroySemaphore(h)
    } else if kind == 2 {
        ReleaseStep::DestroyFramebuffer(h)
    } else {
        ReleaseStep::DestroyImageView(h)
    }
}

fn push_releases(steps: &mut Vec<ReleaseStep>, handles: &Vec<u64>, kind: u8)
    ensures
        final(steps)@ == old(steps)@ + release_all(handles@, |h: u64| release_kind(kind, h)),
{
    let ghost start = steps@;
    let mut i: usize = 0;
    while i < handles.len()
        invariant
            i <= handles@.len(),
            steps@ == start + release_all(handles@.subrange(0, i as int), |h: u64| release_kind(kind, h)),
        decreases handles@.len() - i,
    {
        let h = handles[i];
        let step = if kind == 0 {
            ReleaseStep::DestroyFence(h)
        } else if kind == 1 {
            ReleaseStep::DestroySemaphore(h)
        } else if kind == 2 {
            ReleaseStep::DestroyFramebuffer(h)
        } else {
            ReleaseStep::DestroyImageView(h)
        };
        steps.push(step);
        i = i + 1;
        assert(steps@ =~= start + release_all(handles@.subrange(0, i as int), |h: u64| release_kind(kind, h)));
    }
    assert(handles@.subrange(0, handles@.len() as int) =~= handles@);
}

} // verus!
