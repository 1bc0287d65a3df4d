//! Device objects handed back for destruction, in the order they must go.

use vstd::prelude::*;

verus! {

/// One destruction or release call on the device. Handles are the raw
/// 64-bit values of the Vulkan objects.
#[derive(Clone, Copy, Debug, PartialEq, Eq)]
pub enum ReleaseStep {
    /// Return the memory allocation bound to this buffer to the allocator.
    FreeMemory(u64),
    DestroyBuffer(u64),
    DestroyFence(u64),
    DestroySemaphore(u64),
    DestroyFramebuffer(u64),
    DestroyImageView(u64),
    DestroySwapchain(u64),
    DestroyPipeline(u64),
    DestroyPipelineLayout(u64),
    DestroyRenderPass(u64),
    DestroyCommandPool(u64),
}

} // verus!
