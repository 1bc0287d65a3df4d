//! The order in which the renderer's device objects are torn down and
//! rebuilt: dependents always go before what they depend on.

use vstd::prelude::*;

verus! {

/// One stage of a recreation or a shutdown.
#[derive(Clone, Copy, Debug, PartialEq, Eq)]
pub enum Stage {
    /// Wait until the device has no work in flight.
    WaitIdle,
    DestroyRenderables,
    FreeCommandBuffers,
    DestroyCommandPools,
    DestroyPipeline,
    DestroyRenderPass,
    DestroySwapchain,
    DestroyAllocator,
    DestroyDevice,
    DestroySurface,
    DestroyDebugMessenger,
    DestroyInstance,
    CreateSwapchain,
    CreateRenderPass,
    CreateFramebuffers,
    CreatePipeline,
    CreateCommandPools,
    CreateCommandBuffers,
    /// Record every command buffer against the renderables, which were kept.
    RecordCommandBuffers,
}

pub open spec fn recreation_order() -> Seq<Stage> {
    seq![
        Stage::WaitIdle,
        Stage::FreeCommandBuffers,
        Stage::DestroyCommandPools,
        Stage::DestroyPipeline,
        Stage::DestroyRenderPass,
        Stage::DestroySwapchain,
        Stage::CreateSwapchain,
        Stage::CreateRenderPass,
        Stage::CreateFramebuffers,
        Stage::CreatePipeline,
        Stage::CreateCommandPools,
        Stage::CreateCommandBuffers,
        Stage::RecordCommandBuffers,
    ]
}

pub open spec fn shutdown_order() -> Seq<Stage> {
    seq![
        Stage::WaitIdle,
        Stage::DestroyRenderables,
        Stage::FreeCommandBuffers,
        Stage::DestroyCommandPools,
        Stage::DestroyPipeline,
        Stage::DestroyRenderPass,
        Stage::DestroySwapchain,
        Stage::DestroyAllocator,
        Stage::DestroyDevice,
        Stage::DestroySurface,
        Stage::DestroyDebugMessenger,
        Stage::DestroyInstance,
    ]
}

/// `a` has to run before `b`: what `a` destroys uses or was made from what
/// `b` destroys, or `b` builds on what `a` creates.
pub open spec fn must_precede(a: Stage, b: Stage) -> bool {
    ||| a == Stage::WaitIdle && b != Stage::WaitIdle
    ||| a == Stage::DestroyRenderables && (b == Stage::DestroyAllocator || b == Stage::DestroyDevice)
    ||| a == Stage::FreeCommandBuffers && b == Stage::DestroyCommandPools
    ||| a == Stage::DestroyCommandPools && b == Stage::DestroyDevice
    ||| a == Stage::DestroyPipeline && (b == Stage::DestroyRenderPass || b == Stage::DestroyDevice)
    ||| a == Stage::DestroyRenderPass && b == Stage::DestroyDevice
    ||| a == Stage::DestroySwapchain && (b == Stage::DestroyDevice || b == Stage::DestroySurface
        || b == Stage::CreateSwapchain)
    ||| a == Stage::DestroyAllocator && b == Stage::DestroyDevice
    ||| a == Stage::DestroyDevice && b == Stage::DestroyInstance
    ||| a == Stage::DestroySurface && b == Stage::DestroyInstance
    ||| a == Stage::DestroyDebugMessenger && b == Stage::DestroyInstance
    ||| a == Stage::CreateSwapchain && (b == Stage::CreateRenderPass || b == Stage::CreateFramebuffers
        || b == Stage::CreateCommandBuffers)
    ||| a == Stage::CreateRenderPass && (b == Stage::CreateFramebuffers || b == Stage::CreatePipeline)
    ||| a == Stage::CreateCommandPools && b == Stage::CreateCommandBuffers
    ||| (a == Stage::CreateFramebuffers || a == Stage::CreatePipeline || a == Stage::CreateCommandBuffers)
        && b == Stage::RecordCommandBuffers
}

/// Both orders put every stage before the stages that depend on it.
pub proof fn lemma_orders_respect_dependencies(i: int, j: int)
    ensures
        0 <= i < recreation_order().len() && 0 <= j < recreation_order().len()
            && must_precede(recreation_order()[i], recreation_order()[j]) ==> i < j,
        0 <= i < shutdown_order().len() && 0 <= j < shutdown_order().len()
            && must_precede(shutdown_order()[i], shutdown_order()[j]) ==> i < j,
{
    let r = recreation_order();
    let s = shutdown_order();
    assert(r[0] == Stage::WaitIdle && r[1] == Stage::FreeCommandBuffers && r[2] == Stage::DestroyCommandPools
        && r[3] == Stage::DestroyPipeline && r[4] == Stage::DestroyRenderPass && r[5] == Stage::DestroySwapchain
        && r[6] == Stage::CreateSwapchain && r[7] == Stage::CreateRenderPass && r[8] == Stage::CreateFramebuffers
        && r[9] == Stage::CreatePipeline && r[10] == Stage::CreateCommandPools
        && r[11] == Stage::CreateCommandBuffers && r[12] == Stage::RecordCommandBuffers);
    assert(s[0] == Stage::WaitIdle && s[1] == Stage::DestroyRenderables && s[2] == Stage::FreeCommandBuffers
        && s[3] == Stage::DestroyCommandPools && s[4] == Stage::DestroyPipeline && s[5] == Stage::DestroyRenderPass
        && s[6] == Stage::DestroySwapchain && s[7] == Stage::DestroyAllocator && s[8] == Stage::DestroyDevice
        && s[9] == Stage::DestroySurface && s[10] == Stage::DestroyDebugMessenger
        && s[11] == Stage::DestroyInstance);
}

/// The stages of a swapchain recreation: drain the device, destroy command
/// buffers, pools, pipeline, render pass and swapchain, then rebuild them in
/// the reverse order and record the command buffers again. Renderables and
/// their buffers are left as they are.
pub fn recreation_stages() -> (r: Vec<Stage>)
    ensures
        r@ == recreation_order(),
{
    let mut r: Vec<Stage> = Vec::new();
    r.push(Stage::WaitIdle);
    r.push(Stage::FreeCommandBuffers);
    r.push(Stage::DestroyCommandPools);
    r.push(Stage::DestroyPipeline);
    r.push(Stage::DestroyRenderPass);
    r.push(Stage::DestroySwapchain);
    r.push(Stage::CreateSwapchain);
    r.push(Stage::CreateRenderPass);
    r.push(Stage::CreateFramebuffers);
    r.push(Stage::CreatePipeline);
    r.push(Stage::CreateCommandPools);
    r.push(Stage::CreateCommandBuffers);
    r.push(Stage::RecordCommandBuffers);
    assert(r@ =~= recreation_order());
    r
}

/// The stages of shutting the renderer down: drain the device, destroy the
/// renderables' buffers while the allocator still lives, then every object
/// before the one it was created from, the instance last.
pub fn shutdown_stages() -> (r: Vec<Stage>)
    ensures
        r@ == shutdown_order(),
{
    let mut r: Vec<Stage> = Vec::new();
    r.push(Stage::WaitIdle);
    r.push(Stage::DestroyRenderables);
    r.push(Stage::FreeCommandBuffers);
    r.push(Stage::DestroyCommandPools);
    r.push(Stage::DestroyPipeline);
    r.push(Stage::DestroyRenderPass);
    r.push(Stage::DestroySwapchain);
    r.push(Stage::DestroyAllocator);
    r.push(Stage::DestroyDevice);
    r.push(Stage::DestroySurface);
    r.push(Stage::DestroyDebugMessenger);
    r.push(Stage::DestroyInstance);
    assert(r@ =~= shutdown_order());
    r
}

} // verus!
