//! The command recording pass: for every swapchain image, the commands that
//! draw every renderable into that image's framebuffer.

use vstd::prelude::*;

use crate::mesh::Mesh;
use crate::pipeline::Pipeline;
use crate::renderable::Renderable;
use crate::swapchain::{Extent2D, VulkanSwapchain};
use crate::vertex_buffer::VertexBuffer;

verus! {

/// One command of the recording pass. Handles are raw Vulkan handles.
#[derive(Clone, Copy, Debug, PartialEq, Eq)]
pub enum Command {
    /// Wait, without time limit, until the fence is signaled.
    WaitForFence { fence: u64 },
    BeginCommandBuffer { command_buffer: u64 },
    /// Begin the render pass on the framebuffer, over the whole extent,
    /// clearing to the fixed clear colour.
    BeginRenderPass { command_buffer: u64, render_pass: u64, framebuffer: u64, extent: Extent2D },
    BindPipeline { command_buffer: u64, pipeline: u64 },
    /// Bind 32-bit indices from offset 0.
    BindIndexBuffer { command_buffer: u64, buffer: u64 },
    /// Bind a vertex buffer at binding 0, offset 0.
    BindVertexBuffer { command_buffer: u64, buffer: u64 },
    /// One instance, from the first index and vertex.
    DrawIndexed { command_buffer: u64, index_count: u32 },
    /// One instance, from the first vertex.
    Draw { command_buffer: u64, vertex_count: u32 },
    EndRenderPass { command_buffer: u64 },
    EndCommandBuffer { command_buffer: u64 },
}

/// The draw of one vertex buffer: indexed with `index_count` indices when
/// there is an index buffer, else over the buffer's own vertices.
pub open spec fn draw_of(cb: u64, vb: VertexBuffer, index_count: Option<u32>) -> Command {
    match index_count {
        Some(n) => Command::DrawIndexed { command_buffer: cb, index_count: n },
        None => Command::Draw { command_buffer: cb, vertex_count: vb.resource.count() as u32 },
    }
}

/// Each vertex buffer of `vbs` in order: bound, then drawn.
pub open spec fn vertex_draws(cb: u64, vbs: Seq<VertexBuffer>, index_count: Option<u32>) -> Seq<Command>
    decreases vbs.len(),
{
    if vbs.len() == 0 {
        Seq::empty()
    } else {
        vertex_draws(cb, vbs.drop_last(), index_count) + seq![
            Command::BindVertexBuffer { command_buffer: cb, buffer: vbs.last().resource.handle() },
            draw_of(cb, vbs.last(), index_count),
        ]
    }
}

/// The commands for one mesh: the pipeline, then, with an index buffer,
/// that buffer bound once and one indexed draw per vertex buffer with its
/// current count; without, one plain draw per vertex buffer.
pub open spec fn mesh_commands(cb: u64, pipeline: u64, m: Mesh) -> Seq<Command> {
    seq![Command::BindPipeline { command_buffer: cb, pipeline }] + match m.index_buffer {
        Some(ib) => seq![Command::BindIndexBuffer { command_buffer: cb, buffer: ib.resource.handle() }]
            + vertex_draws(cb, m.vertex_buffers@, Some(ib.resource.count() as u32)),
        None => vertex_draws(cb, m.vertex_buffers@, None),
    }
}

/// The commands for every renderable, in order.
pub open spec fn scene_commands(cb: u64, pipeline: u64, rs: Seq<Renderable>) -> Seq<Command>
    decreases rs.len(),
{
    if rs.len() == 0 {
        Seq::empty()
    } else {
        scene_commands(cb, pipeline, rs.drop_last()) + mesh_commands(cb, pipeline, rs.last().mesh)
    }
}

/// One command buffer, begun and ended, with one render pass on `framebuffer`.
pub open spec fn buffer_commands(
    cb: u64,
    render_pass: u64,
    framebuffer: u64,
    extent: Extent2D,
    pipeline: u64,
    rs: Seq<Renderable>,
) -> Seq<Command> {
    seq![
        Command::BeginCommandBuffer { command_buffer: cb },
        Command::BeginRenderPass { command_buffer: cb, render_pass, framebuffer, extent },
    ] + scene_commands(cb, pipeline, rs) + seq![
        Command::EndRenderPass { command_buffer: cb },
        Command::EndCommandBuffer { command_buffer: cb },
    ]
}

/// The first `k` command buffers, each on the framebuffer of its image.
pub open spec fn all_buffer_commands(
    cbs: Seq<u64>,
    fbs: Seq<u64>,
    render_pass: u64,
    extent: Extent2D,
    pipeline: u64,
    rs: Seq<Renderable>,
    k: nat,
) -> Seq<Command>
    decreases k,
{
    if k == 0 {
        Seq::empty()
    } else {
        all_buffer_commands(cbs, fbs, render_pass, extent, pipeline, rs, (k - 1) as nat)
            + buffer_commands(cbs[k - 1], render_pass, fbs[k - 1], extent, pipeline, rs)
    }
}

/// The whole pass: the wait on the current frame slot's fence, then every
/// command buffer.
pub open spec fn recording(
    cbs: Seq<u64>,
    render_pass: u64,
    swapchain: VulkanSwapchain,
    pipeline: Pipeline,
    rs: Seq<Renderable>,
) -> Seq<Command> {
    seq![Command::WaitForFence { fence: swapchain.may_begin_drawing@[swapchain.current_image as int] }]
        + all_buffer_commands(cbs, swapchain.framebuffers@, render_pass, swapchain.extent, pipeline.pipeline, rs,
            cbs.len())
}

fn push_vertex_draws(out: &mut Vec<Command>, cb: u64, vbs: &Vec<VertexBuffer>, index_count: Option<u32>)
    ensures
        final(out)@ == old(out)@ + vertex_draws(cb, vbs@, index_count),
{
    let ghost start = out@;
    let mut i: usize = 0;
    while i < vbs.len()
        invariant
            i <= vbs@.len(),
            out@ == start + vertex_draws(cb, vbs@.subrange(0, i as int), index_count),
        decreases vbs@.len() - i,
    {
        let vb = &vbs[i];
        out.push(Command::BindVertexBuffer { command_buffer: cb, buffer: vb.get_buffer() });
        match index_count {
            Some(n) => out.push(Command::DrawIndexed { command_buffer: cb, index_count: n }),
            None => out.push(Command::Draw { command_buffer: cb, vertex_count: vb.get_vertex_count() }),
        }
        proof {
            let sub = vbs@.subrange(0, i + 1);
            assert(sub.drop_last() =~= vbs@.subrange(0, i as int));
            assert(sub.last() == vbs@[i as int]);
        }
        i = i + 1;
        assert(out@ =~= start + vertex_draws(cb, vbs@.subrange(0, i as int), index_count));
    }
    assert(vbs@.subrange(0, vbs@.len() as int) =~= vbs@);
}

fn push_mesh_commands(out: &mut Vec<Command>, cb: u64, pipeline: u64, m: &Mesh)
    ensures
        final(out)@ == old(out)@ + mesh_commands(cb, pipeline, *m),
{
    let ghost start = out@;
    out.push(Command::BindPipeline { command_buffer: cb, pipeline });
    match &m.index_buffer {
        Some(ib) => {
            out.push(Command::BindIndexBuffer { command_buffer: cb, buffer: ib.get_buffer() });
            push_vertex_draws(out, cb, &m.vertex_buffers, Some(ib.get_index_count()));
        },
        None => {
            push_vertex_draws(out, cb, &m.vertex_buffers, None);
        },
    }
    assert(out@ =~= start + mesh_commands(cb, pipeline, *m));
}

fn push_buffer_commands(
    out: &mut Vec<Command>,
    cb: u64,
    render_pass: u64,
    framebuffer: u64,
    extent: Extent2D,
    pipeline: u64,
    renderables: &Vec<Renderable>,
)
    ensures
        final(out)@ == old(out)@ + buffer_commands(cb, render_pass, framebuffer, extent, pipeline, renderables@),
{
    let ghost start = out@;
    out.push(Command::BeginCommandBuffer { command_buffer: cb });
    out.push(Command::BeginRenderPass { command_buffer: cb, render_pass, framebuffer, extent });
    let ghost head = out@;
    let mut j: usize = 0;
    while j < renderables.len()
        invariant
            j <= renderables@.len(),
            out@ == head + scene_commands(cb, pipeline, renderables@.subrange(0, j as int)),
        decreases renderables@.len() - j,
    {
        push_mesh_commands(out, cb, pipeline, &renderables[j].mesh);
        proof {
            let sub = renderables@.subrange(0, j + 1);
            assert(sub.drop_last() =~= renderables@.subrange(0, j as int));
            assert(sub.last() == renderables@[j as int]);
        }
        j = j + 1;
        assert(out@ =~= head + scene_commands(cb, pipeline, renderables@.subrange(0, j as int)));
    }
    assert(renderables@.subrange(0, renderables@.len() as int) =~= renderables@);
    out.push(Command::EndRenderPass { command_buffer: cb });
    out.push(Command::EndCommandBuffer { command_buffer: cb });
    assert(out@ =~= start + buffer_commands(cb, render_pass, framebuffer, extent, pipeline, renderables@));
}

/// Records every command buffer: first the wait on the current frame slot's
/// fence, then, for each image `i`, command buffer `i` begun, the render pass
/// begun on framebuffer `i`, the commands of every renderable in order, and
/// both ended again.
pub fn fill_commandbuffers(
    commandbuffers: &[u64],
    renderpass: u64,
    swapchain: &VulkanSwapchain,
    pipeline: &Pipeline,
    renderables: &Vec<Renderable>,
) -> (r: Vec<Command>)
    requires
        swapchain.ready(),
        commandbuffers@.len() == swapchain.image_count,
    ensures
        r@ == recording(commandbuffers@, renderpass, *swapchain, *pipeline, renderables@),
{
    let mut out: Vec<Command> = Vec::new();
    out.push(Command::WaitForFence { fence: swapchain.may_begin_drawing[swapchain.current_image] });
    let ghost head = out@;
    let mut i: usize = 0;
    while i < commandbuffers.len()
        invariant
            i <= commandbuffers@.len(),
            commandbuffers@.len() == swapchain.framebuffers@.len(),
            out@ == head + all_buffer_commands(commandbuffers@, swapchain.framebuffers@, renderpass,
                swapchain.extent, pipeline.pipeline, renderables@, i as nat),
        decreases commandbuffers@.len() - i,
    {
        push_buffer_commands(&mut out, commandbuffers[i], renderpass, swapchain.framebuffers[i], swapchain.extent,
            pipeline.pipeline, renderables);
        i = i + 1;
        assert(out@ =~= head + all_buffer_commands(commandbuffers@, swapchain.framebuffers@, renderpass,
            swapchain.extent, pipeline.pipeline, renderables@, i as nat));
    }
    out
}

} // verus!
