use reverie::buffer::MemoryBlock;
use reverie::index_buffer::IndexBuffer;
use reverie::mesh::Mesh;
use reverie::pipeline::Pipeline;
use reverie::recording::{fill_commandbuffers, Command};
use reverie::renderable::Renderable;
use reverie::swapchain::{Extent2D, SurfaceFormat, SwapchainConfig, VulkanSwapchain};
use reverie::vertex_buffer::VertexBuffer;

fn block(memory: u64) -> MemoryBlock {
    MemoryBlock { memory, offset: 0, size: 256 }
}

fn swapchain(n: u64) -> VulkanSwapchain {
    let config = SwapchainConfig {
        min_image_count: n as u32,
        surface_format: SurfaceFormat { format: 44, color_space: 0 },
        extent: Extent2D { width: 800, height: 600 },
        pre_transform: 1,
    };
    let ids = |base: u64| (0..n).map(|i| base + i).collect::<Vec<u64>>();
    let mut sc = VulkanSwapchain::new(config, 7, ids(100), ids(200), ids(300), ids(400), ids(500)).unwrap();
    sc.create_framebuffers(ids(600)).unwrap();
    sc
}

fn vertex_buffer(handle: u64, vertices: usize) -> VertexBuffer {
    let mut vb = VertexBuffer::new(handle, block(handle + 1000), 80);
    vb.update_buffer(&vec![0u8; vertices * 20]).unwrap();
    vb
}

fn draws(cmds: &[Command], cb: u64) -> Vec<Command> {
    cmds.iter()
        .filter(|c| match c {
            Command::Draw { command_buffer, .. } | Command::DrawIndexed { command_buffer, .. } => *command_buffer == cb,
            _ => false,
        })
        .copied()
        .collect()
}

#[test]
fn indexed_draws_share_index_count() {
    let mut ib = IndexBuffer::new(30, block(31), 24);
    ib.update_buffer(&[0, 1, 2, 2, 3, 0]).unwrap();
    let mesh = Mesh { vertex_buffers: vec![vertex_buffer(10, 4), vertex_buffer(20, 3)], index_buffer: Some(ib) };
    let renderables = vec![Renderable { mesh }];
    let sc = swapchain(1);
    let cmds = fill_commandbuffers(&[900], 77, &sc, &Pipeline { pipeline: 55, layout: 56 }, &renderables);
    assert_eq!(
        draws(&cmds, 900),
        vec![
            Command::DrawIndexed { command_buffer: 900, index_count: 6 },
            Command::DrawIndexed { command_buffer: 900, index_count: 6 },
        ]
    );
}

#[test]
fn plain_draw_uses_vertex_count() {
    let mesh = Mesh::new(vertex_buffer(10, 4), None);
    let renderables = vec![Renderable { mesh }];
    let sc = swapchain(1);
    let cmds = fill_commandbuffers(&[900], 77, &sc, &Pipeline { pipeline: 55, layout: 56 }, &renderables);
    assert_eq!(draws(&cmds, 900), vec![Command::Draw { command_buffer: 900, vertex_count: 4 }]);
}

#[test]
fn full_recording_layout() {
    let mut ib = IndexBuffer::new(30, block(31), 24);
    ib.update_buffer(&[0, 1, 2, 2, 3, 0]).unwrap();
    let quad = Renderable::new(vertex_buffer(10, 4), ib);
    let tri = Renderable { mesh: Mesh::new(vertex_buffer(20, 3), None) };
    let renderables = vec![quad, tri];
    let mut sc = swapchain(2);
    sc.advance_frame_slot();
    let cmds = fill_commandbuffers(&[900, 901], 77, &sc, &Pipeline { pipeline: 55, layout: 56 }, &renderables);
    let extent = Extent2D { width: 800, height: 600 };
    let mut expected = vec![Command::WaitForFence { fence: 501 }];
    for (i, cb) in [900u64, 901].iter().enumerate() {
        let cb = *cb;
        expected.extend([
            Command::BeginCommandBuffer { command_buffer: cb },
            Command::BeginRenderPass { command_buffer: cb, render_pass: 77, framebuffer: 600 + i as u64, extent },
            Command::BindPipeline { command_buffer: cb, pipeline: 55 },
            Command::BindIndexBuffer { command_buffer: cb, buffer: 30 },
            Command::BindVertexBuffer { command_buffer: cb, buffer: 10 },
            Command::DrawIndexed { command_buffer: cb, index_count: 6 },
            Command::BindPipeline { command_buffer: cb, pipeline: 55 },
            Command::BindVertexBuffer { command_buffer: cb, buffer: 20 },
            Command::Draw { command_buffer: cb, vertex_count: 3 },
            Command::EndRenderPass { command_buffer: cb },
            Command::EndCommandBuffer { command_buffer: cb },
        ]);
    }
    assert_eq!(cmds, expected);
}

#[test]
fn recording_with_no_renderables() {
    let sc = swapchain(3);
    let cmds = fill_commandbuffers(&[1, 2, 3], 77, &sc, &Pipeline { pipeline: 55, layout: 56 }, &vec![]);
    assert_eq!(cmds.len(), 1 + 3 * 4);
    assert_eq!(cmds[0], Command::WaitForFence { fence: 500 });
    assert!(draws(&cmds, 1).is_empty());
}
