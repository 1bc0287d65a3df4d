//! A renderable: the mesh that the recording pass draws.

use vstd::prelude::*;

use crate::buffer::BufferError;
use crate::index_buffer::IndexBuffer;
use crate::mesh::Mesh;
use crate::release::ReleaseStep;
use crate::vertex_buffer::VertexBuffer;

verus! {

pub struct Renderable {
    pub mesh: Mesh,
}

impl Renderable {
    pub open spec fn wf(&self) -> bool {
        self.mesh.wf()
    }

    /// A renderable of one vertex buffer drawn through one index buffer.
    pub fn new(vertex_buffer: VertexBuffer, index_buffer: IndexBuffer) -> (r: Self)
        requires
            vertex_buffer.wf(),
            vertex_buffer.resource.is_live(),
            index_buffer.wf(),
            index_buffer.resource.is_live(),
        ensures
            r.wf(),
            r.mesh.is_live(),
            r.mesh.vertex_buffers@ == seq![vertex_buffer],
            r.mesh.index_buffer == Some(index_buffer),
    {
        Renderable { mesh: Mesh::new(vertex_buffer, Some(index_buffer)) }
    }

    /// Releases the renderable's buffers, vertex buffers first.
    pub fn destroy(&mut self) -> (r: Result<Vec<ReleaseStep>, BufferError>)
        requires
            old(self).wf(),
        ensures
            final(self).wf(),
            !final(self).mesh.is_live(),
            !old(self).mesh.is_live() ==> r == Err::<Vec<ReleaseStep>, BufferError>(BufferError::Destroyed),
            old(self).mesh.is_live() ==> r.is_ok() && r.unwrap()@ == old(self).mesh.release_order(),
    {
        self.mesh.destroy()
    }
}

} // verus!
