//! A host-visible buffer of vertices, written as already encoded bytes.

use vstd::prelude::*;

use crate::buffer::{size_fits, zeros, BufferError, BufferResource, BufferUsage, MemoryBlock, VERTEX_SIZE};
use crate::release::ReleaseStep;

verus! {

pub struct VertexBuffer {
    pub resource: BufferResource,
}

impl VertexBuffer {
    pub open spec fn wf(&self) -> bool {
        &&& self.resource.wf()
        &&& self.resource.usage_kind() == BufferUsage::Vertex
        &&& self.resource.elem_size() == VERTEX_SIZE
    }

    /// A vertex buffer of `size` bytes bound to `block`, holding no vertices yet.
    pub fn new(buffer: u64, block: MemoryBlock, size: u64) -> (r: Self)
        requires
            size <= usize::MAX,
            size_fits(size as int, VERTEX_SIZE as int),
        ensures
            r.wf(),
            r.resource.handle() == buffer,
            r.resource.memory_block() == block,
            r.resource.contents() == zeros(size as nat),
            r.resource.count() == 0,
            r.resource.is_live(),
    {
        VertexBuffer { resource: BufferResource::new(buffer, block, size, BufferUsage::Vertex, VERTEX_SIZE) }
    }

    /// Releases the memory, then destroys the buffer handle.
    pub fn destroy(&mut self) -> (r: Result<Vec<ReleaseStep>, BufferError>)
        requires
            old(self).wf(),
        ensures
            final(self).wf(),
            !old(self).resource.is_live() ==> r == Err::<Vec<ReleaseStep>, BufferError>(BufferError::Destroyed),
            old(self).resource.is_live() ==> r.is_ok() && r.unwrap()@ == seq![
                ReleaseStep::FreeMemory(old(self).resource.handle()),
                ReleaseStep::DestroyBuffer(old(self).resource.handle()),
            ],
            !final(self).resource.is_live(),
            final(self).resource.handle() == old(self).resource.handle(),
            final(self).resource.contents() == old(self).resource.contents(),
            final(self).resource.count() == old(self).resource.count(),
    {
        self.resource.destroy()
    }

    /// Bytes needed for `count` vertices.
    pub fn get_vertex_buffer_size(count: usize) -> (r: u64)
        requires
            count * VERTEX_SIZE <= u64::MAX,
        ensures
            r == count * VERTEX_SIZE,
    {
        count as u64 * VERTEX_SIZE
    }

    /// Writes encoded vertices from offset 0; the vertex count becomes the
    /// number of whole vertices in `data`.
    pub fn update_buffer(&mut self, data: &[u8]) -> (r: Result<(), BufferError>)
        requires
            old(self).wf(),
        ensures
            final(self).wf(),
            r.is_ok() <==> (old(self).resource.is_live() && data@.len() <= old(self).resource.capacity()
                && data@.len() % VERTEX_SIZE as nat == 0),
            !old(self).resource.is_live() ==> r == Err::<(), BufferError>(BufferError::Destroyed),
            old(self).resource.is_live() && data@.len() > old(self).resource.capacity()
                ==> r == Err::<(), BufferError>(BufferError::Overflow),
            old(self).resource.is_live() && data@.len() <= old(self).resource.capacity()
                && data@.len() % VERTEX_SIZE as nat != 0
                ==> r == Err::<(), BufferError>(BufferError::Misaligned),
            r.is_err() ==> *final(self) == *old(self),
            r.is_ok() ==> {
                &&& final(self).resource.contents() == crate::buffer::written(old(self).resource.contents(), data@)
                &&& final(self).resource.count() == data@.len() / VERTEX_SIZE as nat
                &&& final(self).resource.handle() == old(self).resource.handle()
                &&& final(self).resource.memory_block() == old(self).resource.memory_block()
                &&& final(self).resource.is_live()
            },
    {
        self.resource.update(data)
    }

    pub fn get_buffer(&self) -> (r: u64)
        ensures
            r == self.resource.handle(),
    {
        self.resource.get_buffer()
    }

    pub fn get_vertex_count(&self) -> (r: u32)
        ensures
            r == self.resource.count(),
    {
        self.resource.get_count()
    }
}

} // verus!
