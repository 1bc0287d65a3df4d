//! A drawable aggregate: one or more vertex buffers and an optional index
//! buffer that all of them are drawn with.

use vstd::prelude::*;

use crate::buffer::{BufferError, BufferResource, INDEX_SIZE, VERTEX_SIZE};
use crate::index_buffer::IndexBuffer;
use crate::release::ReleaseStep;
use crate::vertex_buffer::VertexBuffer;

verus! {

/// Releasing one buffer: its memory, then its handle.
pub open spec fn buffer_release(b: BufferResource) -> Seq<ReleaseStep> {
    seq![ReleaseStep::FreeMemory(b.handle()), ReleaseStep::DestroyBuffer(b.handle())]
}

/// Releasing the vertex buffers of `vbs`, in order.
pub open spec fn vertex_releases(vbs: Seq<VertexBuffer>) -> Seq<ReleaseStep>
    decreases vbs.len(),
{
    if vbs.len() == 0 {
        Seq::empty()
    } else {
        vertex_releases(vbs.drop_last()) + buffer_release(vbs.last().resource)
    }
}

/// The `i`-th vertex buffer of `vbs` is well formed and live exactly when `live`.
pub open spec fn vertex_ok(vbs: Seq<VertexBuffer>, i: int, live: bool) -> bool {
    &&& vbs[i].wf()
    &&& vbs[i].resource.is_live() == live
}

pub struct Mesh {
    pub vertex_buffers: Vec<VertexBuffer>,
    pub index_buffer: Option<IndexBuffer>,
}

/// The byte sizes of the buffers of a mesh of `vertex_count` vertices and
/// `index_count` indices: no index buffer when there are no indices.
pub open spec fn mesh_sizes(vertex_count: nat, index_count: nat) -> (u64, Option<u64>) {
    (
        (vertex_count * VERTEX_SIZE) as u64,
        if index_count > 0 { Some((index_count * INDEX_SIZE) as u64) } else { None },
    )
}

impl Mesh {
    /// Whether the mesh's buffers are still in use (they are destroyed together).
    pub open spec fn is_live(&self) -> bool {
        self.vertex_buffers@[0].resource.is_live()
    }

    pub open spec fn wf(&self) -> bool {
        &&& self.vertex_buffers@.len() >= 1
        &&& forall|i: int| 0 <= i < self.vertex_buffers@.len()
            ==> #[trigger] vertex_ok(self.vertex_buffers@, i, self.is_live())
        &&& self.index_wf()
    }

    pub open spec fn index_wf(&self) -> bool {
        match self.index_buffer {
            Some(ib) => ib.wf() && ib.resource.is_live() == self.is_live(),
            None => true,
        }
    }

    /// What releasing the whole mesh takes: each vertex buffer in order,
    /// then the index buffer.
    pub open spec fn release_order(&self) -> Seq<ReleaseStep> {
        vertex_releases(self.vertex_buffers@) + match self.index_buffer {
            Some(ib) => buffer_release(ib.resource),
            None => Seq::empty(),
        }
    }

    /// The byte sizes that the buffers of a mesh of `vertex_count` vertices
    /// and `index_count` indices are created with.
    pub fn buffer_sizes(vertex_count: usize, index_count: usize) -> (r: (u64, Option<u64>))
        requires
            vertex_count * VERTEX_SIZE <= u64::MAX,
            index_count * INDEX_SIZE <= u64::MAX,
        ensures
            r == mesh_sizes(vertex_count as nat, index_count as nat),
    {
        let vertex_size = VertexBuffer::get_vertex_buffer_size(vertex_count);
        if index_count > 0 {
            (vertex_size, Some(IndexBuffer::get_index_buffer_size(index_count)))
        } else {
            (vertex_size, None)
        }
    }

    /// A mesh of one vertex buffer and, if given, an index buffer.
    pub fn new(vertex_buffer: VertexBuffer, index_buffer: Option<IndexBuffer>) -> (r: Self)
        requires
            vertex_buffer.wf(),
            vertex_buffer.resource.is_live(),
            index_buffer matches Some(ib) ==> ib.wf() && ib.resource.is_live(),
        ensures
            r.wf(),
            r.is_live(),
            r.vertex_buffers@ == seq![vertex_buffer],
            r.index_buffer == index_buffer,
    {
        let mut vertex_buffers: Vec<VertexBuffer> = Vec::new();
        vertex_buffers.push(vertex_buffer);
        Mesh { vertex_buffers, index_buffer }
    }

    /// Writes encoded vertices into the first vertex buffer.
    pub fn update_vertex_buffer(&mut self, data: &[u8]) -> (r: Result<(), BufferError>)
        requires
            old(self).wf(),
        ensures
            final(self).wf(),
            final(self).index_buffer == old(self).index_buffer,
            final(self).vertex_buffers@.len() == old(self).vertex_buffers@.len(),
            forall|i: int| 1 <= i < old(self).vertex_buffers@.len()
                ==> final(self).vertex_buffers@[i] == old(self).vertex_buffers@[i],
            r.is_ok() <==> (old(self).is_live() && data@.len() <= old(self).vertex_buffers@[0].resource.capacity()
                && data@.len() % VERTEX_SIZE as nat == 0),
            r.is_err() ==> final(self).vertex_buffers@ == old(self).vertex_buffers@,
            r.is_ok() ==> {
                &&& final(self).vertex_buffers@[0].resource.contents()
                    == crate::buffer::written(old(self).vertex_buffers@[0].resource.contents(), data@)
                &&& final(self).vertex_buffers@[0].resource.count() == data@.len() / VERTEX_SIZE as nat
                &&& final(self).vertex_buffers@[0].resource.handle() == old(self).vertex_buffers@[0].resource.handle()
            },
    {
        let ghost old_self = *self;
        assert(vertex_ok(self.vertex_buffers@, 0, self.is_live()));
        let r = self.vertex_buffers[0].update_buffer(data);
        proof {
            if r.is_err() {
                assert(self.vertex_buffers@ =~= old_self.vertex_buffers@);
            } else {
                assert(self.vertex_buffers@[0].resource.is_live());
                assert(old_self.is_live());
            }
            assert(self.is_live() == old_self.is_live());
            assert(self.vertex_buffers@.len() >= 1);
            assert(self.index_buffer == old_self.index_buffer);
            assert(self.index_buffer matches Some(ib) ==> ib.wf() && ib.resource.is_live() == self.is_live());
            assert forall|i: int| 0 <= i < self.vertex_buffers@.len() implies #[trigger] vertex_ok(self.vertex_buffers@, i, self.is_live()) by {
                if i != 0 {
                    assert(self.vertex_buffers@[i] == old_self.vertex_buffers@[i]);
                    assert(vertex_ok(old_self.vertex_buffers@, i, old_self.is_live()));
                }
            }
        }
        r
    }

    /// Writes indices into the index buffer. Refused when the mesh has none.
    pub fn update_index_buffer(&mut self, data: &[u32]) -> (r: Result<(), BufferError>)
        requires
            old(self).wf(),
        ensures
            final(self).wf(),
            final(self).vertex_buffers == old(self).vertex_buffers,
            old(self).index_buffer is None ==> r == Err::<(), BufferError>(BufferError::NoIndexBuffer),
            r.is_err() ==> *final(self) == *old(self),
            old(self).index_buffer matches Some(ib) ==> {
                &&& r.is_ok() <==> (ib.resource.is_live() && 4 * data@.len() <= ib.resource.capacity())
                &&& r.is_ok() ==> (final(self).index_buffer matches Some(nb) && {
                    &&& nb.resource.contents() == crate::buffer::written(ib.resource.contents(),
                        crate::index_buffer::indices_le(data@))
                    &&& nb.resource.count() == data@.len()
                    &&& nb.resource.handle() == ib.resource.handle()
                })
            },
    {
        match &mut self.index_buffer {
            Some(index_buffer) => index_buffer.update_buffer(data),
            None => Err(BufferError::NoIndexBuffer),
        }
    }

    /// Releases every buffer of the mesh: each vertex buffer in order, then
    /// the index buffer. Refused when the mesh was already destroyed.
    pub fn destroy(&mut self) -> (r: Result<Vec<ReleaseStep>, BufferError>)
        requires
            old(self).wf(),
        ensures
            final(self).wf(),
            !final(self).is_live(),
            !old(self).is_live() ==> r == Err::<Vec<ReleaseStep>, BufferError>(BufferError::Destroyed)
                && *final(self) == *old(self),
            old(self).is_live() ==> r.is_ok() && r.unwrap()@ == old(self).release_order(),
            final(self).vertex_buffers@.len() == old(self).vertex_buffers@.len(),
    {
        if !self.vertex_buffers[0].resource.live() {
            return Err(BufferError::Destroyed);
        }
        let ghost start = *self;
        assert forall|k: int| 0 <= k < start.vertex_buffers@.len() implies #[trigger] self.vertex_buffers@[k].wf() by {
            assert(vertex_ok(start.vertex_buffers@, k, start.is_live()));
        }
        let mut steps: Vec<ReleaseStep> = Vec::new();
        let n = self.vertex_buffers.len();
        let mut i: usize = 0;
        while i < n
            invariant
                0 <= i <= n,
                n == start.vertex_buffers@.len(),
                start.wf(),
                start.is_live(),
                self.vertex_buffers@.len() == n,
                self.index_buffer == start.index_buffer,
                forall|k: int| 0 <= k < n ==> #[trigger] self.vertex_buffers@[k].wf(),
                forall|k: int| 0 <= k < i ==> !(#[trigger] self.vertex_buffers@[k]).resource.is_live(),
                forall|k: int| i <= k < n ==> #[trigger] self.vertex_buffers@[k] == start.vertex_buffers@[k],
                steps@ == vertex_releases(start.vertex_buffers@.subrange(0, i as int)),
            decreases n - i,
        {
            assert(vertex_ok(start.vertex_buffers@, i as int, start.is_live()));
            assert(self.vertex_buffers@[i as int].resource.is_live());
            let ghost before = steps@;
            let part = self.vertex_buffers[i].destroy();
            match part {
                Ok(p) => {
                    let mut p = p;
                    steps.append(&mut p);
                },
                Err(_) => {},
            }
            proof {
                let sub = start.vertex_buffers@.subrange(0, i + 1);
                assert(sub.drop_last() =~= start.vertex_buffers@.subrange(0, i as int));
                assert(sub.last() == start.vertex_buffers@[i as int]);
                assert(steps@ =~= before + buffer_release(start.vertex_buffers@[i as int].resource));
                assert(steps@ =~= vertex_releases(sub));
            }
            i = i + 1;
        }
        assert(start.vertex_buffers@.subrange(0, n as int) =~= start.vertex_buffers@);
        match &mut self.index_buffer {
            Some(index_buffer) => {
                let part = index_buffer.destroy();
                match part {
                    Ok(p) => {
                        let mut p = p;
                        steps.append(&mut p);
                    },
                    Err(_) => {},
                }
            },
            None => {},
        }
        assert(steps@ =~= start.release_order());
        Ok(steps)
    }
}

} // verus!
