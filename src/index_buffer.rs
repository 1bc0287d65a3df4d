//! A host-visible buffer of 32-bit indices, stored little-endian.

use vstd::prelude::*;

use crate::buffer::{size_fits, written, zeros, BufferError, BufferResource, BufferUsage, MemoryBlock, INDEX_SIZE};
use crate::release::ReleaseStep;

verus! {

/// The four little-endian bytes of `v`.
pub open spec fn u32_le(v: u32) -> Seq<u8> {
    seq![
        (v % 256) as u8,
        ((v / 256) % 256) as u8,
        ((v / 65536) % 256) as u8,
        (v / 16777216) as u8,
    ]
}

/// The indices of `s` laid out one after another, little-endian.
pub open spec fn indices_le(s: Seq<u32>) -> Seq<u8>
    decreases s.len(),
{
    if s.len() == 0 {
        Seq::empty()
    } else {
        indices_le(s.drop_last()) + u32_le(s.last())
    }
}

pub proof fn lemma_indices_le_len(s: Seq<u32>)
    ensures
        indices_le(s).len() == 4 * s.len(),
    decreases s.len(),
{
    if s.len() > 0 {
        lemma_indices_le_len(s.drop_last());
    }
}

/// Encodes `data` as consecutive little-endian 32-bit values.
pub fn encode_indices(data: &[u32]) -> (r: Vec<u8>)
    requires
        4 * data@.len() <= usize::MAX,
    ensures
        r@ == indices_le(data@),
{
    let mut out: Vec<u8> = Vec::new();
    let mut i: usize = 0;
    while i < data.len()
        invariant
            i <= data@.len(),
            out@ == indices_le(data@.subrange(0, i as int)),
        decreases data@.len() - i,
    {
        let v = data[i];
        out.push((v % 256) as u8);
        out.push(((v / 256) % 256) as u8);
        out.push(((v / 65536) % 256) as u8);
        out.push((v / 16777216) as u8);
        proof {
            let next = data@.subrange(0, i + 1);
            assert(next.drop_last() =~= data@.subrange(0, i as int));
            assert(next.last() == v);
        }
        i = i + 1;
        assert(out@ =~= indices_le(data@.subrange(0, i as int)));
    }
    assert(data@.subrange(0, data@.len() as int) =~= data@);
    out
}

pub struct IndexBuffer {
    pub resource: BufferResource,
}

impl IndexBuffer {
    pub open spec fn wf(&self) -> bool {
        &&& self.resource.wf()
        &&& self.resource.usage_kind() == BufferUsage::Index
        &&& self.resource.elem_size() == INDEX_SIZE
    }

    /// An index buffer of `size` bytes bound to `block`, holding no indices yet.
    pub fn new(buffer: u64, block: MemoryBlock, size: u64) -> (r: Self)
        requires
            size <= usize::MAX,
            size_fits(size as int, INDEX_SIZE as int),
        ensures
            r.wf(),
            r.resource.handle() == buffer,
            r.resource.memory_block() == block,
            r.resource.contents() == zeros(size as nat),
            r.resource.count() == 0,
            r.resource.is_live(),
    {
        IndexBuffer { resource: BufferResource::new(buffer, block, size, BufferUsage::Index, INDEX_SIZE) }
    }

    /// Releases the memory, then destroys the buffer handle.
    pub fn destroy(&mut self) -> (r: Result<Vec<ReleaseStep>, BufferError>)
        requires
            old(self).wf(),
        ensures
            final(self).wf(),
            !old(self).resource.is_live() ==> r == Err::<Vec<ReleaseStep>, BufferError>(BufferError::Destroyed),
            old(self).resource.is_live() ==> r.is_ok() && r.unwrap()@ == seq![
                ReleaseStep::FreeMemory(old(self).resource.handle()),
                ReleaseStep::DestroyBuffer(old(self).resource.handle()),
            ],
            !final(self).resource.is_live(),
            final(self).resource.handle() == old(self).resource.handle(),
            final(self).resource.contents() == old(self).resource.contents(),
            final(self).resource.count() == old(self).resource.count(),
    {
        self.resource.destroy()
    }

    /// Bytes needed for `index_count` indices.
    pub fn get_index_buffer_size(index_count: usize) -> (r: u64)
        requires
            index_count * INDEX_SIZE <= u64::MAX,
        ensures
            r == index_count * INDEX_SIZE,
    {
        index_count as u64 * INDEX_SIZE
    }

    /// Writes `data` little-endian from offset 0; the index count becomes
    /// `data.len()`. Refused, with nothing written, when the indices do not
    /// fit or the buffer is destroyed.
    pub fn update_buffer(&mut self, data: &[u32]) -> (r: Result<(), BufferError>)
        requires
            old(self).wf(),
        ensures
            final(self).wf(),
            r.is_ok() <==> (old(self).resource.is_live() && 4 * data@.len() <= old(self).resource.capacity()),
            !old(self).resource.is_live() ==> r == Err::<(), BufferError>(BufferError::Destroyed),
            old(self).resource.is_live() && 4 * data@.len() > old(self).resource.capacity()
                ==> r == Err::<(), BufferError>(BufferError::Overflow),
            r.is_err() ==> *final(self) == *old(self),
            r.is_ok() ==> {
                &&& final(self).resource.contents() == written(old(self).resource.contents(), indices_le(data@))
                &&& final(self).resource.count() == data@.len()
                &&& final(self).resource.handle() == old(self).resource.handle()
                &&& final(self).resource.memory_block() == old(self).resource.memory_block()
                &&& final(self).resource.is_live()
            },
    {
        if !self.resource.live() {
            return Err(BufferError::Destroyed);
        }
        let capacity = self.resource.get_capacity();
        if data.len() as u64 > capacity / INDEX_SIZE {
            return Err(BufferError::Overflow);
        }
        let bytes = encode_indices(data);
        proof {
            lemma_indices_le_len(data@);
        }
        self.resource.update(bytes.as_slice())
    }

    pub fn get_buffer(&self) -> (r: u64)
        ensures
            r == self.resource.handle(),
    {
        self.resource.get_buffer()
    }

    /// The device memory object the buffer is bound to.
    pub fn get_memory(&self) -> (r: u64)
        ensures
            r == self.resource.memory_block().memory,
    {
        self.resource.get_block().memory
    }

    /// The size of the buffer's allocation.
    pub fn get_size(&self) -> (r: u64)
        ensures
            r == self.resource.memory_block().size,
    {
        self.resource.get_block().size
    }

    /// Where the buffer starts in its memory object.
    pub fn get_offset(&self) -> (r: u64)
        ensures
            r == self.resource.memory_block().offset,
    {
        self.resource.get_block().offset
    }

    pub fn get_index_count(&self) -> (r: u32)
        ensures
            r == self.resource.count(),
    {
        self.resource.get_count()
    }
}

} // verus!
