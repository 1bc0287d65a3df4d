//! Host-visible GPU buffers: a mapped region of fixed size that is rewritten
//! from offset 0 by each update, and the count of elements it now holds.

use vstd::prelude::*;

use crate::release::ReleaseStep;

verus! {

/// Bytes taken by one vertex: a 2D position and an RGB colour, as 32-bit floats.
pub const VERTEX_SIZE: u64 = 20;

/// Bytes taken by one index: a 32-bit unsigned integer.
pub const INDEX_SIZE: u64 = 4;

/// What a buffer's contents are bound as.
#[derive(Clone, Copy, Debug, PartialEq, Eq)]
pub enum BufferUsage {
    Vertex,
    Index,
}

/// The device memory that a buffer is bound to: the allocation's memory
/// object, where the buffer starts in it, and the allocation's size.
#[derive(Clone, Copy, Debug, PartialEq, Eq)]
pub struct MemoryBlock {
    pub memory: u64,
    pub offset: u64,
    pub size: u64,
}

/// Why a buffer operation was refused.
#[derive(Clone, Copy, Debug, PartialEq, Eq)]
pub enum BufferError {
    /// The data holds more bytes than the buffer was created with.
    Overflow,
    /// The data does not split into whole elements.
    Misaligned,
    /// The buffer was already destroyed.
    Destroyed,
    /// The mesh has no index buffer to write.
    NoIndexBuffer,
}

/// A buffer handle, its memory, and the host-visible mapped region.
pub struct BufferResource {
    buffer: u64,
    block: MemoryBlock,
    usage: BufferUsage,
    element_size: u64,
    mapped: Vec<u8>,
    element_count: u32,
    live: bool,
}

/// `n` zero bytes.
pub open spec fn zeros(n: nat) -> Seq<u8> {
    Seq::new(n, |i: int| 0u8)
}

/// The region after writing `data` from offset 0: the written bytes, then
/// what was there before past them.
pub open spec fn written(region: Seq<u8>, data: Seq<u8>) -> Seq<u8> {
    data + region.skip(data.len() as int)
}

/// What an update writes reads back unchanged from offset 0, and the
/// region keeps its size.
pub proof fn lemma_round_trip(region: Seq<u8>, data: Seq<u8>)
    requires
        data.len() <= region.len(),
    ensures
        written(region, data).len() == region.len(),
        written(region, data).subrange(0, data.len() as int) == data,
{
    assert(written(region, data).subrange(0, data.len() as int) =~= data);
}

/// The largest byte size a buffer of this element size may be created with:
/// its element count has to fit the 32-bit counts that draw calls take.
pub open spec fn size_fits(size_bytes: int, element_size: int) -> bool {
    size_bytes <= element_size * (u32::MAX as int)
}

impl BufferResource {
    pub closed spec fn handle(&self) -> u64 {
        self.buffer
    }

    pub closed spec fn memory_block(&self) -> MemoryBlock {
        self.block
    }

    pub closed spec fn usage_kind(&self) -> BufferUsage {
        self.usage
    }

    pub closed spec fn elem_size(&self) -> nat {
        self.element_size as nat
    }

    /// The mapped region as the host last wrote it.
    pub closed spec fn contents(&self) -> Seq<u8> {
        self.mapped@
    }

    /// The size in bytes the buffer was created with.
    pub open spec fn capacity(&self) -> nat {
        self.contents().len()
    }

    pub closed spec fn count(&self) -> nat {
        self.element_count as nat
    }

    pub closed spec fn is_live(&self) -> bool {
        self.live
    }

    pub closed spec fn wf(&self) -> bool {
        &&& self.element_size > 0
        &&& size_fits(self.mapped@.len() as int, self.element_size as int)
        &&& self.element_count as int * self.element_size as int <= self.mapped@.len()
    }

    /// A buffer of `size_bytes` bytes bound to `block`, holding no elements yet.
    pub fn new(buffer: u64, block: MemoryBlock, size_bytes: u64, usage: BufferUsage, element_size: u64) -> (r: Self)
        requires
            element_size > 0,
            size_bytes <= usize::MAX,
            size_fits(size_bytes as int, element_size as int),
        ensures
            r.wf(),
            r.handle() == buffer,
            r.memory_block() == block,
            r.usage_kind() == usage,
            r.elem_size() == element_size,
            r.contents() == zeros(size_bytes as nat),
            r.count() == 0,
            r.is_live(),
    {
        let n = size_bytes as usize;
        let mut mapped: Vec<u8> = Vec::new();
        let mut i: usize = 0;
        while i < n
            invariant
                i <= n,
                mapped@ == zeros(i as nat),
            decreases n - i,
        {
            mapped.push(0u8);
            i = i + 1;
            assert(mapped@ =~= zeros(i as nat));
        }
        let r = BufferResource { buffer, block, usage, element_size, mapped, element_count: 0, live: true };
        assert(r.mapped@.len() == size_bytes);
        assert(0 * (element_size as int) == 0);
        r
    }

    /// Copies `data` into the mapped region from offset 0 and records how many
    /// elements it holds. Refused, with nothing written, when the buffer is
    /// destroyed, when `data` is larger than the buffer, or when it does not
    /// split into whole elements.
    pub fn update(&mut self, data: &[u8]) -> (r: Result<(), BufferError>)
        requires
            old(self).wf(),
        ensures
            final(self).wf(),
            !old(self).is_live() ==> r == Err::<(), BufferError>(BufferError::Destroyed),
            old(self).is_live() && data@.len() > old(self).capacity()
                ==> r == Err::<(), BufferError>(BufferError::Overflow),
            old(self).is_live() && data@.len() <= old(self).capacity()
                && data@.len() % old(self).elem_size() != 0
                ==> r == Err::<(), BufferError>(BufferError::Misaligned),
            r.is_err() ==> *final(self) == *old(self),
            r.is_ok() <==> (old(self).is_live() && data@.len() <= old(self).capacity()
                && data@.len() % old(self).elem_size() == 0),
            r.is_ok() ==> {
                &&& final(self).contents() == written(old(self).contents(), data@)
                &&& final(self).count() == data@.len() / old(self).elem_size()
                &&& final(self).handle() == old(self).handle()
                &&& final(self).memory_block() == old(self).memory_block()
                &&& final(self).usage_kind() == old(self).usage_kind()
                &&& final(self).elem_size() == old(self).elem_size()
                &&& final(self).is_live()
            },
    {
        if !self.live {
            return Err(BufferError::Destroyed);
        }
        if data.len() > self.mapped.len() {
            return Err(BufferError::Overflow);
        }
        if data.len() as u64 % self.element_size != 0 {
            return Err(BufferError::Misaligned);
        }
        let ghost before = self.mapped@;
        let mut i: usize = 0;
        while i < data.len()
            invariant
                i <= data@.len() <= self.mapped@.len(),
                self.mapped@.len() == before.len(),
                self.element_size == old(self).element_size,
                self.element_size > 0,
                self.element_count == old(self).element_count,
                self.buffer == old(self).buffer,
                self.block == old(self).block,
                self.usage == old(self).usage,
                self.live,
                forall|k: int| 0 <= k < i ==> self.mapped@[k] == data@[k],
                forall|k: int| i <= k < before.len() ==> self.mapped@[k] == before[k],
            decreases data@.len() - i,
        {
            self.mapped.set(i, data[i]);
            i = i + 1;
        }
        assert(self.mapped@ =~= written(before, data@));
        let count: u64 = data.len() as u64 / self.element_size;
        proof {
            let len = data@.len() as int;
            let es = self.element_size as int;
            assert(count as int * es <= len) by (nonlinear_arith)
                requires count as int == len / es, es > 0, len >= 0;
            assert(count as int <= u32::MAX) by (nonlinear_arith)
                requires count as int * es <= len, len <= es * (u32::MAX as int), es > 0;
        }
        self.element_count = count as u32;
        Ok(())
    }

    /// The mapped region as the host last wrote it.
    pub fn read_back(&self) -> (r: &Vec<u8>)
        ensures
            r@ == self.contents(),
    {
        &self.mapped
    }

    /// Gives up the buffer: its memory goes back to the allocator first, then
    /// the buffer handle is destroyed. Refused when already destroyed.
    pub fn destroy(&mut self) -> (r: Result<Vec<ReleaseStep>, BufferError>)
        requires
            old(self).wf(),
        ensures
            final(self).wf(),
            !old(self).is_live() ==> r == Err::<Vec<ReleaseStep>, BufferError>(BufferError::Destroyed)
                && *final(self) == *old(self),
            old(self).is_live() ==> r.is_ok() && r.unwrap()@ == seq![
                ReleaseStep::FreeMemory(old(self).handle()),
                ReleaseStep::DestroyBuffer(old(self).handle()),
            ],
            !final(self).is_live(),
            final(self).contents() == old(self).contents(),
            final(self).count() == old(self).count(),
            final(self).handle() == old(self).handle(),
            final(self).memory_block() == old(self).memory_block(),
            final(self).usage_kind() == old(self).usage_kind(),
            final(self).elem_size() == old(self).elem_size(),
    {
        if !self.live {
            return Err(BufferError::Destroyed);
        }
        self.live = false;
        let mut steps: Vec<ReleaseStep> = Vec::new();
        steps.push(ReleaseStep::FreeMemory(self.buffer));
        steps.push(ReleaseStep::DestroyBuffer(self.buffer));
        Ok(steps)
    }

    pub fn get_buffer(&self) -> (r: u64)
        ensures
            r == self.handle(),
    {
        self.buffer
    }

    pub fn get_block(&self) -> (r: MemoryBlock)
        ensures
            r == self.memory_block(),
    {
        self.block
    }

    pub fn get_count(&self) -> (r: u32)
        ensures
            r == self.count(),
    {
        self.element_count
    }

    pub fn get_capacity(&self) -> (r: u64)
        requires
            self.wf(),
        ensures
            r == self.capacity(),
            self.capacity() <= usize::MAX,
    {
        self.mapped.len() as u64
    }

    pub fn live(&self) -> (r: bool)
        ensures
            r == self.is_live(),
    {
        self.live
    }
}

} // verus!
