//! GPU buffers: choosing a memory type, and the lifecycle of a buffer handle
//! together with the memory block bound to it.
use vstd::prelude::*;

verus! {

#[verifier::external_type_specification]
#[verifier::external_body]
pub struct ExAllocationError(gfx_hal::device::AllocationError);

#[verifier::external_type_specification]
#[verifier::external_body]
pub struct ExBindError(gfx_hal::device::BindError);

#[verifier::external_type_specification]
#[verifier::external_body]
pub struct ExBufferCreationError(gfx_hal::buffer::CreationError);

#[verifier::external_type_specification]
#[verifier::external_body]
pub struct ExMapError(gfx_hal::device::MapError);

/// Memory property flag: the memory is local to the device.
pub const DEVICE_LOCAL: u16 = 0x1;

/// Memory property flag: the host can map the memory.
pub const CPU_VISIBLE: u16 = 0x2;

/// Memory property flag: host writes need no explicit flush.
pub const COHERENT: u16 = 0x4;

/// Memory property flag: the memory is cached on the host.
pub const CPU_CACHED: u16 = 0x8;

/// Memory property flag: the memory may be allocated lazily.
pub const LAZILY_ALLOCATED: u16 = 0x10;

/// Why a buffer could not be created or written.
#[derive(Debug)]
pub enum BufferError {
    /// The device could not allocate the memory block.
    AllocationError(gfx_hal::device::AllocationError),
    /// The memory block could not be bound to the buffer.
    BindError(gfx_hal::device::BindError),
    /// The device refused to create the buffer.
    CreationError(gfx_hal::buffer::CreationError),
    /// The memory block could not be mapped for writing.
    MappingError(gfx_hal::device::MapError),
    /// No memory type is both allowed for the buffer and has the requested properties.
    NoSuitableMemoryType,
    /// The data to write is larger than the buffer.
    PayloadTooLarge,
    /// The buffer was destroyed.
    Destroyed,
}

/// A memory type that the device reports: its property flags (a bit set of
/// the flags above) and the heap it draws from.
#[derive(Clone, Copy, Debug, PartialEq, Eq, Structural)]
pub struct MemoryTypeDesc {
    pub properties: u16,
    pub heap_index: usize,
}

/// Every flag of `wanted` is among `have`.
pub open spec fn properties_contain(have: u16, wanted: u16) -> bool {
    have & wanted == wanted
}

/// Memory type `id` is allowed by a requirements type mask.
pub open spec fn type_allowed(type_mask: u32, id: int) -> bool {
    0 <= id < 32 && (type_mask >> (id as u32)) & 1u32 == 1u32
}

/// Memory type `id` of `types` may back a buffer with this type mask and
/// these wanted properties.
pub open spec fn suitable(types: Seq<MemoryTypeDesc>, type_mask: u32, wanted: u16, id: int) -> bool {
    &&& 0 <= id < types.len()
    &&& type_allowed(type_mask, id)
    &&& properties_contain(types[id].properties, wanted)
}

/// Picks the first memory type that the requirements' type mask allows and
/// whose properties include every wanted flag; `NoSuitableMemoryType` where
/// there is none.
pub fn select_memory_type(memory_types: &[MemoryTypeDesc], type_mask: u32, properties: u16) -> (r: Result<usize, BufferError>)
    ensures
        match r {
            Ok(id) => {
                &&& suitable(memory_types@, type_mask, properties, id as int)
                &&& forall|j: int| 0 <= j < id ==> !suitable(memory_types@, type_mask, properties, j)
            },
            Err(e) => {
                &&& e is NoSuitableMemoryType
                &&& forall|j: int|
                    0 <= j < memory_types@.len() ==> !suitable(memory_types@, type_mask, properties, j)
            },
        },
{
    let n = memory_types.len();
    let mut i: usize = 0;
    while i < n
        invariant
            n == memory_types@.len(),
            i <= n,
            forall|j: int| 0 <= j < i ==> !suitable(memory_types@, type_mask, properties, j),
        decreases n - i,
    {
        let allowed = i < 32 && (type_mask >> (i as u32)) & 1u32 == 1u32;
        let ty = memory_types[i];
        if allowed && ty.properties & properties == properties {
            return Ok(i);
        }
        i = i + 1;
    }
    Err(BufferError::NoSuitableMemoryType)
}

/// The memory type and the size of the block to allocate for a buffer.
#[derive(Clone, Copy, Debug, PartialEq, Eq, Structural)]
pub struct Allocation {
    pub memory_type: usize,
    pub size: u64,
}

/// Decides how to back a buffer whose memory requirements are `type_mask`
/// and `size`: a block of the first suitable memory type, of the required
/// size. The error is `NoSuitableMemoryType` exactly where no memory type
/// is suitable.
pub fn plan_allocation(memory_types: &[MemoryTypeDesc], type_mask: u32, size: u64, properties: u16) -> (r: Result<Allocation, BufferError>)
    ensures
        match r {
            Ok(a) => {
                &&& a.size == size
                &&& suitable(memory_types@, type_mask, properties, a.memory_type as int)
                &&& forall|j: int| 0 <= j < a.memory_type ==> !suitable(memory_types@, type_mask, properties, j)
            },
            Err(e) => {
                &&& e is NoSuitableMemoryType
                &&& forall|j: int|
                    0 <= j < memory_types@.len() ==> !suitable(memory_types@, type_mask, properties, j)
            },
        },
{
    match select_memory_type(memory_types, type_mask, properties) {
        Ok(id) => Ok(Allocation { memory_type: id, size }),
        Err(e) => Err(e),
    }
}

/// The number of bytes that `n` items of type `T` take.
pub open spec fn byte_len<T>(n: nat) -> int {
    n * size_of::<T>()
}

/// A buffer handle with the memory block bound to it, and the block's size
/// in bytes. A destroyed buffer holds neither.
pub struct Buffer<H, M> {
    pub buffer: Option<H>,
    pub memory: Option<M>,
    pub size: u64,
    pub memory_type: usize,
}

impl<H, M> Buffer<H, M> {
    /// A buffer whose memory block, allocated as `allocation` says, is bound
    /// to it at offset 0.
    pub fn new_bound(buffer: H, memory: M, allocation: Allocation) -> (r: Self)
        ensures
            r.buffer == Some(buffer),
            r.memory == Some(memory),
            r.size == allocation.size,
            r.memory_type == allocation.memory_type,
    {
        Buffer { buffer: Some(buffer), memory: Some(memory), size: allocation.size, memory_type: allocation.memory_type }
    }

    /// The buffer's size in bytes, fixed when it was created.
    pub fn len(&self) -> (r: u64)
        ensures
            r == self.size,
    {
        self.size
    }

    /// Whether the buffer has no memory (it was destroyed) or no bytes.
    pub fn is_empty(&self) -> (r: bool)
        ensures
            r == (self.memory is None || self.size == 0),
    {
        self.memory.is_none() || self.size == 0
    }

    /// Whether `data` fits in the buffer.
    pub fn can_hold<T: Copy>(&self, data: &[T]) -> (r: bool)
        ensures
            r == (byte_len::<T>(data@.len()) <= self.size),
    {
        let stride = core::mem::size_of::<T>() as u64;
        match (data.len() as u64).checked_mul(stride) {
            Some(n) => n <= self.size,
            None => false,
        }
    }

    /// Admits a write of `data` to the start of the buffer and returns how
    /// many bytes the caller maps and copies. A payload larger than the
    /// buffer is refused as a whole, so nothing is written in part.
    pub fn fill<T: Copy>(&self, data: &[T]) -> (r: Result<u64, BufferError>)
        ensures
            self.memory is None ==> r matches Err(BufferError::Destroyed),
            self.memory is Some ==> {
                &&& (r is Ok <==> byte_len::<T>(data@.len()) <= self.size)
                &&& r matches Ok(n) ==> n == byte_len::<T>(data@.len())
                &&& r matches Err(e) ==> e is PayloadTooLarge
            },
    {
        if self.memory.is_none() {
            return Err(BufferError::Destroyed);
        }
        let stride = core::mem::size_of::<T>() as u64;
        match (data.len() as u64).checked_mul(stride) {
            Some(n) => if n <= self.size {
                Ok(n)
            } else {
                Err(BufferError::PayloadTooLarge)
            },
            None => Err(BufferError::PayloadTooLarge),
        }
    }

    /// Takes the buffer handle and then the memory block out for the caller
    /// to destroy and free, in that order. The buffer is destroyed afterwards;
    /// destroying it again hands out nothing.
    pub fn destroy(&mut self) -> (r: (Option<H>, Option<M>))
        ensures
            r.0 == old(self).buffer,
            r.1 == old(self).memory,
            final(self).buffer is None,
            final(self).memory is None,
            final(self).size == old(self).size,
            final(self).memory_type == old(self).memory_type,
    {
        let b = self.buffer.take();
        let m = self.memory.take();
        (b, m)
    }
}

} // verus!
