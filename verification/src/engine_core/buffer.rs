//! Memory types, the parameters of buffers and their memory, and the state of a
//! managed buffer.

use vstd::prelude::*;
use crate::engine_core::calls::{all_need_device, ReleaseCall};
use crate::engine_core::vk::{
    flags_contain, memory_flags_contain, Handle, SHARING_MODE_EXCLUSIVE,
};

verus! {

/// One memory type of an adapter.
#[derive(Clone, Copy, PartialEq, Eq, Structural, Debug)]
pub struct MemoryType {
    pub property_flags: u32,
    pub heap_index: u32,
}

/// What a resource asks of the memory that backs it.
#[derive(Clone, Copy, PartialEq, Eq, Structural, Debug)]
pub struct MemoryRequirements {
    pub size: u64,
    /// Bit `i` is set where memory type `i` may back the resource.
    pub memory_type_bits: u32,
}

/// No memory type of the adapter serves the request.
#[derive(Clone, Copy, PartialEq, Eq, Structural, Debug)]
pub enum MemoryError {
    NoSuitableMemoryType,
}

impl MemoryError {
    pub fn message(&self) -> (r: String)
        ensures
            r@ == "No suitable memory type found!"@,
    {
        "No suitable memory type found!".to_owned()
    }
}

/// The type filter admits memory type `index`. A filter has 32 bits, so no type
/// past the 32nd can be admitted.
pub open spec fn filter_admits(type_filter: u32, index: int) -> bool {
    0 <= index < 32 && type_filter & (1u32 << (index as u32)) != 0
}

/// Memory type `index` is admitted by the filter and has every requested property.
pub open spec fn memory_type_matches(
    memory_types: Seq<MemoryType>,
    type_filter: u32,
    properties: u32,
    index: int,
) -> bool {
    &&& 0 <= index < memory_types.len()
    &&& filter_admits(type_filter, index)
    &&& flags_contain(memory_types[index].property_flags, properties)
}

/// Memory type `index` matches and none before it does.
pub open spec fn is_first_matching_memory_type(
    memory_types: Seq<MemoryType>,
    type_filter: u32,
    properties: u32,
    index: int,
) -> bool {
    &&& memory_type_matches(memory_types, type_filter, properties, index)
    &&& forall|j: int|
        0 <= j < index ==> !#[trigger] memory_type_matches(memory_types, type_filter, properties, j)
}

/// Finds the lowest-indexed memory type that the filter admits and that has all
/// the requested properties.
pub fn find_memory_type(memory_types: &Vec<MemoryType>, type_filter: u32, properties: u32) -> (r:
    Result<(u32, MemoryType), MemoryError>)
    ensures
        match r {
            Ok((index, memory_type)) => {
                &&& is_first_matching_memory_type(
                    memory_types@,
                    type_filter,
                    properties,
                    index as int,
                )
                &&& memory_type == memory_types@[index as int]
            },
            Err(e) => {
                &&& e == MemoryError::NoSuitableMemoryType
                &&& forall|j: int|
                    !#[trigger] memory_type_matches(memory_types@, type_filter, properties, j)
            },
        },
{
    let mut i: u32 = 0;
    while i < 32 && (i as usize) < memory_types.len()
        invariant
            i <= 32,
            i <= memory_types@.len(),
            forall|j: int|
                0 <= j < i ==> !#[trigger] memory_type_matches(
                    memory_types@,
                    type_filter,
                    properties,
                    j,
                ),
        decreases 32 - i,
    {
        let memory_type = memory_types[i as usize];
        if (type_filter & (1u32 << i)) != 0 && memory_flags_contain(
            memory_type.property_flags,
            properties,
        ) {
            return Ok((i, memory_type));
        }
        i += 1;
    }
    Err(MemoryError::NoSuitableMemoryType)
}

/// The parameters with which a buffer is created.
#[derive(Clone, Copy, PartialEq, Eq, Structural, Debug)]
pub struct BufferCreateInfo {
    pub size: u64,
    pub usage: u32,
    pub sharing_mode: i32,
}

/// A buffer of `size` bytes for the given usage, owned by one queue family.
pub open spec fn buffer_info(size: u64, usage: u32) -> BufferCreateInfo {
    BufferCreateInfo { size, usage, sharing_mode: SHARING_MODE_EXCLUSIVE }
}

/// The parameters of a buffer of `size` bytes for the given usage, owned by one
/// queue family.
pub fn create_buffer(size: u64, usage: u32) -> (info: BufferCreateInfo)
    ensures
        info == buffer_info(size, usage),
{
    BufferCreateInfo { size, usage, sharing_mode: SHARING_MODE_EXCLUSIVE }
}

/// The parameters of one memory allocation.
#[derive(Clone, Copy, PartialEq, Eq, Structural, Debug)]
pub struct MemoryAllocateInfo {
    pub allocation_size: u64,
    pub memory_type_index: u32,
}

/// The allocation that backs a resource with the given requirements: as large as
/// required, in the first memory type that fits.
pub open spec fn is_allocation_for(
    info: MemoryAllocateInfo,
    requirements: MemoryRequirements,
    memory_types: Seq<MemoryType>,
    memory_properties: u32,
) -> bool {
    &&& info.allocation_size == requirements.size
    &&& is_first_matching_memory_type(
        memory_types,
        requirements.memory_type_bits,
        memory_properties,
        info.memory_type_index as int,
    )
}

/// Works out the allocation that backs a buffer. The whole allocation is bound to
/// the buffer at offset zero.
pub fn allocate_and_bind_buffer(
    requirements: MemoryRequirements,
    memory_types: &Vec<MemoryType>,
    memory_properties: u32,
) -> (r: Result<MemoryAllocateInfo, MemoryError>)
    ensures
        match r {
            Ok(info) => is_allocation_for(info, requirements, memory_types@, memory_properties),
            Err(e) => {
                &&& e == MemoryError::NoSuitableMemoryType
                &&& forall|j: int|
                    !#[trigger] memory_type_matches(
                        memory_types@,
                        requirements.memory_type_bits,
                        memory_properties,
                        j,
                    )
            },
        },
{
    match find_memory_type(memory_types, requirements.memory_type_bits, memory_properties) {
        Ok((index, _)) => Ok(
            MemoryAllocateInfo { allocation_size: requirements.size, memory_type_index: index },
        ),
        Err(e) => Err(e),
    }
}

/// The parameters of a mapping of device memory into the host's address space.
#[derive(Clone, Copy, PartialEq, Eq, Structural, Debug)]
pub struct MemoryMapInfo {
    pub memory: Handle,
    pub offset: u64,
    pub size: u64,
    pub flags: u32,
}

/// The mapping of a whole allocation.
pub fn map_buffer_memory(buffer_memory: Handle) -> (info: MemoryMapInfo)
    ensures
        info == (MemoryMapInfo { memory: buffer_memory, offset: 0, size: u64::MAX, flags: 0 }),
{
    MemoryMapInfo { memory: buffer_memory, offset: 0, size: u64::MAX, flags: 0 }
}

/// A buffer that owns its memory.
#[derive(Clone, Copy, PartialEq, Eq, Structural, Debug)]
pub struct ManagedBuffer {
    pub memory_size: u64,
    /// Absent only until memory has been allocated and bound.
    pub buffer_memory: Option<Handle>,
    pub buffer: Handle,
    /// The address at which the memory is mapped, while it is.
    pub memory_ptr: Option<usize>,
}

impl ManagedBuffer {
    /// Only memory that exists can be mapped.
    pub open spec fn wf(&self) -> bool {
        self.memory_ptr is Some ==> self.buffer_memory is Some
    }

    /// Whether the buffer is in a valid state.
    pub fn check(&self) -> (r: bool)
        ensures
            r == self.wf(),
    {
        self.memory_ptr.is_none() || self.buffer_memory.is_some()
    }

    /// The calls that give the buffer back: unmap where mapped, free the memory
    /// where there is any, destroy the buffer last.
    pub open spec fn release_calls(&self) -> Seq<ReleaseCall> {
        (if self.memory_ptr is Some && self.buffer_memory is Some {
            seq![ReleaseCall::UnmapMemory(self.buffer_memory->0)]
        } else {
            Seq::empty()
        }) + (if self.buffer_memory is Some {
            seq![ReleaseCall::FreeMemory(self.buffer_memory->0)]
        } else {
            Seq::empty()
        }) + seq![ReleaseCall::DestroyBuffer(self.buffer)]
    }

    /// Records that the whole memory has been mapped at `address`. Mapping memory
    /// that is absent or already mapped is an error of the caller.
    pub fn map_buffer_memory(&mut self, address: usize)
        requires
            old(self).buffer_memory is Some,
            old(self).memory_ptr is None,
        ensures
            *final(self) == (ManagedBuffer { memory_ptr: Some(address), ..*old(self) }),
            final(self).wf(),
    {
        self.memory_ptr = Some(address);
    }

    /// Ends the mapping and returns the memory to unmap. Unmapping memory that is
    /// not mapped is an error of the caller.
    pub fn unmap_buffer_memory(&mut self) -> (memory: Handle)
        requires
            old(self).wf(),
            old(self).memory_ptr is Some,
        ensures
            *final(self) == (ManagedBuffer { memory_ptr: None, ..*old(self) }),
            Some(memory) == old(self).buffer_memory,
            final(self).wf(),
    {
        self.memory_ptr = None;
        self.buffer_memory.unwrap()
    }

    /// Gives the buffer up and says how to release what it owned.
    pub fn release(self) -> (calls: Vec<ReleaseCall>)
        requires
            self.wf(),
        ensures
            calls@ == self.release_calls(),
            all_need_device(calls@),
    {
        let mut calls: Vec<ReleaseCall> = Vec::new();
        if let Some(memory) = self.buffer_memory {
            if self.memory_ptr.is_some() {
                calls.push(ReleaseCall::UnmapMemory(memory));
            }
            calls.push(ReleaseCall::FreeMemory(memory));
        }
        calls.push(ReleaseCall::DestroyBuffer(self.buffer));
        calls
    }
}

} // verus!
