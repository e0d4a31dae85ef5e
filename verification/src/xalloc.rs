//! The allocator that hands memory requests to the platform's heap.

use vstd::prelude::*;

verus! {

/// The allocator of the platform's heap. There is one heap: keep one value.
#[derive(Debug, Clone, Copy)]
pub struct XAllocator {}

impl XAllocator {
    /// The allocator.
    pub fn new() -> (allocator: Self)
        ensures
            allocator == (XAllocator {  }),
    {
        Self {  }
    }

    /// The size to ask the heap for when `size` bytes are wanted. The heap
    /// takes sizes of 32 bits: a size that fits is passed on as it is, of a
    /// larger one the low 32 bits are.
    pub fn malloc_size(&self, size: usize) -> (request: u32)
        ensures
            request == size as u32,
            size <= u32::MAX ==> request == size,
    {
        #[verifier::truncate]
        (size as u32)
    }
}

} // verus!
