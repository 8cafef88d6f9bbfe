//! A growable sequence that keeps its header with its elements.
//!
//! The value itself is one cell: the address of an allocation. The allocation
//! starts with the element count and the capacity, and the elements follow.
use vstd::prelude::*;
use vstd::arithmetic::mul::lemma_mul_inequality;
use std::marker::PhantomData;
use crate::memory::{Address, Memory};
use crate::pointee::{fits, in_bounds, sequence_span, Pointee};
use crate::unsize::Unsize;

verus! {

/// Offset of the element count in the allocation.
pub const THIN_LENGTH: usize = 0;

/// Offset of the capacity in the allocation.
pub const THIN_CAPACITY: usize = 1;

/// Offset of the first element in the allocation.
pub const THIN_ELEMENTS: usize = 2;

/// A growable sequence of `T` in one cell.
pub struct ThinVec<T> {
    elements: PhantomData<T>,
}

impl<T: Pointee<Metadata = ()>> Pointee for ThinVec<T> {
    type Metadata = ();

    open spec fn extent(metadata: ()) -> nat {
        1
    }

    open spec fn live(memory: Seq<usize>, address: Address, metadata: ()) -> bool {
        let allocation = memory[address as int];
        let count = memory[allocation + THIN_LENGTH];
        let capacity = memory[allocation + THIN_CAPACITY];
        &&& in_bounds(memory.len(), address, 1)
        &&& in_bounds(memory.len(), allocation, THIN_ELEMENTS as nat)
        &&& count <= capacity
        &&& allocation + THIN_ELEMENTS + capacity as nat * T::extent(()) <= memory.len()
    }

    proof fn live_in_bounds(memory: Seq<usize>, address: Address, metadata: ()) {
    }

    fn span(metadata: &()) -> (cells: Option<usize>) {
        Some(1)
    }

    fn is_live(memory: &Memory, address: Address, metadata: &()) -> (live: bool) {
        if !fits(memory, address, Some(1)) {
            return false;
        }
        let allocation: usize = memory.load(address);
        if !fits(memory, allocation, Some(THIN_ELEMENTS)) {
            return false;
        }
        proof {
            memory.len_fits();
        }
        let count: usize = memory.load(allocation + THIN_LENGTH);
        let capacity: usize = memory.load(allocation + THIN_CAPACITY);
        count <= capacity && fits(memory, allocation + THIN_ELEMENTS, sequence_span::<T>(capacity))
    }
}

/// A thin growable sequence is a sequence of unknown length, by inspection: the
/// allocation is found through the live value, the element count is read from
/// it, and the elements start behind its header.
impl<T: Pointee<Metadata = ()>> Unsize<[T]> for ThinVec<T> {
    open spec fn address_of(memory: Seq<usize>, address: Address, metadata: ()) -> Address {
        (memory[address as int] + THIN_ELEMENTS) as usize
    }

    open spec fn metadata_of(memory: Seq<usize>, address: Address, metadata: ()) -> usize {
        memory[memory[address as int] + THIN_LENGTH]
    }

    proof fn target_is_live(memory: Seq<usize>, address: Address, metadata: ()) {
        let allocation = memory[address as int];
        lemma_mul_inequality(
            memory[allocation + THIN_LENGTH] as int,
            memory[allocation + THIN_CAPACITY] as int,
            T::extent(()) as int,
        );
    }

    fn target_metadata(memory: &Memory, address: Address, metadata: &()) -> (target: usize) {
        memory.load(memory.load(address) + THIN_LENGTH)
    }

    fn target_data_address(memory: &Memory, address: Address, metadata: &()) -> (target: Address) {
        proof {
            memory.len_fits();
        }
        memory.load(address) + THIN_ELEMENTS
    }
}

} // verus!
