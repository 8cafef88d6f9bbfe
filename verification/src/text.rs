//! Text held inline in a buffer of fixed size, seen as a text slice.
//!
//! Two shapes that are no part of the standard library and take part in the
//! coercions all the same: each implements the one tier that is true of it.
use vstd::prelude::*;
use crate::memory::{Address, Memory};
use crate::pointee::{fits, in_bounds, Pointee};
use crate::unsize::{ConstUnsize, Unsize};

verus! {

/// `N` bytes, all of them text, one byte to a cell.
pub struct FixedString<const N: usize>(pub [u8; N]);

/// A byte count in one cell, then `N` bytes of which the first `count` are
/// text.
pub struct FixedStringWithLen<const N: usize>(pub usize, pub [u8; N]);

impl<const N: usize> Pointee for FixedString<N> {
    type Metadata = ();

    open spec fn extent(metadata: ()) -> nat {
        N as nat
    }

    open spec fn live(memory: Seq<usize>, address: Address, metadata: ()) -> bool {
        in_bounds(memory.len(), address, N as nat)
    }

    proof fn live_in_bounds(memory: Seq<usize>, address: Address, metadata: ()) {
    }

    fn span(metadata: &()) -> (cells: Option<usize>) {
        Some(N)
    }

    fn is_live(memory: &Memory, address: Address, metadata: &()) -> (live: bool) {
        fits(memory, address, Some(N))
    }
}

/// The text of a `FixedString` is all of it: the byte count is static.
impl<const N: usize> ConstUnsize<str> for FixedString<N> {
    open spec fn static_metadata() -> usize {
        N
    }

    proof fn target_is_live(memory: Seq<usize>, address: Address, metadata: ()) {
    }

    fn target_metadata() -> (target: usize) {
        N
    }
}

impl<const N: usize> Pointee for FixedStringWithLen<N> {
    type Metadata = ();

    open spec fn extent(metadata: ()) -> nat {
        N as nat + 1
    }

    open spec fn live(memory: Seq<usize>, address: Address, metadata: ()) -> bool {
        &&& in_bounds(memory.len(), address, N as nat + 1)
        &&& memory[address as int] <= N
    }

    proof fn live_in_bounds(memory: Seq<usize>, address: Address, metadata: ()) {
    }

    fn span(metadata: &()) -> (cells: Option<usize>) {
        N.checked_add(1)
    }

    fn is_live(memory: &Memory, address: Address, metadata: &()) -> (live: bool) {
        proof {
            memory.len_fits();
        }
        fits(memory, address, N.checked_add(1)) && memory.load(address) <= N
    }
}

/// The text of a `FixedStringWithLen` is found by inspection: the byte count
/// is read from the live instance, and the text starts one cell into it.
impl<const N: usize> Unsize<str> for FixedStringWithLen<N> {
    open spec fn address_of(memory: Seq<usize>, address: Address, metadata: ()) -> Address {
        (address + 1) as usize
    }

    open spec fn metadata_of(memory: Seq<usize>, address: Address, metadata: ()) -> usize {
        memory[address as int]
    }

    proof fn target_is_live(memory: Seq<usize>, address: Address, metadata: ()) {
    }

    fn target_metadata(memory: &Memory, address: Address, metadata: &()) -> (target: usize) {
        memory.load(address)
    }

    fn target_data_address(memory: &Memory, address: Address, metadata: &()) -> (target: Address) {
        proof {
            memory.len_fits();
        }
        address + 1
    }
}

} // verus!
