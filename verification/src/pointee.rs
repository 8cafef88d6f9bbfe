//! Shapes and their descriptor metadata.
//!
//! A shape is a type in the role of a pointee. It says what metadata a pointer
//! to it carries (none for a shape of fixed layout, an element count for a
//! sequence of unknown length, a dispatch table for a polymorphic shape), how
//! many cells an object of it spans, and when a memory holds such an object at
//! an address.
use vstd::prelude::*;
use vstd::arithmetic::mul::lemma_mul_inequality;
use crate::memory::{Address, Memory};

verus! {

/// Offset of the buffer address in the header of a growable sequence.
pub const HEADER_BUFFER: usize = 0;

/// Offset of the capacity in the header of a growable sequence.
pub const HEADER_CAPACITY: usize = 1;

/// Offset of the element count in the header of a growable sequence.
pub const HEADER_LENGTH: usize = 2;

/// Number of cells in the header of a growable sequence.
pub const HEADER_CELLS: usize = 3;

/// A shape: what a pointer can point to.
pub trait Pointee {
    /// The descriptor metadata that makes a pointer to this shape usable.
    type Metadata;

    /// The number of cells that an object of this shape spans when `metadata`
    /// describes it.
    spec fn extent(metadata: Self::Metadata) -> nat;

    /// Whether `memory` holds at `address` an object of this shape that
    /// `metadata` describes.
    spec fn live(memory: Seq<usize>, address: Address, metadata: Self::Metadata) -> bool;

    /// A live object lies inside the memory.
    proof fn live_in_bounds(memory: Seq<usize>, address: Address, metadata: Self::Metadata)
        requires
            Self::live(memory, address, metadata),
        ensures
            address + Self::extent(metadata) <= memory.len(),
    ;

    /// Computes [`Pointee::extent`], as far as a machine word can hold it.
    fn span(metadata: &Self::Metadata) -> (cells: Option<usize>)
        ensures
            match cells {
                Some(n) => n == Self::extent(*metadata),
                None => Self::extent(*metadata) > usize::MAX,
            },
    ;

    /// Decides [`Pointee::live`].
    fn is_live(memory: &Memory, address: Address, metadata: &Self::Metadata) -> (live: bool)
        ensures
            live == Self::live(memory@, address, *metadata),
    ;
}

/// The descriptor metadata of a polymorphic handle: it names the concrete
/// shape whose operations the handle dispatches to. The operations themselves
/// are kept elsewhere.
#[derive(Clone, Copy, Debug, PartialEq, Eq, Structural)]
pub struct DispatchTable {
    /// Which concrete shape the table belongs to.
    pub concrete: u64,
    /// How many cells an object of that shape spans.
    pub cells: usize,
}

/// What a pointer denotes in a given memory: the triple that the contracts of
/// this crate speak of.
pub struct Place<T: ?Sized + Pointee> {
    /// The contents of the memory pointed into.
    pub memory: Seq<usize>,
    /// The data address.
    pub address: Address,
    /// The descriptor metadata paired with the address.
    pub metadata: T::Metadata,
}

impl<T: ?Sized + Pointee> Place<T> {
    /// The pairing invariant: the metadata describes the very object that the
    /// address designates.
    pub open spec fn live(self) -> bool {
        T::live(self.memory, self.address, self.metadata)
    }

    /// The cells of the object pointed to.
    pub open spec fn cells(self) -> Seq<usize> {
        self.memory.subrange(self.address as int, self.address + T::extent(self.metadata))
    }
}

/// Whether a `U` described by `target_metadata` lives at `target` in every
/// memory in which a `T` described by `metadata` lives at `address`.
pub open spec fn lives_wherever<T: ?Sized + Pointee, U: ?Sized + Pointee>(
    address: Address,
    metadata: T::Metadata,
    target: Address,
    target_metadata: U::Metadata,
) -> bool {
    forall|memory: Seq<usize>| #[trigger]
        T::live(memory, address, metadata) ==> U::live(memory, target, target_metadata)
}

/// Whether the `count` cells that start at `address` lie inside a memory of
/// `total` cells.
pub open spec fn in_bounds(total: nat, address: Address, count: nat) -> bool {
    address + count <= total
}

/// Decides [`in_bounds`] for a count that may not fit a machine word.
pub fn fits(memory: &Memory, address: Address, count: Option<usize>) -> (inside: bool)
    ensures
        inside == match count {
            Some(n) => in_bounds(memory@.len(), address, n as nat),
            None => false,
        },
{
    let total: usize = memory.len();
    match count {
        Some(n) => n <= total && address <= total - n,
        None => false,
    }
}

/// The number of cells that `count` elements of shape `T` span, as far as a
/// machine word can hold it.
pub fn sequence_span<T: Pointee<Metadata = ()>>(count: usize) -> (cells: Option<usize>)
    ensures
        match cells {
            Some(n) => n == count as nat * T::extent(()),
            None => count as nat * T::extent(()) > usize::MAX,
        },
{
    if count == 0 {
        Some(0)
    } else {
        proof {
            lemma_mul_inequality(1, count as int, T::extent(()) as int);
        }
        match T::span(&()) {
            Some(each) => count.checked_mul(each),
            None => None,
        }
    }
}

/// A copy of the cells of the object that `memory` holds at `address`, as
/// `metadata` describes it.
pub fn read_pointee<T: ?Sized + Pointee>(
    memory: &Memory,
    address: Address,
    metadata: &T::Metadata,
) -> (words: Vec<usize>)
    requires
        T::live(memory@, address, *metadata),
    ensures
        words@ == (Place::<T> { memory: memory@, address, metadata: *metadata }).cells(),
{
    proof {
        T::live_in_bounds(memory@, address, *metadata);
        memory.len_fits();
    }
    match T::span(metadata) {
        Some(count) => memory.read(address, count),
        None => Vec::new(),
    }
}

/// The shape without content: it spans no cell and lives at every address of
/// the memory, the one past its end too.
impl Pointee for () {
    type Metadata = ();

    open spec fn extent(metadata: ()) -> nat {
        0
    }

    open spec fn live(memory: Seq<usize>, address: Address, metadata: ()) -> bool {
        in_bounds(memory.len(), address, 0)
    }

    proof fn live_in_bounds(memory: Seq<usize>, address: Address, metadata: ()) {
    }

    fn span(metadata: &()) -> (cells: Option<usize>) {
        Some(0)
    }

    fn is_live(memory: &Memory, address: Address, metadata: &()) -> (live: bool) {
        fits(memory, address, Some(0))
    }
}

/// A byte, in one cell.
impl Pointee for u8 {
    type Metadata = ();

    open spec fn extent(metadata: ()) -> nat {
        1
    }

    open spec fn live(memory: Seq<usize>, address: Address, metadata: ()) -> bool {
        in_bounds(memory.len(), address, 1)
    }

    proof fn live_in_bounds(memory: Seq<usize>, address: Address, metadata: ()) {
    }

    fn span(metadata: &()) -> (cells: Option<usize>) {
        Some(1)
    }

    fn is_live(memory: &Memory, address: Address, metadata: &()) -> (live: bool) {
        fits(memory, address, Some(1))
    }
}

/// A signed integer, in one cell.
impl Pointee for i32 {
    type Metadata = ();

    open spec fn extent(metadata: ()) -> nat {
        1
    }

    open spec fn live(memory: Seq<usize>, address: Address, metadata: ()) -> bool {
        in_bounds(memory.len(), address, 1)
    }

    proof fn live_in_bounds(memory: Seq<usize>, address: Address, metadata: ()) {
    }

    fn span(metadata: &()) -> (cells: Option<usize>) {
        Some(1)
    }

    fn is_live(memory: &Memory, address: Address, metadata: &()) -> (live: bool) {
        fits(memory, address, Some(1))
    }
}

/// A machine word, in one cell.
impl Pointee for usize {
    type Metadata = ();

    open spec fn extent(metadata: ()) -> nat {
        1
    }

    open spec fn live(memory: Seq<usize>, address: Address, metadata: ()) -> bool {
        in_bounds(memory.len(), address, 1)
    }

    proof fn live_in_bounds(memory: Seq<usize>, address: Address, metadata: ()) {
    }

    fn span(metadata: &()) -> (cells: Option<usize>) {
        Some(1)
    }

    fn is_live(memory: &Memory, address: Address, metadata: &()) -> (live: bool) {
        fits(memory, address, Some(1))
    }
}

/// A fixed-size sequence: `N` elements side by side.
impl<T: Pointee<Metadata = ()>, const N: usize> Pointee for [T; N] {
    type Metadata = ();

    open spec fn extent(metadata: ()) -> nat {
        N as nat * T::extent(())
    }

    open spec fn live(memory: Seq<usize>, address: Address, metadata: ()) -> bool {
        in_bounds(memory.len(), address, N as nat * T::extent(()))
    }

    proof fn live_in_bounds(memory: Seq<usize>, address: Address, metadata: ()) {
    }

    fn span(metadata: &()) -> (cells: Option<usize>) {
        sequence_span::<T>(N)
    }

    fn is_live(memory: &Memory, address: Address, metadata: &()) -> (live: bool) {
        proof {
            memory.len_fits();
        }
        fits(memory, address, sequence_span::<T>(N))
    }
}

/// A sequence of unknown length: the metadata is its element count.
impl<T: Pointee<Metadata = ()>> Pointee for [T] {
    type Metadata = usize;

    open spec fn extent(metadata: usize) -> nat {
        metadata as nat * T::extent(())
    }

    open spec fn live(memory: Seq<usize>, address: Address, metadata: usize) -> bool {
        in_bounds(memory.len(), address, metadata as nat * T::extent(()))
    }

    proof fn live_in_bounds(memory: Seq<usize>, address: Address, metadata: usize) {
    }

    fn span(metadata: &usize) -> (cells: Option<usize>) {
        sequence_span::<T>(*metadata)
    }

    fn is_live(memory: &Memory, address: Address, metadata: &usize) -> (live: bool) {
        proof {
            memory.len_fits();
        }
        fits(memory, address, sequence_span::<T>(*metadata))
    }
}

/// A text slice of unknown length: the metadata is its length in bytes, one
/// byte to a cell.
impl Pointee for str {
    type Metadata = usize;

    open spec fn extent(metadata: usize) -> nat {
        metadata as nat
    }

    open spec fn live(memory: Seq<usize>, address: Address, metadata: usize) -> bool {
        in_bounds(memory.len(), address, metadata as nat)
    }

    proof fn live_in_bounds(memory: Seq<usize>, address: Address, metadata: usize) {
    }

    fn span(metadata: &usize) -> (cells: Option<usize>) {
        Some(*metadata)
    }

    fn is_live(memory: &Memory, address: Address, metadata: &usize) -> (live: bool) {
        fits(memory, address, Some(*metadata))
    }
}

/// Whether `memory` holds at `address` the header of a growable sequence whose
/// elements span `each` cells: the header lies inside the memory, the element
/// count is at most the capacity, and the buffer lies inside the memory for
/// its whole capacity.
pub open spec fn live_header(memory: Seq<usize>, address: Address, each: nat) -> bool {
    &&& in_bounds(memory.len(), address, HEADER_CELLS as nat)
    &&& memory[address + HEADER_LENGTH] <= memory[address + HEADER_CAPACITY]
    &&& in_bounds(
        memory.len(),
        memory[address + HEADER_BUFFER],
        memory[address + HEADER_CAPACITY] as nat * each,
    )
}

/// A growable sequence: a header of three cells that hold the address of a
/// buffer elsewhere in memory, the buffer's capacity and the current element
/// count, both in elements.
impl<T: Pointee<Metadata = ()>> Pointee for Vec<T> {
    type Metadata = ();

    open spec fn extent(metadata: ()) -> nat {
        HEADER_CELLS as nat
    }

    open spec fn live(memory: Seq<usize>, address: Address, metadata: ()) -> bool {
        live_header(memory, address, T::extent(()))
    }

    proof fn live_in_bounds(memory: Seq<usize>, address: Address, metadata: ()) {
    }

    fn span(metadata: &()) -> (cells: Option<usize>) {
        Some(HEADER_CELLS)
    }

    fn is_live(memory: &Memory, address: Address, metadata: &()) -> (live: bool) {
        if !fits(memory, address, Some(HEADER_CELLS)) {
            return false;
        }
        proof {
            memory.len_fits();
        }
        let buffer: usize = memory.load(address + HEADER_BUFFER);
        let capacity: usize = memory.load(address + HEADER_CAPACITY);
        let count: usize = memory.load(address + HEADER_LENGTH);
        count <= capacity && fits(memory, buffer, sequence_span::<T>(capacity))
    }
}

/// A growable text: the header of a growable sequence of bytes.
impl Pointee for String {
    type Metadata = ();

    open spec fn extent(metadata: ()) -> nat {
        HEADER_CELLS as nat
    }

    open spec fn live(memory: Seq<usize>, address: Address, metadata: ()) -> bool {
        live_header(memory, address, 1)
    }

    proof fn live_in_bounds(memory: Seq<usize>, address: Address, metadata: ()) {
    }

    fn span(metadata: &()) -> (cells: Option<usize>) {
        Some(HEADER_CELLS)
    }

    fn is_live(memory: &Memory, address: Address, metadata: &()) -> (live: bool) {
        if !fits(memory, address, Some(HEADER_CELLS)) {
            return false;
        }
        proof {
            memory.len_fits();
        }
        let buffer: usize = memory.load(address + HEADER_BUFFER);
        let capacity: usize = memory.load(address + HEADER_CAPACITY);
        let count: usize = memory.load(address + HEADER_LENGTH);
        count <= capacity && fits(memory, buffer, Some(capacity))
    }
}

/// A struct whose one field, the last, holds a `T`: it is laid out as the
/// field is, and described by the field's metadata.
pub struct Wrapper<T: ?Sized> {
    /// The last field.
    pub field: T,
}

impl<T: ?Sized + Pointee> Pointee for Wrapper<T> {
    type Metadata = T::Metadata;

    open spec fn extent(metadata: T::Metadata) -> nat {
        T::extent(metadata)
    }

    open spec fn live(memory: Seq<usize>, address: Address, metadata: T::Metadata) -> bool {
        T::live(memory, address, metadata)
    }

    proof fn live_in_bounds(memory: Seq<usize>, address: Address, metadata: T::Metadata) {
        T::live_in_bounds(memory, address, metadata);
    }

    fn span(metadata: &T::Metadata) -> (cells: Option<usize>) {
        T::span(metadata)
    }

    fn is_live(memory: &Memory, address: Address, metadata: &T::Metadata) -> (live: bool) {
        T::is_live(memory, address, metadata)
    }
}

/// An optional value: one cell that is zero when nothing is there, then the
/// room for the value.
impl<T: Pointee<Metadata = ()>> Pointee for Option<T> {
    type Metadata = ();

    open spec fn extent(metadata: ()) -> nat {
        1 + T::extent(())
    }

    open spec fn live(memory: Seq<usize>, address: Address, metadata: ()) -> bool {
        &&& in_bounds(memory.len(), address, 1 + T::extent(()))
        &&& memory[address as int] != 0 ==> T::live(memory, (address + 1) as usize, ())
    }

    proof fn live_in_bounds(memory: Seq<usize>, address: Address, metadata: ()) {
    }

    fn span(metadata: &()) -> (cells: Option<usize>) {
        match T::span(&()) {
            Some(value) => value.checked_add(1),
            None => None,
        }
    }

    fn is_live(memory: &Memory, address: Address, metadata: &()) -> (live: bool) {
        proof {
            memory.len_fits();
        }
        if !fits(memory, address, Self::span(&())) {
            return false;
        }
        memory.load(address) == 0 || T::is_live(memory, address + 1, &())
    }
}

} // verus!
