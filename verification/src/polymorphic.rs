//! Polymorphic shapes: "any shape that implements interface `I`".
//!
//! No compiler makes the instances here, so they are written once, for every
//! pair: a concrete shape that is declared to implement an interface is
//! statically a polymorphic shape over it, and a polymorphic shape over an
//! interface is one over each interface that it is declared to extend, by its
//! metadata alone.
use vstd::prelude::*;
use std::marker::PhantomData;
use crate::memory::{Address, Memory};
use crate::pointee::{fits, in_bounds, DispatchTable, Pointee};
use crate::unsize::{ConstUnsize, FromMetadataUnsize};

verus! {

/// Tag of the concrete shape `()`.
pub const TAG_UNIT: u64 = 0;

/// Tag of the concrete shape `u8`.
pub const TAG_U8: u64 = 1;

/// Tag of the concrete shape `i32`.
pub const TAG_I32: u64 = 2;

/// Tag of the concrete shape `usize`.
pub const TAG_USIZE: u64 = 3;

/// A concrete shape: one of fixed layout that has a dispatch table.
pub trait Concrete: Pointee<Metadata = ()> + Sized {
    /// The shape's dispatch table.
    spec fn table() -> DispatchTable;

    /// The table records the shape's true extent.
    proof fn table_spans()
        ensures
            Self::table().cells == Self::extent(()),
    ;

    /// Computes [`Concrete::table`].
    fn dispatch_table() -> (table: DispatchTable)
        ensures
            table == Self::table(),
    ;
}

/// Declares that the shape implements the interface `I`.
pub trait Implements<I: ?Sized> {
}

/// Declares that the interface extends the interface `Super`.
pub trait Extends<Super: ?Sized> {
}

/// The polymorphic shape over the interface `I`. Its metadata is the dispatch
/// table of the concrete shape behind it.
pub struct Dyn<I: ?Sized> {
    interface: PhantomData<I>,
}

impl Concrete for () {
    open spec fn table() -> DispatchTable {
        DispatchTable { concrete: TAG_UNIT, cells: 0 }
    }

    proof fn table_spans() {
    }

    fn dispatch_table() -> (table: DispatchTable) {
        DispatchTable { concrete: TAG_UNIT, cells: 0 }
    }
}

impl Concrete for u8 {
    open spec fn table() -> DispatchTable {
        DispatchTable { concrete: TAG_U8, cells: 1 }
    }

    proof fn table_spans() {
    }

    fn dispatch_table() -> (table: DispatchTable) {
        DispatchTable { concrete: TAG_U8, cells: 1 }
    }
}

impl Concrete for i32 {
    open spec fn table() -> DispatchTable {
        DispatchTable { concrete: TAG_I32, cells: 1 }
    }

    proof fn table_spans() {
    }

    fn dispatch_table() -> (table: DispatchTable) {
        DispatchTable { concrete: TAG_I32, cells: 1 }
    }
}

impl Concrete for usize {
    open spec fn table() -> DispatchTable {
        DispatchTable { concrete: TAG_USIZE, cells: 1 }
    }

    proof fn table_spans() {
    }

    fn dispatch_table() -> (table: DispatchTable) {
        DispatchTable { concrete: TAG_USIZE, cells: 1 }
    }
}

impl<I: ?Sized> Pointee for Dyn<I> {
    type Metadata = DispatchTable;

    open spec fn extent(metadata: DispatchTable) -> nat {
        metadata.cells as nat
    }

    open spec fn live(memory: Seq<usize>, address: Address, metadata: DispatchTable) -> bool {
        in_bounds(memory.len(), address, metadata.cells as nat)
    }

    proof fn live_in_bounds(memory: Seq<usize>, address: Address, metadata: DispatchTable) {
    }

    fn span(metadata: &DispatchTable) -> (cells: Option<usize>) {
        Some(metadata.cells)
    }

    fn is_live(memory: &Memory, address: Address, metadata: &DispatchTable) -> (live: bool) {
        fits(memory, address, Some(metadata.cells))
    }
}

/// Making a polymorphic handle from a concrete shape is static: the table is
/// fixed by the concrete shape.
impl<S: Concrete + Implements<I>, I: ?Sized> ConstUnsize<Dyn<I>> for S {
    open spec fn static_metadata() -> DispatchTable {
        S::table()
    }

    proof fn target_is_live(memory: Seq<usize>, address: Address, metadata: ()) {
        S::table_spans();
        S::live_in_bounds(memory, address, ());
    }

    fn target_metadata() -> (target: DispatchTable) {
        S::dispatch_table()
    }
}

/// Widening a polymorphic handle to an interface that its own extends is
/// metadata-derivable: the table still names the same concrete shape, and the
/// object behind the handle is not looked at.
impl<I: ?Sized + Extends<J>, J: ?Sized> FromMetadataUnsize<Dyn<J>> for Dyn<I> {
    open spec fn derived_metadata_of(metadata: DispatchTable) -> DispatchTable {
        metadata
    }

    proof fn target_is_live(memory: Seq<usize>, address: Address, metadata: DispatchTable) {
    }

    fn target_metadata(metadata: &DispatchTable) -> (target: DispatchTable) {
        *metadata
    }
}

} // verus!
