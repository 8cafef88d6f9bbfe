//! Narrowing: from a polymorphic handle back to a pointer to the concrete shape
//! that it was made from.
//!
//! Nothing is checked when the program runs. That the handle was made from the
//! concrete shape asked for is the caller's obligation, stated as the
//! precondition [`DispatchFromDyn::made_from`].
use vstd::prelude::*;
use crate::pointee::{DispatchTable, Pointee};
use crate::pointer::{MutPtr, OwningBox, Pinned, Ref};
use crate::unsize::ConstUnsize;

verus! {

/// A narrow pointer that can be recovered from the wide pointer `UnsizedSelf`.
pub trait DispatchFromDyn<UnsizedSelf>: Sized {
    /// Whether `wide` was made from a pointer of this type.
    spec fn made_from(wide: UnsizedSelf) -> bool;

    /// The pointer that `wide` was made from.
    spec fn narrowed(wide: UnsizedSelf) -> Self;

    /// Drops the metadata of `wide` and keeps its address.
    fn wide_to_narrow(wide: UnsizedSelf) -> (narrow: Self)
        requires
            Self::made_from(wide),
        ensures
            narrow == Self::narrowed(wide),
    ;
}

/// A pinned wrapper narrows as the pointer inside it does.
impl<P: DispatchFromDyn<U>, U> DispatchFromDyn<Pinned<U>> for Pinned<P> {
    open spec fn made_from(wide: Pinned<U>) -> bool {
        P::made_from(wide.pointer)
    }

    open spec fn narrowed(wide: Pinned<U>) -> Pinned<P> {
        Pinned { pointer: P::narrowed(wide.pointer) }
    }

    fn wide_to_narrow(wide: Pinned<U>) -> (narrow: Pinned<P>) {
        Pinned { pointer: P::wide_to_narrow(wide.pointer) }
    }
}

/// A shared borrow of a polymorphic shape narrows to a shared borrow of the
/// concrete shape whose table it carries and which lives at its address.
impl<'a, T, U> DispatchFromDyn<Ref<'a, U>> for Ref<'a, T> where
    T: ConstUnsize<U> + Pointee<Metadata = ()>,
    U: ?Sized + Pointee<Metadata = DispatchTable>,
 {
    open spec fn made_from(wide: Ref<'a, U>) -> bool {
        &&& wide@.metadata == T::static_metadata()
        &&& T::live(wide@.memory, wide@.address, ())
    }

    open(crate) spec fn narrowed(wide: Ref<'a, U>) -> Ref<'a, T> {
        Ref { memory: wide.memory, address: wide.address, metadata: () }
    }

    fn wide_to_narrow(wide: Ref<'a, U>) -> (narrow: Ref<'a, T>)
        ensures
            ({
                let made: Ref<'a, T> = narrow;
                &&& made@.memory == wide@.memory
                &&& made@.address == wide@.address
                &&& made@.live()
            }),
    {
        Ref { memory: wide.memory, address: wide.address, metadata: () }
    }
}

/// An owning box of a polymorphic shape narrows to an owning box of the
/// concrete shape whose table it carries: the same allocation, the same
/// allocator.
impl<T, U, A> DispatchFromDyn<OwningBox<U, A>> for OwningBox<T, A> where
    T: ConstUnsize<U> + Pointee<Metadata = ()>,
    U: ?Sized + Pointee<Metadata = DispatchTable>,
 {
    open spec fn made_from(wide: OwningBox<U, A>) -> bool {
        wide.metadata == T::static_metadata()
    }

    open spec fn narrowed(wide: OwningBox<U, A>) -> OwningBox<T, A> {
        OwningBox { address: wide.address, metadata: (), allocator: wide.allocator }
    }

    fn wide_to_narrow(wide: OwningBox<U, A>) -> (narrow: OwningBox<T, A>) {
        let (this, allocator) = wide.into_raw_with_allocator();
        OwningBox::from_raw_in(MutPtr { address: this.address, metadata: () }, allocator)
    }
}

} // verus!
