//! What holds of the coercions taken together.
use vstd::prelude::*;
use crate::coerce_unsized::CoerceUnsized;
use crate::dispatch_from_dyn::DispatchFromDyn;
use crate::pointee::{DispatchTable, Place, Pointee, HEADER_BUFFER, HEADER_LENGTH};
use crate::pointer::{CountedHandle, OwningBox, Pinned, Ref, RefMut, ValueCell};
use crate::polymorphic::{Concrete, Dyn, Extends, Implements};
use crate::memory::Address;
use crate::unsize::{ConstUnsize, FromMetadataUnsize, StableUnsize, Unsize};

verus! {

/// The tiers are nested: a static conversion is a conversion of every weaker
/// tier, with the same metadata at each and the source's own address.
pub proof fn static_tier_is_every_tier<T: ?Sized + ConstUnsize<U>, U: ?Sized + Pointee>(
    memory: Seq<usize>,
    address: Address,
    metadata: T::Metadata,
)
    ensures
        <T as FromMetadataUnsize<U>>::derived_metadata_of(metadata) == T::static_metadata(),
        <T as StableUnsize<U>>::stable_metadata_of(memory, address, metadata)
            == T::static_metadata(),
        <T as Unsize<U>>::metadata_of(memory, address, metadata) == T::static_metadata(),
        <T as Unsize<U>>::address_of(memory, address, metadata) == address,
{
}

/// A metadata-derivable conversion is a conversion of every weaker tier, with
/// the same metadata at each and the source's own address.
pub proof fn derivable_tier_is_every_weaker_tier<
    T: ?Sized + FromMetadataUnsize<U>,
    U: ?Sized + Pointee,
>(memory: Seq<usize>, address: Address, metadata: T::Metadata)
    ensures
        <T as StableUnsize<U>>::stable_metadata_of(memory, address, metadata)
            == T::derived_metadata_of(metadata),
        <T as Unsize<U>>::metadata_of(memory, address, metadata) == T::derived_metadata_of(
            metadata,
        ),
        <T as Unsize<U>>::address_of(memory, address, metadata) == address,
{
}

/// An address-stable conversion is a general one that hands out the source's
/// own address.
pub proof fn stable_tier_is_general_tier<T: ?Sized + StableUnsize<U>, U: ?Sized + Pointee>(
    memory: Seq<usize>,
    address: Address,
    metadata: T::Metadata,
)
    ensures
        <T as Unsize<U>>::metadata_of(memory, address, metadata) == T::stable_metadata_of(
            memory,
            address,
            metadata,
        ),
        <T as Unsize<U>>::address_of(memory, address, metadata) == address,
{
}

/// What a shared borrow converts to denotes, in the same memory, the address
/// and the metadata that the general tier finds for the source.
pub proof fn shared_borrow_converts_by_general_tier<
    'a,
    'b: 'a,
    T: ?Sized + Unsize<U>,
    U: ?Sized + Pointee,
>(source: Ref<'b, T>)
    ensures
        ({
            let target: Ref<'a, U> = source.coerced();
            let from = source@;
            target@ == (Place::<U> {
                memory: from.memory,
                address: T::address_of(from.memory, from.address, from.metadata),
                metadata: T::metadata_of(from.memory, from.address, from.metadata),
            })
        }),
{
}

/// What an exclusive borrow converts to, exclusive or shared, denotes the same
/// as what a shared borrow of the same place converts to.
pub proof fn exclusive_borrow_converts_by_general_tier<
    'a,
    'b: 'a,
    T: ?Sized + Unsize<U>,
    U: ?Sized + Pointee,
>(source: RefMut<'b, T>)
    ensures
        ({
            let exclusive: RefMut<'b, U> = source.coerced();
            let shared: Ref<'a, U> = source.coerced();
            let from = source@;
            let place = Place::<U> {
                memory: from.memory,
                address: T::address_of(from.memory, from.address, from.metadata),
                metadata: T::metadata_of(from.memory, from.address, from.metadata),
            };
            &&& exclusive@ == place
            &&& shared@ == place
        }),
{
}

/// What a polymorphic borrow narrows to denotes the same address in the same
/// memory, with no metadata.
pub proof fn narrowing_keeps_address<'a, T, U>(wide: Ref<'a, U>) where
    T: ConstUnsize<U> + Pointee<Metadata = ()>,
    U: ?Sized + Pointee<Metadata = DispatchTable>,

    ensures
        ({
            let narrow: Ref<'a, T> = Ref::narrowed(wide);
            narrow@ == (Place::<T> { memory: wide@.memory, address: wide@.address, metadata: () })
        }),
{
}

/// A borrow of a fixed-size sequence of `N` elements converts to a borrow of a
/// sequence of unknown length with the same address and the element count `N`,
/// through which the same cells are read.
pub proof fn array_to_slice_keeps_elements<'a, T: Pointee<Metadata = ()>, const N: usize>(
    source: Ref<'a, [T; N]>,
)
    ensures
        ({
            let target: Ref<'a, [T]> = source.coerced();
            &&& target@.memory == source@.memory
            &&& target@.address == source@.address
            &&& target@.metadata == N
            &&& target@.cells() == source@.cells()
        }),
{
}

/// A borrow of a growable sequence converts to a borrow of a sequence of
/// unknown length that starts at the buffer and has the element count that
/// the header holds at that moment, whatever the capacity: the cells read
/// through it are the elements in use.
pub proof fn growable_to_slice_reads_count<'a, T: Pointee<Metadata = ()>>(source: Ref<'a, Vec<T>>)
    ensures
        ({
            let target: Ref<'a, [T]> = source.coerced();
            let memory = source@.memory;
            let buffer = memory[source@.address + HEADER_BUFFER];
            let count = memory[source@.address + HEADER_LENGTH];
            &&& target@.memory == memory
            &&& target@.address == buffer
            &&& target@.metadata == count
            &&& target@.cells() == memory.subrange(
                buffer as int,
                buffer + count as nat * T::extent(()),
            )
        }),
{
}

/// Address stability: a reference-counted handle converts to a handle of the
/// very same payload address, whatever the target, a polymorphic shape
/// included.
pub proof fn counted_handle_keeps_address<T: ?Sized + ConstUnsize<U>, U: ?Sized + Pointee>(
    handle: CountedHandle<T>,
)
    ensures
        ({
            let target: CountedHandle<U> = handle.coerced();
            target.address == handle.address
        }),
{
}

/// An owning box converts to a box of the very same allocation and allocator.
pub proof fn owning_box_keeps_allocation<T: ?Sized + ConstUnsize<U>, U: ?Sized + Pointee, A>(
    owner: OwningBox<T, A>,
)
    ensures
        ({
            let target: OwningBox<U, A> = owner.coerced();
            &&& target.address == owner.address
            &&& target.allocator == owner.allocator
        }),
{
}

/// Narrowing undoes the making of a polymorphic borrow: no relocation took
/// place on the way.
pub proof fn narrowing_undoes_coercion<'a, S: Concrete + Implements<I>, I: ?Sized>(
    source: Ref<'a, S>,
)
    ensures
        ({
            let wide: Ref<'a, Dyn<I>> = source.coerced();
            let narrow: Ref<'a, S> = Ref::narrowed(wide);
            &&& source@.live() ==> Ref::<'a, S>::made_from(wide)
            &&& narrow == source
        }),
{
}

/// Narrowing undoes the making of a polymorphic owning box.
pub proof fn narrowing_undoes_box_coercion<S: Concrete + Implements<I>, I: ?Sized, A>(
    source: OwningBox<S, A>,
)
    ensures
        ({
            let wide: OwningBox<Dyn<I>, A> = source.coerced();
            let narrow: OwningBox<S, A> = OwningBox::narrowed(wide);
            &&& OwningBox::<S, A>::made_from(wide)
            &&& narrow == source
        }),
{
    let wide: OwningBox<Dyn<I>, A> = source.coerced();
    let narrow: OwningBox<S, A> = OwningBox::narrowed(wide);
    assert(narrow.metadata == source.metadata);
}

/// Delegation through a cell: converting the cell is converting what it holds
/// and wrapping the result.
pub proof fn cell_converts_as_its_value<T: CoerceUnsized<U>, U>(cell: ValueCell<T>)
    ensures
        cell.coerced() == (ValueCell::<U> { value: cell.value.coerced() }),
{
}

/// Delegation through a pinned wrapper: converting the wrapper is converting
/// the pointer inside and wrapping the result.
pub proof fn pinned_converts_as_its_pointer<P: CoerceUnsized<U>, U>(pinned: Pinned<P>)
    ensures
        pinned.coerced() == (Pinned::<U> { pointer: pinned.pointer.coerced() }),
{
}

/// Delegation composes: a cell in a pinned wrapper converts as the value
/// innermost does.
pub proof fn delegation_composes<T: CoerceUnsized<U>, U>(nested: Pinned<ValueCell<T>>)
    ensures
        nested.coerced() == (Pinned::<ValueCell<U>> {
            pointer: ValueCell { value: nested.pointer.value.coerced() },
        }),
{
}

/// Widening is transitive: a borrow of a concrete shape made polymorphic over
/// a narrow interface and then widened to a broad one is the borrow made
/// polymorphic over the broad interface at once. Whatever is then invoked
/// through the one is invoked through the other.
pub proof fn widening_is_transitive<'a, S, Narrow: ?Sized, Broad: ?Sized>(source: Ref<'a, S>) where
    S: Concrete + Implements<Narrow> + Implements<Broad>,
    Narrow: Extends<Broad>,

    ensures
        ({
            let narrow: Ref<'a, Dyn<Narrow>> = source.coerced();
            let by_steps: Ref<'a, Dyn<Broad>> = narrow.coerced();
            let at_once: Ref<'a, Dyn<Broad>> = source.coerced();
            by_steps == at_once
        }),
{
}

} // verus!
