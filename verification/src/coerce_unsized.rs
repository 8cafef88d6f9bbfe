//! The coercion rules: how a capability of a pointee lifts to every pointer
//! kind and wrapper that holds it.
use vstd::prelude::*;
use crate::pointee::{lives_wherever, Pointee};
use crate::pointer::{
    ConstPtr, CountedHandle, MutPtr, OwningBox, Pinned, Ref, RefMut, TypedMetadata, ValueCell,
};
use crate::unsize::{
    derived_target_lives_wherever, static_target_lives_wherever, ConstUnsize, FromMetadataUnsize,
    Unsize,
};

verus! {

/// A pointer, or a wrapper of one, that converts to `Target` by unsizing its
/// pointee.
pub trait CoerceUnsized<Target>: Sized {
    /// What the conversion yields.
    spec fn coerced(self) -> Target;

    /// Converts `self`.
    fn coerce_unsized(self) -> (target: Target)
        ensures
            target == self.coerced(),
    ;
}

/// An exclusive borrow converts to an exclusive borrow, by the general tier.
impl<'a, T: ?Sized + Unsize<U>, U: ?Sized + Pointee> CoerceUnsized<RefMut<'a, U>> for RefMut<'a, T> {
    open(crate) spec fn coerced(self) -> RefMut<'a, U> {
        RefMut {
            memory: self.memory,
            address: T::address_of(self.memory@, self.address, self.metadata),
            metadata: T::metadata_of(self.memory@, self.address, self.metadata),
        }
    }

    fn coerce_unsized(self) -> (target: RefMut<'a, U>)
        ensures
            ({
                let made: RefMut<'a, U> = target;
                &&& made@.memory == self@.memory
                &&& made@.address == T::address_of(self@.memory, self@.address, self@.metadata)
                &&& made@.metadata == T::metadata_of(self@.memory, self@.address, self@.metadata)
                &&& made@.live()
            }),
    {
        proof {
            use_type_invariant(&self);
            T::target_is_live(self.memory@, self.address, self.metadata);
        }
        let address = T::target_data_address(self.memory, self.address, &self.metadata);
        let metadata = T::target_metadata(self.memory, self.address, &self.metadata);
        RefMut { memory: self.memory, address, metadata }
    }
}

/// A shared borrow converts to a shared borrow that lasts no longer, by the
/// general tier.
impl<'a, 'b: 'a, T: ?Sized + Unsize<U>, U: ?Sized + Pointee> CoerceUnsized<Ref<'a, U>> for Ref<'b, T> {
    open(crate) spec fn coerced(self) -> Ref<'a, U> {
        Ref {
            memory: self.memory,
            address: T::address_of(self.memory@, self.address, self.metadata),
            metadata: T::metadata_of(self.memory@, self.address, self.metadata),
        }
    }

    fn coerce_unsized(self) -> (target: Ref<'a, U>)
        ensures
            ({
                let made: Ref<'a, U> = target;
                &&& made@.memory == self@.memory
                &&& made@.address == T::address_of(self@.memory, self@.address, self@.metadata)
                &&& made@.metadata == T::metadata_of(self@.memory, self@.address, self@.metadata)
                &&& made@.live()
            }),
    {
        proof {
            use_type_invariant(&self);
            T::target_is_live(self.memory@, self.address, self.metadata);
        }
        let address = T::target_data_address(self.memory, self.address, &self.metadata);
        let metadata = T::target_metadata(self.memory, self.address, &self.metadata);
        Ref { memory: self.memory, address, metadata }
    }
}

/// An exclusive borrow converts to a shared borrow that lasts no longer, by the
/// general tier.
impl<'a, 'b: 'a, T: ?Sized + Unsize<U>, U: ?Sized + Pointee> CoerceUnsized<Ref<'a, U>> for RefMut<'b, T> {
    open(crate) spec fn coerced(self) -> Ref<'a, U> {
        Ref {
            memory: self.memory,
            address: T::address_of(self.memory@, self.address, self.metadata),
            metadata: T::metadata_of(self.memory@, self.address, self.metadata),
        }
    }

    fn coerce_unsized(self) -> (target: Ref<'a, U>)
        ensures
            ({
                let made: Ref<'a, U> = target;
                &&& made@.memory == self@.memory
                &&& made@.address == T::address_of(self@.memory, self@.address, self@.metadata)
                &&& made@.metadata == T::metadata_of(self@.memory, self@.address, self@.metadata)
                &&& made@.live()
            }),
    {
        proof {
            use_type_invariant(&self);
            T::target_is_live(self.memory@, self.address, self.metadata);
        }
        let address = T::target_data_address(self.memory, self.address, &self.metadata);
        let metadata = T::target_metadata(self.memory, self.address, &self.metadata);
        Ref { memory: self.memory, address, metadata }
    }
}

/// An exclusive borrow converts to a writable raw address, by the general
/// tier. The borrow ends here: the result says nothing of what lives where.
impl<'a, T: ?Sized + Unsize<U>, U: ?Sized + Pointee> CoerceUnsized<MutPtr<U>> for RefMut<'a, T> {
    open spec fn coerced(self) -> MutPtr<U> {
        MutPtr {
            address: T::address_of(self@.memory, self@.address, self@.metadata),
            metadata: T::metadata_of(self@.memory, self@.address, self@.metadata),
        }
    }

    fn coerce_unsized(self) -> (target: MutPtr<U>)
        ensures
            ({
                let made: MutPtr<U> = target;
                U::live(self@.memory, made.address, made.metadata)
            }),
    {
        proof {
            use_type_invariant(&self);
            T::target_is_live(self.memory@, self.address, self.metadata);
        }
        let address = T::target_data_address(self.memory, self.address, &self.metadata);
        let metadata = T::target_metadata(self.memory, self.address, &self.metadata);
        MutPtr { address, metadata }
    }
}

/// An exclusive borrow converts to a read-only raw address, by the general
/// tier.
impl<'a, T: ?Sized + Unsize<U>, U: ?Sized + Pointee> CoerceUnsized<ConstPtr<U>> for RefMut<'a, T> {
    open spec fn coerced(self) -> ConstPtr<U> {
        ConstPtr {
            address: T::address_of(self@.memory, self@.address, self@.metadata),
            metadata: T::metadata_of(self@.memory, self@.address, self@.metadata),
        }
    }

    fn coerce_unsized(self) -> (target: ConstPtr<U>)
        ensures
            ({
                let made: ConstPtr<U> = target;
                U::live(self@.memory, made.address, made.metadata)
            }),
    {
        proof {
            use_type_invariant(&self);
            T::target_is_live(self.memory@, self.address, self.metadata);
        }
        let address = T::target_data_address(self.memory, self.address, &self.metadata);
        let metadata = T::target_metadata(self.memory, self.address, &self.metadata);
        ConstPtr { address, metadata }
    }
}

/// A shared borrow converts to a read-only raw address, by the general tier.
impl<'a, T: ?Sized + Unsize<U>, U: ?Sized + Pointee> CoerceUnsized<ConstPtr<U>> for Ref<'a, T> {
    open spec fn coerced(self) -> ConstPtr<U> {
        ConstPtr {
            address: T::address_of(self@.memory, self@.address, self@.metadata),
            metadata: T::metadata_of(self@.memory, self@.address, self@.metadata),
        }
    }

    fn coerce_unsized(self) -> (target: ConstPtr<U>)
        ensures
            ({
                let made: ConstPtr<U> = target;
                U::live(self@.memory, made.address, made.metadata)
            }),
    {
        proof {
            use_type_invariant(&self);
            T::target_is_live(self.memory@, self.address, self.metadata);
        }
        let address = T::target_data_address(self.memory, self.address, &self.metadata);
        let metadata = T::target_metadata(self.memory, self.address, &self.metadata);
        ConstPtr { address, metadata }
    }
}

/// A writable raw address converts to a writable raw address without a look at
/// what it points to, which may be gone: the metadata is derived from the
/// source's own.
impl<T: ?Sized + FromMetadataUnsize<U>, U: ?Sized + Pointee> CoerceUnsized<MutPtr<U>> for MutPtr<T> {
    open spec fn coerced(self) -> MutPtr<U> {
        MutPtr { address: self.address, metadata: T::derived_metadata_of(self.metadata) }
    }

    fn coerce_unsized(self) -> (target: MutPtr<U>)
        ensures
            ({
                let made: MutPtr<U> = target;
                lives_wherever::<T, U>(self.address, self.metadata, made.address, made.metadata)
            }),
    {
        proof {
            derived_target_lives_wherever::<T, U>(self.address, self.metadata);
        }
        let metadata = T::target_metadata(&self.metadata);
        MutPtr { address: self.address, metadata }
    }
}

/// A writable raw address converts to a read-only raw address in the same way.
impl<T: ?Sized + FromMetadataUnsize<U>, U: ?Sized + Pointee> CoerceUnsized<ConstPtr<U>> for MutPtr<T> {
    open spec fn coerced(self) -> ConstPtr<U> {
        ConstPtr { address: self.address, metadata: T::derived_metadata_of(self.metadata) }
    }

    fn coerce_unsized(self) -> (target: ConstPtr<U>)
        ensures
            ({
                let made: ConstPtr<U> = target;
                lives_wherever::<T, U>(self.address, self.metadata, made.address, made.metadata)
            }),
    {
        proof {
            derived_target_lives_wherever::<T, U>(self.address, self.metadata);
        }
        let metadata = T::target_metadata(&self.metadata);
        ConstPtr { address: self.address, metadata }
    }
}

/// A read-only raw address converts to a read-only raw address in the same way.
impl<T: ?Sized + FromMetadataUnsize<U>, U: ?Sized + Pointee> CoerceUnsized<ConstPtr<U>> for ConstPtr<T> {
    open spec fn coerced(self) -> ConstPtr<U> {
        ConstPtr { address: self.address, metadata: T::derived_metadata_of(self.metadata) }
    }

    fn coerce_unsized(self) -> (target: ConstPtr<U>)
        ensures
            ({
                let made: ConstPtr<U> = target;
                lives_wherever::<T, U>(self.address, self.metadata, made.address, made.metadata)
            }),
    {
        proof {
            derived_target_lives_wherever::<T, U>(self.address, self.metadata);
        }
        let metadata = T::target_metadata(&self.metadata);
        ConstPtr { address: self.address, metadata }
    }
}

/// An owning box converts to an owning box by the static tier alone: the box
/// is taken apart into address and allocator, only the metadata is computed
/// anew, and the box is put together again around the same allocation.
impl<T: ?Sized + ConstUnsize<U>, U: ?Sized + Pointee, A> CoerceUnsized<OwningBox<U, A>> for OwningBox<T, A> {
    open spec fn coerced(self) -> OwningBox<U, A> {
        OwningBox {
            address: self.address,
            metadata: T::static_metadata(),
            allocator: self.allocator,
        }
    }

    fn coerce_unsized(self) -> (target: OwningBox<U, A>)
        ensures
            ({
                let made: OwningBox<U, A> = target;
                lives_wherever::<T, U>(self.address, self.metadata, made.address, made.metadata)
            }),
    {
        let (this, allocator) = self.into_raw_with_allocator();
        proof {
            static_target_lives_wherever::<T, U>(self.address, self.metadata);
        }
        let metadata = T::target_metadata();
        OwningBox::from_raw_in(MutPtr { address: this.address, metadata }, allocator)
    }
}

/// A pinned wrapper converts as the pointer inside it does.
impl<P: CoerceUnsized<U>, U> CoerceUnsized<Pinned<U>> for Pinned<P> {
    open spec fn coerced(self) -> Pinned<U> {
        Pinned { pointer: self.pointer.coerced() }
    }

    fn coerce_unsized(self) -> (target: Pinned<U>) {
        Pinned { pointer: self.pointer.coerce_unsized() }
    }
}

/// A cell converts as the value inside it does: unwrap, convert, wrap.
impl<T: CoerceUnsized<U>, U> CoerceUnsized<ValueCell<U>> for ValueCell<T> {
    open spec fn coerced(self) -> ValueCell<U> {
        ValueCell { value: self.value.coerced() }
    }

    fn coerce_unsized(self) -> (target: ValueCell<U>) {
        ValueCell::new(self.into_inner().coerce_unsized())
    }
}

/// A reference-counted handle converts to one by the static tier alone. The
/// payload's address is shared with every other handle of the allocation and
/// with its count, so nothing weaker is accepted; the count is not touched.
impl<T: ?Sized + ConstUnsize<U>, U: ?Sized + Pointee> CoerceUnsized<CountedHandle<U>> for CountedHandle<T> {
    open spec fn coerced(self) -> CountedHandle<U> {
        CountedHandle { address: self.address, metadata: T::static_metadata() }
    }

    fn coerce_unsized(self) -> (target: CountedHandle<U>)
        ensures
            ({
                let made: CountedHandle<U> = target;
                lives_wherever::<T, U>(self.address, self.metadata, made.address, made.metadata)
            }),
    {
        let this = self.into_raw();
        proof {
            static_target_lives_wherever::<T, U>(self.address, self.metadata);
        }
        let metadata = T::target_metadata();
        CountedHandle::from_raw(ConstPtr { address: this.address, metadata })
    }
}

/// Metadata without an address converts by the static tier, the only one that
/// needs neither an instance nor an address.
impl<T: ?Sized + ConstUnsize<U>, U: ?Sized + Pointee> CoerceUnsized<TypedMetadata<U>> for TypedMetadata<T> {
    open spec fn coerced(self) -> TypedMetadata<U> {
        TypedMetadata(T::static_metadata())
    }

    fn coerce_unsized(self) -> (target: TypedMetadata<U>) {
        TypedMetadata(T::target_metadata())
    }
}

/// An optional pointer converts as the pointer does, where there is one.
impl<T: CoerceUnsized<U>, U> CoerceUnsized<Option<U>> for Option<T> {
    open spec fn coerced(self) -> Option<U> {
        match self {
            Some(inner) => Some(inner.coerced()),
            None => None,
        }
    }

    fn coerce_unsized(self) -> (target: Option<U>) {
        match self {
            Some(inner) => Some(inner.coerce_unsized()),
            None => None,
        }
    }
}

/// A shared borrow of an optional value converts to an optional borrow of the
/// value's target, by the general tier: the borrow moves inside, and the value
/// is converted where it lies.
impl<'a, 'b: 'a, T, U> CoerceUnsized<Option<Ref<'a, U>>> for Ref<'b, Option<T>> where
    T: Pointee<Metadata = ()> + Unsize<U>,
    U: ?Sized + Pointee,
 {
    open(crate) spec fn coerced(self) -> Option<Ref<'a, U>> {
        if self.memory@[self.address as int] == 0 {
            None
        } else {
            Some(
                Ref {
                    memory: self.memory,
                    address: T::address_of(self.memory@, (self.address + 1) as usize, ()),
                    metadata: T::metadata_of(self.memory@, (self.address + 1) as usize, ()),
                },
            )
        }
    }

    fn coerce_unsized(self) -> (target: Option<Ref<'a, U>>)
        ensures
            ({
                let made: Option<Ref<'a, U>> = target;
                let value = (self@.address + 1) as usize;
                match made {
                    None => self@.memory[self@.address as int] == 0,
                    Some(inner) => {
                        &&& self@.memory[self@.address as int] != 0
                        &&& inner@.memory == self@.memory
                        &&& inner@.address == T::address_of(self@.memory, value, ())
                        &&& inner@.metadata == T::metadata_of(self@.memory, value, ())
                        &&& inner@.live()
                    },
                }
            }),
    {
        proof {
            use_type_invariant(&self);
        }
        proof {
            self.memory.len_fits();
        }
        if self.memory.load(self.address) == 0 {
            None
        } else {
            let value: usize = self.address + 1;
            proof {
                T::target_is_live(self.memory@, value, ());
            }
            let address = T::target_data_address(self.memory, value, &());
            let metadata = T::target_metadata(self.memory, value, &());
            Some(Ref { memory: self.memory, address, metadata })
        }
    }
}

} // verus!
