//! The pointer kinds and the wrappers around them.
//!
//! A pointer of the model is an address into a [`Memory`] together with the
//! descriptor metadata that the pointee's shape asks for. A borrow holds a
//! borrow of the memory besides, and with it the guarantee that its pointee
//! lives; a raw address, an owning box and a reference-counted handle hold no
//! memory and are plain values.
use vstd::prelude::*;
use crate::memory::{Address, Memory};
use crate::pointee::{read_pointee, Place, Pointee};

verus! {

/// A raw address of a `T`, read-only: no claim that anything lives there.
pub struct ConstPtr<T: ?Sized + Pointee> {
    /// The data address.
    pub address: Address,
    /// The descriptor metadata paired with it.
    pub metadata: T::Metadata,
}

/// A raw address of a `T`, writable: no claim that anything lives there.
pub struct MutPtr<T: ?Sized + Pointee> {
    /// The data address.
    pub address: Address,
    /// The descriptor metadata paired with it.
    pub metadata: T::Metadata,
}

/// A shared borrow of a `T`: a borrow of the memory, and an address in it at
/// which a `T` lives for as long as the borrow lasts.
pub struct Ref<'a, T: ?Sized + Pointee> {
    pub(crate) memory: &'a Memory,
    pub(crate) address: Address,
    pub(crate) metadata: T::Metadata,
}

impl<'a, T: ?Sized + Pointee> View for Ref<'a, T> {
    type V = Place<T>;

    open(crate) spec fn view(&self) -> Place<T> {
        Place { memory: self.memory@, address: self.address, metadata: self.metadata }
    }
}

impl<'a, T: ?Sized + Pointee> Ref<'a, T> {
    #[verifier::type_invariant]
    pub(crate) open spec fn inv(self) -> bool {
        T::live(self.memory@, self.address, self.metadata)
    }

    /// Pairs an address with metadata, given that a `T` so described lives there.
    pub fn from_raw_parts(memory: &'a Memory, address: Address, metadata: T::Metadata) -> (r: Self)
        requires
            T::live(memory@, address, metadata),
        ensures
            r@ == (Place::<T> { memory: memory@, address, metadata }),
    {
        Ref { memory, address, metadata }
    }

    /// Pairs an address with metadata if a `T` so described lives there, and
    /// only then.
    pub fn checked_from_raw_parts(memory: &'a Memory, address: Address, metadata: T::Metadata) -> (r:
        Option<Self>)
        ensures
            match r {
                Some(made) => made@ == (Place::<T> { memory: memory@, address, metadata }),
                None => !T::live(memory@, address, metadata),
            },
            r.is_some() == T::live(memory@, address, metadata),
    {
        if T::is_live(memory, address, &metadata) {
            Some(Ref { memory, address, metadata })
        } else {
            None
        }
    }

    /// The memory borrowed.
    pub fn memory(&self) -> (memory: &'a Memory)
        ensures
            memory@ == self@.memory,
            self@.live(),
    {
        proof {
            use_type_invariant(self);
        }
        self.memory
    }

    /// The data address.
    pub fn address(&self) -> (address: Address)
        ensures
            address == self@.address,
            self@.live(),
    {
        proof {
            use_type_invariant(self);
        }
        self.address
    }

    /// The descriptor metadata.
    pub fn metadata(&self) -> (metadata: &T::Metadata)
        ensures
            *metadata == self@.metadata,
            self@.live(),
    {
        proof {
            use_type_invariant(self);
        }
        &self.metadata
    }

    /// A copy of the cells of the object borrowed.
    pub fn read(&self) -> (words: Vec<usize>)
        ensures
            words@ == self@.cells(),
    {
        proof {
            use_type_invariant(self);
        }
        read_pointee::<T>(self.memory, self.address, &self.metadata)
    }
}

/// An exclusive borrow of a `T`: what is left of an exclusive borrow of the
/// memory, and an address in it at which a `T` lives for as long as the borrow
/// lasts. Nothing else can reach the memory meanwhile.
pub struct RefMut<'a, T: ?Sized + Pointee> {
    pub(crate) memory: &'a Memory,
    pub(crate) address: Address,
    pub(crate) metadata: T::Metadata,
}

impl<'a, T: ?Sized + Pointee> View for RefMut<'a, T> {
    type V = Place<T>;

    open(crate) spec fn view(&self) -> Place<T> {
        Place { memory: self.memory@, address: self.address, metadata: self.metadata }
    }
}

impl<'a, T: ?Sized + Pointee> RefMut<'a, T> {
    #[verifier::type_invariant]
    pub(crate) open spec fn inv(self) -> bool {
        T::live(self.memory@, self.address, self.metadata)
    }

    /// Pairs an address with metadata, given that a `T` so described lives there.
    pub fn from_raw_parts(memory: &'a mut Memory, address: Address, metadata: T::Metadata) -> (r:
        Self)
        requires
            T::live(old(memory)@, address, metadata),
        ensures
            r@ == (Place::<T> { memory: old(memory)@, address, metadata }),
            final(memory)@ == old(memory)@,
    {
        RefMut { memory: &*memory, address, metadata }
    }

    /// Pairs an address with metadata if a `T` so described lives there, and
    /// only then. The memory is left as it was.
    pub fn checked_from_raw_parts(
        memory: &'a mut Memory,
        address: Address,
        metadata: T::Metadata,
    ) -> (r: Option<Self>)
        ensures
            match r {
                Some(made) => made@ == (Place::<T> { memory: old(memory)@, address, metadata }),
                None => !T::live(old(memory)@, address, metadata),
            },
            r.is_some() == T::live(old(memory)@, address, metadata),
            final(memory)@ == old(memory)@,
    {
        if T::is_live(&*memory, address, &metadata) {
            Some(RefMut { memory: &*memory, address, metadata })
        } else {
            None
        }
    }

    /// The data address.
    pub fn address(&self) -> (address: Address)
        ensures
            address == self@.address,
            self@.live(),
    {
        proof {
            use_type_invariant(self);
        }
        self.address
    }

    /// The descriptor metadata.
    pub fn metadata(&self) -> (metadata: &T::Metadata)
        ensures
            *metadata == self@.metadata,
            self@.live(),
    {
        proof {
            use_type_invariant(self);
        }
        &self.metadata
    }

    /// A copy of the cells of the object borrowed.
    pub fn read(&self) -> (words: Vec<usize>)
        ensures
            words@ == self@.cells(),
    {
        proof {
            use_type_invariant(self);
        }
        read_pointee::<T>(self.memory, self.address, &self.metadata)
    }
}

/// An owning box of a `T`: the address of its one allocation, and the handle of
/// the allocator that made it. The address is the box's identity.
pub struct OwningBox<T: ?Sized + Pointee, A> {
    /// The address of the allocation.
    pub address: Address,
    /// The descriptor metadata paired with it.
    pub metadata: T::Metadata,
    /// The handle of the allocator that made the allocation.
    pub allocator: A,
}

/// A reference-counted handle of a `T`: the address of the payload, which every
/// other handle of the same allocation shares. The count lives beside the
/// payload, in memory, and no handle carries it.
pub struct CountedHandle<T: ?Sized + Pointee> {
    /// The address of the payload.
    pub address: Address,
    /// The descriptor metadata paired with it.
    pub metadata: T::Metadata,
}

impl<T: ?Sized + Pointee, A> OwningBox<T, A> {
    /// Takes the box apart into the raw address of its allocation and the
    /// allocator's handle.
    pub fn into_raw_with_allocator(self) -> (parts: (MutPtr<T>, A))
        ensures
            parts.0.address == self.address,
            parts.0.metadata == self.metadata,
            parts.1 == self.allocator,
    {
        (MutPtr { address: self.address, metadata: self.metadata }, self.allocator)
    }

    /// Puts a box together around the allocation at `pointer`, made by
    /// `allocator`.
    pub fn from_raw_in(pointer: MutPtr<T>, allocator: A) -> (owner: Self)
        ensures
            owner.address == pointer.address,
            owner.metadata == pointer.metadata,
            owner.allocator == allocator,
    {
        OwningBox { address: pointer.address, metadata: pointer.metadata, allocator }
    }
}

impl<T: ?Sized + Pointee> CountedHandle<T> {
    /// Gives up the handle for the raw address of its payload.
    pub fn into_raw(self) -> (pointer: ConstPtr<T>)
        ensures
            pointer.address == self.address,
            pointer.metadata == self.metadata,
    {
        ConstPtr { address: self.address, metadata: self.metadata }
    }

    /// Takes up again the handle whose payload is at `pointer`.
    pub fn from_raw(pointer: ConstPtr<T>) -> (handle: Self)
        ensures
            handle.address == pointer.address,
            handle.metadata == pointer.metadata,
    {
        CountedHandle { address: pointer.address, metadata: pointer.metadata }
    }
}

/// A cell: a wrapper that holds its one value directly.
pub struct ValueCell<T> {
    /// The value held.
    pub value: T,
}

impl<T> ValueCell<T> {
    /// Wraps `value`.
    pub fn new(value: T) -> (cell: Self)
        ensures
            cell.value == value,
    {
        ValueCell { value }
    }

    /// Unwraps the value.
    pub fn into_inner(self) -> (value: T)
        ensures
            value == self.value,
    {
        self.value
    }
}

/// A pinned wrapper: the pointee of `pointer` stays where it is.
///
/// A pinned wrapper converts and narrows as its pointer does, and the rules
/// for the pointer kinds of this crate keep the pointee in place or lead into
/// it. No rule sets apart the shapes that may be moved from those that must
/// stay: a rule for a further pointer kind that leads from the one to the other
/// must not be written, or pinning says nothing any more.
pub struct Pinned<P> {
    /// The pointer whose pointee is pinned.
    pub pointer: P,
}

/// Descriptor metadata on its own, typed by the shape it describes and paired
/// with no address.
pub struct TypedMetadata<T: ?Sized + Pointee>(pub T::Metadata);

/// Marks the types that behave as pointers to a `P`.
pub trait Pointer<P: ?Sized>: Sized {
}

impl<T: ?Sized + Pointee> Pointer<T> for ConstPtr<T> {
}

impl<T: ?Sized + Pointee> Pointer<T> for MutPtr<T> {
}

impl<'a, T: ?Sized + Pointee> Pointer<T> for Ref<'a, T> {
}

impl<'a, T: ?Sized + Pointee> Pointer<T> for RefMut<'a, T> {
}

impl<T: Pointer<U>, U: ?Sized> Pointer<U> for Pinned<T> {
}

impl<T: ?Sized + Pointee, A> Pointer<T> for OwningBox<T, A> {
}

} // verus!
