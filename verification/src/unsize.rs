//! The capability tiers: how the descriptor metadata of a target shape is had
//! from a source shape.
//!
//! Each tier is a trait that a source shape implements for a target shape. A
//! shape implements the strongest tier that is true of it; the adapters of this
//! module then give it every weaker one. What an `unsafe` contract would ask of
//! an implementer is here a proof obligation: every impl proves that the
//! metadata it hands out describes the object at the address it hands out.
use vstd::prelude::*;
use vstd::arithmetic::mul::lemma_mul_inequality;
use crate::memory::{Address, Memory};
use crate::pointee::{
    lives_wherever, Pointee, Wrapper, HEADER_BUFFER, HEADER_CAPACITY, HEADER_LENGTH,
};

verus! {

/// The general tier: both the data address and the metadata of the target are
/// found by inspecting a live instance of the source.
pub trait Unsize<Target: ?Sized + Pointee>: Pointee {
    /// The data address of the target, for the source that lives in `memory` at
    /// `address` with `metadata`.
    spec fn address_of(memory: Seq<usize>, address: Address, metadata: Self::Metadata) -> Address;

    /// The metadata of the target, for the same source.
    spec fn metadata_of(
        memory: Seq<usize>,
        address: Address,
        metadata: Self::Metadata,
    ) -> Target::Metadata;

    /// The metadata handed out describes the object at the address handed out.
    proof fn target_is_live(memory: Seq<usize>, address: Address, metadata: Self::Metadata)
        requires
            Self::live(memory, address, metadata),
        ensures
            Target::live(
                memory,
                Self::address_of(memory, address, metadata),
                Self::metadata_of(memory, address, metadata),
            ),
    ;

    /// Computes [`Unsize::metadata_of`] from the live source.
    fn target_metadata(memory: &Memory, address: Address, metadata: &Self::Metadata) -> (target:
        Target::Metadata)
        requires
            Self::live(memory@, address, *metadata),
        ensures
            target == Self::metadata_of(memory@, address, *metadata),
    ;

    /// Computes [`Unsize::address_of`] from the live source.
    fn target_data_address(memory: &Memory, address: Address, metadata: &Self::Metadata) -> (target:
        Address)
        requires
            Self::live(memory@, address, *metadata),
        ensures
            target == Self::address_of(memory@, address, *metadata),
    ;
}

/// The address-stable tier: the metadata of the target is found by inspecting a
/// live instance of the source, whose own address is the target's data address.
pub trait StableUnsize<Target: ?Sized + Pointee>: Pointee {
    /// The metadata of the target, for the source that lives in `memory` at
    /// `address` with `metadata`.
    spec fn stable_metadata_of(
        memory: Seq<usize>,
        address: Address,
        metadata: Self::Metadata,
    ) -> Target::Metadata;

    /// The metadata handed out describes the object at the source's address.
    proof fn target_is_live(memory: Seq<usize>, address: Address, metadata: Self::Metadata)
        requires
            Self::live(memory, address, metadata),
        ensures
            Target::live(memory, address, Self::stable_metadata_of(memory, address, metadata)),
    ;

    /// Computes [`StableUnsize::stable_metadata_of`] from the live source.
    fn target_metadata(memory: &Memory, address: Address, metadata: &Self::Metadata) -> (target:
        Target::Metadata)
        requires
            Self::live(memory@, address, *metadata),
        ensures
            target == Self::stable_metadata_of(memory@, address, *metadata),
    ;
}

/// The metadata-derivable tier: the metadata of the target is a function of the
/// source's own metadata, and no instance is touched.
pub trait FromMetadataUnsize<Target: ?Sized + Pointee>: Pointee {
    /// The metadata of the target, for a source described by `metadata`.
    spec fn derived_metadata_of(metadata: Self::Metadata) -> Target::Metadata;

    /// The metadata handed out describes every live source, at its own address.
    proof fn target_is_live(memory: Seq<usize>, address: Address, metadata: Self::Metadata)
        requires
            Self::live(memory, address, metadata),
        ensures
            Target::live(memory, address, Self::derived_metadata_of(metadata)),
    ;

    /// Computes [`FromMetadataUnsize::derived_metadata_of`].
    fn target_metadata(metadata: &Self::Metadata) -> (target: Target::Metadata)
        ensures
            target == Self::derived_metadata_of(*metadata),
    ;
}

/// The static tier: the metadata of the target is a constant of the pair of
/// shapes, and neither an instance nor its metadata is needed.
pub trait ConstUnsize<Target: ?Sized + Pointee>: Pointee {
    /// The metadata of the target.
    spec fn static_metadata() -> Target::Metadata;

    /// The constant describes every live source, at its own address.
    proof fn target_is_live(memory: Seq<usize>, address: Address, metadata: Self::Metadata)
        requires
            Self::live(memory, address, metadata),
        ensures
            Target::live(memory, address, Self::static_metadata()),
    ;

    /// Computes [`ConstUnsize::static_metadata`].
    fn target_metadata() -> (target: Target::Metadata)
        ensures
            target == Self::static_metadata(),
    ;
}

/// What a metadata-derivable conversion hands out lives at the source's
/// address wherever the source does, whether or not it lives anywhere now.
pub proof fn derived_target_lives_wherever<T: ?Sized + FromMetadataUnsize<U>, U: ?Sized + Pointee>(
    address: Address,
    metadata: T::Metadata,
)
    ensures
        lives_wherever::<T, U>(address, metadata, address, T::derived_metadata_of(metadata)),
{
    assert forall|memory: Seq<usize>| #[trigger] T::live(memory, address, metadata) implies U::live(
        memory,
        address,
        T::derived_metadata_of(metadata),
    ) by {
        T::target_is_live(memory, address, metadata);
    }
}

/// What a static conversion hands out lives at the source's address wherever
/// the source does, whether or not it lives anywhere now.
pub proof fn static_target_lives_wherever<T: ?Sized + ConstUnsize<U>, U: ?Sized + Pointee>(
    address: Address,
    metadata: T::Metadata,
)
    ensures
        lives_wherever::<T, U>(address, metadata, address, T::static_metadata()),
{
    assert forall|memory: Seq<usize>| #[trigger] T::live(memory, address, metadata) implies U::live(
        memory,
        address,
        T::static_metadata(),
    ) by {
        T::target_is_live(memory, address, metadata);
    }
}

/// Every static conversion is metadata-derivable: the source's metadata is
/// ignored.
impl<T: ?Sized + ConstUnsize<Target>, Target: ?Sized + Pointee> FromMetadataUnsize<Target> for T {
    open spec fn derived_metadata_of(metadata: Self::Metadata) -> Target::Metadata {
        <T as ConstUnsize<Target>>::static_metadata()
    }

    proof fn target_is_live(memory: Seq<usize>, address: Address, metadata: Self::Metadata) {
        <T as ConstUnsize<Target>>::target_is_live(memory, address, metadata);
    }

    fn target_metadata(metadata: &Self::Metadata) -> (target: Target::Metadata) {
        <T as ConstUnsize<Target>>::target_metadata()
    }
}

/// Every metadata-derivable conversion is address-stable: the live instance is
/// ignored.
impl<T: ?Sized + FromMetadataUnsize<Target>, Target: ?Sized + Pointee> StableUnsize<Target> for T {
    open spec fn stable_metadata_of(
        memory: Seq<usize>,
        address: Address,
        metadata: Self::Metadata,
    ) -> Target::Metadata {
        <T as FromMetadataUnsize<Target>>::derived_metadata_of(metadata)
    }

    proof fn target_is_live(memory: Seq<usize>, address: Address, metadata: Self::Metadata) {
        <T as FromMetadataUnsize<Target>>::target_is_live(memory, address, metadata);
    }

    fn target_metadata(memory: &Memory, address: Address, metadata: &Self::Metadata) -> (target:
        Target::Metadata) {
        <T as FromMetadataUnsize<Target>>::target_metadata(metadata)
    }
}

/// Every address-stable conversion is a general one whose data address is the
/// source's own.
impl<T: ?Sized + StableUnsize<Target>, Target: ?Sized + Pointee> Unsize<Target> for T {
    open spec fn address_of(memory: Seq<usize>, address: Address, metadata: Self::Metadata)
        -> Address {
        address
    }

    open spec fn metadata_of(
        memory: Seq<usize>,
        address: Address,
        metadata: Self::Metadata,
    ) -> Target::Metadata {
        <T as StableUnsize<Target>>::stable_metadata_of(memory, address, metadata)
    }

    proof fn target_is_live(memory: Seq<usize>, address: Address, metadata: Self::Metadata) {
        <T as StableUnsize<Target>>::target_is_live(memory, address, metadata);
    }

    fn target_metadata(memory: &Memory, address: Address, metadata: &Self::Metadata) -> (target:
        Target::Metadata) {
        <T as StableUnsize<Target>>::target_metadata(memory, address, metadata)
    }

    fn target_data_address(memory: &Memory, address: Address, metadata: &Self::Metadata) -> (target:
        Address) {
        address
    }
}

/// A fixed-size sequence is statically a sequence of unknown length: the
/// element count is the array's length.
impl<T: Pointee<Metadata = ()>, const N: usize> ConstUnsize<[T]> for [T; N] {
    open spec fn static_metadata() -> usize {
        N
    }

    proof fn target_is_live(memory: Seq<usize>, address: Address, metadata: ()) {
    }

    fn target_metadata() -> (target: usize) {
        N
    }
}

/// A growable sequence is a sequence of unknown length, by inspection: the
/// element count and the buffer's address are read from the live header.
impl<T: Pointee<Metadata = ()>> Unsize<[T]> for Vec<T> {
    open spec fn address_of(memory: Seq<usize>, address: Address, metadata: ()) -> Address {
        memory[address + HEADER_BUFFER]
    }

    open spec fn metadata_of(memory: Seq<usize>, address: Address, metadata: ()) -> usize {
        memory[address + HEADER_LENGTH]
    }

    proof fn target_is_live(memory: Seq<usize>, address: Address, metadata: ()) {
        lemma_mul_inequality(
            memory[address + HEADER_LENGTH] as int,
            memory[address + HEADER_CAPACITY] as int,
            T::extent(()) as int,
        );
    }

    fn target_metadata(memory: &Memory, address: Address, metadata: &()) -> (target: usize) {
        proof {
            memory.len_fits();
        }
        memory.load(address + HEADER_LENGTH)
    }

    fn target_data_address(memory: &Memory, address: Address, metadata: &()) -> (target: Address) {
        memory.load(address + HEADER_BUFFER)
    }
}

/// A growable text is a text slice, by inspection: the byte count and the
/// buffer's address are read from the live header.
impl Unsize<str> for String {
    open spec fn address_of(memory: Seq<usize>, address: Address, metadata: ()) -> Address {
        memory[address + HEADER_BUFFER]
    }

    open spec fn metadata_of(memory: Seq<usize>, address: Address, metadata: ()) -> usize {
        memory[address + HEADER_LENGTH]
    }

    proof fn target_is_live(memory: Seq<usize>, address: Address, metadata: ()) {
    }

    fn target_metadata(memory: &Memory, address: Address, metadata: &()) -> (target: usize) {
        proof {
            memory.len_fits();
        }
        memory.load(address + HEADER_LENGTH)
    }

    fn target_data_address(memory: &Memory, address: Address, metadata: &()) -> (target: Address) {
        memory.load(address + HEADER_BUFFER)
    }
}

/// A struct whose last field alone holds the shape that varies is statically
/// the same struct around the field's target: the struct's metadata is its
/// field's. Nested structs convert through each other in this way.
impl<T: ConstUnsize<U>, U: ?Sized + Pointee> ConstUnsize<Wrapper<U>> for Wrapper<T> {
    open spec fn static_metadata() -> U::Metadata {
        T::static_metadata()
    }

    proof fn target_is_live(memory: Seq<usize>, address: Address, metadata: T::Metadata) {
        T::target_is_live(memory, address, metadata);
    }

    fn target_metadata() -> (target: U::Metadata) {
        T::target_metadata()
    }
}

} // verus!
