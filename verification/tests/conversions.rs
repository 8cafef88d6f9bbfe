use unsizing::coerce_unsized::CoerceUnsized;
use unsizing::dispatch_from_dyn::DispatchFromDyn;
use unsizing::memory::Memory;
use unsizing::pointee::{fits, read_pointee, sequence_span, DispatchTable, Pointee, Wrapper};
use unsizing::pointer::{
    ConstPtr, CountedHandle, MutPtr, OwningBox, Pinned, Pointer, Ref, RefMut, TypedMetadata,
    ValueCell,
};
use unsizing::polymorphic::{Dyn, Extends, Implements, TAG_I32, TAG_U8};
use unsizing::text::FixedStringWithLen;
use unsizing::thin_vec::ThinVec;

trait Narrow: Broad {}

trait Broad {}

impl Implements<dyn Narrow> for i32 {}

impl Implements<dyn Broad> for i32 {}

impl Implements<dyn Broad> for u8 {}

impl Extends<dyn Broad> for dyn Narrow {}

fn zeros_after(padding: usize, count: usize) -> Memory {
    let mut cells = vec![usize::MAX; padding];
    cells.resize(padding + count, 0);
    Memory::new(cells)
}

#[test]
fn array_reference_to_slice_reference() {
    let memory = zeros_after(0, 10);
    let array: Ref<[i32; 10]> = Ref::checked_from_raw_parts(&memory, 0, ()).unwrap();
    let slice: Ref<[i32]> = array.coerce_unsized();
    assert_eq!(slice.read(), [0; 10]);
}

#[test]
fn array_of_arrays_to_slice_of_arrays() {
    let memory = zeros_after(3, 100);
    let nested: Ref<[[i32; 10]; 10]> = Ref::checked_from_raw_parts(&memory, 3, ()).unwrap();
    let slice: Ref<[[i32; 10]]> = nested.coerce_unsized();
    assert_eq!(*slice.metadata(), 10);
    assert_eq!(slice.address(), 3);
    let fresh: Vec<usize> = [[0usize; 10]; 10].concat();
    assert_eq!(slice.read(), fresh);
    for i in 0..10 {
        let inner: Ref<[i32; 10]> =
            Ref::checked_from_raw_parts(&memory, slice.address() + 10 * i, ()).unwrap();
        let inner: Ref<[i32]> = inner.coerce_unsized();
        assert_eq!(inner.read(), [0; 10]);
    }
}

#[test]
fn array_keeps_address_and_gets_its_length() {
    let memory = Memory::new(vec![9, 8, 7, 6, 5, 4]);
    let array: Ref<[usize; 4]> = Ref::checked_from_raw_parts(&memory, 2, ()).unwrap();
    let before = array.read();
    let slice: Ref<[usize]> = array.coerce_unsized();
    assert_eq!(slice.address(), 2);
    assert_eq!(*slice.metadata(), 4);
    assert_eq!(slice.read(), before);
    assert_eq!(slice.read(), [7, 6, 5, 4]);
}

#[test]
fn empty_array_gives_empty_slice() {
    let memory = Memory::new(vec![1, 2]);
    let array: Ref<[u8; 0]> = Ref::checked_from_raw_parts(&memory, 2, ()).unwrap();
    let slice: Ref<[u8]> = array.coerce_unsized();
    assert_eq!(*slice.metadata(), 0);
    assert_eq!(slice.address(), 2);
    assert_eq!(slice.read(), Vec::<usize>::new());
}

#[test]
fn growable_gives_count_not_capacity() {
    // buffer of capacity 5 at address 1 with 2 elements in use, header at 6
    let memory = Memory::new(vec![0, 11, 22, 33, 44, 55, 1, 5, 2]);
    let growable: Ref<Vec<i32>> = Ref::checked_from_raw_parts(&memory, 6, ()).unwrap();
    let slice: Ref<[i32]> = growable.coerce_unsized();
    assert_eq!(*slice.metadata(), 2);
    assert_eq!(slice.address(), 1);
    assert_eq!(slice.read(), [11, 22]);
}

#[test]
fn growable_text_gives_its_bytes() {
    let memory = Memory::new(vec![104, 105, 33, 0, 0, 4, 2]);
    let growable: Ref<String> = Ref::checked_from_raw_parts(&memory, 4, ()).unwrap();
    let text: Ref<str> = growable.coerce_unsized();
    assert_eq!(*text.metadata(), 2);
    assert_eq!(text.address(), 0);
    assert_eq!(text.read(), [104, 105]);
}

#[test]
fn dangling_places_are_refused() {
    let memory = Memory::new(vec![0; 10]);
    assert!(Ref::<[i32; 10]>::checked_from_raw_parts(&memory, 0, ()).is_some());
    assert!(Ref::<[i32; 10]>::checked_from_raw_parts(&memory, 1, ()).is_none());
    assert!(Ref::<[i32; 11]>::checked_from_raw_parts(&memory, 0, ()).is_none());
    assert!(Ref::<[i32]>::checked_from_raw_parts(&memory, 4, 6).is_some());
    assert!(Ref::<[i32]>::checked_from_raw_parts(&memory, 4, 7).is_none());
    assert!(Ref::<[i32]>::checked_from_raw_parts(&memory, usize::MAX, 2).is_none());
    assert!(Ref::<[[i32; 4]]>::checked_from_raw_parts(&memory, 0, usize::MAX).is_none());
    assert!(Ref::<i32>::checked_from_raw_parts(&memory, 9, ()).is_some());
    assert!(Ref::<i32>::checked_from_raw_parts(&memory, 10, ()).is_none());
    assert!(Ref::<()>::checked_from_raw_parts(&memory, 10, ()).is_some());
    assert!(Ref::<()>::checked_from_raw_parts(&memory, 11, ()).is_none());
    assert!(Ref::<str>::checked_from_raw_parts(&memory, 10, 0).is_some());
    assert!(Ref::<str>::checked_from_raw_parts(&memory, 10, 1).is_none());
}

#[test]
fn broken_headers_are_refused() {
    // count above capacity
    let memory = Memory::new(vec![0, 0, 0, 0, 2, 3]);
    assert!(Ref::<Vec<i32>>::checked_from_raw_parts(&memory, 3, ()).is_none());
    // buffer that runs out of the memory
    let memory = Memory::new(vec![0, 0, 0, 4, 3, 3]);
    assert!(Ref::<Vec<i32>>::checked_from_raw_parts(&memory, 3, ()).is_none());
    assert!(Ref::<String>::checked_from_raw_parts(&memory, 3, ()).is_none());
    // a header cut short
    assert!(Ref::<Vec<i32>>::checked_from_raw_parts(&memory, 4, ()).is_none());
    // in order
    let memory = Memory::new(vec![0, 0, 0, 3, 3, 3]);
    assert!(Ref::<Vec<i32>>::checked_from_raw_parts(&memory, 3, ()).is_some());
    assert!(Ref::<String>::checked_from_raw_parts(&memory, 3, ()).is_some());
    // elements of two cells need twice the room
    assert!(Ref::<Vec<[i32; 2]>>::checked_from_raw_parts(&memory, 3, ()).is_none());
    // a thin sequence whose allocation is cut short
    let memory = Memory::new(vec![1, 2, 3, 7, 7]);
    assert!(Ref::<ThinVec<i32>>::checked_from_raw_parts(&memory, 0, ()).is_none());
    let memory = Memory::new(vec![1, 2, 3, 7, 7, 7]);
    assert!(Ref::<ThinVec<i32>>::checked_from_raw_parts(&memory, 0, ()).is_some());
    let thin: Ref<ThinVec<i32>> = Ref::from_raw_parts(&memory, 0, ());
    let slice: Ref<[i32]> = thin.coerce_unsized();
    assert_eq!((slice.address(), *slice.metadata()), (3, 2));
    // a text longer than its buffer
    let memory = Memory::new(vec![4, 102, 111, 111]);
    assert!(Ref::<FixedStringWithLen<3>>::checked_from_raw_parts(&memory, 0, ()).is_none());
    let memory = Memory::new(vec![3, 102, 111, 111]);
    assert!(Ref::<FixedStringWithLen<3>>::checked_from_raw_parts(&memory, 0, ()).is_some());
    assert!(Ref::<FixedStringWithLen<4>>::checked_from_raw_parts(&memory, 0, ()).is_none());
}

#[test]
fn optional_wrapped_and_polymorphic_places() {
    // nothing there: what follows the first cell is not looked at
    let memory = Memory::new(vec![0, 9, 9, 9]);
    assert!(Ref::<Option<Vec<i32>>>::checked_from_raw_parts(&memory, 0, ()).is_some());
    // but the room for it must be there
    assert!(Ref::<Option<Vec<i32>>>::checked_from_raw_parts(&memory, 1, ()).is_none());
    // something there: it must live
    let memory = Memory::new(vec![1, 0, 5, 5]);
    assert!(Ref::<Option<Vec<i32>>>::checked_from_raw_parts(&memory, 0, ()).is_none());
    let memory = Memory::new(vec![1, 0, 4, 4]);
    assert!(Ref::<Option<Vec<i32>>>::checked_from_raw_parts(&memory, 0, ()).is_some());

    assert!(Ref::<Wrapper<[i32]>>::checked_from_raw_parts(&memory, 1, 3).is_some());
    assert!(Ref::<Wrapper<[i32]>>::checked_from_raw_parts(&memory, 1, 4).is_none());
    assert!(Ref::<Wrapper<Wrapper<[i32; 4]>>>::checked_from_raw_parts(&memory, 0, ()).is_some());
    assert!(Ref::<Wrapper<Wrapper<[i32; 4]>>>::checked_from_raw_parts(&memory, 1, ()).is_none());

    let two = DispatchTable { concrete: 77, cells: 2 };
    assert!(Ref::<Dyn<dyn Broad>>::checked_from_raw_parts(&memory, 2, two).is_some());
    assert!(Ref::<Dyn<dyn Broad>>::checked_from_raw_parts(&memory, 3, two).is_none());
}

#[test]
fn bounds_are_decided_without_overflow() {
    let memory = Memory::new(vec![0; 8]);
    assert!(fits(&memory, 0, Some(8)));
    assert!(fits(&memory, 8, Some(0)));
    assert!(fits(&memory, 3, Some(5)));
    assert!(!fits(&memory, 3, Some(6)));
    assert!(!fits(&memory, 9, Some(0)));
    assert!(!fits(&memory, usize::MAX, Some(usize::MAX)));
    assert!(!fits(&memory, 1, Some(usize::MAX)));
    assert!(!fits(&memory, 0, None));
    assert_eq!(sequence_span::<i32>(0), Some(0));
    assert_eq!(sequence_span::<i32>(usize::MAX), Some(usize::MAX));
    assert_eq!(sequence_span::<[i32; 3]>(5), Some(15));
    assert_eq!(sequence_span::<[i32; 3]>(usize::MAX / 3), Some(usize::MAX / 3 * 3));
    assert_eq!(sequence_span::<[i32; 3]>(usize::MAX / 3 + 1), None);
    assert_eq!(sequence_span::<[[i32; 2]; usize::MAX]>(1), None);
    assert_eq!(sequence_span::<[[i32; 2]; usize::MAX]>(0), Some(0));
}

#[test]
fn extents_that_fit_no_word_are_told() {
    assert_eq!(<[i32; 7] as Pointee>::span(&()), Some(7));
    assert_eq!(<[[i32; 7]; 3] as Pointee>::span(&()), Some(21));
    assert_eq!(<[[i32; 7]] as Pointee>::span(&3), Some(21));
    assert_eq!(<[[i32; 2]] as Pointee>::span(&usize::MAX), None);
    assert_eq!(<[[i32; 0]] as Pointee>::span(&usize::MAX), Some(0));
    assert_eq!(<str as Pointee>::span(&5), Some(5));
    assert_eq!(<Vec<[i32; 9]> as Pointee>::span(&()), Some(3));
    assert_eq!(<Option<[i32; 9]> as Pointee>::span(&()), Some(10));
    assert_eq!(<FixedStringWithLen<8> as Pointee>::span(&()), Some(9));
    assert_eq!(<Dyn<dyn Broad> as Pointee>::span(&DispatchTable { concrete: 5, cells: 4 }), Some(4));
}

#[test]
fn memory_is_read_by_address() {
    let memory = Memory::new(vec![5, 6, 7, 8]);
    assert_eq!(memory.len(), 4);
    assert_eq!(memory.load(2), 7);
    assert_eq!(memory.read(1, 2), [6, 7]);
    assert_eq!(memory.read(4, 0), Vec::<usize>::new());
    assert_eq!(read_pointee::<[i32; 3]>(&memory, 1, &()), [6, 7, 8]);
}

#[test]
fn counted_handle_keeps_its_payload_address() {
    // the two counts, then the payload
    let memory = Memory::new(vec![2, 1, 77]);
    let concrete: CountedHandle<i32> = CountedHandle { address: 2, metadata: () };
    let handle: CountedHandle<Dyn<dyn Broad>> = concrete.coerce_unsized();
    assert_eq!(handle.address, 2);
    assert_eq!(handle.metadata, DispatchTable { concrete: TAG_I32, cells: 1 });
    assert_eq!(
        read_pointee::<Dyn<dyn Broad>>(&memory, handle.address, &handle.metadata),
        [77]
    );
    // the counts are where and what they were
    assert_eq!(memory.read(0, 2), [2, 1]);
    let raw = handle.into_raw();
    assert_eq!(raw.address, 2);
    let again = CountedHandle::from_raw(raw);
    assert_eq!(again.address, 2);
}

#[test]
fn narrowing_gives_back_the_concrete_borrow() {
    let memory = Memory::new(vec![0, 0, 77]);
    let concrete: Ref<i32> = Ref::checked_from_raw_parts(&memory, 2, ()).unwrap();
    let wide: Ref<Dyn<dyn Broad>> = concrete.coerce_unsized();
    assert_eq!(wide.address(), 2);
    let narrow: Ref<i32> = Ref::wide_to_narrow(wide);
    assert_eq!(narrow.address(), 2);
    assert_eq!(narrow.read(), [77]);
}

#[test]
fn owning_box_keeps_allocation_and_allocator() {
    let concrete: OwningBox<[u8; 3], &str> =
        OwningBox { address: 40, metadata: (), allocator: "arena" };
    let slice: OwningBox<[u8], &str> = concrete.coerce_unsized();
    assert_eq!(slice.address, 40);
    assert_eq!(slice.metadata, 3);
    assert_eq!(slice.allocator, "arena");
    let (raw, allocator) = slice.into_raw_with_allocator();
    assert_eq!((raw.address, raw.metadata, allocator), (40, 3, "arena"));

    let concrete: OwningBox<u8, u32> = OwningBox { address: 8, metadata: (), allocator: 5 };
    let wide: OwningBox<Dyn<dyn Broad>, u32> = concrete.coerce_unsized();
    assert_eq!(wide.metadata, DispatchTable { concrete: TAG_U8, cells: 1 });
    let narrow: OwningBox<u8, u32> = OwningBox::wide_to_narrow(wide);
    assert_eq!((narrow.address, narrow.allocator), (8, 5));
}

#[test]
fn pinned_narrowing_goes_through_the_pointer() {
    let memory = Memory::new(vec![0, 5]);
    let concrete: Ref<u8> = Ref::checked_from_raw_parts(&memory, 1, ()).unwrap();
    let pinned: Pinned<Ref<Dyn<dyn Broad>>> = Pinned { pointer: concrete }.coerce_unsized();
    assert_eq!(pinned.pointer.metadata().concrete, TAG_U8);
    let narrow: Pinned<Ref<u8>> = Pinned::wide_to_narrow(pinned);
    assert_eq!(narrow.pointer.address(), 1);
    assert_eq!(narrow.pointer.read(), [5]);
}

#[test]
fn wrappers_convert_as_what_they_hold() {
    let memory = zeros_after(2, 10);
    let inner: Ref<[i32; 10]> = Ref::checked_from_raw_parts(&memory, 2, ()).unwrap();
    let direct: Ref<[i32]> = inner.coerce_unsized();

    let inner: Ref<[i32; 10]> = Ref::checked_from_raw_parts(&memory, 2, ()).unwrap();
    let cell: ValueCell<Ref<[i32]>> = ValueCell::new(inner).coerce_unsized();
    let through_cell = cell.into_inner();
    assert_eq!(through_cell.address(), direct.address());
    assert_eq!(through_cell.metadata(), direct.metadata());
    assert_eq!(through_cell.read(), direct.read());

    let inner: Ref<[i32; 10]> = Ref::checked_from_raw_parts(&memory, 2, ()).unwrap();
    let pinned: Pinned<Ref<[i32]>> = Pinned { pointer: inner }.coerce_unsized();
    assert_eq!(pinned.pointer.address(), direct.address());
    assert_eq!(pinned.pointer.metadata(), direct.metadata());
    assert_eq!(pinned.pointer.read(), direct.read());

    let inner: Ref<[i32; 10]> = Ref::checked_from_raw_parts(&memory, 2, ()).unwrap();
    let nested: Pinned<ValueCell<Ref<[i32]>>> =
        Pinned { pointer: ValueCell::new(inner) }.coerce_unsized();
    assert_eq!(nested.pointer.value.address(), 2);
    assert_eq!(*nested.pointer.value.metadata(), 10);
}

#[test]
fn widening_by_steps_is_widening_at_once() {
    let memory = Memory::new(vec![0, 123]);
    let concrete: Ref<i32> = Ref::checked_from_raw_parts(&memory, 1, ()).unwrap();
    let narrow: Ref<Dyn<dyn Narrow>> = concrete.coerce_unsized();
    let by_steps: Ref<Dyn<dyn Broad>> = narrow.coerce_unsized();
    let concrete: Ref<i32> = Ref::checked_from_raw_parts(&memory, 1, ()).unwrap();
    let at_once: Ref<Dyn<dyn Broad>> = concrete.coerce_unsized();
    assert_eq!(by_steps.address(), at_once.address());
    assert_eq!(by_steps.metadata(), at_once.metadata());
    assert_eq!(by_steps.read(), at_once.read());
    assert_eq!(*at_once.metadata(), DispatchTable { concrete: TAG_I32, cells: 1 });
}

#[test]
fn exclusive_borrow_converts_to_every_kind() {
    let mut memory = Memory::new(vec![0, 3, 4, 5]);
    let exclusive: RefMut<[usize; 3]> = RefMut::checked_from_raw_parts(&mut memory, 1, ()).unwrap();
    let slice: RefMut<[usize]> = exclusive.coerce_unsized();
    assert_eq!((slice.address(), *slice.metadata()), (1, 3));
    assert_eq!(slice.read(), [3, 4, 5]);

    let exclusive: RefMut<[usize; 3]> = RefMut::from_raw_parts(&mut memory, 1, ());
    let shared: Ref<[usize]> = exclusive.coerce_unsized();
    assert_eq!((shared.address(), *shared.metadata()), (1, 3));
    assert_eq!(shared.read(), [3, 4, 5]);

    let exclusive: RefMut<[usize; 3]> = RefMut::from_raw_parts(&mut memory, 1, ());
    let raw: MutPtr<[usize]> = exclusive.coerce_unsized();
    assert_eq!((raw.address, raw.metadata), (1, 3));

    let exclusive: RefMut<[usize; 3]> = RefMut::from_raw_parts(&mut memory, 1, ());
    let raw: ConstPtr<[usize]> = exclusive.coerce_unsized();
    assert_eq!((raw.address, raw.metadata), (1, 3));

    assert!(RefMut::<[usize; 4]>::checked_from_raw_parts(&mut memory, 1, ()).is_none());
    assert_eq!(memory.read(0, 4), [0, 3, 4, 5]);
}

#[test]
fn shared_borrow_converts_to_raw_address() {
    let memory = Memory::new(vec![0, 0, 0, 1, 2, 1]);
    let growable: Ref<Vec<u8>> = Ref::from_raw_parts(&memory, 3, ());
    let raw: ConstPtr<[u8]> = growable.coerce_unsized();
    assert_eq!((raw.address, raw.metadata), (1, 1));
}

#[test]
fn raw_addresses_convert_without_a_memory() {
    // nothing lives at this address, and nothing is looked at
    let raw: MutPtr<[i32; 6]> = MutPtr { address: 1000, metadata: () };
    let slice: MutPtr<[i32]> = raw.coerce_unsized();
    assert_eq!((slice.address, slice.metadata), (1000, 6));
    let raw: MutPtr<[i32; 6]> = MutPtr { address: 1000, metadata: () };
    let slice: ConstPtr<[i32]> = raw.coerce_unsized();
    assert_eq!((slice.address, slice.metadata), (1000, 6));
    let raw: ConstPtr<Dyn<dyn Narrow>> =
        ConstPtr { address: 16, metadata: DispatchTable { concrete: 9, cells: 2 } };
    let wide: ConstPtr<Dyn<dyn Broad>> = raw.coerce_unsized();
    assert_eq!(wide.address, 16);
    assert_eq!(wide.metadata, DispatchTable { concrete: 9, cells: 2 });
}

#[test]
fn metadata_alone_converts_statically() {
    let sized: TypedMetadata<[[u8; 2]; 4]> = TypedMetadata(());
    let coerced: TypedMetadata<[[u8; 2]]> = sized.coerce_unsized();
    assert_eq!(coerced.0, 4);
}

fn points_to<P: Pointer<T>, T: ?Sized>(_pointer: &P) -> bool {
    true
}

#[test]
fn pointer_kinds_are_marked() {
    let mut memory = Memory::new(vec![1, 2, 3]);
    assert!(points_to::<_, [u8]>(&ConstPtr::<[u8]> { address: 0, metadata: 3 }));
    assert!(points_to::<_, [u8]>(&MutPtr::<[u8]> { address: 0, metadata: 3 }));
    assert!(points_to::<_, u8>(&OwningBox::<u8, ()> { address: 0, metadata: (), allocator: () }));
    assert!(points_to::<_, u8>(&Ref::<u8>::from_raw_parts(&memory, 0, ())));
    assert!(points_to::<_, u8>(&Pinned { pointer: Ref::<u8>::from_raw_parts(&memory, 0, ()) }));
    assert!(points_to::<_, u8>(&RefMut::<u8>::from_raw_parts(&mut memory, 0, ())));
}
