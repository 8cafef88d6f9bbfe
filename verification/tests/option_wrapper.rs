use unsizing::coerce_unsized::CoerceUnsized;
use unsizing::memory::Memory;
use unsizing::pointer::Ref;

#[test]
fn option_coerce() {
    let memory = Memory::new(vec![0]);
    let concrete = Option::Some(Ref::<[u8; 1]>::from_raw_parts(&memory, 0, ()));
    let coerced: Option<Ref<[u8]>> = concrete.coerce_unsized();
    assert_eq!(coerced.map(|slice| slice.read()), Option::Some(vec![0]));
    let concrete = Option::None::<Ref<[u8; 1]>>;
    let coerced: Option<Ref<[u8]>> = concrete.coerce_unsized();
    assert_eq!(coerced.map(|slice| slice.read()), Option::None);
}
