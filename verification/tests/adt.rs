use unsizing::coerce_unsized::CoerceUnsized;
use unsizing::memory::Memory;
use unsizing::pointee::Wrapper;
use unsizing::pointer::Ref;

type Bar<T> = Wrapper<T>;

type Foo<T> = Wrapper<Bar<T>>;

#[test]
fn compiler_adt_builtin_coerce() {
    let memory = Memory::new(vec![0; 10]);
    let concrete: Ref<Foo<[i32; 10]>> = Ref::from_raw_parts(&memory, 0, ());
    let coerced: Ref<Foo<[i32]>> = concrete.coerce_unsized();
    assert_eq!(coerced.read(), [0; 10]);
}
