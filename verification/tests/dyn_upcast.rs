use unsizing::coerce_unsized::CoerceUnsized;
use unsizing::memory::Memory;
use unsizing::pointee::{read_pointee, DispatchTable};
use unsizing::pointer::{ConstPtr, Ref};
use unsizing::polymorphic::{Dyn, Extends, Implements, TAG_I32};

trait Super {
    fn as_super_string(&self) -> String;
}

trait Trait: Super {}

impl Super for i32 {
    fn as_super_string(&self) -> String {
        self.to_string()
    }
}

impl Trait for i32 {}

impl Implements<dyn Trait> for i32 {}

impl Extends<dyn Super> for dyn Trait {}

/// Invokes `as_super_string` on the object that `words` hold, through `table`.
fn as_super_string(table: &DispatchTable, words: Vec<usize>) -> String {
    match table.concrete {
        TAG_I32 => (words[0] as i32).as_super_string(),
        other => panic!("no table for {other}"),
    }
}

#[test]
fn to_dyn_trait_coerce_upcast() {
    let concrete = 0;
    let memory = Memory::new(vec![usize::MAX, concrete as usize]);
    // ref
    let narrow: Ref<i32> = Ref::from_raw_parts(&memory, 1, ());
    let coerced: Ref<Dyn<dyn Trait>> = narrow.coerce_unsized();
    let coerced: Ref<Dyn<dyn Super>> = coerced.coerce_unsized();
    assert_eq!(as_super_string(coerced.metadata(), coerced.read()), concrete.to_string());
    // raw ptr
    let narrow: ConstPtr<i32> = ConstPtr { address: 1, metadata: () };
    let coerced: ConstPtr<Dyn<dyn Trait>> = narrow.coerce_unsized();
    let coerced: ConstPtr<Dyn<dyn Super>> = coerced.coerce_unsized();
    assert_eq!(
        as_super_string(
            &coerced.metadata,
            read_pointee::<Dyn<dyn Super>>(&memory, coerced.address, &coerced.metadata)
        ),
        concrete.to_string()
    );
}
