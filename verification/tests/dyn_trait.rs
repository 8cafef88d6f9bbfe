use unsizing::coerce_unsized::CoerceUnsized;
use unsizing::memory::Memory;
use unsizing::pointer::Ref;
use unsizing::polymorphic::{Dyn, Implements, TAG_I32};

trait Trait {
    fn as_string(&self) -> String;
}

impl Trait for i32 {
    fn as_string(&self) -> String {
        self.to_string()
    }
}

impl Implements<dyn Trait> for i32 {}

/// Invokes `as_string` through the handle: the table picks the concrete impl.
fn as_string(handle: &Ref<Dyn<dyn Trait>>) -> String {
    match handle.metadata().concrete {
        TAG_I32 => (handle.read()[0] as i32).as_string(),
        other => panic!("no table for {other}"),
    }
}

#[test]
fn to_dyn_trait_coerce() {
    let concrete = 0;
    let memory = Memory::new(vec![usize::MAX, concrete as usize]);
    let narrow: Ref<i32> = Ref::from_raw_parts(&memory, 1, ());
    let coerced: Ref<Dyn<dyn Trait>> = narrow.coerce_unsized();
    assert_eq!(as_string(&coerced), concrete.to_string());
}
