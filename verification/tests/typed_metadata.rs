use unsizing::coerce_unsized::CoerceUnsized;
use unsizing::pointee::DispatchTable;
use unsizing::pointer::TypedMetadata;
use unsizing::polymorphic::{Dyn, Implements, TAG_UNIT};

type Struct = ();

trait Trait {}

impl Trait for Struct {}

impl Implements<dyn Trait> for Struct {}

#[test]
fn coerce_type_metadata() {
    // array -> slice
    let sized: TypedMetadata<[u8; 5]> = TypedMetadata(());
    let coerced: TypedMetadata<[u8]> = sized.coerce_unsized();
    assert_eq!(coerced.0, 5);

    // sized -> dyn
    let sized: TypedMetadata<Struct> = TypedMetadata(());
    let coerced: TypedMetadata<Dyn<dyn Trait>> = sized.coerce_unsized();
    assert_eq!(coerced.0, DispatchTable { concrete: TAG_UNIT, cells: 0 });
}
