use cairo_vm::test_helpers::test_utils::{assert_mr_eq, coerce_to_mr};
use cairo_vm::types::relocatable::{MaybeRelocatable, Relocatable};

#[test]
fn assert_mr_eq_passes_on_int() {
    assert_mr_eq::<(), ()>(Ok(MaybeRelocatable::from_u64(42)), Ok(MaybeRelocatable::from_u64(42)));
}

#[test]
fn assert_mr_eq_passes_on_relocatable() {
    assert_mr_eq::<(), ()>(
        Ok(MaybeRelocatable::RelocatableValue(Relocatable::new(1, 5))),
        Ok(MaybeRelocatable::from_segment_offset(1, 5)),
    );
}

#[test]
fn coerce_to_mr_takes_the_converted_value() {
    let v = coerce_to_mr::<&str>(Ok(MaybeRelocatable::from_segment_offset(3, 9)), "left");
    assert_eq!(v, MaybeRelocatable::RelocatableValue(Relocatable::new(3, 9)));
}

#[test]
fn memory_values_of_different_kinds_differ() {
    assert_ne!(MaybeRelocatable::from_u64(1), MaybeRelocatable::from_segment_offset(0, 1));
    assert_ne!(
        MaybeRelocatable::from_segment_offset(0, 5),
        MaybeRelocatable::from_segment_offset(1, 5)
    );
}
