use cairo_vm::test_helpers::error_utils::{
    assert_vm_result_err, assert_vm_result_ok, expect_assert_lt_felt252, expect_assert_not_equal_fail,
    expect_diff_index_comp, expect_diff_type_comparison, expect_hint_assert_not_zero,
    expect_hint_out_of_valid_range, expect_hint_value_outside_250_bit_range,
    expect_hint_value_outside_valid_range, expect_non_le_felt252, expect_ok,
    expect_split_int_limb_out_of_range, expect_split_int_not_zero,
};
use cairo_vm::types::relocatable::{Felt252, MaybeRelocatable, Relocatable};
use cairo_vm::vm::errors::cairo_run_errors::CairoRunError;
use cairo_vm::vm::errors::hint_errors::HintError;
use cairo_vm::vm::errors::vm_errors::VirtualMachineError;
use cairo_vm::vm::errors::vm_exception::VmException;

/// Wraps a `HintError` in the full `CairoRunError::VmException` chain expected by the expectations.
fn hint_err(hint_error: HintError) -> Result<(), CairoRunError> {
    Err(CairoRunError::VmException(VmException {
        pc: Relocatable::new(0, 0),
        inst_location: None,
        inner_exc: VirtualMachineError::Hint(Box::new((0, hint_error))),
        error_attr_value: None,
        traceback: None,
    }))
}

fn felts() -> Box<(Felt252, Felt252)> {
    Box::new((Felt252::zero(), Felt252::zero()))
}

#[test]
fn assert_vm_result_ok_passes() {
    assert_vm_result_ok(&Ok::<(), i32>(()));
}

#[test]
fn assert_vm_result_err_passes() {
    assert_vm_result_err(&Err::<(), i32>(42), |e: &i32| *e == 42);
}

#[test]
fn assert_vm_result_err_with_guard_passes() {
    assert_vm_result_err(&Err::<(), i32>(42), |x: &i32| *x == 42);
}

#[test]
fn expect_ok_passes() {
    expect_ok(&Ok(()));
}

#[test]
fn expectation_passes_on_hint_assert_not_zero() {
    expect_hint_assert_not_zero(&hint_err(HintError::AssertNotZero(felts())));
}

#[test]
fn expectation_passes_on_assert_not_equal_fail() {
    expect_assert_not_equal_fail(&hint_err(HintError::AssertNotEqualFail(Box::new((
        MaybeRelocatable::from_u64(0),
        MaybeRelocatable::from_u64(0),
    )))));
}

#[test]
fn expectation_passes_on_diff_type_comparison() {
    expect_diff_type_comparison(&hint_err(HintError::Internal(
        VirtualMachineError::DiffTypeComparison(Box::new((
            MaybeRelocatable::from_u64(0),
            MaybeRelocatable::from_segment_offset(0, 0),
        ))),
    )));
}

#[test]
fn expectation_passes_on_diff_index_comp() {
    expect_diff_index_comp(&hint_err(HintError::Internal(VirtualMachineError::DiffIndexComp(
        Box::new((Relocatable::new(0, 0), Relocatable::new(1, 0))),
    ))));
}

#[test]
fn expectation_passes_on_hint_value_outside_250_bit_range() {
    expect_hint_value_outside_250_bit_range(&hint_err(HintError::ValueOutside250BitRange(
        Box::new(Felt252::zero()),
    )));
}

#[test]
fn expectation_passes_on_non_le_felt252() {
    expect_non_le_felt252(&hint_err(HintError::NonLeFelt252(felts())));
}

#[test]
fn expectation_passes_on_assert_lt_felt252() {
    expect_assert_lt_felt252(&hint_err(HintError::AssertLtFelt252(felts())));
}

#[test]
fn expectation_passes_on_hint_value_outside_valid_range() {
    expect_hint_value_outside_valid_range(&hint_err(HintError::ValueOutsideValidRange(
        Box::new(MaybeRelocatable::from_u64(3)),
    )));
}

#[test]
fn expectation_passes_on_hint_out_of_valid_range() {
    expect_hint_out_of_valid_range(&hint_err(HintError::OutOfValidRange(felts())));
}

#[test]
fn expectation_passes_on_split_int_not_zero() {
    expect_split_int_not_zero(&hint_err(HintError::SplitIntNotZero));
}

#[test]
fn expectation_passes_on_split_int_limb_out_of_range() {
    expect_split_int_limb_out_of_range(&hint_err(HintError::SplitIntLimbOutOfRange(Box::new(
        Felt252::from_u64(1),
    ))));
}
