//! Checks on the results of Cairo runs. Each check states as its
//! precondition the outcome it accepts, so a verified caller must show that
//! the result is the expected one.
use vstd::prelude::*;

use crate::vm::errors::cairo_run_errors::CairoRunError;
use crate::vm::errors::hint_errors::HintError;
use crate::vm::errors::vm_errors::VirtualMachineError;

verus! {

/// Checks that a result is `Ok`.
pub fn assert_vm_result_ok<T, E>(res: &Result<T, E>)
    requires
        res is Ok,
{
    match res {
        Ok(_) => {},
        Err(_) => {
            assert(false);
        },
    }
}

/// Checks that a result is an error that `accept` accepts.
pub fn assert_vm_result_err<T, E, F: Fn(&E) -> bool>(res: &Result<T, E>, accept: F)
    requires
        res matches Err(e) && call_requires(accept, (&e,)) && forall|b: bool|
            #[trigger] call_ensures(accept, (&e,), b) ==> b,
{
    match res {
        Ok(_) => {
            assert(false);
        },
        Err(e) => {
            let accepted = accept(e);
            assert(accepted);
        },
    }
}

/// The hint error that a run ended in, where it ended in one.
pub open spec fn hint_error_of(res: Result<(), CairoRunError>) -> Option<HintError> {
    match res {
        Err(CairoRunError::VmException(exc)) => match exc.inner_exc {
            VirtualMachineError::Hint(boxed) => Some(boxed.1),
            _ => None,
        },
        _ => None,
    }
}


/// Whether a hint error is `HintError::AssertNotZero(_)`.
fn is_assert_not_zero(e: &HintError) -> (b: bool)
    ensures
        b == (*e is AssertNotZero),
{
    matches!(e, HintError::AssertNotZero(_))
}

/// Whether a hint error is `HintError::AssertNotEqualFail(_)`.
fn is_assert_not_equal_fail(e: &HintError) -> (b: bool)
    ensures
        b == (*e is AssertNotEqualFail),
{
    matches!(e, HintError::AssertNotEqualFail(_))
}

/// Whether a hint error is `HintError::Internal(VirtualMachineError::DiffTypeComparison(_))`.
fn is_internal_diff_type_comparison(e: &HintError) -> (b: bool)
    ensures
        b == (*e matches HintError::Internal(VirtualMachineError::DiffTypeComparison(_))),
{
    matches!(e, HintError::Internal(VirtualMachineError::DiffTypeComparison(_)))
}

/// Whether a hint error is `HintError::Internal(VirtualMachineError::DiffIndexComp(_))`.
fn is_internal_diff_index_comp(e: &HintError) -> (b: bool)
    ensures
        b == (*e matches HintError::Internal(VirtualMachineError::DiffIndexComp(_))),
{
    matches!(e, HintError::Internal(VirtualMachineError::DiffIndexComp(_)))
}

/// Whether a hint error is `HintError::ValueOutside250BitRange(_)`.
fn is_value_outside_250_bit_range(e: &HintError) -> (b: bool)
    ensures
        b == (*e is ValueOutside250BitRange),
{
    matches!(e, HintError::ValueOutside250BitRange(_))
}

/// Whether a hint error is `HintError::NonLeFelt252(_)`.
fn is_non_le_felt252(e: &HintError) -> (b: bool)
    ensures
        b == (*e is NonLeFelt252),
{
    matches!(e, HintError::NonLeFelt252(_))
}

/// Whether a hint error is `HintError::AssertLtFelt252(_)`.
fn is_assert_lt_felt252(e: &HintError) -> (b: bool)
    ensures
        b == (*e is AssertLtFelt252),
{
    matches!(e, HintError::AssertLtFelt252(_))
}

/// Whether a hint error is `HintError::ValueOutsideValidRange(_)`.
fn is_value_outside_valid_range(e: &HintError) -> (b: bool)
    ensures
        b == (*e is ValueOutsideValidRange),
{
    matches!(e, HintError::ValueOutsideValidRange(_))
}

/// Whether a hint error is `HintError::OutOfValidRange(_)`.
fn is_out_of_valid_range(e: &HintError) -> (b: bool)
    ensures
        b == (*e is OutOfValidRange),
{
    matches!(e, HintError::OutOfValidRange(_))
}

/// Whether a hint error is `HintError::SplitIntNotZero`.
fn is_split_int_not_zero(e: &HintError) -> (b: bool)
    ensures
        b == (*e is SplitIntNotZero),
{
    matches!(e, HintError::SplitIntNotZero)
}

/// Whether a hint error is `HintError::SplitIntLimbOutOfRange(_)`.
fn is_split_int_limb_out_of_range(e: &HintError) -> (b: bool)
    ensures
        b == (*e is SplitIntLimbOutOfRange),
{
    matches!(e, HintError::SplitIntLimbOutOfRange(_))
}

/// Asserts that the result is `Ok`.
pub fn expect_ok(res: &Result<(), CairoRunError>)
    requires
        res is Ok,
{
    assert_vm_result_ok(res);
}

/// Asserts that the result is a hint error that `predicate` accepts.
pub fn expect_hint_error<F: Fn(&HintError) -> bool>(res: &Result<(), CairoRunError>, predicate: F)
    requires
        hint_error_of(*res) matches Some(h) && call_requires(predicate, (&h,)) && forall|b: bool|
            #[trigger] call_ensures(predicate, (&h,), b) ==> b,
{
    match res {
        Err(CairoRunError::VmException(exc)) => match &exc.inner_exc {
            VirtualMachineError::Hint(boxed) => {
                let accepted = predicate(&boxed.1);
                assert(accepted);
            },
            _ => {
                assert(false);
            },
        },
        _ => {
            assert(false);
        },
    }
}

/// Asserts that the result is `HintError::AssertNotZero`.
pub fn expect_hint_assert_not_zero(res: &Result<(), CairoRunError>)
    requires
        hint_error_of(*res) matches Some(h) && h is AssertNotZero,
{
    expect_hint_error(res, is_assert_not_zero);
}

/// Asserts that the result is `HintError::AssertNotEqualFail`.
pub fn expect_assert_not_equal_fail(res: &Result<(), CairoRunError>)
    requires
        hint_error_of(*res) matches Some(h) && h is AssertNotEqualFail,
{
    expect_hint_error(res, is_assert_not_equal_fail);
}

/// Asserts that the result is `VirtualMachineError::DiffTypeComparison` wrapped in a hint.
pub fn expect_diff_type_comparison(res: &Result<(), CairoRunError>)
    requires
        hint_error_of(*res) matches Some(HintError::Internal(VirtualMachineError::DiffTypeComparison(_))),
{
    expect_hint_error(res, is_internal_diff_type_comparison);
}

/// Asserts that the result is `VirtualMachineError::DiffIndexComp` wrapped in a hint.
pub fn expect_diff_index_comp(res: &Result<(), CairoRunError>)
    requires
        hint_error_of(*res) matches Some(HintError::Internal(VirtualMachineError::DiffIndexComp(_))),
{
    expect_hint_error(res, is_internal_diff_index_comp);
}

/// Asserts that the result is `HintError::ValueOutside250BitRange`.
pub fn expect_hint_value_outside_250_bit_range(res: &Result<(), CairoRunError>)
    requires
        hint_error_of(*res) matches Some(h) && h is ValueOutside250BitRange,
{
    expect_hint_error(res, is_value_outside_250_bit_range);
}

/// Asserts that the result is `HintError::NonLeFelt252`.
pub fn expect_non_le_felt252(res: &Result<(), CairoRunError>)
    requires
        hint_error_of(*res) matches Some(h) && h is NonLeFelt252,
{
    expect_hint_error(res, is_non_le_felt252);
}

/// Asserts that the result is `HintError::AssertLtFelt252`.
pub fn expect_assert_lt_felt252(res: &Result<(), CairoRunError>)
    requires
        hint_error_of(*res) matches Some(h) && h is AssertLtFelt252,
{
    expect_hint_error(res, is_assert_lt_felt252);
}

/// Asserts that the result is `HintError::ValueOutsideValidRange`.
pub fn expect_hint_value_outside_valid_range(res: &Result<(), CairoRunError>)
    requires
        hint_error_of(*res) matches Some(h) && h is ValueOutsideValidRange,
{
    expect_hint_error(res, is_value_outside_valid_range);
}

/// Asserts that the result is `HintError::OutOfValidRange`.
pub fn expect_hint_out_of_valid_range(res: &Result<(), CairoRunError>)
    requires
        hint_error_of(*res) matches Some(h) && h is OutOfValidRange,
{
    expect_hint_error(res, is_out_of_valid_range);
}

/// Asserts that the result is `HintError::SplitIntNotZero`.
pub fn expect_split_int_not_zero(res: &Result<(), CairoRunError>)
    requires
        hint_error_of(*res) matches Some(h) && h is SplitIntNotZero,
{
    expect_hint_error(res, is_split_int_not_zero);
}

/// Asserts that the result is `HintError::SplitIntLimbOutOfRange`.
pub fn expect_split_int_limb_out_of_range(res: &Result<(), CairoRunError>)
    requires
        hint_error_of(*res) matches Some(h) && h is SplitIntLimbOutOfRange,
{
    expect_hint_error(res, is_split_int_limb_out_of_range);
}

} // verus!
