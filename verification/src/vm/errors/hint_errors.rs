use vstd::prelude::*;

use crate::types::relocatable::{Felt252, MaybeRelocatable};
use crate::vm::errors::vm_errors::VirtualMachineError;

verus! {

/// Errors raised by hints.
#[derive(Debug)]
pub enum HintError {
    Internal(VirtualMachineError),
    AssertNotZero(Box<(Felt252, Felt252)>),
    AssertNotEqualFail(Box<(MaybeRelocatable, MaybeRelocatable)>),
    ValueOutside250BitRange(Box<Felt252>),
    NonLeFelt252(Box<(Felt252, Felt252)>),
    AssertLtFelt252(Box<(Felt252, Felt252)>),
    ValueOutsideValidRange(Box<MaybeRelocatable>),
    OutOfValidRange(Box<(Felt252, Felt252)>),
    SplitIntNotZero,
    SplitIntLimbOutOfRange(Box<Felt252>),
    Dummy,
}

} // verus!
