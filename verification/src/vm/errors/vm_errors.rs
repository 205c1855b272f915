use vstd::prelude::*;

use crate::types::relocatable::{MaybeRelocatable, Relocatable};
use crate::vm::errors::hint_errors::HintError;

verus! {

/// Errors raised while the VM runs.
#[derive(Debug)]
pub enum VirtualMachineError {
    /// A hint failed; the box holds the hint's index and its error.
    Hint(Box<(usize, HintError)>),
    /// Two values of different kinds were compared.
    DiffTypeComparison(Box<(MaybeRelocatable, MaybeRelocatable)>),
    /// Two addresses of different segments were compared.
    DiffIndexComp(Box<(Relocatable, Relocatable)>),
}

} // verus!
