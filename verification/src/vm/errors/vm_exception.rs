use vstd::prelude::*;

use crate::types::relocatable::Relocatable;
use crate::vm::errors::vm_errors::VirtualMachineError;

verus! {

/// The source file an instruction comes from.
#[derive(Debug)]
pub struct InputFile {
    pub filename: String,
}

/// Where in the Cairo source an instruction comes from, and the location it
/// was inlined into, with that location's description.
#[derive(Debug)]
pub struct Location {
    pub end_line: u32,
    pub end_col: u32,
    pub input_file: InputFile,
    pub parent_location: Option<(Box<Location>, String)>,
    pub start_line: u32,
    pub start_col: u32,
}

/// A VM error together with where it happened.
#[derive(Debug)]
pub struct VmException {
    pub pc: Relocatable,
    pub inst_location: Option<Location>,
    pub inner_exc: VirtualMachineError,
    pub error_attr_value: Option<String>,
    pub traceback: Option<String>,
}

} // verus!
