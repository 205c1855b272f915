use vstd::prelude::*;

use crate::types::errors::program_errors::ProgramError;
use crate::vm::errors::runner_errors::RunnerError;
use crate::vm::errors::vm_errors::VirtualMachineError;
use crate::vm::errors::vm_exception::VmException;

verus! {

/// The errors a run of a Cairo program can end in.
#[derive(Debug)]
pub enum CairoRunError {
    Program(ProgramError),
    Runner(RunnerError),
    VirtualMachine(VirtualMachineError),
    VmException(VmException),
}

} // verus!
