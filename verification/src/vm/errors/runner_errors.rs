use vstd::prelude::*;

verus! {

/// Errors in preparing a run.
#[derive(Debug)]
pub enum RunnerError {
    /// A function identifier has no pc.
    NoPC,
    /// A dynamic layout was asked for without its parameters.
    MissingDynamicLayoutParams,
}

} // verus!
