//! A verified model of the parts of the Cairo virtual machine that select
//! memory layouts, resolve function entrypoints and check run results.
pub mod math_utils;
pub mod test_helpers;
pub mod types;
pub mod utils;
pub mod vm;
