pub mod cairo_run_errors;
pub mod hint_errors;
pub mod runner_errors;
pub mod vm_errors;
pub mod vm_exception;
