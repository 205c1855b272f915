pub mod program_errors;
