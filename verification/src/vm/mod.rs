pub mod errors;
pub mod runners;
