pub mod cairo_runner;
pub mod function_runner;
pub mod pc_resolution;
