pub mod error_utils;
pub mod math_test_utils;
pub mod test_utils;
