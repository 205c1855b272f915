pub mod builtin_name;
pub mod builtins_instance_def;
pub mod errors;
pub mod instance_definitions;
pub mod layout;
pub mod layout_name;
pub mod program;
pub mod relocatable;
