pub mod build_command;
pub mod read_command;
