pub mod cli_struct;
pub mod command_runner;
pub mod git;
pub mod start;
pub mod text;
