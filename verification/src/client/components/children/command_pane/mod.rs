pub mod command_line;
pub mod command_terminal;
pub mod log;
