//! The operation engine of a terminal file manager: a parser for colon
//! commands, the clipboard state machine that runs them, the plans for
//! recursive copy and removal, and the decoding of mode bits.

pub mod command_input;
pub mod entry;
pub mod event;
