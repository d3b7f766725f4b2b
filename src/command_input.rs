//! Colon commands: their grammar, and the clipboard state machine that runs them.

pub mod input;
pub mod operations;
pub mod tree;
