//! The `mode` and `operation` parameters of a command.

pub mod mode;
pub mod operation;
