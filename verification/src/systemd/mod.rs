//! The `systemctl` side: the unit model, the invocations the program makes,
//! and how their output is read.

pub mod commands;
pub mod types;
