//! Live memory bridge and binary data codec for a running game process.
//!
//! The library holds the decisions: which addresses a build exposes, which
//! process is the target, when a transfer may go ahead and what its outcome
//! means, how a point-in-time snapshot is assembled, and how a battle scene
//! file is decoded. The operating system calls themselves are made by the
//! caller, which hands the library their plain results.
pub mod error;
pub mod address_table;
pub mod scene;
pub mod process;
pub mod memory;
pub mod snapshot;
pub mod commands;
