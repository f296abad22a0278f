//! Greedy packing of a thread's instruction chain into one transaction.
//!
//! A due thread is executed by a kickoff instruction followed by exec
//! instructions, one per pending instruction of its chain. The packer grows a
//! draft one instruction at a time, keeps the longest draft that a dry run
//! accepted, and hands it back with a compute budget fitted to the measured
//! usage.

pub mod address;
pub mod budget;
pub mod encoding;
pub mod error;
pub mod factory;
pub mod finalizer;
pub mod instruction;
pub mod keys;
pub mod laws;
pub mod message;
pub mod packer;
pub mod pool;
pub mod script;
pub mod simulation;
pub mod thread;

