//! Setup of an isolated mount namespace for one child process: the typed
//! setup actions, the command-line grammar that yields them, and the ordered
//! plan of operating-system requests that applies them and hands control to
//! the target program.
//!
//! The library decides and never touches the system. A caller performs each
//! request that the [`executor::Executor`] hands out and reports how it ended.

pub mod action;
pub mod args;
pub mod bootstrap;
pub mod bytes;
pub mod executor;
pub mod filesystem;
pub mod flags;
pub mod grammar;
pub mod plan;
pub mod request;
