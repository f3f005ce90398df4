//! Supervision core of a host-service wrapper: it turns an ordinary program
//! into a managed background service by launching it as a child process,
//! restarting it with throttling, and stopping it through a graduated ladder.
//!
//! Everything here is plain logic over plain values; the operating-system
//! side (process handles, the service control manager, the registry) is
//! driven by the caller, which performs the actions that the state machines
//! of this crate decide.

pub mod cli;
pub mod command_line;
pub mod control;
pub mod install;
pub mod launch;
pub mod numbers;
pub mod parameters;
pub mod policy;
pub mod stop_ladder;
pub mod store;
pub mod supervisor;
pub mod text;
