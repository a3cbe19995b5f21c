//! The chain units, the steps of a run, and the engine that takes them.

pub mod chain;
pub mod engine;
pub mod laws;
pub mod logs;
pub mod steps;
pub mod touched;
pub mod tun;
