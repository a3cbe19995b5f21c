//! The configuration enhancement pipeline of a proxy client: a base
//! configuration and an ordered list of chain units go in, one final
//! configuration comes out, together with the top-level keys that the units
//! touched and a log for every step.
//!
//! `document` holds the configuration tree and `model` what it stands for,
//! `merge` the structural merge, `enhance` the chain units and the engine
//! that runs them, and `config` the state that keeps the outcome of a run.

pub mod config;
pub mod copy;
pub mod document;
pub mod enhance;
pub mod equal;
pub mod merge;
pub mod model;
pub mod validate;
