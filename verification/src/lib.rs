//! Bulk dispatch of named bot jobs to a fixed-concurrency worker pool.
//!
//! The library models worker records and their availability, builds the
//! argument vectors handed to the external automation executable, and drives
//! a bounded concurrent dispatch engine that admits jobs against a fixed
//! concurrency budget and aggregates one outcome per job.

pub mod args;
pub mod automatec;
pub mod bot;
pub mod command_builder;
pub mod cli;
pub mod dbinfo;
pub mod engine;
pub mod error;
pub mod handlers;
pub mod outcome;
pub mod packets;
pub mod runner;
pub mod text;

use vstd::prelude::*;

verus! {

/// Generic newtype wrapper used to attach impls to foreign-shaped data.
pub struct W<T>(pub T);

} // verus!
