//! Core of an agent runtime: a per-agent actor that owns a conversation
//! history and mediates completion calls, a registry of live agents, and a
//! periodic decay reconciler that keeps an on-chain happiness score aligned
//! with off-chain interaction recency.
//!
//! Network, database and clock access live outside this crate; every function
//! here is a total, verified step from plain values to plain values.

pub mod actor;
pub mod context;
pub mod decay;
pub mod errors;
pub mod model;
pub mod registry;

use vstd::prelude::*;

verus! {

} // verus!
