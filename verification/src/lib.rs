//! Core logic for destructive, multi-step channel operations against a
//! remote chat service: a paginated bulk-message purge, a snapshot of a
//! channel's re-creatable settings, an interactive confirmation session,
//! and the orchestrated "nuke" sequence (snapshot, recreate, announce,
//! delete). All remote calls are performed by the surrounding program;
//! this crate decides what to call and with which arguments, and every
//! decision is verified.

use vstd::prelude::*;

pub mod confirm;
pub mod nuke;
pub mod purge;
pub mod remote;
pub mod snapshot;

verus! {

/// Shared user data handed to every command invocation; the commands
/// themselves carry all operation-specific state, so nothing lives here.
#[derive(Debug)]
pub struct Data {}

} // verus!
