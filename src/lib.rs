//! A declarative automation runner: scripts of shell steps, executed with
//! parameter substitution, platform filters, failure policy, recovery steps
//! and concurrent step groups.
//!
//! The library holds every decision of a run; a host program performs the
//! outside work the engine asks for. A run starts with [`runner::start`],
//! which checks the parameters and secrets before any step. The host then
//! feeds [`engine::Event`]s to [`runner::Runner::advance`] and carries out
//! each [`engine::Action`] it gets back: launching a process through the
//! platform shell, resolving a directory, pausing, dispatching a concurrent
//! unit (a [`runner::Runner::unit`] on a copy of the context) and joining the
//! units at the end.
//!
//! A failure that a step tolerates (`proceed_on_failure`) is absorbed: the
//! run goes on, and its result is a success unless another failure stops it.
//! Recovery steps only recover; the failed step is not run again.

pub mod context;
pub mod engine;
pub mod laws;
pub mod monitor;
pub mod platform;
pub mod preflight;
pub mod runner;
pub mod script;
pub mod text;
pub mod version;
