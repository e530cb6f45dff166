//! Per-tick behavior controller for autonomous agents in a periodically
//! simulated world.
//!
//! Each agent persists a task code and a `gathering` flag. Every tick the
//! controller re-reads that state, validates it, runs a two-phase
//! gather/spend cycle with hysteresis, and decides exactly one
//! world-interaction. The decision logic is pure: it consumes a [`model::Snapshot`]
//! of the agent's observations and produces a [`model::TickPlan`] of state writes
//! and at most one command. The surrounding host performs the observations
//! and carries out the plan.

pub mod behavior;
pub mod deposit;
pub mod dispatch;
pub mod hysteresis;
pub mod model;
pub mod task;

pub use task::Task;
