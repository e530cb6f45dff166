//! The data the controller works on.
//!
//! A [`Snapshot`] holds everything one tick's decision may read: the
//! persisted state as it was read, the agent's inventory levels, and the
//! entities observed in its region. A [`TickPlan`] holds everything the
//! decision asks the host to do: at most one corrective task write, at most
//! one `gathering` write, and one [`ActionPlan`]. Commands are fire and
//! forget: the host issues the planned command, and reports its status back
//! through a [`ReturnStatus`] so the follow-up (a move, a warning, nothing)
//! can be decided.

use vstd::prelude::*;

verus! {

/// The structural category of a storage structure, as far as the deposit
/// rule cares: the four categories that can receive energy, and everything
/// else.
#[derive(Copy, Clone, Debug, PartialEq, Eq, Structural)]
pub enum StructureKind {
    Extension,
    Spawn,
    Container,
    Tower,
    /// Any other category: never a deposit target, whatever its capacity.
    Other,
}

/// A storage structure observed in the region, reduced to what the deposit
/// rule reads.
#[derive(Copy, Clone, Debug, PartialEq, Eq, Structural)]
pub struct StorageCandidate {
    pub kind: StructureKind,
    /// Free energy capacity right now.
    pub free_energy: u32,
    /// Whether the structure supports receiving a transfer.
    pub transferable: bool,
}

/// An extractable resource node observed in the region, reduced to what the
/// gather behavior reads.
#[derive(Copy, Clone, Debug, PartialEq, Eq, Structural)]
pub struct SourceInfo {
    /// Whether the agent is adjacent to the node.
    pub adjacent: bool,
}

/// Everything one tick's decision for one agent may read. Observations are
/// re-taken every tick; nothing here is cached by the controller.
#[derive(Debug)]
pub struct Snapshot {
    /// The persisted task code as it was read: `None` when absent or
    /// unreadable.
    pub task_code: Option<i32>,
    /// The persisted gathering flag.
    pub gathering: bool,
    /// Total used inventory capacity, all resource kinds.
    pub used_capacity: u32,
    /// Free inventory capacity for energy.
    pub free_energy_capacity: u32,
    /// Whether the agent's region is observable at all. When it is not, the
    /// entity lists below are empty and no behavior can run.
    pub room_visible: bool,
    /// Extractable resource nodes, in enumeration order.
    pub sources: Vec<SourceInfo>,
    /// Storage structures, in enumeration order.
    pub structures: Vec<StorageCandidate>,
    /// Whether the region has a controllable objective.
    pub controller_present: bool,
    /// How many construction sites are visible.
    pub site_count: usize,
}

/// What a command is aimed at. Indices point into the snapshot's entity
/// lists, so the host can map a target back to the world object it observed.
#[derive(Copy, Clone, Debug, PartialEq, Eq, Structural)]
pub enum Target {
    /// `sources[i]`.
    Source(usize),
    /// `structures[i]`.
    Structure(usize),
    /// The `i`-th construction site in enumeration order.
    Site(usize),
    /// The region's controllable objective.
    Controller,
}

/// The command verbs whose status the host reports back.
#[derive(Copy, Clone, Debug, PartialEq, Eq, Structural)]
pub enum CommandKind {
    /// Extract from a resource node.
    Extract,
    /// Transfer the full energy inventory to a structure.
    Transfer,
    /// Build at a construction site.
    Build,
    /// Advance the controllable objective.
    AdvanceObjective,
}

/// The decision of one tick's behavior: at most one command, or a reason
/// there is none.
#[derive(Copy, Clone, Debug, PartialEq, Eq, Structural)]
pub enum ActionPlan {
    /// No eligible target, or the idle task: silently do nothing.
    Nothing,
    /// The region is not observable: skip this agent's tick and log; state
    /// already written stays written, and next tick retries.
    VisibilityFailure,
    /// The region has no controllable objective: log one warning, stop.
    WarnNoController,
    /// The selected deposit target does not support receiving a transfer:
    /// log one warning, stop.
    WarnNotTransferable,
    /// Not adjacent to the chosen resource node: approach it instead of
    /// extracting this tick.
    MoveToward(Target),
    /// Issue this command and report its status back through
    /// [`follow_up`](crate::dispatch::follow_up).
    Issue(CommandKind, Target),
}

/// The full outcome of one tick's decision for one agent.
#[derive(Copy, Clone, Debug, PartialEq, Eq, Structural)]
pub struct TickPlan {
    /// `Some(code)`: the persisted task was absent or out of range; write
    /// this corrected code back and log an informational notice.
    pub task_write: Option<i32>,
    /// `Some(flag)`: the gathering flag changed at a phase boundary; persist
    /// the new value.
    pub gathering_write: Option<bool>,
    /// The one behavior decision of this tick.
    pub action: ActionPlan,
}

/// The status of an issued command, as the host reports it back: success,
/// the target was out of range, or any other failure code (treated
/// opaquely).
#[derive(Copy, Clone, Debug, PartialEq, Eq, Structural)]
pub enum ReturnStatus {
    Success,
    NotInRange,
    Failure,
}

/// What to do after a command's status came back.
#[derive(Copy, Clone, Debug, PartialEq, Eq, Structural)]
pub enum FollowUp {
    /// The command succeeded: nothing more this tick.
    Done,
    /// The target was out of range: issue exactly one move-toward command.
    MoveToward(Target),
    /// Any other failure: log one warning; state is unchanged, so next tick
    /// retries naturally.
    Warn,
}

} // verus!
