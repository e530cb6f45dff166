//! The top-level dispatcher: one call per agent per tick.
//!
//! [`start_working`] recovers a valid task from the persisted code, wraps
//! the task's spend-phase behavior in the gathering cycle, and returns the
//! whole tick's plan. [`follow_up`] decides what an issued command's
//! reported status leads to: a move when the target was out of range, a
//! warning on any other failure, nothing on success.

use vstd::prelude::*;

use crate::behavior::{
    plan_build, plan_conquer, plan_deposit, plan_gather, spec_build_plan, spec_conquer_plan,
    spec_deposit_plan, spec_gather_plan,
};
use crate::hysteresis::{next_gathering, update_gathering};
use crate::model::{ActionPlan, FollowUp, ReturnStatus, Snapshot, Target, TickPlan};
use crate::task::{code_valid, decode_task, spec_decode, Task};

verus! {

/// The spend-phase plan of a task-bearing agent. `Task::Chill` never reaches
/// the spend phase: the dispatcher returns before entering the gathering
/// cycle.
pub open spec fn spec_spend_plan(t: Task, s: Snapshot) -> ActionPlan {
    match t {
        Task::Chill => ActionPlan::Nothing,
        Task::Conquer => spec_conquer_plan(s),
        Task::Harvest => spec_deposit_plan(s),
        Task::Build => spec_build_plan(s),
    }
}

/// The whole decision of one tick: the corrective task write (exactly when
/// the persisted code was absent or out of range), the gathering write
/// (exactly when the flag crosses a phase boundary), and the one action.
/// An agent resolved to the idle task does nothing and writes nothing
/// beyond the corrective task write.
pub open spec fn spec_plan(s: Snapshot) -> TickPlan {
    let t = spec_decode(s.task_code);
    let task_write: Option<i32> = if code_valid(s.task_code) {
        None
    } else {
        Some(0i32)
    };
    if t == Task::Chill {
        TickPlan { task_write, gathering_write: None, action: ActionPlan::Nothing }
    } else {
        let g = next_gathering(s.gathering, s.used_capacity, s.free_energy_capacity);
        let gathering_write: Option<bool> = if g == s.gathering {
            None
        } else {
            Some(g)
        };
        let action = if g {
            spec_gather_plan(s)
        } else {
            spec_spend_plan(t, s)
        };
        TickPlan { task_write, gathering_write, action }
    }
}

/// Processes one agent for the current tick: decodes and, if need be,
/// corrects the persisted task, updates the gathering flag at its two
/// boundary conditions, and plans the one behavior of this tick.
pub fn start_working(s: &Snapshot) -> (r: TickPlan)
    ensures
        r == spec_plan(*s),
{
    let (task, corrected) = decode_task(s.task_code);
    let task_write: Option<i32> = if corrected {
        Some(Task::Chill.to_int())
    } else {
        None
    };
    let action: ActionPlan;
    let gathering_write: Option<bool>;
    match task {
        Task::Chill => {
            gathering_write = None;
            action = ActionPlan::Nothing;
        },
        _ => {
            let g = update_gathering(s.gathering, s.used_capacity, s.free_energy_capacity);
            gathering_write = if g == s.gathering {
                None
            } else {
                Some(g)
            };
            if g {
                action = plan_gather(s);
            } else {
                action = match task {
                    Task::Conquer => plan_conquer(s),
                    Task::Harvest => plan_deposit(s),
                    Task::Build => plan_build(s),
                    Task::Chill => ActionPlan::Nothing,
                };
            }
        },
    }
    TickPlan { task_write, gathering_write, action }
}

/// The follow-up a reported command status leads to.
pub open spec fn spec_follow_up(target: Target, status: ReturnStatus) -> FollowUp {
    match status {
        ReturnStatus::Success => FollowUp::Done,
        ReturnStatus::NotInRange => FollowUp::MoveToward(target),
        ReturnStatus::Failure => FollowUp::Warn,
    }
}

/// Decides the follow-up of an issued command from its reported status:
/// out of range leads to exactly one move toward the command's own target,
/// success to nothing, and any other failure to one warning with no state
/// change.
pub fn follow_up(target: Target, status: ReturnStatus) -> (r: FollowUp)
    ensures
        r == spec_follow_up(target, status),
{
    match status {
        ReturnStatus::Success => FollowUp::Done,
        ReturnStatus::NotInRange => FollowUp::MoveToward(target),
        ReturnStatus::Failure => FollowUp::Warn,
    }
}

/// Corruption recovery: for every absent or out-of-range persisted task
/// code, the tick resolves to the idle task, persists exactly one corrected
/// write (the idle code), and performs no further action.
pub proof fn lemma_corrupt_code_resolves_idle(s: Snapshot)
    requires
        !code_valid(s.task_code),
    ensures
        spec_decode(s.task_code) == Task::Chill,
        spec_plan(s).task_write == Some(0i32),
        spec_plan(s).gathering_write is None,
        spec_plan(s).action == ActionPlan::Nothing,
{
}

/// Idle idempotence: an agent whose persisted task is validly the idle task
/// gets zero commands and zero state writes.
pub proof fn lemma_idle_no_writes_no_commands(s: Snapshot)
    requires
        code_valid(s.task_code),
        spec_decode(s.task_code) == Task::Chill,
    ensures
        spec_plan(s).task_write is None,
        spec_plan(s).gathering_write is None,
        spec_plan(s).action == ActionPlan::Nothing,
{
}

/// Movement fallback: a command status of `NotInRange` leads to exactly one
/// move toward the command's own target — and nothing else does: the
/// follow-up is a move only for that status.
pub proof fn lemma_not_in_range_moves(target: Target, status: ReturnStatus)
    ensures
        spec_follow_up(target, ReturnStatus::NotInRange) == FollowUp::MoveToward(target),
        spec_follow_up(target, status) is MoveToward <==> status == ReturnStatus::NotInRange,
{
}

} // verus!
