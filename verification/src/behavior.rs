//! The per-task behaviors: one plan function per behavior, each deciding at
//! most one command from the snapshot.
//!
//! Every behavior needs the region to be observable; when it is not, the
//! plan is a recoverable [`ActionPlan::VisibilityFailure`] that skips this
//! agent's tick without touching its state. A behavior with no eligible
//! target is a silent no-op.

use vstd::prelude::*;

use crate::deposit::{select_deposit_target, spec_select};
use crate::model::{ActionPlan, CommandKind, Snapshot, Target};

verus! {

/// The gather-phase plan: approach or extract from the first resource node
/// in enumeration order.
pub open spec fn spec_gather_plan(s: Snapshot) -> ActionPlan {
    if !s.room_visible {
        ActionPlan::VisibilityFailure
    } else if s.sources@.len() == 0 {
        ActionPlan::Nothing
    } else if s.sources@[0].adjacent {
        ActionPlan::Issue(CommandKind::Extract, Target::Source(0))
    } else {
        ActionPlan::MoveToward(Target::Source(0))
    }
}

/// Gather-phase behavior: pick the first resource node in enumeration
/// order; extract when adjacent, otherwise move toward it.
pub fn plan_gather(s: &Snapshot) -> (r: ActionPlan)
    ensures
        r == spec_gather_plan(*s),
{
    if !s.room_visible {
        ActionPlan::VisibilityFailure
    } else if s.sources.len() == 0 {
        ActionPlan::Nothing
    } else if s.sources[0].adjacent {
        ActionPlan::Issue(CommandKind::Extract, Target::Source(0))
    } else {
        ActionPlan::MoveToward(Target::Source(0))
    }
}

/// The deposit plan: transfer to the structure the three-tier priority rule
/// selects, or warn when the selected structure cannot receive a transfer.
pub open spec fn spec_deposit_plan(s: Snapshot) -> ActionPlan {
    if !s.room_visible {
        ActionPlan::VisibilityFailure
    } else {
        match spec_select(s.structures@) {
            None => ActionPlan::Nothing,
            Some(i) => if !s.structures@[i].transferable {
                ActionPlan::WarnNotTransferable
            } else {
                ActionPlan::Issue(CommandKind::Transfer, Target::Structure(i as usize))
            },
        }
    }
}

/// Spend-phase behavior of the Harvest task: deposit the energy inventory
/// into the best eligible storage structure.
pub fn plan_deposit(s: &Snapshot) -> (r: ActionPlan)
    ensures
        r == spec_deposit_plan(*s),
{
    if !s.room_visible {
        return ActionPlan::VisibilityFailure;
    }
    match select_deposit_target(&s.structures) {
        None => ActionPlan::Nothing,
        Some(i) => if !s.structures[i].transferable {
            ActionPlan::WarnNotTransferable
        } else {
            ActionPlan::Issue(CommandKind::Transfer, Target::Structure(i))
        },
    }
}

/// The conquer plan: advance the controllable objective, or warn when the
/// region has none.
pub open spec fn spec_conquer_plan(s: Snapshot) -> ActionPlan {
    if !s.room_visible {
        ActionPlan::VisibilityFailure
    } else if !s.controller_present {
        ActionPlan::WarnNoController
    } else {
        ActionPlan::Issue(CommandKind::AdvanceObjective, Target::Controller)
    }
}

/// Spend-phase behavior of the Conquer task: advance the region's
/// controllable objective.
pub fn plan_conquer(s: &Snapshot) -> (r: ActionPlan)
    ensures
        r == spec_conquer_plan(*s),
{
    if !s.room_visible {
        ActionPlan::VisibilityFailure
    } else if !s.controller_present {
        ActionPlan::WarnNoController
    } else {
        ActionPlan::Issue(CommandKind::AdvanceObjective, Target::Controller)
    }
}

/// The build plan: build at the first construction site in enumeration
/// order, if any is visible.
pub open spec fn spec_build_plan(s: Snapshot) -> ActionPlan {
    if !s.room_visible {
        ActionPlan::VisibilityFailure
    } else if s.site_count == 0 {
        ActionPlan::Nothing
    } else {
        ActionPlan::Issue(CommandKind::Build, Target::Site(0))
    }
}

/// Spend-phase behavior of the Build task: construct the first pending site
/// in enumeration order.
pub fn plan_build(s: &Snapshot) -> (r: ActionPlan)
    ensures
        r == spec_build_plan(*s),
{
    if !s.room_visible {
        ActionPlan::VisibilityFailure
    } else if s.site_count == 0 {
        ActionPlan::Nothing
    } else {
        ActionPlan::Issue(CommandKind::Build, Target::Site(0))
    }
}

} // verus!
