//! End-to-end tests of the dispatcher: one snapshot in, one tick plan out.

use creeptasks::dispatch::{follow_up, start_working};
use creeptasks::model::{
    ActionPlan, CommandKind, FollowUp, ReturnStatus, Snapshot, SourceInfo, StorageCandidate,
    StructureKind, Target,
};

/// A visible, empty region for an agent with a half-filled inventory: no
/// boundary condition holds, no target exists.
fn base_snapshot(task_code: Option<i32>, gathering: bool) -> Snapshot {
    Snapshot {
        task_code,
        gathering,
        used_capacity: 20,
        free_energy_capacity: 30,
        room_visible: true,
        sources: vec![],
        structures: vec![],
        controller_present: false,
        site_count: 0,
    }
}

#[test]
fn corrupt_task_code_writes_one_correction_and_idles() {
    for code in [None, Some(4), Some(17), Some(-3), Some(i32::MAX)] {
        let plan = start_working(&base_snapshot(code, true));
        assert_eq!(plan.task_write, Some(0));
        assert_eq!(plan.gathering_write, None);
        assert_eq!(plan.action, ActionPlan::Nothing);
    }
}

#[test]
fn idle_task_writes_nothing_and_commands_nothing() {
    // Even on a tick where a task-bearing agent would flip its phase flag.
    let mut s = base_snapshot(Some(0), false);
    s.used_capacity = 0;
    let plan = start_working(&s);
    assert_eq!(plan.task_write, None);
    assert_eq!(plan.gathering_write, None);
    assert_eq!(plan.action, ActionPlan::Nothing);
}

#[test]
fn empty_inventory_starts_gathering_and_approaches_the_node() {
    // Harvest task, spending, inventory empty: flip to gather; a node is
    // visible but not adjacent, so approach it.
    let mut s = base_snapshot(Some(2), false);
    s.used_capacity = 0;
    s.sources = vec![SourceInfo { adjacent: false }];
    let plan = start_working(&s);
    assert_eq!(plan.task_write, None);
    assert_eq!(plan.gathering_write, Some(true));
    assert_eq!(plan.action, ActionPlan::MoveToward(Target::Source(0)));
}

#[test]
fn adjacent_node_is_extracted_not_approached() {
    // Harvest task, already gathering, adjacent to the first node.
    let mut s = base_snapshot(Some(2), true);
    s.sources = vec![SourceInfo { adjacent: true }, SourceInfo { adjacent: false }];
    let plan = start_working(&s);
    assert_eq!(plan.gathering_write, None);
    assert_eq!(plan.action, ActionPlan::Issue(CommandKind::Extract, Target::Source(0)));
}

#[test]
fn gathering_without_a_visible_node_does_nothing() {
    let s = base_snapshot(Some(2), true);
    let plan = start_working(&s);
    assert_eq!(plan.action, ActionPlan::Nothing);
}

#[test]
fn full_energy_switches_to_spending() {
    let mut s = base_snapshot(Some(2), true);
    s.free_energy_capacity = 0;
    s.structures = vec![StorageCandidate {
        kind: StructureKind::Extension,
        free_energy: 5,
        transferable: true,
    }];
    let plan = start_working(&s);
    assert_eq!(plan.gathering_write, Some(false));
    assert_eq!(plan.action, ActionPlan::Issue(CommandKind::Transfer, Target::Structure(0)));
}

#[test]
fn deposit_prefers_the_extension_over_the_spawn() {
    let mut s = base_snapshot(Some(2), false);
    s.structures = vec![
        StorageCandidate { kind: StructureKind::Spawn, free_energy: 10, transferable: true },
        StorageCandidate { kind: StructureKind::Extension, free_energy: 5, transferable: true },
    ];
    let plan = start_working(&s);
    assert_eq!(plan.action, ActionPlan::Issue(CommandKind::Transfer, Target::Structure(1)));
}

#[test]
fn deposit_with_no_eligible_structure_does_nothing() {
    let mut s = base_snapshot(Some(2), false);
    s.structures = vec![StorageCandidate {
        kind: StructureKind::Other,
        free_energy: 100,
        transferable: true,
    }];
    let plan = start_working(&s);
    assert_eq!(plan.action, ActionPlan::Nothing);
}

#[test]
fn non_transferable_target_warns_and_stops() {
    let mut s = base_snapshot(Some(2), false);
    s.structures = vec![StorageCandidate {
        kind: StructureKind::Container,
        free_energy: 8,
        transferable: false,
    }];
    let plan = start_working(&s);
    assert_eq!(plan.action, ActionPlan::WarnNotTransferable);
}

#[test]
fn build_site_is_approached_then_built() {
    // Build task, spending, one site visible.
    let mut s = base_snapshot(Some(3), false);
    s.site_count = 1;
    let plan = start_working(&s);
    assert_eq!(plan.task_write, None);
    assert_eq!(plan.gathering_write, None);
    assert_eq!(plan.action, ActionPlan::Issue(CommandKind::Build, Target::Site(0)));
    // Not adjacent: the build command reports NotInRange, and the follow-up
    // is exactly one move toward the same site.
    assert_eq!(
        follow_up(Target::Site(0), ReturnStatus::NotInRange),
        FollowUp::MoveToward(Target::Site(0))
    );
    // Adjacent: the build command succeeds silently.
    assert_eq!(follow_up(Target::Site(0), ReturnStatus::Success), FollowUp::Done);
}

#[test]
fn build_with_no_site_does_nothing() {
    let s = base_snapshot(Some(3), false);
    let plan = start_working(&s);
    assert_eq!(plan.action, ActionPlan::Nothing);
}

#[test]
fn conquer_without_an_objective_warns_without_a_command() {
    let s = base_snapshot(Some(1), false);
    let plan = start_working(&s);
    assert_eq!(plan.task_write, None);
    assert_eq!(plan.gathering_write, None);
    assert_eq!(plan.action, ActionPlan::WarnNoController);
}

#[test]
fn conquer_advances_the_objective_when_present() {
    let mut s = base_snapshot(Some(1), false);
    s.controller_present = true;
    let plan = start_working(&s);
    assert_eq!(plan.action, ActionPlan::Issue(CommandKind::AdvanceObjective, Target::Controller));
}

#[test]
fn invisible_region_skips_the_tick_but_keeps_the_phase_write() {
    let mut s = base_snapshot(Some(2), false);
    s.used_capacity = 0;
    s.room_visible = false;
    let plan = start_working(&s);
    // The boundary write still happens; the behavior is skipped recoverably.
    assert_eq!(plan.gathering_write, Some(true));
    assert_eq!(plan.action, ActionPlan::VisibilityFailure);
}

#[test]
fn intermediate_inventory_keeps_the_phase() {
    // Neither boundary holds: the flag is stable in both phases.
    let gathering = start_working(&base_snapshot(Some(1), true));
    assert_eq!(gathering.gathering_write, None);
    let spending = start_working(&base_snapshot(Some(1), false));
    assert_eq!(spending.gathering_write, None);
}
