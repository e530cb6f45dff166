//! The persisted task and its integer codec.
//!
//! The task is persisted as a small integer. Decoding is total: an absent,
//! unreadable or out-of-range code normalizes to [`Task::Chill`] (the idle
//! task), and the caller is told to persist the corrected code so later
//! ticks read a valid value.

use vstd::prelude::*;

verus! {

/// The closed set of tasks an agent can carry.
#[derive(Copy, Clone, Debug, PartialEq, Eq, Structural)]
pub enum Task {
    /// Idle: do nothing this tick.
    Chill,
    /// Advance the region's controllable objective.
    Conquer,
    /// Deposit gathered energy into storage structures.
    Harvest,
    /// Construct a pending building site.
    Build,
}

impl Task {
    /// The versioned integer code under which a task is persisted.
    pub open spec fn code(self) -> i32 {
        match self {
            Task::Chill => 0,
            Task::Conquer => 1,
            Task::Harvest => 2,
            Task::Build => 3,
        }
    }

    pub fn to_int(self) -> (r: i32)
        ensures
            r == self.code(),
    {
        match self {
            Task::Chill => 0,
            Task::Conquer => 1,
            Task::Harvest => 2,
            Task::Build => 3,
        }
    }

    /// The task persisted under code `i`, if `i` is a valid code.
    pub open spec fn spec_from_int(i: i32) -> Option<Task> {
        if i == 0 {
            Some(Task::Chill)
        } else if i == 1 {
            Some(Task::Conquer)
        } else if i == 2 {
            Some(Task::Harvest)
        } else if i == 3 {
            Some(Task::Build)
        } else {
            None
        }
    }

    pub fn from_int(i: i32) -> (r: Option<Task>)
        ensures
            r == Task::spec_from_int(i),
            r matches Some(t) ==> t.code() == i,
    {
        if i == 0 {
            Some(Task::Chill)
        } else if i == 1 {
            Some(Task::Conquer)
        } else if i == 2 {
            Some(Task::Harvest)
        } else if i == 3 {
            Some(Task::Build)
        } else {
            None
        }
    }
}

/// Whether a persisted read yielded a valid task code.
pub open spec fn code_valid(code: Option<i32>) -> bool {
    code matches Some(c) && Task::spec_from_int(c) is Some
}

/// The task a persisted read resolves to: a valid code decodes, anything
/// else normalizes to `Task::Chill`.
pub open spec fn spec_decode(code: Option<i32>) -> Task {
    match code {
        Some(c) => match Task::spec_from_int(c) {
            Some(t) => t,
            None => Task::Chill,
        },
        None => Task::Chill,
    }
}

/// Decodes a persisted task read. Returns the resolved task together with
/// `true` when the read was absent or out of range, in which case the caller
/// must persist the corrected (idle) code.
pub fn decode_task(code: Option<i32>) -> (r: (Task, bool))
    ensures
        r.0 == spec_decode(code),
        r.1 == !code_valid(code),
        r.1 ==> r.0 == Task::Chill,
{
    match code {
        Some(c) => match Task::from_int(c) {
            Some(t) => (t, false),
            None => (Task::Chill, true),
        },
        None => (Task::Chill, true),
    }
}

} // verus!
