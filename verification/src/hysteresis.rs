//! The gather/spend phase flag and its hysteresis rule.
//!
//! The `gathering` flag only changes at the two boundary conditions: it
//! flips to `true` when a spending agent's inventory runs empty, and to
//! `false` when a gathering agent's energy inventory runs full. At every
//! intermediate inventory level it keeps its prior value, so the phase
//! cannot oscillate.

use vstd::prelude::*;

verus! {

/// The hysteresis rule: the next value of the gathering flag, from its prior
/// value and this tick's inventory observations.
pub open spec fn next_gathering(gathering: bool, used_capacity: u32, free_energy_capacity: u32) -> bool {
    if !gathering && used_capacity == 0 {
        true
    } else if gathering && free_energy_capacity == 0 {
        false
    } else {
        gathering
    }
}

/// Evaluates the hysteresis rule for one tick.
pub fn update_gathering(gathering: bool, used_capacity: u32, free_energy_capacity: u32) -> (r: bool)
    ensures
        r == next_gathering(gathering, used_capacity, free_energy_capacity),
{
    if !gathering && used_capacity == 0 {
        true
    } else if gathering && free_energy_capacity == 0 {
        false
    } else {
        gathering
    }
}

/// The flag after a whole sequence of per-tick observations, each a pair of
/// (total used capacity, free energy capacity), applied in order to the
/// initial value `g0`.
pub open spec fn run_gathering(g0: bool, obs: Seq<(u32, u32)>) -> bool
    decreases obs.len(),
{
    if obs.len() == 0 {
        g0
    } else {
        next_gathering(run_gathering(g0, obs.drop_last()), obs.last().0, obs.last().1)
    }
}

/// Hysteresis invariant: across any sequence of inventory observations, the
/// flag flips to `true` only on a tick where the used capacity is zero while
/// the flag was `false`, flips to `false` only on a tick where the free
/// energy capacity is zero while the flag was `true`, and is unchanged on
/// every other tick.
pub proof fn lemma_hysteresis_invariant(g0: bool, obs: Seq<(u32, u32)>, i: int)
    requires
        0 <= i < obs.len(),
    ensures
        ({
            let before = run_gathering(g0, obs.take(i));
            let after = run_gathering(g0, obs.take(i + 1));
            &&& (after && !before) <==> (!before && obs[i].0 == 0)
            &&& (!after && before) <==> (before && obs[i].1 == 0)
            &&& !(!before && obs[i].0 == 0) && !(before && obs[i].1 == 0) ==> after == before
        }),
{
    let taken = obs.take(i + 1);
    assert(taken.drop_last() =~= obs.take(i));
    assert(taken.last() == obs[i]);
}

} // verus!
