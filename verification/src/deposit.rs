//! Deposit target selection.
//!
//! Storage structures are ranked in three tiers: Extension first, then
//! Container or Tower, then Spawn; every other category is ineligible
//! regardless of capacity, as is any structure with no free energy capacity.
//! Among candidates of equal tier the first one encountered wins, so the
//! choice is deterministic and linear in the number of observed structures.

use vstd::prelude::*;

use crate::model::{StorageCandidate, StructureKind};

verus! {

/// Whether a structure can be a deposit target at all: one of the four
/// storable categories, with free energy capacity left.
pub open spec fn eligible(c: StorageCandidate) -> bool {
    c.kind != StructureKind::Other && c.free_energy > 0
}

/// The deposit priority of a structural category; a smaller tier is
/// preferred. Container and Tower share the middle tier.
pub open spec fn tier(k: StructureKind) -> int {
    match k {
        StructureKind::Extension => 0,
        StructureKind::Container => 1,
        StructureKind::Tower => 1,
        StructureKind::Spawn => 2,
        StructureKind::Other => 3,
    }
}

/// The index of the selected deposit target: the first-encountered eligible
/// candidate of the smallest tier, or `None` when nothing is eligible.
pub open spec fn spec_select(s: Seq<StorageCandidate>) -> Option<int>
    decreases s.len(),
{
    if s.len() == 0 {
        None
    } else {
        let prior = spec_select(s.drop_last());
        let last = s.len() - 1;
        if !eligible(s[last]) {
            prior
        } else {
            match prior {
                None => Some(last),
                Some(b) => if tier(s[last].kind) < tier(s[b].kind) {
                    Some(last)
                } else {
                    Some(b)
                },
            }
        }
    }
}

/// The selection is sound and complete: a target exists exactly when an
/// eligible candidate does, the target is eligible, no eligible candidate
/// has a smaller tier, and every earlier eligible candidate has a strictly
/// larger tier (first-encountered tie-break).
pub proof fn lemma_select_is_best(s: Seq<StorageCandidate>)
    ensures
        (spec_select(s) is Some) <==> exists|j: int| 0 <= j < s.len() && eligible(s[j]),
        spec_select(s) matches Some(i) ==> {
            &&& 0 <= i < s.len()
            &&& eligible(s[i])
            &&& forall|j: int| 0 <= j < s.len() && eligible(s[j]) ==> tier(s[i].kind) <= tier(s[j].kind)
            &&& forall|j: int| 0 <= j < i && eligible(s[j]) ==> tier(s[j].kind) > tier(s[i].kind)
        },
    decreases s.len(),
{
    if s.len() > 0 {
        let rest = s.drop_last();
        lemma_select_is_best(rest);
        assert(forall|j: int| 0 <= j < rest.len() ==> s[j] == rest[j]);
        let last = s.len() - 1;
        if eligible(s[last]) {
            assert(exists|j: int| 0 <= j < s.len() && eligible(s[j]));
        }
        if spec_select(s) is None && exists|j: int| 0 <= j < s.len() && eligible(s[j]) {
            let j = choose|j: int| 0 <= j < s.len() && eligible(s[j]);
            assert(j < last);
            assert(eligible(rest[j]));
        }
    }
}

fn is_eligible(c: &StorageCandidate) -> (r: bool)
    ensures
        r == eligible(*c),
{
    match c.kind {
        StructureKind::Other => false,
        _ => c.free_energy > 0,
    }
}

fn tier_of(k: StructureKind) -> (r: u8)
    ensures
        r as int == tier(k),
{
    match k {
        StructureKind::Extension => 0,
        StructureKind::Container => 1,
        StructureKind::Tower => 1,
        StructureKind::Spawn => 2,
        StructureKind::Other => 3,
    }
}

/// Scans the observed structures once and returns the index of the deposit
/// target that the three-tier priority rule selects, or `None` when no
/// structure is eligible.
pub fn select_deposit_target(cands: &Vec<StorageCandidate>) -> (r: Option<usize>)
    ensures
        match r {
            Some(i) => i < cands@.len() && spec_select(cands@) == Some(i as int),
            None => spec_select(cands@) is None,
        },
{
    let mut best: Option<usize> = None;
    let mut k: usize = 0;
    while k < cands.len()
        invariant
            k <= cands@.len(),
            match best {
                Some(b) => b < k && spec_select(cands@.take(k as int)) == Some(b as int),
                None => spec_select(cands@.take(k as int)) is None,
            },
        decreases cands@.len() - k,
    {
        proof {
            assert(cands@.take(k as int + 1).drop_last() =~= cands@.take(k as int));
            assert(cands@.take(k as int + 1).last() == cands@[k as int]);
        }
        if is_eligible(&cands[k]) {
            match best {
                None => {
                    best = Some(k);
                },
                Some(b) => {
                    if tier_of(cands[k].kind) < tier_of(cands[b].kind) {
                        best = Some(k);
                    }
                },
            }
        }
        k = k + 1;
    }
    proof {
        assert(cands@.take(cands@.len() as int) =~= cands@);
    }
    best
}

} // verus!
