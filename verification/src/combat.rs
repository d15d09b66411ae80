//! Enemies and the player's choice of combat target.
use vstd::prelude::*;
use crate::cycle::next_index;

verus! {

/// The kinds of enemy in the world.
#[derive(Debug, Clone, Copy, PartialEq, Eq, Structural)]
pub enum EnemyType {
    ForestGuardian,
    RockElemental,
    WildBoar,
}

impl EnemyType {
    /// The enemy's name as shown to the player.
    pub fn name(self) -> (name: &'static str)
        ensures
            name@ == match self {
                EnemyType::ForestGuardian => "Forest Guardian"@,
                EnemyType::RockElemental => "Rock Elemental"@,
                EnemyType::WildBoar => "Wild Boar"@,
            },
    {
        match self {
            EnemyType::ForestGuardian => "Forest Guardian",
            EnemyType::RockElemental => "Rock Elemental",
            EnemyType::WildBoar => "Wild Boar",
        }
    }

    /// The experience the player gains for defeating the enemy.
    pub fn experience_reward(self) -> (xp: u64)
        ensures
            xp == match self {
                EnemyType::ForestGuardian => 50u64,
                EnemyType::RockElemental => 75u64,
                EnemyType::WildBoar => 40u64,
            },
    {
        match self {
            EnemyType::ForestGuardian => 50,
            EnemyType::RockElemental => 75,
            EnemyType::WildBoar => 40,
        }
    }
}

/// The player's current target (an entity, by its identifier) and whether
/// the player is in combat.
#[derive(Debug, Clone, Copy, PartialEq, Eq, Structural)]
pub struct CombatState {
    pub player_target: Option<u64>,
    pub in_combat: bool,
}

impl Default for CombatState {
    /// No target, out of combat.
    fn default() -> (state: Self)
        ensures
            state.player_target is None,
            !state.in_combat,
    {
        CombatState { player_target: None, in_combat: false }
    }
}

/// The position of the first occurrence of `target` among `candidates`, if any.
pub open spec fn first_position(candidates: Seq<u64>, target: u64) -> Option<int> {
    if exists|j: int| 0 <= j < candidates.len() && candidates[j] == target {
        Some(
            choose|j: int|
                0 <= j < candidates.len() && candidates[j] == target && forall|m: int|
                    0 <= m < j ==> candidates[m] != target,
        )
    } else {
        None
    }
}

/// The target chosen when the player cycles targets among `candidates` (the
/// living enemies in range, nearest first): the candidate after the current
/// target, wrapping to the nearest, or the nearest when there is no current
/// target or it is not among the candidates; no target when there are no
/// candidates.
pub open spec fn cycled_target(current: Option<u64>, candidates: Seq<u64>) -> Option<u64> {
    if candidates.len() == 0 {
        None
    } else {
        match current {
            Some(t) => match first_position(candidates, t) {
                Some(p) => Some(candidates[(p + 1) % (candidates.len() as int)]),
                None => Some(candidates[0]),
            },
            None => Some(candidates[0]),
        }
    }
}

proof fn lemma_first_position(candidates: Seq<u64>, target: u64, k: int)
    requires
        0 <= k < candidates.len(),
        candidates[k] == target,
        forall|m: int| 0 <= m < k ==> candidates[m] != target,
    ensures
        first_position(candidates, target) == Some(k),
{
    let c = choose|j: int|
        0 <= j < candidates.len() && candidates[j] == target && forall|m: int|
            0 <= m < j ==> candidates[m] != target;
    assert(0 <= c < candidates.len() && candidates[c] == target && forall|m: int|
        0 <= m < c ==> candidates[m] != target);
    if c < k {
        assert(candidates[c] != target);
    } else if c > k {
        assert(candidates[k] != target);
    }
}

fn find_position(candidates: &Vec<u64>, target: u64) -> (position: Option<usize>)
    ensures
        match position {
            Some(k) => first_position(candidates@, target) == Some(k as int) && k
                < candidates@.len(),
            None => first_position(candidates@, target) is None,
        },
{
    let mut k: usize = 0;
    while k < candidates.len()
        invariant
            k <= candidates@.len(),
            forall|j: int| 0 <= j < k ==> candidates@[j] != target,
        decreases candidates@.len() - k,
    {
        if candidates[k] == target {
            proof {
                lemma_first_position(candidates@, target, k as int);
            }
            return Some(k);
        }
        k = k + 1;
    }
    None
}

impl CombatState {
    /// Cycles the target among `candidates` (the living enemies within
    /// targeting range, nearest first): see `cycled_target`. The player is in
    /// combat exactly when a target was chosen.
    pub fn cycle_target(&mut self, candidates: &Vec<u64>)
        ensures
            final(self).player_target == cycled_target(old(self).player_target, candidates@),
            final(self).in_combat == (candidates@.len() > 0),
    {
        let len = candidates.len();
        if len == 0 {
            self.player_target = None;
            self.in_combat = false;
            return;
        }
        let next = match self.player_target {
            Some(current) => match find_position(candidates, current) {
                Some(p) => candidates[next_index(p, len)],
                None => candidates[0],
            },
            None => candidates[0],
        };
        self.player_target = Some(next);
        self.in_combat = true;
    }

    /// Drops the target and leaves combat (the target died, vanished or
    /// moved out of reach).
    pub fn lose_target(&mut self)
        ensures
            final(self).player_target is None,
            !final(self).in_combat,
    {
        self.player_target = None;
        self.in_combat = false;
    }
}

proof fn lemma_first_occurrence_exists(candidates: Seq<u64>, target: u64, k: int)
    requires
        0 <= k < candidates.len(),
        candidates[k] == target,
    ensures
        exists|j: int|
            0 <= j < candidates.len() && candidates[j] == target && forall|m: int|
                0 <= m < j ==> candidates[m] != target,
    decreases k,
{
    if exists|m: int| 0 <= m < k && candidates[m] == target {
        let m = choose|m: int| 0 <= m < k && candidates[m] == target;
        lemma_first_occurrence_exists(candidates, target, m);
    } else {
        assert(forall|m: int| 0 <= m < k ==> candidates[m] != target);
    }
}

proof fn lemma_first_position_in_range(candidates: Seq<u64>, target: u64)
    ensures
        first_position(candidates, target) matches Some(p) ==> 0 <= p < candidates.len()
            && candidates[p] == target,
{
    if exists|j: int| 0 <= j < candidates.len() && candidates[j] == target {
        let k = choose|j: int| 0 <= j < candidates.len() && candidates[j] == target;
        lemma_first_occurrence_exists(candidates, target, k);
    }
}

/// Cycling targets picks a target exactly when there are candidates, and
/// the target it picks is always one of them.
pub proof fn lemma_cycled_target_is_candidate(current: Option<u64>, candidates: Seq<u64>)
    ensures
        cycled_target(current, candidates) matches Some(t) ==> candidates.contains(t),
        candidates.len() > 0 <==> cycled_target(current, candidates) is Some,
{
    if candidates.len() > 0 {
        let len = candidates.len() as int;
        if let Some(t) = current {
            lemma_first_position_in_range(candidates, t);
            if let Some(p) = first_position(candidates, t) {
                vstd::arithmetic::div_mod::lemma_mod_pos_bound(p + 1, len);
                let q = (p + 1) % len;
                assert(candidates[q] == candidates[q]);
            } else {
                assert(candidates[0] == candidates[0]);
            }
        } else {
            assert(candidates[0] == candidates[0]);
        }
    }
}

/// Cycling moves from the current target to the next candidate in order,
/// wrapping from the farthest to the nearest; without a current target, or
/// when the current target is no longer a candidate, it picks the nearest.
pub proof fn lemma_cycling_moves_to_next_candidate(current: Option<u64>, candidates: Seq<u64>, p: int)
    requires
        candidates.len() > 0,
    ensures
        (current matches Some(t) && 0 <= p < candidates.len() && candidates[p] == t && (forall|m: int|
            0 <= m < p ==> candidates[m] != t)) ==> cycled_target(current, candidates) == Some(
            candidates[if p + 1 == candidates.len() { 0 } else { p + 1 }],
        ),
        (current is None || (current matches Some(t) && !candidates.contains(t))) ==> cycled_target(
            current,
            candidates,
        ) == Some(candidates[0]),
{
    if let Some(t) = current {
        if 0 <= p < candidates.len() && candidates[p] == t && (forall|m: int|
            0 <= m < p ==> candidates[m] != t) {
            lemma_first_position(candidates, t, p);
            if p + 1 == candidates.len() {
                vstd::arithmetic::div_mod::lemma_mod_self_0(candidates.len() as int);
            } else {
                vstd::arithmetic::div_mod::lemma_small_mod((p + 1) as nat, candidates.len() as nat);
            }
        }
        if !candidates.contains(t) {
            assert(!(exists|j: int| 0 <= j < candidates.len() && candidates[j] == t)) by {
                if exists|j: int| 0 <= j < candidates.len() && candidates[j] == t {
                    let j = choose|j: int| 0 <= j < candidates.len() && candidates[j] == t;
                    assert(candidates.contains(t));
                }
            }
        }
    }
}

} // verus!
