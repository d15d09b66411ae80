//! Quest rewards whose experience grows with the player's level.
//!
//! A quest of a given kind has a base reward. From level 2 on, the reward is
//! scaled by `level^1.5 / 10`, and never drops below the base reward. The
//! scaled value is computed exactly on integers: `base * level^1.5 / 10` is
//! `sqrt(base^2 * level^3) / 10`, and its integer part is the unique `q` with
//! `100 * q^2 <= base^2 * level^3 < 100 * (q + 1)^2`.
use vstd::prelude::*;

verus! {

/// The kinds of quest, each with its own base reward.
#[derive(Debug, Clone, Copy, PartialEq, Eq, Structural)]
pub enum QuestType {
    MainStory,
    SideQuest,
    DailyQuest,
    Repeatable,
}

/// Base experience of a quest kind (what a level 1 player receives).
pub open spec fn base_reward(quest_type: QuestType) -> nat {
    match quest_type {
        QuestType::MainStory => 1000,
        QuestType::SideQuest => 300,
        QuestType::DailyQuest => 150,
        QuestType::Repeatable => 75,
    }
}

/// `base^2 * level^3`: the square of `base * level^1.5`.
pub open spec fn reward_radicand(base: nat, level: nat) -> nat {
    base * base * (level * level * level)
}

/// `q` is the integer part of `sqrt(n) / 10`.
pub open spec fn is_scaled_root(q: nat, n: nat) -> bool {
    100 * (q * q) <= n && n < 100 * ((q + 1) * (q + 1))
}

/// The integer part of `sqrt(n) / 10`.
pub open spec fn scaled_root(n: nat) -> nat {
    choose|q: nat| is_scaled_root(q, n)
}

/// Experience for a quest of kind `quest_type` completed at `level`:
/// the base reward at level 0 and 1, else `max(base, floor(base * level^1.5 / 10))`.
pub open spec fn quest_experience(quest_type: QuestType, level: nat) -> nat {
    let base = base_reward(quest_type);
    if level <= 1 {
        base
    } else {
        let scaled = scaled_root(reward_radicand(base, level));
        if scaled >= base {
            scaled
        } else {
            base
        }
    }
}

proof fn lemma_square_lt(a: nat, b: nat)
    requires
        a < b,
    ensures
        a * a < b * b,
{
    assert(a * a < b * b) by (nonlinear_arith)
        requires
            a < b,
    ;
}

proof fn lemma_square_le(a: nat, b: nat)
    requires
        a <= b,
    ensures
        a * a <= b * b,
{
    assert(a * a <= b * b) by (nonlinear_arith)
        requires
            a <= b,
    ;
}

/// At most one `q` is the scaled root of `n`.
proof fn lemma_scaled_root_unique(q1: nat, q2: nat, n: nat)
    requires
        is_scaled_root(q1, n),
        is_scaled_root(q2, n),
    ensures
        q1 == q2,
{
    if q1 < q2 {
        lemma_square_le(q1 + 1, q2);
    } else if q2 < q1 {
        lemma_square_le(q2 + 1, q1);
    }
}

/// Every `n` has a scaled root.
proof fn lemma_scaled_root_exists(n: nat)
    ensures
        is_scaled_root(scaled_root(n), n),
    decreases n,
{
    if n == 0 {
        assert(is_scaled_root(0, 0)) by (nonlinear_arith);
    } else {
        lemma_scaled_root_exists((n - 1) as nat);
        let q = scaled_root((n - 1) as nat);
        lemma_square_lt(q + 1, q + 2);
        if 100 * ((q + 1) * (q + 1)) <= n {
            assert(is_scaled_root(q + 1, n));
        } else {
            assert(is_scaled_root(q, n));
        }
    }
}

/// The scaled root grows with its argument.
proof fn lemma_scaled_root_monotone(n1: nat, n2: nat)
    requires
        n1 <= n2,
    ensures
        scaled_root(n1) <= scaled_root(n2),
{
    lemma_scaled_root_exists(n1);
    lemma_scaled_root_exists(n2);
    let q1 = scaled_root(n1);
    let q2 = scaled_root(n2);
    if q1 > q2 {
        lemma_square_le(q2 + 1, q1);
    }
}

proof fn lemma_radicand_monotone(b1: nat, l1: nat, b2: nat, l2: nat)
    requires
        b1 <= b2,
        l1 <= l2,
    ensures
        reward_radicand(b1, l1) <= reward_radicand(b2, l2),
{
    assert(b1 * b1 * (l1 * l1 * l1) <= b2 * b2 * (l2 * l2 * l2)) by (nonlinear_arith)
        requires
            b1 <= b2,
            l1 <= l2,
    ;
}

/// A quest never pays less than its base reward, whatever the level.
pub proof fn lemma_quest_experience_at_least_base(quest_type: QuestType, level: nat)
    ensures
        quest_experience(quest_type, level) >= base_reward(quest_type),
        level <= 1 ==> quest_experience(quest_type, level) == base_reward(quest_type),
{
}

/// The level-scaled reward never decreases as the player's level rises.
pub proof fn lemma_quest_experience_monotone_in_level(quest_type: QuestType, l1: nat, l2: nat)
    requires
        l1 <= l2,
    ensures
        quest_experience(quest_type, l1) <= quest_experience(quest_type, l2),
{
    let base = base_reward(quest_type);
    if l1 > 1 {
        lemma_radicand_monotone(base, l1, base, l2);
        lemma_scaled_root_monotone(reward_radicand(base, l1), reward_radicand(base, l2));
    }
}

/// At any level, a quest kind with a larger base reward pays at least as much.
pub proof fn lemma_quest_experience_follows_base(t1: QuestType, t2: QuestType, level: nat)
    requires
        base_reward(t1) >= base_reward(t2),
    ensures
        quest_experience(t1, level) >= quest_experience(t2, level),
{
    if level > 1 {
        lemma_radicand_monotone(base_reward(t2), level, base_reward(t1), level);
        lemma_scaled_root_monotone(
            reward_radicand(base_reward(t2), level),
            reward_radicand(base_reward(t1), level),
        );
    }
}

/// At any level, a main story quest pays strictly more than a side quest.
pub proof fn lemma_main_story_exceeds_side_quest(level: nat)
    ensures
        quest_experience(QuestType::MainStory, level) > quest_experience(QuestType::SideQuest, level),
{
    if level > 1 {
        let n_main = reward_radicand(1000, level);
        let n_side = reward_radicand(300, level);
        lemma_scaled_root_exists(n_main);
        lemma_scaled_root_exists(n_side);
        let qm = scaled_root(n_main);
        let qs = scaled_root(n_side);
        let c = level * level * level;
        assert(n_main == 1000000 * c);
        assert(n_side == 90000 * c);
        if qs >= 300 {
            // 100 * (qs + 1)^2 <= 100 * (10/3 qs)^2 <= n_main, so qm >= qs + 1
            assert(100 * ((qs + 1) * (qs + 1)) <= n_main) by (nonlinear_arith)
                requires
                    qs >= 300,
                    100 * (qs * qs) <= n_side,
                    n_main == 1000000 * c,
                    n_side == 90000 * c,
            ;
            if qm <= qs {
                lemma_square_le(qm + 1, qs + 1);
            }
        }
    }
}

/// The scaled root of four times `n` exceeds that of `n` when the latter is
/// at least 1: doubling a base reward doubles its scaled reward, rounded down.
proof fn lemma_scaled_root_of_quadruple(n: nat)
    requires
        scaled_root(n) >= 1,
    ensures
        scaled_root(4 * n) > scaled_root(n),
{
    lemma_scaled_root_exists(n);
    lemma_scaled_root_exists(4 * n);
    let q = scaled_root(n);
    let q4 = scaled_root(4 * n);
    assert(100 * ((q + 1) * (q + 1)) <= 4 * n) by (nonlinear_arith)
        requires
            q >= 1,
            100 * (q * q) <= n,
    ;
    if q4 <= q {
        lemma_square_le(q4 + 1, q + 1);
    }
}

/// A quest kind whose base reward is twice another's pays strictly more at
/// every level.
proof fn lemma_double_base_pays_more(big: QuestType, small: QuestType, level: nat)
    requires
        base_reward(big) == 2 * base_reward(small),
        base_reward(small) >= 1,
    ensures
        quest_experience(big, level) > quest_experience(small, level),
{
    if level > 1 {
        let b = base_reward(small);
        let c = level * level * level;
        let n_small = reward_radicand(b, level);
        let n_big = reward_radicand(2 * b, level);
        assert(n_big == 4 * n_small) by (nonlinear_arith)
            requires
                n_small == b * b * c,
                n_big == (2 * b) * (2 * b) * c,
        ;
        lemma_scaled_root_exists(n_small);
        if scaled_root(n_small) >= 1 {
            lemma_scaled_root_of_quadruple(n_small);
        }
    }
}

/// At any level the quest kinds pay in a strict order: main story above side
/// quest, side quest above daily quest, daily quest above repeatable quest.
pub proof fn lemma_quest_kinds_strictly_ordered(level: nat)
    ensures
        quest_experience(QuestType::MainStory, level) > quest_experience(QuestType::SideQuest, level),
        quest_experience(QuestType::SideQuest, level) > quest_experience(QuestType::DailyQuest, level),
        quest_experience(QuestType::DailyQuest, level) > quest_experience(QuestType::Repeatable, level),
{
    lemma_main_story_exceeds_side_quest(level);
    lemma_double_base_pays_more(QuestType::SideQuest, QuestType::DailyQuest, level);
    lemma_double_base_pays_more(QuestType::DailyQuest, QuestType::Repeatable, level);
}

/// A quest pays exactly its base reward at levels up to 4, and strictly more
/// from level 5 on.
pub proof fn lemma_quest_experience_is_base_up_to_level_four(quest_type: QuestType, level: nat)
    ensures
        (quest_experience(quest_type, level) == base_reward(quest_type)) <==> level <= 4,
{
    let b = base_reward(quest_type);
    if level > 1 {
        let c = level * level * level;
        let n = reward_radicand(b, level);
        lemma_scaled_root_exists(n);
        let q = scaled_root(n);
        if level <= 4 {
            assert(c <= 64) by (nonlinear_arith)
                requires
                    c == level * level * level,
                    level <= 4,
            ;
            assert(n < 100 * (b * b)) by (nonlinear_arith)
                requires
                    n == b * b * c,
                    c <= 64,
                    b >= 75,
            ;
            if q >= b {
                lemma_square_le(b, q);
            }
        } else {
            assert(c >= 125) by (nonlinear_arith)
                requires
                    c == level * level * level,
                    level >= 5,
            ;
            assert(100 * ((b + 1) * (b + 1)) <= n) by (nonlinear_arith)
                requires
                    n == b * b * c,
                    c >= 125,
                    b >= 75,
            ;
            if q <= b {
                lemma_square_le(q + 1, b + 1);
            }
        }
    }
}

/// Quest experience rewards.
pub struct QuestRewardSystem;

/// The integer part of `sqrt(n) / 10`, by bisection.
fn scaled_root_of(n: u128) -> (q: u128)
    requires
        n < 0x100000000000000000000000000000,  // 2^116
    ensures
        is_scaled_root(q as nat, n as nat),
        q < 0x100000000000000,  // 2^56
{
    let mut lo: u128 = 0;
    let mut hi: u128 = 0x100000000000000;  // 2^56
    assert(hi * hi == 0x10000000000000000000000000000);
    while lo + 1 < hi
        invariant
            lo < hi <= 0x100000000000000,
            100 * (lo * lo) <= n,
            n < 100 * (hi * hi),
        decreases hi - lo,
    {
        let mid: u128 = lo + (hi - lo) / 2;
        assert(lo < mid < hi);
        assert(mid * mid < 0x10000000000000000000000000000) by (nonlinear_arith)
            requires
                mid < 0x100000000000000,
        ;
        if 100 * (mid * mid) <= n {
            lo = mid;
        } else {
            hi = mid;
        }
    }
    assert(hi == lo + 1);
    lo
}

impl QuestRewardSystem {
    /// Base quest experience scaled with the player's level: the base reward
    /// of the quest kind for levels 0 and 1, else the integer part of
    /// `base * level^1.5 / 10`, and never less than the base reward.
    pub fn calculate_quest_experience(quest_type: QuestType, player_level: u32) -> (xp: u64)
        ensures
            xp == quest_experience(quest_type, player_level as nat),
    {
        let base: u64 = match quest_type {
            QuestType::MainStory => 1000,
            QuestType::SideQuest => 300,
            QuestType::DailyQuest => 150,
            QuestType::Repeatable => 75,
        };
        if player_level <= 1 {
            return base;
        }
        let b: u128 = base as u128;
        let l: u128 = player_level as u128;
        assert(b * b <= 1000000 && l * l < 0x10000000000000000 && l * l * l
            < 0x1000000000000000000000000 && b * b * (l * l * l)
            < 0x100000000000000000000000000000) by (nonlinear_arith)
            requires
                b <= 1000,
                l < 0x100000000,
        ;
        let n: u128 = b * b * (l * l * l);
        let q = scaled_root_of(n);
        proof {
            let radicand = reward_radicand(base as nat, player_level as nat);
            assert(n as nat == radicand);
            lemma_scaled_root_exists(radicand);
            lemma_scaled_root_unique(q as nat, scaled_root(radicand), radicand);
        }
        let scaled: u64 = q as u64;
        if scaled >= base {
            scaled
        } else {
            base
        }
    }
}

} // verus!
