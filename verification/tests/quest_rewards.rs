use eryndor::quest_rewards::{QuestRewardSystem, QuestType};

#[test]
fn test_quest_experience_scaling() {
    // Level 1 player gets base experience
    assert_eq!(QuestRewardSystem::calculate_quest_experience(QuestType::SideQuest, 1), 300);

    // Higher level players get more experience
    let level_5_exp = QuestRewardSystem::calculate_quest_experience(QuestType::SideQuest, 5);
    let level_10_exp = QuestRewardSystem::calculate_quest_experience(QuestType::SideQuest, 10);
    let level_20_exp = QuestRewardSystem::calculate_quest_experience(QuestType::SideQuest, 20);

    assert!(level_5_exp > 300);
    assert!(level_10_exp > level_5_exp);
    assert!(level_20_exp > level_10_exp);

    println!(
        "Quest experience scaling: L1={}, L5={}, L10={}, L20={}",
        300, level_5_exp, level_10_exp, level_20_exp
    );
}

#[test]
fn test_main_story_vs_side_quest_rewards() {
    let player_level = 10;
    let main_story_exp = QuestRewardSystem::calculate_quest_experience(QuestType::MainStory, player_level);
    let side_quest_exp = QuestRewardSystem::calculate_quest_experience(QuestType::SideQuest, player_level);

    // Main story should always give more than side quests
    assert!(main_story_exp > side_quest_exp);

    // Should maintain the relative ratio (main story is ~3.33x base side quest)
    let ratio = main_story_exp as f64 / side_quest_exp as f64;
    assert!((ratio - 3.33).abs() < 0.1); // Within 10% of expected ratio
}

#[test]
fn quest_experience_base_rewards_at_level_one() {
    assert_eq!(QuestRewardSystem::calculate_quest_experience(QuestType::MainStory, 1), 1000);
    assert_eq!(QuestRewardSystem::calculate_quest_experience(QuestType::SideQuest, 0), 300);
    assert_eq!(QuestRewardSystem::calculate_quest_experience(QuestType::DailyQuest, 1), 150);
    assert_eq!(QuestRewardSystem::calculate_quest_experience(QuestType::Repeatable, 1), 75);
}

#[test]
fn quest_experience_exact_values() {
    // 300 * 5^1.5 / 10 = 335.41...
    assert_eq!(QuestRewardSystem::calculate_quest_experience(QuestType::SideQuest, 5), 335);
    // 1000 * 10^1.5 / 10 = 3162.27...
    assert_eq!(QuestRewardSystem::calculate_quest_experience(QuestType::MainStory, 10), 3162);
    // 300 * 100^1.5 / 10 = 30000 exactly
    assert_eq!(QuestRewardSystem::calculate_quest_experience(QuestType::SideQuest, 100), 30000);
    // 75 * 50^1.5 / 10 = 2651.65...
    assert_eq!(QuestRewardSystem::calculate_quest_experience(QuestType::Repeatable, 50), 2651);
}

#[test]
fn quest_experience_never_below_base() {
    // 2^1.5 / 10 < 1, so the base reward stands
    assert_eq!(QuestRewardSystem::calculate_quest_experience(QuestType::SideQuest, 2), 300);
    assert_eq!(QuestRewardSystem::calculate_quest_experience(QuestType::SideQuest, 4), 300);
}

#[test]
fn quest_experience_monotone_over_levels() {
    for t in [QuestType::MainStory, QuestType::SideQuest, QuestType::DailyQuest, QuestType::Repeatable] {
        let mut last = 0;
        for level in 0..200u32 {
            let xp = QuestRewardSystem::calculate_quest_experience(t, level);
            assert!(xp >= last);
            last = xp;
        }
    }
    for level in 0..200u32 {
        let main = QuestRewardSystem::calculate_quest_experience(QuestType::MainStory, level);
        let side = QuestRewardSystem::calculate_quest_experience(QuestType::SideQuest, level);
        let daily = QuestRewardSystem::calculate_quest_experience(QuestType::DailyQuest, level);
        let rep = QuestRewardSystem::calculate_quest_experience(QuestType::Repeatable, level);
        assert!(main > side && side >= daily && daily >= rep);
    }
}

#[test]
fn quest_experience_highest_level() {
    let xp = QuestRewardSystem::calculate_quest_experience(QuestType::MainStory, u32::MAX);
    // floor(1000 * (2^32 - 1)^1.5 / 10)
    let l = u32::MAX as f64;
    let approx = 100.0 * l * l.sqrt();
    assert!(((xp as f64) - approx).abs() / approx < 1e-9);
}

#[test]
fn base_reward_exactly_up_to_level_four() {
    let bases = [
        (QuestType::MainStory, 1000u64),
        (QuestType::SideQuest, 300),
        (QuestType::DailyQuest, 150),
        (QuestType::Repeatable, 75),
    ];
    for (quest_type, base) in bases {
        for level in 0..=4 {
            assert_eq!(QuestRewardSystem::calculate_quest_experience(quest_type, level), base);
        }
        assert!(QuestRewardSystem::calculate_quest_experience(quest_type, 5) > base);
    }
    assert_eq!(QuestRewardSystem::calculate_quest_experience(QuestType::Repeatable, 5), 83);
}

#[test]
fn quest_kinds_pay_in_strict_order() {
    for level in [0u32, 1, 4, 5, 10, 20, 100, 1000] {
        let main = QuestRewardSystem::calculate_quest_experience(QuestType::MainStory, level);
        let side = QuestRewardSystem::calculate_quest_experience(QuestType::SideQuest, level);
        let daily = QuestRewardSystem::calculate_quest_experience(QuestType::DailyQuest, level);
        let repeatable = QuestRewardSystem::calculate_quest_experience(QuestType::Repeatable, level);
        assert!(main > side && side > daily && daily > repeatable);
    }
}
